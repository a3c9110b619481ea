//! Core engine of an HTTP client: configuration resolution, per-request
//! composition, validation of headers, proxies and authentication, and the
//! one-shot response body lifecycle. The network transport itself is an
//! external collaborator; the engine prepares everything the transport needs
//! and interprets what it returns.

pub mod auth;
pub mod client;
pub mod error;
pub mod headers;
pub mod method;
pub mod proxy;
pub mod response;
pub mod text;
pub mod transport;
