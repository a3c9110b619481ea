use vstd::prelude::*;

verus! {

/// Convenient alias for results of engine operations.
pub type HttpResult<T> = Result<T, GufoHttpError>;

/// Error taxonomy of the engine. Every failure of a build, a dispatch or a
/// body read surfaces as exactly one of these; none is retried automatically.
#[derive(Debug)]
pub enum GufoHttpError {
    /// Generic transport failure, carrying the transport's message.
    Request(String),
    /// The redirect hop count exceeded the configured cap.
    Redirect,
    /// The transport could not establish a connection.
    Connect(String),
    /// Malformed input: bad header bytes or a bad proxy URL, detected before
    /// any network activity.
    ValueError(String),
    /// The connect or whole-request deadline was exceeded.
    Timeout,
    /// A wrong concrete object was supplied where an engine type was
    /// expected; raised by embedding layers, never by the engine itself.
    Downcast,
    /// A response body read was attempted a second time.
    AlreadyRead,
}

impl GufoHttpError {
    /// The classes that a transport-level failure may map to: a dispatch
    /// never turns a network failure into a validation or lifecycle error.
    pub open spec fn is_transport_class(&self) -> bool {
        self is Request || self is Redirect || self is Connect || self is Timeout
    }
}

} // verus!
