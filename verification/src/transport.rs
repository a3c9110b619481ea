//! The engine's trusted boundary to the transport crate: validation calls it
//! makes before any network activity, and the classification of its errors.

use vstd::prelude::*;

use crate::error::GufoHttpError;
use crate::headers::{valid_header_name, valid_header_value};

verus! {

/// The transport's error type, carried opaquely through the engine.
#[verifier::external_type_specification]
#[verifier::external_body]
pub struct ExReqwestError(reqwest::Error);

/// Whether the transport's URL parser accepts `s` as a proxy endpoint; a
/// function of the characters alone.
pub uninterp spec fn proxy_accepts(s: Seq<char>) -> bool;

/// Relies on reqwest::header::HeaderName::from_bytes: it accepts exactly the
/// non-empty strings of at most 65535 bytes whose every byte is a token
/// character of the header grammar (upper case included; it is normalized).
#[verifier::external_body]
pub(crate) fn check_header_name(name: &[u8]) -> (r: Result<(), String>)
    ensures
        r is Ok <==> valid_header_name(name@),
{
    match reqwest::header::HeaderName::from_bytes(name) {
        Ok(_) => Ok(()),
        Err(e) => Err(e.to_string()),
    }
}

/// Relies on reqwest::header::HeaderValue::from_bytes: it accepts exactly
/// the byte strings free of control bytes, horizontal tab excepted.
#[verifier::external_body]
pub(crate) fn check_header_value(value: &[u8]) -> (r: Result<(), String>)
    ensures
        r is Ok <==> valid_header_value(value@),
{
    match reqwest::header::HeaderValue::from_bytes(value) {
        Ok(_) => Ok(()),
        Err(e) => Err(e.to_string()),
    }
}

/// Relies on reqwest::Proxy::all: whether it accepts a proxy URL is a
/// function of the URL string alone.
#[verifier::external_body]
pub(crate) fn check_proxy_url(url: &str) -> (r: Result<(), String>)
    ensures
        r is Ok <==> proxy_accepts(url@),
{
    match reqwest::Proxy::all(url) {
        Ok(_) => Ok(()),
        Err(e) => Err(e.to_string()),
    }
}

/// Relies on reqwest::Error::is_connect, is_timeout and is_redirect to sort
/// a transport failure into the engine's taxonomy, and on its Display
/// rendering for the carried message.
#[verifier::external_body]
pub(crate) fn classify_error(e: reqwest::Error) -> (r: GufoHttpError)
    ensures
        r.is_transport_class(),
{
    if e.is_connect() {
        GufoHttpError::Connect(e.to_string())
    } else if e.is_timeout() {
        GufoHttpError::Timeout
    } else if e.is_redirect() {
        GufoHttpError::Redirect
    } else {
        GufoHttpError::Request(e.to_string())
    }
}

} // verus!
