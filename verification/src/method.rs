use vstd::prelude::*;

use crate::error::{GufoHttpError, HttpResult};
use crate::text;

verus! {

/// Compression methods for the `compression` bitmask of a client
/// configuration. Each bit independently enables negotiation and transparent
/// decoding of one content encoding; bits outside this set are ignored.
pub const DEFLATE: u8 = 1;
pub const GZIP: u8 = 2;
pub const BROTLI: u8 = 4;
pub const ZSTD: u8 = 8;

/// The closed set of request verbs the engine can dispatch.
#[allow(clippy::upper_case_acronyms)]
#[derive(Debug, Clone, Copy, PartialEq, Eq, Structural)]
pub enum RequestMethod {
    GET,
    HEAD,
    OPTIONS,
    DELETE,
    POST,
    PUT,
    PATCH,
}

/// The verb named by `s`, if any. Lookup is exact: verbs are spelled in
/// upper case.
pub open spec fn method_of(s: Seq<char>) -> Option<RequestMethod> {
    if s == "GET"@ {
        Some(RequestMethod::GET)
    } else if s == "HEAD"@ {
        Some(RequestMethod::HEAD)
    } else if s == "OPTIONS"@ {
        Some(RequestMethod::OPTIONS)
    } else if s == "DELETE"@ {
        Some(RequestMethod::DELETE)
    } else if s == "POST"@ {
        Some(RequestMethod::POST)
    } else if s == "PUT"@ {
        Some(RequestMethod::PUT)
    } else if s == "PATCH"@ {
        Some(RequestMethod::PATCH)
    } else {
        None
    }
}

/// The canonical spelling of a verb, as the transport expects it.
pub open spec fn method_token(m: RequestMethod) -> Seq<char> {
    match m {
        RequestMethod::GET => "GET"@,
        RequestMethod::HEAD => "HEAD"@,
        RequestMethod::OPTIONS => "OPTIONS"@,
        RequestMethod::DELETE => "DELETE"@,
        RequestMethod::POST => "POST"@,
        RequestMethod::PUT => "PUT"@,
        RequestMethod::PATCH => "PATCH"@,
    }
}

impl RequestMethod {
    /// Look a verb up by name; `None` for an unknown name.
    pub fn get(name: &str) -> (r: Option<RequestMethod>)
        ensures
            r == method_of(name@),
    {
        if text::str_eq(name, "GET") {
            Some(RequestMethod::GET)
        } else if text::str_eq(name, "HEAD") {
            Some(RequestMethod::HEAD)
        } else if text::str_eq(name, "OPTIONS") {
            Some(RequestMethod::OPTIONS)
        } else if text::str_eq(name, "DELETE") {
            Some(RequestMethod::DELETE)
        } else if text::str_eq(name, "POST") {
            Some(RequestMethod::POST)
        } else if text::str_eq(name, "PUT") {
            Some(RequestMethod::PUT)
        } else if text::str_eq(name, "PATCH") {
            Some(RequestMethod::PATCH)
        } else {
            None
        }
    }

    /// Indexed lookup by name; an unknown name is an error carrying that
    /// name, so an embedding can re-raise it as a key lookup failure.
    pub fn __getitem__(&self, name: &str) -> (r: HttpResult<RequestMethod>)
        ensures
            method_of(name@) matches Some(m) ==> r == Ok::<RequestMethod, GufoHttpError>(m),
            method_of(name@) is None ==> (r matches Err(e) && e matches GufoHttpError::ValueError(
                missing,
            ) && missing@ == name@),
    {
        match Self::get(name) {
            Some(m) => Ok(m),
            None => Err(GufoHttpError::ValueError(name.to_owned())),
        }
    }

    /// The canonical spelling of this verb: a total mapping to the
    /// transport's verb representation.
    pub fn as_str(&self) -> (r: &'static str)
        ensures
            r@ == method_token(*self),
    {
        match self {
            RequestMethod::GET => "GET",
            RequestMethod::HEAD => "HEAD",
            RequestMethod::OPTIONS => "OPTIONS",
            RequestMethod::DELETE => "DELETE",
            RequestMethod::POST => "POST",
            RequestMethod::PUT => "PUT",
            RequestMethod::PATCH => "PATCH",
        }
    }
}

} // verus!
