use vstd::prelude::*;

use crate::error::{GufoHttpError, HttpResult};
use crate::text;
use crate::transport;

verus! {

/// The scheme rule for proxy endpoints: only these two schemes are proxied,
/// and the transport's own parser does not enforce that.
pub open spec fn scheme_ok(s: Seq<char>) -> bool {
    text::has_prefix(s, "http://"@) || text::has_prefix(s, "https://"@)
}

/// A validated proxy endpoint: an absolute URL whose scheme is `http` or
/// `https`, accepted by the transport's URL parser.
#[derive(Debug)]
pub struct Proxy {
    url: String,
}

impl Proxy {
    /// The validated URL.
    pub closed spec fn spec_url(&self) -> Seq<char> {
        self.url@
    }

    /// Validate a proxy URL. The scheme is checked first, before the
    /// transport's parser is consulted at all; any other scheme fails with a
    /// `ValueError`, as does a URL the transport's parser rejects.
    pub fn new(url: &str) -> (r: HttpResult<Proxy>)
        ensures
            r is Ok <==> scheme_ok(url@) && transport::proxy_accepts(url@),
            r matches Ok(p) ==> p.spec_url() == url@,
            r matches Err(e) ==> e is ValueError,
            !scheme_ok(url@) ==> (r matches Err(e) && e matches GufoHttpError::ValueError(m)
                && m@ == "invalid scheme"@),
    {
        if !(text::str_starts_with(url, "http://") || text::str_starts_with(url, "https://")) {
            return Err(GufoHttpError::ValueError("invalid scheme".to_owned()));
        }
        match transport::check_proxy_url(url) {
            Ok(()) => Ok(Proxy { url: url.to_owned() }),
            Err(m) => Err(GufoHttpError::ValueError(m)),
        }
    }

    /// The URL, as the transport will receive it.
    pub fn url(&self) -> (r: &str)
        ensures
            r@ == self.spec_url(),
    {
        self.url.as_str()
    }

    /// A value-equal copy.
    pub fn duplicate(&self) -> (r: Proxy)
        ensures
            r.spec_url() == self.spec_url(),
    {
        Proxy { url: self.url.clone() }
    }
}

} // verus!
