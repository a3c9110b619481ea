use vstd::prelude::*;

use crate::auth::AuthMethod;
use crate::error::{GufoHttpError, HttpResult};
use crate::headers;
use crate::headers::{pairs_view, valid_header_name, valid_header_value, Headers};
use crate::method::{RequestMethod, BROTLI, DEFLATE, GZIP, ZSTD};
use crate::proxy::Proxy;
use crate::transport;

verus! {

/// Redirect policy resolved from the configured cap.
#[derive(Debug, Clone, Copy, PartialEq, Eq, Structural)]
pub enum RedirectPolicy {
    /// Follow no redirect at all: a redirect response is surfaced to the
    /// caller as an ordinary response, its 3xx status and Location header
    /// untouched.
    NoFollow,
    /// Follow at most this many hops; the hop beyond fails with `Redirect`.
    Limited(u64),
}

/// The policy a configured cap resolves to: an absent cap forbids following.
pub open spec fn redirect_policy_of(max_redirect: Option<u64>) -> RedirectPolicy {
    match max_redirect {
        Option::None => RedirectPolicy::NoFollow,
        Option::Some(n) => RedirectPolicy::Limited(n),
    }
}

/// Whether a policy permits a chain of `hops` redirect follows.
pub open spec fn permits_hops(p: RedirectPolicy, hops: nat) -> bool {
    match p {
        RedirectPolicy::NoFollow => hops == 0,
        RedirectPolicy::Limited(n) => hops <= n,
    }
}

impl RedirectPolicy {
    /// Whether this policy permits a chain of `hops` follows.
    pub fn permits(&self, hops: u64) -> (r: bool)
        ensures
            r == permits_hops(*self, hops as nat),
    {
        match self {
            RedirectPolicy::NoFollow => hops == 0,
            RedirectPolicy::Limited(n) => hops <= *n,
        }
    }
}

/// Every pair parses under the header grammar: a valid name and a valid
/// value.
pub open spec fn all_pairs_valid(pairs: Seq<(Seq<u8>, Seq<u8>)>) -> bool {
    forall|i: int|
        0 <= i < pairs.len() ==> valid_header_name((#[trigger] pairs[i]).0) && valid_header_value(
            pairs[i].1,
        )
}

/// The compression mask in force: an absent mask enables nothing.
pub open spec fn comp_mask(compression: Option<u8>) -> u8 {
    match compression {
        Option::None => 0,
        Option::Some(m) => m,
    }
}

/// Whether `bit` is set in `mask`: each bit independently enables one
/// content encoding; bits outside the known set are ignored.
pub open spec fn comp_enabled(mask: u8, bit: u8) -> bool {
    mask & bit != 0
}

/// Everything a client is built from; consumed once by `build` and not
/// retained afterwards.
pub struct ClientConfig {
    /// `false` disables transport-level certificate checking entirely
    /// (dangerous; never a default).
    pub validate_cert: bool,
    /// Bound on connection establishment, in nanoseconds.
    pub connect_timeout_ns: u64,
    /// Bound on the whole request including body transfer, in nanoseconds.
    pub timeout_ns: u64,
    /// Redirect cap: `None` forbids following redirects altogether.
    pub max_redirect: Option<u64>,
    /// Default headers sent with every request, in the order given.
    pub headers: Vec<(Vec<u8>, Vec<u8>)>,
    /// Bitmask over `DEFLATE`, `GZIP`, `BROTLI` and `ZSTD`.
    pub compression: Option<u8>,
    /// Overrides the transport's identification string when supplied.
    pub user_agent: Option<String>,
    /// The credential strategy applied to every request.
    pub auth: AuthMethod,
    /// Explicit proxies, applied in order; auto-discovery is always off.
    pub proxies: Vec<Proxy>,
}

/// A resolved client: the validated settings its transport handle is
/// configured with, plus the credential strategy applied to every request.
/// Fully resolved at construction; immutable thereafter.
pub struct Client {
    pub validate_cert: bool,
    pub connect_timeout_ns: u64,
    pub timeout_ns: u64,
    pub redirect: RedirectPolicy,
    pub default_headers: Headers,
    pub deflate: bool,
    pub gzip: bool,
    pub brotli: bool,
    pub zstd: bool,
    pub user_agent: Option<String>,
    pub auth: AuthMethod,
    pub proxies: Vec<Proxy>,
}

impl ClientConfig {
    /// Resolve a configuration into a client. Every default header pair must
    /// parse under the header grammar; the first failing pair aborts the
    /// whole build with a `ValueError`, so a bad default header can never be
    /// discovered later at request time.
    pub fn build(self) -> (r: HttpResult<Client>)
        ensures
            r is Ok <==> all_pairs_valid(pairs_view(self.headers@)),
            r matches Ok(c) ==> {
                &&& c.validate_cert == self.validate_cert
                &&& c.connect_timeout_ns == self.connect_timeout_ns
                &&& c.timeout_ns == self.timeout_ns
                &&& c.redirect == redirect_policy_of(self.max_redirect)
                &&& c.default_headers@ == pairs_view(self.headers@)
                &&& c.deflate == comp_enabled(comp_mask(self.compression), DEFLATE)
                &&& c.gzip == comp_enabled(comp_mask(self.compression), GZIP)
                &&& c.brotli == comp_enabled(comp_mask(self.compression), BROTLI)
                &&& c.zstd == comp_enabled(comp_mask(self.compression), ZSTD)
                &&& c.user_agent == self.user_agent
                &&& c.auth == self.auth
                &&& c.proxies == self.proxies
            },
            r matches Err(e) ==> e is ValueError,
    {
        let mut i: usize = 0;
        while i < self.headers.len()
            invariant
                0 <= i <= self.headers@.len(),
                forall|j: int|
                    0 <= j < i ==> valid_header_name((#[trigger] self.headers@[j]).0@)
                        && valid_header_value(self.headers@[j].1@),
            decreases self.headers@.len() - i,
        {
            match transport::check_header_name(self.headers[i].0.as_slice()) {
                Ok(_) => {},
                Err(m) => {
                    proof {
                        assert(!valid_header_name(pairs_view(self.headers@)[i as int].0));
                    }
                    return Err(GufoHttpError::ValueError(m));
                },
            }
            match transport::check_header_value(self.headers[i].1.as_slice()) {
                Ok(_) => {},
                Err(m) => {
                    proof {
                        assert(!valid_header_value(pairs_view(self.headers@)[i as int].1));
                    }
                    return Err(GufoHttpError::ValueError(m));
                },
            }
            i = i + 1;
        }
        proof {
            assert(all_pairs_valid(pairs_view(self.headers@)));
        }
        let mask = match self.compression {
            Some(m) => m,
            None => 0,
        };
        let redirect = match self.max_redirect {
            Some(n) => RedirectPolicy::Limited(n),
            None => RedirectPolicy::NoFollow,
        };
        let ClientConfig {
            validate_cert,
            connect_timeout_ns,
            timeout_ns,
            max_redirect: _,
            headers,
            compression: _,
            user_agent,
            auth,
            proxies,
        } = self;
        Ok(
            Client {
                validate_cert,
                connect_timeout_ns,
                timeout_ns,
                redirect,
                default_headers: Headers::new(headers),
                deflate: mask & DEFLATE != 0,
                gzip: mask & GZIP != 0,
                brotli: mask & BROTLI != 0,
                zstd: mask & ZSTD != 0,
                user_agent,
                auth,
                proxies,
            },
        )
    }
}

/// The overrides supplied with one call, as a sequence; absent means none.
pub open spec fn overrides_view(headers: Option<&Vec<(Vec<u8>, Vec<u8>)>>) -> Seq<
    (Seq<u8>, Seq<u8>),
> {
    match headers {
        Option::Some(h) => pairs_view(h@),
        Option::None => Seq::empty(),
    }
}

/// One fully composed outbound request, ready to be handed to the transport.
pub struct RequestPlan {
    pub method: RequestMethod,
    pub url: String,
    /// The client's default headers first, then the call-supplied overrides:
    /// both sets are sent, nothing is overwritten; the transport decides
    /// precedence for conflicting singleton headers.
    pub headers: Vec<(Vec<u8>, Vec<u8>)>,
    /// Attached to the request after the headers, so a caller-supplied
    /// override never shadows it.
    pub auth: AuthMethod,
    /// The raw request payload, byte-exact, owned by the plan so nothing
    /// borrowed has to survive the transport call.
    pub body: Option<Vec<u8>>,
}

impl Client {
    /// Compose one outbound request from this client's defaults and the
    /// call-supplied overrides. Every override pair must parse under the
    /// header grammar; the first failing pair aborts with a `ValueError`
    /// before any network activity.
    pub fn compose(
        &self,
        method: RequestMethod,
        url: &str,
        headers: Option<&Vec<(Vec<u8>, Vec<u8>)>>,
        body: Option<Vec<u8>>,
    ) -> (r: HttpResult<RequestPlan>)
        ensures
            r is Ok <==> all_pairs_valid(overrides_view(headers)),
            r matches Ok(p) ==> {
                &&& p.method == method
                &&& p.url@ == url@
                &&& pairs_view(p.headers@) == self.default_headers@ + overrides_view(headers)
                &&& p.auth == self.auth
                &&& p.body == body
            },
            r matches Err(e) ==> e is ValueError,
    {
        if let Some(h) = headers {
            let mut i: usize = 0;
            while i < h.len()
                invariant
                    0 <= i <= h@.len(),
                    headers == Some(h),
                    forall|j: int|
                        0 <= j < i ==> valid_header_name((#[trigger] h@[j]).0@)
                            && valid_header_value(h@[j].1@),
                decreases h@.len() - i,
            {
                match transport::check_header_name(h[i].0.as_slice()) {
                    Ok(_) => {},
                    Err(m) => {
                        proof {
                            assert(overrides_view(headers) == pairs_view(h@));
                            assert(pairs_view(h@)[i as int] == (h@[i as int].0@, h@[i as int].1@));
                        }
                        return Err(GufoHttpError::ValueError(m));
                    },
                }
                match transport::check_header_value(h[i].1.as_slice()) {
                    Ok(_) => {},
                    Err(m) => {
                        proof {
                            assert(overrides_view(headers) == pairs_view(h@));
                            assert(pairs_view(h@)[i as int] == (h@[i as int].0@, h@[i as int].1@));
                        }
                        return Err(GufoHttpError::ValueError(m));
                    },
                }
                i = i + 1;
            }
            proof {
                assert forall|j: int|
                    0 <= j < pairs_view(h@).len() implies valid_header_name(
                    (#[trigger] pairs_view(h@)[j]).0,
                ) && valid_header_value(pairs_view(h@)[j].1) by {
                    assert(pairs_view(h@)[j] == (h@[j].0@, h@[j].1@));
                }
                assert(all_pairs_valid(overrides_view(headers)));
            }
        }
        let defaults = self.default_headers.to_pairs();
        let merged = match headers {
            Some(h) => headers::concat_pairs(&defaults, h),
            None => defaults,
        };
        proof {
            assert(pairs_view(merged@) =~= self.default_headers@ + overrides_view(headers));
        }
        Ok(
            RequestPlan {
                method,
                url: url.to_owned(),
                headers: merged,
                auth: self.auth.duplicate(),
                body,
            },
        )
    }
}

/// LAW: a configuration whose default headers are a single pair with a valid
/// name and a valid value builds, and the pair is observable in the built
/// client's defaults under its own name.
pub proof fn lemma_single_valid_header_builds(config: ClientConfig, n: Seq<u8>, v: Seq<u8>)
    requires
        pairs_view(config.headers@) == seq![(n, v)],
        valid_header_name(n),
        valid_header_value(v),
    ensures
        all_pairs_valid(pairs_view(config.headers@)),
        headers::lookup(pairs_view(config.headers@), n) == Some(v),
{
    let pairs = pairs_view(config.headers@);
    assert(pairs[0] == (n, v));
    headers::lemma_name_eq_reflexive(n);
    assert(headers::lookup_from(pairs, n, 0) == Some(v));
}

/// LAW: a configuration with a header pair that breaks the grammar never
/// builds, so no client is produced from it.
pub proof fn lemma_invalid_header_rejects(config: ClientConfig, i: int)
    requires
        0 <= i < config.headers@.len(),
        !(valid_header_name(pairs_view(config.headers@)[i].0) && valid_header_value(
            pairs_view(config.headers@)[i].1,
        )),
    ensures
        !all_pairs_valid(pairs_view(config.headers@)),
{
}

/// LAW: with no redirect cap configured, the resolved policy permits no hop
/// at all: a first redirect is never followed.
pub proof fn lemma_no_cap_permits_no_hop(config: ClientConfig)
    requires
        config.max_redirect is None,
    ensures
        redirect_policy_of(config.max_redirect) == RedirectPolicy::NoFollow,
        forall|h: nat| h > 0 ==> !permits_hops(redirect_policy_of(config.max_redirect), h),
{
}

/// LAW: under a cap of `n`, a chain of exactly `n` hops is permitted and a
/// chain of one more is not.
pub proof fn lemma_redirect_cap_boundary(n: u64)
    ensures
        permits_hops(redirect_policy_of(Some(n)), n as nat),
        !permits_hops(redirect_policy_of(Some(n)), n as nat + 1),
{
}

/// LAW: composition keeps both header sets whole: every default pair and
/// every override pair stands in the composed list, defaults first, in
/// order, whatever credential strategy is configured.
pub proof fn lemma_compose_keeps_both_sets(
    defaults: Seq<(Seq<u8>, Seq<u8>)>,
    overrides: Seq<(Seq<u8>, Seq<u8>)>,
)
    ensures
        forall|j: int| 0 <= j < defaults.len() ==> (defaults + overrides)[j] == defaults[j],
        forall|j: int|
            0 <= j < overrides.len() ==> (defaults + overrides)[defaults.len() + j]
                == overrides[j],
{
}

} // verus!
