use vstd::prelude::*;

use crate::error::{GufoHttpError, HttpResult};
use crate::headers::{pairs_view, Headers};
use crate::transport;

verus! {

/// The two states of a response body slot. The slot moves from `Unready` to
/// `Consumed` exactly once and never back.
pub enum BodyState {
    /// The owned body bytes, not yet claimed by any reader.
    Unready(Vec<u8>),
    /// The bytes have been taken; nothing is re-delivered.
    Consumed,
}

/// One response: status code, transport-populated headers (immutable), and
/// a body that can be claimed exactly once.
pub struct Response {
    status: u16,
    headers: Headers,
    body: BodyState,
}

impl Response {
    /// The status code.
    pub closed spec fn spec_status(&self) -> u16 {
        self.status
    }

    /// The header pairs.
    pub closed spec fn spec_headers(&self) -> Seq<(Seq<u8>, Seq<u8>)> {
        self.headers@
    }

    /// The unclaimed body bytes, or `None` once the body is consumed.
    pub closed spec fn spec_body(&self) -> Option<Seq<u8>> {
        match self.body {
            BodyState::Unready(b) => Some(b@),
            BodyState::Consumed => Option::None,
        }
    }

    /// Whether the body is still there to be claimed.
    pub open spec fn body_unread(&self) -> bool {
        self.spec_body() is Some
    }

    /// Wrap what the transport returned: status, headers, and the full body
    /// bytes, owned, with the body slot unclaimed.
    pub fn new(status: u16, headers: Headers, content: Vec<u8>) -> (r: Response)
        ensures
            r.spec_status() == status,
            r.spec_headers() == headers@,
            r.spec_body() == Some(content@),
    {
        Response { status, headers, body: BodyState::Unready(content) }
    }

    /// The status code.
    pub fn status(&self) -> (r: u16)
        ensures
            r == self.spec_status(),
    {
        self.status
    }

    /// The response headers, shared by value so readers never contend.
    pub fn headers(&self) -> (r: Headers)
        ensures
            r@ == self.spec_headers(),
    {
        self.headers.duplicate()
    }

    /// Exactly the relation `read` establishes between the response it was
    /// called on, the response it leaves behind, and its result.
    pub open spec fn read_step(
        pre: Response,
        post: Response,
        r: Result<Vec<u8>, GufoHttpError>,
    ) -> bool {
        &&& (pre.body_unread() ==> (r matches Ok(b) && pre.spec_body() == Some(b@)))
        &&& (!pre.body_unread() ==> (r matches Err(e) && e is AlreadyRead))
        &&& !post.body_unread()
        &&& post.spec_status() == pre.spec_status()
        &&& post.spec_headers() == pre.spec_headers()
    }

    /// Claim the body: on the first call the full payload is returned and
    /// the slot moves to `Consumed`; any later call fails with `AlreadyRead`
    /// and never re-delivers bytes. Exclusive access makes the claim atomic
    /// against concurrent readers.
    pub fn read(&mut self) -> (r: HttpResult<Vec<u8>>)
        ensures
            Self::read_step(*old(self), *final(self), r),
    {
        let mut slot = BodyState::Consumed;
        core::mem::swap(&mut self.body, &mut slot);
        match slot {
            BodyState::Unready(b) => Ok(b),
            BodyState::Consumed => Err(GufoHttpError::AlreadyRead),
        }
    }

    /// Interpret one transport outcome: on success capture status, headers
    /// and body at once; on failure map the transport's error into the
    /// engine's taxonomy. A network failure never surfaces as a validation
    /// or lifecycle error.
    pub fn from_transport(
        outcome: Result<(u16, Vec<(Vec<u8>, Vec<u8>)>, Vec<u8>), reqwest::Error>,
    ) -> (r: HttpResult<Response>)
        ensures
            outcome matches Ok(t) ==> (r matches Ok(resp) && resp.spec_status() == t.0
                && resp.spec_headers() == pairs_view(t.1@) && resp.spec_body() == Some(t.2@)),
            outcome is Err ==> (r matches Err(e) && e.is_transport_class()),
    {
        match outcome {
            Ok((status, headers, content)) => Ok(
                Response::new(status, Headers::new(headers), content),
            ),
            Err(e) => Err(transport::classify_error(e)),
        }
    }
}

/// LAW: the body is one-shot. A read of an unread response succeeds; after
/// it, every further read of what it left behind fails with `AlreadyRead`,
/// and no bytes are ever delivered twice.
pub proof fn lemma_body_one_shot(r1: Response, r2: Response, out1: Result<Vec<u8>, GufoHttpError>)
    requires
        r1.body_unread(),
        Response::read_step(r1, r2, out1),
    ensures
        out1 is Ok,
        forall|r3: Response, out2: Result<Vec<u8>, GufoHttpError>|
            #[trigger] Response::read_step(r2, r3, out2) ==> (out2 matches Err(e)
                && e is AlreadyRead),
{
}

} // verus!
