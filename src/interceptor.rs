//! The request interceptor: turns a verdict into what the host's request hook does.
//!
//! A blocked request is answered with a synthetic, empty `200 OK` response rather than
//! a network error, so that pages waiting for some response do not retry or show a
//! failure. An allowed request is left alone.

use vstd::prelude::*;
use crate::classifier::{classify, verdict_of, Verdict};
use crate::text::lower_of;

verus! {

/// Status code of the synthetic response.
pub const BLOCKED_STATUS: u16 = 200;

/// Reason phrase of the synthetic response.
pub const BLOCKED_REASON: &'static str = "OK";

/// Header block of the synthetic response: an empty plain-text body that any origin
/// may read and that is never cached.
pub const BLOCKED_HEADERS: &'static str = "Content-Type: text/plain\r\nContent-Length: 0\r\nAccess-Control-Allow-Origin: *\r\nCache-Control: no-cache";

/// The response handed to the host in place of a blocked request.
pub struct SyntheticResponse {
    pub status: u16,
    pub reason: String,
    pub headers: String,
    pub body: Vec<u8>,
}

/// The synthetic response has the fixed status, reason and headers and an empty body.
pub open spec fn is_blocked_response(r: SyntheticResponse) -> bool {
    &&& r.status == BLOCKED_STATUS
    &&& r.reason@ == BLOCKED_REASON@
    &&& r.headers@ == BLOCKED_HEADERS@
    &&& r.body@.len() == 0
}

/// The response that stands in for a blocked request.
pub fn blocked_response() -> (r: SyntheticResponse)
    ensures
        is_blocked_response(r),
{
    SyntheticResponse {
        status: BLOCKED_STATUS,
        reason: String::from_str(BLOCKED_REASON),
        headers: String::from_str(BLOCKED_HEADERS),
        body: Vec::new(),
    }
}

/// What the hook does for a request with verdict `v`: answer it with the synthetic
/// response, or let it through (`None`).
pub fn respond_to(v: Verdict) -> (r: Option<SyntheticResponse>)
    ensures
        r is Some <==> v == Verdict::Block,
        r matches Some(resp) ==> is_blocked_response(resp),
{
    match v {
        Verdict::Block => Some(blocked_response()),
        Verdict::Allow => None,
    }
}

/// What the hook does for a request for `url`.
pub fn intercept(url: &str) -> (r: Option<SyntheticResponse>)
    ensures
        r is Some <==> verdict_of(lower_of(url@)) == Verdict::Block,
        r matches Some(resp) ==> is_blocked_response(resp),
{
    respond_to(classify(url))
}

} // verus!
