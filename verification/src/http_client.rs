//! The dispatch contract: what an outbound call must carry and how what the
//! transport reports is captured.
//!
//! The network call itself is performed by an unverified shell around this
//! library; the functions here fix everything the shell must not decide for
//! itself: which verbs carry the request body, how a reported header is
//! rendered, and how the transport's observations form a
//! [`ResponseMessage`].

use vstd::prelude::*;

use crate::request_message::RequestMessage;
use crate::response_message::ResponseMessage;

verus! {

/// The body the outbound call carries: GET, HEAD and OPTIONS requests are
/// sent without one; every other verb sends the request body verbatim.
pub fn outgoing_body(message: &RequestMessage) -> (r: Option<&String>)
    ensures
        message.method.spec_carries_body() ==> (r matches Some(b) && b@ == message.body@),
        !message.method.spec_carries_body() ==> r is None,
{
    if message.method.carries_body() {
        Some(&message.body)
    } else {
        None
    }
}

/// One reported response header rendered as the "name: value" line that the
/// response record keeps.
pub fn header_line(name: &str, value: &str) -> (r: String)
    ensures
        r@ == name@ + ": "@ + value@,
{
    let mut s = String::from_str(name);
    s.append(": ");
    s.append(value);
    s
}

/// Packs what the transport reported — the status, the elapsed milliseconds
/// measured from just before dispatch to just after the body was fully
/// read, the decoded body text and the collected header lines — into the
/// response record, unchanged.
pub fn capture_response(status: u16, time_in_ms: u128, body: String, headers: Vec<String>) -> (r:
    ResponseMessage)
    ensures
        r.status == status,
        r.time_in_ms == time_in_ms,
        r.body == body,
        r.headers == headers,
{
    ResponseMessage { status, time_in_ms, body, headers }
}

} // verus!
