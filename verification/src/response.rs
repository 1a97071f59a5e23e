//! The one reply each caller receives.
//!
//! A reply is a status code plus a JSON body that is either `{response: ...}`
//! or `{error: ...}` — exactly one of the two, never both, never neither;
//! the enum makes that structural. Well-formedness ties the status code to
//! the body: success replies carry 200, failure replies carry 500.

use vstd::prelude::*;
use crate::errors::RelayError;
use crate::errors::error_message_spec;
use crate::errors::error_message;

verus! {

/// The JSON body of a reply: either the upstream text or an error message.
pub enum OutgoingResponse {
    /// Serialized as `{"response": <text>}`.
    Response(String),
    /// Serialized as `{"error": <message>}`.
    Error(String),
}

/// An HTTP reply: a status code and the JSON body.
pub struct HttpReply {
    pub status: u16,
    pub body: OutgoingResponse,
}

/// Whether the body is the error shape.
pub open spec fn is_error_body(b: OutgoingResponse) -> bool {
    match b {
        OutgoingResponse::Response(_) => false,
        OutgoingResponse::Error(_) => true,
    }
}

/// The text carried by the body, whichever shape it has.
pub open spec fn body_text(b: OutgoingResponse) -> Seq<char> {
    match b {
        OutgoingResponse::Response(text) => text@,
        OutgoingResponse::Error(message) => message@,
    }
}

/// A reply is well-formed when its status code matches its body shape:
/// 200 for a relayed response, 500 for an error.
pub open spec fn reply_wf(r: HttpReply) -> bool {
    r.status == (if is_error_body(r.body) {
        500int
    } else {
        200int
    })
}

/// Builds the success reply for a relayed text.
pub fn success_reply(text: String) -> (r: HttpReply)
    ensures
        reply_wf(r),
        !is_error_body(r.body),
        r.status == 200,
        body_text(r.body) == text@,
{
    HttpReply { status: 200, body: OutgoingResponse::Response(text) }
}

/// Builds the failure reply for an error, with its user-facing message.
pub fn error_reply(e: &RelayError) -> (r: HttpReply)
    ensures
        reply_wf(r),
        is_error_body(r.body),
        r.status == 500,
        body_text(r.body) == error_message_spec(*e),
{
    HttpReply { status: 500, body: OutgoingResponse::Error(error_message(e)) }
}

} // verus!
