//! The relay handler's decision logic.
//!
//! A request runs through a linear state machine: resolve the configuration,
//! issue exactly one upstream call, and emit exactly one reply. The two
//! decision points live here as verified functions. [`prepare`] resolves the
//! configuration and either builds the one upstream request or refuses with
//! a configuration error — never both. [`finish`] maps the upstream outcome
//! to the caller's reply. The network call itself stands between the two,
//! outside the library; [`Step`] is the instruction the library hands back,
//! so that an upstream call can only ever be made when `prepare` said so.

use vstd::prelude::*;
use crate::errors::RelayError;
use crate::errors::error_message_spec;
use crate::response::HttpReply;
use crate::response::is_error_body;
use crate::response::body_text;
use crate::response::reply_wf;
use crate::response::success_reply;
use crate::response::error_reply;

verus! {

/// The model every upstream request names.
pub open spec fn relay_model_id() -> Seq<char> {
    "claude_3_5_sonnet_20240229"@
}

/// The fixed output-token budget of every upstream request.
pub const MAX_OUTPUT_TOKENS: u32 = 1024;

/// One role-tagged turn of an upstream conversation.
pub struct ChatTurn {
    pub role: String,
    pub content: String,
}

/// The body of the one outbound completion call: a fixed model identifier,
/// a fixed token budget, and a single user turn.
pub struct UpstreamRequest {
    pub model: String,
    pub max_tokens: u32,
    pub messages: Vec<ChatTurn>,
}

/// An upstream request is well-formed for a caller's message when it names
/// the relay's fixed model and token budget and carries exactly one "user"
/// turn whose content is the message verbatim.
pub open spec fn upstream_request_wf(req: UpstreamRequest, message: Seq<char>) -> bool {
    &&& req.model@ == relay_model_id()
    &&& req.max_tokens == MAX_OUTPUT_TOKENS
    &&& req.messages@.len() == 1
    &&& req.messages@[0].role@ == "user"@
    &&& req.messages@[0].content@ == message
}

/// Builds the one upstream request for a caller's message.
pub fn build_upstream_request(message: String) -> (req: UpstreamRequest)
    ensures
        upstream_request_wf(req, message@),
{
    let mut messages: Vec<ChatTurn> = Vec::new();
    messages.push(ChatTurn { role: "user".to_owned(), content: message });
    UpstreamRequest {
        model: "claude_3_5_sonnet_20240229".to_owned(),
        max_tokens: MAX_OUTPUT_TOKENS,
        messages,
    }
}

/// What the handler decides to do next after resolving the configuration:
/// issue the one upstream call, or answer at once without any call.
pub enum Step {
    /// Perform the upstream call with this API key and request, then hand
    /// the outcome to [`finish`].
    CallUpstream(String, UpstreamRequest),
    /// Send this reply to the caller; no upstream call is made.
    Respond(HttpReply),
}

/// What `prepare` promises of its step. A missing key yields the
/// configuration-error reply and no upstream call; a present key yields
/// exactly one well-formed upstream call carrying that key.
pub open spec fn prepare_post(api_key: Option<String>, message: Seq<char>, s: Step) -> bool {
    match api_key {
        None => s matches Step::Respond(reply) && reply_wf(reply) && reply.status == 500
            && is_error_body(reply.body) && body_text(reply.body) == error_message_spec(
            RelayError::ConfigurationMissing,
        ),
        Some(key) => s matches Step::CallUpstream(k, req) && k@ == key@ && upstream_request_wf(
            req,
            message,
        ),
    }
}

/// Resolves the configuration for a caller's message: refuse without the
/// API key, otherwise build the one upstream call.
pub fn prepare(api_key: Option<String>, message: String) -> (s: Step)
    ensures
        prepare_post(api_key, message@, s),
{
    match api_key {
        None => Step::Respond(error_reply(&RelayError::ConfigurationMissing)),
        Some(key) => {
            let req = build_upstream_request(message);
            Step::CallUpstream(key, req)
        },
    }
}

/// What `finish` promises of its reply: the first content block verbatim
/// with status 200 on a non-empty success, the malformed-response error on
/// an empty success, and the outcome's own message with status 500 on
/// failure.
pub open spec fn finish_post(outcome: Result<Vec<String>, RelayError>, r: HttpReply) -> bool {
    &&& reply_wf(r)
    &&& match outcome {
        Ok(blocks) => {
            if blocks@.len() > 0 {
                r.status == 200 && !is_error_body(r.body) && body_text(r.body) == blocks@[0]@
            } else {
                r.status == 500 && is_error_body(r.body) && body_text(r.body)
                    == error_message_spec(RelayError::MalformedResponse)
            }
        },
        Err(e) => r.status == 500 && is_error_body(r.body) && body_text(r.body)
            == error_message_spec(e),
    }
}

/// Maps the outcome of the one upstream call to the caller's reply.
///
/// The outcome's success value is the upstream content blocks' texts in
/// order; its error is the classified failure.
pub fn finish(outcome: Result<Vec<String>, RelayError>) -> (r: HttpReply)
    ensures
        finish_post(outcome, r),
{
    match outcome {
        Ok(mut blocks) => {
            if blocks.len() > 0 {
                let first = blocks.remove(0);
                success_reply(first)
            } else {
                error_reply(&RelayError::MalformedResponse)
            }
        },
        Err(e) => error_reply(&e),
    }
}

/// Law: a reply is always exactly one of the two shapes, with the status
/// code that shape demands — 200 with a relayed response, 500 with an
/// error message; never both shapes, never neither.
pub proof fn lemma_one_reply_shape(r: HttpReply)
    requires
        reply_wf(r),
    ensures
        is_error_body(r.body) <==> r.status == 500,
        !is_error_body(r.body) <==> r.status == 200,
{
}

/// Law: without the configuration secret no upstream call is made, and the
/// caller receives the configuration error with status 500.
pub proof fn lemma_missing_key_skips_upstream(message: Seq<char>, s: Step)
    requires
        prepare_post(None::<String>, message, s),
    ensures
        !(s matches Step::CallUpstream(_k, _req)),
        s matches Step::Respond(reply) && reply.status == 500 && is_error_body(reply.body)
            && body_text(reply.body) == "ANTHROPIC_API_KEY not set"@,
{
}

/// Law: the contract of `finish` is functional — one upstream outcome
/// admits one reply, up to the characters it carries. Together with the
/// purely request-scoped state of the handler this is what keeps concurrent
/// requests from cross-talking: each caller's reply is determined by that
/// caller's own outcome alone.
pub proof fn lemma_reply_determined(
    outcome: Result<Vec<String>, RelayError>,
    r1: HttpReply,
    r2: HttpReply,
)
    requires
        finish_post(outcome, r1),
        finish_post(outcome, r2),
    ensures
        r1.status == r2.status,
        is_error_body(r1.body) == is_error_body(r2.body),
        body_text(r1.body) == body_text(r2.body),
{
}

/// Law: the contract of `prepare` is functional in the same sense — one
/// configuration and one message admit one step, up to the characters it
/// carries.
pub proof fn lemma_step_determined(
    api_key: Option<String>,
    message: Seq<char>,
    s1: Step,
    s2: Step,
)
    requires
        prepare_post(api_key, message, s1),
        prepare_post(api_key, message, s2),
    ensures
        match (s1, s2) {
            (Step::CallUpstream(k1, req1), Step::CallUpstream(k2, req2)) => k1@ == k2@
                && req1.model@ == req2.model@ && req1.max_tokens == req2.max_tokens
                && req1.messages@.len() == req2.messages@.len() && req1.messages@[0].role@
                == req2.messages@[0].role@ && req1.messages@[0].content@
                == req2.messages@[0].content@,
            (Step::Respond(r1), Step::Respond(r2)) => r1.status == r2.status && body_text(r1.body)
                == body_text(r2.body),
            _ => false,
        },
{
}

} // verus!
