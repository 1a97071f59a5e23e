use claude_relay::digits::u16_decimal;
use claude_relay::errors::error_message;
use claude_relay::errors::RelayError;
use claude_relay::handler::build_upstream_request;
use claude_relay::handler::finish;
use claude_relay::handler::prepare;
use claude_relay::handler::Step;
use claude_relay::response::HttpReply;
use claude_relay::response::OutgoingResponse;

fn reply_parts(reply: HttpReply) -> (u16, bool, String) {
    match reply.body {
        OutgoingResponse::Response(text) => (reply.status, false, text),
        OutgoingResponse::Error(message) => (reply.status, true, message),
    }
}

#[test]
fn missing_key_fails_fast_without_upstream_call() {
    let step = prepare(None, "hi".to_string());
    match step {
        Step::CallUpstream(_, _) => panic!("no upstream call may be made without a key"),
        Step::Respond(reply) => {
            let (status, is_error, message) = reply_parts(reply);
            assert_eq!(status, 500);
            assert!(is_error);
            assert_eq!(message, "ANTHROPIC_API_KEY not set");
        }
    }
}

#[test]
fn present_key_builds_single_user_turn() {
    let step = prepare(Some("sk-test".to_string()), "What is Rust?".to_string());
    match step {
        Step::CallUpstream(key, req) => {
            assert_eq!(key, "sk-test");
            assert_eq!(req.model, "claude_3_5_sonnet_20240229");
            assert_eq!(req.max_tokens, 1024);
            assert_eq!(req.messages.len(), 1);
            assert_eq!(req.messages[0].role, "user");
            assert_eq!(req.messages[0].content, "What is Rust?");
        }
        Step::Respond(_) => panic!("a present key must lead to the upstream call"),
    }
}

#[test]
fn build_request_keeps_message_verbatim() {
    let req = build_upstream_request("  spaced \"and quoted\"\n".to_string());
    assert_eq!(req.messages[0].content, "  spaced \"and quoted\"\n");
}

#[test]
fn success_relays_first_block() {
    let reply = finish(Ok(vec!["first".to_string(), "second".to_string()]));
    let (status, is_error, text) = reply_parts(reply);
    assert_eq!(status, 200);
    assert!(!is_error);
    assert_eq!(text, "first");
}

#[test]
fn round_trip_hello() {
    let step = prepare(Some("sk-test".to_string()), "Hello".to_string());
    let outcome = match step {
        Step::CallUpstream(_, req) => {
            // A stub upstream that echoes a reply to the one user turn.
            assert_eq!(req.messages[0].content, "Hello");
            Ok(vec!["Hello back".to_string()])
        }
        Step::Respond(_) => panic!("a present key must lead to the upstream call"),
    };
    let (status, is_error, text) = reply_parts(finish(outcome));
    assert_eq!(status, 200);
    assert!(!is_error);
    assert_eq!(text, "Hello back");
}

#[test]
fn empty_success_is_malformed_response() {
    let reply = finish(Ok(vec![]));
    let (status, is_error, message) = reply_parts(reply);
    assert_eq!(status, 500);
    assert!(is_error);
    assert_eq!(message, "Anthropic API returned no content.");
}

#[test]
fn failure_yields_error_with_status_500() {
    let reply = finish(Err(RelayError::RateLimited));
    let (status, is_error, message) = reply_parts(reply);
    assert_eq!(status, 500);
    assert!(is_error);
    assert_eq!(message, "Rate limit exceeded.");
}

#[test]
fn connection_failure_message() {
    let msg = error_message(&RelayError::ConnectionFailure);
    assert_eq!(msg, "Failed to connect to Anthropic API.");
}

#[test]
fn authentication_failure_message() {
    let msg = error_message(&RelayError::AuthenticationFailure);
    assert_eq!(msg, "Authentication failed. Check your API key.");
}

#[test]
fn bad_request_message_embeds_detail_verbatim() {
    let msg = error_message(&RelayError::BadRequest(
        "max_tokens: must be positive".to_string(),
    ));
    assert_eq!(msg, "Bad request to Anthropic API: max_tokens: must be positive");
}

#[test]
fn rate_limited_message() {
    let msg = error_message(&RelayError::RateLimited);
    assert_eq!(msg, "Rate limit exceeded.");
}

#[test]
fn status_error_message_embeds_code() {
    let msg = error_message(&RelayError::StatusError(404));
    assert_eq!(msg, "Anthropic API returned status code: 404");
}

#[test]
fn unknown_error_message_embeds_text_verbatim() {
    let msg = error_message(&RelayError::Unknown("socket closed".to_string()));
    assert_eq!(msg, "An unexpected error occurred: socket closed");
}

#[test]
fn configuration_missing_message() {
    let msg = error_message(&RelayError::ConfigurationMissing);
    assert_eq!(msg, "ANTHROPIC_API_KEY not set");
}

#[test]
fn decimal_rendering_exact_values() {
    assert_eq!(u16_decimal(0), "0");
    assert_eq!(u16_decimal(7), "7");
    assert_eq!(u16_decimal(10), "10");
    assert_eq!(u16_decimal(429), "429");
    assert_eq!(u16_decimal(1024), "1024");
    assert_eq!(u16_decimal(65535), "65535");
}

#[test]
fn distinct_requests_get_their_own_replies() {
    // One hundred interleaved requests with distinct messages, each against
    // a stub upstream that answers from that request's own content: every
    // caller gets the reply for its own message, with no cross-talk.
    let mut steps = Vec::new();
    for i in 0..100 {
        let message = format!("question number {i}");
        steps.push((i, prepare(Some("sk-test".to_string()), message)));
    }
    for (i, step) in steps {
        let req = match step {
            Step::CallUpstream(_, req) => req,
            Step::Respond(_) => panic!("a present key must lead to the upstream call"),
        };
        let echoed = format!("answer to: {}", req.messages[0].content);
        let (status, is_error, text) = reply_parts(finish(Ok(vec![echoed])));
        assert_eq!(status, 200);
        assert!(!is_error);
        assert_eq!(text, format!("answer to: question number {i}"));
    }
}
