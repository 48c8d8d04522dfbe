use chat_dispatch::dispatch::{complete, DispatchResult, ErrorKind, RawResponse};
use chat_dispatch::provider::{credentials_from_keys, select_provider, Credentials, ProviderId};
use chat_dispatch::request::{build_request, Request};
use chat_dispatch::response::{parse_completion, parse_generative, ParseError};

fn ok(stdout: &str) -> Result<RawResponse, String> {
    Ok(RawResponse { success: true, stdout: stdout.to_string(), stderr: String::new() })
}

fn failed(stderr: &str) -> Result<RawResponse, String> {
    Ok(RawResponse { success: false, stdout: String::new(), stderr: stderr.to_string() })
}

fn keys() -> Credentials {
    Credentials { generative: "k1".to_string(), completion: "k2".to_string() }
}

#[test]
fn generative_answer_is_returned() {
    let r = complete(
        ProviderId::GenerativeText,
        ok(r#"{"candidate":[{"content":{"parts":[{"text":"pong"}]}}]}"#),
    );
    assert_eq!(r, DispatchResult::Answer("pong".to_string()));
}

#[test]
fn generative_answer_kept_verbatim() {
    let raw = r#"{"candidate":[{"content":{"parts":[{"text":"  a \"quoted\"\nline  "}]}}]}"#;
    assert_eq!(parse_generative(raw), Ok("  a \"quoted\"\nline  ".to_string()));
}

#[test]
fn generative_plural_field_is_not_read() {
    let raw = r#"{"candidates":[{"content":{"parts":[{"text":"pong"}]}}]}"#;
    assert_eq!(parse_generative(raw), Err(ParseError::TextNotFound));
}

#[test]
fn generative_text_of_wrong_shape_not_found() {
    let raw = r#"{"candidate":[{"content":{"parts":[{"text":42}]}}]}"#;
    assert_eq!(parse_generative(raw), Err(ParseError::TextNotFound));
}

#[test]
fn completion_answer_is_returned() {
    let r = complete(ProviderId::CompletionText, ok(r#"{"choices":[{"text":"four"}]}"#));
    assert_eq!(r, DispatchResult::Answer("four".to_string()));
}

#[test]
fn completion_error_without_choices() {
    let r = complete(
        ProviderId::CompletionText,
        ok(r#"{"error":{"message":"You exceeded your current quota","type":"insufficient_quota"}}"#),
    );
    assert_eq!(
        r,
        DispatchResult::Failure(
            ErrorKind::ProviderQuotaOrError,
            "You exceeded your current quota".to_string()
        )
    );
}

#[test]
fn completion_error_wins_over_answer() {
    let raw = r#"{"error":{"message":"quota"},"choices":[{"text":"four"}]}"#;
    assert_eq!(parse_completion(raw), Err(ParseError::ProviderQuotaOrError("quota".to_string())));
}

#[test]
fn completion_error_without_message() {
    let raw = r#"{"error":"busy"}"#;
    assert_eq!(
        parse_completion(raw),
        Err(ParseError::ProviderQuotaOrError("the provider reported an error".to_string()))
    );
}

#[test]
fn completion_missing_field_not_found() {
    let r = complete(ProviderId::CompletionText, ok(r#"{"choices":[]}"#));
    assert_eq!(
        r,
        DispatchResult::Failure(ErrorKind::TextNotFound, "Text not found in response".to_string())
    );
}

#[test]
fn generative_missing_field_not_found() {
    let r = complete(ProviderId::GenerativeText, ok("{}"));
    assert_eq!(
        r,
        DispatchResult::Failure(ErrorKind::TextNotFound, "Text not found in response".to_string())
    );
}

#[test]
fn malformed_reply_is_classified() {
    assert_eq!(parse_completion("not json"), Err(ParseError::MalformedPayload));
    let r = complete(ProviderId::GenerativeText, ok(""));
    assert_eq!(
        r,
        DispatchResult::Failure(
            ErrorKind::MalformedPayload,
            "the response is not valid JSON".to_string()
        )
    );
}

#[test]
fn assistant_failure_carries_stderr() {
    let r = complete(ProviderId::InteractiveAssistant, failed("not authenticated"));
    assert_eq!(
        r,
        DispatchResult::Failure(ErrorKind::TransportError, "not authenticated".to_string())
    );
}

#[test]
fn assistant_success_carries_stdout() {
    let r = complete(ProviderId::InteractiveAssistant, ok("{not json at all"));
    assert_eq!(r, DispatchResult::Answer("{not json at all".to_string()));
}

#[test]
fn unsuccessful_http_call_is_transport_error() {
    let r = complete(ProviderId::CompletionText, failed("curl: (7) Failed to connect"));
    assert_eq!(
        r,
        DispatchResult::Failure(
            ErrorKind::TransportError,
            "curl: (7) Failed to connect".to_string()
        )
    );
}

#[test]
fn call_that_fails_is_transport_error_for_every_provider() {
    for p in [ProviderId::GenerativeText, ProviderId::CompletionText, ProviderId::InteractiveAssistant] {
        let r = complete(p, Err("connection refused".to_string()));
        assert_eq!(
            r,
            DispatchResult::Failure(ErrorKind::TransportError, "connection refused".to_string())
        );
    }
}

#[test]
fn same_reply_gives_same_result() {
    let raw = r#"{"choices":[{"text":"x"}]}"#;
    for p in [ProviderId::GenerativeText, ProviderId::CompletionText, ProviderId::InteractiveAssistant] {
        assert_eq!(complete(p, ok(raw)), complete(p, ok(raw)));
    }
}

#[test]
fn generative_request_shape() {
    let r = build_request(ProviderId::GenerativeText, "ping", &keys(), None);
    assert_eq!(
        r,
        Request::Http {
            url: "https://generativelanguage.googleapis.com/v1beta/models/gemini-2.0-flash-exp:generateContent?key=k1".to_string(),
            headers: vec!["Content-Type: application/json".to_string()],
            body: r#"{"contents": [{"parts": [{"text": "ping"}]}]}"#.to_string(),
        }
    );
}

#[test]
fn completion_request_shape() {
    let r = build_request(ProviderId::CompletionText, "ping", &keys(), None);
    assert_eq!(
        r,
        Request::Http {
            url: "https://api.openai.com/v1/completions".to_string(),
            headers: vec![
                "Authorization: Bearer k2".to_string(),
                "Content-Type: application/json".to_string()
            ],
            body: r#"{"model": "gpt-4", "prompt": "ping", "max_tokens": 150}"#.to_string(),
        }
    );
}

#[test]
fn question_is_escaped_in_body() {
    let r = build_request(ProviderId::CompletionText, "say \"hi\"\n\\ok", &keys(), None);
    match r {
        Request::Http { body, .. } => assert_eq!(
            body,
            r#"{"model": "gpt-4", "prompt": "say \"hi\"\n\\ok", "max_tokens": 150}"#
        ),
        other => panic!("unexpected request {:?}", other),
    }
}

#[test]
fn assistant_request_shape() {
    let r = build_request(ProviderId::InteractiveAssistant, "what is ls", &keys(), Some("explain"));
    assert_eq!(
        r,
        Request::Command {
            program: "gh".to_string(),
            args: vec!["copilot".to_string(), "explain".to_string(), "what is ls".to_string()],
        }
    );
}

#[test]
fn selection_resolves_provider() {
    assert_eq!(select_provider("1"), ProviderId::GenerativeText);
    assert_eq!(select_provider("2"), ProviderId::CompletionText);
    assert_eq!(select_provider("3"), ProviderId::InteractiveAssistant);
    assert_eq!(select_provider(""), ProviderId::CompletionText);
    assert_eq!(select_provider("12"), ProviderId::CompletionText);
}

#[test]
fn credentials_need_two_keys() {
    assert_eq!(credentials_from_keys(&vec!["a".to_string()]), None);
    assert_eq!(credentials_from_keys(&vec![]), None);
    assert_eq!(
        credentials_from_keys(&vec!["a".to_string(), "b".to_string(), "c".to_string()]),
        Some(Credentials { generative: "a".to_string(), completion: "b".to_string() })
    );
}

#[test]
fn render_prefixes_outcome() {
    assert_eq!(DispatchResult::Answer("pong".to_string()).render(), "Success: pong");
    assert_eq!(
        DispatchResult::Failure(ErrorKind::TransportError, "boom".to_string()).render(),
        "Error: boom"
    );
}
