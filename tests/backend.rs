use alfred::backend::{
    events_from_content, interpret_response, parse_response, stand_in_events, stand_in_text,
    latest_user_content, turn_fragments, BackendError, OpenRouterProvider,
};
use alfred::events::AgentEvent;
use alfred::models::{Message, Role};

fn deltas(events: &[AgentEvent]) -> Vec<String> {
    let mut out = Vec::new();
    for e in events {
        if let AgentEvent::MessageDelta(s) = e {
            out.push(s.clone());
        }
    }
    out
}

#[test]
fn test_parse_response_success() {
    let response_json = r#"{"choices":[{"message":{"role":"assistant","content":"Hello there!"}}]}"#;
    let events = parse_response(response_json).unwrap();
    assert_eq!(events.len(), 1);
    if let AgentEvent::MessageDelta(content) = &events[0] {
        assert_eq!(content, "Hello there!");
    } else {
        panic!("Expected MessageDelta event");
    }
}

#[test]
fn test_parse_response_missing_content() {
    let response_json = r#"{"choices":[{"message":{"role":"assistant"}}]}"#;
    let result = parse_response(response_json);
    assert!(result.is_err());
    assert_eq!(result.unwrap_err(), BackendError::MissingContent);
}

#[test]
fn parse_response_content_not_a_string() {
    let v = r#"{"choices":[{"message":{"content":42}}]}"#;
    assert_eq!(parse_response(v).unwrap_err(), BackendError::MissingContent);
}

#[test]
fn parse_response_empty_choices() {
    let v = r#"{"choices":[]}"#;
    assert_eq!(parse_response(v).unwrap_err(), BackendError::MissingContent);
}

#[test]
fn parse_response_requires_choices_array() {
    let v = r#"{"choices":{"0":{"message":{"content":"x"}}}}"#;
    assert_eq!(parse_response(v).unwrap_err(), BackendError::MissingContent);
    assert_eq!(parse_response("[1,").unwrap_err(), BackendError::Malformed);
}

#[test]
fn latest_user_turn_is_echoed() {
    let ms = vec![
        Message::new(Role::User, "first".to_string()),
        Message::new(Role::User, "second".to_string()),
        Message::new(Role::Assistant, "reply".to_string()),
    ];
    assert_eq!(latest_user_content(&ms), "second");
    assert_eq!(latest_user_content(&ms[2..]), "");
    assert_eq!(latest_user_content(&[]), "");
}

#[test]
fn interpret_response_success_body() {
    let events =
        interpret_response(200, r#"{"choices":[{"message":{"content":"Hello there!"}}]}"#).unwrap();
    assert_eq!(deltas(&events), vec!["Hello there!".to_string()]);
    assert_eq!(events.len(), 1);
}

#[test]
fn interpret_response_error_status_keeps_body() {
    let r = interpret_response(401, "no auth");
    assert_eq!(r.unwrap_err(), BackendError::Status(401, "no auth".to_string()));
    let r = interpret_response(500, "{}");
    assert_eq!(r.unwrap_err(), BackendError::Status(500, "{}".to_string()));
    let r = interpret_response(199, "x");
    assert_eq!(r.unwrap_err(), BackendError::Status(199, "x".to_string()));
}

#[test]
fn interpret_response_malformed_body() {
    assert_eq!(interpret_response(200, "not json").unwrap_err(), BackendError::Malformed);
    assert_eq!(interpret_response(299, "{\"choices\": [").unwrap_err(), BackendError::Malformed);
}

#[test]
fn interpret_response_missing_content() {
    assert_eq!(
        interpret_response(200, r#"{"choices":[{"message":{"role":"assistant"}}]}"#).unwrap_err(),
        BackendError::MissingContent
    );
}

#[test]
fn events_from_content_cases() {
    let events = events_from_content(Some("abc".to_string())).unwrap();
    assert_eq!(deltas(&events), vec!["abc".to_string()]);
    assert_eq!(events_from_content(None).unwrap_err(), BackendError::MissingContent);
}

#[test]
fn stand_in_echoes_words_then_done() {
    let events = stand_in_events("hi there");
    assert_eq!(deltas(&events), vec!["(mock)", "I", "heard:", "hi", "there"]);
    assert_eq!(events.len(), 6);
    assert!(matches!(events[5], AgentEvent::Done));
}

#[test]
fn stand_in_collapses_whitespace() {
    let events = stand_in_events("  a\t\tb \u{3000}c\n");
    assert_eq!(deltas(&events), vec!["(mock)", "I", "heard:", "a", "b", "c"]);
    assert!(matches!(events.last(), Some(AgentEvent::Done)));
}

#[test]
fn stand_in_empty_input() {
    let events = stand_in_events("");
    assert_eq!(deltas(&events), vec!["(mock)", "I", "heard:"]);
    assert_eq!(events.len(), 4);
    assert_eq!(stand_in_text("x y"), "(mock) I heard: x y");
}

#[test]
fn provider_addresses_and_authorization() {
    let p = OpenRouterProvider::new("k-1".to_string(), "some/model".to_string());
    assert_eq!(p.base_url, "https://openrouter.ai/api/v1");
    assert_eq!(p.model, "some/model");
    assert_eq!(p.endpoint(), "https://openrouter.ai/api/v1/chat/completions");
    assert_eq!(p.authorization(), "Bearer k-1");
}

#[test]
fn error_descriptions() {
    assert_eq!(BackendError::MissingContent.describe(), "No content in response");
    assert_eq!(BackendError::Malformed.describe(), "Failed to parse OpenRouter response");
    assert_eq!(
        BackendError::Status(500, "boom".to_string()).describe(),
        "OpenRouter API error: boom"
    );
    assert_eq!(
        BackendError::Transport("refused".to_string()).describe(),
        "Failed to send request to OpenRouter: refused"
    );
}

#[test]
fn turn_fragments_keep_deltas_in_order() {
    let events = vec![
        AgentEvent::MessageDelta("a".to_string()),
        AgentEvent::Done,
        AgentEvent::MessageDelta("b".to_string()),
    ];
    assert_eq!(turn_fragments(Ok(events)), vec!["a".to_string(), "b".to_string()]);
    assert_eq!(turn_fragments(Ok(Vec::new())), Vec::<String>::new());
}

#[test]
fn turn_fragments_turn_failure_into_one_fragment() {
    assert_eq!(
        turn_fragments(Err(BackendError::Status(401, "denied".to_string()))),
        vec!["Error: OpenRouter API error: denied".to_string()]
    );
}
