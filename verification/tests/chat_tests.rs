use ai_vs_ai::chat::{
    prepare_call, read_reply, ApiError, ChatChoice, ChatMessage, ChatResponse, HttpOutcome,
    MessageContent, Role, TEMPERATURE_TENTHS,
};
use ai_vs_ai::config::AiConfig;

fn response(contents: &[&str]) -> ChatResponse {
    ChatResponse {
        choices: contents
            .iter()
            .map(|c| ChatChoice { message: MessageContent { content: c.to_string() } })
            .collect(),
    }
}

/// Reads a body the way the program does: as JSON of the shape
/// `{"choices": [{"message": {"content": text}}]}`.
fn parse_body(body: &str) -> Option<ChatResponse> {
    let value: serde_json::Value = serde_json::from_str(body).ok()?;
    let mut choices = Vec::new();
    for choice in value.get("choices")?.as_array()? {
        let content = choice.get("message")?.get("content")?.as_str()?;
        choices.push(ChatChoice { message: MessageContent { content: content.to_string() } });
    }
    Some(ChatResponse { choices })
}

fn reply(status: u16, body: &str) -> HttpOutcome {
    HttpOutcome::Response { status, body: body.to_string(), parsed: parse_body(body) }
}

#[test]
fn role_names() {
    assert_eq!(Role::System.as_str(), "system");
    assert_eq!(Role::User.as_str(), "user");
    assert_eq!(Role::Assistant.as_str(), "assistant");
}

#[test]
fn prepare_call_fills_in_the_request() {
    let config = AiConfig {
        api_key: "sk-test".into(),
        base_url: "https://example.test/v1/chat".into(),
        model: "model-x".into(),
        name: "Example".into(),
    };
    let messages = vec![
        ChatMessage { role: Role::System, content: "be brief".into() },
        ChatMessage { role: Role::User, content: "why?".into() },
    ];
    let call = prepare_call(&config, messages.clone());
    assert_eq!(call.url, "https://example.test/v1/chat");
    assert_eq!(call.authorization, "Bearer sk-test");
    assert_eq!(call.content_type, "application/json");
    assert_eq!(call.body.model, "model-x");
    assert_eq!(call.body.messages, messages);
    assert_eq!(call.body.temperature_tenths, 7);
    assert_eq!(TEMPERATURE_TENTHS, 7);
}

#[test]
fn prepare_call_with_no_message_and_an_empty_key() {
    let config = AiConfig {
        api_key: "".into(),
        base_url: "u".into(),
        model: "m".into(),
        name: "n".into(),
    };
    let call = prepare_call(&config, Vec::new());
    assert_eq!(call.authorization, "Bearer ");
    assert!(call.body.messages.is_empty());
}

#[test]
fn a_reply_gives_the_first_choice() {
    let outcome = reply(
        200,
        r#"{"choices": [{"message": {"content": "first"}}, {"message": {"content": "second"}}]}"#,
    );
    assert_eq!(read_reply(outcome), Ok("first".to_string()));
    let outcome =
        HttpOutcome::Response { status: 299, body: String::new(), parsed: Some(response(&["only"])) };
    assert_eq!(read_reply(outcome), Ok("only".to_string()));
}

#[test]
fn status_429_fails_with_the_status_and_the_body() {
    let outcome = reply(429, "rate limited");
    assert_eq!(
        read_reply(outcome),
        Err(ApiError::HttpStatus { code: 429, body: "rate limited".to_string() })
    );
}

#[test]
fn a_failed_status_wins_over_a_well_formed_body() {
    let body = r#"{"choices": [{"message": {"content": "ignored"}}]}"#;
    for status in [0u16, 100, 199, 300, 404, 500, u16::MAX] {
        assert_eq!(
            read_reply(reply(status, body)),
            Err(ApiError::HttpStatus { code: status, body: body.to_string() })
        );
    }
}

#[test]
fn every_status_from_200_to_299_is_a_success() {
    let body = r#"{"choices": [{"message": {"content": "ok"}}]}"#;
    for status in 200..=299u16 {
        assert_eq!(read_reply(reply(status, body)), Ok("ok".to_string()));
    }
}

#[test]
fn empty_choices_is_not_malformed() {
    let empty = read_reply(reply(200, r#"{"choices": []}"#));
    assert_eq!(empty, Err(ApiError::EmptyChoices));
    let malformed = read_reply(reply(200, "this is not json"));
    assert_eq!(malformed, Err(ApiError::MalformedResponse));
    assert_ne!(empty, malformed);
}

#[test]
fn a_body_of_another_shape_is_malformed() {
    for body in ["", "{}", r#"{"choices": 3}"#, r#"{"choices": [{"message": {}}]}"#, "[]"] {
        assert_eq!(read_reply(reply(200, body)), Err(ApiError::MalformedResponse), "{body}");
    }
}

#[test]
fn a_request_that_was_not_sent_is_a_transport_error() {
    let outcome = HttpOutcome::Unsent("connection refused".to_string());
    assert_eq!(read_reply(outcome), Err(ApiError::Transport("connection refused".to_string())));
}

#[test]
fn error_messages_name_the_provider() {
    assert_eq!(
        ApiError::Transport("timed out".to_string()).message("Moonshot AI"),
        "Failed to send request to Moonshot AI"
    );
    assert_eq!(
        ApiError::HttpStatus { code: 429, body: "rate limited".to_string() }.message("DeepSeek AI"),
        "API Error from DeepSeek AI: rate limited"
    );
    assert_eq!(
        ApiError::HttpStatus { code: 500, body: String::new() }.message("X"),
        "API Error from X: "
    );
    assert_eq!(
        ApiError::MalformedResponse.message("Moonshot AI"),
        "Failed to parse response from Moonshot AI"
    );
    assert_eq!(ApiError::EmptyChoices.message("DeepSeek AI"), "No choices returned from DeepSeek AI");
}
