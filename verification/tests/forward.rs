use reminder_dispatch::forward::{chat_request, forward_request, reply_outcome};

#[test]
fn a_reply_under_a_success_status_is_the_answer() {
    assert_eq!(reply_outcome(200, "{\"a\":1}".to_string()), Ok("{\"a\":1}".to_string()));
    assert_eq!(reply_outcome(204, String::new()), Ok(String::new()));
    assert_eq!(reply_outcome(299, "edge".to_string()), Ok("edge".to_string()));
}

#[test]
fn a_reply_under_any_other_status_is_a_failure() {
    assert_eq!(reply_outcome(199, "early".to_string()), Err("early".to_string()));
    assert_eq!(reply_outcome(300, "moved".to_string()), Err("moved".to_string()));
    assert_eq!(reply_outcome(401, "unauthorized".to_string()), Err("unauthorized".to_string()));
    assert_eq!(reply_outcome(500, String::new()), Err(String::new()));
    assert_eq!(reply_outcome(0, "none".to_string()), Err("none".to_string()));
    assert_eq!(reply_outcome(u16::MAX, "top".to_string()), Err("top".to_string()));
}

#[test]
fn chat_request_puts_the_message_as_the_users_turn() {
    let body = chat_request("why is the sky blue");
    assert_eq!(body.model, "llama-3.1-sonar-small-128k-online");
    assert_eq!(body.messages.len(), 2);
    assert_eq!(body.messages[0].role, "system");
    assert_eq!(body.messages[0].content, "Be precise and concise.");
    assert_eq!(body.messages[1].role, "user");
    assert_eq!(body.messages[1].content, "why is the sky blue");
}

#[test]
fn chat_request_takes_an_empty_message() {
    let body = chat_request("");
    assert_eq!(body.messages.len(), 2);
    assert_eq!(body.messages[1].role, "user");
    assert_eq!(body.messages[1].content, "");
}

#[test]
fn forward_request_goes_to_the_fixed_endpoint() {
    let request = forward_request("hello", "key-123");
    assert_eq!(request.url, "https://api.perplexity.ai/chat/completions");
    assert_eq!(request.body.model, "llama-3.1-sonar-small-128k-online");
    assert_eq!(request.body.messages[1].content, "hello");
}

#[test]
fn forward_request_carries_three_headers() {
    let request = forward_request("hello", "key-123");
    let headers: Vec<(&str, &str)> =
        request.headers.iter().map(|h| (h.name.as_str(), h.value.as_str())).collect();
    assert_eq!(
        headers,
        vec![
            ("accept", "application/json"),
            ("content-type", "application/json"),
            ("Authorization", "Bearer key-123"),
        ]
    );
}

#[test]
fn forward_request_keeps_the_credential_as_it_is() {
    let request = forward_request("hello", " spaced key ");
    assert_eq!(request.headers[2].value, "Bearer  spaced key ");
    let request = forward_request("hello", "");
    assert_eq!(request.headers[2].value, "Bearer ");
}
