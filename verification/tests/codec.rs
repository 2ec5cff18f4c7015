use gptbot::encode::encode_chat_request;
use gptbot::image::DalleBody;
use gptbot::messages::{ChatMessage, Role};
use gptbot::session::GptChat;

#[test]
fn chat_message_round_trip() {
    // serialized to the provider request shape and back through a real JSON
    // parser: role and content survive exactly
    let msg = ChatMessage { role: Role::User, content: "hi".to_string() };
    let body = encode_chat_request(&"gpt-3.5-turbo".to_string(), &vec![msg], 100);
    let parsed: serde_json::Value = serde_json::from_str(&body).unwrap();
    assert_eq!(parsed["messages"][0]["role"].as_str().unwrap(), "user");
    assert_eq!(parsed["messages"][0]["content"].as_str().unwrap(), "hi");
    assert_eq!(parsed["model"].as_str().unwrap(), "gpt-3.5-turbo");
    assert_eq!(parsed["max_tokens"].as_u64().unwrap(), 100);
}

#[test]
fn request_body_exact_text() {
    let msgs = vec![
        ChatMessage { role: Role::User, content: "hi".to_string() },
        ChatMessage { role: Role::Assistant, content: "hello".to_string() },
    ];
    let body = encode_chat_request(&"gpt-3.5-turbo".to_string(), &msgs, 4081);
    assert_eq!(
        body,
        "{\"model\":\"gpt-3.5-turbo\",\"messages\":[{\"role\":\"user\",\"content\":\"hi\"},{\"role\":\"assistant\",\"content\":\"hello\"}],\"max_tokens\":4081}"
    );
}

#[test]
fn escaping_round_trip() {
    let tricky = "a \"quoted\" line\nwith \\slashes\\ and\ttabs";
    let msg = ChatMessage { role: Role::System, content: tricky.to_string() };
    let body = encode_chat_request(&"m".to_string(), &vec![msg], 1);
    let parsed: serde_json::Value = serde_json::from_str(&body).unwrap();
    assert_eq!(parsed["messages"][0]["role"].as_str().unwrap(), "system");
    assert_eq!(parsed["messages"][0]["content"].as_str().unwrap(), tricky);
}

#[test]
fn default_chat_request() {
    let c = GptChat::default();
    assert_eq!(c.model, "gpt-3.5-turbo");
    assert_eq!(c.messages.len(), 0);
    assert_eq!(c.max_tokens, 4000);
    assert_eq!(c.encode(), "{\"model\":\"gpt-3.5-turbo\",\"messages\":[],\"max_tokens\":4000}");
}

#[test]
fn dalle_body_new() {
    let b = DalleBody::new("a red cube".to_string());
    assert_eq!(b.prompt, "a red cube");
    assert_eq!(b.n, 1);
    assert_eq!(b.size, "1024x1024");
}

#[test]
fn image_request_round_trip() {
    let b = DalleBody::new("a \"small\" dog".to_string());
    let body = b.encode();
    let parsed: serde_json::Value = serde_json::from_str(&body).unwrap();
    assert_eq!(parsed["prompt"].as_str().unwrap(), "a \"small\" dog");
    assert_eq!(parsed["n"].as_u64().unwrap(), 1);
    assert_eq!(parsed["size"].as_str().unwrap(), "1024x1024");
}
