use gptbot::dispatch::{dispatch, CommandRoute};
use gptbot::errors::BotError;
use gptbot::image::{image_reply_text, interpret_image_response, ImageResponse};
use gptbot::response::{interpret_response, ChoiceReply, DecodedResponse};

#[test]
fn known_commands_route() {
    assert_eq!(dispatch("image").unwrap(), CommandRoute::Image);
    assert_eq!(dispatch("gpt").unwrap(), CommandRoute::Gpt);
}

#[test]
fn unknown_command_is_a_dispatch_error() {
    match dispatch("ping") {
        Err(BotError::Dispatch) => {}
        _ => panic!("expected Dispatch"),
    }
    match dispatch("") {
        Err(BotError::Dispatch) => {}
        _ => panic!("expected Dispatch"),
    }
}

#[test]
fn successful_completion_is_extracted() {
    let resp = DecodedResponse {
        error_message: None,
        choices: vec![ChoiceReply { content: Some("Hi!".to_string()) }],
        total_tokens: Some(12),
    };
    let (content, total) = interpret_response(&resp).unwrap();
    assert_eq!(content, "Hi!");
    assert_eq!(total, 12);
}

#[test]
fn structured_error_carries_its_message() {
    let resp = DecodedResponse {
        error_message: Some("rate limited".to_string()),
        choices: vec![],
        total_tokens: None,
    };
    match interpret_response(&resp) {
        Err(BotError::RemoteApi { message }) => assert_eq!(message, "rate limited"),
        _ => panic!("expected RemoteApi"),
    }
}

#[test]
fn missing_fields_are_malformed() {
    let no_usage = DecodedResponse {
        error_message: None,
        choices: vec![ChoiceReply { content: Some("x".to_string()) }],
        total_tokens: None,
    };
    match interpret_response(&no_usage) {
        Err(BotError::MalformedResponse) => {}
        _ => panic!("expected MalformedResponse"),
    }
    let no_content = DecodedResponse {
        error_message: None,
        choices: vec![ChoiceReply { content: None }],
        total_tokens: Some(3),
    };
    match interpret_response(&no_content) {
        Err(BotError::MalformedResponse) => {}
        _ => panic!("expected MalformedResponse"),
    }
}

#[test]
fn recoverability_taxonomy() {
    assert!(BotError::Transport.is_recoverable());
    assert!(BotError::RemoteApi { message: "x".to_string() }.is_recoverable());
    assert!(BotError::MalformedResponse.is_recoverable());
    assert!(BotError::BudgetExceeded.is_recoverable());
    assert!(BotError::Dispatch.is_recoverable());
    assert!(!BotError::StartupConfig.is_recoverable());
    assert!(!BotError::ThreadCreation.is_recoverable());
}

#[test]
fn image_url_is_extracted() {
    let resp = ImageResponse {
        error_message: None,
        first_url: Some("https://example.invalid/cat.png".to_string()),
    };
    assert_eq!(interpret_image_response(&resp).unwrap(), "https://example.invalid/cat.png");
    assert_eq!(image_reply_text(&resp), "https://example.invalid/cat.png");
}

#[test]
fn image_error_notices() {
    let too_long = ImageResponse {
        error_message: Some("your prompt is too long".to_string()),
        first_url: None,
    };
    assert_eq!(image_reply_text(&too_long), "The prompt is too long. Please shorten it.");
    let other = ImageResponse {
        error_message: Some("server busy".to_string()),
        first_url: None,
    };
    assert_eq!(image_reply_text(&other), "An error occurred. Please try again.");
    let empty = ImageResponse { error_message: None, first_url: None };
    assert_eq!(image_reply_text(&empty), "An error occurred. Please try again.");
}
