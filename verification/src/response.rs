//! Interpretation of the remote completion API's decoded response: a typed
//! schema with optional fields, the exact rules deciding success, structured
//! error and malformed response, and the user-facing notices derived from
//! known error conditions.

use vstd::prelude::*;

use crate::errors::BotError;
use crate::text::{contains_substring, spec_contains};

verus! {

/// One entry of the response's `choices` array: its `message.content`, if
/// the field was present.
pub struct ChoiceReply {
    pub content: Option<String>,
}

/// A decoded response body: the structured error message if one was present,
/// the choices, and the reported `usage.total_tokens` if present. Transport
/// failures never produce a value of this type.
pub struct DecodedResponse {
    pub error_message: Option<String>,
    pub choices: Vec<ChoiceReply>,
    pub total_tokens: Option<u32>,
}

/// The response carries everything a successful completion owes: no error,
/// a first choice with content, and a token usage report.
pub open spec fn spec_response_complete(r: DecodedResponse) -> bool {
    &&& r.error_message is None
    &&& r.choices@.len() > 0
    &&& r.choices@[0].content is Some
    &&& r.total_tokens is Some
}

/// Extracts the first choice's content and the reported total token usage.
/// Fails with `RemoteApi` carrying the payload's message exactly when the
/// response holds a structured error, and with `MalformedResponse` exactly
/// when a required field is missing.
pub fn interpret_response(r: &DecodedResponse) -> (res: Result<(String, u32), BotError>)
    ensures
        r.error_message matches Some(m) ==> (res matches Err(e) && e matches BotError::RemoteApi {
            message,
        } && message@ == m@),
        r.error_message is None && !spec_response_complete(*r) ==> (res matches Err(e)
            && e is MalformedResponse),
        spec_response_complete(*r) ==> (res matches Ok(p) && p.0@
            == r.choices@[0].content->Some_0@ && p.1 == r.total_tokens->Some_0),
{
    match &r.error_message {
        Some(m) => Err(BotError::RemoteApi { message: m.clone() }),
        None => {
            if r.choices.len() == 0 {
                return Err(BotError::MalformedResponse);
            }
            match (&r.choices[0].content, &r.total_tokens) {
                (Some(c), Some(t)) => Ok((c.clone(), *t)),
                _ => Err(BotError::MalformedResponse),
            }
        },
    }
}

/// The notice shown when a remote error message reports an oversized prompt.
pub open spec fn spec_too_long_notice() -> Seq<char> {
    "The prompt is too long. Please shorten it."@
}

/// The generic notice for any other remote failure.
pub open spec fn spec_generic_notice() -> Seq<char> {
    "An error occurred. Please try again."@
}

/// User-facing notice derived from a structured remote error message: the
/// oversized-prompt hint when the message says so, the generic notice
/// otherwise.
pub open spec fn spec_error_notice(message: Seq<char>) -> Seq<char> {
    if spec_contains(message, "is too long"@) {
        spec_too_long_notice()
    } else {
        spec_generic_notice()
    }
}

/// User-facing notice for any per-turn failure: derived from the message of
/// a structured remote error, generic for everything else.
pub open spec fn spec_failure_notice(e: BotError) -> Seq<char> {
    match e {
        BotError::RemoteApi { message } => spec_error_notice(message@),
        _ => spec_generic_notice(),
    }
}

/// Exec counterpart of `spec_error_notice`.
pub fn error_notice(message: &str) -> (r: String)
    ensures
        r@ == spec_error_notice(message@),
{
    if contains_substring(message, "is too long") {
        String::from_str("The prompt is too long. Please shorten it.")
    } else {
        String::from_str("An error occurred. Please try again.")
    }
}

/// Exec counterpart of `spec_failure_notice`.
pub fn failure_notice(e: &BotError) -> (r: String)
    ensures
        r@ == spec_failure_notice(*e),
{
    match e {
        BotError::RemoteApi { message } => error_notice(message.as_str()),
        _ => String::from_str("An error occurred. Please try again."),
    }
}

} // verus!
