//! One-shot image generation: the provider's request body for an image
//! prompt and the interpretation of its decoded response.

use vstd::prelude::*;

use crate::encode::{push_decimal, push_escaped_from, spec_decimal, spec_escape};
use crate::errors::BotError;
use crate::response::{spec_error_notice, spec_generic_notice, error_notice};

verus! {

/// The provider's image-generation request body:
/// `{"prompt":…,"n":…,"size":…}`.
pub open spec fn spec_encode_image_request(prompt: Seq<char>, n: int, size: Seq<char>) -> Seq<
    char,
> {
    "{\"prompt\":\""@ + spec_escape(prompt) + "\",\"n\":"@ + spec_decimal(n) + ",\"size\":\""@
        + spec_escape(size) + "\"}"@
}

/// An image-generation request: one image of a fixed size for a prompt.
pub struct DalleBody {
    pub prompt: String,
    pub n: u8,
    pub size: String,
}

impl DalleBody {
    /// A request for one 1024x1024 image with the given prompt.
    pub fn new(prompt: String) -> (b: Self)
        ensures
            b.prompt@ == prompt@,
            b.n == 1,
            b.size@ == "1024x1024"@,
    {
        Self { prompt, n: 1, size: String::from_str("1024x1024") }
    }

    /// Serializes this request into the provider's JSON body.
    pub fn encode(&self) -> (r: String)
        ensures
            r@ == spec_encode_image_request(self.prompt@, self.n as int, self.size@),
    {
        let _bound_prompt = self.prompt.as_str().unicode_len();
        let _bound_size = self.size.as_str().unicode_len();
        let mut out = String::new();
        out.append("{\"prompt\":\"");
        push_escaped_from(&mut out, self.prompt.as_str(), 0);
        out.append("\",\"n\":");
        push_decimal(&mut out, self.n as u32);
        out.append(",\"size\":\"");
        push_escaped_from(&mut out, self.size.as_str(), 0);
        out.append("\"}");
        proof {
            assert(self.prompt@.skip(0) =~= self.prompt@);
            assert(self.size@.skip(0) =~= self.size@);
            assert(out@ =~= spec_encode_image_request(self.prompt@, self.n as int, self.size@));
        }
        out
    }
}

/// A decoded image-generation response: the structured error message if one
/// was present, and the first returned image URL if one was present.
pub struct ImageResponse {
    pub error_message: Option<String>,
    pub first_url: Option<String>,
}

/// Extracts the image URL. Fails with `RemoteApi` carrying the payload's
/// message exactly when the response holds a structured error, and with
/// `MalformedResponse` exactly when no URL came back.
pub fn interpret_image_response(r: &ImageResponse) -> (res: Result<String, BotError>)
    ensures
        r.error_message matches Some(m) ==> (res matches Err(e) && e matches BotError::RemoteApi {
            message,
        } && message@ == m@),
        r.error_message is None && r.first_url is None ==> (res matches Err(e)
            && e is MalformedResponse),
        r.error_message is None ==> (r.first_url matches Some(u) ==> (res matches Ok(url) && url@
            == u@)),
{
    match &r.error_message {
        Some(m) => Err(BotError::RemoteApi { message: m.clone() }),
        None => match &r.first_url {
            Some(u) => Ok(u.clone()),
            None => Err(BotError::MalformedResponse),
        },
    }
}

/// The text shown to the user for an image response: the first image URL on
/// success, the oversized-prompt hint when the remote error message reports
/// one, the generic notice otherwise.
pub fn image_reply_text(r: &ImageResponse) -> (t: String)
    ensures
        r.error_message matches Some(m) ==> t@ == spec_error_notice(m@),
        r.error_message is None ==> (r.first_url matches Some(u) ==> t@ == u@),
        r.error_message is None && r.first_url is None ==> t@ == spec_generic_notice(),
{
    match &r.error_message {
        Some(m) => error_notice(m.as_str()),
        None => match &r.first_url {
            Some(u) => u.clone(),
            None => String::from_str("An error occurred. Please try again."),
        },
    }
}

} // verus!
