//! Command dispatcher: maps a platform interaction's command name to a
//! handler route; an unknown name is an error, never silently dropped.

use vstd::prelude::*;

use crate::errors::BotError;
use crate::text::str_eq;

verus! {

/// The two handlers a platform interaction can route to.
#[derive(Clone, Copy, PartialEq, Eq, Structural, Debug)]
pub enum CommandRoute {
    /// One-shot image generation.
    Image,
    /// Start a conversation session.
    Gpt,
}

/// Routes a command name: `"image"` and `"gpt"` reach their handlers, any
/// other name is a `Dispatch` error.
pub fn dispatch(name: &str) -> (r: Result<CommandRoute, BotError>)
    ensures
        name@ == "image"@ ==> r == Ok::<CommandRoute, BotError>(CommandRoute::Image),
        name@ == "gpt"@ ==> r == Ok::<CommandRoute, BotError>(CommandRoute::Gpt),
        name@ != "image"@ && name@ != "gpt"@ ==> (r matches Err(e) && e is Dispatch),
{
    proof {
        reveal_strlit("image");
        reveal_strlit("gpt");
        assert("image"@.len() == 5);
        assert("gpt"@.len() == 3);
        assert("image"@ != "gpt"@);
    }
    if str_eq(name, "image") {
        Ok(CommandRoute::Image)
    } else if str_eq(name, "gpt") {
        Ok(CommandRoute::Gpt)
    } else {
        Err(BotError::Dispatch)
    }
}

} // verus!
