//! Error taxonomy of the bot's core: every failure a caller can observe is one
//! of these variants.

use vstd::prelude::*;

verus! {

/// Every error the core logic can report.
///
/// * `StartupConfig` — a required credential is missing at startup; fatal.
/// * `ThreadCreation` — the platform refused to create the session's
///   sub-thread; the session never starts.
/// * `Transport` — a network-level failure calling a remote API; recoverable.
/// * `RemoteApi` — the remote API answered with a structured error payload;
///   recoverable, `message` is the payload's `error.message`.
/// * `MalformedResponse` — a success response missing a required field;
///   recoverable.
/// * `BudgetExceeded` — the computed remaining token budget is below the
///   reserve; the current turn is rejected, the session continues.
/// * `Dispatch` — an unrecognized command name.
#[derive(Debug)]
pub enum BotError {
    StartupConfig,
    ThreadCreation,
    Transport,
    RemoteApi { message: String },
    MalformedResponse,
    BudgetExceeded,
    Dispatch,
}

impl BotError {
    /// True for the errors a session survives: everything that can happen
    /// during a turn. Only startup and thread-creation failures are not
    /// per-turn errors.
    pub open spec fn spec_recoverable(&self) -> bool {
        match self {
            BotError::StartupConfig => false,
            BotError::ThreadCreation => false,
            _ => true,
        }
    }

    pub fn is_recoverable(&self) -> (r: bool)
        ensures
            r == self.spec_recoverable(),
    {
        match self {
            BotError::StartupConfig => false,
            BotError::ThreadCreation => false,
            _ => true,
        }
    }
}

} // verus!
