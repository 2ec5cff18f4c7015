//! Token-budget bookkeeping: a pure heuristic estimate of a text's token cost
//! and the remaining generation budget for one request against the remote
//! model's context window.

use vstd::prelude::*;

use crate::errors::BotError;

verus! {

/// Combined input+output token capacity assumed for the remote model.
pub const CONTEXT_WINDOW: u32 = 4096;

/// Token usage charged to a fresh session before its first turn (the fixed
/// overhead of the request envelope).
pub const TOKEN_BASELINE: u32 = 8;

/// Headroom reserved for the generated reply itself: a computed remaining
/// budget below this is rejected rather than sent.
pub const RESERVED_TOKENS: u32 = 16;

/// Heuristic token cost of a text: three tokens for every two characters
/// (an over-approximation of typical tokenizer output; callers must tolerate
/// both over- and under-estimation).
pub open spec fn spec_estimate_tokens(text: Seq<char>) -> int {
    text.len() as int * 3 / 2
}

/// A turn fits when the running total, the new estimate and the reserve all
/// fit inside the context window together.
pub open spec fn spec_budget_ok(context_window: int, running_total: int, estimated_new: int) -> bool {
    running_total + estimated_new + RESERVED_TOKENS <= context_window
}

/// The budget left for the reply once the history and the new message are
/// accounted for.
pub open spec fn spec_remaining(context_window: int, running_total: int, estimated_new: int) -> int {
    context_window - running_total - estimated_new
}

/// Deterministic token estimate of `text`: exactly `spec_estimate_tokens` of
/// its characters, hence never negative.
pub fn estimate_tokens(text: &str) -> (r: u64)
    requires
        3 * text@.len() <= u64::MAX,
    ensures
        r == spec_estimate_tokens(text@),
{
    let n = text.unicode_len();
    (n as u64) * 3 / 2
}

/// Remaining generation budget, or `BudgetExceeded` exactly when the window
/// cannot hold the running total, the new estimate and the reserve together.
/// On success the result is the exact difference and is at least the reserve.
pub fn compute_remaining(context_window: u32, running_total: u32, estimated_new: u64) -> (r: Result<
    u32,
    BotError,
>)
    ensures
        r is Ok <==> spec_budget_ok(context_window as int, running_total as int, estimated_new as int),
        r is Ok ==> r->Ok_0 == spec_remaining(
            context_window as int,
            running_total as int,
            estimated_new as int,
        ),
        r is Ok ==> r->Ok_0 >= RESERVED_TOKENS,
        r is Err ==> r->Err_0 is BudgetExceeded,
{
    if estimated_new > context_window as u64 {
        return Err(BotError::BudgetExceeded);
    }
    let en: u32 = estimated_new as u32;
    let total: u64 = running_total as u64 + en as u64 + RESERVED_TOKENS as u64;
    if total <= context_window as u64 {
        Ok(context_window - running_total - en)
    } else {
        Err(BotError::BudgetExceeded)
    }
}

/// For a fixed context window the remaining budget only shrinks as the
/// running total or the new estimate grows, and wherever the budget check
/// passes it never falls below the reserve.
pub proof fn lemma_remaining_monotonic(
    context_window: int,
    running_total_lo: int,
    estimated_lo: int,
    running_total_hi: int,
    estimated_hi: int,
)
    requires
        running_total_lo <= running_total_hi,
        estimated_lo <= estimated_hi,
        spec_budget_ok(context_window, running_total_hi, estimated_hi),
    ensures
        spec_budget_ok(context_window, running_total_lo, estimated_lo),
        spec_remaining(context_window, running_total_hi, estimated_hi) <= spec_remaining(
            context_window,
            running_total_lo,
            estimated_lo,
        ),
        spec_remaining(context_window, running_total_hi, estimated_hi) >= RESERVED_TOKENS,
{
}

} // verus!
