use gptbot::budget::{
    compute_remaining, estimate_tokens, CONTEXT_WINDOW, RESERVED_TOKENS, TOKEN_BASELINE,
};
use gptbot::errors::BotError;

#[test]
fn estimate_is_deterministic_and_non_negative() {
    let a = estimate_tokens("Hello");
    let b = estimate_tokens("Hello");
    assert_eq!(a, b);
    assert_eq!(a, 7); // 5 characters * 3 / 2
    assert_eq!(estimate_tokens(""), 0);
    assert_eq!(estimate_tokens("ab"), 3);
    assert_eq!(estimate_tokens("abc"), 4);
}

#[test]
fn estimate_counts_characters_not_bytes() {
    // four characters, each more than one byte long
    assert_eq!(estimate_tokens("éééé"), 6);
}

#[test]
fn remaining_is_exact_difference() {
    assert_eq!(compute_remaining(4096, 8, 7).unwrap(), 4081);
    assert_eq!(compute_remaining(CONTEXT_WINDOW, TOKEN_BASELINE, 0).unwrap(), 4088);
}

#[test]
fn remaining_never_below_reserve() {
    // the largest estimate that still fits
    let max_fit = (CONTEXT_WINDOW - TOKEN_BASELINE - RESERVED_TOKENS) as u64;
    let r = compute_remaining(CONTEXT_WINDOW, TOKEN_BASELINE, max_fit).unwrap();
    assert_eq!(r, RESERVED_TOKENS);
    assert!(compute_remaining(CONTEXT_WINDOW, TOKEN_BASELINE, max_fit + 1).is_err());
}

#[test]
fn remaining_monotonically_decreasing() {
    let base = compute_remaining(4096, 100, 50).unwrap();
    let more_total = compute_remaining(4096, 200, 50).unwrap();
    let more_estimate = compute_remaining(4096, 100, 150).unwrap();
    assert!(more_total < base);
    assert!(more_estimate < base);
}

#[test]
fn exhausted_budget_is_an_error() {
    match compute_remaining(4096, 4096, 0) {
        Err(BotError::BudgetExceeded) => {}
        _ => panic!("expected BudgetExceeded"),
    }
    match compute_remaining(100, 0, 10_000) {
        Err(BotError::BudgetExceeded) => {}
        _ => panic!("expected BudgetExceeded"),
    }
}
