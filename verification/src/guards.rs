//! Safety guards evaluated before every submission.
//!
//! Both guards are deliberate aborts: a changed runtime spec version
//! invalidates the call-encoding assumptions, and a draining operator
//! account indicates compromise or a pricing bug. Neither condition is
//! retried automatically.

use vstd::prelude::*;

use crate::types::{Balance, RelayError};

verus! {

/// Abort when the target chain's reported runtime spec version differs
/// from the version the call-index table was built against.
pub fn check_spec_version_guard(expected: u32, actual: u32) -> (r: Result<(), RelayError>)
    ensures
        r is Ok <==> expected == actual,
        r is Err ==> r == Err::<(), RelayError>(RelayError::GuardTripped),
{
    if expected == actual {
        Ok(())
    } else {
        Err(RelayError::GuardTripped)
    }
}

/// How much the operator account's balance has decreased inside the
/// current rolling window; growth counts as no decrease.
pub open spec fn spec_balance_decrease(balance_at_window_start: Balance, current_balance: Balance) -> int {
    if current_balance < balance_at_window_start {
        balance_at_window_start - current_balance
    } else {
        0
    }
}

/// Abort when the operator account's balance has decreased by more than
/// `maximal_decrease` within the rolling window.
pub fn check_balance_guard(
    balance_at_window_start: Balance,
    current_balance: Balance,
    maximal_decrease: Balance,
) -> (r: Result<(), RelayError>)
    ensures
        r is Ok <==> spec_balance_decrease(balance_at_window_start, current_balance)
            <= maximal_decrease,
        r is Err ==> r == Err::<(), RelayError>(RelayError::GuardTripped),
{
    let decrease: Balance = if current_balance < balance_at_window_start {
        balance_at_window_start - current_balance
    } else {
        0
    };
    if decrease <= maximal_decrease {
        Ok(())
    } else {
        Err(RelayError::GuardTripped)
    }
}

/// Evaluate every guard of a relay instance at once, as the pipeline does
/// before each submission.
pub fn check_relay_guards(
    expected_spec_version: u32,
    actual_spec_version: u32,
    balance_at_window_start: Balance,
    current_balance: Balance,
    maximal_decrease: Balance,
) -> (r: Result<(), RelayError>)
    ensures
        r is Ok <==> expected_spec_version == actual_spec_version && spec_balance_decrease(
            balance_at_window_start,
            current_balance,
        ) <= maximal_decrease,
        r is Err ==> r == Err::<(), RelayError>(RelayError::GuardTripped),
{
    match check_spec_version_guard(expected_spec_version, actual_spec_version) {
        Ok(_) => check_balance_guard(balance_at_window_start, current_balance, maximal_decrease),
        Err(e) => Err(e),
    }
}

} // verus!
