//! The plainest check: a single boolean condition.

use vstd::prelude::*;

use crate::helper::{
    check_handle_warning_with, failure_equiv, policy_resolved, ErrorKind, ResolvedFailure,
};
use crate::toggle::{checks_enabled, is_enabled};

verus! {

/// What a finished condition check looks like: a no-op success while the
/// checks are disabled, success exactly when the condition holds, and
/// otherwise a failure resolved by the policy with the assertion default.
pub open spec fn check_if_post(
    r: Result<(), ResolvedFailure>,
    run_flag: Option<String>,
    condition: bool,
    handle_with: Option<ErrorKind>,
    message: Option<&str>,
) -> bool {
    &&& r is Ok <==> (!checks_enabled(run_flag) || condition)
    &&& (r matches Err(f) ==> policy_resolved(f, handle_with, message, ErrorKind::AssertionError))
}

/// Checks that `condition` holds; fails with an assertion failure by
/// default, or with the caller's handler.
pub fn check_if(
    run_flag: &Option<String>,
    condition: bool,
    handle_with: Option<ErrorKind>,
    message: Option<&str>,
) -> (r: Result<(), ResolvedFailure>)
    ensures
        check_if_post(r, *run_flag, condition, handle_with, message),
{
    if !is_enabled(run_flag) {
        return Ok(());
    }
    if condition {
        Ok(())
    } else {
        Err(check_handle_warning_with(handle_with, message))
    }
}

/// The assert twin of [`check_if`]: the default failure kind is the
/// assertion failure unless an explicit handler is supplied, which for this
/// check is already the policy of [`check_if`] itself.
pub fn assert_if(
    run_flag: &Option<String>,
    condition: bool,
    handle_with: Option<ErrorKind>,
    message: Option<&str>,
) -> (r: Result<(), ResolvedFailure>)
    ensures
        check_if_post(r, *run_flag, condition, handle_with, message),
{
    check_if(run_flag, condition, handle_with, message)
}

/// Two outcomes of unit-result checks that a caller cannot tell apart.
pub open spec fn unit_outcome_equiv(
    r1: Result<(), ResolvedFailure>,
    r2: Result<(), ResolvedFailure>,
) -> bool {
    match (r1, r2) {
        (Result::Ok(()), Result::Ok(())) => true,
        (Result::Err(f1), Result::Err(f2)) => failure_equiv(f1, f2),
        _ => false,
    }
}

/// Checking a condition twice with the same arguments and an unchanged
/// configuration value yields indistinguishable outcomes.
pub proof fn lemma_check_if_idempotent(
    r1: Result<(), ResolvedFailure>,
    r2: Result<(), ResolvedFailure>,
    run_flag: Option<String>,
    condition: bool,
    handle_with: Option<ErrorKind>,
    message: Option<&str>,
)
    requires
        check_if_post(r1, run_flag, condition, handle_with, message),
        check_if_post(r2, run_flag, condition, handle_with, message),
    ensures
        unit_outcome_equiv(r1, r2),
{
}

} // verus!
