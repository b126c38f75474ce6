//! The numeric range check.
//!
//! A value is checked against an optional lower and an optional upper limit;
//! an absent limit leaves that side unbounded.  With `include_equal` (the
//! default) the limits themselves are admitted, without it the comparison is
//! strict.

use vstd::prelude::*;

use crate::helper::{policy_resolved, resolve_failure, ErrorKind, ResolvedFailure};
use crate::if_condition::unit_outcome_equiv;
use crate::toggle::{checks_enabled, is_enabled};

verus! {

/// The limit taken when the caller left one side open.
pub open spec fn bounded_below(x: i64, lower_limit: Option<i64>, include_equal: bool) -> bool {
    match lower_limit {
        Option::None => true,
        Option::Some(l) => if include_equal {
            l <= x
        } else {
            l < x
        },
    }
}

pub open spec fn bounded_above(x: i64, upper_limit: Option<i64>, include_equal: bool) -> bool {
    match upper_limit {
        Option::None => true,
        Option::Some(u) => if include_equal {
            x <= u
        } else {
            x < u
        },
    }
}

/// `lower <= x <= upper` (or the strict version), with absent limits
/// unbounded.
pub open spec fn within_limits(
    x: i64,
    lower_limit: Option<i64>,
    upper_limit: Option<i64>,
    include_equal: bool,
) -> bool {
    bounded_below(x, lower_limit, include_equal) && bounded_above(x, upper_limit, include_equal)
}

pub open spec fn include_equal_or_default(include_equal: Option<bool>) -> bool {
    match include_equal {
        Option::None => true,
        Option::Some(b) => b,
    }
}

/// What a finished range check looks like: success exactly when the checks
/// are disabled or the value lies within the limits, and otherwise a failure
/// resolved against the given default kind.
pub open spec fn limits_post(
    r: Result<(), ResolvedFailure>,
    run_flag: Option<String>,
    x: i64,
    lower_limit: Option<i64>,
    upper_limit: Option<i64>,
    handle_with: Option<ErrorKind>,
    message: Option<&str>,
    include_equal: Option<bool>,
    default_kind: ErrorKind,
) -> bool {
    &&& r is Ok <==> (!checks_enabled(run_flag) || within_limits(
        x,
        lower_limit,
        upper_limit,
        include_equal_or_default(include_equal),
    ))
    &&& (r matches Err(f) ==> policy_resolved(f, handle_with, message, default_kind))
}

fn limits_check(
    run_flag: &Option<String>,
    x: i64,
    lower_limit: Option<i64>,
    upper_limit: Option<i64>,
    handle_with: Option<ErrorKind>,
    message: Option<&str>,
    include_equal: Option<bool>,
    default_kind: ErrorKind,
) -> (r: Result<(), ResolvedFailure>)
    ensures
        limits_post(
            r,
            *run_flag,
            x,
            lower_limit,
            upper_limit,
            handle_with,
            message,
            include_equal,
            default_kind,
        ),
{
    if !is_enabled(run_flag) {
        return Ok(());
    }
    let inclusive = match include_equal {
        Option::None => true,
        Option::Some(b) => b,
    };
    let below_ok = match lower_limit {
        Option::None => true,
        Option::Some(l) => if inclusive {
            l <= x
        } else {
            l < x
        },
    };
    let above_ok = match upper_limit {
        Option::None => true,
        Option::Some(u) => if inclusive {
            x <= u
        } else {
            x < u
        },
    };
    if below_ok && above_ok {
        Ok(())
    } else {
        Err(resolve_failure(handle_with, message, default_kind))
    }
}

/// Checks that `x` lies within the limits; fails with the limit error by
/// default, or with the caller's handler.
pub fn check_if_in_limits(
    run_flag: &Option<String>,
    x: i64,
    lower_limit: Option<i64>,
    upper_limit: Option<i64>,
    handle_with: Option<ErrorKind>,
    message: Option<&str>,
    include_equal: Option<bool>,
) -> (r: Result<(), ResolvedFailure>)
    ensures
        limits_post(
            r,
            *run_flag,
            x,
            lower_limit,
            upper_limit,
            handle_with,
            message,
            include_equal,
            ErrorKind::LimitError,
        ),
{
    limits_check(
        run_flag,
        x,
        lower_limit,
        upper_limit,
        handle_with,
        message,
        include_equal,
        ErrorKind::LimitError,
    )
}

/// The assert twin of [`check_if_in_limits`]: the default failure kind
/// becomes the assertion failure unless an explicit handler is supplied.
pub fn assert_if_in_limits(
    run_flag: &Option<String>,
    x: i64,
    lower_limit: Option<i64>,
    upper_limit: Option<i64>,
    handle_with: Option<ErrorKind>,
    message: Option<&str>,
    include_equal: Option<bool>,
) -> (r: Result<(), ResolvedFailure>)
    ensures
        limits_post(
            r,
            *run_flag,
            x,
            lower_limit,
            upper_limit,
            handle_with,
            message,
            include_equal,
            ErrorKind::AssertionError,
        ),
{
    limits_check(
        run_flag,
        x,
        lower_limit,
        upper_limit,
        handle_with,
        message,
        include_equal,
        ErrorKind::AssertionError,
    )
}

/// Checking the same value against the same limits twice, with an unchanged
/// configuration value, yields indistinguishable outcomes.
pub proof fn lemma_limits_idempotent(
    r1: Result<(), ResolvedFailure>,
    r2: Result<(), ResolvedFailure>,
    run_flag: Option<String>,
    x: i64,
    lower_limit: Option<i64>,
    upper_limit: Option<i64>,
    handle_with: Option<ErrorKind>,
    message: Option<&str>,
    include_equal: Option<bool>,
    default_kind: ErrorKind,
)
    requires
        limits_post(
            r1,
            run_flag,
            x,
            lower_limit,
            upper_limit,
            handle_with,
            message,
            include_equal,
            default_kind,
        ),
        limits_post(
            r2,
            run_flag,
            x,
            lower_limit,
            upper_limit,
            handle_with,
            message,
            include_equal,
            default_kind,
        ),
    ensures
        unit_outcome_equiv(r1, r2),
{
}

} // verus!
