//! The approximate-equality check.
//!
//! Two values are close when the difference between them is at most the
//! larger of a relative and an absolute tolerance:
//! `|x - y| <= max(rel_tol * max(|x|, |y|), abs_tol)`.
//!
//! Values and the absolute tolerance are integers in whatever unit the
//! caller works in.  The relative tolerance is dimensionless and is given in
//! parts per [`TOLERANCE_SCALE`], so that tolerances far below one can be
//! stated exactly; the default relative tolerance is one part in ten
//! billion, the default absolute tolerance is zero.

use vstd::prelude::*;

use crate::helper::{policy_resolved, resolve_failure, ErrorKind, ResolvedFailure};
use crate::if_condition::unit_outcome_equiv;
use crate::toggle::{checks_enabled, is_enabled};

verus! {

/// One unit of relative tolerance is one part in this many.
pub const TOLERANCE_SCALE: u64 = 1_000_000_000_000_000_000;

/// The default relative tolerance: one part in ten billion.
pub const DEFAULT_REL_TOL: u64 = 100_000_000;

/// The default absolute tolerance: exact equality unless the relative
/// tolerance admits more.
pub const DEFAULT_ABS_TOL: u64 = 0;

pub open spec fn magnitude(x: i64) -> int {
    if x < 0 {
        -(x as int)
    } else {
        x as int
    }
}

pub open spec fn abs_diff(x: i64, y: i64) -> int {
    if x >= y {
        x - y
    } else {
        y - x
    }
}

pub open spec fn larger_magnitude(x: i64, y: i64) -> int {
    if magnitude(x) >= magnitude(y) {
        magnitude(x)
    } else {
        magnitude(y)
    }
}

/// The closeness predicate, with both sides scaled by [`TOLERANCE_SCALE`]
/// so that the relative tolerance keeps its fractional meaning in integer
/// arithmetic.
pub open spec fn is_close(x: i64, y: i64, rel_tol: u64, abs_tol: u64) -> bool {
    abs_diff(x, y) * TOLERANCE_SCALE <= spec_max(
        rel_tol * larger_magnitude(x, y),
        abs_tol * TOLERANCE_SCALE,
    )
}

pub open spec fn spec_max(a: int, b: int) -> int {
    if a >= b {
        a
    } else {
        b
    }
}

pub open spec fn rel_tol_or_default(rel_tol: Option<u64>) -> u64 {
    match rel_tol {
        Option::None => DEFAULT_REL_TOL,
        Option::Some(t) => t,
    }
}

pub open spec fn abs_tol_or_default(abs_tol: Option<u64>) -> u64 {
    match abs_tol {
        Option::None => DEFAULT_ABS_TOL,
        Option::Some(t) => t,
    }
}

/// Decides [`is_close`] without overflow: every product fits well inside
/// 128 bits.
fn close_enough(x: i64, y: i64, rel_tol: u64, abs_tol: u64) -> (r: bool)
    ensures
        r == is_close(x, y, rel_tol, abs_tol),
{
    let xi: i128 = x as i128;
    let yi: i128 = y as i128;
    let diff: u128 = if xi >= yi {
        (xi - yi) as u128
    } else {
        (yi - xi) as u128
    };
    let ax: u128 = if xi >= 0 {
        xi as u128
    } else {
        (-xi) as u128
    };
    let ay: u128 = if yi >= 0 {
        yi as u128
    } else {
        (-yi) as u128
    };
    let larger: u128 = if ax >= ay {
        ax
    } else {
        ay
    };
    let scale: u128 = TOLERANCE_SCALE as u128;
    proof {
        assert(diff <= 0xFFFF_FFFF_FFFF_FFFFu128);
        assert(larger <= 0x8000_0000_0000_0000u128);
        assert(diff * scale <= 0xFFFF_FFFF_FFFF_FFFFu128 * 1_000_000_000_000_000_000u128)
            by (nonlinear_arith)
            requires
                diff <= 0xFFFF_FFFF_FFFF_FFFFu128,
                scale == 1_000_000_000_000_000_000u128,
        ;
        assert((rel_tol as u128) * larger <= 0xFFFF_FFFF_FFFF_FFFFu128
            * 0x8000_0000_0000_0000u128) by (nonlinear_arith)
            requires
                rel_tol as u128 <= 0xFFFF_FFFF_FFFF_FFFFu128,
                larger <= 0x8000_0000_0000_0000u128,
        ;
        assert((abs_tol as u128) * scale <= 0xFFFF_FFFF_FFFF_FFFFu128
            * 1_000_000_000_000_000_000u128) by (nonlinear_arith)
            requires
                abs_tol as u128 <= 0xFFFF_FFFF_FFFF_FFFFu128,
                scale == 1_000_000_000_000_000_000u128,
        ;
    }
    let scaled_diff: u128 = diff * scale;
    let rel_part: u128 = (rel_tol as u128) * larger;
    let abs_part: u128 = (abs_tol as u128) * scale;
    let allowed: u128 = if rel_part >= abs_part {
        rel_part
    } else {
        abs_part
    };
    scaled_diff <= allowed
}

/// What a finished closeness check looks like: success exactly when the
/// checks are disabled or the values are close under the (defaulted)
/// tolerances, and otherwise a failure resolved against the given default
/// kind.
pub open spec fn isclose_post(
    r: Result<(), ResolvedFailure>,
    run_flag: Option<String>,
    x: i64,
    y: i64,
    handle_with: Option<ErrorKind>,
    message: Option<&str>,
    rel_tol: Option<u64>,
    abs_tol: Option<u64>,
    default_kind: ErrorKind,
) -> bool {
    &&& r is Ok <==> (!checks_enabled(run_flag) || is_close(
        x,
        y,
        rel_tol_or_default(rel_tol),
        abs_tol_or_default(abs_tol),
    ))
    &&& (r matches Err(f) ==> policy_resolved(f, handle_with, message, default_kind))
}

fn isclose_check(
    run_flag: &Option<String>,
    x: i64,
    y: i64,
    handle_with: Option<ErrorKind>,
    message: Option<&str>,
    rel_tol: Option<u64>,
    abs_tol: Option<u64>,
    default_kind: ErrorKind,
) -> (r: Result<(), ResolvedFailure>)
    ensures
        isclose_post(r, *run_flag, x, y, handle_with, message, rel_tol, abs_tol, default_kind),
{
    if !is_enabled(run_flag) {
        return Ok(());
    }
    let rel = match rel_tol {
        Option::None => DEFAULT_REL_TOL,
        Option::Some(t) => t,
    };
    let abs = match abs_tol {
        Option::None => DEFAULT_ABS_TOL,
        Option::Some(t) => t,
    };
    if close_enough(x, y, rel, abs) {
        Ok(())
    } else {
        Err(resolve_failure(handle_with, message, default_kind))
    }
}

/// Checks that `x` and `y` are close under the tolerances; fails with the
/// not-close-enough error by default, or with the caller's handler.
pub fn check_if_isclose(
    run_flag: &Option<String>,
    x: i64,
    y: i64,
    handle_with: Option<ErrorKind>,
    message: Option<&str>,
    rel_tol: Option<u64>,
    abs_tol: Option<u64>,
) -> (r: Result<(), ResolvedFailure>)
    ensures
        isclose_post(
            r,
            *run_flag,
            x,
            y,
            handle_with,
            message,
            rel_tol,
            abs_tol,
            ErrorKind::NotCloseEnoughError,
        ),
{
    isclose_check(
        run_flag,
        x,
        y,
        handle_with,
        message,
        rel_tol,
        abs_tol,
        ErrorKind::NotCloseEnoughError,
    )
}

/// The assert twin of [`check_if_isclose`]: the default failure kind
/// becomes the assertion failure unless an explicit handler is supplied.
pub fn assert_if_isclose(
    run_flag: &Option<String>,
    x: i64,
    y: i64,
    handle_with: Option<ErrorKind>,
    message: Option<&str>,
    rel_tol: Option<u64>,
    abs_tol: Option<u64>,
) -> (r: Result<(), ResolvedFailure>)
    ensures
        isclose_post(
            r,
            *run_flag,
            x,
            y,
            handle_with,
            message,
            rel_tol,
            abs_tol,
            ErrorKind::AssertionError,
        ),
{
    isclose_check(run_flag, x, y, handle_with, message, rel_tol, abs_tol, ErrorKind::AssertionError)
}

/// Closeness is reflexive: a value is close to itself under every pair of
/// tolerances, so comparing a value with itself always succeeds while the
/// checks are enabled.
pub proof fn lemma_isclose_reflexive(x: i64, rel_tol: u64, abs_tol: u64)
    ensures
        is_close(x, x, rel_tol, abs_tol),
{
    let m = larger_magnitude(x, x);
    assert(abs_diff(x, x) == 0);
    assert(0 <= (rel_tol as int) * m) by (nonlinear_arith)
        requires
            0 <= rel_tol as int,
            0 <= m,
    ;
}

/// Checking the same pair twice with the same tolerances and an unchanged
/// configuration value yields indistinguishable outcomes.
pub proof fn lemma_isclose_idempotent(
    r1: Result<(), ResolvedFailure>,
    r2: Result<(), ResolvedFailure>,
    run_flag: Option<String>,
    x: i64,
    y: i64,
    handle_with: Option<ErrorKind>,
    message: Option<&str>,
    rel_tol: Option<u64>,
    abs_tol: Option<u64>,
    default_kind: ErrorKind,
)
    requires
        isclose_post(r1, run_flag, x, y, handle_with, message, rel_tol, abs_tol, default_kind),
        isclose_post(r2, run_flag, x, y, handle_with, message, rel_tol, abs_tol, default_kind),
    ensures
        unit_outcome_equiv(r1, r2),
{
}

} // verus!
