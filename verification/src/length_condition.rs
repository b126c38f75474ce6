//! The length comparison check.
//!
//! The item under test is abstracted to whether it offers a measurable
//! length, and if so which.  An item without one can still pass when the
//! caller opts in to the singleton fallback, which wraps the item as a
//! one-element collection before comparing.

use vstd::prelude::*;

use crate::helper::{policy_resolved, resolve_failure, ErrorKind, ResolvedFailure, Severity};
use crate::if_condition::unit_outcome_equiv;
use crate::toggle::{checks_enabled, is_enabled};

verus! {

/// The "has a measurable length" capability: either the item exposes a
/// length, or it is a bare scalar without one.
#[derive(Clone, Copy, PartialEq, Eq, Structural, Debug)]
pub enum Measurable {
    WithLen { len: usize },
    Scalar,
}

/// The comparisons a caller may substitute for the default equality.
#[derive(Clone, Copy, PartialEq, Eq, Structural, Debug)]
pub enum LengthOperator {
    Eq,
    Ne,
    Lt,
    Le,
    Gt,
    Ge,
}

pub open spec fn operator_holds(op: LengthOperator, actual: usize, expected: usize) -> bool {
    match op {
        LengthOperator::Eq => actual == expected,
        LengthOperator::Ne => actual != expected,
        LengthOperator::Lt => actual < expected,
        LengthOperator::Le => actual <= expected,
        LengthOperator::Gt => actual > expected,
        LengthOperator::Ge => actual >= expected,
    }
}

pub open spec fn operator_or_default(operator: Option<LengthOperator>) -> LengthOperator {
    match operator {
        Option::None => LengthOperator::Eq,
        Option::Some(op) => op,
    }
}

/// The length the check measures: the item's own, or one for a scalar when
/// the singleton fallback is on, or nothing.
pub open spec fn measured_len(item: Measurable, assign_length_to_others: bool) -> Option<usize> {
    match item {
        Measurable::WithLen { len } => Option::Some(len),
        Measurable::Scalar => if assign_length_to_others {
            Option::Some(1usize)
        } else {
            Option::None
        },
    }
}

pub open spec fn fallback_or_default(assign_length_to_others: Option<bool>) -> bool {
    match assign_length_to_others {
        Option::None => false,
        Option::Some(b) => b,
    }
}

/// The usage error for an item with no measurable length: a type error that
/// no handler override touches.
pub open spec fn no_len_failure(f: ResolvedFailure) -> bool {
    &&& f.kind == ErrorKind::TypeError
    &&& f.severity == Severity::Error
    &&& f.message@ == "item has no len()"@
}

/// What a finished length check looks like.  While the checks are enabled:
/// an unmeasurable item (with the fallback off) is a usage type error;
/// a measured length passes exactly when the (defaulted) comparison holds,
/// and fails otherwise with a failure resolved against the given default
/// kind.
pub open spec fn length_post(
    r: Result<(), ResolvedFailure>,
    run_flag: Option<String>,
    item: Measurable,
    expected_length: usize,
    handle_with: Option<ErrorKind>,
    message: Option<&str>,
    operator: Option<LengthOperator>,
    assign_length_to_others: Option<bool>,
    default_kind: ErrorKind,
) -> bool {
    let len = measured_len(item, fallback_or_default(assign_length_to_others));
    &&& r is Ok <==> (!checks_enabled(run_flag) || (len matches Option::Some(n)
        && operator_holds(operator_or_default(operator), n, expected_length)))
    &&& (checks_enabled(run_flag) && len is None ==> (r matches Err(f) && no_len_failure(f)))
    &&& (checks_enabled(run_flag) && (len matches Option::Some(n) && !operator_holds(
        operator_or_default(operator),
        n,
        expected_length,
    )) ==> (r matches Err(f) && policy_resolved(f, handle_with, message, default_kind)))
}

fn compare_length(actual: usize, expected: usize, operator: Option<LengthOperator>) -> (r: bool)
    ensures
        r == operator_holds(operator_or_default(operator), actual, expected),
{
    let op = match operator {
        Option::None => LengthOperator::Eq,
        Option::Some(op) => op,
    };
    match op {
        LengthOperator::Eq => actual == expected,
        LengthOperator::Ne => actual != expected,
        LengthOperator::Lt => actual < expected,
        LengthOperator::Le => actual <= expected,
        LengthOperator::Gt => actual > expected,
        LengthOperator::Ge => actual >= expected,
    }
}

fn length_check(
    run_flag: &Option<String>,
    item: &Measurable,
    expected_length: usize,
    handle_with: Option<ErrorKind>,
    message: Option<&str>,
    operator: Option<LengthOperator>,
    assign_length_to_others: Option<bool>,
    default_kind: ErrorKind,
) -> (r: Result<(), ResolvedFailure>)
    ensures
        length_post(
            r,
            *run_flag,
            *item,
            expected_length,
            handle_with,
            message,
            operator,
            assign_length_to_others,
            default_kind,
        ),
{
    if !is_enabled(run_flag) {
        return Ok(());
    }
    let fallback = match assign_length_to_others {
        Option::None => false,
        Option::Some(b) => b,
    };
    let actual: usize = match item {
        Measurable::WithLen { len } => *len,
        Measurable::Scalar => {
            if fallback {
                1
            } else {
                return Err(
                    ResolvedFailure {
                        kind: ErrorKind::TypeError,
                        severity: Severity::Error,
                        message: "item has no len()".to_owned(),
                    },
                );
            }
        },
    };
    if compare_length(actual, expected_length, operator) {
        Ok(())
    } else {
        Err(resolve_failure(handle_with, message, default_kind))
    }
}

/// Checks the item's length against the expected one; fails with the length
/// error by default, or with the caller's handler.  An item without a
/// measurable length fails with a type error unless
/// `assign_length_to_others` wraps it as a singleton of length one.
pub fn check_length(
    run_flag: &Option<String>,
    item: &Measurable,
    expected_length: usize,
    handle_with: Option<ErrorKind>,
    message: Option<&str>,
    operator: Option<LengthOperator>,
    assign_length_to_others: Option<bool>,
) -> (r: Result<(), ResolvedFailure>)
    ensures
        length_post(
            r,
            *run_flag,
            *item,
            expected_length,
            handle_with,
            message,
            operator,
            assign_length_to_others,
            ErrorKind::LengthError,
        ),
{
    length_check(
        run_flag,
        item,
        expected_length,
        handle_with,
        message,
        operator,
        assign_length_to_others,
        ErrorKind::LengthError,
    )
}

/// The assert twin of [`check_length`]: the default failure kind becomes
/// the assertion failure unless an explicit handler is supplied.  The usage
/// type error for an unmeasurable item is unchanged.
pub fn assert_length(
    run_flag: &Option<String>,
    item: &Measurable,
    expected_length: usize,
    handle_with: Option<ErrorKind>,
    message: Option<&str>,
    operator: Option<LengthOperator>,
    assign_length_to_others: Option<bool>,
) -> (r: Result<(), ResolvedFailure>)
    ensures
        length_post(
            r,
            *run_flag,
            *item,
            expected_length,
            handle_with,
            message,
            operator,
            assign_length_to_others,
            ErrorKind::AssertionError,
        ),
{
    length_check(
        run_flag,
        item,
        expected_length,
        handle_with,
        message,
        operator,
        assign_length_to_others,
        ErrorKind::AssertionError,
    )
}

/// Checking the same item twice with the same arguments and an unchanged
/// configuration value yields indistinguishable outcomes.
pub proof fn lemma_length_idempotent(
    r1: Result<(), ResolvedFailure>,
    r2: Result<(), ResolvedFailure>,
    run_flag: Option<String>,
    item: Measurable,
    expected_length: usize,
    handle_with: Option<ErrorKind>,
    message: Option<&str>,
    operator: Option<LengthOperator>,
    assign_length_to_others: Option<bool>,
    default_kind: ErrorKind,
)
    requires
        length_post(
            r1,
            run_flag,
            item,
            expected_length,
            handle_with,
            message,
            operator,
            assign_length_to_others,
            default_kind,
        ),
        length_post(
            r2,
            run_flag,
            item,
            expected_length,
            handle_with,
            message,
            operator,
            assign_length_to_others,
            default_kind,
        ),
    ensures
        unit_outcome_equiv(r1, r2),
{
}

} // verus!
