//! The type-membership check.
//!
//! Runtime types are abstracted to opaque tags, and the expected shape is a
//! closed classification: a single type, an ordered list of types, or an
//! unordered set of types.  Against a list or a set the check is a logical
//! OR: the item passes when its tag matches any member.

use vstd::prelude::*;

use crate::helper::{policy_resolved, resolve_failure, ErrorKind, ResolvedFailure};
use crate::if_condition::unit_outcome_equiv;
use crate::toggle::{checks_enabled, is_enabled};

verus! {

/// The recognized shapes of the expected-type argument.
#[derive(Debug)]
pub enum TypeSpec {
    /// One type.
    Single { tag: u64 },
    /// An ordered list of types; the first match wins.
    AnyOfList { tags: Vec<u64> },
    /// An unordered set of types; order carries no meaning.
    AnyOfSet { tags: Vec<u64> },
}

/// Whether an item of type `item_type` matches the expected shape.
pub open spec fn type_matches(expected_type: TypeSpec, item_type: u64) -> bool {
    match expected_type {
        TypeSpec::Single { tag } => tag == item_type,
        TypeSpec::AnyOfList { tags } => tags@.contains(item_type),
        TypeSpec::AnyOfSet { tags } => tags@.contains(item_type),
    }
}

/// What a finished type check looks like: success exactly when the checks
/// are disabled or the item's type matches, and otherwise a failure resolved
/// by the policy with the type error as default.
pub open spec fn check_type_post(
    r: Result<(), ResolvedFailure>,
    run_flag: Option<String>,
    item_type: u64,
    expected_type: TypeSpec,
    handle_with: Option<ErrorKind>,
    message: Option<&str>,
) -> bool {
    &&& r is Ok <==> (!checks_enabled(run_flag) || type_matches(expected_type, item_type))
    &&& (r matches Err(f) ==> policy_resolved(f, handle_with, message, ErrorKind::TypeError))
}

fn any_tag_matches(tags: &Vec<u64>, item_type: u64) -> (r: bool)
    ensures
        r == tags@.contains(item_type),
{
    let mut i: usize = 0;
    while i < tags.len()
        invariant
            i <= tags.len(),
            forall|j: int| 0 <= j < i ==> tags@[j] != item_type,
        decreases tags.len() - i,
    {
        if tags[i] == item_type {
            return true;
        }
        i += 1;
    }
    false
}

/// Checks that the item's type matches the expected shape; fails with a
/// type error by default, or with the caller's handler.
pub fn check_type(
    run_flag: &Option<String>,
    item_type: u64,
    expected_type: &TypeSpec,
    handle_with: Option<ErrorKind>,
    message: Option<&str>,
) -> (r: Result<(), ResolvedFailure>)
    ensures
        check_type_post(r, *run_flag, item_type, *expected_type, handle_with, message),
{
    if !is_enabled(run_flag) {
        return Ok(());
    }
    let found = match expected_type {
        TypeSpec::Single { tag } => *tag == item_type,
        TypeSpec::AnyOfList { tags } => any_tag_matches(tags, item_type),
        TypeSpec::AnyOfSet { tags } => any_tag_matches(tags, item_type),
    };
    if found {
        Ok(())
    } else {
        Err(resolve_failure(handle_with, message, ErrorKind::TypeError))
    }
}

/// Checking the same item against the same expected shape twice, with an
/// unchanged configuration value, yields indistinguishable outcomes.
pub proof fn lemma_check_type_idempotent(
    r1: Result<(), ResolvedFailure>,
    r2: Result<(), ResolvedFailure>,
    run_flag: Option<String>,
    item_type: u64,
    expected_type: TypeSpec,
    handle_with: Option<ErrorKind>,
    message: Option<&str>,
)
    requires
        check_type_post(r1, run_flag, item_type, expected_type, handle_with, message),
        check_type_post(r2, run_flag, item_type, expected_type, handle_with, message),
    ensures
        unit_outcome_equiv(r1, r2),
{
}

} // verus!
