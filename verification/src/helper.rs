//! The shared failure-resolution policy.
//!
//! A failed check never raises by itself: it builds a [`ResolvedFailure`]
//! describing the error or warning the caller asked for, and the caller (or
//! the process boundary around the library) decides how to surface it.

use vstd::prelude::*;

verus! {

/// The kinds of failure a check can resolve to.  The first seven stand for
/// the host environment's error classes; the two warning kinds are the
/// recognized warning categories; `Custom` carries the identity of any other
/// caller-supplied class.
#[derive(Clone, Copy, PartialEq, Eq, Structural, Debug)]
pub enum ErrorKind {
    AssertionError,
    TypeError,
    ValueError,
    FileNotFoundError,
    LimitError,
    LengthError,
    NotCloseEnoughError,
    Warning,
    UserWarning,
    Custom(u64),
}

/// Whether a resolved failure is a fatal error or a non-fatal warning.
#[derive(Clone, Copy, PartialEq, Eq, Structural, Debug)]
pub enum Severity {
    Error,
    Warning,
}

/// The concrete failure value a check hands back on a negative result.
#[derive(Debug)]
pub struct ResolvedFailure {
    pub kind: ErrorKind,
    pub severity: Severity,
    pub message: String,
}

/// The two recognized warning categories.
pub open spec fn is_warning_kind(kind: ErrorKind) -> bool {
    kind == ErrorKind::Warning || kind == ErrorKind::UserWarning
}

/// Whether the caller supplied a handler that names a warning category.
pub open spec fn has_warning_handler(handle_with: Option<ErrorKind>) -> bool {
    match handle_with {
        Option::None => false,
        Option::Some(k) => is_warning_kind(k),
    }
}

/// The message a resolution carries: the caller's text, or empty.
pub open spec fn message_text(message: Option<&str>) -> Seq<char> {
    match message {
        Option::None => Seq::<char>::empty(),
        Option::Some(m) => m@,
    }
}

/// The kind a resolution picks: the handler override when present, else the
/// given default.
pub open spec fn resolved_kind(handle_with: Option<ErrorKind>, default_kind: ErrorKind) -> ErrorKind {
    match handle_with {
        Option::None => default_kind,
        Option::Some(k) => k,
    }
}

/// What the warning-aware resolution produces: the overridden (or default)
/// kind, the caller's message, and warning severity exactly when the handler
/// names a warning category.
pub open spec fn policy_resolved(
    r: ResolvedFailure,
    handle_with: Option<ErrorKind>,
    message: Option<&str>,
    default_kind: ErrorKind,
) -> bool {
    &&& r.kind == resolved_kind(handle_with, default_kind)
    &&& r.severity == (if has_warning_handler(handle_with) {
        Severity::Warning
    } else {
        Severity::Error
    })
    &&& r.message@ == message_text(message)
}

/// Two failures that a caller cannot tell apart.
pub open spec fn failure_equiv(f1: ResolvedFailure, f2: ResolvedFailure) -> bool {
    &&& f1.kind == f2.kind
    &&& f1.severity == f2.severity
    &&& f1.message@ == f2.message@
}

/// Plain resolution: build a failure of the handler's kind (assertion
/// failure when no handler is given) with the caller's message.  No class
/// identity check is made, so the result is always a fatal error.
pub fn check_handle_with(handle_with: Option<ErrorKind>, message: Option<&str>) -> (r:
    ResolvedFailure)
    ensures
        r.kind == resolved_kind(handle_with, ErrorKind::AssertionError),
        r.severity == Severity::Error,
        r.message@ == message_text(message),
{
    let kind = match handle_with {
        Option::None => ErrorKind::AssertionError,
        Option::Some(k) => k,
    };
    let msg = match message {
        Option::None => String::new(),
        Option::Some(m) => m.to_owned(),
    };
    ResolvedFailure { kind, severity: Severity::Error, message: msg }
}

/// Warning-aware resolution: like [`check_handle_with`], except that a
/// handler naming one of the two recognized warning categories produces a
/// non-fatal warning of that exact category.
pub fn check_handle_warning_with(handle_with: Option<ErrorKind>, message: Option<&str>) -> (r:
    ResolvedFailure)
    ensures
        policy_resolved(r, handle_with, message, ErrorKind::AssertionError),
{
    match handle_with {
        Option::None => check_handle_with(handle_with, message),
        Option::Some(k) => {
            if k == ErrorKind::Warning || k == ErrorKind::UserWarning {
                let msg = match message {
                    Option::None => String::new(),
                    Option::Some(m) => m.to_owned(),
                };
                ResolvedFailure { kind: k, severity: Severity::Warning, message: msg }
            } else {
                check_handle_with(handle_with, message)
            }
        },
    }
}

/// The full policy: resolve the optional handler override and optional
/// message against a check's own default kind.  Backs every check's failure
/// path; a check's assert twin uses [`check_handle_warning_with`] instead,
/// whose default kind is the assertion failure.
pub fn resolve_failure(
    handle_with: Option<ErrorKind>,
    message: Option<&str>,
    default_kind: ErrorKind,
) -> (r: ResolvedFailure)
    ensures
        policy_resolved(r, handle_with, message, default_kind),
{
    match handle_with {
        Option::None => {
            let msg = match message {
                Option::None => String::new(),
                Option::Some(m) => m.to_owned(),
            };
            ResolvedFailure { kind: default_kind, severity: Severity::Error, message: msg }
        },
        Option::Some(_) => check_handle_warning_with(handle_with, message),
    }
}

/// Resolution is a function of its arguments: two failures resolved from the
/// same handler, message and default are indistinguishable.
pub proof fn lemma_resolution_deterministic(
    f1: ResolvedFailure,
    f2: ResolvedFailure,
    handle_with: Option<ErrorKind>,
    message: Option<&str>,
    default_kind: ErrorKind,
)
    requires
        policy_resolved(f1, handle_with, message, default_kind),
        policy_resolved(f2, handle_with, message, default_kind),
    ensures
        failure_equiv(f1, f2),
{
}

} // verus!
