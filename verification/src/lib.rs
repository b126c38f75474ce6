//! Runtime condition checks with a configurable failure policy.
//!
//! Each check evaluates one predicate over plain values and, when the
//! predicate fails, resolves the caller's optional handler override and
//! optional message into a concrete failure value: an error or a warning,
//! with a default kind per check.  A process-wide switch, read anew on every
//! call, turns every check into a no-op success when the configuration value
//! is exactly `"0"`.

pub mod check_type_condition;
pub mod helper;
pub mod if_condition;
pub mod is_close_condition;
pub mod length_condition;
pub mod limit_condition;
pub mod path_condition;
pub mod toggle;
