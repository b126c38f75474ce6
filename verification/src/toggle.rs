//! The process-wide switch gating every check.
//!
//! The switch is an environment-style configuration value, read outside this
//! library and handed in anew on every call, so external reconfiguration
//! takes effect immediately.  Checks are disabled only when the value is
//! exactly `"0"`; any other value, or an absent one, leaves them enabled.

use vstd::prelude::*;

verus! {

/// Whether a configuration value enables the checks.
pub open spec fn checks_enabled(run_flag: Option<String>) -> bool {
    match run_flag {
        Option::None => true,
        Option::Some(s) => s@ != "0"@,
    }
}

/// Exact text equality of two string slices.
pub fn str_equal(a: &str, b: &str) -> (r: bool)
    ensures
        r == (a@ == b@),
{
    let owned_a = a.to_owned();
    let owned_b = b.to_owned();
    owned_a == owned_b
}

/// Reads the switch out of the configuration value: disabled only on the
/// exact text `"0"`.
pub fn is_enabled(run_flag: &Option<String>) -> (r: bool)
    ensures
        r == checks_enabled(*run_flag),
{
    match run_flag {
        Option::None => true,
        Option::Some(s) => !str_equal(s.as_str(), "0"),
    }
}

} // verus!
