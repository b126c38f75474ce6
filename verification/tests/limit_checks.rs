use reasycheck::helper::ErrorKind;
use reasycheck::helper::Severity;
use reasycheck::limit_condition::assert_if_in_limits;
use reasycheck::limit_condition::check_if_in_limits;

#[test]
fn limits_inside_range_succeeds() {
    let r = check_if_in_limits(&None, 5, Some(1), Some(10), None, None, None);
    assert!(r.is_ok());
}

#[test]
fn limits_below_range_fails_with_limit_error() {
    let r = check_if_in_limits(&None, 0, Some(1), Some(10), None, None, None);
    let f = r.unwrap_err();
    assert_eq!(f.kind, ErrorKind::LimitError);
    assert_eq!(f.severity, Severity::Error);
    assert_eq!(f.message, "");
}

#[test]
fn limits_above_range_fails() {
    let r = check_if_in_limits(&None, 11, Some(1), Some(10), None, None, None);
    assert!(r.is_err());
}

#[test]
fn limits_boundary_included_by_default() {
    assert!(check_if_in_limits(&None, 1, Some(1), Some(10), None, None, None).is_ok());
    assert!(check_if_in_limits(&None, 10, Some(1), Some(10), None, None, None).is_ok());
    assert!(check_if_in_limits(&None, 1, Some(1), Some(10), None, None, Some(true)).is_ok());
}

#[test]
fn limits_boundary_excluded_when_strict() {
    assert!(check_if_in_limits(&None, 1, Some(1), Some(10), None, None, Some(false)).is_err());
    assert!(check_if_in_limits(&None, 10, Some(1), Some(10), None, None, Some(false)).is_err());
    assert!(check_if_in_limits(&None, 2, Some(1), Some(10), None, None, Some(false)).is_ok());
}

#[test]
fn limits_absent_bounds_are_unbounded() {
    assert!(check_if_in_limits(&None, i64::MIN, None, Some(10), None, None, None).is_ok());
    assert!(check_if_in_limits(&None, i64::MAX, Some(10), None, None, None, None).is_ok());
    assert!(check_if_in_limits(&None, 0, None, None, None, None, None).is_ok());
    assert!(check_if_in_limits(&None, 0, None, None, None, None, Some(false)).is_ok());
}

#[test]
fn limits_handler_override_replaces_kind() {
    let r = check_if_in_limits(
        &None,
        0,
        Some(1),
        Some(10),
        Some(ErrorKind::ValueError),
        Some("too small"),
        None,
    );
    let f = r.unwrap_err();
    assert_eq!(f.kind, ErrorKind::ValueError);
    assert_eq!(f.severity, Severity::Error);
    assert_eq!(f.message, "too small");
}

#[test]
fn limits_warning_handler_resolves_to_warning() {
    let r = check_if_in_limits(&None, 0, Some(1), Some(10), Some(ErrorKind::Warning), None, None);
    let f = r.unwrap_err();
    assert_eq!(f.kind, ErrorKind::Warning);
    assert_eq!(f.severity, Severity::Warning);
}

#[test]
fn limits_disabled_flag_is_noop_success() {
    let off = Some("0".to_string());
    assert!(check_if_in_limits(&off, 0, Some(1), Some(10), None, None, None).is_ok());
    assert!(assert_if_in_limits(&off, 0, Some(1), Some(10), None, None, None).is_ok());
}

#[test]
fn limits_other_flag_values_keep_checks_on() {
    let on = Some("1".to_string());
    assert!(check_if_in_limits(&on, 0, Some(1), Some(10), None, None, None).is_err());
    let empty = Some(String::new());
    assert!(check_if_in_limits(&empty, 0, Some(1), Some(10), None, None, None).is_err());
}

#[test]
fn assert_limits_defaults_to_assertion_failure() {
    let r = assert_if_in_limits(&None, 0, Some(1), Some(10), None, Some("out"), None);
    let f = r.unwrap_err();
    assert_eq!(f.kind, ErrorKind::AssertionError);
    assert_eq!(f.message, "out");
}

#[test]
fn assert_limits_explicit_handler_wins() {
    let r = assert_if_in_limits(&None, 0, Some(1), Some(10), Some(ErrorKind::Custom(7)), None, None);
    assert_eq!(r.unwrap_err().kind, ErrorKind::Custom(7));
}

#[test]
fn limits_idempotent_on_same_arguments() {
    let r1 = check_if_in_limits(&None, 3, Some(1), Some(2), None, Some("m"), None);
    let r2 = check_if_in_limits(&None, 3, Some(1), Some(2), None, Some("m"), None);
    let f1 = r1.unwrap_err();
    let f2 = r2.unwrap_err();
    assert_eq!(f1.kind, f2.kind);
    assert_eq!(f1.severity, f2.severity);
    assert_eq!(f1.message, f2.message);
}
