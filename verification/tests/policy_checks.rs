use reasycheck::helper::check_handle_warning_with;
use reasycheck::helper::check_handle_with;
use reasycheck::helper::resolve_failure;
use reasycheck::helper::ErrorKind;
use reasycheck::helper::Severity;
use reasycheck::if_condition::assert_if;
use reasycheck::if_condition::check_if;
use reasycheck::toggle::is_enabled;
use reasycheck::toggle::str_equal;

#[test]
fn handle_with_defaults_to_assertion_and_empty_message() {
    let f = check_handle_with(None, None);
    assert_eq!(f.kind, ErrorKind::AssertionError);
    assert_eq!(f.severity, Severity::Error);
    assert_eq!(f.message, "");
}

#[test]
fn handle_with_uses_handler_and_message() {
    let f = check_handle_with(Some(ErrorKind::ValueError), Some("bad value"));
    assert_eq!(f.kind, ErrorKind::ValueError);
    assert_eq!(f.severity, Severity::Error);
    assert_eq!(f.message, "bad value");
}

#[test]
fn handle_with_builds_an_error_even_of_a_warning_kind() {
    let f = check_handle_with(Some(ErrorKind::Warning), None);
    assert_eq!(f.kind, ErrorKind::Warning);
    assert_eq!(f.severity, Severity::Error);
}

#[test]
fn handle_warning_with_recognizes_both_warning_categories() {
    let f = check_handle_warning_with(Some(ErrorKind::Warning), Some("careful"));
    assert_eq!(f.kind, ErrorKind::Warning);
    assert_eq!(f.severity, Severity::Warning);
    assert_eq!(f.message, "careful");
    let f2 = check_handle_warning_with(Some(ErrorKind::UserWarning), None);
    assert_eq!(f2.kind, ErrorKind::UserWarning);
    assert_eq!(f2.severity, Severity::Warning);
    assert_eq!(f2.message, "");
}

#[test]
fn handle_warning_with_leaves_other_kinds_fatal() {
    let f = check_handle_warning_with(Some(ErrorKind::Custom(9)), Some("x"));
    assert_eq!(f.kind, ErrorKind::Custom(9));
    assert_eq!(f.severity, Severity::Error);
    let f2 = check_handle_warning_with(None, None);
    assert_eq!(f2.kind, ErrorKind::AssertionError);
    assert_eq!(f2.severity, Severity::Error);
}

#[test]
fn resolve_failure_prefers_handler_over_default() {
    let f = resolve_failure(None, None, ErrorKind::LimitError);
    assert_eq!(f.kind, ErrorKind::LimitError);
    assert_eq!(f.severity, Severity::Error);
    let f2 = resolve_failure(Some(ErrorKind::TypeError), Some("m"), ErrorKind::LimitError);
    assert_eq!(f2.kind, ErrorKind::TypeError);
    assert_eq!(f2.message, "m");
    let f3 = resolve_failure(Some(ErrorKind::Warning), None, ErrorKind::LimitError);
    assert_eq!(f3.severity, Severity::Warning);
}

#[test]
fn toggle_disabled_only_on_exact_zero() {
    assert!(is_enabled(&None));
    assert!(!is_enabled(&Some("0".to_string())));
    assert!(is_enabled(&Some("1".to_string())));
    assert!(is_enabled(&Some("00".to_string())));
    assert!(is_enabled(&Some("false".to_string())));
    assert!(is_enabled(&Some(String::new())));
}

#[test]
fn str_equal_compares_exact_text() {
    assert!(str_equal("raise", "raise"));
    assert!(!str_equal("raise", "return"));
    assert!(!str_equal("", "0"));
}

#[test]
fn check_if_true_succeeds_and_false_fails() {
    assert!(check_if(&None, true, None, None).is_ok());
    let f = check_if(&None, false, None, None).unwrap_err();
    assert_eq!(f.kind, ErrorKind::AssertionError);
    assert_eq!(f.message, "");
}

#[test]
fn check_if_handler_and_message_pass_through() {
    let f = check_if(&None, false, Some(ErrorKind::ValueError), Some("no")).unwrap_err();
    assert_eq!(f.kind, ErrorKind::ValueError);
    assert_eq!(f.message, "no");
}

#[test]
fn check_if_disabled_flag_is_noop_success() {
    let off = Some("0".to_string());
    assert!(check_if(&off, false, None, None).is_ok());
}

#[test]
fn assert_if_behaves_like_check_if() {
    assert!(assert_if(&None, true, None, None).is_ok());
    let f = assert_if(&None, false, None, None).unwrap_err();
    assert_eq!(f.kind, ErrorKind::AssertionError);
    let f2 = assert_if(&None, false, Some(ErrorKind::Custom(3)), None).unwrap_err();
    assert_eq!(f2.kind, ErrorKind::Custom(3));
}

#[test]
fn checks_idempotent_under_unchanged_flag() {
    let r1 = check_if(&None, false, Some(ErrorKind::Warning), Some("w"));
    let r2 = check_if(&None, false, Some(ErrorKind::Warning), Some("w"));
    let f1 = r1.unwrap_err();
    let f2 = r2.unwrap_err();
    assert_eq!(f1.kind, f2.kind);
    assert_eq!(f1.severity, f2.severity);
    assert_eq!(f1.message, f2.message);
}
