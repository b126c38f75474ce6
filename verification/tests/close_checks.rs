use reasycheck::helper::ErrorKind;
use reasycheck::is_close_condition::assert_if_isclose;
use reasycheck::is_close_condition::check_if_isclose;
use reasycheck::is_close_condition::DEFAULT_REL_TOL;
use reasycheck::is_close_condition::TOLERANCE_SCALE;

#[test]
fn isclose_equal_values_succeed_under_default_tolerances() {
    assert!(check_if_isclose(&None, 0, 0, None, None, None, None).is_ok());
    assert!(check_if_isclose(&None, 12345, 12345, None, None, None, None).is_ok());
    assert!(check_if_isclose(&None, -7, -7, None, None, None, None).is_ok());
}

#[test]
fn isclose_equal_values_succeed_under_zero_tolerances() {
    assert!(check_if_isclose(&None, i64::MIN, i64::MIN, None, None, Some(0), Some(0)).is_ok());
    assert!(check_if_isclose(&None, i64::MAX, i64::MAX, None, None, Some(0), Some(0)).is_ok());
}

#[test]
fn isclose_default_relative_tolerance_is_too_tight_for_unit_gap() {
    // diff = 1, rel = 1e-10 of about 1e6: far below one whole unit.
    let r = check_if_isclose(&None, 1_000_000, 1_000_001, None, None, None, None);
    assert_eq!(r.unwrap_err().kind, ErrorKind::NotCloseEnoughError);
}

#[test]
fn isclose_default_relative_tolerance_admits_unit_gap_at_large_magnitude() {
    // rel_tol * magnitude = 1e-10 * 2e10 = 2 >= diff = 1.
    let x: i64 = 20_000_000_000;
    assert_eq!(DEFAULT_REL_TOL, 100_000_000);
    assert!(check_if_isclose(&None, x, x + 1, None, None, None, None).is_ok());
}

#[test]
fn isclose_absolute_tolerance_boundary_is_inclusive() {
    assert!(check_if_isclose(&None, 0, 10, None, None, Some(0), Some(10)).is_ok());
    assert!(check_if_isclose(&None, 0, 10, None, None, Some(0), Some(9)).is_err());
}

#[test]
fn isclose_relative_tolerance_scales_with_larger_magnitude() {
    // rel = 1 (a full TOLERANCE_SCALE): everything within the larger
    // magnitude is close.
    assert!(check_if_isclose(&None, 0, 10, None, None, Some(TOLERANCE_SCALE), Some(0)).is_ok());
    // rel of half: |0 - 10| > 0.5 * 10.
    assert!(
        check_if_isclose(&None, 0, 10, None, None, Some(TOLERANCE_SCALE / 2), Some(0)).is_err()
    );
    // but 5 against 10 passes at half.
    assert!(
        check_if_isclose(&None, 5, 10, None, None, Some(TOLERANCE_SCALE / 2), Some(0)).is_ok()
    );
}

#[test]
fn isclose_extreme_span_fits_the_arithmetic() {
    // The widest possible difference, admitted by the widest absolute
    // tolerance and nothing less.
    assert!(
        check_if_isclose(&None, i64::MIN, i64::MAX, None, None, Some(0), Some(u64::MAX)).is_ok()
    );
    assert!(
        check_if_isclose(&None, i64::MIN, i64::MAX, None, None, Some(0), Some(u64::MAX - 1))
            .is_err()
    );
}

#[test]
fn isclose_disabled_flag_is_noop_success() {
    let off = Some("0".to_string());
    assert!(check_if_isclose(&off, 0, 1_000_000, None, None, Some(0), Some(0)).is_ok());
}

#[test]
fn assert_isclose_defaults_to_assertion_failure() {
    let r = assert_if_isclose(&None, 0, 10, None, None, Some(0), Some(0));
    assert_eq!(r.unwrap_err().kind, ErrorKind::AssertionError);
}

#[test]
fn assert_isclose_explicit_handler_wins() {
    let r = assert_if_isclose(&None, 0, 10, Some(ErrorKind::UserWarning), Some("gap"), Some(0), Some(0));
    let f = r.unwrap_err();
    assert_eq!(f.kind, ErrorKind::UserWarning);
    assert_eq!(f.message, "gap");
}
