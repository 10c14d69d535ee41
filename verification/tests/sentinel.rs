use cgit::sentinel::{int_result, succeeded, MaybeBool};

#[test]
fn zero_alone_is_success() {
    assert!(succeeded(0));
    assert!(!succeeded(1));
    assert!(!succeeded(-1));
    assert!(!succeeded(i32::MAX));
    assert!(!succeeded(i32::MIN));
}

#[test]
fn int_result_is_present_on_success() {
    assert_eq!(int_result(0, 5), Some(5));
    assert_eq!(int_result(0, 0), Some(0));
    assert_eq!(int_result(0, -7), Some(-7));
    assert_eq!(int_result(0, i32::MAX), Some(i32::MAX));
}

#[test]
fn int_result_is_absent_on_failure_whatever_the_slot_holds() {
    assert_eq!(int_result(1, 5), None);
    assert_eq!(int_result(-1, 5), None);
    assert_eq!(int_result(2, 0), None);
    assert_eq!(int_result(i32::MIN, 42), None);
}

#[test]
fn maybe_bool_decodes_the_three_codes() {
    assert_eq!(MaybeBool::from_code(1), MaybeBool::True);
    assert_eq!(MaybeBool::from_code(0), MaybeBool::False);
    assert_eq!(MaybeBool::from_code(-1), MaybeBool::Unrecognized);
}

#[test]
fn unrecognized_is_neither_truth_value() {
    let outcome = MaybeBool::from_code(-1);
    assert_ne!(outcome, MaybeBool::True);
    assert_ne!(outcome, MaybeBool::False);
}
