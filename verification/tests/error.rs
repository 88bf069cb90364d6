use native_boundary::error::{result_from_gboolean, BoolError, NativeError};

#[test]
fn false_flag_is_the_error_with_its_message() {
    let result = result_from_gboolean(0, "Can't set readonly key");
    assert_eq!(result, Err(BoolError { message: String::from("Can't set readonly key") }));
}

#[test]
fn any_other_flag_is_success() {
    assert_eq!(result_from_gboolean(1, "Can't set readonly key"), Ok(()));
    assert_eq!(result_from_gboolean(-1, "Can't set readonly key"), Ok(()));
    assert_eq!(result_from_gboolean(256, "Can't set readonly key"), Ok(()));
}

#[test]
fn native_error_keeps_domain_code_and_message() {
    let error = NativeError::from_raw(41, 4, b"No such file\0trailing");
    assert_eq!(error.domain, 41);
    assert_eq!(error.code, 4);
    assert_eq!(error.message, b"No such file".to_vec());
}

#[test]
fn native_error_matches_its_domain_and_code() {
    let error = NativeError::from_raw(41, 4, b"x\0");
    assert!(error.matches(41, 4));
    assert!(!error.matches(41, 5));
    assert!(!error.matches(40, 4));
}
