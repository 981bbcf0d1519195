use java_bindings::error::{Error, ErrorKind};
use java_bindings::runtime::JavaServiceRuntime;

#[test]
fn checked_call_passes_success_through() {
    let r = JavaServiceRuntime::check_error_on_exception(Ok("artifact:1.0".to_string()), None);
    assert_eq!(Ok("artifact:1.0".to_string()), r);
}

#[test]
fn checked_call_reports_exception_by_its_description() {
    let r = JavaServiceRuntime::check_error_on_exception(
        Err(Error(ErrorKind::JavaException)),
        Some("java.lang.IllegalArgumentException: bad artifact".to_string()),
    );
    assert_eq!(
        Err("java.lang.IllegalArgumentException: bad artifact".to_string()),
        r
    );
}

#[test]
fn checked_call_reports_unreadable_exception_by_fixed_description() {
    let r = JavaServiceRuntime::check_error_on_exception(Err(Error(ErrorKind::JavaException)), None);
    assert_eq!(Err("Java exception was thrown".to_string()), r);
}

#[test]
fn checked_call_reports_binding_failure_by_its_kind() {
    let r = JavaServiceRuntime::check_error_on_exception(
        Err(Error(ErrorKind::ThreadDetached)),
        Some("ignored".to_string()),
    );
    assert_eq!(
        Err("Current thread is not attached to the java VM".to_string()),
        r
    );
    let r = JavaServiceRuntime::check_error_on_exception(Err(Error(ErrorKind::Other(-4))), None);
    assert_eq!(Err("JNI error".to_string()), r);
}
