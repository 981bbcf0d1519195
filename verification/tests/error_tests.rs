use java_bindings::error::{
    Error, ErrorKind, JNI_EEXIST, JNI_EINVAL, JNI_ENOMEM, JNI_ERR, JNI_EVERSION,
};
use java_bindings::runtime::JavaServiceRuntime;

#[test]
fn transform_jni_error_error_type_other() {
    let error = Error::from(ErrorKind::Other(JNI_EINVAL));
    assert_eq!(
        "Invalid arguments",
        JavaServiceRuntime::transform_jni_error(error).description()
    );
}

#[test]
fn transform_jni_error_not_type_other() {
    let error_detached = Error::from(ErrorKind::ThreadDetached);
    assert_eq!(
        "Current thread is not attached to the java VM",
        JavaServiceRuntime::transform_jni_error(error_detached).description()
    );
}

#[test]
fn transform_jni_error_type_other_code_not_in_range() {
    let error = Error::from(ErrorKind::Other(-42));
    assert_eq!(
        "JNI error",
        JavaServiceRuntime::transform_jni_error(error).description()
    );
}

#[test]
fn transform_jni_error_maps_each_recognized_code() {
    let cases = [
        (JNI_EINVAL, "Invalid arguments"),
        (JNI_EEXIST, "VM already created"),
        (JNI_ENOMEM, "Not enough memory"),
        (JNI_EVERSION, "JNI version error"),
        (JNI_ERR, "Unknown JNI error"),
    ];
    for (code, message) in cases {
        let translated = JavaServiceRuntime::transform_jni_error(Error(ErrorKind::Other(code)));
        assert!(matches!(translated.0, ErrorKind::Msg(_)));
        assert_eq!(message, translated.description());
    }
}

#[test]
fn transform_jni_error_passes_unrecognized_code_through_unchanged() {
    let translated = JavaServiceRuntime::transform_jni_error(Error(ErrorKind::Other(42)));
    assert!(matches!(translated.0, ErrorKind::Other(42)));
    let translated = JavaServiceRuntime::transform_jni_error(Error(ErrorKind::Other(-2)));
    assert!(matches!(translated.0, ErrorKind::Other(-2)));
}

#[test]
fn transform_jni_error_passes_other_kinds_through_unchanged() {
    let translated =
        JavaServiceRuntime::transform_jni_error(Error(ErrorKind::Msg("custom".to_string())));
    assert_eq!("custom", translated.description());
    let translated = JavaServiceRuntime::transform_jni_error(Error(ErrorKind::JavaException));
    assert!(matches!(translated.0, ErrorKind::JavaException));
    assert_eq!("Java exception was thrown", translated.description());
}

#[test]
fn description_of_each_kind() {
    assert_eq!("boom", Error(ErrorKind::Msg("boom".to_string())).description());
    assert_eq!(
        "Java exception was thrown",
        Error(ErrorKind::JavaException).description()
    );
    assert_eq!(
        "Current thread is not attached to the java VM",
        Error(ErrorKind::ThreadDetached).description()
    );
    assert_eq!("JNI error", Error(ErrorKind::Other(7)).description());
}
