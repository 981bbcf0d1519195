//! The narrow trusted boundary to the embedded environment's invocation
//! interface. Every item here either declares an opaque foreign type or wraps
//! exactly one foreign call; nothing else in the crate touches the interface
//! directly.

use std::sync::Arc;
use vstd::prelude::*;

use crate::error::{Error, ErrorKind};
use jni::errors::Error as RawJniError;

verus! {

#[verifier::external_type_specification]
#[verifier::external_body]
pub struct ExJavaVM(jni::JavaVM);

#[verifier::external_type_specification]
#[verifier::external_body]
pub struct ExAttachGuard<'a>(jni::AttachGuard<'a>);

/// An opaque call-scoped reference into the embedded environment. The
/// foreign reference type itself cannot be declared here (its impls reach a
/// raw pointer), so the handle is held in an opaque struct instead.
#[verifier::external_body]
pub struct LocalRef<'a> {
    obj: jni::objects::JObject<'a>,
}

/// An opaque call-scoped reference known to be an environment-native string:
/// only the calls whose fixed signatures return a string yield one, and only
/// the character read takes one, so a non-string reference can never reach
/// the unchecked string read.
#[verifier::external_body]
pub struct StringRef<'a> {
    obj: jni::objects::JString<'a>,
}

#[verifier::external_type_specification]
#[verifier::external_body]
pub struct ExGlobalRef(jni::objects::GlobalRef);

#[verifier::external_type_specification]
#[verifier::external_body]
pub struct ExJniError(RawJniError);

/// Relies on jni's GlobalRef::clone: it shares the one underlying global
/// reference, so the clone is the same handle.
pub assume_specification[ <jni::objects::GlobalRef as Clone>::clone ](
    obj: &jni::objects::GlobalRef,
) -> (r: jni::objects::GlobalRef)
    ensures
        r == *obj,
;

/// Relies on std's Arc::clone: the clone shares the same allocation, so it
/// carries the same environment handle.
#[verifier::external_body]
pub(crate) fn clone_vm_handle(vm: &Arc<jni::JavaVM>) -> (r: Arc<jni::JavaVM>)
    ensures
        r == *vm,
{
    Arc::clone(vm)
}

/// Relies on jni's JavaVM::attach_current_thread: attaches the calling thread
/// to the environment and yields a guard that detaches it when dropped.
#[verifier::external_body]
pub(crate) fn attach_thread(vm: &Arc<jni::JavaVM>) -> Result<
    jni::AttachGuard<'_>,
    jni::errors::Error,
> {
    vm.attach_current_thread()
}

/// Relies on jni's JNIEnv::new_string: creates an environment-native string
/// holding the given characters.
#[verifier::external_body]
pub(crate) fn env_new_string<'a>(env: &'a jni::AttachGuard<'a>, s: &str) -> Result<
    LocalRef<'a>,
    jni::errors::Error,
> {
    Ok(LocalRef { obj: env.new_string(s)?.into() })
}

/// Relies on jni's JNIEnv::call_method: invokes `createService` on the
/// runtime facade with the artifact-id and module-name string objects.
#[verifier::external_body]
pub(crate) fn call_create_service<'a>(
    env: &'a jni::AttachGuard<'a>,
    facade: &jni::objects::GlobalRef,
    artifact_id: LocalRef<'a>,
    module: LocalRef<'a>,
) -> Result<LocalRef<'a>, jni::errors::Error> {
    Ok(LocalRef {
        obj: env.call_method(
            facade.as_obj(),
            "createService",
            "(Ljava/lang/String;Ljava/lang/String;)Lcom/exonum/binding/service/adapters/UserServiceAdapter;",
            &[artifact_id.obj.into(), module.obj.into()],
        )?.l()?,
    })
}

/// Relies on jni's JNIEnv::call_method: invokes `loadArtifact` on the runtime
/// facade with the artifact-location string object.
#[verifier::external_body]
pub(crate) fn call_load_artifact<'a>(
    env: &'a jni::AttachGuard<'a>,
    facade: &jni::objects::GlobalRef,
    artifact_uri: LocalRef<'a>,
) -> Result<StringRef<'a>, jni::errors::Error> {
    Ok(StringRef {
        obj: env.call_method(
            facade.as_obj(),
            "loadArtifact",
            "(Ljava/lang/String;)Ljava/lang/String;",
            &[artifact_uri.obj.into()],
        )?.l()?.into(),
    })
}

/// Relies on jni's JNIEnv::call_static_method: invokes the one bootstrap
/// factory call that yields the runtime facade bound to the given port.
#[verifier::external_body]
pub(crate) fn call_create_service_runtime<'a>(env: &'a jni::AttachGuard<'a>, port: i32) -> Result<
    LocalRef<'a>,
    jni::errors::Error,
> {
    Ok(LocalRef {
        obj: env.call_static_method(
            "com/exonum/binding/runtime/ServiceRuntimeBootstrap",
            "createServiceRuntime",
            "(I)Lcom/exonum/binding/runtime/ServiceRuntime;",
            &[port.into()],
        )?.l()?,
    })
}

/// Relies on jni's JNIEnv::call_method: invokes `toString` on the given
/// object, yielding an environment-native string object.
#[verifier::external_body]
pub(crate) fn call_to_string<'a>(
    env: &'a jni::AttachGuard<'a>,
    obj: LocalRef<'a>,
) -> Result<StringRef<'a>, jni::errors::Error> {
    Ok(StringRef {
        obj: env.call_method(obj.obj, "toString", "()Ljava/lang/String;", &[])?.l()?.into(),
    })
}

/// Relies on jni's JNIEnv::new_global_ref: turns a call-scoped reference into
/// a durable one that outlives the execution context.
#[verifier::external_body]
pub(crate) fn new_global_ref<'a>(
    env: &'a jni::AttachGuard<'a>,
    obj: LocalRef<'a>,
) -> Result<jni::objects::GlobalRef, jni::errors::Error> {
    env.new_global_ref(obj.obj)
}

/// Relies on jni's JNIEnv::get_string: copies the characters of an
/// environment-native string object into an owned native string.
#[verifier::external_body]
pub(crate) fn get_rust_string<'a>(
    env: &'a jni::AttachGuard<'a>,
    obj: StringRef<'a>,
) -> Result<String, jni::errors::Error> {
    Ok(env.get_string(obj.obj)?.into())
}

/// Relies on jni's JNIEnv::exception_occurred: takes the exception pending on
/// the embedded side.
#[verifier::external_body]
pub(crate) fn exception_occurred<'a>(env: &'a jni::AttachGuard<'a>) -> Result<
    LocalRef<'a>,
    jni::errors::Error,
> {
    Ok(LocalRef { obj: env.exception_occurred()?.into() })
}

/// Relies on jni's JNIEnv::exception_clear: clears the pending exception so
/// further calls into the environment are legal again.
#[verifier::external_body]
pub(crate) fn exception_clear(env: &jni::AttachGuard<'_>) -> Result<(), jni::errors::Error> {
    env.exception_clear()
}

/// Relies on jni's ErrorKind: tells its variants apart, one arm each, moving
/// the payloads into the library's own error kind; the variants without a
/// payload of interest are carried over as their fixed display text.
#[verifier::external_body]
pub(crate) fn convert_jni_error(e: jni::errors::Error) -> Error {
    match e.0 {
        jni::errors::ErrorKind::Other(code) => Error(ErrorKind::Other(code)),
        jni::errors::ErrorKind::ThreadDetached => Error(ErrorKind::ThreadDetached),
        jni::errors::ErrorKind::JavaException => Error(ErrorKind::JavaException),
        jni::errors::ErrorKind::Msg(m) => Error(ErrorKind::Msg(m)),
        other => Error(ErrorKind::Msg(other.to_string())),
    }
}

} // verus!
