use std::sync::Arc;
use vstd::prelude::*;

use crate::config::RuntimeConfig;
use crate::error::{description_spec, translated_kind, Error, ErrorKind, JNI_EEXIST, JNI_EINVAL,
    JNI_ENOMEM, JNI_ERR, JNI_EVERSION};
use crate::jni_calls::{attach_thread, call_create_service, call_create_service_runtime,
    call_load_artifact, call_to_string, convert_jni_error, env_new_string, exception_clear,
    exception_occurred, get_rust_string, new_global_ref};
use crate::proxy::{MainExecutor, ServiceProxy};
use vstd::string::StringExecFns;

verus! {

/// Controls the embedded environment and the runtime facade hosted inside
/// it; clones are cheap and refer to the same environment.
#[derive(Clone)]
pub struct JavaServiceRuntime {
    executor: MainExecutor,
    service_runtime: jni::objects::GlobalRef,
}

/// The message a checked call surfaces for a failure: a pending
/// embedded-side exception is reported by its own description when one could
/// be read, every other failure by the fixed description of its kind.
pub open spec fn surfaced_message(e: ErrorKind, exception_message: Option<String>) -> Seq<char> {
    match e {
        ErrorKind::JavaException => match exception_message {
            Some(em) => em@,
            None => description_spec(e),
        },
        _ => description_spec(e),
    }
}

/// What the check-after-call step yields for a scoped computation's outcome
/// and the exception message that was read for it: an identifier passes
/// through verbatim, a failure surfaces as its message.
pub open spec fn checked_outcome(
    res: Result<String, Error>,
    exception_message: Option<String>,
    r: Result<String, String>,
) -> bool {
    match res {
        Ok(v) => r matches Ok(s) && s@ == v@,
        Err(e) => r matches Err(m) && m@ == surfaced_message(e.0, exception_message),
    }
}

/// What a load-style operation yields for the outcome of its scoped
/// computation: the checked surfacing of that outcome, where an exception
/// message is read only when the outcome is a pending embedded-side
/// exception.
pub open spec fn load_outcome(core: Result<String, Error>, r: Result<String, String>) -> bool {
    exists|em: Option<String>|
        #[trigger] checked_outcome(core, em, r) && (em is Some ==> (core matches Err(e) && e.0
            is JavaException))
}

impl JavaServiceRuntime {
    /// The execution-context provider this runtime shares with the proxies
    /// it creates.
    pub closed spec fn executor_spec(&self) -> MainExecutor {
        self.executor
    }

    /// Wires a runtime up over an existing embedded environment: wraps the
    /// environment in the execution-context provider and performs the one
    /// static bootstrap call that yields the runtime facade handle.
    pub fn from_vm(vm: Arc<jni::JavaVM>, runtime_config: &RuntimeConfig) -> (r: Result<
        JavaServiceRuntime,
        Error,
    >)
        ensures
            r matches Ok(rt) ==> rt.executor_spec().vm_spec() == vm,
    {
        let executor = MainExecutor::new(vm);
        let service_runtime = match Self::create_service_runtime(runtime_config, &executor) {
            Ok(facade) => facade,
            Err(e) => {
                return Err(e);
            },
        };
        Ok(JavaServiceRuntime { executor, service_runtime })
    }

    /// Performs the one static bootstrap call on the embedded side and keeps
    /// the returned runtime facade as a durable reference.
    fn create_service_runtime(config: &RuntimeConfig, executor: &MainExecutor) -> Result<
        jni::objects::GlobalRef,
        Error,
    > {
        let env = match attach_thread(&executor.vm) {
            Ok(env) => env,
            Err(e) => {
                return Err(convert_jni_error(e));
            },
        };
        let facade = match call_create_service_runtime(&env, config.port) {
            Ok(obj) => obj,
            Err(e) => {
                return Err(convert_jni_error(e));
            },
        };
        match new_global_ref(&env, facade) {
            Ok(global) => Ok(global),
            Err(e) => Err(convert_jni_error(e)),
        }
    }

    /// Creates a new service instance from the given artifact id and module
    /// name, both handed to the embedded side verbatim; any failure inside
    /// the scoped execution context surfaces as an error of the library. The
    /// returned proxy shares this runtime's execution-context provider.
    pub fn create_service(&self, artifact_id: &str, module: &str) -> (r: Result<
        ServiceProxy,
        Error,
    >)
        ensures
            r matches Ok(p) ==> p.executor_spec().vm_spec() == self.executor_spec().vm_spec(),
    {
        let env = match attach_thread(&self.executor.vm) {
            Ok(env) => env,
            Err(e) => {
                return Err(convert_jni_error(e));
            },
        };
        let artifact = match env_new_string(&env, artifact_id) {
            Ok(obj) => obj,
            Err(e) => {
                return Err(convert_jni_error(e));
            },
        };
        let module_name = match env_new_string(&env, module) {
            Ok(obj) => obj,
            Err(e) => {
                return Err(convert_jni_error(e));
            },
        };
        let service = match call_create_service(&env, &self.service_runtime, artifact, module_name)
            {
            Ok(obj) => obj,
            Err(e) => {
                return Err(convert_jni_error(e));
            },
        };
        let service = match new_global_ref(&env, service) {
            Ok(global) => global,
            Err(e) => {
                return Err(convert_jni_error(e));
            },
        };
        Ok(ServiceProxy::from_global_ref(self.executor.clone(), service))
    }

    /// Loads an artifact from the given location, letting the embedded side
    /// verify it. The result is the checked surfacing of the scoped
    /// computation's outcome: a returned identifier passes through verbatim
    /// as `Ok`; a pending embedded-side exception is the reportable `Err`,
    /// carrying that exception's read description; any other binding failure
    /// is an `Err` with its fixed description.
    pub fn load_artifact(&self, artifact_uri: &str) -> (r: Result<String, String>)
        ensures
            exists|core: Result<String, Error>| #[trigger] load_outcome(core, r),
    {
        let env = match attach_thread(&self.executor.vm) {
            Ok(env) => env,
            Err(e) => {
                let converted = convert_jni_error(e);
                let message = converted.description();
                proof {
                    let core: Result<String, Error> = Err(converted);
                    let em: Option<String> = None;
                    assert(checked_outcome(core, em, Err(message)));
                    assert(load_outcome(core, Err(message)));
                }
                return Err(message);
            },
        };
        let res = Self::load_artifact_in_context(&env, &self.service_runtime, artifact_uri);
        let exception_message = match &res {
            Err(e) => match &e.0 {
                ErrorKind::JavaException => Self::take_exception_message(&env),
                _ => None,
            },
            Ok(_) => None,
        };
        let ghost core = res;
        let ghost em = exception_message;
        let surfaced = Self::check_error_on_exception(res, exception_message);
        proof {
            assert(checked_outcome(core, em, surfaced));
            assert(load_outcome(core, surfaced));
        }
        surfaced
    }

    /// One pass through the scoped context: convert the location, make the
    /// load call, read the returned identifier back.
    fn load_artifact_in_context<'a>(
        env: &jni::AttachGuard<'a>,
        facade: &jni::objects::GlobalRef,
        artifact_uri: &str,
    ) -> Result<String, Error> {
        let uri = match env_new_string(env, artifact_uri) {
            Ok(obj) => obj,
            Err(e) => {
                return Err(convert_jni_error(e));
            },
        };
        let id_obj = match call_load_artifact(env, facade, uri) {
            Ok(obj) => obj,
            Err(e) => {
                return Err(convert_jni_error(e));
            },
        };
        match get_rust_string(env, id_obj) {
            Ok(id) => Ok(id),
            Err(e) => Err(convert_jni_error(e)),
        }
    }

    /// Reads and clears the pending embedded-side exception, describing it
    /// through its own `toString`; yields nothing when any step of that
    /// fails.
    fn take_exception_message<'a>(env: &jni::AttachGuard<'a>) -> Option<String> {
        let throwable = match exception_occurred(env) {
            Ok(obj) => obj,
            Err(_) => {
                return None;
            },
        };
        match exception_clear(env) {
            Ok(_) => (),
            Err(_) => {
                return None;
            },
        };
        let message_obj = match call_to_string(env, throwable) {
            Ok(obj) => obj,
            Err(_) => {
                return None;
            },
        };
        match get_rust_string(env, message_obj) {
            Ok(message) => Some(message),
            Err(_) => None,
        }
    }

    /// The check-after-call step every load-style operation performs: success
    /// passes through, a pending embedded-side exception becomes the
    /// reportable message, any other failure keeps its fixed description.
    pub fn check_error_on_exception(
        res: Result<String, Error>,
        exception_message: Option<String>,
    ) -> (r: Result<String, String>)
        ensures
            checked_outcome(res, exception_message, r),
    {
        match res {
            Ok(v) => Ok(v),
            Err(e) => match &e.0 {
                ErrorKind::JavaException => match exception_message {
                    Some(em) => Err(em),
                    None => Err(e.description()),
                },
                _ => Err(e.description()),
            },
        }
    }

    /// Maps the closed set of numeric environment-creation failure codes to
    /// their fixed human-readable messages; every other error — another
    /// numeric code or a different kind — comes back unchanged.
    pub fn transform_jni_error(error: Error) -> (r: Error)
        ensures
            translated_kind(error.0, r.0),
    {
        match error.0 {
            ErrorKind::Other(code) => {
                if code == JNI_EINVAL {
                    Error(ErrorKind::Msg(String::from_str("Invalid arguments")))
                } else if code == JNI_EEXIST {
                    Error(ErrorKind::Msg(String::from_str("VM already created")))
                } else if code == JNI_ENOMEM {
                    Error(ErrorKind::Msg(String::from_str("Not enough memory")))
                } else if code == JNI_EVERSION {
                    Error(ErrorKind::Msg(String::from_str("JNI version error")))
                } else if code == JNI_ERR {
                    Error(ErrorKind::Msg(String::from_str("Unknown JNI error")))
                } else {
                    Error(ErrorKind::Other(code))
                }
            },
            kind => Error(kind),
        }
    }
}

} // verus!
