use std::sync::Arc;
use vstd::prelude::*;

use crate::jni_calls::clone_vm_handle;

verus! {

/// The execution-context provider: clones are cheap and share one embedded
/// environment; each call attaches the calling thread to the environment for
/// the duration of that call.
pub struct MainExecutor {
    pub(crate) vm: Arc<jni::JavaVM>,
}

impl MainExecutor {
    /// The environment handle this provider wraps.
    pub closed spec fn vm_spec(&self) -> Arc<jni::JavaVM> {
        self.vm
    }

    /// Wraps the shared handle to the embedded environment.
    pub fn new(vm: Arc<jni::JavaVM>) -> (r: MainExecutor)
        ensures
            r.vm_spec() == vm,
    {
        MainExecutor { vm }
    }
}

impl Clone for MainExecutor {
    /// A clone shares the one embedded environment.
    fn clone(&self) -> (r: MainExecutor)
        ensures
            r.vm_spec() == self.vm_spec(),
    {
        MainExecutor { vm: clone_vm_handle(&self.vm) }
    }
}

/// A native-side handle to one service instance living inside the embedded
/// environment, paired with the shared execution-context provider. The
/// fields are held for the life of the proxy and read by nothing here.
#[allow(dead_code)]
#[derive(Clone)]
pub struct ServiceProxy {
    executor: MainExecutor,
    service: jni::objects::GlobalRef,
}

impl ServiceProxy {
    /// The execution-context provider this proxy shares.
    pub closed spec fn executor_spec(&self) -> MainExecutor {
        self.executor
    }

    /// The wrapped durable reference to the service object.
    pub closed spec fn service_spec(&self) -> jni::objects::GlobalRef {
        self.service
    }

    /// Builds a proxy around a durable reference to the service object.
    pub fn from_global_ref(
        executor: MainExecutor,
        service: jni::objects::GlobalRef,
    ) -> (r: ServiceProxy)
        ensures
            r.executor_spec() == executor,
            r.service_spec() == service,
    {
        ServiceProxy { executor, service }
    }
}

} // verus!
