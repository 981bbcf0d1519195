use vstd::prelude::*;

verus! {

/// User-supplied raw environment flags and the optional debug-attach socket.
#[derive(Clone)]
pub struct JvmConfig {
    /// Raw flags placed before every other flag.
    pub args_prepend: Vec<String>,
    /// Raw flags placed after every other flag, so they can override anything.
    pub args_append: Vec<String>,
    /// Socket address a debugger may attach to, if one was configured.
    pub jvm_debug_socket: Option<String>,
}

/// Settings of the runtime facade hosted inside the embedded environment.
#[derive(Clone)]
pub struct RuntimeConfig {
    /// The port the runtime facade binds.
    pub port: i32,
    /// Path to the logging configuration file.
    pub log_config_path: String,
}

/// The class-path contribution of the service layer.
#[derive(Clone)]
pub struct ServiceConfig {
    /// Class search path with the service classes.
    pub service_class_path: String,
}

/// Paths supplied by the embedding host rather than the end user.
#[derive(Clone)]
pub struct InternalConfig {
    /// The system class search path.
    pub system_class_path: String,
    /// Native-library search path; absent where the native library is linked
    /// statically.
    pub system_lib_path: Option<String>,
}

/// Everything the embedding host hands over to boot the environment once.
#[derive(Clone)]
pub struct Config {
    /// User-supplied environment flags and debug settings.
    pub jvm_config: JvmConfig,
    /// Runtime facade settings.
    pub runtime_config: RuntimeConfig,
    /// Service-layer class path.
    pub service_config: ServiceConfig,
}

} // verus!
