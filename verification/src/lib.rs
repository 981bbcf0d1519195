//! Bootstrap manager for an embedded managed-language execution environment:
//! it assembles the environment's ordered creation arguments, translates the
//! invocation interface's numeric failure codes, and marshals the two
//! operations — artifact loading and service creation — across the
//! exception-based boundary of the environment.

pub mod args;
pub mod config;
pub mod error;
mod jni_calls;
pub mod proxy;
pub mod runtime;
