use vstd::prelude::*;
use vstd::string::StringExecFns;

verus! {

/// Numeric code the invocation interface returns for malformed creation
/// arguments.
pub const JNI_EINVAL: i32 = -6;
/// Numeric code returned when the environment already exists in this process.
pub const JNI_EEXIST: i32 = -5;
/// Numeric code returned when creation fails from memory exhaustion.
pub const JNI_ENOMEM: i32 = -4;
/// Numeric code returned for an unsupported interface version.
pub const JNI_EVERSION: i32 = -3;
/// Numeric code returned for an otherwise unspecified failure.
pub const JNI_ERR: i32 = -1;

/// The kinds of failure the embedded environment's binding layer reports.
#[derive(Debug)]
pub enum ErrorKind {
    /// A plain message, also the shape of the translated fixed descriptions.
    Msg(String),
    /// An exception is pending on the embedded side.
    JavaException,
    /// The calling thread is not attached to the environment.
    ThreadDetached,
    /// A numeric code of the invocation interface.
    Other(i32),
}

/// A failure reported by the embedded environment's binding layer.
#[derive(Debug)]
pub struct Error(pub ErrorKind);

/// The fixed description of each error kind; a plain message describes
/// itself.
pub open spec fn description_spec(k: ErrorKind) -> Seq<char> {
    match k {
        ErrorKind::Msg(s) => s@,
        ErrorKind::JavaException => "Java exception was thrown"@,
        ErrorKind::ThreadDetached => "Current thread is not attached to the java VM"@,
        ErrorKind::Other(_) => "JNI error"@,
    }
}

impl Error {
    /// The human-readable description of this error.
    pub fn description(&self) -> (r: String)
        ensures
            r@ == description_spec(self.0),
    {
        match &self.0 {
            ErrorKind::Msg(s) => s.clone(),
            ErrorKind::JavaException => String::from_str("Java exception was thrown"),
            ErrorKind::ThreadDetached => String::from_str(
                "Current thread is not attached to the java VM",
            ),
            ErrorKind::Other(_) => String::from_str("JNI error"),
        }
    }
}

impl From<ErrorKind> for Error {
    fn from(kind: ErrorKind) -> (r: Error) {
        Error(kind)
    }
}

impl vstd::std_specs::convert::FromSpecImpl<ErrorKind> for Error {
    open spec fn obeys_from_spec() -> bool {
        true
    }

    open spec fn from_spec(kind: ErrorKind) -> Error {
        Error(kind)
    }
}

/// What the error translator owes: each of the five recognized numeric codes
/// becomes its fixed message, every other error comes back unchanged.
pub open spec fn translated_kind(k: ErrorKind, r: ErrorKind) -> bool {
    match k {
        ErrorKind::Other(code) => {
            if code == JNI_EINVAL {
                r matches ErrorKind::Msg(m) && m@ == "Invalid arguments"@
            } else if code == JNI_EEXIST {
                r matches ErrorKind::Msg(m) && m@ == "VM already created"@
            } else if code == JNI_ENOMEM {
                r matches ErrorKind::Msg(m) && m@ == "Not enough memory"@
            } else if code == JNI_EVERSION {
                r matches ErrorKind::Msg(m) && m@ == "JNI version error"@
            } else if code == JNI_ERR {
                r matches ErrorKind::Msg(m) && m@ == "Unknown JNI error"@
            } else {
                r == k
            }
        },
        _ => r == k,
    }
}

} // verus!
