//! Error types for repair operations.

use vstd::prelude::*;
use vstd::string::*;
use crate::text::{decimal, decimal_string};

verus! {

/// Error types for repair operations.
///
/// These variants represent specific failure modes that can occur during
/// system repair operations. Each variant includes contextual information to
/// help diagnose and resolve the issue. Errors that come from the operating
/// system or the task runtime carry the text of the underlying error.
#[derive(Debug, Clone, PartialEq, Eq)]
pub enum RepairError {
    /// Hardware device not detected on the system.
    HardwareNotFound(String),
    /// External command execution failed.
    CommandFailed(String),
    /// Operation requires elevated privileges.
    PermissionDenied,
    /// Operation exceeded the configured timeout, in seconds.
    Timeout(u64),
    /// Service is not available or not installed.
    ServiceUnavailable(String),
    /// Configuration is invalid or corrupted.
    ConfigurationError(String),
    /// Input/output error, with the text of the underlying error.
    Io(String),
    /// A spawned task failed to join, with the text of the join error.
    Join(String),
}

/// Result type for repair operations.
pub type RepairResult<T> = Result<T, RepairError>;

/// The message that describes an error to the user.
pub open spec fn error_message(e: RepairError) -> Seq<char> {
    match e {
        RepairError::HardwareNotFound(s) => "Hardware not detected: "@ + s@,
        RepairError::CommandFailed(s) => "Command execution failed: "@ + s@,
        RepairError::PermissionDenied =>
            "Insufficient permissions - run as Administrator on Windows or with sudo on Unix"@,
        RepairError::Timeout(n) => "Operation timeout - exceeded "@ + decimal(n as nat) + " seconds"@,
        RepairError::ServiceUnavailable(s) => "Service not available: "@ + s@,
        RepairError::ConfigurationError(s) => "Configuration error: "@ + s@,
        RepairError::Io(s) => "I/O error: "@ + s@,
        RepairError::Join(s) => "Task join error: "@ + s@,
    }
}

/// A string holding `prefix` followed by `rest`.
fn prefixed(prefix: &str, rest: &str) -> (r: String)
    ensures
        r@ == prefix@ + rest@,
{
    broadcast use vstd::string::group_string_axioms;
    let mut out = prefix.to_string();
    out.append(rest);
    out
}

impl RepairError {
    /// Returns the message that describes this error to the user.
    pub fn to_string(&self) -> (r: String)
        ensures
            r@ == error_message(*self),
    {
        broadcast use vstd::string::group_string_axioms;
        match self {
            RepairError::HardwareNotFound(s) => prefixed("Hardware not detected: ", s.as_str()),
            RepairError::CommandFailed(s) => prefixed("Command execution failed: ", s.as_str()),
            RepairError::PermissionDenied => {
                "Insufficient permissions - run as Administrator on Windows or with sudo on Unix".to_string()
            },
            RepairError::Timeout(n) => {
                let digits = decimal_string(*n);
                let mut out = prefixed("Operation timeout - exceeded ", digits.as_str());
                out.append(" seconds");
                out
            },
            RepairError::ServiceUnavailable(s) => prefixed("Service not available: ", s.as_str()),
            RepairError::ConfigurationError(s) => prefixed("Configuration error: ", s.as_str()),
            RepairError::Io(s) => prefixed("I/O error: ", s.as_str()),
            RepairError::Join(s) => prefixed("Task join error: ", s.as_str()),
        }
    }
}

} // verus!
