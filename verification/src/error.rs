//! Error taxonomy shared by every subsystem.
//!
//! Each variant carries the context of its failure site, and every value
//! renders to a self-describing message through [`Error::message`].  Expected
//! absence of hardware is not an error: probes return `false` and
//! constructors return `None` in that case, and `Error::NotAvailable` is
//! reserved for operations that were asked of a subsystem known to be
//! missing.

use vstd::prelude::*;

use crate::text::dec_i64;
use crate::text::dec_u64;
use crate::text::spec_dec;
use crate::text::spec_dec_signed;

verus! {

/// Hardware subsystems this library reports on.
#[derive(Clone, Copy, Debug, PartialEq, Eq, Hash, Structural)]
pub enum Subsystem {
    /// The Afterburner FPGA video accelerator.
    Afterburner,
    /// The Neural Engine inference accelerator.
    NeuralEngine,
    /// The Metal GPU.
    Metal,
    /// The Secure Enclave key store.
    SecureEnclave,
    /// The CPU/GPU shared-memory region.
    UnifiedMemory,
}

/// Display name of a subsystem, as a sequence of characters.
pub open spec fn spec_subsystem_name(s: Subsystem) -> Seq<char> {
    match s {
        Subsystem::Afterburner => "Afterburner FPGA"@,
        Subsystem::NeuralEngine => "Neural Engine"@,
        Subsystem::Metal => "Metal GPU"@,
        Subsystem::SecureEnclave => "Secure Enclave"@,
        Subsystem::UnifiedMemory => "Unified Memory"@,
    }
}

impl Subsystem {
    /// Human-readable display name.
    pub fn name(&self) -> (r: String)
        ensures
            r@ == spec_subsystem_name(*self),
    {
        match self {
            Subsystem::Afterburner => String::from_str("Afterburner FPGA"),
            Subsystem::NeuralEngine => String::from_str("Neural Engine"),
            Subsystem::Metal => String::from_str("Metal GPU"),
            Subsystem::SecureEnclave => String::from_str("Secure Enclave"),
            Subsystem::UnifiedMemory => String::from_str("Unified Memory"),
        }
    }
}

/// Primary error type for all operations.
///
/// Each variant provides enough context for debugging while remaining
/// actionable for programmatic handling.  Equality is structural.
#[derive(Clone, Debug, PartialEq, Eq)]
pub enum Error {
    /// Hardware is not available on this system.
    NotAvailable {
        /// The hardware subsystem that was requested.
        subsystem: Subsystem,
    },
    /// The IOKit registry returned an error; carries the kernel status code.
    IoKit {
        /// The kernel status code.
        code: i32,
        /// Human-readable error message.
        message: String,
    },
    /// The Metal layer returned an error.
    Metal {
        /// Human-readable error message.
        message: String,
    },
    /// The CoreML layer returned an error.
    CoreMl {
        /// Human-readable error message.
        message: String,
    },
    /// The security layer returned an error; carries the status code.
    Security {
        /// The status code.
        code: i32,
    },
    /// Invalid input was provided to an API.
    InvalidInput {
        /// Description of what was invalid.
        reason: String,
    },
    /// Operation timed out.
    Timeout {
        /// How long was waited before timing out, in milliseconds.
        duration_ms: u64,
    },
    /// Permission denied for the requested operation.
    PermissionDenied {
        /// The operation that was denied.
        operation: String,
    },
    /// Resource was not found.
    NotFound {
        /// Description of the missing resource.
        resource: String,
    },
    /// Internal error; should not occur in normal operation.
    Internal {
        /// Details about the internal error.
        details: String,
    },
}

impl Error {
    /// Create a new `NotAvailable` error.
    pub fn not_available(subsystem: Subsystem) -> (r: Error)
        ensures
            r == (Error::NotAvailable { subsystem }),
    {
        Error::NotAvailable { subsystem }
    }

    /// Create a new `IoKit` error from a kernel status code.
    pub fn iokit(code: i32, message: &str) -> (r: Error)
        ensures
            r matches Error::IoKit { code: c, message: m } && c == code && m@ == message@,
    {
        Error::IoKit { code, message: message.to_owned() }
    }

    /// Create a new `Metal` error.
    pub fn metal(message: &str) -> (r: Error)
        ensures
            r matches Error::Metal { message: m } && m@ == message@,
    {
        Error::Metal { message: message.to_owned() }
    }

    /// Create a new `CoreMl` error.
    pub fn coreml(message: &str) -> (r: Error)
        ensures
            r matches Error::CoreMl { message: m } && m@ == message@,
    {
        Error::CoreMl { message: message.to_owned() }
    }

    /// Create a new `Security` error.
    pub fn security(code: i32) -> (r: Error)
        ensures
            r == (Error::Security { code }),
    {
        Error::Security { code }
    }

    /// Create a new `InvalidInput` error.
    pub fn invalid_input(reason: &str) -> (r: Error)
        ensures
            r matches Error::InvalidInput { reason: m } && m@ == reason@,
    {
        Error::InvalidInput { reason: reason.to_owned() }
    }

    /// Create a new `Timeout` error.
    pub fn timeout(duration_ms: u64) -> (r: Error)
        ensures
            r == (Error::Timeout { duration_ms }),
    {
        Error::Timeout { duration_ms }
    }

    /// Create a new `PermissionDenied` error.
    pub fn permission_denied(operation: &str) -> (r: Error)
        ensures
            r matches Error::PermissionDenied { operation: m } && m@ == operation@,
    {
        Error::PermissionDenied { operation: operation.to_owned() }
    }

    /// Create a new `NotFound` error.
    pub fn not_found(resource: &str) -> (r: Error)
        ensures
            r matches Error::NotFound { resource: m } && m@ == resource@,
    {
        Error::NotFound { resource: resource.to_owned() }
    }

    /// Create a new `Internal` error.
    pub fn internal(details: &str) -> (r: Error)
        ensures
            r matches Error::Internal { details: m } && m@ == details@,
    {
        Error::Internal { details: details.to_owned() }
    }

    /// Check if this error indicates hardware is unavailable.
    pub fn is_not_available(&self) -> (r: bool)
        ensures
            r == (*self matches Error::NotAvailable { .. }),
    {
        matches!(self, Error::NotAvailable { .. })
    }

    /// Check if this error is a timeout.
    pub fn is_timeout(&self) -> (r: bool)
        ensures
            r == (*self matches Error::Timeout { .. }),
    {
        matches!(self, Error::Timeout { .. })
    }

    /// Check if this error is a permission issue.
    pub fn is_permission_denied(&self) -> (r: bool)
        ensures
            r == (*self matches Error::PermissionDenied { .. }),
    {
        matches!(self, Error::PermissionDenied { .. })
    }

    /// Get the platform status code if this is an `IoKit` or `Security` error.
    pub fn error_code(&self) -> (r: Option<i32>)
        ensures
            r == spec_error_code(*self),
    {
        match self {
            Error::IoKit { code, .. } => Some(*code),
            Error::Security { code } => Some(*code),
            _ => None,
        }
    }
}

impl Error {
    /// Human-readable message.  Every variant embeds its discriminating
    /// payload, so no two different errors render to a bare generic string.
    pub fn message(&self) -> (r: String)
        ensures
            r@ == spec_message(*self),
    {
        match self {
            Error::NotAvailable { subsystem } => {
                let mut s = "hardware not available: ".to_owned();
                s.append(subsystem.name().as_str());
                proof {
                    assert(s@ =~= spec_message(*self));
                }
                s
            },
            Error::IoKit { code, message } => {
                let mut s = "IOKit error (code ".to_owned();
                s.append(dec_i64(*code as i64).as_str());
                s.append("): ");
                s.append(message.as_str());
                proof {
                    assert(s@ =~= spec_message(*self));
                }
                s
            },
            Error::Metal { message } => {
                let mut s = "Metal error: ".to_owned();
                s.append(message.as_str());
                proof {
                    assert(s@ =~= spec_message(*self));
                }
                s
            },
            Error::CoreMl { message } => {
                let mut s = "CoreML error: ".to_owned();
                s.append(message.as_str());
                proof {
                    assert(s@ =~= spec_message(*self));
                }
                s
            },
            Error::Security { code } => {
                let mut s = "Security framework error (code ".to_owned();
                s.append(dec_i64(*code as i64).as_str());
                s.append(")");
                proof {
                    assert(s@ =~= spec_message(*self));
                }
                s
            },
            Error::InvalidInput { reason } => {
                let mut s = "invalid input: ".to_owned();
                s.append(reason.as_str());
                proof {
                    assert(s@ =~= spec_message(*self));
                }
                s
            },
            Error::Timeout { duration_ms } => {
                let mut s = "operation timed out after ".to_owned();
                s.append(dec_u64(*duration_ms).as_str());
                s.append("ms");
                proof {
                    assert(s@ =~= spec_message(*self));
                }
                s
            },
            Error::PermissionDenied { operation } => {
                let mut s = "permission denied: ".to_owned();
                s.append(operation.as_str());
                proof {
                    assert(s@ =~= spec_message(*self));
                }
                s
            },
            Error::NotFound { resource } => {
                let mut s = "resource not found: ".to_owned();
                s.append(resource.as_str());
                proof {
                    assert(s@ =~= spec_message(*self));
                }
                s
            },
            Error::Internal { details } => {
                let mut s = "internal error: ".to_owned();
                s.append(details.as_str());
                proof {
                    assert(s@ =~= spec_message(*self));
                }
                s
            },
        }
    }
}

/// The message rendered for an error.
pub open spec fn spec_message(e: Error) -> Seq<char> {
    match e {
        Error::NotAvailable { subsystem } => "hardware not available: "@ + spec_subsystem_name(
            subsystem,
        ),
        Error::IoKit { code, message } => "IOKit error (code "@ + spec_dec_signed(code as int)
            + "): "@ + message@,
        Error::Metal { message } => "Metal error: "@ + message@,
        Error::CoreMl { message } => "CoreML error: "@ + message@,
        Error::Security { code } => "Security framework error (code "@ + spec_dec_signed(
            code as int,
        ) + ")"@,
        Error::InvalidInput { reason } => "invalid input: "@ + reason@,
        Error::Timeout { duration_ms } => "operation timed out after "@ + spec_dec(
            duration_ms as nat,
        ) + "ms"@,
        Error::PermissionDenied { operation } => "permission denied: "@ + operation@,
        Error::NotFound { resource } => "resource not found: "@ + resource@,
        Error::Internal { details } => "internal error: "@ + details@,
    }
}

/// Every rendered message is self-describing: it opens with a phrase
/// naming the failure kind and embeds the discriminating payload, so it is
/// always longer than ten characters and never a bare generic word.
pub proof fn lemma_message_self_describing(e: Error)
    ensures
        spec_message(e).len() > 10,
{
    reveal_strlit("hardware not available: ");
    reveal_strlit("IOKit error (code ");
    reveal_strlit("Metal error: ");
    reveal_strlit("CoreML error: ");
    reveal_strlit("Security framework error (code ");
    reveal_strlit("invalid input: ");
    reveal_strlit("operation timed out after ");
    reveal_strlit("permission denied: ");
    reveal_strlit("resource not found: ");
    reveal_strlit("internal error: ");
}

/// The platform status code carried by an error, if any.
pub open spec fn spec_error_code(e: Error) -> Option<i32> {
    match e {
        Error::IoKit { code, .. } => Some(code),
        Error::Security { code } => Some(code),
        _ => None,
    }
}

} // verus!
