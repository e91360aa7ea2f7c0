//! The failures a run of the derivation pipeline can end in.
use vstd::prelude::*;

verus! {

/// Why a stage of the derivation pipeline failed. Every variant is fatal to
/// the run; none is retried.
#[derive(Clone, Copy, Debug, PartialEq, Eq, Structural)]
pub enum TdxError {
    /// The process does not run with elevated privileges.
    PrivilegeDenied,
    /// The platform capability query failed; the caller may substitute a
    /// synthetic capability descriptor instead of aborting.
    CapabilityProbeFailed,
    /// Sealing is unsupported, or the sealing key is migratable.
    CapabilityUnavailable,
    /// The measurement report could not be obtained.
    MeasurementUnavailable,
    /// The platform declined the sealing-key request.
    SealingKeyDenied,
}

impl TdxError {
    /// A human-readable description of the failure.
    pub fn message(&self) -> (r: &'static str)
        ensures
            *self is PrivilegeDenied ==> r@
                == "This program must be run as root to access TDX features"@,
            *self is CapabilityProbeFailed ==> r@ == "TDX not available in current environment"@,
            *self is CapabilityUnavailable ==> r@ == "TDX sealing is not available"@,
            *self is MeasurementUnavailable ==> r@ == "Failed to get TDX measurement report"@,
            *self is SealingKeyDenied ==> r@ == "Failed to get sealing key"@,
    {
        match self {
            TdxError::PrivilegeDenied => {
                "This program must be run as root to access TDX features"
            },
            TdxError::CapabilityProbeFailed => {
                "TDX not available in current environment"
            },
            TdxError::CapabilityUnavailable => {
                "TDX sealing is not available"
            },
            TdxError::MeasurementUnavailable => {
                "Failed to get TDX measurement report"
            },
            TdxError::SealingKeyDenied => {
                "Failed to get sealing key"
            },
        }
    }
}

} // verus!
