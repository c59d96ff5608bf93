//! The fatal error taxonomy of the pipeline. Every error is fatal and
//! unrecovered; the only difference between the kinds is the diagnostic
//! payload they carry.
use vstd::prelude::*;

use crate::command::Phase;

verus! {

/// A fatal condition; the process terminates with a non-zero status after
/// reporting it.
#[derive(Debug)]
pub enum BuildError {
    /// The archive filename carries no recognized suffix.
    UnsupportedFormat { filename: String },
    /// The digest of the downloaded bytes differs from the manifest's.
    Integrity { expected: String, found: String },
    /// The transfer failed or the source URL is unusable.
    Network { detail: String },
    /// The archive could not be unpacked.
    Extraction { detail: String },
    /// A phase's external command could not be launched at all.
    PhaseLaunch { phase: Phase, detail: String },
}

/// Diagnostic text for an unrecognized archive suffix.
pub open spec fn unsupported_message(filename: Seq<char>) -> Seq<char> {
    "Extension of \""@ + filename + "\" not supported!"@
}

/// Diagnostic text for a digest mismatch, naming both digests.
pub open spec fn integrity_message(expected: Seq<char>, found: Seq<char>) -> Seq<char> {
    "Hash error: specified \""@ + expected + "\" found \""@ + found + "\""@
}

/// Diagnostic text for a transfer failure.
pub open spec fn network_message(detail: Seq<char>) -> Seq<char> {
    "Network error: "@ + detail
}

/// Diagnostic text for an unpack failure.
pub open spec fn extraction_message(detail: Seq<char>) -> Seq<char> {
    "Extraction error: "@ + detail
}

/// Diagnostic text for a phase command that could not be launched.
pub open spec fn phase_launch_message(phase: Phase, detail: Seq<char>) -> Seq<char> {
    "Failed launching "@ + crate::command::phase_name(phase) + " command: "@ + detail
}

/// The message `self.message()` returns.
pub open spec fn spec_message(e: &BuildError) -> Seq<char> {
    match e {
        BuildError::UnsupportedFormat { filename } => unsupported_message(filename@),
        BuildError::Integrity { expected, found } => integrity_message(expected@, found@),
        BuildError::Network { detail } => network_message(detail@),
        BuildError::Extraction { detail } => extraction_message(detail@),
        BuildError::PhaseLaunch { phase, detail } => phase_launch_message(*phase, detail@),
    }
}

impl BuildError {
    /// A descriptive message naming the failing stage and the relevant
    /// values.
    pub fn message(&self) -> (r: String)
        ensures
            r@ == spec_message(self),
    {
        match self {
            BuildError::UnsupportedFormat { filename } => {
                let mut m = String::from_str("Extension of \"");
                m.append(filename.as_str());
                m.append("\" not supported!");
                m
            },
            BuildError::Integrity { expected, found } => {
                let mut m = String::from_str("Hash error: specified \"");
                m.append(expected.as_str());
                m.append("\" found \"");
                m.append(found.as_str());
                m.append("\"");
                m
            },
            BuildError::Network { detail } => {
                let mut m = String::from_str("Network error: ");
                m.append(detail.as_str());
                m
            },
            BuildError::Extraction { detail } => {
                let mut m = String::from_str("Extraction error: ");
                m.append(detail.as_str());
                m
            },
            BuildError::PhaseLaunch { phase, detail } => {
                let mut m = String::from_str("Failed launching ");
                let name = phase.name();
                m.append(name.as_str());
                m.append(" command: ");
                m.append(detail.as_str());
                m
            },
        }
    }
}

} // verus!
