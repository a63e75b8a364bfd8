//! The error taxonomy of the library.

use vstd::prelude::*;
use vstd::string::StringExecFns;

verus! {

/// Everything that can go wrong while retrieving a machine identifier.
///
/// Each variant names one failure of the retrieval pipeline; no error is
/// ever swallowed or replaced by an empty-string result.
#[derive(Debug)]
pub enum MachineIdError {
    /// The external command could not be started or awaited. Carries the
    /// message of the underlying operating-system error.
    ProcessLaunchError(String),
    /// The bytes captured from the command's standard output are not valid
    /// UTF-8. Carries the length of the longest prefix that is valid.
    DecodeError(usize),
    /// The raw Windows query output held no space character, so it cannot
    /// consist of a header token followed by an identifier token.
    MalformedOutputError,
    /// The host platform is none of the supported ones, so no retrieval
    /// command exists for it. Reported explicitly rather than answered
    /// with an empty identifier.
    UnsupportedPlatformError,
}

/// The rendering of an error as text, one fixed phrase per variant.
pub open spec fn spec_message(e: MachineIdError) -> Seq<char> {
    match e {
        MachineIdError::ProcessLaunchError(m) => "Failed to execute process: "@ + m@,
        MachineIdError::DecodeError(_) => "Failed to retrieve UUID from shell: output is not valid UTF-8"@,
        MachineIdError::MalformedOutputError => "Failed to retrieve UUID from shell: output held no header/value separator"@,
        MachineIdError::UnsupportedPlatformError => "Failed to retrieve UUID: unsupported platform"@,
    }
}

impl MachineIdError {
    /// A human-readable description of the error.
    pub fn message(&self) -> (r: String)
        ensures
            r@ == spec_message(*self),
    {
        match self {
            MachineIdError::ProcessLaunchError(m) => {
                let head = String::from_str("Failed to execute process: ");
                head.concat(m.as_str())
            },
            MachineIdError::DecodeError(_) => String::from_str(
                "Failed to retrieve UUID from shell: output is not valid UTF-8",
            ),
            MachineIdError::MalformedOutputError => String::from_str(
                "Failed to retrieve UUID from shell: output held no header/value separator",
            ),
            MachineIdError::UnsupportedPlatformError => String::from_str(
                "Failed to retrieve UUID: unsupported platform",
            ),
        }
    }
}

/// Equality of two errors up to the text they carry.
pub open spec fn same_error(e1: MachineIdError, e2: MachineIdError) -> bool {
    match (e1, e2) {
        (MachineIdError::ProcessLaunchError(m1), MachineIdError::ProcessLaunchError(m2)) => m1@
            == m2@,
        (MachineIdError::DecodeError(p1), MachineIdError::DecodeError(p2)) => p1 == p2,
        (MachineIdError::MalformedOutputError, MachineIdError::MalformedOutputError) => true,
        (MachineIdError::UnsupportedPlatformError, MachineIdError::UnsupportedPlatformError) => true,
        _ => false,
    }
}

/// Equality of two retrieval results up to the text they carry.
pub open spec fn same_result(
    r1: Result<String, MachineIdError>,
    r2: Result<String, MachineIdError>,
) -> bool {
    match (r1, r2) {
        (Ok(s1), Ok(s2)) => s1@ == s2@,
        (Err(e1), Err(e2)) => same_error(e1, e2),
        _ => false,
    }
}

} // verus!
