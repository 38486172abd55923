//! Threat scanning and remediation for scene and script files.
//!
//! The library classifies file contents against a catalog of threat
//! patterns, decides which files of a tree are scanned, and neutralizes
//! dangerous lines behind a backup. File system access stays with the caller:
//! the library hands out the operations to perform and takes their outcomes.
pub mod antivirus;
pub mod commands;
pub mod error;
pub mod ffi;
pub mod paths;
pub mod text;
pub mod wrapper;

use vstd::prelude::*;

verus! {

/// The summary of a scan.
#[derive(Debug, Clone, Copy)]
pub struct ScanSummary {
    /// Files found.
    pub files_found: usize,
    /// Flagged lines over all files scanned, saturated at `usize::MAX`.
    pub threats_found: usize,
    /// Files classified.
    pub files_scanned: usize,
    /// Duration of the scan in milliseconds.
    pub scan_time_ms: u64,
}

/// The outcome of a call through the plugin's C interface.
#[derive(Debug, Clone, Copy, PartialEq, Eq, Structural)]
pub struct UmbrellaResult {
    /// Whether the call succeeded.
    pub success: bool,
    /// The error code; zero on success.
    pub error_code: i32,
}

impl UmbrellaResult {
    /// A success.
    pub fn success() -> (r: Self)
        ensures
            r.success,
            r.error_code == 0,
    {
        UmbrellaResult { success: true, error_code: 0 }
    }

    /// A failure with the given code.
    pub fn failure(code: i32) -> (r: Self)
        ensures
            !r.success,
            r.error_code == code,
    {
        UmbrellaResult { success: false, error_code: code }
    }
}

} // verus!
