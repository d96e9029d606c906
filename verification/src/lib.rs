//! Verified engine for driving an external media-downloader binary.
//!
//! The crate builds argument vectors for the downloader, classifies its
//! text output into structured progress events, interprets the metadata
//! it prints, plans the atomic self-update of the binary, and decides
//! update availability.  All decisions are verified; process, file and
//! network I/O live with the caller, which hands plain values in and out.

pub mod downloader;
pub mod json;
pub mod manager;
pub mod progress;
pub mod requests;
pub mod strutil;
pub mod updater;

use vstd::prelude::*;

verus! {

/// Platform the engine runs on; decides binary names and artifact URLs.
#[derive(Debug, Clone, Copy, PartialEq, Eq)]
pub enum Platform {
    MacArm,
    MacIntel,
    Windows,
    LinuxX64,
    Other,
}

impl Platform {
    /// True exactly on Windows, where executables carry the `.exe` suffix.
    pub open spec fn is_windows(self) -> bool {
        self is Windows
    }
}

} // verus!
