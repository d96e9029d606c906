//! Locating the two managed binaries inside an application-private
//! directory, and the platform-specific artifact URLs used to install
//! them.
//!
//! The base directory is an injected configuration value: the caller
//! resolves (and creates) the application-private directory and hands its
//! path in, so the paths below are deterministic functions of that value
//! and the platform.  Install status is re-probed on the disk at every
//! query, since installation happens out of band.

use vstd::prelude::*;
use vstd::string::*;

use crate::strutil::spec_trim;
use crate::strutil::trim_str;
use crate::Platform;

verus! {

/// Failures of binary location and version queries.
#[derive(Debug, Clone, PartialEq)]
pub enum ManagerError {
    /// The application-private data directory could not be resolved.
    NoAppDataDir,
    /// The downloader binary is absent.
    BinaryNotFound,
    /// The downloader binary ran and failed; holds its error output.
    ExecutionError(String),
    /// A filesystem operation failed; holds its description.
    IoError(String),
}

impl ManagerError {
    /// The human-readable message of this error.
    pub open spec fn spec_message(self) -> Seq<char> {
        match self {
            ManagerError::NoAppDataDir => "Failed to get app data directory"@,
            ManagerError::BinaryNotFound => "yt-dlp binary not found"@,
            ManagerError::ExecutionError(m) => "Failed to execute yt-dlp: "@ + m@,
            ManagerError::IoError(m) => "IO error: "@ + m@,
        }
    }

    /// Renders the human-readable message of this error.
    pub fn message(&self) -> (r: String)
        ensures
            r@ == self.spec_message(),
    {
        match self {
            ManagerError::NoAppDataDir => String::from_str("Failed to get app data directory"),
            ManagerError::BinaryNotFound => String::from_str("yt-dlp binary not found"),
            ManagerError::ExecutionError(m) => String::from_str(
                "Failed to execute yt-dlp: ",
            ).concat(m.as_str()),
            ManagerError::IoError(m) => String::from_str("IO error: ").concat(m.as_str()),
        }
    }
}

/// The path separator of `p`.
pub open spec fn spec_sep(p: Platform) -> Seq<char> {
    if p.is_windows() {
        "\\"@
    } else {
        "/"@
    }
}

/// `name`, placed inside `dir`, with the separator of `p`.
pub open spec fn spec_join(dir: Seq<char>, p: Platform, name: Seq<char>) -> Seq<char> {
    dir + spec_sep(p) + name
}

/// The file name of the downloader binary on `p`.
pub open spec fn spec_ytdlp_name(p: Platform) -> Seq<char> {
    if p.is_windows() {
        "yt-dlp.exe"@
    } else {
        "yt-dlp"@
    }
}

/// The file name of the muxer binary on `p`.
pub open spec fn spec_ffmpeg_name(p: Platform) -> Seq<char> {
    if p.is_windows() {
        "ffmpeg.exe"@
    } else {
        "ffmpeg"@
    }
}

fn sep_str(p: Platform) -> (r: &'static str)
    ensures
        r@ == spec_sep(p),
{
    match p {
        Platform::Windows => "\\",
        _ => "/",
    }
}

/// Appends `name` to `dir` with the separator of `p`.
pub fn join_path(dir: &String, p: Platform, name: &str) -> (r: String)
    ensures
        r@ == spec_join(dir@, p, name@),
{
    dir.clone().concat(sep_str(p)).concat(name)
}

/// Relies on `std::path::Path::exists`: whether something is present on
/// the filesystem under path `p` at the moment of the call.  The result
/// reflects the disk, which changes out of band, so nothing is promised
/// of it.
#[verifier::external_body]
fn path_exists(p: &String) -> bool {
    std::path::Path::new(p.as_str()).exists()
}

/// Locates the managed binaries inside the private `bin` directory and
/// answers install-status queries about them.
#[derive(Debug, Clone)]
pub struct YtDlpManager {
    bin_dir: String,
    platform: Platform,
}

impl YtDlpManager {
    /// The directory the managed binaries live in.
    pub closed spec fn spec_bin_dir(self) -> Seq<char> {
        self.bin_dir@
    }

    /// The platform the manager was configured for.
    pub closed spec fn spec_platform(self) -> Platform {
        self.platform
    }

    /// A manager over the given private binary directory.  The caller
    /// resolves the directory (creating it if absent) before handing it
    /// in; a caller that cannot resolve one reports `NoAppDataDir`.
    pub fn new(bin_dir: String, platform: Platform) -> (r: Self)
        ensures
            r.spec_bin_dir() == bin_dir@,
            r.spec_platform() == platform,
    {
        YtDlpManager { bin_dir, platform }
    }

    /// The platform the manager was configured for.
    pub fn get_platform(&self) -> (r: Platform)
        ensures
            r == self.spec_platform(),
    {
        self.platform
    }

    /// The private binary directory.
    pub fn get_bin_dir(&self) -> (r: &String)
        ensures
            r@ == self.spec_bin_dir(),
    {
        &self.bin_dir
    }

    /// The resolved path of the downloader binary.
    pub fn get_ytdlp_path(&self) -> (r: String)
        ensures
            r@ == spec_join(
                self.spec_bin_dir(),
                self.spec_platform(),
                spec_ytdlp_name(self.spec_platform()),
            ),
    {
        match self.platform {
            Platform::Windows => join_path(&self.bin_dir, self.platform, "yt-dlp.exe"),
            _ => join_path(&self.bin_dir, self.platform, "yt-dlp"),
        }
    }

    /// The resolved path of the muxer binary.
    pub fn get_ffmpeg_path(&self) -> (r: String)
        ensures
            r@ == spec_join(
                self.spec_bin_dir(),
                self.spec_platform(),
                spec_ffmpeg_name(self.spec_platform()),
            ),
    {
        match self.platform {
            Platform::Windows => join_path(&self.bin_dir, self.platform, "ffmpeg.exe"),
            _ => join_path(&self.bin_dir, self.platform, "ffmpeg"),
        }
    }

    /// Whether the downloader binary is present, by probing the disk; no
    /// binary is executed.  The probe is repeated on every call because
    /// installation happens out of band.
    pub fn is_ytdlp_installed(&self) -> bool {
        path_exists(&self.get_ytdlp_path())
    }

    /// Whether the muxer binary is present, by probing the disk.
    pub fn is_ffmpeg_installed(&self) -> bool {
        path_exists(&self.get_ffmpeg_path())
    }

    /// Resolves a version query from the downloader binary's outcome:
    /// trimmed standard output on success, else the error output wrapped
    /// in `ExecutionError`.  The caller runs the binary with its version
    /// flag and hands the outcome in.
    pub fn parse_version_output(success: bool, stdout: &String, stderr: &String) -> (r: Result<
        String,
        ManagerError,
    >)
        ensures
            success ==> (r matches Ok(v) && v@ == spec_trim(stdout@)),
            !success ==> (r matches Err(e) && e == ManagerError::ExecutionError(*stderr)),
    {
        if success {
            Ok(trim_str(stdout.as_str()))
        } else {
            Err(ManagerError::ExecutionError(stderr.clone()))
        }
    }

    /// Resolves a whole version query from the install probe's result and
    /// the run's outcome: with the binary absent the query fails with
    /// `BinaryNotFound` — and with nothing else, ever — before any
    /// process exists, and the outcome arguments are never consulted;
    /// otherwise it defers to `parse_version_output`.
    pub fn resolve_version_query(
        installed: bool,
        success: bool,
        stdout: &String,
        stderr: &String,
    ) -> (r: Result<String, ManagerError>)
        ensures
            !installed ==> (r matches Err(e) && e == ManagerError::BinaryNotFound),
            installed && success ==> (r matches Ok(v) && v@ == spec_trim(stdout@)),
            installed && !success ==> (r matches Err(e) && e == ManagerError::ExecutionError(
                *stderr,
            )),
    {
        if !installed {
            return Err(ManagerError::BinaryNotFound);
        }
        Self::parse_version_output(success, stdout, stderr)
    }

    /// The artifact URL and destination file name of the downloader
    /// binary for platform `p`.
    pub fn get_download_url(p: Platform) -> (r: (&'static str, &'static str))
        ensures
            r.0@ == spec_ytdlp_artifact_url(p),
            r.1@ == spec_ytdlp_name(p),
    {
        match p {
            Platform::MacArm => (
                "https://github.com/yt-dlp/yt-dlp/releases/latest/download/yt-dlp_macos",
                "yt-dlp",
            ),
            Platform::MacIntel => (
                "https://github.com/yt-dlp/yt-dlp/releases/latest/download/yt-dlp_macos",
                "yt-dlp",
            ),
            Platform::Windows => (
                "https://github.com/yt-dlp/yt-dlp/releases/latest/download/yt-dlp.exe",
                "yt-dlp.exe",
            ),
            Platform::LinuxX64 => (
                "https://github.com/yt-dlp/yt-dlp/releases/latest/download/yt-dlp_linux",
                "yt-dlp",
            ),
            Platform::Other => (
                "https://github.com/yt-dlp/yt-dlp/releases/latest/download/yt-dlp",
                "yt-dlp",
            ),
        }
    }

    /// The muxer artifact URL for platform `p`; on Linux the muxer comes
    /// from the system package manager, so there is none.
    pub fn get_ffmpeg_download_url(p: Platform) -> (r: Option<&'static str>)
        ensures
            match r {
                Some(u) => spec_ffmpeg_artifact_url(p) == Some(u@),
                None => spec_ffmpeg_artifact_url(p) is None,
            },
    {
        match p {
            Platform::MacArm => Some("https://evermeet.cx/ffmpeg/getrelease/zip"),
            Platform::MacIntel => Some("https://evermeet.cx/ffmpeg/getrelease/zip"),
            Platform::Windows => Some(
                "https://www.gyan.dev/ffmpeg/builds/ffmpeg-release-essentials.zip",
            ),
            Platform::LinuxX64 => None,
            Platform::Other => None,
        }
    }
}

/// The downloader-binary artifact URL for platform `p`.
pub open spec fn spec_ytdlp_artifact_url(p: Platform) -> Seq<char> {
    match p {
        Platform::MacArm => "https://github.com/yt-dlp/yt-dlp/releases/latest/download/yt-dlp_macos"@,
        Platform::MacIntel => "https://github.com/yt-dlp/yt-dlp/releases/latest/download/yt-dlp_macos"@,
        Platform::Windows => "https://github.com/yt-dlp/yt-dlp/releases/latest/download/yt-dlp.exe"@,
        Platform::LinuxX64 => "https://github.com/yt-dlp/yt-dlp/releases/latest/download/yt-dlp_linux"@,
        Platform::Other => "https://github.com/yt-dlp/yt-dlp/releases/latest/download/yt-dlp"@,
    }
}

/// The muxer artifact URL for platform `p`, where one exists.
pub open spec fn spec_ffmpeg_artifact_url(p: Platform) -> Option<Seq<char>> {
    match p {
        Platform::MacArm => Some("https://evermeet.cx/ffmpeg/getrelease/zip"@),
        Platform::MacIntel => Some("https://evermeet.cx/ffmpeg/getrelease/zip"@),
        Platform::Windows => Some(
            "https://www.gyan.dev/ffmpeg/builds/ffmpeg-release-essentials.zip"@,
        ),
        Platform::LinuxX64 => None,
        Platform::Other => None,
    }
}

} // verus!
