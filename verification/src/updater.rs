//! The self-update pipeline: interpreting the release feed, deciding
//! update availability, and planning the streamed, atomic install of the
//! downloader binary.
//!
//! The caller performs the HTTP transfer and the file writes; every
//! decision — what the feed said, whether an update is due, which paths
//! to use, and when the temporary file may be promoted over the
//! destination — is verified here.  Percentages are held in hundredths
//! of a percent, as in [`crate::progress`].

use vstd::prelude::*;
use vstd::string::*;

use crate::json::{json_get_str, json_str_field};
use crate::manager::{spec_join, spec_ytdlp_artifact_url, spec_ytdlp_name, YtDlpManager};

verus! {

/// Failures of the update pipeline.
#[derive(Debug, Clone, PartialEq)]
pub enum UpdaterError {
    /// The HTTP transfer failed; holds its description.
    RequestError(String),
    /// A filesystem operation failed; holds its description.
    IoError(String),
    /// The release feed's answer lacked an expected field.
    ParseError,
    /// The binary locator could not be set up.
    ManagerError(String),
}

impl UpdaterError {
    /// The human-readable message of this error.
    pub open spec fn spec_message(self) -> Seq<char> {
        match self {
            UpdaterError::RequestError(m) => "HTTP request failed: "@ + m@,
            UpdaterError::IoError(m) => "IO error: "@ + m@,
            UpdaterError::ParseError => "Failed to parse version info"@,
            UpdaterError::ManagerError(m) => "Manager error: "@ + m@,
        }
    }

    /// Renders the human-readable message of this error.
    pub fn message(&self) -> (r: String)
        ensures
            r@ == self.spec_message(),
    {
        match self {
            UpdaterError::RequestError(m) => String::from_str("HTTP request failed: ").concat(
                m.as_str(),
            ),
            UpdaterError::IoError(m) => String::from_str("IO error: ").concat(m.as_str()),
            UpdaterError::ParseError => String::from_str("Failed to parse version info"),
            UpdaterError::ManagerError(m) => String::from_str("Manager error: ").concat(m.as_str()),
        }
    }
}

/// The latest published version, as the release feed reports it.
#[derive(Debug, Clone, PartialEq)]
pub struct VersionInfo {
    pub tag_name: String,
    pub published_at: String,
    pub html_url: String,
}

/// One fresh install-status verdict; computed on every check, never
/// cached.
#[derive(Debug, Clone, PartialEq)]
pub struct UpdateStatus {
    pub installed: bool,
    pub current_version: Option<String>,
    pub latest_version: Option<String>,
    pub update_available: bool,
}

/// One progress report of a streaming install: cumulative bytes, the
/// total the server declared, and a percentage in hundredths (absent when
/// no total is known).
#[derive(Debug, Clone, Copy, PartialEq, Eq)]
pub struct DownloadProgressEvent {
    pub downloaded: u64,
    pub total: Option<u64>,
    pub percentage: Option<u64>,
}

/// The release-feed endpoint queried for the latest version.
pub fn release_feed_url() -> (r: &'static str)
    ensures
        r@ == "https://api.github.com/repos/yt-dlp/yt-dlp/releases/latest"@,
{
    "https://api.github.com/repos/yt-dlp/yt-dlp/releases/latest"
}

/// The identifying client name sent with every feed and artifact request.
pub fn client_user_agent() -> (r: &'static str)
    ensures
        r@ == "yt-dlp-gui"@,
{
    "yt-dlp-gui"
}

/// Interprets the release feed's answer: the three expected fields of the
/// JSON body, or `ParseError` when any is missing.  The caller performs
/// the HTTP GET and hands the body text in.
pub fn parse_latest_version(body: &String) -> (r: Result<VersionInfo, UpdaterError>)
    ensures
        ({
            let tag = json_str_field(body@, "tag_name"@);
            let published = json_str_field(body@, "published_at"@);
            let url = json_str_field(body@, "html_url"@);
            if tag is Some && published is Some && url is Some {
                r matches Ok(v) && Some(v.tag_name@) == tag && Some(v.published_at@) == published
                    && Some(v.html_url@) == url
            } else {
                r matches Err(e) && e is ParseError
            }
        }),
{
    let tag = json_get_str(body, "tag_name");
    let published = json_get_str(body, "published_at");
    let url = json_get_str(body, "html_url");
    match (tag, published, url) {
        (Some(tag_name), Some(published_at), Some(html_url)) => Ok(
            VersionInfo { tag_name, published_at, html_url },
        ),
        _ => Err(UpdaterError::ParseError),
    }
}

/// An update is due when both versions are known and differ, or when the
/// tool is not installed but a latest version is known; otherwise it is
/// not — in particular, not when the tool is installed but its version
/// query failed.
pub open spec fn spec_update_available(
    installed: bool,
    current: Option<Seq<char>>,
    latest: Option<Seq<char>>,
) -> bool {
    match (current, latest) {
        (Some(c), Some(l)) => c != l,
        (None, Some(_)) => !installed,
        _ => false,
    }
}

/// Combines what the disk and the feed reported into one verdict.  Every
/// sub-failure has already collapsed into an absent field, so this never
/// fails: with the tool installed but its version unknown, no update is
/// claimed.
pub fn compute_update_status(
    installed: bool,
    current_version: Option<String>,
    latest_version: Option<String>,
) -> (r: UpdateStatus)
    ensures
        r.installed == installed,
        r.current_version == current_version,
        r.latest_version == latest_version,
        r.update_available == spec_update_available(
            installed,
            crate::strutil::view_opt(current_version),
            crate::strutil::view_opt(latest_version),
        ),
{
    let update_available = match (&current_version, &latest_version) {
        (Some(c), Some(l)) => !c.eq(l),
        (None, Some(_)) => !installed,
        _ => false,
    };
    UpdateStatus { installed, current_version, latest_version, update_available }
}

/// Everything a caller needs to stream one artifact into place: the
/// source URL, the final destination, and the temporary sibling that
/// receives the bytes first.
pub struct InstallPlan {
    pub url: String,
    pub dest_path: String,
    pub temp_path: String,
}

/// The state of one streaming install.
#[derive(Debug, Clone, Copy, PartialEq, Eq)]
pub enum InstallState {
    /// Bytes are still arriving; holds the cumulative count and the
    /// total the server declared, if any.
    Streaming { downloaded: u64, total: Option<u64> },
    /// The stream ended and the artifact was promoted.
    Done,
    /// The transfer failed; the temporary file stays for diagnostics.
    Aborted,
}

/// One thing the stream did.
#[derive(Debug, Clone, Copy, PartialEq, Eq)]
pub enum InstallEvent {
    /// A chunk of this many bytes arrived.
    Chunk { len: u64 },
    /// The stream ended after delivering the whole body.
    Finished,
    /// The transfer or a write failed.
    Failed,
}

/// What the caller must do next.
#[derive(Debug, Clone, Copy, PartialEq, Eq)]
pub enum InstallAction {
    /// Append the arrived chunk to the temporary file.
    WriteTemp,
    /// Atomically rename the temporary file over the destination and
    /// mark it executable; the only step that touches the destination.
    Promote,
    /// Stop, leaving the temporary file in place and the destination
    /// untouched.
    Abort,
    /// Nothing.
    Idle,
}

/// The percentage, in hundredths, that `d` of `t` bytes amounts to;
/// absent when no total is known or the total is zero, and saturated when
/// the server under-declared the total.
pub open spec fn spec_install_pct(d: u64, t: Option<u64>) -> Option<u64> {
    match t {
        Some(tt) => if tt > 0 {
            let q = (d as int) * 10000 / (tt as int);
            Some(
                if q > u64::MAX as int {
                    u64::MAX
                } else {
                    q as u64
                },
            )
        } else {
            None
        },
        None => None,
    }
}

/// The progress report after `downloaded` of `total` bytes.
pub fn install_progress(downloaded: u64, total: Option<u64>) -> (r: DownloadProgressEvent)
    ensures
        r.downloaded == downloaded,
        r.total == total,
        r.percentage == spec_install_pct(downloaded, total),
{
    let percentage: Option<u64> = match total {
        Some(t) => {
            if t > 0 {
                let q: u128 = (downloaded as u128) * 10000 / (t as u128);
                if q > u64::MAX as u128 {
                    Some(u64::MAX)
                } else {
                    Some(q as u64)
                }
            } else {
                None
            }
        },
        None => None,
    };
    DownloadProgressEvent { downloaded, total, percentage }
}

/// What one install step yields: the next state, the action owed, and
/// the progress report to deliver, if any.
pub open spec fn spec_install_step(s: InstallState, e: InstallEvent) -> (
    InstallState,
    InstallAction,
    Option<DownloadProgressEvent>,
) {
    match (s, e) {
        (InstallState::Streaming { downloaded, total }, InstallEvent::Chunk { len }) => {
            let d2 = if downloaded + len > u64::MAX {
                u64::MAX
            } else {
                (downloaded + len) as u64
            };
            (
                InstallState::Streaming { downloaded: d2, total },
                InstallAction::WriteTemp,
                Some(
                    DownloadProgressEvent {
                        downloaded: d2,
                        total,
                        percentage: spec_install_pct(d2, total),
                    },
                ),
            )
        },
        (InstallState::Streaming { .. }, InstallEvent::Finished) => (
            InstallState::Done,
            InstallAction::Promote,
            None,
        ),
        (InstallState::Streaming { .. }, InstallEvent::Failed) => (
            InstallState::Aborted,
            InstallAction::Abort,
            None,
        ),
        (InstallState::Done, _) => (InstallState::Done, InstallAction::Idle, None),
        (InstallState::Aborted, _) => (InstallState::Aborted, InstallAction::Idle, None),
    }
}

/// Advances one streaming install by one event.  A chunk is appended to
/// the temporary file and reported; only the end of a complete stream
/// promotes the temporary file over the destination; a failure aborts
/// with the destination untouched.
pub fn install_step(state: &InstallState, event: &InstallEvent) -> (r: (
    InstallState,
    InstallAction,
    Option<DownloadProgressEvent>,
))
    ensures
        r == spec_install_step(*state, *event),
{
    match (state, event) {
        (InstallState::Streaming { downloaded, total }, InstallEvent::Chunk { len }) => {
            let d2 = if *len > u64::MAX - *downloaded {
                u64::MAX
            } else {
                *downloaded + *len
            };
            (
                InstallState::Streaming { downloaded: d2, total: *total },
                InstallAction::WriteTemp,
                Some(install_progress(d2, *total)),
            )
        },
        (InstallState::Streaming { .. }, InstallEvent::Finished) => (
            InstallState::Done,
            InstallAction::Promote,
            None,
        ),
        (InstallState::Streaming { .. }, InstallEvent::Failed) => (
            InstallState::Aborted,
            InstallAction::Abort,
            None,
        ),
        (InstallState::Done, _) => (InstallState::Done, InstallAction::Idle, None),
        (InstallState::Aborted, _) => (InstallState::Aborted, InstallAction::Idle, None),
    }
}

/// The actions a whole run of events yields, from state `s`.
pub open spec fn spec_install_run(s: InstallState, events: Seq<InstallEvent>) -> Seq<InstallAction>
    decreases events.len(),
{
    if events.len() == 0 {
        Seq::empty()
    } else {
        let step = spec_install_step(s, events[0]);
        seq![step.1] + spec_install_run(step.0, events.drop_first())
    }
}

/// Law (atomic install): over any run of stream events, the promote
/// action — the only step that touches the destination — is issued only
/// for the event that ends a complete stream.  A transfer interrupted
/// before completion delivers no such event, so the destination, if it
/// existed, is unchanged; only a fully-written temporary file is ever
/// promoted.
pub proof fn lemma_install_promotes_only_on_finish(s: InstallState, events: Seq<InstallEvent>)
    ensures
        spec_install_run(s, events).len() == events.len(),
        forall|i: int|
            0 <= i < events.len() ==> (#[trigger] spec_install_run(s, events)[i]
                == InstallAction::Promote ==> events[i] is Finished),
    decreases events.len(),
{
    if events.len() > 0 {
        let step = spec_install_step(s, events[0]);
        lemma_install_promotes_only_on_finish(step.0, events.drop_first());
    }
}

/// Coordinates version checks and installs for the downloader binary,
/// over an injected binary locator.
#[derive(Debug, Clone)]
pub struct Updater {
    manager: YtDlpManager,
}

impl Updater {
    /// The binary locator this updater consults.
    pub closed spec fn spec_manager(self) -> YtDlpManager {
        self.manager
    }

    /// An updater over the given binary locator.
    pub fn new(manager: YtDlpManager) -> (r: Self)
        ensures
            r.spec_manager() == manager,
    {
        Updater { manager }
    }

    /// The binary locator this updater consults.
    pub fn get_manager(&self) -> (r: &YtDlpManager)
        ensures
            *r == self.spec_manager(),
    {
        &self.manager
    }

    /// Plans one install: the platform's artifact URL, the destination
    /// path of the downloader binary, and the `.tmp` sibling that
    /// receives the stream before the atomic rename.
    pub fn plan_install(&self) -> (r: InstallPlan)
        ensures
            ({
                let m = self.spec_manager();
                let p = m.spec_platform();
                &&& r.url@ == spec_ytdlp_artifact_url(p)
                &&& r.dest_path@ == spec_join(m.spec_bin_dir(), p, spec_ytdlp_name(p))
                &&& r.temp_path@ == spec_join(m.spec_bin_dir(), p, "yt-dlp.tmp"@)
            }),
    {
        let platform = self.manager.get_platform();
        let (url, filename) = YtDlpManager::get_download_url(platform);
        let dest_path = crate::manager::join_path(self.manager.get_bin_dir(), platform, filename);
        let temp_path = crate::manager::join_path(
            self.manager.get_bin_dir(),
            platform,
            "yt-dlp.tmp",
        );
        InstallPlan { url: url.to_owned(), dest_path, temp_path }
    }
}

} // verus!
