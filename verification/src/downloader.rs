//! The download orchestrator: builds argument vectors for the downloader
//! binary, interprets its metadata output, and resolves a download's
//! outcome.  The caller spawns the binary and feeds its output lines
//! through [`crate::progress::classify`]; everything decided here is
//! verified.
//!
//! Durations are held as whole seconds; a metadata duration that is not a
//! whole number is treated as absent.

use vstd::prelude::*;
use vstd::string::*;

use crate::json::{
    json_arr_len, json_arr_str_field, json_arr_u64_field, json_check, json_get_arr_len,
    json_get_arr_str, json_get_arr_u64, json_get_str, json_get_u64, json_parse_err, json_parses,
    json_str_field, json_u64_field,
};
use crate::manager::{spec_ffmpeg_name, spec_join, spec_ytdlp_name, YtDlpManager};
use crate::progress::{plain_event, plain_progress, DownloadProgress};
use crate::strutil::{comma_join, spec_comma_join, spec_lines, split_lines, view_opt};
use crate::Platform;

verus! {

/// Failures of the download orchestrator.
#[derive(Debug, Clone, PartialEq)]
pub enum DownloaderError {
    /// The downloader binary is not installed.
    BinaryNotFound,
    /// The binary could not be run, or exited nonzero during a metadata
    /// query; holds the diagnostic text.
    ExecutionError(String),
    /// The binary exited nonzero during a media download.
    DownloadFailed(String),
    /// A filesystem operation failed.
    IoError(String),
    /// A single-item metadata response was not well-formed JSON.
    JsonError(String),
    /// The binary locator could not be set up.
    ManagerError(String),
}

impl DownloaderError {
    /// The human-readable message of this error.
    pub open spec fn spec_message(self) -> Seq<char> {
        match self {
            DownloaderError::BinaryNotFound => "yt-dlp binary not found. Please install yt-dlp first."@,
            DownloaderError::ExecutionError(m) => "Failed to execute yt-dlp: "@ + m@,
            DownloaderError::DownloadFailed(m) => "Download failed: "@ + m@,
            DownloaderError::IoError(m) => "IO error: "@ + m@,
            DownloaderError::JsonError(m) => "JSON parse error: "@ + m@,
            DownloaderError::ManagerError(m) => "Manager error: "@ + m@,
        }
    }

    /// Renders the human-readable message of this error.
    pub fn message(&self) -> (r: String)
        ensures
            r@ == self.spec_message(),
    {
        match self {
            DownloaderError::BinaryNotFound => String::from_str(
                "yt-dlp binary not found. Please install yt-dlp first.",
            ),
            DownloaderError::ExecutionError(m) => String::from_str(
                "Failed to execute yt-dlp: ",
            ).concat(m.as_str()),
            DownloaderError::DownloadFailed(m) => String::from_str("Download failed: ").concat(
                m.as_str(),
            ),
            DownloaderError::IoError(m) => String::from_str("IO error: ").concat(m.as_str()),
            DownloaderError::JsonError(m) => String::from_str("JSON parse error: ").concat(
                m.as_str(),
            ),
            DownloaderError::ManagerError(m) => String::from_str("Manager error: ").concat(
                m.as_str(),
            ),
        }
    }
}

/// The quality a video download asks for; unknown tags fall back to
/// `Best` before this type is ever constructed.
#[derive(Debug, Clone, Copy, PartialEq, Eq)]
pub enum VideoQuality {
    Best,
    P720,
    P480,
}

/// The format-selector expression handed to the downloader for `q`.
pub open spec fn spec_format_string(q: VideoQuality) -> Seq<char> {
    match q {
        VideoQuality::Best => "bv*+ba/b"@,
        VideoQuality::P720 => "bv*[height<=720]+ba/b"@,
        VideoQuality::P480 => "bv*[height<=480]+ba/b"@,
    }
}

impl VideoQuality {
    /// The format-selector expression handed to the downloader: best
    /// video plus best audio, optionally constrained by height, with a
    /// fallback to the best overall format.
    pub fn to_format_string(&self) -> (r: &'static str)
        ensures
            r@ == spec_format_string(*self),
    {
        match self {
            VideoQuality::Best => "bv*+ba/b",
            VideoQuality::P720 => "bv*[height<=720]+ba/b",
            VideoQuality::P480 => "bv*[height<=480]+ba/b",
        }
    }
}

/// The container a video download is muxed into.
#[derive(Debug, Clone, Copy, PartialEq, Eq)]
pub enum VideoContainer {
    Mp4,
    Mkv,
    Webm,
}

/// The container name handed to the downloader's merge flag.
pub open spec fn spec_container_string(c: VideoContainer) -> Seq<char> {
    match c {
        VideoContainer::Mp4 => "mp4"@,
        VideoContainer::Mkv => "mkv"@,
        VideoContainer::Webm => "webm"@,
    }
}

impl VideoContainer {
    /// The container name handed to the downloader's merge flag.
    pub fn as_arg(&self) -> (r: &'static str)
        ensures
            r@ == spec_container_string(*self),
    {
        match self {
            VideoContainer::Mp4 => "mp4",
            VideoContainer::Mkv => "mkv",
            VideoContainer::Webm => "webm",
        }
    }
}

/// The codec an audio download is extracted to.
#[derive(Debug, Clone, Copy, PartialEq, Eq)]
pub enum AudioFormat {
    Mp3,
    M4a,
    Aac,
    Flac,
    Wav,
}

/// The codec name handed to the downloader's audio-format flag.
pub open spec fn spec_audio_string(f: AudioFormat) -> Seq<char> {
    match f {
        AudioFormat::Mp3 => "mp3"@,
        AudioFormat::M4a => "m4a"@,
        AudioFormat::Aac => "aac"@,
        AudioFormat::Flac => "flac"@,
        AudioFormat::Wav => "wav"@,
    }
}

impl AudioFormat {
    /// The codec name handed to the downloader's audio-format flag.
    pub fn as_arg(&self) -> (r: &'static str)
        ensures
            r@ == spec_audio_string(*self),
    {
        match self {
            AudioFormat::Mp3 => "mp3",
            AudioFormat::M4a => "m4a",
            AudioFormat::Aac => "aac",
            AudioFormat::Flac => "flac",
            AudioFormat::Wav => "wav",
        }
    }
}

/// What a download produces: a muxed video or an extracted audio track.
#[derive(Debug, Clone, PartialEq, Eq)]
pub enum DownloadMode {
    Video { quality: VideoQuality, container: VideoContainer },
    Audio { format: AudioFormat },
}

/// One download request.  Immutable once constructed; owned by the
/// caller for the duration of one invocation.
#[derive(Debug, Clone, PartialEq)]
pub struct DownloadOptions {
    pub url: String,
    pub output_dir: String,
    pub mode: DownloadMode,
    pub embed_subs: bool,
    /// 1-based indices of the playlist items to download, in order.
    pub playlist_items: Option<Vec<usize>>,
}

/// One entry of a resolved playlist.
#[derive(Debug, Clone, PartialEq)]
pub struct PlaylistEntry {
    pub id: String,
    pub title: String,
    /// Whole seconds.
    pub duration: Option<u64>,
    pub thumbnail: Option<String>,
}

/// The mathematical model of a playlist entry.
pub struct EntryModel {
    pub id: Seq<char>,
    pub title: Seq<char>,
    pub duration: Option<u64>,
    pub thumbnail: Option<Seq<char>>,
}

impl View for PlaylistEntry {
    type V = EntryModel;

    open spec fn view(&self) -> EntryModel {
        EntryModel {
            id: self.id@,
            title: self.title@,
            duration: self.duration,
            thumbnail: view_opt(self.thumbnail),
        }
    }
}

/// Resolved metadata for a single item or a playlist.  Produced once per
/// metadata query; never mutated.
#[derive(Debug, Clone, PartialEq)]
pub struct VideoInfo {
    pub id: String,
    pub title: String,
    /// Whole seconds.
    pub duration: Option<u64>,
    pub thumbnail: Option<String>,
    pub description: Option<String>,
    pub uploader: Option<String>,
    pub is_playlist: bool,
    pub playlist_count: Option<usize>,
    pub entries: Option<Vec<PlaylistEntry>>,
}

/// The mathematical model of resolved metadata.
pub struct InfoModel {
    pub id: Seq<char>,
    pub title: Seq<char>,
    pub duration: Option<u64>,
    pub thumbnail: Option<Seq<char>>,
    pub description: Option<Seq<char>>,
    pub uploader: Option<Seq<char>>,
    pub is_playlist: bool,
    pub playlist_count: Option<usize>,
    pub entries: Option<Seq<EntryModel>>,
}

/// The models of a sequence of playlist entries.
pub open spec fn entries_model(v: Seq<PlaylistEntry>) -> Seq<EntryModel> {
    Seq::new(v.len(), |i: int| v[i]@)
}

impl View for VideoInfo {
    type V = InfoModel;

    open spec fn view(&self) -> InfoModel {
        InfoModel {
            id: self.id@,
            title: self.title@,
            duration: self.duration,
            thumbnail: view_opt(self.thumbnail),
            description: view_opt(self.description),
            uploader: view_opt(self.uploader),
            is_playlist: self.is_playlist,
            playlist_count: self.playlist_count,
            entries: match self.entries {
                Some(v) => Some(entries_model(v@)),
                None => None,
            },
        }
    }
}

/// `o`, or `d` where `o` is absent.
pub open spec fn spec_str_or(o: Option<Seq<char>>, d: Seq<char>) -> Seq<char> {
    match o {
        Some(s) => s,
        None => d,
    }
}

fn str_or(o: Option<String>, d: &str) -> (r: String)
    ensures
        r@ == spec_str_or(view_opt(o), d@),
{
    match o {
        Some(s) => s,
        None => d.to_owned(),
    }
}

/// The playlist entry a metadata line describes: its fields, with the
/// conventional fallbacks for absent id and title.
pub open spec fn spec_entry_of_line(l: Seq<char>) -> EntryModel {
    EntryModel {
        id: spec_str_or(json_str_field(l, "id"@), ""@),
        title: spec_str_or(json_str_field(l, "title"@), "Unknown"@),
        duration: json_u64_field(l, "duration"@),
        thumbnail: json_str_field(l, "thumbnail"@),
    }
}

fn entry_of_line(line: &String) -> (r: PlaylistEntry)
    ensures
        r@ == spec_entry_of_line(line@),
{
    PlaylistEntry {
        id: str_or(json_get_str(line, "id"), ""),
        title: str_or(json_get_str(line, "title"), "Unknown"),
        duration: json_get_u64(line, "duration"),
        thumbnail: json_get_str(line, "thumbnail"),
    }
}

/// The entries of a many-line metadata response: one entry per line that
/// parses as JSON, in line order; other lines are skipped.
pub open spec fn spec_lines_entries(lines: Seq<Seq<char>>) -> Seq<EntryModel>
    decreases lines.len(),
{
    if lines.len() == 0 {
        Seq::empty()
    } else {
        spec_lines_entries(lines.drop_last()) + if json_parses(lines.last()) {
            seq![spec_entry_of_line(lines.last())]
        } else {
            Seq::empty()
        }
    }
}

/// Entry `i` of the embedded `entries` array of a playlist-reference
/// line, with the conventional fallback for an absent title.
pub open spec fn spec_embedded_entry(l: Seq<char>, i: int) -> EntryModel {
    EntryModel {
        id: spec_str_or(json_arr_str_field(l, "entries"@, i, "id"@), ""@),
        title: spec_str_or(json_arr_str_field(l, "entries"@, i, "title"@), "Unknown"@),
        duration: json_arr_u64_field(l, "entries"@, i, "duration"@),
        thumbnail: json_arr_str_field(l, "entries"@, i, "thumbnail"@),
    }
}

/// The first `count` embedded entries of a playlist-reference line, in
/// source order, skipping entries that lack an id.
pub open spec fn spec_embedded_entries(l: Seq<char>, count: int) -> Seq<EntryModel>
    decreases count,
{
    if count <= 0 {
        Seq::empty()
    } else {
        spec_embedded_entries(l, count - 1) + if json_arr_str_field(
            l,
            "entries"@,
            count - 1,
            "id"@,
        ) is Some {
            seq![spec_embedded_entry(l, count - 1)]
        } else {
            Seq::empty()
        }
    }
}

/// The metadata of a many-line response: a synthetic playlist whose
/// entries are the lines that parse.
pub open spec fn spec_multi_info(lines: Seq<Seq<char>>) -> InfoModel {
    let entries = spec_lines_entries(lines);
    InfoModel {
        id: "playlist"@,
        title: "Playlist"@,
        duration: None,
        thumbnail: None,
        description: None,
        uploader: None,
        is_playlist: true,
        playlist_count: Some(entries.len() as usize),
        entries: Some(entries),
    }
}

/// The metadata of a single line that references a playlist: its own
/// fields plus the expanded embedded entries.
pub open spec fn spec_playlist_ref_info(l: Seq<char>) -> InfoModel {
    let count = match json_arr_len(l, "entries"@) {
        Some(c) => c as int,
        None => 0,
    };
    let entries = spec_embedded_entries(l, count);
    InfoModel {
        id: spec_str_or(json_str_field(l, "id"@), "playlist"@),
        title: spec_str_or(json_str_field(l, "title"@), "Playlist"@),
        duration: None,
        thumbnail: json_str_field(l, "thumbnail"@),
        description: None,
        uploader: json_str_field(l, "uploader"@),
        is_playlist: true,
        playlist_count: Some(entries.len() as usize),
        entries: Some(entries),
    }
}

/// The metadata of a single line that describes one item.
pub open spec fn spec_single_item_info(l: Seq<char>) -> InfoModel {
    InfoModel {
        id: spec_str_or(json_str_field(l, "id"@), ""@),
        title: spec_str_or(json_str_field(l, "title"@), "Unknown"@),
        duration: json_u64_field(l, "duration"@),
        thumbnail: json_str_field(l, "thumbnail"@),
        description: json_str_field(l, "description"@),
        uploader: json_str_field(l, "uploader"@),
        is_playlist: false,
        playlist_count: None,
        entries: None,
    }
}

/// The metadata a single well-formed line yields: a playlist expansion
/// when its type tag says `playlist`, else a single item.
pub open spec fn spec_single_line_info(l: Seq<char>) -> InfoModel {
    if json_str_field(l, "_type"@) == Some("playlist"@) {
        spec_playlist_ref_info(l)
    } else {
        spec_single_item_info(l)
    }
}

fn expand_embedded_entries(line: &String) -> (r: Vec<PlaylistEntry>)
    ensures
        ({
            let count = match json_arr_len(line@, "entries"@) {
                Some(c) => c as int,
                None => 0,
            };
            entries_model(r@) == spec_embedded_entries(line@, count)
        }),
{
    let count: usize = match json_get_arr_len(line, "entries") {
        Some(c) => c,
        None => 0,
    };
    let mut entries: Vec<PlaylistEntry> = Vec::new();
    let mut i: usize = 0;
    while i < count
        invariant
            i <= count,
            entries_model(entries@) == spec_embedded_entries(line@, i as int),
        decreases count - i,
    {
        match json_get_arr_str(line, "entries", i, "id") {
            Some(id) => {
                let e = PlaylistEntry {
                    id,
                    title: str_or(json_get_arr_str(line, "entries", i, "title"), "Unknown"),
                    duration: json_get_arr_u64(line, "entries", i, "duration"),
                    thumbnail: json_get_arr_str(line, "entries", i, "thumbnail"),
                };
                entries.push(e);
            },
            None => {},
        }
        i = i + 1;
        proof {
            assert(entries_model(entries@) =~= spec_embedded_entries(line@, i as int));
        }
    }
    entries
}

/// Interprets a metadata query's outcome.  A failed run yields
/// `ExecutionError` with the diagnostic text.  Otherwise: no output line
/// is an error; two or more lines form a playlist out of every line that
/// parses as JSON; one line is expanded as a playlist reference when its
/// type tag says so, else taken as a single item; a single line that is
/// not well-formed JSON is a `JsonError`.  The caller runs the binary in
/// metadata-only mode and hands the outcome in.
pub fn parse_info_output(success: bool, stdout: &String, stderr: &String) -> (r: Result<
    VideoInfo,
    DownloaderError,
>)
    ensures
        !success ==> (r matches Err(e) && e == DownloaderError::ExecutionError(*stderr)),
        success ==> ({
            let lines = spec_lines(stdout@);
            &&& lines.len() == 0 ==> (r matches Err(e) && e matches DownloaderError::ExecutionError(m)
                && m@ == "No output from yt-dlp"@)
            &&& lines.len() > 1 ==> (r matches Ok(info) && info@ == spec_multi_info(lines))
            &&& lines.len() == 1 ==> {
                &&& !json_parses(lines[0]) ==> (r matches Err(e) && e matches
                    DownloaderError::JsonError(m) && json_parse_err(lines[0]) == Some(m@))
                &&& json_parses(lines[0]) ==> (r matches Ok(info) && info@ == spec_single_line_info(
                    lines[0],
                ))
            }
        }),
{
    if !success {
        return Err(DownloaderError::ExecutionError(stderr.clone()));
    }
    let lines = split_lines(stdout.as_str());
    let ghost lv = spec_lines(stdout@);
    proof {
        assert(lines.deep_view() == lv);
    }
    if lines.len() == 0 {
        return Err(DownloaderError::ExecutionError("No output from yt-dlp".to_owned()));
    }
    if lines.len() > 1 {
        let n = lines.len();
        let mut entries: Vec<PlaylistEntry> = Vec::new();
        let mut i: usize = 0;
        while i < n
            invariant
                i <= n,
                n == lines@.len(),
                lv == lines.deep_view(),
                entries_model(entries@) == spec_lines_entries(lv.take(i as int)),
            decreases n - i,
        {
            let line = &lines[i];
            proof {
                assert(lv[i as int] == line@);
            }
            if json_check(line).is_ok() {
                entries.push(entry_of_line(line));
            }
            i = i + 1;
            proof {
                assert(lv.take(i as int).drop_last() =~= lv.take(i - 1));
                assert(lv.take(i as int).last() == lv[i - 1]);
                assert(entries_model(entries@) =~= spec_lines_entries(lv.take(i as int)));
            }
        }
        proof {
            assert(lv.take(n as int) =~= lv);
        }
        let count = entries.len();
        return Ok(
            VideoInfo {
                id: "playlist".to_owned(),
                title: "Playlist".to_owned(),
                duration: None,
                thumbnail: None,
                description: None,
                uploader: None,
                is_playlist: true,
                playlist_count: Some(count),
                entries: Some(entries),
            },
        );
    }
    let line = &lines[0];
    proof {
        assert(lv[0] == line@);
    }
    match json_check(line) {
        Err(m) => Err(DownloaderError::JsonError(m)),
        Ok(_) => {
            let is_playlist_ref = match json_get_str(line, "_type") {
                Some(t) => t == String::from_str("playlist"),
                None => false,
            };
            if is_playlist_ref {
                let entries = expand_embedded_entries(line);
                let count = entries.len();
                Ok(
                    VideoInfo {
                        id: str_or(json_get_str(line, "id"), "playlist"),
                        title: str_or(json_get_str(line, "title"), "Playlist"),
                        duration: None,
                        thumbnail: json_get_str(line, "thumbnail"),
                        description: None,
                        uploader: json_get_str(line, "uploader"),
                        is_playlist: true,
                        playlist_count: Some(count),
                        entries: Some(entries),
                    },
                )
            } else {
                Ok(
                    VideoInfo {
                        id: str_or(json_get_str(line, "id"), ""),
                        title: str_or(json_get_str(line, "title"), "Unknown"),
                        duration: json_get_u64(line, "duration"),
                        thumbnail: json_get_str(line, "thumbnail"),
                        description: json_get_str(line, "description"),
                        uploader: json_get_str(line, "uploader"),
                        is_playlist: false,
                        playlist_count: None,
                        entries: None,
                    },
                )
            }
        },
    }
}

/// The number of lines of `lines` that parse as JSON.
pub open spec fn spec_parsing_count(lines: Seq<Seq<char>>) -> int
    decreases lines.len(),
{
    if lines.len() == 0 {
        0
    } else {
        spec_parsing_count(lines.drop_last()) + if json_parses(lines.last()) {
            1int
        } else {
            0int
        }
    }
}

/// Law: a many-line metadata response yields a playlist whose entry
/// count equals the number of lines that parse as JSON; malformed lines
/// are skipped silently.
pub proof fn lemma_multi_line_entry_count(lines: Seq<Seq<char>>)
    ensures
        spec_lines_entries(lines).len() == spec_parsing_count(lines),
        spec_multi_info(lines).is_playlist,
        spec_multi_info(lines).playlist_count == Some(spec_parsing_count(lines) as usize),
        spec_multi_info(lines).entries == Some(spec_lines_entries(lines)),
    decreases lines.len(),
{
    if lines.len() > 0 {
        lemma_multi_line_entry_count(lines.drop_last());
    }
}

/// The fixed arguments of a metadata query: JSON-lines output, flattened
/// playlists, no warnings, no download, then the source URL.
pub open spec fn spec_info_args(url: Seq<char>) -> Seq<Seq<char>> {
    seq!["--dump-json"@, "--flat-playlist"@, "--no-warnings"@, "--no-download"@, url]
}

/// The argument vector of a metadata query for `url`.
pub fn build_info_args(url: &String) -> (r: Vec<String>)
    ensures
        r.deep_view() == spec_info_args(url@),
{
    let mut args: Vec<String> = Vec::new();
    args.push("--dump-json".to_owned());
    args.push("--flat-playlist".to_owned());
    args.push("--no-warnings".to_owned());
    args.push("--no-download".to_owned());
    args.push(url.clone());
    proof {
        assert(args.deep_view() =~= spec_info_args(url@));
    }
    args
}

/// The output template of a download into `dir`: title and extension.
pub open spec fn spec_output_template(dir: Seq<char>, p: Platform) -> Seq<char> {
    spec_join(dir, p, "%(title)s.%(ext)s"@)
}

/// The mode-specific arguments: a format selector and a merge container
/// for video; audio extraction and a codec for audio.
pub open spec fn spec_mode_args(m: DownloadMode) -> Seq<Seq<char>> {
    match m {
        DownloadMode::Video { quality, container } => seq![
            "-f"@,
            spec_format_string(quality),
            "--merge-output-format"@,
            spec_container_string(container),
        ],
        DownloadMode::Audio { format } => seq!["-x"@, "--audio-format"@, spec_audio_string(format)],
    }
}

/// The subtitle arguments, present exactly when subtitles are embedded.
pub open spec fn spec_subs_args(embed: bool) -> Seq<Seq<char>> {
    if embed {
        seq!["--write-subs"@, "--embed-subs"@]
    } else {
        Seq::empty()
    }
}

/// The playlist-selection arguments: the comma-joined 1-based indices.
pub open spec fn spec_playlist_args(items: Option<Vec<usize>>) -> Seq<Seq<char>> {
    match items {
        Some(v) => seq!["--playlist-items"@, spec_comma_join(v@)],
        None => Seq::empty(),
    }
}

/// The muxer-location arguments, present exactly when a muxer path is
/// handed in.
pub open spec fn spec_ffmpeg_args(f: Option<Seq<char>>) -> Seq<Seq<char>> {
    match f {
        Some(p) => seq!["--ffmpeg-location"@, p],
        None => Seq::empty(),
    }
}

/// The full argument vector of a download: progress flags, the output
/// template, the mode arguments, optional subtitle and playlist
/// arguments, the optional muxer location, then the source URL.
pub open spec fn spec_download_args(
    o: DownloadOptions,
    ffmpeg: Option<Seq<char>>,
    p: Platform,
) -> Seq<Seq<char>> {
    seq![
        "--progress"@,
        "--newline"@,
        "--force-progress"@,
        "-o"@,
        spec_output_template(o.output_dir@, p),
    ] + spec_mode_args(o.mode) + spec_subs_args(o.embed_subs) + spec_playlist_args(o.playlist_items)
        + spec_ffmpeg_args(ffmpeg) + seq![o.url@]
}

/// Builds the argument vector for one download, deterministically from
/// the request, the optional muxer path, and the platform.
pub fn build_download_args(
    options: &DownloadOptions,
    ffmpeg_path: &Option<String>,
    platform: Platform,
) -> (r: Vec<String>)
    ensures
        r.deep_view() == spec_download_args(*options, view_opt(*ffmpeg_path), platform),
{
    let mut args: Vec<String> = Vec::new();
    args.push("--progress".to_owned());
    args.push("--newline".to_owned());
    args.push("--force-progress".to_owned());
    args.push("-o".to_owned());
    args.push(crate::manager::join_path(&options.output_dir, platform, "%(title)s.%(ext)s"));
    match &options.mode {
        DownloadMode::Video { quality, container } => {
            args.push("-f".to_owned());
            args.push(quality.to_format_string().to_owned());
            args.push("--merge-output-format".to_owned());
            args.push(container.as_arg().to_owned());
        },
        DownloadMode::Audio { format } => {
            args.push("-x".to_owned());
            args.push("--audio-format".to_owned());
            args.push(format.as_arg().to_owned());
        },
    }
    if options.embed_subs {
        args.push("--write-subs".to_owned());
        args.push("--embed-subs".to_owned());
    }
    match &options.playlist_items {
        Some(items) => {
            args.push("--playlist-items".to_owned());
            args.push(comma_join(items));
        },
        None => {},
    }
    match ffmpeg_path {
        Some(p) => {
            args.push("--ffmpeg-location".to_owned());
            args.push(p.clone());
        },
        None => {},
    }
    args.push(options.url.clone());
    proof {
        assert(args.deep_view() =~= spec_download_args(
            *options,
            view_opt(*ffmpeg_path),
            platform,
        ));
    }
    args
}

/// Everything a caller needs to run one download: the binary to spawn,
/// its arguments, and the synthetic `starting` event to deliver before
/// the first output line arrives.
pub struct DownloadPlan {
    pub binary: String,
    pub args: Vec<String>,
    pub initial_event: DownloadProgress,
}

/// Builds argument vectors, interprets the downloader's metadata output,
/// and resolves download outcomes, over an injected binary locator.
#[derive(Debug, Clone)]
pub struct Downloader {
    manager: YtDlpManager,
}

impl Downloader {
    /// The binary locator this orchestrator consults.
    pub closed spec fn spec_manager(self) -> YtDlpManager {
        self.manager
    }

    /// An orchestrator over the given binary locator.
    pub fn new(manager: YtDlpManager) -> (r: Self)
        ensures
            r.spec_manager() == manager,
    {
        Downloader { manager }
    }

    /// The binary locator this orchestrator consults.
    pub fn get_manager(&self) -> (r: &YtDlpManager)
        ensures
            *r == self.spec_manager(),
    {
        &self.manager
    }

    /// Plans a metadata query from the install probe's result: with the
    /// downloader binary absent it fails with `BinaryNotFound` — and with
    /// nothing else, ever — before any process exists; with it present,
    /// the plan is the binary's path and the arguments asking for
    /// JSON-lines metadata of `url`.
    pub fn plan_info(&self, installed: bool, url: &String) -> (r: Result<
        (String, Vec<String>),
        DownloaderError,
    >)
        ensures
            r is Err <==> !installed,
            r matches Err(e) ==> e == DownloaderError::BinaryNotFound,
            r matches Ok(p) ==> p.0@ == spec_join(
                self.spec_manager().spec_bin_dir(),
                self.spec_manager().spec_platform(),
                spec_ytdlp_name(self.spec_manager().spec_platform()),
            ) && p.1.deep_view() == spec_info_args(url@),
    {
        if !installed {
            return Err(DownloaderError::BinaryNotFound);
        }
        Ok((self.manager.get_ytdlp_path(), build_info_args(url)))
    }

    /// Plans a metadata query, probing the disk for the binary itself.
    /// The probe's outcome is not a function of the arguments, so only
    /// the shape of each outcome is promised; the tie between probe and
    /// outcome is `plan_info`'s contract.
    pub fn begin_info(&self, url: &String) -> (r: Result<(String, Vec<String>), DownloaderError>)
        ensures
            r matches Err(e) ==> e == DownloaderError::BinaryNotFound,
            r matches Ok(p) ==> p.0@ == spec_join(
                self.spec_manager().spec_bin_dir(),
                self.spec_manager().spec_platform(),
                spec_ytdlp_name(self.spec_manager().spec_platform()),
            ) && p.1.deep_view() == spec_info_args(url@),
    {
        let installed = self.manager.is_ytdlp_installed();
        self.plan_info(installed, url)
    }

    /// Plans a download from the probes' results: with the downloader
    /// binary absent it fails with `BinaryNotFound` — and with nothing
    /// else, ever — so no plan, and with it no process and no progress
    /// event, exists.  With it present, the plan holds the binary's
    /// path, the deterministic argument vector built from the request and
    /// the handed-in muxer path, and the synthetic `starting` event.
    /// The caller creates the output directory before spawning.
    pub fn plan_download(
        &self,
        installed: bool,
        ffmpeg_path: &Option<String>,
        options: &DownloadOptions,
    ) -> (r: Result<DownloadPlan, DownloaderError>)
        ensures
            r is Err <==> !installed,
            r matches Err(e) ==> e == DownloaderError::BinaryNotFound,
            r matches Ok(plan) ==> {
                let m = self.spec_manager();
                let p = m.spec_platform();
                &&& plan.binary@ == spec_join(m.spec_bin_dir(), p, spec_ytdlp_name(p))
                &&& plan.initial_event@ == plain_event("starting"@, 0)
                &&& plan.args.deep_view() == spec_download_args(
                    *options,
                    view_opt(*ffmpeg_path),
                    p,
                )
            },
    {
        if !installed {
            return Err(DownloaderError::BinaryNotFound);
        }
        let platform = self.manager.get_platform();
        let args = build_download_args(options, ffmpeg_path, platform);
        Ok(
            DownloadPlan {
                binary: self.manager.get_ytdlp_path(),
                args,
                initial_event: plain_progress("starting", 0),
            },
        )
    }

    /// Plans a download, probing the disk for both binaries itself: the
    /// muxer's location is handed to the downloader exactly when the
    /// muxer is installed.  The probes' outcomes are not functions of the
    /// arguments, so only the shape of each outcome is promised; the tie
    /// between probe and outcome is `plan_download`'s contract.
    pub fn begin_download(&self, options: &DownloadOptions) -> (r: Result<
        DownloadPlan,
        DownloaderError,
    >)
        ensures
            r matches Err(e) ==> e == DownloaderError::BinaryNotFound,
            r matches Ok(plan) ==> {
                let m = self.spec_manager();
                let p = m.spec_platform();
                &&& plan.binary@ == spec_join(m.spec_bin_dir(), p, spec_ytdlp_name(p))
                &&& plan.initial_event@ == plain_event("starting"@, 0)
                &&& (plan.args.deep_view() == spec_download_args(
                    *options,
                    Some(spec_join(m.spec_bin_dir(), p, spec_ffmpeg_name(p))),
                    p,
                ) || plan.args.deep_view() == spec_download_args(*options, None, p))
            },
    {
        let installed = self.manager.is_ytdlp_installed();
        let ffmpeg_path: Option<String> = if self.manager.is_ffmpeg_installed() {
            Some(self.manager.get_ffmpeg_path())
        } else {
            None
        };
        self.plan_download(installed, &ffmpeg_path, options)
    }
}

/// `args` holds `flag` immediately followed by `val`.
pub open spec fn has_flag_pair(args: Seq<Seq<char>>, flag: Seq<char>, val: Seq<char>) -> bool {
    exists|i: int| 0 <= i && i + 1 < args.len() && #[trigger] args[i] == flag && args[i + 1] == val
}

/// Law: a video request at 720p into an mp4 container yields an argument
/// vector carrying the height-constrained format selector right after the
/// format flag, and `mp4` right after the merge-format flag, whatever the
/// rest of the request holds.
pub proof fn lemma_video_720_mp4_args(o: DownloadOptions, ffmpeg: Option<Seq<char>>, p: Platform)
    requires
        o.mode == (DownloadMode::Video {
            quality: VideoQuality::P720,
            container: VideoContainer::Mp4,
        }),
    ensures
        has_flag_pair(spec_download_args(o, ffmpeg, p), "-f"@, "bv*[height<=720]+ba/b"@),
        has_flag_pair(spec_download_args(o, ffmpeg, p), "--merge-output-format"@, "mp4"@),
{
    let args = spec_download_args(o, ffmpeg, p);
    assert(args[5] == "-f"@ && args[6] == "bv*[height<=720]+ba/b"@);
    assert(args[7] == "--merge-output-format"@ && args[8] == "mp4"@);
    assert(args.len() >= 10);
}

/// Law: an audio request for flac yields an argument vector carrying the
/// audio-extraction flag and the codec `flac` right after the
/// audio-format flag, and neither a video format selector nor a
/// merge-format flag anywhere — provided neither the source URL nor a
/// handed-in muxer path happens to spell one of those two flags itself
/// (the URL is a positional argument, so a URL that is literally a flag
/// would appear in the vector).
pub proof fn lemma_audio_flac_args(o: DownloadOptions, ffmpeg: Option<Seq<char>>, p: Platform)
    requires
        o.mode == (DownloadMode::Audio { format: AudioFormat::Flac }),
        o.url@ != "-f"@,
        o.url@ != "--merge-output-format"@,
        ffmpeg matches Some(f) ==> f != "-f"@ && f != "--merge-output-format"@,
    ensures
        spec_download_args(o, ffmpeg, p).contains("-x"@),
        has_flag_pair(spec_download_args(o, ffmpeg, p), "--audio-format"@, "flac"@),
        forall|i: int|
            0 <= i < spec_download_args(o, ffmpeg, p).len() ==> spec_download_args(o, ffmpeg, p)[i]
                != "-f"@,
        forall|i: int|
            0 <= i < spec_download_args(o, ffmpeg, p).len() ==> spec_download_args(o, ffmpeg, p)[i]
                != "--merge-output-format"@,
{
    let args = spec_download_args(o, ffmpeg, p);
    assert(args[5] == "-x"@);
    assert(args.len() >= 9);
    assert(args.contains("-x"@));
    assert(args[6] == "--audio-format"@ && args[7] == "flac"@);
    let base = seq![
        "--progress"@,
        "--newline"@,
        "--force-progress"@,
        "-o"@,
        spec_output_template(o.output_dir@, p),
    ];
    let mode = spec_mode_args(o.mode);
    let subs = spec_subs_args(o.embed_subs);
    let pl = spec_playlist_args(o.playlist_items);
    let ff = spec_ffmpeg_args(ffmpeg);
    let tail = seq![o.url@];
    assert(args == base + mode + subs + pl + ff + tail);
    assert forall|i: int|
        0 <= i < args.len() implies args[i] != "-f"@ && args[i] != "--merge-output-format"@ by {
        reveal_strlit("-f");
        reveal_strlit("--merge-output-format");
        reveal_strlit("-x");
        reveal_strlit("-o");
        reveal_strlit("--progress");
        reveal_strlit("--newline");
        reveal_strlit("--force-progress");
        reveal_strlit("--audio-format");
        reveal_strlit("flac");
        reveal_strlit("--write-subs");
        reveal_strlit("--embed-subs");
        reveal_strlit("--playlist-items");
        reveal_strlit("--ffmpeg-location");
        reveal_strlit("%(title)s.%(ext)s");
        reveal_strlit("\\");
        reveal_strlit("/");
        assert("-f"@.len() == 2 && "-f"@[0] == '-' && "-f"@[1] == 'f');
        assert("--merge-output-format"@.len() == 21);
        assert("--merge-output-format"@[0] == '-' && "--merge-output-format"@[20] == 't');
        assert("-x"@.len() == 2 && "-x"@[1] == 'x');
        assert("-o"@.len() == 2 && "-o"@[1] == 'o');
        assert("--progress"@.len() == 10);
        assert("--newline"@.len() == 9);
        assert("--force-progress"@.len() == 16);
        assert("--audio-format"@.len() == 14);
        assert("flac"@.len() == 4);
        assert("--write-subs"@.len() == 12);
        assert("--embed-subs"@.len() == 12);
        assert("--playlist-items"@.len() == 16);
        assert("--ffmpeg-location"@.len() == 17);
        assert("%(title)s.%(ext)s"@.len() == 17);
        assert(crate::manager::spec_sep(p).len() == 1);
        let tpl = spec_output_template(o.output_dir@, p);
        assert(tpl.len() >= 18);
        assert(tpl[tpl.len() - 1] == "%(title)s.%(ext)s"@[16]);
        assert("%(title)s.%(ext)s"@[16] == 's');
        assert(tpl != "-f"@);
        if tpl.len() == 21 {
            assert(tpl[20] == 's');
        }
        assert(tpl != "--merge-output-format"@);
        let b0 = 5int;
        let b1 = b0 + mode.len();
        let b2 = b1 + subs.len();
        let b3 = b2 + pl.len();
        let b4 = b3 + ff.len();
        if i < b0 {
            assert(args[i] == base[i]);
        } else if i < b1 {
            assert(args[i] == mode[i - b0]);
        } else if i < b2 {
            assert(args[i] == subs[i - b1]);
        } else if i < b3 {
            assert(args[i] == pl[i - b2]);
            if i - b2 == 1 {
                let items = o.playlist_items->0;
                if items@.len() > 0 {
                    crate::strutil::lemma_comma_join_head(items@);
                    assert(args[i][0] != '-');
                } else {
                    assert(args[i].len() == 0);
                }
            }
        } else if i < b4 {
            assert(args[i] == ff[i - b3]);
        } else {
            assert(args[i] == tail[i - b4]);
        }
    }
}

/// Resolves a finished download from its exit status: success yields the
/// configured output directory and a final `completed` event; failure
/// yields `DownloadFailed` and no synthetic event, so callers treat
/// callback cessation plus the error as the failure signal.
pub fn finish_download(success: bool, output_dir: &String) -> (r: (
    Result<String, DownloaderError>,
    Option<DownloadProgress>,
))
    ensures
        success ==> ((r.0 matches Ok(d) && d@ == output_dir@) && (r.1 matches Some(ev) && ev@
            == plain_event("completed"@, 10000))),
        !success ==> ((r.0 matches Err(e) && e matches DownloaderError::DownloadFailed(m) && m@
            == "Download process failed"@) && r.1 is None),
{
    if success {
        (Ok(output_dir.clone()), Some(plain_progress("completed", 10000)))
    } else {
        (Err(DownloaderError::DownloadFailed("Download process failed".to_owned())), None)
    }
}

} // verus!
