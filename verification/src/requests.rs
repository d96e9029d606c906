//! The host application's command surface: the loosely-typed download
//! request it receives, and how that request resolves into a typed
//! download mode.  Unrecognized tags fall back to documented baselines
//! rather than failing, matching the tolerant behaviour expected of the
//! GUI boundary.

use vstd::prelude::*;
use vstd::string::*;

use crate::downloader::{
    AudioFormat, DownloadMode, DownloadOptions, VideoContainer, VideoQuality,
};
use crate::strutil::view_opt;

verus! {

/// What the host application reports about itself at startup.
#[derive(Debug, Clone, PartialEq)]
pub struct AppStatus {
    pub ytdlp_installed: bool,
    pub ffmpeg_installed: bool,
    pub ytdlp_version: Option<String>,
    pub default_download_dir: String,
}

/// One download request as the host application receives it, with mode
/// choices as loose string tags.
#[derive(Debug, Clone, PartialEq)]
pub struct StartDownloadRequest {
    pub url: String,
    pub output_dir: String,
    pub video_quality: Option<String>,
    pub video_container: Option<String>,
    pub audio_format: Option<String>,
    pub embed_subs: bool,
    pub playlist_items: Option<Vec<usize>>,
}

/// The audio format a tag names; unknown tags default to mp3.
pub open spec fn spec_audio_format_of(tag: Seq<char>) -> AudioFormat {
    if tag == "mp3"@ {
        AudioFormat::Mp3
    } else if tag == "m4a"@ {
        AudioFormat::M4a
    } else if tag == "aac"@ {
        AudioFormat::Aac
    } else if tag == "flac"@ {
        AudioFormat::Flac
    } else if tag == "wav"@ {
        AudioFormat::Wav
    } else {
        AudioFormat::Mp3
    }
}

/// The video quality a tag names; unknown or absent tags default to best.
pub open spec fn spec_quality_of(tag: Option<Seq<char>>) -> VideoQuality {
    match tag {
        Some(t) => if t == "720p"@ {
            VideoQuality::P720
        } else if t == "480p"@ {
            VideoQuality::P480
        } else {
            VideoQuality::Best
        },
        None => VideoQuality::Best,
    }
}

/// The container a tag names; unknown or absent tags default to mp4.
pub open spec fn spec_container_of(tag: Option<Seq<char>>) -> VideoContainer {
    match tag {
        Some(t) => if t == "mkv"@ {
            VideoContainer::Mkv
        } else if t == "webm"@ {
            VideoContainer::Webm
        } else {
            VideoContainer::Mp4
        },
        None => VideoContainer::Mp4,
    }
}

/// The mode a request resolves to: audio when an audio format is named,
/// else video with the named (or default) quality and container.
pub open spec fn spec_mode_of(
    audio: Option<Seq<char>>,
    quality: Option<Seq<char>>,
    container: Option<Seq<char>>,
) -> DownloadMode {
    match audio {
        Some(a) => DownloadMode::Audio { format: spec_audio_format_of(a) },
        None => DownloadMode::Video {
            quality: spec_quality_of(quality),
            container: spec_container_of(container),
        },
    }
}

fn tag_is(a: &String, b: &str) -> (r: bool)
    ensures
        r == (a@ == b@),
{
    a.eq(&String::from_str(b))
}

impl StartDownloadRequest {
    /// Resolves this request into a typed download request, defaulting
    /// every unrecognized tag.
    pub fn to_options(self) -> (r: DownloadOptions)
        ensures
            r.url == self.url,
            r.output_dir == self.output_dir,
            r.embed_subs == self.embed_subs,
            r.playlist_items == self.playlist_items,
            r.mode == spec_mode_of(
                view_opt(self.audio_format),
                view_opt(self.video_quality),
                view_opt(self.video_container),
            ),
    {
        let mode = match &self.audio_format {
            Some(a) => {
                let format = if tag_is(a, "mp3") {
                    AudioFormat::Mp3
                } else if tag_is(a, "m4a") {
                    AudioFormat::M4a
                } else if tag_is(a, "aac") {
                    AudioFormat::Aac
                } else if tag_is(a, "flac") {
                    AudioFormat::Flac
                } else if tag_is(a, "wav") {
                    AudioFormat::Wav
                } else {
                    AudioFormat::Mp3
                };
                DownloadMode::Audio { format }
            },
            None => {
                let quality = match &self.video_quality {
                    Some(q) => {
                        if tag_is(q, "720p") {
                            VideoQuality::P720
                        } else if tag_is(q, "480p") {
                            VideoQuality::P480
                        } else {
                            VideoQuality::Best
                        }
                    },
                    None => VideoQuality::Best,
                };
                let container = match &self.video_container {
                    Some(c) => {
                        if tag_is(c, "mkv") {
                            VideoContainer::Mkv
                        } else if tag_is(c, "webm") {
                            VideoContainer::Webm
                        } else {
                            VideoContainer::Mp4
                        }
                    },
                    None => VideoContainer::Mp4,
                };
                DownloadMode::Video { quality, container }
            },
        };
        DownloadOptions {
            url: self.url,
            output_dir: self.output_dir,
            mode,
            embed_subs: self.embed_subs,
            playlist_items: self.playlist_items,
        }
    }
}

} // verus!
