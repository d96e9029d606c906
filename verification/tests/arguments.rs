//! Argument vectors built from download requests.

use ytdlp_engine::downloader::{
    build_download_args, build_info_args, finish_download, AudioFormat, DownloadMode,
    DownloadOptions, DownloaderError, VideoContainer, VideoQuality,
};
use ytdlp_engine::requests::StartDownloadRequest;
use ytdlp_engine::Platform;

fn video_request() -> DownloadOptions {
    DownloadOptions {
        url: "https://example.com/watch?v=1".to_string(),
        output_dir: "/home/user/Downloads".to_string(),
        mode: DownloadMode::Video {
            quality: VideoQuality::P720,
            container: VideoContainer::Mp4,
        },
        embed_subs: true,
        playlist_items: Some(vec![1, 2, 5]),
    }
}

#[test]
fn video_720_mp4_full_vector() {
    let ffmpeg = Some("/base/bin/ffmpeg".to_string());
    let args = build_download_args(&video_request(), &ffmpeg, Platform::LinuxX64);
    let expected: Vec<String> = [
        "--progress",
        "--newline",
        "--force-progress",
        "-o",
        "/home/user/Downloads/%(title)s.%(ext)s",
        "-f",
        "bv*[height<=720]+ba/b",
        "--merge-output-format",
        "mp4",
        "--write-subs",
        "--embed-subs",
        "--playlist-items",
        "1,2,5",
        "--ffmpeg-location",
        "/base/bin/ffmpeg",
        "https://example.com/watch?v=1",
    ]
    .iter()
    .map(|s| s.to_string())
    .collect();
    assert_eq!(args, expected);
}

#[test]
fn video_720_mp4_has_height_selector_and_merge_format() {
    let args = build_download_args(&video_request(), &None, Platform::LinuxX64);
    let f = args.iter().position(|a| a == "-f").unwrap();
    assert_eq!(args[f + 1], "bv*[height<=720]+ba/b");
    let m = args.iter().position(|a| a == "--merge-output-format").unwrap();
    assert_eq!(args[m + 1], "mp4");
}

#[test]
fn audio_flac_has_extraction_and_no_format_selector() {
    let opts = DownloadOptions {
        url: "https://example.com/watch?v=2".to_string(),
        output_dir: "/tmp/music".to_string(),
        mode: DownloadMode::Audio { format: AudioFormat::Flac },
        embed_subs: false,
        playlist_items: None,
    };
    let args = build_download_args(&opts, &None, Platform::LinuxX64);
    assert!(args.iter().any(|a| a == "-x"));
    let i = args.iter().position(|a| a == "--audio-format").unwrap();
    assert_eq!(args[i + 1], "flac");
    assert!(args.iter().all(|a| a != "-f"));
    assert!(args.iter().all(|a| a != "--merge-output-format"));
}

#[test]
fn quality_selectors_by_variant() {
    assert_eq!(VideoQuality::Best.to_format_string(), "bv*+ba/b");
    assert_eq!(VideoQuality::P720.to_format_string(), "bv*[height<=720]+ba/b");
    assert_eq!(VideoQuality::P480.to_format_string(), "bv*[height<=480]+ba/b");
}

#[test]
fn info_args_ask_for_json_lines_without_download() {
    let args = build_info_args(&"https://example.com/watch?v=3".to_string());
    let expected: Vec<String> = [
        "--dump-json",
        "--flat-playlist",
        "--no-warnings",
        "--no-download",
        "https://example.com/watch?v=3",
    ]
    .iter()
    .map(|s| s.to_string())
    .collect();
    assert_eq!(args, expected);
}

#[test]
fn windows_output_template_uses_backslash() {
    let opts = DownloadOptions {
        output_dir: "C:\\Users\\u\\Downloads".to_string(),
        ..video_request()
    };
    let args = build_download_args(&opts, &None, Platform::Windows);
    assert_eq!(args[4], "C:\\Users\\u\\Downloads\\%(title)s.%(ext)s");
}

#[test]
fn finish_success_yields_dir_and_completed_event() {
    let (r, ev) = finish_download(true, &"/tmp/out".to_string());
    assert_eq!(r.unwrap(), "/tmp/out");
    let ev = ev.unwrap();
    assert_eq!(ev.status, "completed");
    assert_eq!(ev.percentage, Some(10000));
}

#[test]
fn finish_failure_yields_error_and_no_event() {
    let (r, ev) = finish_download(false, &"/tmp/out".to_string());
    match r {
        Err(DownloaderError::DownloadFailed(m)) => assert_eq!(m, "Download process failed"),
        other => panic!("unexpected: {:?}", other),
    }
    assert!(ev.is_none());
}

#[test]
fn request_with_audio_tag_resolves_to_audio_mode() {
    let req = StartDownloadRequest {
        url: "u".to_string(),
        output_dir: "d".to_string(),
        video_quality: Some("720p".to_string()),
        video_container: None,
        audio_format: Some("flac".to_string()),
        embed_subs: false,
        playlist_items: None,
    };
    let opts = req.to_options();
    assert_eq!(opts.mode, DownloadMode::Audio { format: AudioFormat::Flac });
}

#[test]
fn unknown_audio_tag_defaults_to_mp3() {
    let req = StartDownloadRequest {
        url: "u".to_string(),
        output_dir: "d".to_string(),
        video_quality: None,
        video_container: None,
        audio_format: Some("ogg".to_string()),
        embed_subs: false,
        playlist_items: None,
    };
    assert_eq!(req.to_options().mode, DownloadMode::Audio { format: AudioFormat::Mp3 });
}

#[test]
fn video_tags_resolve_with_defaults() {
    let req = StartDownloadRequest {
        url: "u".to_string(),
        output_dir: "d".to_string(),
        video_quality: Some("480p".to_string()),
        video_container: Some("webm".to_string()),
        audio_format: None,
        embed_subs: true,
        playlist_items: Some(vec![3]),
    };
    let opts = req.to_options();
    assert_eq!(
        opts.mode,
        DownloadMode::Video { quality: VideoQuality::P480, container: VideoContainer::Webm }
    );
    let req2 = StartDownloadRequest {
        url: "u".to_string(),
        output_dir: "d".to_string(),
        video_quality: Some("4k".to_string()),
        video_container: Some("avi".to_string()),
        audio_format: None,
        embed_subs: false,
        playlist_items: None,
    };
    let opts2 = req2.to_options();
    assert_eq!(
        opts2.mode,
        DownloadMode::Video { quality: VideoQuality::Best, container: VideoContainer::Mp4 }
    );
}

#[test]
fn downloader_error_messages() {
    assert_eq!(
        DownloaderError::BinaryNotFound.message(),
        "yt-dlp binary not found. Please install yt-dlp first."
    );
    assert_eq!(
        DownloaderError::DownloadFailed("x".to_string()).message(),
        "Download failed: x"
    );
    assert_eq!(
        DownloaderError::JsonError("bad".to_string()).message(),
        "JSON parse error: bad"
    );
}
