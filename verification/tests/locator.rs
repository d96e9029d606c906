//! Binary location, install probes and version-output handling.

use ytdlp_engine::downloader::{Downloader, DownloaderError};
use ytdlp_engine::manager::{ManagerError, YtDlpManager};
use ytdlp_engine::Platform;

#[test]
fn unix_paths_join_with_slash() {
    let m = YtDlpManager::new("/base/bin".to_string(), Platform::LinuxX64);
    assert_eq!(m.get_bin_dir(), "/base/bin");
    assert_eq!(m.get_ytdlp_path(), "/base/bin/yt-dlp");
    assert_eq!(m.get_ffmpeg_path(), "/base/bin/ffmpeg");
}

#[test]
fn windows_paths_join_with_backslash_and_exe() {
    let m = YtDlpManager::new("C:\\data\\bin".to_string(), Platform::Windows);
    assert_eq!(m.get_ytdlp_path(), "C:\\data\\bin\\yt-dlp.exe");
    assert_eq!(m.get_ffmpeg_path(), "C:\\data\\bin\\ffmpeg.exe");
}

#[test]
fn probes_report_missing_binaries() {
    let m = YtDlpManager::new(
        "/nonexistent-ytdlp-engine-test-dir/bin".to_string(),
        Platform::LinuxX64,
    );
    assert!(!m.is_ytdlp_installed());
    assert!(!m.is_ffmpeg_installed());
}

#[test]
fn download_without_binary_fails_before_anything_else() {
    let m = YtDlpManager::new(
        "/nonexistent-ytdlp-engine-test-dir/bin".to_string(),
        Platform::LinuxX64,
    );
    let d = Downloader::new(m);
    let opts = ytdlp_engine::downloader::DownloadOptions {
        url: "https://example.com/watch?v=1".to_string(),
        output_dir: "/tmp/out".to_string(),
        mode: ytdlp_engine::downloader::DownloadMode::Audio {
            format: ytdlp_engine::downloader::AudioFormat::Mp3,
        },
        embed_subs: false,
        playlist_items: None,
    };
    match d.begin_download(&opts) {
        Err(DownloaderError::BinaryNotFound) => {},
        other => panic!("unexpected: {:?}", other.map(|p| p.args)),
    }
    match d.begin_info(&"https://example.com".to_string()) {
        Err(DownloaderError::BinaryNotFound) => {},
        other => panic!("unexpected: {:?}", other.map(|p| p.1)),
    }
}

#[test]
fn plan_download_fails_exactly_when_not_installed() {
    let m = YtDlpManager::new("/base/bin".to_string(), Platform::LinuxX64);
    let d = Downloader::new(m);
    let opts = ytdlp_engine::downloader::DownloadOptions {
        url: "https://example.com/watch?v=9".to_string(),
        output_dir: "/tmp/out".to_string(),
        mode: ytdlp_engine::downloader::DownloadMode::Audio {
            format: ytdlp_engine::downloader::AudioFormat::Mp3,
        },
        embed_subs: false,
        playlist_items: None,
    };
    match d.plan_download(false, &None, &opts) {
        Err(DownloaderError::BinaryNotFound) => {},
        other => panic!("unexpected: {:?}", other.map(|p| p.args)),
    }
    let plan = d.plan_download(true, &None, &opts).unwrap();
    assert_eq!(plan.binary, "/base/bin/yt-dlp");
    assert_eq!(plan.initial_event.status, "starting");
    assert_eq!(plan.initial_event.percentage, Some(0));
    assert_eq!(plan.args.last().unwrap(), "https://example.com/watch?v=9");
}

#[test]
fn plan_info_fails_exactly_when_not_installed() {
    let m = YtDlpManager::new("/base/bin".to_string(), Platform::LinuxX64);
    let d = Downloader::new(m);
    let url = "https://example.com/watch?v=9".to_string();
    match d.plan_info(false, &url) {
        Err(DownloaderError::BinaryNotFound) => {},
        other => panic!("unexpected: {:?}", other.map(|p| p.1)),
    }
    let (binary, args) = d.plan_info(true, &url).unwrap();
    assert_eq!(binary, "/base/bin/yt-dlp");
    assert_eq!(args[0], "--dump-json");
    assert_eq!(args.last().unwrap(), &url);
}

#[test]
fn version_query_without_binary_fails_with_not_found() {
    let r = YtDlpManager::resolve_version_query(false, true, &"ignored".to_string(), &String::new());
    assert!(matches!(r, Err(ManagerError::BinaryNotFound)));
}

#[test]
fn version_query_with_binary_defers_to_the_outcome() {
    let r = YtDlpManager::resolve_version_query(true, true, &"2024.01.01\n".to_string(), &String::new());
    assert_eq!(r.unwrap(), "2024.01.01");
    let r2 = YtDlpManager::resolve_version_query(true, false, &String::new(), &"oops".to_string());
    match r2 {
        Err(ManagerError::ExecutionError(m)) => assert_eq!(m, "oops"),
        other => panic!("unexpected: {:?}", other),
    }
}

#[test]
fn version_output_is_trimmed_on_success() {
    let r = YtDlpManager::parse_version_output(
        true,
        &" 2024.01.01\n".to_string(),
        &String::new(),
    );
    assert_eq!(r.unwrap(), "2024.01.01");
}

#[test]
fn version_failure_carries_stderr() {
    let r = YtDlpManager::parse_version_output(
        false,
        &String::new(),
        &"cannot run".to_string(),
    );
    match r {
        Err(ManagerError::ExecutionError(m)) => assert_eq!(m, "cannot run"),
        other => panic!("unexpected: {:?}", other),
    }
}

#[test]
fn artifact_urls_by_platform() {
    let (url, name) = YtDlpManager::get_download_url(Platform::LinuxX64);
    assert_eq!(
        url,
        "https://github.com/yt-dlp/yt-dlp/releases/latest/download/yt-dlp_linux"
    );
    assert_eq!(name, "yt-dlp");
    let (wurl, wname) = YtDlpManager::get_download_url(Platform::Windows);
    assert_eq!(
        wurl,
        "https://github.com/yt-dlp/yt-dlp/releases/latest/download/yt-dlp.exe"
    );
    assert_eq!(wname, "yt-dlp.exe");
    let (murl, mname) = YtDlpManager::get_download_url(Platform::MacArm);
    assert_eq!(
        murl,
        "https://github.com/yt-dlp/yt-dlp/releases/latest/download/yt-dlp_macos"
    );
    assert_eq!(mname, "yt-dlp");
}

#[test]
fn muxer_urls_by_platform() {
    assert_eq!(
        YtDlpManager::get_ffmpeg_download_url(Platform::MacIntel),
        Some("https://evermeet.cx/ffmpeg/getrelease/zip")
    );
    assert_eq!(
        YtDlpManager::get_ffmpeg_download_url(Platform::Windows),
        Some("https://www.gyan.dev/ffmpeg/builds/ffmpeg-release-essentials.zip")
    );
    assert_eq!(YtDlpManager::get_ffmpeg_download_url(Platform::LinuxX64), None);
}

#[test]
fn manager_error_messages() {
    assert_eq!(
        ManagerError::NoAppDataDir.message(),
        "Failed to get app data directory"
    );
    assert_eq!(
        ManagerError::ExecutionError("e".to_string()).message(),
        "Failed to execute yt-dlp: e"
    );
}

#[test]
fn downloader_hands_back_its_manager() {
    let m = YtDlpManager::new("/base/bin".to_string(), Platform::LinuxX64);
    let d = Downloader::new(m);
    assert_eq!(d.get_manager().get_bin_dir(), "/base/bin");
}
