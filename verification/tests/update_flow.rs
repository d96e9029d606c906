//! Release-feed interpretation, update verdicts, and the streaming
//! install's state machine.

use ytdlp_engine::manager::YtDlpManager;
use ytdlp_engine::updater::{
    compute_update_status, install_progress, install_step, parse_latest_version, InstallAction,
    InstallEvent, InstallState, Updater, UpdaterError,
};
use ytdlp_engine::Platform;

#[test]
fn feed_body_parses_into_version_info() {
    let body = "{\"tag_name\":\"2024.01.01\",\"published_at\":\"2024-01-01T00:00:00Z\",\"html_url\":\"https://github.com/yt-dlp/yt-dlp/releases/tag/2024.01.01\",\"assets\":[]}".to_string();
    let v = parse_latest_version(&body).unwrap();
    assert_eq!(v.tag_name, "2024.01.01");
    assert_eq!(v.published_at, "2024-01-01T00:00:00Z");
    assert_eq!(
        v.html_url,
        "https://github.com/yt-dlp/yt-dlp/releases/tag/2024.01.01"
    );
}

#[test]
fn feed_body_missing_field_is_a_parse_error() {
    let body = "{\"tag_name\":\"2024.01.01\"}".to_string();
    assert!(matches!(parse_latest_version(&body), Err(UpdaterError::ParseError)));
}

#[test]
fn malformed_feed_body_is_a_parse_error() {
    let body = "<html>503</html>".to_string();
    assert!(matches!(parse_latest_version(&body), Err(UpdaterError::ParseError)));
}

#[test]
fn status_not_installed_with_known_latest_wants_update() {
    let s = compute_update_status(false, None, Some("2024.01.01".to_string()));
    assert!(!s.installed);
    assert_eq!(s.current_version, None);
    assert_eq!(s.latest_version, Some("2024.01.01".to_string()));
    assert!(s.update_available);
}

#[test]
fn status_equal_versions_wants_no_update() {
    let s = compute_update_status(
        true,
        Some("2024.01.01".to_string()),
        Some("2024.01.01".to_string()),
    );
    assert!(!s.update_available);
}

#[test]
fn status_differing_versions_wants_update() {
    let s = compute_update_status(
        true,
        Some("2023.12.30".to_string()),
        Some("2024.01.01".to_string()),
    );
    assert!(s.update_available);
}

#[test]
fn status_with_unknown_latest_wants_no_update() {
    let s = compute_update_status(true, Some("2023.12.30".to_string()), None);
    assert!(!s.update_available);
    let s2 = compute_update_status(false, None, None);
    assert!(!s2.update_available);
}

#[test]
fn status_installed_with_unknown_current_wants_no_update() {
    let s = compute_update_status(true, None, Some("2024.01.01".to_string()));
    assert!(s.installed);
    assert_eq!(s.current_version, None);
    assert!(!s.update_available);
}

#[test]
fn install_plan_uses_platform_paths() {
    let m = YtDlpManager::new("/base/bin".to_string(), Platform::LinuxX64);
    let u = Updater::new(m);
    let plan = u.plan_install();
    assert_eq!(
        plan.url,
        "https://github.com/yt-dlp/yt-dlp/releases/latest/download/yt-dlp_linux"
    );
    assert_eq!(plan.dest_path, "/base/bin/yt-dlp");
    assert_eq!(plan.temp_path, "/base/bin/yt-dlp.tmp");
}

#[test]
fn install_plan_on_windows_keeps_tmp_suffix() {
    let m = YtDlpManager::new("C:\\d\\bin".to_string(), Platform::Windows);
    let u = Updater::new(m);
    let plan = u.plan_install();
    assert_eq!(plan.dest_path, "C:\\d\\bin\\yt-dlp.exe");
    assert_eq!(plan.temp_path, "C:\\d\\bin\\yt-dlp.tmp");
}

#[test]
fn progress_percentage_in_hundredths() {
    let ev = install_progress(50, Some(200));
    assert_eq!(ev.downloaded, 50);
    assert_eq!(ev.total, Some(200));
    assert_eq!(ev.percentage, Some(2500));
}

#[test]
fn progress_without_total_has_no_percentage() {
    assert_eq!(install_progress(1024, None).percentage, None);
    assert_eq!(install_progress(1024, Some(0)).percentage, None);
}

#[test]
fn progress_beyond_declared_total_exceeds_full() {
    assert_eq!(install_progress(300, Some(200)).percentage, Some(15000));
}

#[test]
fn chunks_accumulate_and_report() {
    let s0 = InstallState::Streaming { downloaded: 0, total: Some(100) };
    let (s1, a1, ev1) = install_step(&s0, &InstallEvent::Chunk { len: 30 });
    assert_eq!(a1, InstallAction::WriteTemp);
    assert_eq!(ev1.unwrap().percentage, Some(3000));
    let (s2, a2, ev2) = install_step(&s1, &InstallEvent::Chunk { len: 70 });
    assert_eq!(a2, InstallAction::WriteTemp);
    assert_eq!(ev2.unwrap().percentage, Some(10000));
    let (s3, a3, ev3) = install_step(&s2, &InstallEvent::Finished);
    assert_eq!(s3, InstallState::Done);
    assert_eq!(a3, InstallAction::Promote);
    assert!(ev3.is_none());
}

#[test]
fn interrupted_stream_never_promotes() {
    let mut state = InstallState::Streaming { downloaded: 0, total: Some(100) };
    let events = [
        InstallEvent::Chunk { len: 30 },
        InstallEvent::Chunk { len: 20 },
        InstallEvent::Failed,
    ];
    for e in events.iter() {
        let (next, action, _) = install_step(&state, e);
        assert_ne!(action, InstallAction::Promote);
        state = next;
    }
    assert_eq!(state, InstallState::Aborted);
}

#[test]
fn aborted_install_stays_aborted() {
    let (s, a, ev) = install_step(&InstallState::Aborted, &InstallEvent::Finished);
    assert_eq!(s, InstallState::Aborted);
    assert_eq!(a, InstallAction::Idle);
    assert!(ev.is_none());
}

#[test]
fn updater_error_messages() {
    assert_eq!(
        UpdaterError::ParseError.message(),
        "Failed to parse version info"
    );
    assert_eq!(
        UpdaterError::RequestError("timeout".to_string()).message(),
        "HTTP request failed: timeout"
    );
}

#[test]
fn feed_endpoint_and_client_header() {
    assert_eq!(
        ytdlp_engine::updater::release_feed_url(),
        "https://api.github.com/repos/yt-dlp/yt-dlp/releases/latest"
    );
    assert_eq!(ytdlp_engine::updater::client_user_agent(), "yt-dlp-gui");
}
