//! The progress-line classifier, rule by rule.

use ytdlp_engine::progress::classify;

#[test]
fn progress_line_with_speed_and_eta() {
    let line = "[download]  42.5% of ~ 3.4MiB at 1.2MiB/s ETA 00:12".to_string();
    let ev = classify(&line).unwrap();
    assert_eq!(ev.status, "downloading");
    assert_eq!(ev.percentage, Some(4250));
    assert_eq!(ev.speed, Some("1.2MiB/s".to_string()));
    assert_eq!(ev.eta, Some("00:12".to_string()));
    assert_eq!(ev.filename, None);
}

#[test]
fn progress_line_without_speed_or_eta() {
    let line = "[download] 100% of 10.00MiB".to_string();
    let ev = classify(&line).unwrap();
    assert_eq!(ev.status, "downloading");
    assert_eq!(ev.percentage, Some(10000));
    assert_eq!(ev.speed, None);
    assert_eq!(ev.eta, None);
}

#[test]
fn progress_line_with_speed_only() {
    let line = "[download]   7.0% of 120.5MiB at 800.1KiB/s".to_string();
    let ev = classify(&line).unwrap();
    assert_eq!(ev.status, "downloading");
    assert_eq!(ev.percentage, Some(700));
    assert_eq!(ev.speed, Some("800.1KiB/s".to_string()));
    assert_eq!(ev.eta, None);
}

#[test]
fn progress_percentage_truncates_beyond_hundredths() {
    let line = "[download] 42.579% of 1MiB".to_string();
    let ev = classify(&line).unwrap();
    assert_eq!(ev.percentage, Some(4257));
}

#[test]
fn progress_with_unrepresentable_numeral_keeps_line_but_drops_percentage() {
    let line = "[download] 999999999999999999999% of 1MiB".to_string();
    let ev = classify(&line).unwrap();
    assert_eq!(ev.status, "downloading");
    assert_eq!(ev.percentage, None);
}

#[test]
fn progress_numeral_beyond_hundred_is_reported_as_is() {
    let line = "[download] 250% of 1MiB".to_string();
    let ev = classify(&line).unwrap();
    assert_eq!(ev.status, "downloading");
    assert_eq!(ev.percentage, Some(25000));
}

#[test]
fn extraction_marker_youtube_prefix() {
    let line = "[youtube] dQw4w9WgXcQ: Downloading webpage".to_string();
    let ev = classify(&line).unwrap();
    assert_eq!(ev.status, "extracting");
    assert_eq!(ev.percentage, Some(0));
}

#[test]
fn extraction_marker_info_prefix() {
    let line = "[info] Writing video metadata".to_string();
    let ev = classify(&line).unwrap();
    assert_eq!(ev.status, "extracting");
}

#[test]
fn extraction_marker_inside_line() {
    let line = "now Extracting URL details".to_string();
    let ev = classify(&line).unwrap();
    assert_eq!(ev.status, "extracting");
}

#[test]
fn destination_marker_yields_trimmed_filename() {
    let line = "[download] Destination:   /tmp/out/My Video.mp4  ".to_string();
    let ev = classify(&line).unwrap();
    assert_eq!(ev.status, "starting");
    assert_eq!(ev.percentage, Some(0));
    assert_eq!(ev.filename, Some("/tmp/out/My Video.mp4".to_string()));
}

#[test]
fn merger_marker_yields_processing() {
    let line = "[Merger] Merging formats into \"clip.mp4\"".to_string();
    let ev = classify(&line).unwrap();
    assert_eq!(ev.status, "processing");
    assert_eq!(ev.percentage, Some(10000));
}

#[test]
fn extract_audio_marker_yields_processing() {
    let line = "[ExtractAudio] Destination: song.mp3".to_string();
    let ev = classify(&line).unwrap();
    assert_eq!(ev.status, "processing");
}

#[test]
fn unrecognized_line_yields_nothing() {
    let line = "Deleting original file clip.f137.mp4 (pass -k to keep)".to_string();
    assert!(classify(&line).is_none());
}

#[test]
fn empty_line_yields_nothing() {
    assert!(classify(&String::new()).is_none());
}

#[test]
fn extraction_wins_over_progress_pattern() {
    let line = "[youtube] note [download] 50% of 1MiB".to_string();
    let ev = classify(&line).unwrap();
    assert_eq!(ev.status, "extracting");
}

#[test]
fn destination_line_is_not_a_progress_match() {
    let line = "[download] Destination: clip.mp4".to_string();
    let ev = classify(&line).unwrap();
    assert_eq!(ev.status, "starting");
}
