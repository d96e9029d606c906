//! Interpreting the downloader's metadata output.

use ytdlp_engine::downloader::{parse_info_output, DownloaderError};

#[test]
fn failed_run_surfaces_stderr() {
    let r = parse_info_output(false, &String::new(), &"boom".to_string());
    match r {
        Err(DownloaderError::ExecutionError(m)) => assert_eq!(m, "boom"),
        other => panic!("unexpected: {:?}", other),
    }
}

#[test]
fn empty_output_is_an_error() {
    let r = parse_info_output(true, &String::new(), &String::new());
    match r {
        Err(DownloaderError::ExecutionError(m)) => assert_eq!(m, "No output from yt-dlp"),
        other => panic!("unexpected: {:?}", other),
    }
}

#[test]
fn single_item_line() {
    let body = "{\"id\":\"v1\",\"title\":\"A Video\",\"duration\":212,\"thumbnail\":\"http://t/1.jpg\",\"uploader\":\"Someone\"}".to_string();
    let info = parse_info_output(true, &body, &String::new()).unwrap();
    assert_eq!(info.id, "v1");
    assert_eq!(info.title, "A Video");
    assert_eq!(info.duration, Some(212));
    assert_eq!(info.thumbnail, Some("http://t/1.jpg".to_string()));
    assert_eq!(info.description, None);
    assert_eq!(info.uploader, Some("Someone".to_string()));
    assert!(!info.is_playlist);
    assert_eq!(info.playlist_count, None);
    assert!(info.entries.is_none());
}

#[test]
fn single_item_missing_fields_fall_back() {
    let body = "{}".to_string();
    let info = parse_info_output(true, &body, &String::new()).unwrap();
    assert_eq!(info.id, "");
    assert_eq!(info.title, "Unknown");
    assert_eq!(info.duration, None);
}

#[test]
fn single_malformed_line_is_a_json_error() {
    let body = "this is not json".to_string();
    let r = parse_info_output(true, &body, &String::new());
    match r {
        Err(DownloaderError::JsonError(m)) => assert!(!m.is_empty()),
        other => panic!("unexpected: {:?}", other),
    }
}

#[test]
fn playlist_reference_expands_two_entries_in_order() {
    let body = "{\"_type\":\"playlist\",\"id\":\"pl1\",\"title\":\"My List\",\"entries\":[{\"id\":\"a\",\"title\":\"First\",\"duration\":100},{\"id\":\"b\",\"title\":\"Second\"}]}".to_string();
    let info = parse_info_output(true, &body, &String::new()).unwrap();
    assert!(info.is_playlist);
    assert_eq!(info.playlist_count, Some(2));
    assert_eq!(info.id, "pl1");
    assert_eq!(info.title, "My List");
    let entries = info.entries.unwrap();
    assert_eq!(entries.len(), 2);
    assert_eq!(entries[0].id, "a");
    assert_eq!(entries[0].title, "First");
    assert_eq!(entries[0].duration, Some(100));
    assert_eq!(entries[1].id, "b");
    assert_eq!(entries[1].title, "Second");
    assert_eq!(entries[1].duration, None);
}

#[test]
fn playlist_reference_skips_entries_without_id() {
    let body = "{\"_type\":\"playlist\",\"entries\":[{\"title\":\"NoId\"},{\"id\":\"c\",\"title\":\"Has Id\"}]}".to_string();
    let info = parse_info_output(true, &body, &String::new()).unwrap();
    assert_eq!(info.playlist_count, Some(1));
    assert_eq!(info.id, "playlist");
    assert_eq!(info.title, "Playlist");
    let entries = info.entries.unwrap();
    assert_eq!(entries[0].id, "c");
}

#[test]
fn multiple_lines_form_a_playlist_skipping_malformed() {
    let body = "{\"id\":\"x\",\"title\":\"X\"}\nnot json at all\n{\"id\":\"y\"}\n".to_string();
    let info = parse_info_output(true, &body, &String::new()).unwrap();
    assert!(info.is_playlist);
    assert_eq!(info.id, "playlist");
    assert_eq!(info.playlist_count, Some(2));
    let entries = info.entries.unwrap();
    assert_eq!(entries.len(), 2);
    assert_eq!(entries[0].id, "x");
    assert_eq!(entries[0].title, "X");
    assert_eq!(entries[1].id, "y");
    assert_eq!(entries[1].title, "Unknown");
}

#[test]
fn multi_line_entry_count_equals_parsed_lines() {
    let body = "{\"id\":\"1\"}\n{\"id\":\"2\"}\n{\"id\":\"3\"}".to_string();
    let info = parse_info_output(true, &body, &String::new()).unwrap();
    assert_eq!(info.playlist_count, Some(3));
}

#[test]
fn windows_line_endings_are_handled() {
    let body = "{\"id\":\"1\"}\r\n{\"id\":\"2\"}\r\n".to_string();
    let info = parse_info_output(true, &body, &String::new()).unwrap();
    assert_eq!(info.playlist_count, Some(2));
}
