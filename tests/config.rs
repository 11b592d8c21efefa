use meshcore_cli::clock::{current_timestamp, format_time_ago, timestamp_from};
use meshcore_cli::config::{join_path, script_lines, Config};
use meshcore_cli::display::{Display, OutputMode};

#[test]
fn test_config_dir() {
    let dir = Config::config_dir();
    assert!(dir.is_some());
    let path = dir.unwrap();
    assert!(path.contains("meshcore"));
}

#[test]
fn test_history_file() {
    let path = Config::history_file();
    assert!(path.is_some());
    assert!(path.unwrap().ends_with("history"));
}

#[test]
fn test_init_file() {
    let path = Config::init_file();
    assert!(path.is_some());
    assert!(path.unwrap().ends_with("init"));
}

#[test]
fn test_device_init_file() {
    let path = Config::device_init_file("mydevice");
    assert!(path.is_some());
    assert!(path.unwrap().ends_with("mydevice.init"));
}

#[test]
fn paths_join_like_unix() {
    assert_eq!(join_path("/home/u/.config/meshcore", "init"), "/home/u/.config/meshcore/init");
    assert_eq!(join_path("/tmp/", "history"), "/tmp/history");
    assert_eq!(join_path("", "init"), "init");
}

#[test]
fn script_lines_skip_comments_and_blanks() {
    let text = "  infos \n\n# comment\n\tver\r\n  # another\nto Bob";
    assert_eq!(script_lines(text), vec!["infos".to_string(), "ver".to_string(), "to Bob".to_string()]);
    assert!(script_lines("").is_empty());
    assert!(script_lines("\n\n").is_empty());
}

#[test]
fn display_settings() {
    assert!(Display::new(true, false).is_json());
    assert!(!Display::new(false, true).is_json());
    let d = Display::default();
    assert_eq!(d.mode, OutputMode::Human);
    assert!(d.color);
}

#[test]
fn timestamps() {
    assert_eq!(timestamp_from(None), 0);
    assert_eq!(timestamp_from(Some(5)), 5);
    assert_eq!(timestamp_from(Some(1 << 40)), u32::MAX);
    assert!(current_timestamp() > 1_600_000_000);
}

#[test]
fn test_format_time_ago_seconds() {
    assert_eq!(format_time_ago(0), "0s ago");
    assert_eq!(format_time_ago(30), "30s ago");
    assert_eq!(format_time_ago(59), "59s ago");
}

#[test]
fn test_format_time_ago_minutes() {
    assert_eq!(format_time_ago(60), "1m ago");
    assert_eq!(format_time_ago(120), "2m ago");
    assert_eq!(format_time_ago(3599), "59m ago");
}

#[test]
fn test_format_time_ago_hours() {
    assert_eq!(format_time_ago(3600), "1h ago");
    assert_eq!(format_time_ago(7200), "2h ago");
    assert_eq!(format_time_ago(86399), "23h ago");
}

#[test]
fn test_format_time_ago_days() {
    assert_eq!(format_time_ago(86_400), "1d ago");
    assert_eq!(format_time_ago(172_800), "2d ago");
    assert_eq!(format_time_ago(604_800), "7d ago");
}

#[test]
fn test_format_time_ago_negative() {
    assert_eq!(format_time_ago(-1), "unknown");
    assert_eq!(format_time_ago(-100), "unknown");
}

#[test]
fn numbered_script_lines_keep_file_lines() {
    let text = "# setup\ninfos\n\n  to Bob \n";
    let lines = meshcore_cli::config::numbered_script_lines(text);
    assert_eq!(lines.len(), 2);
    assert_eq!((lines[0].line, lines[0].text.as_str()), (2, "infos"));
    assert_eq!((lines[1].line, lines[1].text.as_str()), (4, "to Bob"));
}
