use keylogger::devices::{device_paths, paths_from_lines};

#[test]
fn paths_of_each_line() {
    assert_eq!(
        paths_from_lines("event3\nevent5"),
        vec!["/dev/input/event3".to_string(), "/dev/input/event5".to_string()]
    );
}

#[test]
fn trailing_newline_gives_empty_piece() {
    assert_eq!(
        paths_from_lines("event3\n"),
        vec!["/dev/input/event3".to_string(), "/dev/input/".to_string()]
    );
}

#[test]
fn empty_text_names_no_device() {
    assert!(paths_from_lines("").is_empty());
}

#[test]
fn detection_output_is_trimmed() {
    assert_eq!(
        device_paths("  event3\nevent5\n"),
        vec!["/dev/input/event3".to_string(), "/dev/input/event5".to_string()]
    );
    assert_eq!(device_paths("event2\n"), vec!["/dev/input/event2".to_string()]);
    assert!(device_paths("\n").is_empty());
    assert!(device_paths("").is_empty());
    assert!(device_paths("  \t\n").is_empty());
}
