use whisper_relay::progress::classify_line;
use whisper_relay::progress::LineEvent;
use whisper_relay::text::contains_str;
use whisper_relay::text::remove_all_str;
use whisper_relay::text::starts_with_str;

#[test]
fn prefix_detection() {
    assert!(starts_with_str("PROJECT_DIR:/tmp/out", "PROJECT_DIR:"));
    assert!(!starts_with_str(" PROJECT_DIR:/tmp/out", "PROJECT_DIR:"));
    assert!(!starts_with_str("PROJECT_DIR", "PROJECT_DIR:"));
    assert!(starts_with_str("", ""));
}

#[test]
fn substring_detection() {
    assert!(contains_str("12:01 Loading Whisper model (small)", "Loading Whisper model"));
    assert!(!contains_str("Loading Whisper mode", "Loading Whisper model"));
    assert!(contains_str("abc", ""));
    assert!(!contains_str("ab", "abc"));
    assert!(contains_str("xxabcyy", "abc"));
}

#[test]
fn removal_of_every_occurrence() {
    assert_eq!(remove_all_str("PROJECT_DIR:/tmp/out", "PROJECT_DIR:"), "/tmp/out");
    assert_eq!(remove_all_str("aXbXc", "X"), "abc");
    assert_eq!(remove_all_str("PROJECT_DIR:xPROJECT_DIR:y", "PROJECT_DIR:"), "xy");
    assert_eq!(remove_all_str("aaa", "aa"), "a");
    assert_eq!(remove_all_str("", "zz"), "");
    assert_eq!(remove_all_str("short", "longerpattern"), "short");
}

#[test]
fn project_dir_line() {
    match classify_line("PROJECT_DIR:public/project_42") {
        LineEvent::ProjectDir { dir } => assert_eq!(dir, "public/project_42"),
        _ => panic!("expected a project directory event"),
    }
}

#[test]
fn project_dir_takes_precedence_over_markers() {
    match classify_line("PROJECT_DIR:Transcribing audio") {
        LineEvent::ProjectDir { dir } => assert_eq!(dir, "Transcribing audio"),
        _ => panic!("expected a project directory event"),
    }
}

#[test]
fn stage_markers_map_to_progress_messages() {
    let cases = [
        ("[info] Loading Whisper model: small", "Loading model..."),
        ("Transcribing audio now", "Transcribing..."),
        ("step 3/4: Aligning words", "Aligning words..."),
        ("Pipeline complete in 12s", "Complete!"),
    ];
    for (line, expected) in cases {
        match classify_line(line) {
            LineEvent::Progress { message } => assert_eq!(message, expected),
            _ => panic!("expected a progress event for {line:?}"),
        }
    }
}

#[test]
fn first_marker_in_fixed_order_decides() {
    match classify_line("Pipeline complete; Loading Whisper model again") {
        LineEvent::Progress { message } => assert_eq!(message, "Loading model..."),
        _ => panic!("expected a progress event"),
    }
}

#[test]
fn unmarked_lines_are_ignored() {
    assert!(matches!(classify_line("downloading weights"), LineEvent::Ignore));
    assert!(matches!(classify_line(""), LineEvent::Ignore));
    assert!(matches!(classify_line("project_dir: lower case"), LineEvent::Ignore));
}
