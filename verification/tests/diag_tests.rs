use cdrip::diag::DiagnosticsBuffer;
use cdrip::diag::split_lines;

#[test]
fn split_lines_matches_line_endings() {
    assert_eq!(split_lines(""), Vec::<String>::new());
    assert_eq!(split_lines("one"), vec!["one"]);
    assert_eq!(split_lines("one\ntwo"), vec!["one", "two"]);
    assert_eq!(split_lines("one\ntwo\n"), vec!["one", "two"]);
    assert_eq!(split_lines("one\r\ntwo\r\n"), vec!["one", "two"]);
    assert_eq!(split_lines("\n\n"), vec!["", ""]);
    assert_eq!(split_lines("a\r"), vec!["a\r"]);
}

#[test]
fn drain_yields_what_was_recorded() {
    let mut buffer = DiagnosticsBuffer::new();
    buffer.record(Some("scratch at sector 42".to_string()), Some("retrying".to_string()));
    let (error_text, message_text) = buffer.drain();
    assert_eq!(error_text.as_deref(), Some("scratch at sector 42"));
    assert_eq!(message_text.as_deref(), Some("retrying"));
}

#[test]
fn draining_twice_yields_nothing_the_second_time() {
    let mut buffer = DiagnosticsBuffer::new();
    buffer.record(Some("jitter".to_string()), Some("seek\nslipped".to_string()));
    let first = buffer.drain();
    assert!(first.0.is_some() && first.1.is_some());
    let second = buffer.drain();
    assert_eq!(second, (None, None));
}

#[test]
fn a_fresh_buffer_drains_empty() {
    let mut buffer = DiagnosticsBuffer::new();
    assert_eq!(buffer.drain(), (None, None));
}

#[test]
fn multi_line_diagnostics_become_one_record_per_line() {
    let mut buffer = DiagnosticsBuffer::new();
    buffer.record(Some("bad sector\nretried ok".to_string()), None);
    let (error_text, message_text) = buffer.drain();
    assert_eq!(split_lines(&error_text.unwrap()), vec!["bad sector", "retried ok"]);
    assert_eq!(message_text, None);
}
