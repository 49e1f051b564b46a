use jean::tail::{
    after_read, replaced, truncated, AfterRead, LineAssembler, MAX_INCOMPLETE_LINE_BYTES,
    POLL_INTERVAL_MS,
};
use std::time::Duration;

fn feed(t: &mut LineAssembler, segments: &[&str]) -> Vec<String> {
    segments.iter().filter_map(|s| t.push_segment(s)).collect()
}

#[test]
fn test_poll_interval_constant() {
    let poll_interval = Duration::from_millis(POLL_INTERVAL_MS);
    assert_eq!(poll_interval, Duration::from_millis(50));
    assert!(poll_interval >= Duration::from_millis(10));
    assert!(poll_interval <= Duration::from_millis(200));
}

#[test]
fn test_tailer_incomplete_line() {
    let mut t = LineAssembler::new();
    assert!(feed(&mut t, &["{\"type\": \"partial"]).is_empty());
    assert!(t.has_incomplete_data());
    let lines = feed(&mut t, &["}\n"]);
    assert_eq!(lines.len(), 1);
    assert_eq!(lines[0], r#"{"type": "partial}"#);
    assert!(!t.has_incomplete_data());
}

#[test]
fn test_tailer_multiple_lines() {
    let mut t = LineAssembler::new();
    let lines = feed(&mut t, &["{\"type\": \"line1\"}\n", "{\"type\": \"line2\"}\n", "{\"type\": \"line3\"}\n"]);
    assert_eq!(lines.len(), 3);
    assert!(lines[0].contains("line1"));
    assert!(lines[1].contains("line2"));
    assert!(lines[2].contains("line3"));
}

#[test]
fn test_tailer_empty_file() {
    let mut t = LineAssembler::new();
    assert!(feed(&mut t, &[]).is_empty());
    assert!(!t.has_incomplete_data());
}

#[test]
fn test_tailer_very_long_line() {
    let mut t = LineAssembler::new();
    let long_content: String = "x".repeat(100_000);
    let line = format!("{{\"content\": \"{}\"}}\n", long_content);
    let lines = feed(&mut t, &[&line]);
    assert_eq!(lines.len(), 1);
    assert!(lines[0].contains(&long_content));
}

#[test]
fn test_tailer_handles_crlf_line_endings() {
    let mut t = LineAssembler::new();
    let lines = feed(&mut t, &["{\"type\": \"crlf\"}\r\n"]);
    assert_eq!(lines.len(), 1);
    assert!(lines[0].contains(r#""type": "crlf""#));
    assert_eq!(lines[0], r#"{"type": "crlf"}"#);
}

#[test]
fn test_tailer_flush_buffer_returns_final_line() {
    let mut t = LineAssembler::new();
    assert!(feed(&mut t, &["{\"type\":\"partial\"}"]).is_empty());
    assert_eq!(t.flush_buffer().as_deref(), Some(r#"{"type":"partial"}"#));
    assert_eq!(t.flush_buffer(), None);
}

#[test]
fn flush_of_blank_rest_is_none() {
    let mut t = LineAssembler::new();
    assert!(t.push_segment("   ").is_none());
    assert_eq!(t.flush_buffer(), None);
    assert!(!t.has_incomplete_data());
}

#[test]
fn test_tailer_handles_truncation() {
    let mut t = LineAssembler::new();
    let first = format!("{{\"type\":\"first\",\"pad\":\"{}\"}}\n", "x".repeat(512));
    assert_eq!(feed(&mut t, &[&first]).len(), 1);
    // The file was truncated to nothing and a shorter line written: the
    // position read to lies past its end, so it is read again from the start.
    let position = first.len() as u64;
    let new_content = "{\"type\":\"second\"}\n";
    assert!(truncated(new_content.len() as u64, position));
    t.reset();
    let lines = feed(&mut t, &[new_content]);
    assert_eq!(lines.len(), 1);
    assert!(lines[0].contains("second"));
}

#[test]
fn truncation_to_empty_then_new_line_yields_only_it() {
    let mut t = LineAssembler::new();
    let lines = feed(&mut t, &["{\"a\":1}\n", "{\"b\":2}\n"]);
    assert_eq!(lines, vec!["{\"a\":1}", "{\"b\":2}"]);
    assert!(truncated(0, 16));
    assert!(!truncated(16, 16));
    t.reset();
    let lines = feed(&mut t, &["{\"c\":3}\n"]);
    assert_eq!(lines, vec!["{\"c\":3}"]);
}

#[test]
fn round_trip_of_split_writes() {
    let content = "{\"a\":1}\n{\"b\":\"two\"}\n{\"c\":";
    let segments = ["{\"a\":1}\n", "{\"b\":", "\"two\"}\n", "{\"c\":"];
    let mut t = LineAssembler::new();
    let lines = feed(&mut t, &segments);
    let mut rebuilt: String = lines.iter().map(|l| format!("{l}\n")).collect();
    rebuilt.push_str(&t.flush_buffer().unwrap());
    assert_eq!(rebuilt, content);
}

#[test]
fn overlong_partial_line_is_cut_within_cap() {
    let mut t = LineAssembler::new();
    let big = "é".repeat(MAX_INCOMPLETE_LINE_BYTES / 2 + 1);
    let line = t.push_segment(&big).unwrap();
    assert!(line.len() <= MAX_INCOMPLETE_LINE_BYTES);
    assert_eq!(line.len(), MAX_INCOMPLETE_LINE_BYTES);
    assert!(!t.has_incomplete_data());
}

#[test]
fn replacement_needs_full_differing_fingerprint_at_end() {
    let a = vec![1u8; 64];
    let mut b = vec![1u8; 64];
    b[63] = 2;
    assert!(replaced(false, true, true, 100, 100, &a, &b));
    assert!(!replaced(false, true, true, 100, 100, &a, &a));
    assert!(!replaced(true, true, true, 100, 100, &a, &b));
    assert!(!replaced(false, true, true, 90, 100, &a, &b));
    assert!(!replaced(false, true, true, 100, 100, &vec![1u8; 10], &b));
}

#[test]
fn after_read_retries_on_replacement_and_refreshes_on_lines() {
    let a = vec![1u8; 64];
    let b = vec![2u8; 64];
    assert_eq!(after_read(false, true, true, 100, 100, &a, Some(&b)), AfterRead::ReopenAndRetry);
    assert_eq!(after_read(true, true, true, 100, 100, &a, Some(&b)), AfterRead::Done);
    assert_eq!(after_read(false, false, true, 100, 100, &a, Some(&b)), AfterRead::RefreshFingerprint);
    assert_eq!(after_read(false, false, true, 100, 100, &a, None), AfterRead::RefreshFingerprint);
    assert_eq!(after_read(false, true, true, 100, 100, &a, Some(&a)), AfterRead::Done);
}
