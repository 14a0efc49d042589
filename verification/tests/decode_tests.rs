use th::decode::{accumulate_deltas, extract_json, parse_streaming_proposal};

fn sse_line(content: &str) -> String {
    format!(
        "data: {{\"choices\":[{{\"delta\":{{\"content\":{}}}}}]}}\n",
        serde_json::Value::String(content.to_string())
    )
}

fn sse_buffer(pieces: &[&str]) -> Vec<u8> {
    let mut buf = String::new();
    for p in pieces {
        buf.push_str(&sse_line(p));
    }
    buf.push_str("data: [DONE]\n");
    buf.into_bytes()
}

#[test]
fn deltas_concatenate_in_order() {
    let buf = sse_buffer(&["hel", "lo ", "world"]);
    assert_eq!(accumulate_deltas(&buf), b"hello world".to_vec());
}

#[test]
fn non_data_and_malformed_lines_are_skipped() {
    let mut buf = Vec::new();
    buf.extend_from_slice(b"event: ping\n");
    buf.extend_from_slice(b"data: this is not json\n");
    buf.extend_from_slice(b": keep-alive\n");
    buf.extend_from_slice(sse_line("ok").as_bytes());
    buf.extend_from_slice(b"data: {\"choices\":[]}\n");
    buf.extend_from_slice(b"data: [DONE]\n");
    assert_eq!(accumulate_deltas(&buf), b"ok".to_vec());
}

#[test]
fn crlf_lines_are_handled() {
    let line = sse_line("ab");
    let crlf = line.replace('\n', "\r\n");
    let buf = crlf.into_bytes();
    assert_eq!(accumulate_deltas(&buf), b"ab".to_vec());
}

#[test]
fn whole_proposal_decodes() {
    let buf = sse_buffer(&["{\"command\": \"ls\", ", "\"explanation\": \"lists files\"}"]);
    let p = parse_streaming_proposal(&buf).unwrap();
    assert_eq!(p.command, b"ls".to_vec());
    assert_eq!(p.explanation, Some(b"lists files".to_vec()));
    assert_eq!(p.summary, None);
}

#[test]
fn truncated_object_recovers() {
    let buf = sse_buffer(&["{\"command\": \"ls -la\"", ", \"explanation\": \"list files\""]);
    let p = parse_streaming_proposal(&buf).unwrap();
    assert_eq!(p.command, b"ls -la".to_vec());
    assert_eq!(p.explanation, Some(b"list files".to_vec()));
}

#[test]
fn surrounding_noise_recovers() {
    let buf = sse_buffer(&["INFO starting up\n", "{\"command\": \"pwd\"}", "\ntrailing garbage"]);
    let p = parse_streaming_proposal(&buf).unwrap();
    assert_eq!(p.command, b"pwd".to_vec());
}

#[test]
fn whitespace_command_is_rejected() {
    let buf = sse_buffer(&["{\"command\": \"   \"}"]);
    assert!(parse_streaming_proposal(&buf).is_none());
}

#[test]
fn unicode_whitespace_command_is_rejected() {
    let buf = sse_buffer(&["{\"command\": \"\u{00A0}\u{00A0}\"}"]);
    assert!(parse_streaming_proposal(&buf).is_none());
}

#[test]
fn command_is_trimmed_of_unicode_whitespace() {
    let buf = sse_buffer(&["{\"command\": \"\u{00A0}ls\u{2003}\"}"]);
    let p = parse_streaming_proposal(&buf).unwrap();
    assert_eq!(p.command, b"ls".to_vec());
}

#[test]
fn extract_trims_unicode_whitespace_before_the_tiers() {
    let text = b"{\"a\": 1\x0c".to_vec();
    assert_eq!(extract_json(&text), Some(b"{\"a\": 1}".to_vec()));
    let text = "\u{2028}{\"a\": 1}\u{00A0}".as_bytes().to_vec();
    assert_eq!(extract_json(&text), Some(b"{\"a\": 1}".to_vec()));
}

#[test]
fn missing_command_is_rejected() {
    let buf = sse_buffer(&["{\"explanation\": \"no command here\"}"]);
    assert!(parse_streaming_proposal(&buf).is_none());
}

#[test]
fn non_string_command_is_rejected() {
    let buf = sse_buffer(&["{\"command\": 7}"]);
    assert!(parse_streaming_proposal(&buf).is_none());
}

#[test]
fn empty_stream_yields_nothing() {
    assert!(parse_streaming_proposal(&Vec::new()).is_none());
    let buf = b"data: [DONE]\n".to_vec();
    assert!(parse_streaming_proposal(&buf).is_none());
}

#[test]
fn command_and_fields_are_trimmed() {
    let buf = sse_buffer(&["{\"command\": \"  ls  \", \"summary\": \" two steps \"}"]);
    let p = parse_streaming_proposal(&buf).unwrap();
    assert_eq!(p.command, b"ls".to_vec());
    assert_eq!(p.summary, Some(b"two steps".to_vec()));
}

#[test]
fn extract_direct_parse() {
    let text = b"  {\"a\": 1}  ".to_vec();
    assert_eq!(extract_json(&text), Some(b"{\"a\": 1}".to_vec()));
}

#[test]
fn extract_appends_closing_brace() {
    let text = b"{\"a\": 1".to_vec();
    assert_eq!(extract_json(&text), Some(b"{\"a\": 1}".to_vec()));
}

#[test]
fn extract_takes_brace_span() {
    let text = b"log line\n{\"a\": 1}\nrest".to_vec();
    assert_eq!(extract_json(&text), Some(b"{\"a\": 1}".to_vec()));
}

#[test]
fn extract_gives_up_on_hopeless_text() {
    let text = b"no braces at all".to_vec();
    assert!(extract_json(&text).is_none());
    let text = b"} backwards {".to_vec();
    assert!(extract_json(&text).is_none());
}
