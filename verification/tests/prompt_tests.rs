use th::prompt::{approves, build_prompt};

#[test]
fn prompt_has_system_then_user() {
    let messages = build_prompt("list files", "current working directory: /tmp");
    assert_eq!(messages.len(), 2);
    assert_eq!(messages[0].role, "system");
    assert!(messages[0].content.contains("terminal command planner"));
    assert_eq!(messages[1].role, "user");
    assert_eq!(
        messages[1].content,
        "Task: list files\n\nContext:\ncurrent working directory: /tmp"
    );
}

#[test]
fn yes_answers_approve() {
    assert!(approves(&b"y".to_vec()));
    assert!(approves(&b"Y".to_vec()));
    assert!(approves(&b"yes\n".to_vec()));
    assert!(approves(&b"  yep".to_vec()));
    assert!(approves(&b"\tYES".to_vec()));
}

#[test]
fn unicode_whitespace_is_skipped() {
    assert!(approves(&vec![0x0B, b'y']));
    assert!(approves(&vec![0x0C, b'Y']));
    assert!(approves(&"\u{00A0}yes".as_bytes().to_vec()));
    assert!(approves(&"\u{1680}\u{2003}y".as_bytes().to_vec()));
    assert!(!approves(&"\u{00A0}\u{2028}".as_bytes().to_vec()));
}

#[test]
fn other_answers_decline() {
    assert!(!approves(&b"n".to_vec()));
    assert!(!approves(&b"no".to_vec()));
    assert!(!approves(&b"".to_vec()));
    assert!(!approves(&b"   ".to_vec()));
    assert!(!approves(&b"ay".to_vec()));
}
