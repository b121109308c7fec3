use gemini_live_api::text::{decimal_string, join_lines, same_text, trim, trim_end, trim_start};

#[test]
fn decimal_rendering() {
    assert_eq!(decimal_string(0), "0");
    assert_eq!(decimal_string(7), "7");
    assert_eq!(decimal_string(10), "10");
    assert_eq!(decimal_string(16000), "16000");
    assert_eq!(decimal_string(u32::MAX), "4294967295");
}

#[test]
fn trimming_uses_unicode_white_space() {
    assert_eq!(trim_start("  \t hello "), "hello ");
    assert_eq!(trim_end("  hello \n\r"), "  hello");
    assert_eq!(trim("\u{3000}\u{a0}text\u{2028}"), "text");
    assert_eq!(trim("   "), "");
    assert_eq!(trim("a b"), "a b");
    let s = " \u{85}x\u{200b}";
    assert_eq!(trim(s), s.trim());
}

#[test]
fn joining_lines() {
    assert_eq!(join_lines(&vec![]), "");
    assert_eq!(join_lines(&vec!["one".to_string()]), "one");
    assert_eq!(join_lines(&vec!["a".to_string(), "".to_string(), "b".to_string()]), "a\n\nb");
}

#[test]
fn comparing_text() {
    assert!(same_text("héllo", "héllo"));
    assert!(!same_text("hello", "hellO"));
    assert!(!same_text("hello", "hell"));
    assert!(same_text("", ""));
}
