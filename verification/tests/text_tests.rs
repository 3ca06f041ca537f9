use multiow::text::{announcement_text, is_valid_name, server_address, strip_line_ending};

#[test]
fn strip_line_ending_removes_the_newline() {
    assert_eq!(strip_line_ending("192.168.0.1\r\n".to_string()), "192.168.0.1");
    assert_eq!(strip_line_ending("Abe\n".to_string()), "Abe");
    assert_eq!(strip_line_ending("abc".to_string()), "abc");
    assert_eq!(strip_line_ending("ab\r".to_string()), "ab\r");
    assert_eq!(strip_line_ending("\r\n".to_string()), "");
    assert_eq!(strip_line_ending("\n".to_string()), "");
    assert_eq!(strip_line_ending(String::new()), "");
    assert_eq!(strip_line_ending("é\r\n".to_string()), "é");
    assert_eq!(strip_line_ending("x\n\n".to_string()), "x\n");
}

#[test]
fn names_follow_the_naming_rules() {
    assert!(is_valid_name("abe"));
    assert!(is_valid_name("Mudokon8"));
    assert!(!is_valid_name("ab"));
    assert!(!is_valid_name("abcdefghi"));
    assert!(!is_valid_name("a be"));
    assert!(!is_valid_name("ab\tc"));
    assert!(!is_valid_name("ab\u{0B}c"));
    assert!(!is_valid_name("ábe"));
    assert!(!is_valid_name(""));
    assert!(is_valid_name("~!@#$%^&"));
}

#[test]
fn server_address_uses_default_port() {
    assert_eq!(server_address("10.0.0.2", ""), "10.0.0.2:2536");
    assert_eq!(server_address("10.0.0.2", "9000"), "10.0.0.2:9000");
    assert_eq!(server_address("", ""), ":2536");
}

#[test]
fn announcement_text_quotes_trimmed_message() {
    assert_eq!(announcement_text("  hello all \r\n"), "The server sent this message \"hello all\"");
    assert_eq!(announcement_text(""), "The server sent this message \"\"");
    assert_eq!(announcement_text("\u{3000}x\u{85}"), "The server sent this message \"x\"");
}
