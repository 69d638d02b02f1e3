use proxy_gateway::text::safe_ascii;

#[test]
fn safe_ascii_keeps_visible_bytes() {
    assert_eq!(safe_ascii(b"GET /index.html HTTP/1.1").as_str(), "GET /index.html HTTP/1.1");
}

#[test]
fn safe_ascii_blanks_control_bytes() {
    assert_eq!(safe_ascii(b"a\r\nb\tc\x00d").as_str(), "a  b c d");
}

#[test]
fn safe_ascii_marks_high_bytes() {
    assert_eq!(safe_ascii(&[0x7e, 0x7f, 0x80, 0xff, 0x21, 0x20]).as_str(), "~???! ");
}

#[test]
fn safe_ascii_of_nothing_is_empty() {
    assert_eq!(safe_ascii(&[]).as_str(), "");
}
