use lqos_xdp::log_line::{LogLine, Severity};
use lqos_xdp::print::{
    printed, severity, PrintResult, LIBXDP_DEBUG, LIBXDP_INFO, LIBXDP_WARN, PRINT_BUFFER_LEN,
};

fn buffer(text: &[u8]) -> [u8; PRINT_BUFFER_LEN] {
    let mut buf = [0u8; PRINT_BUFFER_LEN];
    buf[..text.len()].copy_from_slice(text);
    buf
}

fn line_of(n: i32, text: &[u8]) -> String {
    printed(LIBXDP_WARN, n, &buffer(text)).line.unwrap().text
}

#[test]
fn nothing_printed() {
    for n in [0, -1, i32::MIN] {
        assert_eq!(
            printed(LIBXDP_INFO, n, &buffer(b"left over")),
            PrintResult { line: None, returned: 0 },
        );
    }
}

#[test]
fn line_feeds_at_the_end_are_dropped() {
    assert_eq!(
        printed(LIBXDP_INFO, 8, &buffer(b"loaded\n\n")),
        PrintResult {
            line: Some(LogLine { severity: Severity::Info, text: "loaded".to_string() }),
            returned: 8,
        },
    );
    assert_eq!(line_of(5, b"a\nb\r\n"), "a\nb\r");
    assert_eq!(line_of(1, b"\n"), "");
}

#[test]
fn severities() {
    assert_eq!(severity(LIBXDP_WARN), Severity::Warn);
    assert_eq!(severity(LIBXDP_INFO), Severity::Info);
    assert_eq!(severity(LIBXDP_DEBUG), Severity::Debug);
    assert_eq!(severity(3), Severity::Warn);
    assert_eq!(severity(u32::MAX), Severity::Warn);
}

#[test]
fn only_what_was_printed_is_read() {
    assert_eq!(line_of(3, b"abcdef"), "abc");
    assert_eq!(line_of(3, "\u{e9}t\u{e9}".as_bytes()), "\u{e9}t");
}

#[test]
fn long_message_is_cut() {
    let text = [b'x'; PRINT_BUFFER_LEN - 1];
    for n in [1023, 1024, 5000, i32::MAX] {
        let res = printed(LIBXDP_DEBUG, n, &buffer(&text));
        assert_eq!(res.returned, n);
        let line = res.line.unwrap();
        assert_eq!(line.severity, Severity::Debug);
        assert_eq!(line.text, "x".repeat(1023));
    }
}

#[test]
fn text_that_is_not_utf8() {
    assert_eq!(line_of(2, b"\xff\n"), "<non-utf8>");
    // A character that was cut in two.
    assert_eq!(line_of(1, "\u{e9}".as_bytes()), "<non-utf8>");
    // An encoding that is too long, and a surrogate.
    assert_eq!(line_of(2, b"\xc0\x80"), "<non-utf8>");
    assert_eq!(line_of(3, b"\xed\xa0\x80"), "<non-utf8>");
}
