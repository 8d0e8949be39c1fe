//! Turning what libxdp prints into log lines.
//!
//! libxdp hands its messages to a hook as a C format string with arguments. Once
//! they are formatted into a buffer, what is left is to tell how much of the
//! buffer is text, what the text says and how serious it is.

use vstd::prelude::*;

use crate::log_line::{LogLine, Severity};
use crate::text::trim_end_newlines;

verus! {

/// The size of the buffer that a message is formatted into.
pub const PRINT_BUFFER_LEN: usize = 1024;

/// libxdp's level of a warning.
pub const LIBXDP_WARN: u32 = 0;

/// libxdp's level of a message for information.
pub const LIBXDP_INFO: u32 = 1;

/// libxdp's level of a message for debugging.
pub const LIBXDP_DEBUG: u32 = 2;

/// What the hook does with a message.
#[derive(Debug, PartialEq, Eq)]
pub struct PrintResult {
    /// The line to log, if there is one.
    pub line: Option<LogLine>,
    /// What the hook returns to libxdp.
    pub returned: i32,
}

/// The error of `core::str::from_utf8`.
#[verifier::external_type_specification]
#[verifier::external_body]
pub struct ExUtf8Error(core::str::Utf8Error);

/// `core::str::from_utf8` gives bytes back as a string exactly where they are
/// valid UTF-8, and the string has those bytes. Nothing is said of the error.
pub assume_specification[ core::str::from_utf8 ](v: &[u8]) -> (res: Result<
    &str,
    core::str::Utf8Error,
>)
    ensures
        res is Ok <==> vstd::utf8::valid_utf8(v@),
        res matches Ok(s) ==> vstd::utf8::encode_utf8(s@) == v@,
;

/// The severity of a libxdp level. A level that libxdp does not define is a
/// warning.
pub open spec fn severity_of(level: u32) -> Severity {
    if level == LIBXDP_INFO {
        Severity::Info
    } else if level == LIBXDP_DEBUG {
        Severity::Debug
    } else {
        Severity::Warn
    }
}

/// The part of the buffer that is text, where formatting reports a length of
/// `n`: a message that did not fit was cut, and a zero stands behind the text.
pub open spec fn printed_bytes(n: i32, buf: Seq<u8>) -> Seq<u8> {
    if n < PRINT_BUFFER_LEN {
        buf.take(n as int)
    } else {
        buf.take(PRINT_BUFFER_LEN - 1)
    }
}

/// The text of a message without the line feeds at its end.
pub open spec fn printed_text(n: i32, buf: Seq<u8>) -> Seq<char> {
    let bytes = printed_bytes(n, buf);
    if vstd::utf8::valid_utf8(bytes) {
        crate::text::without_trailing_newlines(vstd::utf8::decode_utf8(bytes))
    } else {
        "<non-utf8>"@
    }
}

/// The severity of a libxdp level.
pub fn severity(level: u32) -> (res: Severity)
    ensures
        res == severity_of(level),
        level == 1 ==> res == Severity::Info,
        level == 2 ==> res == Severity::Debug,
        level != 1 && level != 2 ==> res == Severity::Warn,
{
    if level == LIBXDP_INFO {
        Severity::Info
    } else if level == LIBXDP_DEBUG {
        Severity::Debug
    } else {
        Severity::Warn
    }
}

/// Takes a message of a level that was formatted into `buf`, where formatting
/// returned `n`.
pub fn printed(level: u32, n: i32, buf: &[u8; PRINT_BUFFER_LEN]) -> (res: PrintResult)
    ensures
        n <= 0 ==> res.line is None && res.returned == 0,
        n > 0 ==> {
            &&& res.returned == n
            &&& res.line matches Some(line) && line.says(
                severity_of(level),
                printed_text(n, buf@),
            )
        },
        n > 0 ==> {
            let bytes = if n < 1024 {
                buf@.take(n as int)
            } else {
                buf@.take(1023)
            };
            &&& res.line matches Some(line) && {
                &&& level == 1 ==> line.severity == Severity::Info
                &&& level == 2 ==> line.severity == Severity::Debug
                &&& level != 1 && level != 2 ==> line.severity == Severity::Warn
                &&& vstd::utf8::valid_utf8(bytes) ==> line.text@
                    == crate::text::without_trailing_newlines(vstd::utf8::decode_utf8(bytes))
                &&& !vstd::utf8::valid_utf8(bytes) ==> line.text@ == "<non-utf8>"@
            }
        },
{
    if n <= 0 {
        return PrintResult { line: None, returned: 0 };
    }
    let len: usize = if (n as usize) < PRINT_BUFFER_LEN {
        n as usize
    } else {
        PRINT_BUFFER_LEN - 1
    };
    let bytes: &[u8] = vstd::slice::slice_subrange(buf.as_slice(), 0, len);
    assert(bytes@ =~= printed_bytes(n, buf@));
    let text: &str = match core::str::from_utf8(bytes) {
        Ok(s) => {
            proof {
                vstd::utf8::encode_utf8_decode_utf8(s@);
            }
            trim_end_newlines(s)
        },
        Err(_) => "<non-utf8>",
    };
    PrintResult {
        line: Some(LogLine { severity: severity(level), text: text.to_owned() }),
        returned: n,
    }
}

/// A log line does not end in a line feed, and the zero at the end of a full
/// buffer is not taken for text.
pub proof fn law_line_has_no_trailing_newline(n: i32, buf: Seq<u8>)
    requires
        n > 0,
        buf.len() == PRINT_BUFFER_LEN,
    ensures
        printed_text(n, buf).len() > 0 ==> printed_text(n, buf).last() != '\n',
        printed_bytes(n, buf).len() < PRINT_BUFFER_LEN,
{
    reveal_strlit("<non-utf8>");
    crate::text::lemma_no_trailing_newline(vstd::utf8::decode_utf8(printed_bytes(n, buf)));
}

/// A message in ASCII is logged whole, as far as the buffer holds it: without
/// the line feeds at its end, the line has one character for each byte, and it is
/// that byte.
pub proof fn law_ascii_message_is_logged_whole(n: i32, buf: Seq<u8>, len: int)
    requires
        n > 0,
        buf.len() == 1024,
        0 <= len,
        n < 1024 ==> len <= n,
        n >= 1024 ==> len <= 1023,
        forall|i: int| 0 <= i < len ==> #[trigger] buf[i] < 128,
        len > 0 ==> buf[len - 1] != 10,
        forall|i: int|
            len <= i < (if n < 1024 {
                n as int
            } else {
                1023
            }) ==> #[trigger] buf[i] == 10,
    ensures
        printed_text(n, buf).len() == len,
        forall|i: int|
            0 <= i < len ==> (#[trigger] printed_text(n, buf)[i]) as int == buf[i] as int,
{
    let bytes = printed_bytes(n, buf);
    let chars = Seq::new(bytes.len(), |i: int| bytes[i] as char);
    assert(vstd::utf8::is_ascii_chars(chars)) by {
        assert forall|i: int| 0 <= i < chars.len() implies 0 <= (#[trigger] chars[i]) as nat
            <= 127 by {
            assert(bytes[i] == buf[i]);
        }
    }
    vstd::utf8::is_ascii_chars_encode_utf8(chars);
    assert forall|i: int| 0 <= i < chars.len() implies (chars[i]) as u8 == #[trigger] bytes[i] by {
        assert(bytes[i] == buf[i]);
    }
    assert(vstd::utf8::encode_utf8(chars) =~= bytes);
    vstd::utf8::encode_utf8_valid_utf8(chars);
    vstd::utf8::encode_utf8_decode_utf8(chars);
    let body = chars.take(len);
    let newlines = chars.skip(len);
    assert(chars =~= body + newlines);
    assert forall|i: int| 0 <= i < newlines.len() implies #[trigger] newlines[i] as int == 10 by {
        assert(bytes[len + i] == buf[len + i]);
    }
    if len > 0 {
        assert(bytes[len - 1] == buf[len - 1]);
    }
    crate::text::law_trailing_newlines(body, newlines);
}

/// A message is logged as the characters that its bytes encode, without the line
/// feeds at its end; where they encode none, the line says so. A message that is
/// too long for the buffer is taken up to the zero at its end.
pub proof fn law_message_is_decoded(n: i32, buf: Seq<u8>, text: Seq<char>, newlines: Seq<char>)
    requires
        n > 0,
        buf.len() == 1024,
        forall|i: int| 0 <= i < newlines.len() ==> #[trigger] newlines[i] as int == 10,
        text.len() > 0 ==> text[text.len() - 1] as int != 10,
    ensures
        ({
            let held = if n < 1024 {
                buf.subrange(0, n as int)
            } else {
                buf.subrange(0, 1023)
            };
            &&& held == vstd::utf8::encode_utf8(text + newlines) ==> printed_text(n, buf) == text
            &&& !vstd::utf8::valid_utf8(held) ==> printed_text(n, buf) == "<non-utf8>"@
        }),
{
    let held = if n < 1024 {
        buf.subrange(0, n as int)
    } else {
        buf.subrange(0, 1023)
    };
    assert(held =~= printed_bytes(n, buf));
    let chars = text + newlines;
    vstd::utf8::encode_utf8_valid_utf8(chars);
    vstd::utf8::encode_utf8_decode_utf8(chars);
    crate::text::law_trailing_newlines(text, newlines);
}

/// libxdp's levels: 1 is information, 2 is debugging, and all else is a warning.
pub proof fn law_levels(level: u32)
    ensures
        level == 1 ==> severity_of(level) == Severity::Info,
        level == 2 ==> severity_of(level) == Severity::Debug,
        level != 1 && level != 2 ==> severity_of(level) == Severity::Warn,
{
}

} // verus!
