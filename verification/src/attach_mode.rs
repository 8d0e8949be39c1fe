//! How the XDP program is attached to a network interface, and how an
//! administrator says so on the command line and in the configuration.

use vstd::prelude::*;

use crate::decimal::{parse_u32, NumeralError};
use crate::text::{eq_ignore_ascii_case, strip_prefix, trim};

verus! {

/// Priority of the XDP program under the libxdp dispatcher where none is
/// given. The program redirects packets, which ends the chain, so it should run
/// last, and a low priority runs late. Tools that mark or observe packets before
/// that attach at higher priorities (50, for example).
pub const DEFAULT_LIBXDP_PRIORITY: u32 = 10;

/// The priority where none is given.
pub fn default_libxdp_priority() -> (res: u32)
    ensures
        res == DEFAULT_LIBXDP_PRIORITY,
        res == 10,
{
    DEFAULT_LIBXDP_PRIORITY
}

/// How the XDP program is attached to network interfaces.
#[derive(Clone, Copy, Debug, PartialEq, Eq, Structural)]
pub enum XdpAttachMode {
    /// Directly. The program owns the interface alone. Default.
    Raw,
    /// Through the libxdp dispatcher, beside other programs attached that way.
    Libxdp {
        /// Run priority inside the dispatcher. Lower numbers run later.
        priority: u32,
    },
}

/// The complaint about a command line value that names no attach mode.
pub open spec fn unrecognized_text(s: Seq<char>) -> Seq<char> {
    "unrecognized xdp-attach-mode `"@ + s
        + "` (expected `raw`, `libxdp`, or `libxdp:<priority>`)"@
}

/// The complaint about a priority that is no `u32`.
pub open spec fn invalid_priority_text(p: Seq<char>, error: NumeralError) -> Seq<char> {
    "invalid libxdp priority `"@ + p + "`: "@ + error.text()
}

/// What the text of a priority selects.
pub open spec fn with_priority(p: Seq<char>) -> Result<XdpAttachMode, Seq<char>> {
    match crate::decimal::u32_of(p) {
        Ok(priority) => Ok(XdpAttachMode::Libxdp { priority }),
        Err(error) => Err(invalid_priority_text(p, error)),
    }
}

/// What a command line value selects, or the complaint about it. White space
/// around the value does not count, nor does the case of `raw`.
pub open spec fn cli_value(s: Seq<char>) -> Result<XdpAttachMode, Seq<char>> {
    let t = crate::text::trimmed(s);
    if crate::text::same_ignoring_ascii_case(t, "raw"@) {
        Ok(XdpAttachMode::Raw)
    } else if t == "libxdp"@ {
        Ok(XdpAttachMode::Libxdp { priority: DEFAULT_LIBXDP_PRIORITY })
    } else if "libxdp:"@.is_prefix_of(t) || "libxdp="@.is_prefix_of(t) {
        with_priority(t.skip(7))
    } else {
        Err(unrecognized_text(s))
    }
}

/// Whether an executable result says what the model result says.
pub open spec fn same_result(
    res: Result<XdpAttachMode, String>,
    model: Result<XdpAttachMode, Seq<char>>,
) -> bool {
    match (res, model) {
        (Ok(mode), Ok(expected)) => mode == expected,
        (Err(message), Err(expected)) => message@ == expected,
        _ => false,
    }
}

fn unrecognized(s: &str) -> (res: String)
    ensures
        res@ == unrecognized_text(s@),
{
    let mut out: String = "unrecognized xdp-attach-mode `".to_owned();
    out.append(s);
    out.append("` (expected `raw`, `libxdp`, or `libxdp:<priority>`)");
    out
}

fn parse_priority(p: &str) -> (res: Result<XdpAttachMode, String>)
    ensures
        same_result(res, with_priority(p@)),
{
    match parse_u32(p) {
        Ok(priority) => Ok(XdpAttachMode::Libxdp { priority }),
        Err(error) => {
            let mut out: String = "invalid libxdp priority `".to_owned();
            out.append(p);
            out.append("`: ");
            out.append(error.message());
            Err(out)
        },
    }
}

/// A text that begins with `libxdp` and one of the two separators, seen in two
/// pieces.
proof fn lemma_separator(t: Seq<char>)
    requires
        "libxdp"@.is_prefix_of(t),
    ensures
        "libxdp"@.len() == 6,
        t.skip(6).len() == 0 <==> t == "libxdp"@,
        ":"@.is_prefix_of(t.skip(6)) <==> "libxdp:"@.is_prefix_of(t),
        "="@.is_prefix_of(t.skip(6)) <==> "libxdp="@.is_prefix_of(t),
        t.len() > 6 ==> t.skip(6).skip(1) == t.skip(7),
{
    reveal_strlit("libxdp");
    reveal_strlit(":");
    reveal_strlit("=");
    reveal_strlit("libxdp:");
    reveal_strlit("libxdp=");
    let head = t.subrange(0, 6);
    assert(head == "libxdp"@);
    if t.len() == 6 {
        assert(t =~= head);
    } else {
        assert(t.skip(6).skip(1) =~= t.skip(7));
        assert(t.skip(6)[0] == t[6]);
        assert(forall|i: int| 0 <= i < 6 ==> t[i] == head[i]);
        if t[6] == ':' {
            assert("libxdp:"@ =~= t.subrange(0, 7));
            assert(":"@ =~= t.skip(6).subrange(0, 1));
        } else {
            assert("libxdp:"@[6] != t.subrange(0, 7)[6]);
            assert(":"@[0] != t.skip(6).subrange(0, 1)[0]);
        }
        if t[6] == '=' {
            assert("libxdp="@ =~= t.subrange(0, 7));
            assert("="@ =~= t.skip(6).subrange(0, 1));
        } else {
            assert("libxdp="@[6] != t.subrange(0, 7)[6]);
            assert("="@[0] != t.skip(6).subrange(0, 1)[0]);
        }
    }
}

/// A text that does not begin with `libxdp` begins with neither longer prefix.
proof fn lemma_no_libxdp(t: Seq<char>)
    requires
        !"libxdp"@.is_prefix_of(t),
    ensures
        t != "libxdp"@,
        !"libxdp:"@.is_prefix_of(t),
        !"libxdp="@.is_prefix_of(t),
{
    reveal_strlit("libxdp");
    reveal_strlit("libxdp:");
    reveal_strlit("libxdp=");
    if t == "libxdp"@ {
        assert("libxdp"@ =~= t.subrange(0, 6));
    }
    if "libxdp:"@.is_prefix_of(t) {
        assert(t.subrange(0, 7).subrange(0, 6) =~= t.subrange(0, 6));
        assert("libxdp"@ =~= "libxdp:"@.subrange(0, 6));
    }
    if "libxdp="@.is_prefix_of(t) {
        assert(t.subrange(0, 7).subrange(0, 6) =~= t.subrange(0, 6));
        assert("libxdp"@ =~= "libxdp="@.subrange(0, 6));
    }
}

impl Default for XdpAttachMode {
    fn default() -> (res: Self)
        ensures
            res == XdpAttachMode::Raw,
    {
        XdpAttachMode::Raw
    }
}

impl XdpAttachMode {
    /// Reads a command line value such as `raw`, `libxdp` or `libxdp:50`.
    pub fn parse_cli(s: &str) -> (res: Result<Self, String>)
        ensures
            same_result(res, cli_value(s@)),
            match (res, cli_value(s@)) {
                (Ok(mode), Ok(expected)) => mode == expected,
                (Err(message), Err(expected)) => message@ == expected,
                _ => false,
            },
    {
        let trimmed: &str = trim(s);
        if eq_ignore_ascii_case(trimmed, "raw") {
            return Ok(XdpAttachMode::Raw);
        }
        if let Some(rest) = strip_prefix(trimmed, "libxdp") {
            proof {
                lemma_separator(trimmed@);
            }
            if rest.is_empty() {
                return Ok(XdpAttachMode::Libxdp { priority: DEFAULT_LIBXDP_PRIORITY });
            }
            proof {
                reveal_strlit(":");
                reveal_strlit("=");
            }
            if let Some(p) = strip_prefix(rest, ":") {
                return parse_priority(p);
            }
            if let Some(p) = strip_prefix(rest, "=") {
                return parse_priority(p);
            }
            return Err(unrecognized(s));
        }
        proof {
            lemma_no_libxdp(trimmed@);
        }
        Err(unrecognized(s))
    }
}

} // verus!
