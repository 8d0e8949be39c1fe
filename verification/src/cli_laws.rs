//! Laws of the command line value.

use vstd::prelude::*;

use crate::attach_mode::XdpAttachMode;
use crate::decimal::NumeralError;

verus! {

/// A priority written as a decimal numeral behind `libxdp:` or `libxdp=` is the
/// priority that is read.
pub proof fn law_cli_priority_round_trip(priority: u32)
    ensures
        crate::attach_mode::cli_value("libxdp:"@ + crate::decimal::decimal(priority as nat)) == Ok::<
            XdpAttachMode,
            Seq<char>,
        >(XdpAttachMode::Libxdp { priority }),
        crate::attach_mode::cli_value("libxdp="@ + crate::decimal::decimal(priority as nat)) == Ok::<
            XdpAttachMode,
            Seq<char>,
        >(XdpAttachMode::Libxdp { priority }),
{
    let digits = crate::decimal::decimal(priority as nat);
    crate::decimal::law_numeral_round_trip(priority);
    assert(crate::decimal::is_digit(digits[digits.len() - 1]));
    assert(crate::text::trimmed_end(digits) == digits);
    lemma_cli_with_separator(digits);
}

/// `libxdp:` and `libxdp=` are the same: whatever follows them, the result is
/// the same, complaints about the priority included.
pub proof fn law_cli_separators_agree(p: Seq<char>)
    ensures
        crate::attach_mode::cli_value("libxdp:"@ + p) == crate::attach_mode::cli_value(
            "libxdp="@ + p,
        ),
{
    lemma_cli_with_separator(p);
}

/// White space around a value does not change whether it is accepted nor what
/// it selects.
pub proof fn law_cli_white_space_around(before: Seq<char>, s: Seq<char>, after: Seq<char>)
    requires
        crate::text::all_white_space(before),
        crate::text::all_white_space(after),
    ensures
        match (
            crate::attach_mode::cli_value(before + s + after),
            crate::attach_mode::cli_value(s),
        ) {
            (Ok(padded), Ok(bare)) => padded == bare,
            (Err(_), Err(_)) => true,
            _ => false,
        },
{
    crate::text::lemma_trim_around(before, s, after);
}

/// `raw` is read in any mix of cases.
pub proof fn law_cli_raw_in_any_case(s: Seq<char>)
    requires
        crate::text::same_ignoring_ascii_case(s, "raw"@),
    ensures
        crate::attach_mode::cli_value(s) == Ok::<XdpAttachMode, Seq<char>>(XdpAttachMode::Raw),
{
    reveal_strlit("raw");
    assert(crate::text::ascii_lower(s[0]) == 'r' as int);
    assert(crate::text::ascii_lower(s[2]) == 'w' as int);
    assert(crate::text::trimmed_start(s) == s);
    assert(crate::text::trimmed_end(s) == s);
}

/// What a value with a separator selects depends on what follows the separator
/// alone.
proof fn lemma_cli_with_separator(p: Seq<char>)
    ensures
        crate::attach_mode::cli_value("libxdp:"@ + p) == crate::attach_mode::with_priority(
            crate::text::trimmed_end(p),
        ),
        crate::attach_mode::cli_value("libxdp="@ + p) == crate::attach_mode::with_priority(
            crate::text::trimmed_end(p),
        ),
{
    reveal_strlit("raw");
    reveal_strlit("libxdp");
    reveal_strlit("libxdp:");
    reveal_strlit("libxdp=");
    let q = crate::text::trimmed_end(p);
    crate::text::lemma_trimmed_end_append("libxdp:"@, p);
    crate::text::lemma_trimmed_end_append("libxdp="@, p);
    assert(("libxdp:"@ + p)[0] == 'l');
    assert(("libxdp="@ + p)[0] == 'l');
    assert("libxdp:"@ =~= ("libxdp:"@ + q).subrange(0, 7));
    assert("libxdp="@ =~= ("libxdp="@ + q).subrange(0, 7));
    assert(("libxdp:"@ + q).skip(7) =~= q);
    assert(("libxdp="@ + q).skip(7) =~= q);
}

/// What every value with something in it selects, or the complaint about it. The
/// value is `body`, with white space around it.
pub proof fn law_cli_value(before: Seq<char>, body: Seq<char>, after: Seq<char>)
    requires
        forall|i: int| 0 <= i < before.len() ==> crate::text::is_white_space(#[trigger] before[i]),
        forall|i: int| 0 <= i < after.len() ==> crate::text::is_white_space(#[trigger] after[i]),
        body.len() > 0,
        !crate::text::is_white_space(body[0]),
        !crate::text::is_white_space(body[body.len() - 1]),
    ensures
        ({
            let s = before + body + after;
            let read = crate::attach_mode::cli_value(s);
            if body.len() == 3 && (body[0] as int == 114 || body[0] as int == 82) && (body[1] as int
                == 97 || body[1] as int == 65) && (body[2] as int == 119 || body[2] as int == 87) {
                read == Ok::<XdpAttachMode, Seq<char>>(XdpAttachMode::Raw)
            } else if body == "libxdp"@ {
                read == Ok::<XdpAttachMode, Seq<char>>(XdpAttachMode::Libxdp { priority: 10 })
            } else if body.len() > 6 && body.take(6) == "libxdp"@ && (body[6] == ':' || body[6]
                == '=') {
                let p = body.skip(7);
                match crate::decimal::u32_of(p) {
                    Ok(priority) => read == Ok::<XdpAttachMode, Seq<char>>(
                        XdpAttachMode::Libxdp { priority },
                    ),
                    Err(NumeralError::Empty) => read == Err::<XdpAttachMode, Seq<char>>(
                        "invalid libxdp priority `"@ + p + "`: "@
                            + "cannot parse integer from empty string"@,
                    ),
                    Err(NumeralError::InvalidDigit) => read == Err::<XdpAttachMode, Seq<char>>(
                        "invalid libxdp priority `"@ + p + "`: "@
                            + "invalid digit found in string"@,
                    ),
                    Err(NumeralError::PosOverflow) => read == Err::<XdpAttachMode, Seq<char>>(
                        "invalid libxdp priority `"@ + p + "`: "@
                            + "number too large to fit in target type"@,
                    ),
                }
            } else {
                read == Err::<XdpAttachMode, Seq<char>>(
                    "unrecognized xdp-attach-mode `"@ + s
                        + "` (expected `raw`, `libxdp`, or `libxdp:<priority>`)"@,
                )
            }
        }),
{
    reveal_strlit("raw");
    reveal_strlit("libxdp");
    reveal_strlit("libxdp:");
    reveal_strlit("libxdp=");
    crate::text::law_trim(before, body, after);
    lemma_raw_codes(body);
    let colon = "libxdp:"@;
    let equals = "libxdp="@;
    if body.len() > 6 {
        assert(body.subrange(0, 6) =~= body.take(6));
        assert(forall|i: int| 0 <= i < 6 ==> body.take(6)[i] == body[i]);
        assert(forall|i: int| 0 <= i < 7 ==> body.subrange(0, 7)[i] == body[i]);
        if body.take(6) == "libxdp"@ && body[6] == ':' {
            assert(colon =~= body.subrange(0, 7));
        }
        if body.take(6) == "libxdp"@ && body[6] == '=' {
            assert(equals =~= body.subrange(0, 7));
        }
        if colon.is_prefix_of(body) {
            assert(colon[6] == body[6]);
            assert(body.take(6) =~= "libxdp"@);
        }
        if equals.is_prefix_of(body) {
            assert(equals[6] == body[6]);
            assert(body.take(6) =~= "libxdp"@);
        }
    }
}

/// A value that is empty, or white space alone, is refused.
pub proof fn law_cli_blank(s: Seq<char>)
    requires
        forall|i: int| 0 <= i < s.len() ==> crate::text::is_white_space(#[trigger] s[i]),
    ensures
        crate::attach_mode::cli_value(s) == Err::<XdpAttachMode, Seq<char>>(
            "unrecognized xdp-attach-mode `"@ + s
                + "` (expected `raw`, `libxdp`, or `libxdp:<priority>`)"@,
        ),
{
    reveal_strlit("raw");
    reveal_strlit("libxdp");
    reveal_strlit("libxdp:");
    reveal_strlit("libxdp=");
    crate::text::law_trim(s, seq!['x'], Seq::<char>::empty());
    assert(s + Seq::<char>::empty() =~= s);
    let t = crate::text::trimmed(s);
    assert(t.len() == 0);
    assert("raw"@.len() == 3);
    assert("libxdp"@.len() == 6);
}

/// The spellings of `raw`, letter by letter.
proof fn lemma_raw_codes(t: Seq<char>)
    ensures
        crate::text::same_ignoring_ascii_case(t, "raw"@) <==> {
            &&& t.len() == 3
            &&& t[0] as int == 114 || t[0] as int == 82
            &&& t[1] as int == 97 || t[1] as int == 65
            &&& t[2] as int == 119 || t[2] as int == 87
        },
{
    reveal_strlit("raw");
    let raw = "raw"@;
    assert(raw.len() == 3);
    assert(crate::text::ascii_lower(raw[0]) == 114);
    assert(crate::text::ascii_lower(raw[1]) == 97);
    assert(crate::text::ascii_lower(raw[2]) == 119);
    if t.len() == 3 {
        lemma_lower_codes(t[0]);
        lemma_lower_codes(t[1]);
        lemma_lower_codes(t[2]);
    }
}

/// The letters of `raw` in either case.
proof fn lemma_lower_codes(c: char)
    ensures
        crate::text::ascii_lower(c) == 114 <==> c as int == 114 || c as int == 82,
        crate::text::ascii_lower(c) == 97 <==> c as int == 97 || c as int == 65,
        crate::text::ascii_lower(c) == 119 <==> c as int == 119 || c as int == 87,
{
}

} // verus!
