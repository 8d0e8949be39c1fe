//! Text handling on character sequences: trimming, prefixes and
//! case-insensitive comparison, each with what it means stated on the
//! characters.

use vstd::prelude::*;

verus! {

/// The characters that have the Unicode property `White_Space`.
pub open spec fn is_white_space(c: char) -> bool {
    let u = c as u32;
    ||| 0x9 <= u <= 0xd
    ||| u == 0x20
    ||| u == 0x85
    ||| u == 0xa0
    ||| u == 0x1680
    ||| 0x2000 <= u <= 0x200a
    ||| u == 0x2028
    ||| u == 0x2029
    ||| u == 0x202f
    ||| u == 0x205f
    ||| u == 0x3000
}

/// Whether every character of `s` is white space.
pub open spec fn all_white_space(s: Seq<char>) -> bool {
    forall|i: int| 0 <= i < s.len() ==> is_white_space(#[trigger] s[i])
}

/// `s` without its leading white space.
pub open spec fn trimmed_start(s: Seq<char>) -> Seq<char>
    decreases s.len(),
{
    if s.len() > 0 && is_white_space(s[0]) {
        trimmed_start(s.skip(1))
    } else {
        s
    }
}

/// `s` without its trailing white space.
pub open spec fn trimmed_end(s: Seq<char>) -> Seq<char>
    decreases s.len(),
{
    if s.len() > 0 && is_white_space(s.last()) {
        trimmed_end(s.drop_last())
    } else {
        s
    }
}

/// `s` without its leading and trailing white space.
pub open spec fn trimmed(s: Seq<char>) -> Seq<char> {
    trimmed_end(trimmed_start(s))
}

/// `s` without the line feeds at its end.
pub open spec fn without_trailing_newlines(s: Seq<char>) -> Seq<char>
    decreases s.len(),
{
    if s.len() > 0 && s.last() == '\n' {
        without_trailing_newlines(s.drop_last())
    } else {
        s
    }
}

/// The code point of `c`, with the letters `A` to `Z` taken to lower case.
pub open spec fn ascii_lower(c: char) -> int {
    if 'A' as u32 <= c as u32 <= 'Z' as u32 {
        c as u32 + 32
    } else {
        c as int
    }
}

/// Whether `a` and `b` differ at most in the case of ASCII letters.
pub open spec fn same_ignoring_ascii_case(a: Seq<char>, b: Seq<char>) -> bool {
    &&& a.len() == b.len()
    &&& forall|i: int| 0 <= i < a.len() ==> ascii_lower(#[trigger] a[i]) == ascii_lower(b[i])
}

/// Whether `c` is white space.
fn white_space(c: char) -> (res: bool)
    ensures
        res == is_white_space(c),
{
    let u: u32 = c as u32;
    (0x9 <= u && u <= 0xd) || u == 0x20 || u == 0x85 || u == 0xa0 || u == 0x1680 || (0x2000 <= u
        && u <= 0x200a) || u == 0x2028 || u == 0x2029 || u == 0x202f || u == 0x205f || u == 0x3000
}

/// Removes leading and trailing white space.
pub fn trim(s: &str) -> (res: &str)
    ensures
        res@ == trimmed(s@),
{
    let len: usize = s.unicode_len();
    let mut from: usize = 0;
    assert(s@.skip(0) =~= s@);
    while from < len && white_space(s.get_char(from))
        invariant
            len == s@.len(),
            from <= len,
            trimmed_start(s@) == trimmed_start(s@.skip(from as int)),
        decreases len - from,
    {
        assert(s@.skip(from as int).skip(1) =~= s@.skip(from + 1));
        from = from + 1;
    }
    let ghost body = s@.skip(from as int);
    assert(trimmed_start(s@) == body);
    let mut to: usize = len;
    assert(s@.subrange(from as int, to as int) =~= body);
    while from < to && white_space(s.get_char(to - 1))
        invariant
            len == s@.len(),
            from <= to <= len,
            trimmed_end(body) == trimmed_end(s@.subrange(from as int, to as int)),
        decreases to,
    {
        assert(s@.subrange(from as int, to as int).drop_last() =~= s@.subrange(
            from as int,
            to - 1,
        ));
        to = to - 1;
    }
    s.substring_char(from, to)
}

/// Removes the line feeds at the end of `s`.
pub fn trim_end_newlines(s: &str) -> (res: &str)
    ensures
        res@ == without_trailing_newlines(s@),
{
    let len: usize = s.unicode_len();
    let mut to: usize = len;
    assert(s@.take(len as int) =~= s@);
    while 0 < to && s.get_char(to - 1) == '\n'
        invariant
            len == s@.len(),
            to <= len,
            without_trailing_newlines(s@) == without_trailing_newlines(s@.take(to as int)),
        decreases to,
    {
        assert(s@.take(to as int).drop_last() =~= s@.take(to - 1));
        to = to - 1;
    }
    assert(s@.subrange(0, to as int) =~= s@.take(to as int));
    s.substring_char(0, to)
}

/// The code point of `c`, with ASCII capitals taken to lower case.
fn lower_code(c: char) -> (res: u32)
    ensures
        res == ascii_lower(c),
{
    let u: u32 = c as u32;
    if 0x41 <= u && u <= 0x5a {
        u + 32
    } else {
        u
    }
}

/// Compares two strings up to the case of ASCII letters.
pub fn eq_ignore_ascii_case(a: &str, b: &str) -> (res: bool)
    ensures
        res == same_ignoring_ascii_case(a@, b@),
        res <==> a@.len() == b@.len() && forall|i: int|
            0 <= i < a@.len() ==> {
                ||| #[trigger] a@[i] == b@[i]
                ||| 65 <= a@[i] as int <= 90 && b@[i] as int == a@[i] as int + 32
                ||| 65 <= b@[i] as int <= 90 && a@[i] as int == b@[i] as int + 32
            },
{
    let len: usize = a.unicode_len();
    if len != b.unicode_len() {
        return false;
    }
    let mut i: usize = 0;
    while i < len
        invariant
            len == a@.len(),
            len == b@.len(),
            i <= len,
            forall|j: int| 0 <= j < i ==> ascii_lower(#[trigger] a@[j]) == ascii_lower(b@[j]),
            forall|j: int|
                0 <= j < i ==> {
                    ||| #[trigger] a@[j] == b@[j]
                    ||| 65 <= a@[j] as int <= 90 && b@[j] as int == a@[j] as int + 32
                    ||| 65 <= b@[j] as int <= 90 && a@[j] as int == b@[j] as int + 32
                },
        decreases len - i,
    {
        let x: char = a.get_char(i);
        let y: char = b.get_char(i);
        if lower_code(x) != lower_code(y) {
            return false;
        }
        i = i + 1;
    }
    true
}

/// What follows `prefix` in `s`, if `s` begins with it.
pub fn strip_prefix<'a>(s: &'a str, prefix: &str) -> (res: Option<&'a str>)
    ensures
        res is Some <==> prefix@.is_prefix_of(s@),
        res matches Some(rest) ==> rest@ == s@.skip(prefix@.len() as int),
{
    let len: usize = s.unicode_len();
    let n: usize = prefix.unicode_len();
    if len < n {
        return None;
    }
    let mut i: usize = 0;
    while i < n
        invariant
            len == s@.len(),
            n == prefix@.len(),
            i <= n <= len,
            forall|j: int| 0 <= j < i ==> prefix@[j] == s@[j],
        decreases n - i,
    {
        if s.get_char(i) != prefix.get_char(i) {
            assert(s@.subrange(0, n as int)[i as int] != prefix@[i as int]);
            return None;
        }
        i = i + 1;
    }
    assert(prefix@ =~= s@.subrange(0, n as int));
    Some(s.substring_char(n, len))
}

/// Compares two strings.
pub fn eq(a: &str, b: &str) -> (res: bool)
    ensures
        res == (a@ == b@),
{
    match strip_prefix(a, b) {
        Some(rest) => {
            proof {
                if rest@.len() == 0 {
                    assert(a@ =~= b@);
                }
            }
            rest.is_empty()
        },
        None => false,
    }
}

/// Trimming the end stops at a character that is no white space.
pub proof fn lemma_trimmed_end_append(a: Seq<char>, b: Seq<char>)
    requires
        a.len() > 0,
        !is_white_space(a.last()),
    ensures
        trimmed_end(a + b) == a + trimmed_end(b),
    decreases b.len(),
{
    if b.len() == 0 {
        assert(a + b =~= a);
        assert(a + trimmed_end(b) =~= a);
    } else if is_white_space(b.last()) {
        assert((a + b).drop_last() =~= a + b.drop_last());
        lemma_trimmed_end_append(a, b.drop_last());
    }
}

/// White space at the end is trimmed off the end.
proof fn lemma_trimmed_end_drops(s: Seq<char>, after: Seq<char>)
    requires
        all_white_space(after),
    ensures
        trimmed_end(s + after) == trimmed_end(s),
    decreases after.len(),
{
    if after.len() == 0 {
        assert(s + after =~= s);
    } else {
        assert((s + after).drop_last() =~= s + after.drop_last());
        assert(is_white_space(after[after.len() - 1]));
        lemma_trimmed_end_drops(s, after.drop_last());
    }
}

/// White space at the start is trimmed off the start.
proof fn lemma_trimmed_start_drops(before: Seq<char>, s: Seq<char>)
    requires
        all_white_space(before),
    ensures
        trimmed_start(before + s) == trimmed_start(s),
    decreases before.len(),
{
    if before.len() == 0 {
        assert(before + s =~= s);
    } else {
        assert((before + s).skip(1) =~= before.skip(1) + s);
        assert(is_white_space(before[0]));
        lemma_trimmed_start_drops(before.skip(1), s);
    }
}

/// Trimming the start of a text with white space behind it leaves that white
/// space in place, unless there is nothing else.
proof fn lemma_trimmed_start_keeps_end(s: Seq<char>, after: Seq<char>)
    requires
        all_white_space(after),
    ensures
        trimmed_end(trimmed_start(s + after)) == trimmed_end(trimmed_start(s)),
    decreases s.len(),
{
    if s.len() == 0 {
        assert(s + after =~= after + s);
        lemma_trimmed_start_drops(after, s);
    } else if is_white_space(s[0]) {
        assert((s + after).skip(1) =~= s.skip(1) + after);
        lemma_trimmed_start_keeps_end(s.skip(1), after);
    } else {
        lemma_trimmed_end_drops(s, after);
    }
}

/// White space around a text does not change what trimming leaves.
pub proof fn lemma_trim_around(before: Seq<char>, s: Seq<char>, after: Seq<char>)
    requires
        all_white_space(before),
        all_white_space(after),
    ensures
        trimmed(before + s + after) == trimmed(s),
{
    assert(before + s + after =~= before + (s + after));
    lemma_trimmed_start_drops(before, s + after);
    lemma_trimmed_start_keeps_end(s, after);
}

/// What is left without the line feeds at its end does not end in one.
pub proof fn lemma_no_trailing_newline(s: Seq<char>)
    ensures
        without_trailing_newlines(s).len() > 0 ==> without_trailing_newlines(s).last() != '\n',
    decreases s.len(),
{
    if s.len() > 0 && s.last() == '\n' {
        lemma_no_trailing_newline(s.drop_last());
    }
}

/// White space is these code points and no others.
pub proof fn law_white_space(c: char)
    ensures
        is_white_space(c) <==> ({
            let u = c as int;
            ||| u == 9 || u == 10 || u == 11 || u == 12 || u == 13
            ||| u == 32 || u == 133 || u == 160 || u == 5760
            ||| u == 8192 || u == 8193 || u == 8194 || u == 8195 || u == 8196 || u == 8197
            ||| u == 8198 || u == 8199 || u == 8200 || u == 8201 || u == 8202
            ||| u == 8232 || u == 8233 || u == 8239 || u == 8287 || u == 12288
        }),
{
}

/// Trimming takes off the white space at both ends and nothing else.
pub proof fn law_trim(before: Seq<char>, body: Seq<char>, after: Seq<char>)
    requires
        forall|i: int| 0 <= i < before.len() ==> is_white_space(#[trigger] before[i]),
        forall|i: int| 0 <= i < after.len() ==> is_white_space(#[trigger] after[i]),
        body.len() > 0,
        !is_white_space(body[0]),
        !is_white_space(body[body.len() - 1]),
    ensures
        trimmed(before + body + after) == body,
        trimmed(before + after) == Seq::<char>::empty(),
{
    lemma_trim_around(before, body, after);
    lemma_trim_around(before, Seq::<char>::empty(), after);
    assert(before + Seq::<char>::empty() + after =~= before + after);
}

/// Line feeds at the end are taken off, and nothing else.
pub proof fn law_trailing_newlines(body: Seq<char>, newlines: Seq<char>)
    requires
        forall|i: int| 0 <= i < newlines.len() ==> #[trigger] newlines[i] as int == 10,
        body.len() > 0 ==> body[body.len() - 1] as int != 10,
    ensures
        without_trailing_newlines(body + newlines) == body,
    decreases newlines.len(),
{
    if newlines.len() == 0 {
        assert(body + newlines =~= body);
    } else {
        assert(newlines[newlines.len() - 1] as int == 10);
        assert((body + newlines).drop_last() =~= body + newlines.drop_last());
        law_trailing_newlines(body, newlines.drop_last());
    }
}

} // verus!
