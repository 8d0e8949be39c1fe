//! Decimal numerals: reading a `u32` and writing an `i32`.

use vstd::prelude::*;

verus! {

/// Why a text is not the numeral of a `u32`.
#[derive(Clone, Copy, Debug, PartialEq, Eq, Structural)]
pub enum NumeralError {
    /// There is no text.
    Empty,
    /// A character other than a digit comes before the number grows too large.
    InvalidDigit,
    /// The digits read so far exceed `u32::MAX`.
    PosOverflow,
}

/// Whether `c` is one of the digits `0` to `9`.
pub open spec fn is_digit(c: char) -> bool {
    '0' as u32 <= c as u32 <= '9' as u32
}

/// Whether `s` holds digits only.
pub open spec fn all_digits(s: Seq<char>) -> bool {
    forall|i: int| 0 <= i < s.len() ==> is_digit(#[trigger] s[i])
}

/// The number that a sequence of digits denotes.
pub open spec fn digits_value(s: Seq<char>) -> int
    decreases s.len(),
{
    if s.len() == 0 {
        0
    } else {
        10 * digits_value(s.drop_last()) + (s.last() as u32 - '0' as u32)
    }
}

/// A numeral without its sign: one `+` may stand before at least one more
/// character.
pub open spec fn unsigned_part(s: Seq<char>) -> Seq<char> {
    if s.len() > 1 && s[0] == '+' {
        s.skip(1)
    } else {
        s
    }
}

/// Whether the first `k` characters of `s` are digits that denote more than a
/// `u32` holds.
pub open spec fn overflows_at(s: Seq<char>, k: int) -> bool {
    &&& 0 <= k <= s.len()
    &&& all_digits(s.take(k))
    &&& digits_value(s.take(k)) > u32::MAX
}

/// What the text `s` denotes as a `u32`: an optional `+`, then decimal digits.
pub open spec fn u32_of(s: Seq<char>) -> Result<u32, NumeralError> {
    let digits = unsigned_part(s);
    if s.len() == 0 {
        Err(NumeralError::Empty)
    } else if exists|k: int| #[trigger] overflows_at(digits, k) {
        Err(NumeralError::PosOverflow)
    } else if all_digits(digits) {
        Ok(digits_value(digits) as u32)
    } else {
        Err(NumeralError::InvalidDigit)
    }
}

impl NumeralError {
    /// The reason in words.
    pub open spec fn text(self) -> Seq<char> {
        match self {
            NumeralError::Empty => "cannot parse integer from empty string"@,
            NumeralError::InvalidDigit => "invalid digit found in string"@,
            NumeralError::PosOverflow => "number too large to fit in target type"@,
        }
    }

    /// The reason in words.
    pub fn message(&self) -> (res: &'static str)
        ensures
            res@ == self.text(),
            *self == NumeralError::Empty ==> res@ == "cannot parse integer from empty string"@,
            *self == NumeralError::InvalidDigit ==> res@ == "invalid digit found in string"@,
            *self == NumeralError::PosOverflow ==> res@
                == "number too large to fit in target type"@,
    {
        match self {
            NumeralError::Empty => "cannot parse integer from empty string",
            NumeralError::InvalidDigit => "invalid digit found in string",
            NumeralError::PosOverflow => "number too large to fit in target type",
        }
    }
}

/// Digits denote a number that is not negative, and a longer run of digits
/// denotes no smaller a number.
proof fn lemma_digits_value_grows(s: Seq<char>, k: int)
    requires
        all_digits(s),
        0 <= k <= s.len(),
    ensures
        0 <= digits_value(s.take(k)) <= digits_value(s),
    decreases s.len(),
{
    if s.len() == 0 {
        assert(s.take(k) =~= s);
    } else if k == s.len() {
        assert(s.take(k) =~= s);
        assert(is_digit(s[s.len() - 1]));
        lemma_digits_value_grows(s.drop_last(), 0);
    } else {
        assert(is_digit(s[s.len() - 1]));
        assert(s.drop_last().take(k) =~= s.take(k));
        lemma_digits_value_grows(s.drop_last(), k);
    }
}

/// A run of digits whose value fits in a `u32` overflows nowhere.
proof fn lemma_fits_nowhere_overflows(s: Seq<char>)
    requires
        all_digits(s),
        digits_value(s) <= u32::MAX,
    ensures
        !exists|k: int| #[trigger] overflows_at(s, k),
{
    assert forall|k: int| !#[trigger] overflows_at(s, k) by {
        if 0 <= k <= s.len() {
            lemma_digits_value_grows(s, k);
        }
    }
}

/// Where a character that is no digit follows digits that fit in a `u32`,
/// there is no overflow.
proof fn lemma_stray_character_stops(s: Seq<char>, i: int)
    requires
        0 <= i < s.len(),
        all_digits(s.take(i)),
        digits_value(s.take(i)) <= u32::MAX,
        !is_digit(s[i]),
    ensures
        !all_digits(s),
        !exists|k: int| #[trigger] overflows_at(s, k),
{
    assert forall|k: int| !#[trigger] overflows_at(s, k) by {
        if 0 <= k <= i {
            lemma_digits_value_grows(s.take(i), k);
            assert(s.take(i).take(k) =~= s.take(k));
        } else if i < k <= s.len() {
            assert(s.take(k)[i] == s[i]);
        }
    }
}

/// Reads a decimal `u32`.
pub fn parse_u32(s: &str) -> (res: Result<u32, NumeralError>)
    ensures
        res == u32_of(s@),
{
    let len: usize = s.unicode_len();
    if len == 0 {
        return Err(NumeralError::Empty);
    }
    let start: usize = if len > 1 && s.get_char(0) == '+' {
        1
    } else {
        0
    };
    let ghost digits = unsigned_part(s@);
    assert(digits =~= s@.skip(start as int));
    let mut i: usize = start;
    let mut value: u32 = 0;
    assert(digits.take(0) =~= Seq::<char>::empty());
    while i < len
        invariant
            len == s@.len(),
            len > 0,
            start <= i <= len,
            digits == unsigned_part(s@),
            digits == s@.skip(start as int),
            all_digits(digits.take(i - start)),
            value == digits_value(digits.take(i - start)),
        decreases len - i,
    {
        let c: char = s.get_char(i);
        let ghost k = i - start;
        assert(digits[k] == c);
        assert(digits.take(k + 1).drop_last() =~= digits.take(k));
        let code: u32 = c as u32;
        if code < 0x30 || code > 0x39 {
            proof {
                lemma_stray_character_stops(digits, k);
            }
            return Err(NumeralError::InvalidDigit);
        }
        assert(all_digits(digits.take(k + 1))) by {
            assert forall|j: int| 0 <= j < digits.take(k + 1).len() implies is_digit(
                #[trigger] digits.take(k + 1)[j],
            ) by {
                if j < k {
                    assert(digits.take(k)[j] == digits.take(k + 1)[j]);
                }
            }
        }
        let grown: u64 = 10 * (value as u64) + (code - 0x30) as u64;
        assert(grown == digits_value(digits.take(k + 1)));
        if grown > 0xffff_ffff {
            assert(overflows_at(digits, k + 1));
            return Err(NumeralError::PosOverflow);
        }
        value = grown as u32;
        i = i + 1;
    }
    assert(digits.take(len - start) =~= digits);
    proof {
        lemma_fits_nowhere_overflows(digits);
    }
    Ok(value)
}

/// The digit for a number below ten.
pub open spec fn digit_char(d: int) -> char {
    ('0' as u32 + d) as char
}

/// The shortest decimal numeral of a natural number.
pub open spec fn decimal(n: nat) -> Seq<char>
    decreases n,
{
    if n < 10 {
        seq![digit_char(n as int)]
    } else {
        decimal(n / 10).push(digit_char((n % 10) as int))
    }
}

/// The decimal numeral of an integer, with a `-` before a negative one.
pub open spec fn signed_decimal(i: int) -> Seq<char> {
    if i < 0 {
        seq!['-'] + decimal((-i) as nat)
    } else {
        decimal(i as nat)
    }
}

/// The digit for a number below ten, as text.
fn digit_text(d: u64) -> (res: &'static str)
    requires
        d < 10,
    ensures
        res@ == seq![digit_char(d as int)],
{
    proof {
        reveal_strlit("0");
        reveal_strlit("1");
        reveal_strlit("2");
        reveal_strlit("3");
        reveal_strlit("4");
        reveal_strlit("5");
        reveal_strlit("6");
        reveal_strlit("7");
        reveal_strlit("8");
        reveal_strlit("9");
    }
    match d {
        0 => "0",
        1 => "1",
        2 => "2",
        3 => "3",
        4 => "4",
        5 => "5",
        6 => "6",
        7 => "7",
        8 => "8",
        _ => "9",
    }
}

/// Appends the decimal numeral of `n`.
fn append_decimal(out: &mut String, n: u64)
    ensures
        final(out)@ == old(out)@ + decimal(n as nat),
    decreases n,
{
    if n < 10 {
        out.append(digit_text(n));
    } else {
        append_decimal(out, n / 10);
        out.append(digit_text(n % 10));
        assert(out@ =~= old(out)@ + decimal(n as nat));
    }
}

/// Appends the decimal numeral of `i`.
pub fn append_i32(out: &mut String, i: i32)
    ensures
        final(out)@ == old(out)@ + signed_decimal(i as int),
{
    if i < 0 {
        proof {
            reveal_strlit("-");
        }
        out.append("-");
        append_decimal(out, (-(i as i64)) as u64);
        assert(out@ =~= old(out)@ + signed_decimal(i as int));
    } else {
        append_decimal(out, i as u64);
    }
}

/// Appends the decimal numeral of `n`.
pub fn append_u32(out: &mut String, n: u32)
    ensures
        final(out)@ == old(out)@ + decimal(n as nat),
{
    append_decimal(out, n as u64);
}

/// A numeral that was written consists of digits and denotes the number it was
/// written for.
proof fn lemma_decimal_value(n: nat)
    ensures
        decimal(n).len() > 0,
        all_digits(decimal(n)),
        digits_value(decimal(n)) == n,
    decreases n,
{
    if n < 10 {
        assert(decimal(n).drop_last() =~= Seq::<char>::empty());
        assert(digits_value(Seq::<char>::empty()) == 0);
    } else {
        lemma_decimal_value(n / 10);
        assert(decimal(n).drop_last() =~= decimal(n / 10));
    }
}

/// Reading what was written gives the number back.
pub proof fn law_numeral_round_trip(n: u32)
    ensures
        decimal(n as nat).len() > 0,
        all_digits(decimal(n as nat)),
        u32_of(decimal(n as nat)) == Ok::<u32, NumeralError>(n),
{
    let s = decimal(n as nat);
    lemma_decimal_value(n as nat);
    assert(is_digit(s[0]));
    assert(unsigned_part(s) == s);
    lemma_fits_nowhere_overflows(s);
}

/// The value of digits is positional: no digits denote zero, and a digit behind
/// others adds itself to ten times what they denote.
pub proof fn law_digits_are_positional(digits: Seq<char>, c: char)
    ensures
        digits_value(Seq::<char>::empty()) == 0,
        digits_value(digits.push(c)) == 10 * digits_value(digits) + (c as int - 48),
{
    assert(digits.push(c).drop_last() =~= digits);
}

/// What one more character does to the places where digits overflow.
proof fn lemma_push_overflow(d: Seq<char>, c: char)
    ensures
        (exists|k: int| #[trigger] overflows_at(d.push(c), k)) <==> {
            ||| exists|k: int| #[trigger] overflows_at(d, k)
            ||| all_digits(d.push(c)) && digits_value(d.push(c)) > u32::MAX
        },
        all_digits(d.push(c)) <==> all_digits(d) && is_digit(c),
{
    let e = d.push(c);
    assert(forall|i: int| 0 <= i < d.len() ==> e[i] == d[i]);
    assert(e[d.len() as int] == c);
    assert(e.take(e.len() as int) =~= e);
    if all_digits(e) {
        assert forall|i: int| 0 <= i < d.len() implies is_digit(#[trigger] d[i]) by {
            assert(is_digit(e[i]));
        }
        assert(is_digit(e[d.len() as int]));
    }
    if exists|k: int| #[trigger] overflows_at(e, k) {
        let k = choose|k: int| #[trigger] overflows_at(e, k);
        if k <= d.len() {
            assert(e.take(k) =~= d.take(k));
            assert(overflows_at(d, k));
        }
    }
    if exists|k: int| #[trigger] overflows_at(d, k) {
        let k = choose|k: int| #[trigger] overflows_at(d, k);
        assert(e.take(k) =~= d.take(k));
        assert(overflows_at(e, k));
    }
    if all_digits(e) && digits_value(e) > u32::MAX {
        assert(overflows_at(e, e.len() as int));
    }
}

/// What a text without characters and a text of one character are read as.
pub proof fn law_read_short(c: char)
    ensures
        u32_of(Seq::<char>::empty()) == Err::<u32, NumeralError>(NumeralError::Empty),
        48 <= c as int <= 57 ==> (u32_of(seq![c]) matches Ok(v) && v == c as int - 48),
        !(48 <= c as int <= 57) ==> u32_of(seq![c]) == Err::<u32, NumeralError>(
            NumeralError::InvalidDigit,
        ),
{
    let one = seq![c];
    assert(one =~= Seq::<char>::empty().push(c));
    lemma_push_overflow(Seq::<char>::empty(), c);
    law_digits_are_positional(Seq::<char>::empty(), c);
    assert forall|k: int| !#[trigger] overflows_at(Seq::<char>::empty(), k) by {
        if k == 0 {
            assert(Seq::<char>::empty().take(0) =~= Seq::<char>::empty());
        }
    }
}

/// How one more character changes what is read. A digit behind a number makes
/// it ten times as large and adds itself, or overflows; any other character
/// spoils it; an error stays the same error; and a sign alone counts for
/// nothing before what follows it.
pub proof fn law_read_one_more(s: Seq<char>, c: char)
    requires
        s.len() > 0,
    ensures
        s == seq!['+'] ==> u32_of(s.push(c)) == u32_of(seq![c]),
        s != seq!['+'] ==> match u32_of(s) {
            Ok(v) => if !(48 <= c as int <= 57) {
                u32_of(s.push(c)) == Err::<u32, NumeralError>(NumeralError::InvalidDigit)
            } else if 10 * v + (c as int - 48) > 4294967295 {
                u32_of(s.push(c)) == Err::<u32, NumeralError>(NumeralError::PosOverflow)
            } else {
                u32_of(s.push(c)) matches Ok(w) && w == 10 * v + (c as int - 48)
            },
            Err(error) => u32_of(s.push(c)) == Err::<u32, NumeralError>(error),
        },
{
    let longer = s.push(c);
    assert(longer[0] == s[0]);
    if s == seq!['+'] {
        assert(longer.skip(1) =~= seq![c]);
        assert(unsigned_part(seq![c]) == seq![c]);
    } else {
        let d = unsigned_part(s);
        if s.len() == 1 && s[0] == '+' {
            assert(s =~= seq!['+']);
        }
        assert(unsigned_part(longer) =~= d.push(c));
        lemma_push_overflow(d, c);
        law_digits_are_positional(d, c);
        if u32_of(s) is Ok {
            assert(d.take(d.len() as int) =~= d);
            assert(!overflows_at(d, d.len() as int));
            lemma_digits_value_grows(d, 0);
            assert(d.take(0) =~= Seq::<char>::empty());
        }
    }
}

/// A number below ten is written as its digit, and any other as its tens
/// followed by its last digit. A negative number has a minus before it.
pub proof fn law_written_numerals(tens: nat, digit: nat, i: int)
    requires
        tens > 0,
        digit < 10,
    ensures
        decimal(digit).len() == 1,
        decimal(digit)[0] as int == 48 + digit,
        decimal(10 * tens + digit) == decimal(tens) + decimal(digit),
        i < 0 ==> signed_decimal(i) == "-"@ + decimal((-i) as nat),
        i >= 0 ==> signed_decimal(i) == decimal(i as nat),
{
    reveal_strlit("-");
    assert("-"@ =~= seq!['-']);
    let n = 10 * tens + digit;
    assert(n / 10 == tens && n % 10 == digit);
    assert(decimal(n) =~= decimal(tens) + decimal(digit));
}

} // verus!
