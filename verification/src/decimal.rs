//! Decimal notation of unsigned integers: how std prints a `u64` and how it
//! reads one back from a string.

use crate::text::push_char;
use vstd::prelude::*;

verus! {

/// Why a string is not the decimal notation of a `u64`, as std reports it.
#[derive(Clone, Copy, Debug, PartialEq, Eq, Structural, Hash)]
pub enum IntErrorKind {
    /// The string is empty.
    Empty,
    /// The string holds a character that is not a digit.
    InvalidDigit,
    /// The number is too large for a `u64`.
    PosOverflow,
}

/// The character of the decimal digit `d`.
pub open spec fn digit_char(d: int) -> char {
    if d == 0 {
        '0'
    } else if d == 1 {
        '1'
    } else if d == 2 {
        '2'
    } else if d == 3 {
        '3'
    } else if d == 4 {
        '4'
    } else if d == 5 {
        '5'
    } else if d == 6 {
        '6'
    } else if d == 7 {
        '7'
    } else if d == 8 {
        '8'
    } else {
        '9'
    }
}

/// Whether `c` is one of the ASCII digits `0` to `9`.
pub open spec fn is_digit(c: char) -> bool {
    '0' <= c && c <= '9'
}

/// The value of the digit `c`.
pub open spec fn digit_value(c: char) -> int {
    c as int - '0' as int
}

/// The decimal notation of `n`, without leading zeros.
pub open spec fn decimal_chars(n: nat) -> Seq<char>
    decreases n,
{
    if n < 10 {
        seq![digit_char(n as int)]
    } else {
        decimal_chars(n / 10).push(digit_char((n % 10) as int))
    }
}

/// Reading the digits `d` after the value `acc` was read: each digit multiplies
/// the value by ten and adds itself; the first character that is not a digit,
/// or the first digit that would take the value beyond `u64::MAX`, stops the
/// reading with an error.
pub open spec fn read_digits(d: Seq<char>, acc: int) -> Result<u64, IntErrorKind>
    decreases d.len(),
{
    if d.len() == 0 {
        Ok(acc as u64)
    } else if !is_digit(d[0]) {
        Err(IntErrorKind::InvalidDigit)
    } else if acc * 10 + digit_value(d[0]) > u64::MAX {
        Err(IntErrorKind::PosOverflow)
    } else {
        read_digits(d.drop_first(), acc * 10 + digit_value(d[0]))
    }
}

/// What std's `u64::from_str` returns for `s`: an optional leading `+`, then
/// one or more digits.
pub open spec fn parse_u64_spec(s: Seq<char>) -> Result<u64, IntErrorKind> {
    if s.len() == 0 {
        Err(IntErrorKind::Empty)
    } else if (s[0] == '+' || s[0] == '-') && s.len() == 1 {
        Err(IntErrorKind::InvalidDigit)
    } else if s[0] == '+' {
        read_digits(s.drop_first(), 0)
    } else {
        read_digits(s, 0)
    }
}

/// The character of the decimal digit `d`.
fn digit_to_char(d: u64) -> (c: char)
    requires
        d < 10,
    ensures
        c == digit_char(d as int),
{
    if d == 0 {
        '0'
    } else if d == 1 {
        '1'
    } else if d == 2 {
        '2'
    } else if d == 3 {
        '3'
    } else if d == 4 {
        '4'
    } else if d == 5 {
        '5'
    } else if d == 6 {
        '6'
    } else if d == 7 {
        '7'
    } else if d == 8 {
        '8'
    } else {
        '9'
    }
}

/// Appends the decimal notation of `n` to `s`.
pub fn push_decimal(s: &mut String, n: u64)
    ensures
        final(s)@ == old(s)@ + decimal_chars(n as nat),
    decreases n,
{
    if n >= 10 {
        push_decimal(s, n / 10);
    }
    push_char(s, digit_to_char(n % 10));
    proof {
        if n < 10 {
            assert(n % 10 == n);
        }
    }
}

/// The decimal notation of `n`, as std's `Display` for `u64` prints it.
pub fn u64_to_string(n: u64) -> (r: String)
    ensures
        r@ == decimal_chars(n as nat),
{
    let mut s = String::new();
    push_decimal(&mut s, n);
    assert(Seq::<char>::empty() + decimal_chars(n as nat) =~= decimal_chars(n as nat));
    s
}

/// Reads a `u64` from the characters `s`, as std's `u64::from_str` does.
pub fn parse_u64(s: &[char]) -> (r: Result<u64, IntErrorKind>)
    ensures
        r == parse_u64_spec(s@),
{
    let len = s.len();
    if len == 0 {
        return Err(IntErrorKind::Empty);
    }
    if (s[0] == '+' || s[0] == '-') && len == 1 {
        return Err(IntErrorKind::InvalidDigit);
    }
    let mut i: usize = if s[0] == '+' {
        1
    } else {
        0
    };
    let ghost d = s@.skip(i as int);
    proof {
        if s@[0] == '+' {
            assert(d =~= s@.drop_first());
        } else {
            assert(d =~= s@);
        }
    }
    let mut acc: u64 = 0;
    while i < len
        invariant
            len == s@.len(),
            i <= len,
            read_digits(d, 0) == read_digits(s@.skip(i as int), acc as int),
            parse_u64_spec(s@) == read_digits(d, 0),
        decreases len - i,
    {
        let c = s[i];
        let ghost rest = s@.skip(i as int);
        assert(rest[0] == c);
        if !('0' <= c && c <= '9') {
            return Err(IntErrorKind::InvalidDigit);
        }
        let dv = (c as u32 - '0' as u32) as u64;
        assert(dv == digit_value(c));
        if acc > (u64::MAX - dv) / 10 {
            assert(acc * 10 + dv > u64::MAX) by (nonlinear_arith)
                requires
                    acc > (u64::MAX - dv) / 10,
                    dv <= 9,
            ;
            return Err(IntErrorKind::PosOverflow);
        }
        assert(acc * 10 + dv <= u64::MAX) by (nonlinear_arith)
            requires
                acc <= (u64::MAX - dv) / 10,
                dv <= 9,
        ;
        acc = acc * 10 + dv;
        assert(rest.drop_first() =~= s@.skip(i + 1));
        i += 1;
    }
    assert(s@.skip(len as int).len() == 0);
    Ok(acc)
}

/// Reading one more digit after digits that read as `v`.
proof fn lemma_read_push(s: Seq<char>, acc: int, v: u64, c: char)
    requires
        0 <= acc <= u64::MAX,
        read_digits(s, acc) == Ok::<u64, IntErrorKind>(v),
        is_digit(c),
        v * 10 + digit_value(c) <= u64::MAX,
    ensures
        read_digits(s.push(c), acc) == Ok::<u64, IntErrorKind>((v * 10 + digit_value(c)) as u64),
    decreases s.len(),
{
    if s.len() == 0 {
        assert(acc == v);
        let t = s.push(c);
        assert(t[0] == c);
        assert(t.drop_first().len() == 0);
        assert(read_digits(t.drop_first(), acc * 10 + digit_value(c)) == Ok::<u64, IntErrorKind>(
            (acc * 10 + digit_value(c)) as u64,
        ));
    } else {
        let acc2 = acc * 10 + digit_value(s[0]);
        assert(is_digit(s[0]));
        assert(acc2 <= u64::MAX);
        assert(read_digits(s.drop_first(), acc2) == Ok::<u64, IntErrorKind>(v));
        lemma_read_push(s.drop_first(), acc2, v, c);
        assert(s.push(c).drop_first() =~= s.drop_first().push(c));
        assert(s.push(c)[0] == s[0]);
    }
}

/// Every character of a decimal notation is a digit, and the first one is not `+` or `-`.
pub proof fn lemma_decimal_digits(n: nat)
    ensures
        decimal_chars(n).len() > 0,
        forall|i: int| 0 <= i < decimal_chars(n).len() ==> is_digit(#[trigger] decimal_chars(n)[i]),
    decreases n,
{
    if n >= 10 {
        lemma_decimal_digits(n / 10);
        let p = decimal_chars(n / 10);
        assert forall|i: int| 0 <= i < decimal_chars(n).len() implies is_digit(
            #[trigger] decimal_chars(n)[i],
        ) by {
            if i < p.len() {
                assert(decimal_chars(n)[i] == p[i]);
            }
        }
    }
}

/// The digits of `n` read back as `n`.
proof fn lemma_read_decimal(n: nat)
    requires
        n <= u64::MAX,
    ensures
        read_digits(decimal_chars(n), 0) == Ok::<u64, IntErrorKind>(n as u64),
    decreases n,
{
    if n < 10 {
        let s = decimal_chars(n);
        assert(s.drop_first().len() == 0);
        assert(digit_value(digit_char(n as int)) == n);
        assert(is_digit(s[0]));
        assert(read_digits(s.drop_first(), n as int) == Ok::<u64, IntErrorKind>(n as u64));
    } else {
        lemma_read_decimal(n / 10);
        let d = digit_char((n % 10) as int);
        assert(digit_value(d) == n % 10);
        assert((n / 10) * 10 + n % 10 == n);
        lemma_read_push(decimal_chars(n / 10), 0, (n / 10) as u64, d);
    }
}

/// Printing a `u64` in decimal and reading the text back gives the same number.
pub proof fn law_decimal_roundtrip(n: u64)
    ensures
        parse_u64_spec(decimal_chars(n as nat)) == Ok::<u64, IntErrorKind>(n),
{
    lemma_decimal_digits(n as nat);
    lemma_read_decimal(n as nat);
    assert(is_digit(decimal_chars(n as nat)[0]));
}

/// Reads a `u64` from the string `s`, as std's `u64::from_str` does.
pub fn parse_u64_str(s: &str) -> (r: Result<u64, IntErrorKind>)
    ensures
        r == parse_u64_spec(s@),
{
    let cs = crate::text::chars_of(s);
    parse_u64(cs.as_slice())
}

} // verus!
