//! Decimal integer parsing with the semantics of std's `str::parse` for
//! `u64` and `i32`: an optional sign, then ASCII digits read left to right.

use vstd::prelude::*;

verus! {

/// Why a piece of text is not a decimal integer of the requested type; the
/// same distinctions as std's `IntErrorKind`.
#[derive(Clone, Copy, Debug, PartialEq, Eq, Structural)]
pub enum IntErrorKind {
    /// The text is empty.
    Empty,
    /// The text holds a character that is not a digit where a digit is due.
    InvalidDigit,
    /// The value is larger than the type can hold.
    PosOverflow,
    /// The value is smaller than the type can hold.
    NegOverflow,
}

pub open spec fn is_digit(c: char) -> bool {
    '0' <= c && c <= '9'
}

pub open spec fn digit_value(c: char) -> int {
    c as int - '0' as int
}

/// Reads the digits of `d` from left to right, as std does: the first
/// non-digit gives `InvalidDigit`, and the first time the magnitude read so
/// far passes `bound` gives `overflow`.
pub open spec fn accumulate(d: Seq<char>, bound: int, overflow: IntErrorKind) -> Result<
    int,
    IntErrorKind,
>
    decreases d.len(),
{
    if d.len() == 0 {
        Ok(0)
    } else {
        match accumulate(d.drop_last(), bound, overflow) {
            Err(k) => Err(k),
            Ok(v) => if !is_digit(d.last()) {
                Err(IntErrorKind::InvalidDigit)
            } else if v * 10 + digit_value(d.last()) > bound {
                Err(overflow)
            } else {
                Ok(v * 10 + digit_value(d.last()))
            },
        }
    }
}

/// What `s.parse::<u64>()` returns for text `s`.
pub open spec fn parse_u64_spec(s: Seq<char>) -> Result<u64, IntErrorKind> {
    if s.len() == 0 {
        Err(IntErrorKind::Empty)
    } else if s.len() == 1 && (s[0] == '+' || s[0] == '-') {
        Err(IntErrorKind::InvalidDigit)
    } else {
        let d = if s[0] == '+' {
            s.drop_first()
        } else {
            s
        };
        match accumulate(d, u64::MAX as int, IntErrorKind::PosOverflow) {
            Ok(v) => Ok(v as u64),
            Err(k) => Err(k),
        }
    }
}

/// What `s.parse::<i32>()` returns for text `s`.
pub open spec fn parse_i32_spec(s: Seq<char>) -> Result<i32, IntErrorKind> {
    if s.len() == 0 {
        Err(IntErrorKind::Empty)
    } else if s.len() == 1 && (s[0] == '+' || s[0] == '-') {
        Err(IntErrorKind::InvalidDigit)
    } else if s[0] == '-' {
        match accumulate(s.drop_first(), 0x8000_0000, IntErrorKind::NegOverflow) {
            Ok(v) => Ok((-v) as i32),
            Err(k) => Err(k),
        }
    } else {
        let d = if s[0] == '+' {
            s.drop_first()
        } else {
            s
        };
        match accumulate(d, i32::MAX as int, IntErrorKind::PosOverflow) {
            Ok(v) => Ok(v as i32),
            Err(k) => Err(k),
        }
    }
}


/// The character of decimal digit `d`.
pub open spec fn digit_char(d: int) -> char {
    ('0' as int + d) as char
}

/// The decimal text of `n`, without sign or leading zeros.
pub open spec fn decimal(n: nat) -> Seq<char>
    decreases n,
{
    if n < 10 {
        seq![digit_char(n as int)]
    } else {
        decimal(n / 10).push(digit_char((n % 10) as int))
    }
}

/// The decimal text of `v`, with a `-` in front when it is negative.
pub open spec fn signed_decimal(v: int) -> Seq<char> {
    if v < 0 {
        seq!['-'] + decimal((-v) as nat)
    } else {
        decimal(v as nat)
    }
}

proof fn lemma_digit_char(d: int)
    requires
        0 <= d < 10,
    ensures
        is_digit(digit_char(d)),
        digit_value(digit_char(d)) == d,
{
    assert(('0' as int + d) as char as int == '0' as int + d);
}

/// Decimal text is made of digits, and reads back as its value.
pub proof fn lemma_decimal_reads_back(n: nat, bound: int, overflow: IntErrorKind)
    requires
        n <= bound,
    ensures
        decimal(n).len() >= 1,
        forall|i: int| 0 <= i < decimal(n).len() ==> #[trigger] is_digit(decimal(n)[i]),
        accumulate(decimal(n), bound, overflow) == Ok::<int, IntErrorKind>(n as int),
    decreases n,
{
    if n < 10 {
        lemma_digit_char(n as int);
        assert(decimal(n) == seq![digit_char(n as int)]);
        assert(decimal(n).drop_last() =~= Seq::<char>::empty());
        assert(accumulate(decimal(n).drop_last(), bound, overflow) == Ok::<int, IntErrorKind>(0));
    } else {
        let q = (n / 10) as nat;
        let r = n % 10;
        assert(q * 10 + r == n);
        assert(q < n);
        lemma_decimal_reads_back(q, bound, overflow);
        let d = decimal(n);
        assert(d.drop_last() =~= decimal(q));
        assert(d.last() == digit_char(r as int));
        lemma_digit_char(r as int);
        assert forall|i: int| 0 <= i < d.len() implies #[trigger] is_digit(d[i]) by {
            if i < d.len() - 1 {
                assert(d[i] == decimal(q)[i]);
            }
        }
    }
}

/// The decimal text of any `u64` parses back to it.
pub proof fn lemma_parse_u64_of_decimal(n: u64)
    ensures
        parse_u64_spec(decimal(n as nat)) == Ok::<u64, IntErrorKind>(n),
{
    lemma_decimal_reads_back(n as nat, u64::MAX as int, IntErrorKind::PosOverflow);
    assert(is_digit(decimal(n as nat)[0]));
}

/// The signed decimal text of any `i32` parses back to it.
pub proof fn lemma_parse_i32_of_signed_decimal(v: i32)
    ensures
        parse_i32_spec(signed_decimal(v as int)) == Ok::<i32, IntErrorKind>(v),
{
    if v < 0 {
        let m = (-v) as nat;
        lemma_decimal_reads_back(m, 0x8000_0000, IntErrorKind::NegOverflow);
        let s = signed_decimal(v as int);
        assert(s.drop_first() =~= decimal(m));
        assert(s[0] == '-');
    } else {
        lemma_decimal_reads_back(v as nat, i32::MAX as int, IntErrorKind::PosOverflow);
        assert(is_digit(decimal(v as nat)[0]));
    }
}

/// A successful accumulation stays within `0..=bound`.
pub proof fn lemma_accumulate_bounded(d: Seq<char>, bound: int, overflow: IntErrorKind)
    requires
        bound >= 0,
    ensures
        accumulate(d, bound, overflow) matches Ok(v) ==> 0 <= v <= bound,
    decreases d.len(),
{
    if d.len() > 0 {
        lemma_accumulate_bounded(d.drop_last(), bound, overflow);
    }
}

/// Once a prefix fails, the whole text fails the same way.
proof fn lemma_accumulate_error_persists(d: Seq<char>, i: int, bound: int, overflow: IntErrorKind)
    requires
        0 <= i <= d.len(),
        accumulate(d.subrange(0, i), bound, overflow) is Err,
    ensures
        accumulate(d, bound, overflow) == accumulate(d.subrange(0, i), bound, overflow),
    decreases d.len() - i,
{
    if i < d.len() {
        assert(d.subrange(0, i + 1).drop_last() =~= d.subrange(0, i));
        lemma_accumulate_error_persists(d, i + 1, bound, overflow);
    } else {
        assert(d.subrange(0, i) =~= d);
    }
}

/// Reads the digits of `s` from character `start` to the end, as
/// `accumulate` describes.
fn accumulate_digits(s: &str, start: usize, bound: u64, overflow: IntErrorKind) -> (r: Result<
    u64,
    IntErrorKind,
>)
    requires
        start <= s@.len(),
    ensures
        match accumulate(s@.subrange(start as int, s@.len() as int), bound as int, overflow) {
            Ok(v) => r == Ok::<u64, IntErrorKind>(v as u64),
            Err(k) => r == Err::<u64, IntErrorKind>(k),
        },
{
    let n = s.unicode_len();
    let ghost d = s@.subrange(start as int, n as int);
    let mut v: u64 = 0;
    let mut i = start;
    assert(d.subrange(0, 0) =~= Seq::<char>::empty());
    while i < n
        invariant
            n == s@.len(),
            start <= i <= n,
            d == s@.subrange(start as int, n as int),
            accumulate(d.subrange(0, i - start), bound as int, overflow) == Ok::<
                int,
                IntErrorKind,
            >(v as int),
        decreases n - i,
    {
        let c = s.get_char(i);
        let ghost k = i - start;
        assert(d.subrange(0, k + 1).drop_last() =~= d.subrange(0, k));
        assert(d.subrange(0, k + 1).last() == c);
        if !('0' <= c && c <= '9') {
            proof {
                lemma_accumulate_error_persists(d, k + 1, bound as int, overflow);
            }
            return Err(IntErrorKind::InvalidDigit);
        }
        let dig: u32 = (c as u32) - ('0' as u32);
        let next: u128 = (v as u128) * 10 + (dig as u128);
        if next > bound as u128 {
            proof {
                lemma_accumulate_error_persists(d, k + 1, bound as int, overflow);
            }
            return Err(overflow);
        }
        v = next as u64;
        i = i + 1;
    }
    assert(d.subrange(0, n - start) =~= d);
    Ok(v)
}

/// Parses `s` as `s.parse::<u64>()` does.
pub fn parse_u64(s: &str) -> (r: Result<u64, IntErrorKind>)
    ensures
        r == parse_u64_spec(s@),
{
    let n = s.unicode_len();
    if n == 0 {
        return Err(IntErrorKind::Empty);
    }
    let c0 = s.get_char(0);
    if n == 1 && (c0 == '+' || c0 == '-') {
        return Err(IntErrorKind::InvalidDigit);
    }
    let start: usize = if c0 == '+' {
        1
    } else {
        0
    };
    assert(s@.subrange(1, n as int) =~= s@.drop_first());
    assert(s@.subrange(0, n as int) =~= s@);
    proof {
        lemma_accumulate_bounded(
            s@.subrange(start as int, n as int),
            u64::MAX as int,
            IntErrorKind::PosOverflow,
        );
    }
    accumulate_digits(s, start, u64::MAX, IntErrorKind::PosOverflow)
}

/// Parses `s` as `s.parse::<i32>()` does.
pub fn parse_i32(s: &str) -> (r: Result<i32, IntErrorKind>)
    ensures
        r == parse_i32_spec(s@),
{
    let n = s.unicode_len();
    if n == 0 {
        return Err(IntErrorKind::Empty);
    }
    let c0 = s.get_char(0);
    if n == 1 && (c0 == '+' || c0 == '-') {
        return Err(IntErrorKind::InvalidDigit);
    }
    assert(s@.subrange(1, n as int) =~= s@.drop_first());
    assert(s@.subrange(0, n as int) =~= s@);
    if c0 == '-' {
        proof {
            lemma_accumulate_bounded(s@.drop_first(), 0x8000_0000, IntErrorKind::NegOverflow);
        }
        match accumulate_digits(s, 1, 0x8000_0000, IntErrorKind::NegOverflow) {
            Ok(v) => Ok((0i64 - v as i64) as i32),
            Err(k) => Err(k),
        }
    } else {
        let start: usize = if c0 == '+' {
            1
        } else {
            0
        };
        proof {
            lemma_accumulate_bounded(
                s@.subrange(start as int, n as int),
                i32::MAX as int,
                IntErrorKind::PosOverflow,
            );
        }
        match accumulate_digits(s, start, 0x7fff_ffff, IntErrorKind::PosOverflow) {
            Ok(v) => Ok(v as i32),
            Err(k) => Err(k),
        }
    }
}

} // verus!
