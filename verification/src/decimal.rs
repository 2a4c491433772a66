//! Decimal text of unsigned integers, as bytes.
//!
//! A timestamp record holds a time in seconds as ASCII decimal digits. This
//! module says what that text is, writes it, reads it back, and proves that
//! reading undoes writing.

use vstd::prelude::*;

verus! {

/// ASCII code of the digit `0`.
pub const ZERO: u8 = 48;

/// ASCII code of the digit `9`.
pub const NINE: u8 = 57;

/// ASCII code of the plus sign, which may stand before the digits.
pub const PLUS: u8 = 43;

/// Whether `b` is one of the ASCII digits `0` to `9`.
pub open spec fn is_digit(b: u8) -> bool {
    ZERO <= b <= NINE
}

/// Whether every byte of `s` is an ASCII digit.
pub open spec fn all_digits(s: Seq<u8>) -> bool {
    forall|i: int| 0 <= i < s.len() ==> is_digit(#[trigger] s[i])
}

/// The number that the digit `b` stands for; 0 for any other byte.
pub open spec fn digit_value(b: u8) -> nat {
    if is_digit(b) {
        (b - ZERO) as nat
    } else {
        0
    }
}

/// The number that the digit string `s` denotes in base ten, most
/// significant digit first. The empty string denotes 0.
pub open spec fn digits_value(s: Seq<u8>) -> nat
    decreases s.len(),
{
    if s.len() == 0 {
        0
    } else {
        digits_value(s.drop_last()) * 10 + digit_value(s.last())
    }
}

/// The ASCII digit for `d`, which is below ten.
pub open spec fn digit_of(d: nat) -> u8
    recommends
        d < 10,
{
    (ZERO + d) as u8
}

/// The decimal text of `n`: its digits in base ten, most significant first,
/// with no sign and no leading zero. The text of 0 is the single digit `0`.
pub open spec fn decimal(n: nat) -> Seq<u8>
    decreases n,
{
    if n < 10 {
        seq![digit_of(n)]
    } else {
        decimal(n / 10).push(digit_of(n % 10))
    }
}

/// The digits of `s` once an optional leading plus sign is taken off.
pub open spec fn unsigned_part(s: Seq<u8>) -> Seq<u8> {
    if s.len() > 0 && s[0] == PLUS {
        s.drop_first()
    } else {
        s
    }
}

/// What `s` denotes as an unsigned 64-bit integer, if anything.
///
/// Accepted is an optional plus sign followed by one or more ASCII digits
/// whose value fits in 64 bits. Leading zeros are accepted. Anything else
/// (the empty string, a lone sign, a minus sign, a blank, a byte that is not
/// ASCII, a value that is too large) denotes nothing.
pub open spec fn parse_u64(s: Seq<u8>) -> Option<u64> {
    let digits = unsigned_part(s);
    if digits.len() > 0 && all_digits(digits) && digits_value(digits) <= u64::MAX {
        Some(digits_value(digits) as u64)
    } else {
        None
    }
}

/// A digit string denotes at least as much as any of its prefixes.
pub proof fn lemma_prefix_value_is_smaller(s: Seq<u8>, k: int)
    requires
        0 <= k <= s.len(),
    ensures
        digits_value(s.subrange(0, k)) <= digits_value(s),
    decreases s.len() - k,
{
    if k == s.len() {
        assert(s.subrange(0, k) =~= s);
    } else {
        lemma_prefix_value_is_smaller(s, k + 1);
        assert(s.subrange(0, k + 1).drop_last() =~= s.subrange(0, k));
    }
}

/// The decimal text of `n` is a non-empty string of digits that denotes `n`,
/// and it starts with `0` only where `n` is 0.
pub proof fn lemma_decimal_is_digits(n: nat)
    ensures
        decimal(n).len() > 0,
        all_digits(decimal(n)),
        digits_value(decimal(n)) == n,
        decimal(n)[0] == ZERO <==> n == 0,
    decreases n,
{
    if n < 10 {
        assert(decimal(n) =~= seq![digit_of(n)]);
        assert(decimal(n).drop_last() =~= Seq::<u8>::empty());
        assert(digits_value(decimal(n).drop_last()) == 0);
    } else {
        lemma_decimal_is_digits(n / 10);
        let init = decimal(n / 10);
        assert(decimal(n).drop_last() =~= init);
        assert(decimal(n).last() == digit_of(n % 10));
        assert(decimal(n)[0] == init[0]);
    }
}

/// Reading the decimal text of a 64-bit number gives the number back.
pub proof fn lemma_parse_decimal_round_trip(n: u64)
    ensures
        parse_u64(decimal(n as nat)) == Some(n),
{
    lemma_decimal_is_digits(n as nat);
    let text = decimal(n as nat);
    assert(is_digit(text[0]));
    assert(unsigned_part(text) == text);
}

/// Writes `n` as decimal text.
pub fn format_u64(n: u64) -> (text: Vec<u8>)
    ensures
        text@ == decimal(n as nat),
    decreases n,
{
    if n < 10 {
        let digit: u8 = ZERO + (n as u8);
        let mut text: Vec<u8> = Vec::new();
        text.push(digit);
        assert(text@ =~= seq![digit_of(n as nat)]);
        text
    } else {
        let digit: u8 = ZERO + ((n % 10) as u8);
        let mut text = format_u64(n / 10);
        text.push(digit);
        text
    }
}

/// Reads decimal text as an unsigned 64-bit integer.
///
/// Returns the number exactly where `parse_u64` gives one, and `None` on
/// every other input.
pub fn parse_decimal(bytes: &[u8]) -> (value: Option<u64>)
    ensures
        value == parse_u64(bytes@),
{
    let n: usize = bytes.len();
    let start: usize = if n > 0 && bytes[0] == PLUS {
        1
    } else {
        0
    };
    let ghost digits = unsigned_part(bytes@);
    assert(digits =~= bytes@.subrange(start as int, n as int));
    if start == n {
        return None;
    }
    let mut acc: u64 = 0;
    let mut i: usize = start;
    assert(digits.subrange(0, 0) =~= Seq::<u8>::empty());
    while i < n
        invariant
            start <= i <= n,
            n == bytes@.len(),
            digits == unsigned_part(bytes@),
            digits == bytes@.subrange(start as int, n as int),
            all_digits(digits.subrange(0, i - start)),
            acc == digits_value(digits.subrange(0, i - start)),
        decreases n - i,
    {
        let b: u8 = bytes[i];
        assert(digits[i - start] == b);
        if b < ZERO || b > NINE {
            assert(!is_digit(digits[i - start]));
            return None;
        }
        let d: u64 = (b - ZERO) as u64;
        let ghost longer = digits.subrange(0, i - start + 1);
        assert(longer.drop_last() =~= digits.subrange(0, i - start));
        assert(longer.last() == b);
        assert(digits_value(longer) == acc * 10 + d);
        if acc > (u64::MAX - d) / 10 {
            proof {
                lemma_prefix_value_is_smaller(digits, i - start + 1);
            }
            return None;
        }
        acc = acc * 10 + d;
        assert forall|k: int| 0 <= k < longer.len() implies is_digit(#[trigger] longer[k]) by {
            if k < i - start {
                assert(longer[k] == digits.subrange(0, i - start)[k]);
            }
        }
        i = i + 1;
    }
    assert(digits.subrange(0, i - start) =~= digits);
    Some(acc)
}

} // verus!
