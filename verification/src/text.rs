//! Decimal text: digits of unsigned numbers, fixed-point notation and the
//! reading of digit strings.

use vstd::prelude::*;
use vstd::string::*;

verus! {

/// The character that stands for a decimal digit `d` (0 to 9).
pub open spec fn digit_char(d: nat) -> char {
    if d == 0 {
        '0'
    } else if d == 1 {
        '1'
    } else if d == 2 {
        '2'
    } else if d == 3 {
        '3'
    } else if d == 4 {
        '4'
    } else if d == 5 {
        '5'
    } else if d == 6 {
        '6'
    } else if d == 7 {
        '7'
    } else if d == 8 {
        '8'
    } else {
        '9'
    }
}

/// Decimal notation of `n`, most significant digit first, no leading zero.
pub open spec fn decimal(n: nat) -> Seq<char>
    decreases n,
{
    if n < 10 {
        seq![digit_char(n)]
    } else {
        decimal(n / 10).push(digit_char(n % 10))
    }
}

/// Appends one character to a string: `String::push` of std, which adds
/// `c` at the end and leaves what was there as it is.
#[verifier::external_body]
fn push_char(s: &mut String, c: char)
    ensures
        final(s)@ == old(s)@.push(c),
{
    s.push(c);
}

/// The character of a digit value.
fn digit_of(d: u8) -> (c: char)
    requires
        d < 10,
    ensures
        c == digit_char(d as nat),
{
    if d == 0 {
        '0'
    } else if d == 1 {
        '1'
    } else if d == 2 {
        '2'
    } else if d == 3 {
        '3'
    } else if d == 4 {
        '4'
    } else if d == 5 {
        '5'
    } else if d == 6 {
        '6'
    } else if d == 7 {
        '7'
    } else if d == 8 {
        '8'
    } else {
        '9'
    }
}

/// The digits of `low`, least significant first, read backwards.
spec fn reversed_digits(low: Seq<u8>) -> Seq<char> {
    Seq::new(low.len(), |i: int| digit_char(low[low.len() - 1 - i] as nat))
}

/// Appends to `out` the digits held in `low`, last one first.
fn push_reversed(out: &mut String, low: &Vec<u8>)
    requires
        forall|i: int| 0 <= i < low@.len() ==> low@[i] < 10,
    ensures
        final(out)@ == old(out)@ + reversed_digits(low@),
{
    let mut k: usize = low.len();
    while k > 0
        invariant
            k <= low@.len(),
            forall|i: int| 0 <= i < low@.len() ==> low@[i] < 10,
            out@ == old(out)@ + reversed_digits(low@).subrange(0, low@.len() - k),
        decreases k,
    {
        k = k - 1;
        push_char(out, digit_of(low[k]));
    }
}

/// Appends the decimal notation of `n` to `out`.
pub fn push_decimal(out: &mut String, n: u128)
    ensures
        final(out)@ == old(out)@ + decimal(n as nat),
{
    let mut low: Vec<u8> = Vec::new();
    let mut rest: u128 = n;
    low.push((rest % 10) as u8);
    rest = rest / 10;
    while rest > 0
        invariant
            forall|i: int| 0 <= i < low@.len() ==> low@[i] < 10,
            rest > 0 ==> decimal(n as nat) == decimal(rest as nat) + reversed_digits(low@),
            rest == 0 ==> decimal(n as nat) == reversed_digits(low@),
        decreases rest,
    {
        low.push((rest % 10) as u8);
        rest = rest / 10;
    }
    push_reversed(out, &low);
}

/// Decimal notation of `n` as a string.
pub fn format_number(n: u128) -> (s: String)
    ensures
        s@ == decimal(n as nat),
{
    let mut s = String::new();
    push_decimal(&mut s, n);
    s
}

/// Ten to the power `k`.
pub open spec fn pow10(k: nat) -> nat
    decreases k,
{
    if k == 0 {
        1
    } else {
        10 * pow10((k - 1) as nat)
    }
}

/// The last `width` decimal digits of `n`, with leading zeros kept.
pub open spec fn padded(n: nat, width: nat) -> Seq<char>
    decreases width,
{
    if width == 0 {
        Seq::empty()
    } else {
        padded(n / 10, (width - 1) as nat).push(digit_char(n % 10))
    }
}

/// Fixed-point notation of `value` counted in units of ten to the minus
/// `places`: the whole part, a point, and `places` digits of fraction.
pub open spec fn fixed_point(value: nat, places: nat) -> Seq<char> {
    decimal(value / pow10(places)) + seq!['.'] + padded(value % pow10(places), places)
}

/// Appends the last `width` digits of `n` to `out`, zeros included.
pub fn push_padded(out: &mut String, n: u128, width: usize)
    ensures
        final(out)@ == old(out)@ + padded(n as nat, width as nat),
{
    let mut low: Vec<u8> = Vec::new();
    let mut rest: u128 = n;
    let mut j: usize = 0;
    while j < width
        invariant
            j <= width,
            low@.len() == j,
            forall|i: int| 0 <= i < low@.len() ==> low@[i] < 10,
            padded(n as nat, width as nat) == padded(rest as nat, (width - j) as nat)
                + reversed_digits(low@),
        decreases width - j,
    {
        low.push((rest % 10) as u8);
        rest = rest / 10;
        j = j + 1;
    }
    push_reversed(out, &low);
}

/// Ten to the power `places`, for the powers that fit.
pub fn power_of_ten(places: u8) -> (p: u128)
    requires
        places <= 38,
    ensures
        p == pow10(places as nat),
        p >= 1,
{
    let mut p: u128 = 1;
    let mut k: u8 = 0;
    proof {
        lemma_pow10_monotonic(0, 38);
    }
    while k < places
        invariant
            k <= places,
            places <= 38,
            p == pow10(k as nat),
            1 <= p,
            p <= pow10(38),
        decreases places - k,
    {
        proof {
            lemma_pow10_monotonic((k + 1) as nat, 38);
            lemma_pow10_38();
        }
        p = p * 10;
        k = k + 1;
    }
    p
}

/// `pow10` grows with its exponent.
pub proof fn lemma_pow10_monotonic(a: nat, b: nat)
    requires
        a <= b,
    ensures
        1 <= pow10(a) <= pow10(b),
    decreases b,
{
    if a == 0 {
        if b > 0 {
            lemma_pow10_monotonic(0, (b - 1) as nat);
        }
    } else {
        lemma_pow10_monotonic((a - 1) as nat, (b - 1) as nat);
    }
}

/// Ten to the 38th is the largest power of ten below 2^128.
pub proof fn lemma_pow10_38()
    ensures
        pow10(38) == 100000000000000000000000000000000000000,
        pow10(38) <= u128::MAX,
{
    reveal_with_fuel(pow10, 39);
}

/// Appends `value` in fixed-point notation with `places` digits after the
/// point.
pub fn push_fixed(out: &mut String, value: u128, places: u8)
    requires
        places <= 38,
    ensures
        final(out)@ == old(out)@ + fixed_point(value as nat, places as nat),
{
    let scale = power_of_ten(places);
    push_decimal(out, value / scale);
    push_char(out, '.');
    push_padded(out, value % scale, places as usize);
}

/// `value` in fixed-point notation with `places` digits after the point.
pub fn format_fixed(value: u128, places: u8) -> (s: String)
    requires
        places <= 38,
    ensures
        s@ == fixed_point(value as nat, places as nat),
{
    let mut s = String::new();
    push_fixed(&mut s, value, places);
    s
}

/// The value of a decimal digit; nothing for any other character.
pub open spec fn digit_value(c: char) -> Option<nat> {
    if c == '0' {
        Some(0)
    } else if c == '1' {
        Some(1)
    } else if c == '2' {
        Some(2)
    } else if c == '3' {
        Some(3)
    } else if c == '4' {
        Some(4)
    } else if c == '5' {
        Some(5)
    } else if c == '6' {
        Some(6)
    } else if c == '7' {
        Some(7)
    } else if c == '8' {
        Some(8)
    } else if c == '9' {
        Some(9)
    } else {
        None
    }
}

/// Whether every character of `s` is a decimal digit.
pub open spec fn all_digits(s: Seq<char>) -> bool {
    forall|i: int| 0 <= i < s.len() ==> digit_value(#[trigger] s[i]) is Some
}

/// The number that the digits of `s` write, leading zeros allowed.
pub open spec fn digits_value(s: Seq<char>) -> nat
    decreases s.len(),
{
    if s.len() == 0 {
        0
    } else {
        digits_value(s.drop_last()) * 10 + match digit_value(s.last()) {
            Some(d) => d,
            None => 0,
        }
    }
}

/// The number written by `s`, where `s` is one digit or more and nothing
/// else.
pub open spec fn number_of(s: Seq<char>) -> Option<nat> {
    if s.len() > 0 && all_digits(s) {
        Some(digits_value(s))
    } else {
        None
    }
}

/// The value of a digit character.
fn value_of(c: char) -> (d: Option<u8>)
    ensures
        match d {
            Some(v) => digit_value(c) == Some(v as nat) && v < 10,
            None => digit_value(c) is None,
        },
{
    if c == '0' {
        Some(0)
    } else if c == '1' {
        Some(1)
    } else if c == '2' {
        Some(2)
    } else if c == '3' {
        Some(3)
    } else if c == '4' {
        Some(4)
    } else if c == '5' {
        Some(5)
    } else if c == '6' {
        Some(6)
    } else if c == '7' {
        Some(7)
    } else if c == '8' {
        Some(8)
    } else if c == '9' {
        Some(9)
    } else {
        None
    }
}

/// A longer text of digits writes no smaller number than its beginning.
pub proof fn lemma_digits_value_grows(s: Seq<char>, k: int)
    requires
        0 <= k <= s.len(),
    ensures
        digits_value(s.take(k)) <= digits_value(s),
    decreases s.len() - k,
{
    if k < s.len() {
        lemma_digits_value_grows(s.drop_last(), k);
        assert(s.drop_last().take(k) =~= s.take(k));
    } else {
        assert(s.take(k) =~= s);
    }
}

/// The number that a text of digits writes, where it fits in 64 bits;
/// `None` for a text that is empty, holds another character, or writes a
/// larger number.
pub fn parse_number(text: &str) -> (n: Option<u64>)
    ensures
        n == match number_of(text@) {
            Some(v) => if v <= u64::MAX {
                Some(v as u64)
            } else {
                None
            },
            None => None,
        },
{
    let len = text.unicode_len();
    if len == 0 {
        return None;
    }
    let mut value: u64 = 0;
    let mut i: usize = 0;
    while i < len
        invariant
            i <= len,
            len == text@.len(),
            all_digits(text@.take(i as int)),
            value == digits_value(text@.take(i as int)),
        decreases len - i,
    {
        let c = text.get_char(i);
        proof {
            assert(text@.take(i + 1).drop_last() =~= text@.take(i as int));
        }
        match value_of(c) {
            None => {
                assert(!all_digits(text@));
                return None;
            },
            Some(d) => {
                proof {
                    lemma_digits_value_grows(text@, i + 1);
                }
                let scaled = match value.checked_mul(10) {
                    Some(v) => v,
                    None => {
                        return None;
                    },
                };
                value = match scaled.checked_add(d as u64) {
                    Some(v) => v,
                    None => {
                        return None;
                    },
                };
            },
        }
        i = i + 1;
    }
    assert(text@.take(len as int) =~= text@);
    Some(value)
}

/// The decimal notation of a number reads back as that number.
pub proof fn law_decimal_reads_back(n: nat)
    ensures
        number_of(decimal(n)) == Some(n),
        all_digits(decimal(n)),
        decimal(n).len() > 0,
    decreases n,
{
    if n < 10 {
        let s = decimal(n);
        assert(digits_value(s.drop_last()) == 0);
    } else {
        law_decimal_reads_back(n / 10);
        let s = decimal(n);
        assert(s.drop_last() =~= decimal(n / 10));
    }
}

/// Whether two texts hold the same characters.
pub fn same_text(a: &str, b: &str) -> (same: bool)
    ensures
        same == (a@ == b@),
{
    let left = String::from_str(a);
    let right = String::from_str(b);
    left == right
}

} // verus!
