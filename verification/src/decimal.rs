//! Numbers with a fraction, read from their decimal text into integers
//! that count a fixed fraction of the unit.

use vstd::prelude::*;
use vstd::string::*;
use crate::metrics::{round_half_up, rounded_quotient};
use crate::text::{
    digit_value, digits_value, lemma_digits_value_grows, lemma_pow10_38, lemma_pow10_monotonic,
    pow10, power_of_ten,
};

verus! {

/// Index of the first character of `s` at or after `from` that is no
/// digit; the length of `s` where only digits follow.
pub open spec fn digits_end(s: Seq<char>, from: int) -> int
    decreases s.len() - from,
{
    if from >= s.len() {
        s.len() as int
    } else if digit_value(s[from]) is None {
        from
    } else {
        digits_end(s, from + 1)
    }
}

/// Where the digits before the point end.
pub open spec fn whole_end(s: Seq<char>) -> int {
    digits_end(s, 0)
}

/// Whether a point follows the whole part.
pub open spec fn has_fraction(s: Seq<char>) -> bool {
    whole_end(s) < s.len() && s[whole_end(s)] == '.'
}

/// Where the digits of whole part and fraction end.
pub open spec fn fraction_end(s: Seq<char>) -> int {
    if has_fraction(s) {
        digits_end(s, whole_end(s) + 1)
    } else {
        whole_end(s)
    }
}

/// The digits behind the point; none without a point.
pub open spec fn fraction_of(s: Seq<char>) -> Seq<char> {
    if has_fraction(s) {
        s.subrange(whole_end(s) + 1, fraction_end(s))
    } else {
        Seq::empty()
    }
}

/// Whether an exponent follows: the letter `e`, small or capital.
pub open spec fn has_exponent(s: Seq<char>) -> bool {
    fraction_end(s) < s.len() && (s[fraction_end(s)] == 'e' || s[fraction_end(s)] == 'E')
}

/// Whether the exponent carries a sign.
pub open spec fn exponent_signed(s: Seq<char>) -> bool {
    fraction_end(s) + 1 < s.len() && (s[fraction_end(s) + 1] == '+' || s[fraction_end(s) + 1]
        == '-')
}

/// Where the digits of the exponent begin.
pub open spec fn exponent_start(s: Seq<char>) -> int {
    if exponent_signed(s) {
        fraction_end(s) + 2
    } else {
        fraction_end(s) + 1
    }
}

/// Whether `s` is a decimal number without a sign: digits, then
/// optionally a point and digits, then optionally an exponent, which is
/// the letter `e`, optionally a sign, and digits.
pub open spec fn is_decimal(s: Seq<char>) -> bool {
    &&& whole_end(s) > 0
    &&& has_fraction(s) ==> fraction_end(s) > whole_end(s) + 1
    &&& if has_exponent(s) {
        exponent_start(s) < s.len() && digits_end(s, exponent_start(s)) == s.len()
    } else {
        fraction_end(s) == s.len()
    }
}

/// The digits of whole part and fraction read as one number.
pub open spec fn mantissa_of(s: Seq<char>) -> nat {
    digits_value(s.subrange(0, whole_end(s)) + fraction_of(s))
}

/// The size of the exponent; zero without one.
pub open spec fn exponent_size(s: Seq<char>) -> nat {
    if has_exponent(s) {
        digits_value(s.subrange(exponent_start(s), s.len() as int))
    } else {
        0
    }
}

/// The exponent with its sign.
pub open spec fn exponent_of(s: Seq<char>) -> int {
    if exponent_signed(s) && s[fraction_end(s) + 1] == '-' {
        -(exponent_size(s) as int)
    } else {
        exponent_size(s) as int
    }
}

/// `mantissa` times ten to the power `shift`, as a whole number: for a
/// negative `shift` the quotient, rounded half up or cut off.
pub open spec fn shifted(mantissa: nat, shift: int, half_up: bool) -> nat {
    if shift >= 0 {
        mantissa * pow10(shift as nat)
    } else if half_up {
        round_half_up(mantissa, pow10((-shift) as nat))
    } else {
        mantissa / pow10((-shift) as nat)
    }
}

/// The largest exponent that is read.
pub const EXPONENT_LIMIT: u128 = 0xffff_ffff;

/// The number written in `s`, counted in units of ten to the minus
/// `places`, rounded half up or cut off. Nothing where `s` is no decimal
/// number, where its digits or its exponent are beyond what is read, and
/// where the result does not fit in 64 bits.
pub open spec fn decimal_reading(s: Seq<char>, places: nat, half_up: bool) -> Option<u64> {
    if !is_decimal(s) || mantissa_of(s) > u128::MAX || exponent_size(s) > 0xffff_ffff {
        None
    } else {
        let value = shifted(
            mantissa_of(s),
            exponent_of(s) - fraction_of(s).len() + places,
            half_up,
        );
        if value <= u64::MAX {
            Some(value as u64)
        } else {
            None
        }
    }
}

/// Digits that were scanned: where they end, and the number they write
/// behind the digits seen before; no number where it leaves 128 bits.
struct Scan {
    end: usize,
    value: Option<u128>,
}

/// Reading one more digit.
proof fn lemma_digits_value_push(s: Seq<char>, c: char)
    ensures
        digits_value(s.push(c)) == digits_value(s) * 10 + match digit_value(c) {
            Some(d) => d,
            None => 0,
        },
{
    assert(s.push(c).drop_last() =~= s);
}

/// The digits end no earlier than where digits were seen.
proof fn lemma_digits_end_after(s: Seq<char>, from: int, upto: int)
    requires
        0 <= from <= upto <= s.len(),
        forall|k: int| from <= k < upto ==> digit_value(#[trigger] s[k]) is Some,
    ensures
        digits_end(s, from) == digits_end(s, upto),
        upto <= digits_end(s, upto) <= s.len(),
    decreases s.len() - from,
{
    if from < upto {
        lemma_digits_end_after(s, from + 1, upto);
    } else {
        lemma_digits_end_bounds(s, upto);
    }
}

/// The digits end within the text.
proof fn lemma_digits_end_bounds(s: Seq<char>, from: int)
    requires
        0 <= from <= s.len(),
    ensures
        from <= digits_end(s, from) <= s.len(),
    decreases s.len() - from,
{
    if from < s.len() && digit_value(s[from]) is Some {
        lemma_digits_end_bounds(s, from + 1);
    }
}

/// The value of a digit character.
fn digit(c: char) -> (d: Option<u8>)
    ensures
        match d {
            Some(v) => digit_value(c) == Some(v as nat) && v < 10,
            None => digit_value(c) is None,
        },
{
    if c == '0' {
        Some(0)
    } else if c == '1' {
        Some(1)
    } else if c == '2' {
        Some(2)
    } else if c == '3' {
        Some(3)
    } else if c == '4' {
        Some(4)
    } else if c == '5' {
        Some(5)
    } else if c == '6' {
        Some(6)
    } else if c == '7' {
        Some(7)
    } else if c == '8' {
        Some(8)
    } else if c == '9' {
        Some(9)
    } else {
        None
    }
}

/// Scans the digits of `text` from `from` on, reading them as the
/// continuation of the digits `seen`, whose number is `start`.
fn scan(text: &str, len: usize, from: usize, start: u128, Ghost(seen): Ghost<Seq<char>>) -> (found:
    Scan)
    requires
        len == text@.len(),
        from <= len,
        start == digits_value(seen),
    ensures
        found.end == digits_end(text@, from as int),
        from <= found.end <= len,
        match found.value {
            Some(value) => value == digits_value(
                seen + text@.subrange(from as int, found.end as int),
            ),
            None => digits_value(seen + text@.subrange(from as int, found.end as int))
                > u128::MAX,
        },
{
    let mut value: Option<u128> = Some(start);
    let mut i: usize = from;
    loop
        invariant_except_break
            from <= i <= len,
            len == text@.len(),
            forall|k: int| from <= k < i ==> digit_value(#[trigger] text@[k]) is Some,
            match value {
                Some(v) => v == digits_value(seen + text@.subrange(from as int, i as int)),
                None => digits_value(seen + text@.subrange(from as int, i as int)) > u128::MAX,
            },
        ensures
            from <= i <= len,
            i == digits_end(text@, from as int),
            match value {
                Some(v) => v == digits_value(seen + text@.subrange(from as int, i as int)),
                None => digits_value(seen + text@.subrange(from as int, i as int)) > u128::MAX,
            },
        decreases len - i,
    {
        if i >= len {
            proof {
                lemma_digits_end_after(text@, from as int, i as int);
            }
            break ;
        }
        let c = text.get_char(i);
        match digit(c) {
            None => {
                proof {
                    lemma_digits_end_after(text@, from as int, i as int);
                }
                break ;
            },
            Some(d) => {
                proof {
                    let before = seen + text@.subrange(from as int, i as int);
                    lemma_digits_value_push(before, c);
                    assert(before.push(c) =~= seen + text@.subrange(from as int, i + 1));
                }
                value = match value {
                    Some(v) => match v.checked_mul(10) {
                        Some(scaled) => scaled.checked_add(d as u128),
                        None => None,
                    },
                    None => None,
                };
                i = i + 1;
            },
        }
    }
    Scan { end: i, value }
}

/// A quotient by a power of ten beyond 128 bits is zero, however it is
/// rounded.
proof fn lemma_far_shift(mantissa: nat, down: nat)
    requires
        mantissa <= u128::MAX,
        down > 38,
    ensures
        mantissa / pow10(down) == 0,
        round_half_up(mantissa, pow10(down)) == 0,
{
    lemma_pow10_38();
    lemma_pow10_monotonic(39, down);
    let d = pow10(down) as int;
    let m = mantissa as int;
    vstd::arithmetic::div_mod::lemma_small_mod(mantissa, pow10(down));
    vstd::arithmetic::div_mod::lemma_basic_div(m, d);
}

/// A number that is not zero, raised by more than 38 places, leaves 64
/// bits.
proof fn lemma_far_raise(mantissa: nat, up: nat)
    requires
        mantissa > 0,
        up > 38,
    ensures
        mantissa * pow10(up) > u64::MAX,
{
    lemma_pow10_38();
    lemma_pow10_monotonic(39, up);
    assert(mantissa * pow10(up) >= pow10(up)) by (nonlinear_arith)
        requires
            mantissa >= 1,
            pow10(up) >= 0,
    ;
}

/// Reads the decimal number written in `text`, counted in units of ten
/// to the minus `places`.
pub fn parse_decimal(text: &str, places: u8, half_up: bool) -> (value: Option<u64>)
    requires
        places <= 38,
    ensures
        value == decimal_reading(text@, places as nat, half_up),
{
    let ghost s = text@;
    let len = text.unicode_len();
    let whole = scan(text, len, 0, 0, Ghost(Seq::empty()));
    if whole.end == 0 {
        return None;
    }
    let mut end = whole.end;
    let mut mantissa = whole.value;
    let mut fraction: usize = 0;
    if end < len && text.get_char(end) == '.' {
        let start = match whole.value {
            Some(v) => v,
            None => {
                proof {
                    let all = s.subrange(0, whole.end as int) + fraction_of(s);
                    lemma_digits_value_grows(all, whole.end as int);
                    assert(all.take(whole.end as int) =~= s.subrange(0, whole.end as int));
                }
                return None;
            },
        };
        let behind = scan(text, len, end + 1, start, Ghost(s.subrange(0, whole.end as int)));
        if behind.end == end + 1 {
            return None;
        }
        mantissa = behind.value;
        fraction = behind.end - end - 1;
        end = behind.end;
    }
    let digits = match mantissa {
        Some(v) => v,
        None => {
            return None;
        },
    };
    let mut size: u128 = 0;
    let mut negative = false;
    if end < len {
        let mark = text.get_char(end);
        if !(mark == 'e' || mark == 'E') {
            return None;
        }
        let mut from = end + 1;
        if from < len {
            let sign = text.get_char(from);
            if sign == '-' {
                negative = true;
                from = from + 1;
            } else if sign == '+' {
                from = from + 1;
            }
        }
        if from >= len {
            return None;
        }
        let power = scan(text, len, from, 0, Ghost(Seq::empty()));
        if power.end != len || power.end == from {
            return None;
        }
        size = match power.value {
            Some(v) => v,
            None => {
                return None;
            },
        };
        if size > EXPONENT_LIMIT {
            return None;
        }
    }
    let exponent: i128 = if negative {
        -(size as i128)
    } else {
        size as i128
    };
    let shift: i128 = exponent - (fraction as i128) + (places as i128);
    let result: u128 = if shift >= 0 {
        if digits == 0 {
            assert(0 * pow10(shift as nat) == 0) by (nonlinear_arith);
            0
        } else if shift > 38 {
            proof {
                lemma_far_raise(digits as nat, shift as nat);
            }
            return None;
        } else {
            let factor = power_of_ten(shift as u8);
            match digits.checked_mul(factor) {
                Some(v) => v,
                None => {
                    return None;
                },
            }
        }
    } else {
        let down: i128 = -shift;
        if down > 38 {
            proof {
                lemma_far_shift(digits as nat, down as nat);
            }
            0
        } else {
            let divisor = power_of_ten(down as u8);
            if half_up {
                rounded_quotient(digits, divisor)
            } else {
                digits / divisor
            }
        }
    };
    if result > u64::MAX as u128 {
        None
    } else {
        Some(result as u64)
    }
}

} // verus!
