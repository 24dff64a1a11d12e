//! Numbers held in millionths: how they are written and read as decimal text.

use crate::text::{all_digits, chars_of, decimal_digits, digit_char, digit_str, digits_value, is_digit, lemma_digits_value_grows, push_decimal};
use vstd::prelude::*;
use vstd::string::*;

verus! {

/// The absolute value of `v`.
pub open spec fn magnitude_spec(v: int) -> nat {
    if v < 0 {
        (-v) as nat
    } else {
        v as nat
    }
}

/// The absolute value of `v`, which always fits in a `u128`.
pub fn magnitude(v: i128) -> (r: u128)
    ensures
        r == magnitude_spec(v as int),
{
    if v >= 0 {
        v as u128
    } else if v == i128::MIN {
        170141183460469231731687303715884105728u128
    } else {
        (-v) as u128
    }
}

/// A whole number in decimal, with a minus sign where it is negative.
pub open spec fn signed_decimal(v: int) -> Seq<char> {
    if v < 0 {
        seq!['-'] + decimal_digits((-v) as nat)
    } else {
        decimal_digits(v as nat)
    }
}

/// Appends `v` in decimal.
pub fn push_signed_decimal(out: &mut String, v: i128)
    ensures
        final(out)@ == old(out)@ + signed_decimal(v as int),
{
    proof {
        reveal_strlit("-");
    }
    if v < 0 {
        out.append("-");
    }
    push_decimal(out, magnitude(v));
    assert(final(out)@ =~= old(out)@ + signed_decimal(v as int));
}

/// The digits after the decimal point for the fraction `frac / (10 * scale)`,
/// without trailing zeros.
pub open spec fn fraction_digits(frac: nat, scale: nat) -> Seq<char>
    decreases scale,
{
    if frac == 0 || scale == 0 {
        Seq::<char>::empty()
    } else {
        seq![digit_char((frac / scale) as int)] + fraction_digits(frac % scale, scale / 10)
    }
}

/// A number of millionths written as a decimal number of units: the whole
/// part, then, where the fraction is not zero, a point and the fraction's
/// digits without trailing zeros.
pub open spec fn micros_text(v: int) -> Seq<char> {
    let m = magnitude_spec(v);
    let sign = if v < 0 {
        seq!['-']
    } else {
        Seq::<char>::empty()
    };
    let fraction = if m % 1_000_000 == 0 {
        Seq::<char>::empty()
    } else {
        seq!['.'] + fraction_digits(m % 1_000_000, 100_000)
    };
    sign + decimal_digits(m / 1_000_000) + fraction
}

fn push_fraction(out: &mut String, frac: u64, scale: u64)
    requires
        frac < 10 * scale,
        scale == 1 || scale == 10 || scale == 100 || scale == 1000 || scale == 10000 || scale
            == 100000,
    ensures
        final(out)@ == old(out)@ + fraction_digits(frac as nat, scale as nat),
    decreases scale,
{
    if frac == 0 || scale == 0 {
        assert(final(out)@ =~= old(out)@ + fraction_digits(frac as nat, scale as nat));
    } else {
        assert(frac / scale < 10) by (nonlinear_arith)
            requires
                frac < 10 * scale,
                scale > 0,
        ;
        out.append(digit_str(frac / scale));
        assert(frac % scale < 10 * (scale / 10) || scale < 10);
        if scale < 10 {
            assert(frac % scale == 0);
            assert(final(out)@ =~= old(out)@ + fraction_digits(frac as nat, scale as nat)) by {
                assert(fraction_digits((frac % scale) as nat, (scale / 10) as nat)
                    =~= Seq::<char>::empty());
            }
        } else {
            push_fraction(out, frac % scale, scale / 10);
            assert(final(out)@ =~= old(out)@ + fraction_digits(frac as nat, scale as nat));
        }
    }
}

/// Appends a number of millionths as a decimal number of units.
pub fn push_micros(out: &mut String, v: i128)
    ensures
        final(out)@ == old(out)@ + micros_text(v as int),
{
    proof {
        reveal_strlit("-");
        reveal_strlit(".");
    }
    let m = magnitude(v);
    if v < 0 {
        out.append("-");
    }
    push_decimal(out, m / 1_000_000);
    if m % 1_000_000 != 0 {
        out.append(".");
        push_fraction(out, (m % 1_000_000) as u64, 100_000);
    }
    assert(final(out)@ =~= old(out)@ + micros_text(v as int));
}

/// A number of millionths as a decimal number of units.
pub fn format_micros(v: i64) -> (r: String)
    ensures
        r@ == micros_text(v as int),
{
    let mut out = String::new();
    push_micros(&mut out, v as i128);
    assert(out@ =~= micros_text(v as int));
    out
}

/// A number of millionths rounded to the nearest thousandth of a unit, halves
/// away from zero.
pub open spec fn rounded_thousandths(v: int) -> nat {
    (magnitude_spec(v) + 500) / 1000
}

/// A number of millionths written with exactly three digits after the point.
pub open spec fn thousandths_text(v: int) -> Seq<char> {
    let t = rounded_thousandths(v);
    let sign = if v < 0 {
        seq!['-']
    } else {
        Seq::<char>::empty()
    };
    sign + decimal_digits(t / 1000) + seq![
        '.',
        digit_char((t / 100 % 10) as int),
        digit_char((t / 10 % 10) as int),
        digit_char((t % 10) as int),
    ]
}

/// A number of millionths with exactly three digits after the point.
pub fn format_thousandths(v: i64) -> (r: String)
    ensures
        r@ == thousandths_text(v as int),
{
    proof {
        reveal_strlit("-");
        reveal_strlit(".");
    }
    let m = magnitude(v as i128);
    let t: u128 = (m + 500) / 1000;
    assert(t == rounded_thousandths(v as int));
    let mut out = String::new();
    if v < 0 {
        out.append("-");
    }
    push_decimal(&mut out, t / 1000);
    out.append(".");
    out.append(digit_str((t / 100 % 10) as u64));
    out.append(digit_str((t / 10 % 10) as u64));
    out.append(digit_str((t % 10) as u64));
    assert(out@ =~= thousandths_text(v as int));
    out
}

/// A number of tenths written with one digit after the point.
pub open spec fn tenths_text(t: nat) -> Seq<char> {
    decimal_digits(t / 10) + seq!['.', digit_char((t % 10) as int)]
}

/// Appends a number of tenths with one digit after the point.
pub fn push_tenths(out: &mut String, t: u64)
    ensures
        final(out)@ == old(out)@ + tenths_text(t as nat),
{
    proof {
        reveal_strlit(".");
    }
    push_decimal(out, (t / 10) as u128);
    out.append(".");
    out.append(digit_str(t % 10));
    assert(final(out)@ =~= old(out)@ + tenths_text(t as nat));
}

/// The index of the first `c` in `s`, or the length of `s` where there is none.
pub open spec fn index_of(s: Seq<char>, c: char) -> int
    decreases s.len(),
{
    if s.len() == 0 {
        0
    } else if s[0] == c {
        0
    } else {
        1 + index_of(s.drop_first(), c)
    }
}

/// `index_of` is the first place where `c` stands.
pub proof fn lemma_index_of(s: Seq<char>, c: char)
    ensures
        0 <= index_of(s, c) <= s.len(),
        forall|j: int| 0 <= j < index_of(s, c) ==> s[j] != c,
        index_of(s, c) < s.len() ==> s[index_of(s, c)] == c,
    decreases s.len(),
{
    if s.len() > 0 && s[0] != c {
        let t = s.drop_first();
        lemma_index_of(t, c);
        assert forall|j: int| 0 <= j < index_of(s, c) implies s[j] != c by {
            if j > 0 {
                assert(s[j] == t[j - 1]);
            }
        }
    }
}

/// The first index at or after `from` where `c` stands in `s`.
pub fn find_char(s: &Vec<char>, from: usize, c: char) -> (r: usize)
    requires
        from <= s.len(),
    ensures
        r == from + index_of(s@.skip(from as int), c),
        from <= r <= s.len(),
{
    let mut i: usize = from;
    while i < s.len() && s[i] != c
        invariant
            from <= i <= s.len(),
            forall|j: int| from <= j < i ==> s@[j] != c,
        decreases s.len() - i,
    {
        i += 1;
    }
    proof {
        let t = s@.skip(from as int);
        lemma_index_of(t, c);
        let k = index_of(t, c);
        if k < i - from {
            assert(t[k] == s@[from + k]);
        }
        if i - from < k {
            assert(t[i - from] == s@[i as int]);
        }
    }
    i
}

/// Ten to the power `n`.
pub open spec fn pow10(n: nat) -> nat
    decreases n,
{
    if n == 0 {
        1
    } else {
        10 * pow10((n - 1) as nat)
    }
}

/// The millionths that the digits after a decimal point stand for: the first
/// six count, the rest are cut off.
pub open spec fn fraction_micros(frac: Seq<char>) -> nat {
    if frac.len() >= 6 {
        digits_value(frac.take(6))
    } else {
        digits_value(frac) * pow10((6 - frac.len()) as nat)
    }
}

/// The whole part of a decimal number: what stands before the first point.
pub open spec fn whole_part(s: Seq<char>) -> Seq<char> {
    s.take(index_of(s, '.'))
}

/// The fraction part of a decimal number: what stands after the first point.
pub open spec fn fraction_part(s: Seq<char>) -> Seq<char> {
    if index_of(s, '.') < s.len() {
        s.skip(index_of(s, '.') + 1)
    } else {
        Seq::<char>::empty()
    }
}

/// Whether `s` is an unsigned decimal number: digits, at most one point, and
/// at least one digit.
pub open spec fn is_decimal_text(s: Seq<char>) -> bool {
    &&& all_digits(whole_part(s))
    &&& all_digits(fraction_part(s))
    &&& whole_part(s).len() + fraction_part(s).len() > 0
}

/// The millionths that the decimal number `s` stands for, digits beyond the
/// sixth after the point cut off.
pub open spec fn decimal_micros(s: Seq<char>) -> nat {
    digits_value(whole_part(s)) * 1_000_000 + fraction_micros(fraction_part(s))
}

/// What `s` reads as in millionths: `None` where `s` is no unsigned decimal
/// number or stands for more than `i64::MAX` millionths.
pub open spec fn parse_micros_spec(s: Seq<char>) -> Option<i64> {
    if is_decimal_text(s) && decimal_micros(s) <= i64::MAX {
        Some(decimal_micros(s) as i64)
    } else {
        None
    }
}

/// Whether every character of `s` from `from` up to `to` is a digit.
fn digits_between(s: &Vec<char>, from: usize, to: usize) -> (r: bool)
    requires
        from <= to <= s.len(),
    ensures
        r == all_digits(s@.subrange(from as int, to as int)),
{
    let mut i: usize = from;
    while i < to
        invariant
            from <= i <= to <= s.len(),
            forall|j: int| from <= j < i ==> is_digit(#[trigger] s@[j]),
        decreases to - i,
    {
        let c = s[i];
        if !(c >= '0' && c <= '9') {
            assert(s@.subrange(from as int, to as int)[i - from] == c);
            return false;
        }
        i += 1;
    }
    assert forall|j: int| 0 <= j < to - from implies is_digit(
        #[trigger] s@.subrange(from as int, to as int)[j],
    ) by {
        assert(s@.subrange(from as int, to as int)[j] == s@[from + j]);
    }
    true
}

/// The value of the digits of `s` from `from` up to `to`, as long as it stays
/// at or below `limit`.
fn value_between(s: &Vec<char>, from: usize, to: usize, limit: u64) -> (r: Option<u64>)
    requires
        from <= to <= s.len(),
        all_digits(s@.subrange(from as int, to as int)),
        limit <= u64::MAX / 16,
    ensures
        r matches Some(v) ==> v == digits_value(s@.subrange(from as int, to as int)) && v <= limit,
        r is None ==> digits_value(s@.subrange(from as int, to as int)) > limit,
{
    let ghost whole = s@.subrange(from as int, to as int);
    let mut acc: u64 = 0;
    let mut i: usize = from;
    while i < to
        invariant
            from <= i <= to <= s.len(),
            whole == s@.subrange(from as int, to as int),
            all_digits(whole),
            acc == digits_value(whole.take(i - from)),
            acc <= limit,
            limit <= u64::MAX / 16,
        decreases to - i,
    {
        let c = s[i];
        proof {
            assert(whole[i - from] == c);
            let t = whole.take(i - from + 1);
            assert(t.drop_last() =~= whole.take(i - from));
            assert(t.last() == c);
        }
        let d: u64 = (c as u32 - 48) as u64;
        let next: u64 = acc * 10 + d;
        if next > limit {
            proof {
                lemma_digits_value_grows(whole, i - from + 1);
            }
            return None;
        }
        acc = next;
        i += 1;
    }
    assert(whole.take(to - from) =~= whole);
    Some(acc)
}

/// Reads an unsigned decimal number as millionths.
pub fn parse_micros_chars(s: &Vec<char>) -> (r: Option<i64>)
    ensures
        r == parse_micros_spec(s@),
{
    let dot = find_char(s, 0, '.');
    assert(s@.skip(0) =~= s@);
    assert(s@.subrange(0, dot as int) =~= whole_part(s@));
    let frac_from: usize = if dot < s.len() {
        dot + 1
    } else {
        dot
    };
    assert(s@.subrange(frac_from as int, s.len() as int) =~= fraction_part(s@));
    if !digits_between(s, 0, dot) || !digits_between(s, frac_from, s.len()) {
        return None;
    }
    if dot + (s.len() - frac_from) == 0 {
        return None;
    }
    let frac_to: usize = if s.len() - frac_from > 6 {
        frac_from + 6
    } else {
        s.len()
    };
    let ghost frac = fraction_part(s@);
    assert(s@.subrange(frac_from as int, frac_to as int) =~= frac.take(frac_to - frac_from));
    assert(all_digits(frac.take(frac_to - frac_from))) by {
        assert forall|j: int| 0 <= j < frac_to - frac_from implies is_digit(
            #[trigger] frac.take(frac_to - frac_from)[j],
        ) by {
            assert(frac.take(frac_to - frac_from)[j] == frac[j]);
        }
    }
    let whole = match value_between(s, 0, dot, 9_223_372_036_854) {
        Some(w) => w,
        None => {
            return None;
        },
    };
    let head = match value_between(s, frac_from, frac_to, 999_999) {
        Some(h) => h,
        None => {
            proof {
                lemma_digits_below_pow10(frac.take(frac_to - frac_from));
                lemma_pow10_values();
            }
            return None;
        },
    };
    let digits: usize = frac_to - frac_from;
    let scale: u64 = if digits == 0 {
        1_000_000
    } else if digits == 1 {
        100_000
    } else if digits == 2 {
        10_000
    } else if digits == 3 {
        1_000
    } else if digits == 4 {
        100
    } else if digits == 5 {
        10
    } else {
        1
    };
    proof {
        lemma_pow10_values();
        lemma_digits_below_pow10(frac.take(digits as int));
        if frac.len() < 6 {
            assert(frac.take(digits as int) =~= frac);
        }
        assert(head * scale == fraction_micros(frac)) by (nonlinear_arith)
            requires
                scale == pow10((6 - digits) as nat),
                frac.len() >= 6 ==> digits == 6 && head == digits_value(frac.take(6)),
                frac.len() < 6 ==> head == digits_value(frac),
                fraction_micros(frac) == if frac.len() >= 6 {
                    digits_value(frac.take(6))
                } else {
                    digits_value(frac) * pow10((6 - frac.len()) as nat)
                },
                digits == if frac.len() >= 6 { 6 } else { frac.len() },
                pow10(0) == 1,
        ;
        assert(head * scale < 1_000_000) by (nonlinear_arith)
            requires
                head < pow10(digits as nat),
                scale == pow10((6 - digits) as nat),
                digits <= 6,
                pow10(0) == 1,
                pow10(1) == 10,
                pow10(2) == 100,
                pow10(3) == 1000,
                pow10(4) == 10000,
                pow10(5) == 100000,
                pow10(6) == 1000000,
        ;
    }
    let total: u64 = whole * 1_000_000 + head * scale;
    if total > 9_223_372_036_854_775_807 {
        return None;
    }
    Some(total as i64)
}

/// The first powers of ten.
pub proof fn lemma_pow10_values()
    ensures
        pow10(0) == 1,
        pow10(1) == 10,
        pow10(2) == 100,
        pow10(3) == 1000,
        pow10(4) == 10000,
        pow10(5) == 100000,
        pow10(6) == 1000000,
{
    reveal_with_fuel(pow10, 8);
}

/// A run of `n` digits writes a number below ten to the `n`.
pub proof fn lemma_digits_below_pow10(s: Seq<char>)
    requires
        all_digits(s),
    ensures
        digits_value(s) < pow10(s.len()),
    decreases s.len(),
{
    if s.len() > 0 {
        let t = s.drop_last();
        assert(all_digits(t)) by {
            assert forall|j: int| 0 <= j < t.len() implies is_digit(#[trigger] t[j]) by {
                assert(t[j] == s[j]);
            }
        }
        lemma_digits_below_pow10(t);
        assert(is_digit(s.last()));
    }
}

/// Reads an unsigned decimal number as millionths.
pub fn parse_micros(s: &str) -> (r: Option<i64>)
    ensures
        r == parse_micros_spec(s@),
{
    let cs = chars_of(s);
    parse_micros_chars(&cs)
}

} // verus!
