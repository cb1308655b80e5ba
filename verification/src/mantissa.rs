//! The mantissa of a size expression: a decimal number with a whole part and
//! a fraction, multiplied by the factor of a unit and cut down to a whole
//! count of bytes.

use crate::decimal::{
    all_digits, digit_value, digits_value, is_digit, lemma_digits_value_bound,
    lemma_digits_value_concat, lemma_digits_value_last, lemma_ten_to, ten_to,
};
use vstd::arithmetic::div_mod::{
    lemma_div_denominator, lemma_div_is_ordered, lemma_div_pos_is_pos,
    lemma_hoist_over_denominator,
};
use vstd::prelude::*;

verus! {

/// The product of a mantissa and a factor, cut down to a whole number. The
/// mantissa is written by the digits of `whole`, a decimal point and the
/// digits of `fraction`: it is the number that `whole` writes and, for `k`
/// digits in `fraction`, the number that `fraction` writes divided by the
/// `k`-th power of ten. The product is exact, and what lies below one byte is
/// dropped.
pub open spec fn scaled_count(whole: Seq<char>, fraction: Seq<char>, factor: int) -> int {
    ((digits_value(whole) * ten_to(fraction.len()) + digits_value(fraction)) * factor) / ten_to(fraction.len())
}

/// A count as 64 bits hold it: what lies above the largest value becomes the
/// largest value.
pub open spec fn saturated(v: int) -> u64 {
    if v >= u64::MAX {
        u64::MAX
    } else if v <= 0 {
        0
    } else {
        v as u64
    }
}

/// The whole part and the fraction contribute apart: the whole part exactly,
/// the fraction cut down.
pub proof fn lemma_scaled_count_split(whole: Seq<char>, fraction: Seq<char>, factor: int)
    requires
        all_digits(fraction),
        0 <= factor,
    ensures
        scaled_count(whole, fraction, factor) == digits_value(whole) * factor + (digits_value(
            fraction,
        ) * factor) / ten_to(fraction.len()),
        0 <= (digits_value(fraction) * factor) / ten_to(fraction.len()),
        factor > 0 ==> (digits_value(fraction) * factor) / ten_to(fraction.len()) < factor,
{
    let p = ten_to(fraction.len());
    let w = digits_value(whole);
    let r = digits_value(fraction);
    lemma_digits_value_bound(fraction);
    lemma_ten_to(fraction.len());
    assert((w * p + r) * factor == r * factor + (w * factor) * p) by (nonlinear_arith);
    lemma_hoist_over_denominator(r * factor, w * factor, p as nat);
    assert(0 <= r * factor) by (nonlinear_arith)
        requires
            0 <= r,
            0 <= factor,
    ;
    lemma_div_pos_is_pos(r * factor, p);
    if factor > 0 {
        assert(r * factor <= (p - 1) * factor) by (nonlinear_arith)
            requires
                r <= p - 1,
                0 <= factor,
        ;
        assert((p - 1) * factor == p * factor - factor) by (nonlinear_arith);
        lemma_div_is_ordered(r * factor, p * factor - 1, p);
        assert(p * factor - 1 == p * (factor - 1) + (p - 1)) by (nonlinear_arith);
        vstd::arithmetic::div_mod::lemma_fundamental_div_mod_converse(
            p * factor - 1,
            p,
            factor - 1,
            p - 1,
        );
    }
}

/// One more digit in front of a fraction: the digit times the factor joins
/// what the rest of the fraction gives, and a tenth of the sum is kept.
pub proof fn lemma_fraction_step(d: int, rest: Seq<char>, c: char, factor: int)
    requires
        all_digits(rest),
        is_digit(c),
        d == digit_value(c),
        0 <= factor,
    ensures
        (digits_value(seq![c] + rest) * factor) / ten_to((rest.len() + 1) as nat) == (d * factor
            + (digits_value(rest) * factor) / ten_to(rest.len())) / 10,
{
    let p = ten_to(rest.len());
    let r = digits_value(rest);
    let one = seq![c];
    assert(digits_value(one) == d) by {
        reveal_with_fuel(crate::decimal::value_of_first, 2);
    }
    lemma_digits_value_concat(one, rest);
    lemma_digits_value_bound(rest);
    lemma_ten_to(rest.len());
    assert(ten_to((rest.len() + 1) as nat) == 10 * p);
    let x = (d * p + r) * factor;
    assert(x == r * factor + (d * factor) * p) by (nonlinear_arith)
        requires
            x == (d * p + r) * factor,
    ;
    lemma_hoist_over_denominator(r * factor, d * factor, p as nat);
    assert(0 <= x) by (nonlinear_arith)
        requires
            x == (d * p + r) * factor,
            0 <= d,
            0 <= p,
            0 <= r,
            0 <= factor,
    ;
    lemma_div_denominator(x, p, 10);
    assert(p * 10 == 10 * p);
}

/// A value held below a cap: what lies above the cap becomes the cap.
pub open spec fn capped(v: int, cap: int) -> int {
    if v >= cap {
        cap
    } else {
        v
    }
}

/// The value of an ASCII digit.
fn value_of_digit(c: char) -> (d: u64)
    requires
        is_digit(c),
    ensures
        d == digit_value(c),
        d <= 9,
{
    (c as u32 - '0' as u32) as u64
}

/// Reads the digits of `chars` from `from` up to `to` as a number, held at
/// 2^64 where it is that large or larger.
pub fn whole_value(chars: &Vec<char>, from: usize, to: usize) -> (w: u128)
    requires
        from <= to <= chars.len(),
        all_digits(chars@.subrange(from as int, to as int)),
    ensures
        w == capped(
            digits_value(chars@.subrange(from as int, to as int)),
            0x1_0000_0000_0000_0000,
        ),
{
    let cap: u128 = 0x1_0000_0000_0000_0000;
    let mut w: u128 = 0;
    let mut i: usize = from;
    assert(chars@.subrange(from as int, from as int) =~= Seq::<char>::empty());
    while i < to
        invariant
            from <= i <= to <= chars.len(),
            all_digits(chars@.subrange(from as int, to as int)),
            cap == 0x1_0000_0000_0000_0000,
            w == capped(digits_value(chars@.subrange(from as int, i as int)), cap as int),
            0 <= digits_value(chars@.subrange(from as int, i as int)),
        decreases to - i,
    {
        let c = chars[i];
        proof {
            let run = chars@.subrange(from as int, to as int);
            assert(run[i - from] == c);
            let next = chars@.subrange(from as int, i + 1);
            assert(next.drop_last() =~= chars@.subrange(from as int, i as int));
            assert(next.last() == c);
            lemma_digits_value_last(next);
        }
        let d = value_of_digit(c);
        if w >= cap {
            w = cap;
        } else {
            w = 10 * w + d as u128;
            if w >= cap {
                w = cap;
            }
        }
        i = i + 1;
    }
    w
}

/// Multiplies the fraction written by the digits of `chars` from `from` up
/// to `to` by `factor`, and cuts the product down to a whole number.
fn fraction_value(chars: &Vec<char>, from: usize, to: usize, factor: u64) -> (y: u64)
    requires
        from <= to <= chars.len(),
        all_digits(chars@.subrange(from as int, to as int)),
        1 <= factor <= 0x1000_0000_0000_0000,
    ensures
        y == (digits_value(chars@.subrange(from as int, to as int)) * factor) / ten_to((to - from) as nat),
{
    let mut y: u64 = 0;
    let mut i: usize = to;
    proof {
        assert(chars@.subrange(to as int, to as int) =~= Seq::<char>::empty());
    }
    while i > from
        invariant
            from <= i <= to <= chars.len(),
            all_digits(chars@.subrange(from as int, to as int)),
            1 <= factor <= 0x1000_0000_0000_0000,
            y == (digits_value(chars@.subrange(i as int, to as int)) * factor) / ten_to((to - i) as nat),
            y < factor,
        decreases i,
    {
        i = i - 1;
        let c = chars[i];
        proof {
            let run = chars@.subrange(from as int, to as int);
            assert(run[i - from] == c);
            let rest = chars@.subrange(i + 1, to as int);
            assert(all_digits(rest)) by {
                assert forall|j: int| 0 <= j < rest.len() implies is_digit(#[trigger] rest[j]) by {
                    assert(rest[j] == run[j + i + 1 - from]);
                }
            }
            assert(chars@.subrange(i as int, to as int) =~= seq![c] + rest);
            lemma_fraction_step(digit_value(c), rest, c, factor as int);
        }
        let d = value_of_digit(c);
        assert(d * factor <= 9 * factor) by (nonlinear_arith)
            requires
                d <= 9,
                0 <= factor,
        ;
        y = (d * factor + y) / 10;
    }
    y
}

/// Multiplies a mantissa by `factor` and cuts the product down to a count of
/// bytes. The whole part of the mantissa is written by the characters of
/// `chars` before `whole_end`, its fraction by those from `fraction_start` up
/// to `fraction_end`.
pub fn scale_mantissa(
    chars: &Vec<char>,
    whole_end: usize,
    fraction_start: usize,
    fraction_end: usize,
    factor: u64,
) -> (count: u64)
    requires
        whole_end <= fraction_start <= fraction_end <= chars.len(),
        all_digits(chars@.subrange(0, whole_end as int)),
        all_digits(chars@.subrange(fraction_start as int, fraction_end as int)),
        1 <= factor <= 0x1000_0000_0000_0000,
    ensures
        count == saturated(
            scaled_count(
                chars@.subrange(0, whole_end as int),
                chars@.subrange(fraction_start as int, fraction_end as int),
                factor as int,
            ),
        ),
{
    let ghost whole = chars@.subrange(0, whole_end as int);
    let ghost fraction = chars@.subrange(fraction_start as int, fraction_end as int);
    let w = whole_value(chars, 0, whole_end);
    let y = fraction_value(chars, fraction_start, fraction_end, factor);
    proof {
        lemma_scaled_count_split(whole, fraction, factor as int);
    }
    if w >= 0x1_0000_0000_0000_0000 {
        assert(digits_value(whole) * factor >= digits_value(whole)) by (nonlinear_arith)
            requires
                digits_value(whole) >= 0,
                factor >= 1,
        ;
        u64::MAX
    } else {
        assert(w * factor <= 0xFFFF_FFFF_FFFF_FFFF * 0x1000_0000_0000_0000) by (nonlinear_arith)
            requires
                0 <= w <= 0xFFFF_FFFF_FFFF_FFFF,
                0 <= factor <= 0x1000_0000_0000_0000,
        ;
        let total: u128 = w * (factor as u128) + (y as u128);
        if total >= 0xFFFF_FFFF_FFFF_FFFF {
            u64::MAX
        } else {
            total as u64
        }
    }
}

} // verus!
