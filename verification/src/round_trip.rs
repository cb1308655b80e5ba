//! Rendering and parsing together: the text of a count, parsed again, gives
//! a count within half a tenth of the rendered unit of the first.

use crate::bytelike::display_text;
use crate::decimal::{
    decimal_text, digit_char, digits_value, lemma_decimal_round_trip, lemma_digit_char,
    lemma_digits_value_last,
};
use crate::mantissa::{saturated, scaled_count};
use crate::parse::{parse_result, Failure};
use crate::parse_laws::{lemma_parse_of_parts, mantissa_text};
use crate::render::{humanized, prefix_letter, rank_of, scaled_tenths, unit_of_base, unit_power};
use crate::rounding::{
    binade_scale, held_to_53_bits, lemma_held_is_near, lemma_round_half_even_near,
    last_place, lemma_multiple_is_held, lemma_multiple_of_last_place, lemma_small_is_held,
    lemma_tenths_near_binary, lemma_tenths_near_binary_held, lemma_tenths_near_decimal,
    lemma_tenths_near_decimal_held, lemma_tenths_of_multiple, quotient_significand,
};
use crate::size::{ByteFormatter, IEC, SI};
use crate::unit::{binary_unit, decimal_unit, unit_named, Unit};
use vstd::prelude::*;

verus! {

/// The suffix of a base after the letter of the rank: `B` in the decimal
/// base, `iB` in the binary one.
pub open spec fn base_suffix(decimal: bool) -> Seq<char> {
    if decimal {
        seq!['B']
    } else {
        seq!['i', 'B']
    }
}

/// The text of `n` bytes with a space before the unit: in decimal units with
/// the suffix `B`, or in binary units with the suffix `iB`.
pub open spec fn spaced_text(n: u64, decimal: bool) -> Seq<char> {
    humanized(n, decimal, seq![' '], base_suffix(decimal))
}

/// The formatters that put a space before the unit give spaced texts: the
/// decimal and the binary formatter, and the display of byte-like sizes in
/// either base.
pub proof fn lemma_formatter_texts(n: u64)
    ensures
        SI.text(n) == spaced_text(n, true),
        IEC.text(n) == spaced_text(n, false),
        display_text(n, true) == spaced_text(n, false),
        display_text(n, false) == spaced_text(n, true),
{
}

/// The multiplier of the unit in which `n` is rendered: 1 below the unit of
/// the base, and the unit power of the rank from there on.
pub open spec fn rendered_unit(n: u64, decimal: bool) -> int {
    if n < unit_of_base(decimal) {
        1
    } else {
        unit_power(decimal, rank_of(n as int, decimal))
    }
}

/// The text of a count below the unit of its base, parsed again, is the
/// count.
proof fn lemma_parse_of_small(n: u64, decimal: bool)
    requires
        n < unit_of_base(decimal),
    ensures
        parse_result(spaced_text(n, decimal)) == Ok::<u64, Failure>(n),
{
    let digits = decimal_text(n as nat);
    let none = Seq::<char>::empty();
    lemma_decimal_round_trip(n as nat);
    lemma_parse_of_parts(digits, false, none, seq![' '], seq!['B']);
    assert(spaced_text(n, decimal) =~= mantissa_text(digits, false, none) + seq![' ']
        + seq!['B']);
    assert(unit_named(seq!['B']) == Some(Unit::Byte));
    assert(digits_value(none) == 0);
    assert(scaled_count(digits, none, 1) == n);
}

/// Some tenths, written as a whole part, a decimal point and one digit, then
/// a space, the letter of a rank from 1 to 5 and the suffix of the base,
/// parse to the tenths times the power of the unit, a tenth of it, cut down.
proof fn lemma_parse_of_tenths(t: int, rank: int, decimal: bool)
    requires
        0 <= t,
        1 <= rank <= 5,
    ensures
        parse_result(
            decimal_text((t / 10) as nat) + seq!['.', digit_char(t % 10)] + seq![' '] + seq![
                prefix_letter(rank),
            ] + base_suffix(decimal),
        ) == Ok::<u64, Failure>(saturated((t * unit_power(decimal, rank)) / 10)),
{
    let whole = decimal_text((t / 10) as nat);
    let fraction = seq![digit_char(t % 10)];
    let letter = prefix_letter(rank);
    let named = seq![letter] + base_suffix(decimal);
    let text = whole + seq!['.', digit_char(t % 10)] + seq![' '] + seq![letter] + base_suffix(
        decimal,
    );
    lemma_decimal_round_trip((t / 10) as nat);
    lemma_digit_char(t % 10);
    assert(named[0] == letter);
    lemma_parse_of_parts(whole, true, fraction, seq![' '], named);
    assert(text =~= mantissa_text(whole, true, fraction) + seq![' '] + named);
    if decimal {
        assert(named.len() == 2 && named[1] == 'B');
        assert(unit_named(named) == Some(decimal_unit(rank)));
        assert(decimal_unit(rank).multiplier() == unit_power(decimal, rank));
    } else {
        assert(named.len() == 3 && named[1] == 'i' && named[2] == 'B');
        assert(unit_named(named) == Some(binary_unit(rank)));
        assert(binary_unit(rank).multiplier() == unit_power(decimal, rank));
    }
    lemma_digits_value_last(fraction);
    assert(fraction.drop_last() =~= Seq::<char>::empty());
    assert(digits_value(fraction) == t % 10);
}

/// The tenths in which a count is rendered lie within half a tenth of the
/// count divided by the rendered unit, where the count is below the sixth
/// power of the unit of its base and double precision holds it exactly, as
/// it does every count below 2^53.
pub proof fn lemma_scaled_tenths_near(n: int, decimal: bool)
    requires
        0 <= n < unit_power(decimal, 6),
        held_to_53_bits(n) == n,
    ensures
        ({
            let unit = unit_power(decimal, rank_of(n, decimal));
            let t = scaled_tenths(n, decimal);
            &&& 0 <= t
            &&& 2 * (t * unit - 10 * n) <= unit
            &&& 2 * (10 * n - t * unit) <= unit
        }),
{
    let unit = unit_power(decimal, rank_of(n, decimal));
    if n < 0x20_0000_0000_0000 {
        if decimal {
            lemma_tenths_near_decimal(n, unit);
        } else {
            lemma_tenths_near_binary(n, unit);
        }
    } else {
        let place = last_place(n);
        lemma_held_is_near(n);
        assert(rank_of(n, decimal) == 5);
        if decimal {
            assert(unit / 20 == 2048 * 24_414_062_500);
            lemma_multiple_of_last_place(unit / 20, n);
            assert(unit < 2 * binade_scale(n, unit) * place);
            lemma_tenths_near_decimal_held(n, unit, place);
        } else {
            lemma_tenths_near_binary_held(n);
        }
    }
}

/// Tenths within half a tenth of a count, taken back to bytes and cut down,
/// lie within a twentieth of the unit of the count, but for what the
/// cutting drops.
proof fn lemma_back_is_near(n: int, unit: int, t: int, decimal: bool)
    requires
        0 <= n < 0x1000_0000_0000_0000,
        0 <= t,
        0 < unit <= 0x4_0000_0000_0000,
        decimal ==> unit % 10 == 0,
        2 * (t * unit - 10 * n) <= unit,
        2 * (10 * n - t * unit) <= unit,
    ensures
        ({
            let back = saturated((t * unit) / 10);
            &&& back == (t * unit) / 10
            &&& 20 * (back - n) <= unit
            &&& 20 * (n - back) <= unit + 2 * ((t * unit) % 10)
            &&& 20 * (n - back) <= unit + 18
            &&& decimal ==> 20 * (n - back) <= unit
            &&& n % unit == 0 ==> back == n
        }),
{
    let product = t * unit;
    assert(0 <= product) by (nonlinear_arith)
        requires
            0 <= t,
            0 < unit,
            product == t * unit,
    ;
    if decimal {
        let v = unit / 10;
        assert(product == 10 * (t * v)) by (nonlinear_arith)
            requires
                product == t * unit,
                unit == 10 * v,
        ;
    }
    if n % unit == 0 {
        let j = n / unit;
        assert(n == j * unit) by {
            vstd::arithmetic::div_mod::lemma_fundamental_div_mod(n, unit);
        }
        assert(t == 10 * j) by (nonlinear_arith)
            requires
                n == j * unit,
                2 * (t * unit - 10 * n) <= unit,
                2 * (10 * n - t * unit) <= unit,
                0 < unit,
        ;
        assert(product == 10 * n) by (nonlinear_arith)
            requires
                t == 10 * j,
                n == j * unit,
                product == t * unit,
        ;
    }
}

/// The round trip. Take a count below the sixth power of the unit of its
/// base that double precision holds exactly, as it does every count below
/// 2^53. Its text, parsed again, is a count of bytes: the rendered tenths
/// times the rendered unit, a tenth of it, cut down. The rendered tenths lie
/// within half a tenth of the count, so the count that comes back lies within
/// a twentieth of the rendered unit of the first, but for what the cutting
/// drops: nothing in the decimal base, and less than one byte in the binary
/// base. A multiple of the rendered unit comes back as it was.
pub proof fn lemma_round_trip(n: u64, decimal: bool)
    requires
        n < unit_power(decimal, 6),
        held_to_53_bits(n as int) == n,
    ensures
        parse_result(spaced_text(n, decimal)) is Ok,
        ({
            let back = parse_result(spaced_text(n, decimal))->Ok_0;
            let unit = rendered_unit(n, decimal);
            &&& 20 * (back - n) <= unit
            &&& 20 * (n - back) <= unit + 18
            &&& decimal ==> 20 * (n - back) <= unit
            &&& n as int % unit == 0 ==> back == n
            &&& n >= unit_of_base(decimal) ==> back == (scaled_tenths(n as int, decimal) * unit)
                / 10 && 20 * (n - back) <= unit + 2 * ((scaled_tenths(n as int, decimal) * unit)
                % 10)
        }),
{
    if n < unit_of_base(decimal) {
        lemma_parse_of_small(n, decimal);
    } else {
        let rank = rank_of(n as int, decimal);
        let unit = unit_power(decimal, rank);
        let t = scaled_tenths(n as int, decimal);
        lemma_scaled_tenths_near(n as int, decimal);
        lemma_parse_of_tenths(t, rank, decimal);
        assert(spaced_text(n, decimal) =~= decimal_text((t / 10) as nat) + seq![
            '.',
            digit_char(t % 10),
        ] + seq![' '] + seq![prefix_letter(rank)] + base_suffix(decimal));
        lemma_back_is_near(n as int, unit, t, decimal);
    }
}

/// The rendered tenths of a count are not negative.
pub proof fn lemma_scaled_tenths_not_negative(n: u64, decimal: bool)
    ensures
        0 <= scaled_tenths(n as int, decimal),
{
    let unit = unit_power(decimal, rank_of(n as int, decimal));
    let x = held_to_53_bits(n as int);
    let s = binade_scale(x, unit);
    lemma_held_is_near(n as int);
    assert(0 <= x * s) by (nonlinear_arith)
        requires
            0 <= x,
            0 < s,
    ;
    lemma_round_half_even_near(x * s, unit);
    lemma_round_half_even_near(10 * quotient_significand(x, unit), s);
}

/// The text of any count whose rank is 5 at most parses: to the rendered
/// tenths times the rendered unit, a tenth of it, cut down.
pub proof fn lemma_rendered_text_parses(n: u64, decimal: bool)
    requires
        n >= unit_of_base(decimal),
        rank_of(n as int, decimal) <= 5,
    ensures
        parse_result(spaced_text(n, decimal)) == Ok::<u64, Failure>(
            saturated((scaled_tenths(n as int, decimal) * rendered_unit(n, decimal)) / 10),
        ),
{
    let rank = rank_of(n as int, decimal);
    let t = scaled_tenths(n as int, decimal);
    lemma_scaled_tenths_not_negative(n, decimal);
    lemma_parse_of_tenths(t, rank, decimal);
    assert(spaced_text(n, decimal) =~= decimal_text((t / 10) as nat) + seq![
        '.',
        digit_char(t % 10),
    ] + seq![' '] + seq![prefix_letter(rank)] + base_suffix(decimal));
}

/// The text of a count of the sixth rank does not parse: no suffix of the
/// table starts with the letter of that rank, so the text is rejected for
/// an unknown unit.
pub proof fn lemma_sixth_rank_is_rejected(n: u64, decimal: bool)
    requires
        n >= unit_of_base(decimal),
        rank_of(n as int, decimal) == 6,
    ensures
        parse_result(spaced_text(n, decimal)) == Err::<u64, Failure>(
            Failure::UnknownUnit,
        ),
{
    let t = scaled_tenths(n as int, decimal);
    let whole = decimal_text((t / 10) as nat);
    let fraction = seq![digit_char(t % 10)];
    let named = seq!['E'] + base_suffix(decimal);
    lemma_scaled_tenths_not_negative(n, decimal);
    lemma_decimal_round_trip((t / 10) as nat);
    lemma_digit_char(t % 10);
    assert(named[0] == 'E');
    lemma_parse_of_parts(whole, true, fraction, seq![' '], named);
    assert(spaced_text(n, decimal) =~= mantissa_text(whole, true, fraction) + seq![
        ' ',
    ] + named);
}

/// A multiple of the unit in which it is rendered comes back as it was,
/// whatever its size below the sixth power of the unit of the base: its text
/// holds a whole number of units, with `0` for the tenths.
pub proof fn lemma_multiple_comes_back(n: u64, decimal: bool)
    requires
        n < unit_power(decimal, 6),
        n as int % rendered_unit(n, decimal) == 0,
    ensures
        parse_result(spaced_text(n, decimal)) == Ok::<u64, Failure>(n),
{
    if n < unit_of_base(decimal) {
        lemma_parse_of_small(n, decimal);
    } else {
        let rank = rank_of(n as int, decimal);
        let unit = unit_power(decimal, rank);
        let j = n as int / unit;
        vstd::arithmetic::div_mod::lemma_fundamental_div_mod(n as int, unit);
        vstd::arithmetic::div_mod::lemma_div_pos_is_pos(n as int, unit);
        assert(n == j * unit) by (nonlinear_arith)
            requires
                n == unit * j,
        ;
        if n < 0x20_0000_0000_0000 {
            lemma_small_is_held(n as int);
        } else {
            assert(rank == 5);
            assert(unit == 2048 * (unit / 2048));
            assert(n == 2048 * (j * (unit / 2048))) by (nonlinear_arith)
                requires
                    n == j * unit,
                    unit == 2048 * (unit / 2048),
            ;
            vstd::arithmetic::div_mod::lemma_fundamental_div_mod_converse(
                n as int,
                2048,
                j * (unit / 2048),
                0,
            );
            lemma_multiple_is_held(n as int);
        }
        lemma_tenths_of_multiple(j, unit);
        let t = scaled_tenths(n as int, decimal);
        assert(t == 10 * j);
        assert(t * unit == 10 * n) by (nonlinear_arith)
            requires
                t == 10 * j,
                n == j * unit,
        ;
        lemma_rendered_text_parses(n, decimal);
    }
}

} // verus!
