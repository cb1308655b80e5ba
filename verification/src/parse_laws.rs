//! What the parser gives for a text, told from the parts of the text.

use crate::decimal::{all_digits, digits_value, is_digit};
use crate::mantissa::{saturated, scaled_count};
use crate::parse::{
    fraction_digits, has_mantissa, has_point, parse_result, plain_count, suffix_of, trim_end,
    trim_start, trimmed, whole_digits, Failure,
};
use crate::scan::{
    is_skipped, is_space, lemma_run_back, lemma_run_back_is, lemma_run_from_is, Class,
};
use crate::unit::{folded, lemma_suffix_case, unit_named};
use vstd::prelude::*;

verus! {

/// The text of a mantissa: the digits of its whole part and, where `point`
/// is set, a decimal point and the digits of its fraction.
pub open spec fn mantissa_text(whole: Seq<char>, point: bool, fraction: Seq<char>) -> Seq<char> {
    if point {
        whole + seq!['.'] + fraction
    } else {
        whole
    }
}

/// A text that starts with no white space and with no plus sign, and that
/// holds, at `at`, a character that is neither white space nor a digit, is
/// no plain count.
pub proof fn lemma_not_plain(text: Seq<char>, at: int)
    requires
        0 <= at < text.len(),
        !is_space(text[0]),
        !is_space(text[at]),
        !is_digit(text[at]),
        text[0] != '+',
    ensures
        plain_count(trimmed(text)).is_none(),
{
    let p = Class::Space.members();
    lemma_run_from_is(text, p, 0, 0);
    lemma_run_back(text, p, text.len() as int);
    assert(trim_start(text) == 0);
    assert(at < trim_end(text) <= text.len());
    let kept = trimmed(text);
    assert(kept[at] == text[at]);
    assert(kept[0] == text[0]);
    assert(!is_digit(kept[at]));
}

/// The truncation law. A text made of a mantissa, of white space, digits
/// and decimal points that go unread, and of a suffix, parses to the
/// mantissa times the multiplier of the unit that the suffix names, with
/// what lies below one byte dropped; where the suffix names no unit, the
/// text is rejected for an unknown unit.
pub proof fn lemma_parse_of_parts(
    whole: Seq<char>,
    point: bool,
    fraction: Seq<char>,
    gap: Seq<char>,
    suffix: Seq<char>,
)
    requires
        all_digits(whole),
        all_digits(fraction),
        whole.len() + fraction.len() > 0,
        !point ==> fraction.len() == 0,
        forall|i: int| 0 <= i < gap.len() ==> is_skipped(#[trigger] gap[i]),
        gap.len() > 0 ==> !is_digit(gap[0]) && (point || gap[0] != '.'),
        suffix.len() > 0,
        !is_skipped(suffix[0]),
    ensures
        suffix_of(mantissa_text(whole, point, fraction) + gap + suffix) == suffix,
        parse_result(mantissa_text(whole, point, fraction) + gap + suffix) == (match unit_named(
            suffix,
        ) {
            Some(unit) => Ok::<u64, Failure>(
                saturated(scaled_count(whole, fraction, unit.multiplier())),
            ),
            None => Err::<u64, Failure>(Failure::UnknownUnit),
        }),
{
    let mantissa = mantissa_text(whole, point, fraction);
    let text = mantissa + gap + suffix;
    let at = mantissa.len() + gap.len();
    let digit = Class::Digit.members();
    let skipped = Class::Skipped.members();
    assert(text[at as int] == suffix[0]);
    // The start of the text is a digit or the decimal point.
    if whole.len() > 0 {
        assert(text[0] == whole[0]);
    } else {
        assert(text[0] == '.');
    }
    lemma_not_plain(text, at as int);
    // The whole part.
    assert forall|i: int| 0 <= i < whole.len() implies digit(#[trigger] text[i]) by {
        assert(text[i] == whole[i]);
    }
    if point {
        assert(text[whole.len() as int] == '.');
    } else if gap.len() > 0 {
        assert(text[whole.len() as int] == gap[0]);
    }
    lemma_run_from_is(text, digit, 0, whole.len() as int);
    assert(whole_digits(text) =~= whole);
    // The fraction.
    if point {
        assert(has_point(text));
        let first = whole.len() as int + 1;
        let end = first + fraction.len();
        assert forall|i: int| first <= i < end implies digit(#[trigger] text[i]) by {
            assert(text[i] == fraction[i - first]);
        }
        if gap.len() > 0 {
            assert(text[end] == gap[0]);
        } else {
            assert(text[end] == suffix[0]);
        }
        lemma_run_from_is(text, digit, first, end);
        assert(fraction_digits(text) =~= fraction);
    } else {
        assert(!has_point(text));
        assert(fraction_digits(text) =~= fraction);
    }
    assert(has_mantissa(text));
    // The suffix.
    assert forall|i: int| 0 <= i < at implies skipped(#[trigger] text[i]) by {
        if i < mantissa.len() {
            if i < whole.len() {
                assert(text[i] == whole[i]);
            } else if i == whole.len() {
                assert(text[i] == '.');
            } else {
                assert(text[i] == fraction[i - whole.len() - 1]);
            }
        } else {
            assert(text[i] == gap[i - mantissa.len()]);
        }
    }
    lemma_run_from_is(text, skipped, 0, at as int);
    assert(suffix_of(text) =~= suffix);
}

/// Texts that differ only in the case of the letters of their suffixes parse
/// alike: to the same count, or to the same rejection.
pub proof fn lemma_parse_ignores_case(
    whole: Seq<char>,
    point: bool,
    fraction: Seq<char>,
    gap: Seq<char>,
    suffix: Seq<char>,
    other: Seq<char>,
)
    requires
        all_digits(whole),
        all_digits(fraction),
        whole.len() + fraction.len() > 0,
        !point ==> fraction.len() == 0,
        forall|i: int| 0 <= i < gap.len() ==> is_skipped(#[trigger] gap[i]),
        gap.len() > 0 ==> !is_digit(gap[0]) && (point || gap[0] != '.'),
        suffix.len() > 0,
        !is_skipped(suffix[0]),
        other.len() == suffix.len(),
        forall|i: int| 0 <= i < suffix.len() ==> folded(#[trigger] suffix[i]) == folded(other[i]),
    ensures
        parse_result(mantissa_text(whole, point, fraction) + gap + suffix) == parse_result(
            mantissa_text(whole, point, fraction) + gap + other,
        ),
{
    assert(folded(suffix[0]) == folded(other[0]));
    lemma_parse_of_parts(whole, point, fraction, gap, suffix);
    lemma_parse_of_parts(whole, point, fraction, gap, other);
    lemma_suffix_case(suffix, other);
}

/// A text that is empty, or that starts with a character that is no white
/// space, no digit, no decimal point and no plus sign, is rejected as an
/// invalid number.
pub proof fn lemma_parse_without_number(text: Seq<char>)
    requires
        text.len() > 0 ==> !is_skipped(text[0]) && text[0] != '+',
    ensures
        parse_result(text) == Err::<u64, Failure>(Failure::InvalidNumber),
{
    let digit = Class::Digit.members();
    if text.len() > 0 {
        lemma_not_plain(text, 0);
        assert(!digit(text[0]));
    } else {
        assert(trimmed(text) =~= text);
    }
    lemma_run_from_is(text, digit, 0, 0);
    assert(whole_digits(text) =~= Seq::<char>::empty());
    assert(!has_point(text));
}

/// A text made of white space, of digits whose value fits in 64 bits, and
/// of white space again, parses to that value as a count of bytes.
pub proof fn lemma_parse_of_plain(before: Seq<char>, digits: Seq<char>, after: Seq<char>)
    requires
        forall|i: int| 0 <= i < before.len() ==> is_space(#[trigger] before[i]),
        forall|i: int| 0 <= i < after.len() ==> is_space(#[trigger] after[i]),
        digits.len() > 0,
        all_digits(digits),
        digits_value(digits) <= u64::MAX,
    ensures
        parse_result(before + digits + after) == Ok::<u64, Failure>(digits_value(digits) as u64),
{
    let text = before + digits + after;
    let p = Class::Space.members();
    let first = before.len() as int;
    let end = first + digits.len();
    assert forall|i: int| 0 <= i < first implies p(#[trigger] text[i]) by {
        assert(text[i] == before[i]);
    }
    assert(text[first] == digits[0]);
    assert(is_digit(digits[0]));
    lemma_run_from_is(text, p, 0, first);
    assert forall|i: int| end <= i < text.len() implies p(#[trigger] text[i]) by {
        assert(text[i] == after[i - end]);
    }
    assert(text[end - 1] == digits[digits.len() - 1]);
    assert(is_digit(digits[digits.len() - 1]));
    lemma_run_back_is(text, p, text.len() as int, end);
    assert(trimmed(text) =~= digits);
}

} // verus!
