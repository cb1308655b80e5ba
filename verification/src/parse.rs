//! The parser of size expressions: a mantissa, then a unit suffix.
//!
//! A text that, with the white space at its ends set aside, is a plain
//! unsigned number of at most 64 bits is a count of bytes. Any other text is
//! read as a mantissa at its start and a suffix at its end; the mantissa
//! times the multiplier of the unit that the suffix names, with what lies
//! below one byte dropped, is the count.

use crate::decimal::{all_digits, digits_value, is_digit};
use crate::mantissa::{saturated, scale_mantissa, scaled_count, whole_value};
use crate::scan::{lemma_run_from, run_back, run_end, run_from, run_start, to_chars, Class};
use crate::text::{debug_quoted, quote};
use crate::unit::{unit_named, unknown_unit_message, unknown_unit_report, Unit};
use vstd::prelude::*;
use vstd::string::{StrSliceExecFns, StringExecFns};

verus! {

/// Why a text is rejected.
#[derive(Clone, Copy, Debug, PartialEq, Eq, Structural)]
pub enum Failure {
    /// An invalid number: the text does not start with a mantissa that has a
    /// digit.
    InvalidNumber,
    /// An unknown unit: what follows the mantissa names no unit of the table.
    UnknownUnit,
}

/// A text that is not a size expression: why it is rejected, and the part of
/// the text that is at fault.
#[derive(Debug)]
pub struct Rejection {
    pub failure: Failure,
    pub offending: String,
}

/// Where the text starts once the white space at its start is set aside.
pub open spec fn trim_start(s: Seq<char>) -> int {
    run_from(s, Class::Space.members(), 0)
}

/// Where the text ends once the white space at its end is set aside too.
pub open spec fn trim_end(s: Seq<char>) -> int {
    let end = run_back(s, Class::Space.members(), s.len() as int);
    if end < trim_start(s) {
        trim_start(s)
    } else {
        end
    }
}

/// The text without the white space at its start and at its end.
pub open spec fn trimmed(s: Seq<char>) -> Seq<char> {
    s.subrange(trim_start(s), trim_end(s))
}

/// The number that a text writes plainly: one or more ASCII digits, with or
/// without a plus sign before them, whose value fits in 64 bits.
pub open spec fn plain_count(t: Seq<char>) -> Option<u64> {
    let d = if t.len() > 0 && t[0] == '+' {
        t.skip(1)
    } else {
        t
    };
    if d.len() > 0 && all_digits(d) && digits_value(d) <= u64::MAX {
        Some(digits_value(d) as u64)
    } else {
        None
    }
}

/// Where the whole part of the mantissa ends: behind the ASCII digits at the
/// start of the text.
pub open spec fn whole_end(s: Seq<char>) -> int {
    run_from(s, Class::Digit.members(), 0)
}

/// The digits of the whole part of the mantissa.
pub open spec fn whole_digits(s: Seq<char>) -> Seq<char> {
    s.subrange(0, whole_end(s))
}

/// Whether a decimal point follows the whole part.
pub open spec fn has_point(s: Seq<char>) -> bool {
    whole_end(s) < s.len() && s[whole_end(s)] == '.'
}

/// Where the fraction of the mantissa ends: behind the ASCII digits that
/// follow the decimal point.
pub open spec fn fraction_end(s: Seq<char>) -> int {
    run_from(s, Class::Digit.members(), whole_end(s) + 1)
}

/// The digits of the fraction of the mantissa: the ASCII digits after the
/// decimal point that follows the whole part, if one follows.
pub open spec fn fraction_digits(s: Seq<char>) -> Seq<char> {
    if has_point(s) {
        s.subrange(whole_end(s) + 1, fraction_end(s))
    } else {
        Seq::empty()
    }
}

/// Whether the mantissa is a number: it has a digit.
pub open spec fn has_mantissa(s: Seq<char>) -> bool {
    whole_digits(s).len() + fraction_digits(s).len() > 0
}

/// Where the unit suffix starts: behind the white space, digits and decimal
/// points at the start of the text.
pub open spec fn suffix_start(s: Seq<char>) -> int {
    run_from(s, Class::Skipped.members(), 0)
}

/// The unit suffix: what is left of the text after the white space, digits
/// and decimal points at its start.
pub open spec fn suffix_of(s: Seq<char>) -> Seq<char> {
    s.skip(suffix_start(s))
}

/// What parsing a text gives: a count of bytes, or why the text is
/// rejected.
pub open spec fn parse_result(s: Seq<char>) -> Result<u64, Failure> {
    match plain_count(trimmed(s)) {
        Some(count) => Ok(count),
        None => if !has_mantissa(s) {
            Err(Failure::InvalidNumber)
        } else {
            match unit_named(suffix_of(s)) {
                None => Err(Failure::UnknownUnit),
                Some(unit) => Ok(
                    saturated(scaled_count(whole_digits(s), fraction_digits(s), unit.multiplier())),
                ),
            }
        },
    }
}

/// The part of a rejected text that is at fault: the whole text where it
/// does not start with a number, its suffix where that names no unit.
pub open spec fn offending_part(s: Seq<char>, failure: Failure) -> Seq<char> {
    match failure {
        Failure::InvalidNumber => s,
        Failure::UnknownUnit => suffix_of(s),
    }
}

/// Reads the characters from `from` up to `to` as a plain count.
fn read_plain_count(chars: &Vec<char>, from: usize, to: usize) -> (r: Option<u64>)
    requires
        from <= to <= chars.len(),
    ensures
        r == plain_count(chars@.subrange(from as int, to as int)),
{
    let ghost t = chars@.subrange(from as int, to as int);
    let start = if from < to && chars[from] == '+' {
        from + 1
    } else {
        from
    };
    let ghost d = chars@.subrange(start as int, to as int);
    proof {
        if from < to {
            assert(t[0] == chars@[from as int]);
        }
        if start == from + 1 {
            assert(t.skip(1) =~= d);
        } else {
            assert(t =~= d);
        }
    }
    if start == to {
        return None;
    }
    let end = run_end(chars, start, Class::Digit);
    proof {
        let p = Class::Digit.members();
        lemma_run_from(chars@, p, start as int);
        if end >= to {
            assert(all_digits(d)) by {
                assert forall|i: int| 0 <= i < d.len() implies is_digit(#[trigger] d[i]) by {
                    assert(p(chars@[i + start]));
                }
            }
        } else {
            assert(!p(chars@[end as int]));
            assert(!is_digit(d[end - start]));
        }
    }
    if end < to {
        return None;
    }
    let w = whole_value(chars, start, to);
    if w >= 0x1_0000_0000_0000_0000 {
        None
    } else {
        Some(w as u64)
    }
}

/// The characters of a run of digits are digits.
proof fn lemma_run_is_digits(s: Seq<char>, from: int)
    requires
        0 <= from <= s.len(),
    ensures
        from <= run_from(s, Class::Digit.members(), from) <= s.len(),
        all_digits(s.subrange(from, run_from(s, Class::Digit.members(), from))),
{
    let p = Class::Digit.members();
    lemma_run_from(s, p, from);
    let run = s.subrange(from, run_from(s, p, from));
    assert forall|i: int| 0 <= i < run.len() implies is_digit(#[trigger] run[i]) by {
        assert(p(s[i + from]));
    }
}

/// Parses a size expression into a count of bytes.
pub fn parse_bytes(value: &str) -> (r: Result<u64, Rejection>)
    ensures
        match r {
            Ok(count) => parse_result(value@) == Ok::<u64, Failure>(count),
            Err(e) => parse_result(value@) == Err::<u64, Failure>(e.failure) && e.offending@
                == offending_part(value@, e.failure),
        },
{
    let chars = to_chars(value);
    let n = chars.len();
    let ghost s = value@;
    let lead = run_end(&chars, 0, Class::Space);
    let back = run_start(&chars, n, Class::Space);
    let tail = if back < lead {
        lead
    } else {
        back
    };
    match read_plain_count(&chars, lead, tail) {
        Some(count) => {
            return Ok(count);
        },
        None => {},
    }
    let whole_end = run_end(&chars, 0, Class::Digit);
    let mut fraction_start = whole_end;
    let mut fraction_end = whole_end;
    if whole_end < n && chars[whole_end] == '.' {
        fraction_start = whole_end + 1;
        fraction_end = run_end(&chars, fraction_start, Class::Digit);
    }
    proof {
        lemma_run_is_digits(s, 0);
        if has_point(s) {
            lemma_run_is_digits(s, whole_end as int + 1);
        } else {
            assert(fraction_digits(s) =~= chars@.subrange(
                fraction_start as int,
                fraction_end as int,
            ));
        }
    }
    if whole_end + (fraction_end - fraction_start) == 0 {
        return Err(
            Rejection { failure: Failure::InvalidNumber, offending: String::from_str(value) },
        );
    }
    let skip = run_end(&chars, 0, Class::Skipped);
    let suffix = value.substring_char(skip, n);
    proof {
        assert(suffix@ =~= suffix_of(s));
    }
    match Unit::resolve(suffix) {
        None => Err(
            Rejection { failure: Failure::UnknownUnit, offending: String::from_str(suffix) },
        ),
        Some(unit) => Ok(
            scale_mantissa(&chars, whole_end, fraction_start, fraction_end, unit.factor()),
        ),
    }
}

/// The text that reports a rejection, given the offending part and its
/// quoted form. It holds the quoted form, names what the text was to be
/// parsed into, and ends with the reason: for a number, that the mantissa is
/// empty or that it is a decimal point without a digit; for a unit, that the
/// suffix names none.
pub open spec fn rejection_report(failure: Failure, offending: Seq<char>, quoted: Seq<char>) -> Seq<
    char,
> {
    match failure {
        Failure::InvalidNumber => "couldn't parse "@ + quoted + " into a ByteSize, "@
            + number_reason(offending),
        Failure::UnknownUnit => "couldn't parse "@ + quoted + " into a known SI unit, "@
            + unknown_unit_report(quoted),
    }
}

/// The text that reports a rejection: the report on the offending part and
/// its quoted form.
pub open spec fn rejection_text(failure: Failure, offending: Seq<char>) -> Seq<char> {
    rejection_report(failure, offending, debug_quoted(offending))
}

/// Why a text starts with no number: its mantissa is a decimal point without
/// a digit, or it is empty.
pub open spec fn number_reason(offending: Seq<char>) -> Seq<char> {
    if offending.len() > 0 && offending[0] == '.' {
        "invalid float literal"@
    } else {
        "cannot parse float from empty string"@
    }
}

/// Writes the report of a rejection, from the offending part and its quoted
/// form.
pub fn rejection_message(failure: Failure, offending: &str, quoted: &str) -> (text: String)
    ensures
        text@ == rejection_report(failure, offending@, quoted@),
{
    let mut text = String::from_str("couldn't parse ");
    text.append(quoted);
    match failure {
        Failure::InvalidNumber => {
            text.append(" into a ByteSize, ");
            if !offending.is_empty() && offending.get_char(0) == '.' {
                text.append("invalid float literal");
            } else {
                text.append("cannot parse float from empty string");
            }
        },
        Failure::UnknownUnit => {
            text.append(" into a known SI unit, ");
            let reason = unknown_unit_message(quoted);
            text.append(reason.as_str());
        },
    }
    assert(text@ =~= rejection_report(failure, offending@, quoted@));
    text
}

impl Rejection {
    /// The text that reports the rejection.
    pub fn message(&self) -> (text: String)
        ensures
            text@ == rejection_text(self.failure, self.offending@),
    {
        let offending = self.offending.as_str();
        let quoted = quote(offending);
        rejection_message(self.failure, offending, quoted.as_str())
    }
}

} // verus!
