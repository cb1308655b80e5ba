//! The unit table: the multipliers of the decimal and binary units.

use crate::scan::to_chars;
use crate::text::{debug_quoted, quote};
use vstd::prelude::*;
use vstd::string::StringExecFns;

verus! {

/// Bytes in one byte.
pub const B: u64 = 1;

/// Bytes in one kilobyte.
pub const KB: u64 = 1_000;

/// Bytes in one megabyte.
pub const MB: u64 = 1_000_000;

/// Bytes in one gigabyte.
pub const GB: u64 = 1_000_000_000;

/// Bytes in one terabyte.
pub const TB: u64 = 1_000_000_000_000;

/// Bytes in one petabyte.
pub const PB: u64 = 1_000_000_000_000_000;

/// Bytes in one kibibyte.
pub const KIB: u64 = 1_024;

/// Bytes in one mebibyte.
pub const MIB: u64 = 1_048_576;

/// Bytes in one gibibyte.
pub const GIB: u64 = 1_073_741_824;

/// Bytes in one tebibyte.
pub const TIB: u64 = 1_099_511_627_776;

/// Bytes in one pebibyte.
pub const PIB: u64 = 1_125_899_906_842_624;

/// A magnitude class of the decimal or of the binary base.
#[derive(Clone, Copy, Debug, PartialEq, Eq, Structural)]
pub enum Unit {
    Byte,
    KiloByte,
    MegaByte,
    GigaByte,
    TeraByte,
    PetaByte,
    KibiByte,
    MebiByte,
    GibiByte,
    TebiByte,
    PebiByte,
}

impl Unit {
    /// The number of bytes that one of this unit stands for.
    pub open spec fn multiplier(self) -> int {
        match self {
            Unit::Byte => 1,
            Unit::KiloByte => 1_000,
            Unit::MegaByte => 1_000_000,
            Unit::GigaByte => 1_000_000_000,
            Unit::TeraByte => 1_000_000_000_000,
            Unit::PetaByte => 1_000_000_000_000_000,
            Unit::KibiByte => 1_024,
            Unit::MebiByte => 1_048_576,
            Unit::GibiByte => 1_073_741_824,
            Unit::TebiByte => 1_099_511_627_776,
            Unit::PebiByte => 1_125_899_906_842_624,
        }
    }

    /// The multiplier of this unit as a machine integer.
    pub fn factor(&self) -> (f: u64)
        ensures
            f == self.multiplier(),
    {
        match self {
            Unit::Byte => B,
            Unit::KiloByte => KB,
            Unit::MegaByte => MB,
            Unit::GigaByte => GB,
            Unit::TeraByte => TB,
            Unit::PetaByte => PB,
            Unit::KibiByte => KIB,
            Unit::MebiByte => MIB,
            Unit::GibiByte => GIB,
            Unit::TebiByte => TIB,
            Unit::PebiByte => PIB,
        }
    }
}

/// A character as the suffix table compares it: the capital forms of the
/// seven letters of the table, and the Kelvin sign, whose small form is `k`,
/// count as the small letter; every other character counts as itself.
pub open spec fn folded(c: char) -> char {
    if c == 'B' {
        'b'
    } else if c == 'G' {
        'g'
    } else if c == 'I' {
        'i'
    } else if c == 'K' || c == '\u{212A}' {
        'k'
    } else if c == 'M' {
        'm'
    } else if c == 'P' {
        'p'
    } else if c == 'T' {
        't'
    } else {
        c
    }
}

/// Whether a suffix is the one letter `a`, in either case.
pub open spec fn spelt_1(suffix: Seq<char>, a: char) -> bool {
    suffix.len() == 1 && folded(suffix[0]) == a
}

/// Whether a suffix is the two letters `a` and `b`, each in either case.
pub open spec fn spelt_2(suffix: Seq<char>, a: char, b: char) -> bool {
    suffix.len() == 2 && folded(suffix[0]) == a && folded(suffix[1]) == b
}

/// Whether a suffix is the three letters `a`, `b` and `c`, each in either
/// case.
pub open spec fn spelt_3(suffix: Seq<char>, a: char, b: char, c: char) -> bool {
    suffix.len() == 3 && folded(suffix[0]) == a && folded(suffix[1]) == b && folded(suffix[2])
        == c
}

/// The unit that a suffix names, if it names one. The suffix is matched
/// whole, without regard to the case of its letters: `b` names the byte, a
/// magnitude letter alone or with `b` names the decimal unit, and the letter
/// with `i` or with `ib` names the binary unit.
pub open spec fn unit_named(suffix: Seq<char>) -> Option<Unit> {
    if spelt_1(suffix, 'b') {
        Some(Unit::Byte)
    } else if spelt_1(suffix, 'k') || spelt_2(suffix, 'k', 'b') {
        Some(Unit::KiloByte)
    } else if spelt_1(suffix, 'm') || spelt_2(suffix, 'm', 'b') {
        Some(Unit::MegaByte)
    } else if spelt_1(suffix, 'g') || spelt_2(suffix, 'g', 'b') {
        Some(Unit::GigaByte)
    } else if spelt_1(suffix, 't') || spelt_2(suffix, 't', 'b') {
        Some(Unit::TeraByte)
    } else if spelt_1(suffix, 'p') || spelt_2(suffix, 'p', 'b') {
        Some(Unit::PetaByte)
    } else if spelt_2(suffix, 'k', 'i') || spelt_3(suffix, 'k', 'i', 'b') {
        Some(Unit::KibiByte)
    } else if spelt_2(suffix, 'm', 'i') || spelt_3(suffix, 'm', 'i', 'b') {
        Some(Unit::MebiByte)
    } else if spelt_2(suffix, 'g', 'i') || spelt_3(suffix, 'g', 'i', 'b') {
        Some(Unit::GibiByte)
    } else if spelt_2(suffix, 't', 'i') || spelt_3(suffix, 't', 'i', 'b') {
        Some(Unit::TebiByte)
    } else if spelt_2(suffix, 'p', 'i') || spelt_3(suffix, 'p', 'i', 'b') {
        Some(Unit::PebiByte)
    } else {
        None
    }
}

/// The magnitude that the small letter `c` opens a suffix for: 1 for `k` up
/// to 5 for `p`, and 0 for any other character.
pub open spec fn letter_rank(c: char) -> int {
    if c == 'k' {
        1
    } else if c == 'm' {
        2
    } else if c == 'g' {
        3
    } else if c == 't' {
        4
    } else if c == 'p' {
        5
    } else {
        0
    }
}

/// The decimal unit of a rank from 1 to 5.
pub open spec fn decimal_unit(rank: int) -> Unit {
    if rank <= 1 {
        Unit::KiloByte
    } else if rank == 2 {
        Unit::MegaByte
    } else if rank == 3 {
        Unit::GigaByte
    } else if rank == 4 {
        Unit::TeraByte
    } else {
        Unit::PetaByte
    }
}

/// The binary unit of a rank from 1 to 5.
pub open spec fn binary_unit(rank: int) -> Unit {
    if rank <= 1 {
        Unit::KibiByte
    } else if rank == 2 {
        Unit::MebiByte
    } else if rank == 3 {
        Unit::GibiByte
    } else if rank == 4 {
        Unit::TebiByte
    } else {
        Unit::PebiByte
    }
}

/// The suffix table by its shape: a suffix names a unit exactly when it is
/// `b`, or a magnitude letter followed by nothing, by `b`, by `i` or by
/// `ib`; the letter gives the rank, and the `i` the binary base.
pub proof fn lemma_unit_named(suffix: Seq<char>)
    ensures
        unit_named(suffix) == (if suffix.len() == 1 && folded(suffix[0]) == 'b' {
            Some(Unit::Byte)
        } else if 1 <= suffix.len() <= 3 && letter_rank(folded(suffix[0])) > 0 {
            let rank = letter_rank(folded(suffix[0]));
            if suffix.len() == 1 {
                Some(decimal_unit(rank))
            } else if suffix.len() == 2 && folded(suffix[1]) == 'b' {
                Some(decimal_unit(rank))
            } else if suffix.len() == 2 && folded(suffix[1]) == 'i' {
                Some(binary_unit(rank))
            } else if suffix.len() == 3 && folded(suffix[1]) == 'i' && folded(suffix[2]) == 'b' {
                Some(binary_unit(rank))
            } else {
                None
            }
        } else {
            None
        }),
{
}

/// The text that reports a suffix which names no unit, given the suffix in
/// its quoted form.
pub open spec fn unknown_unit_report(quoted: Seq<char>) -> Seq<char> {
    "couldn't parse unit of "@ + quoted
}

/// The text that reports a suffix which names no unit: the report on its
/// quoted form.
pub open spec fn unknown_unit_text(suffix: Seq<char>) -> Seq<char> {
    unknown_unit_report(debug_quoted(suffix))
}

/// Writes the report of a suffix that names no unit, from the suffix in its
/// quoted form.
pub fn unknown_unit_message(quoted: &str) -> (text: String)
    ensures
        text@ == unknown_unit_report(quoted@),
{
    let mut text = String::from_str("couldn't parse unit of ");
    text.append(quoted);
    text
}

/// Folds one character as `folded` defines it.
fn fold(c: char) -> (f: char)
    ensures
        f == folded(c),
{
    if c == 'B' {
        'b'
    } else if c == 'G' {
        'g'
    } else if c == 'I' {
        'i'
    } else if c == 'K' || c == '\u{212A}' {
        'k'
    } else if c == 'M' {
        'm'
    } else if c == 'P' {
        'p'
    } else if c == 'T' {
        't'
    } else {
        c
    }
}

/// The rank of a small magnitude letter, 0 for any other character.
fn rank_of_letter(c: char) -> (r: u8)
    ensures
        r == letter_rank(c),
{
    if c == 'k' {
        1
    } else if c == 'm' {
        2
    } else if c == 'g' {
        3
    } else if c == 't' {
        4
    } else if c == 'p' {
        5
    } else {
        0
    }
}

/// The decimal unit of a rank.
fn decimal_unit_of(rank: u8) -> (u: Unit)
    ensures
        u == decimal_unit(rank as int),
{
    if rank <= 1 {
        Unit::KiloByte
    } else if rank == 2 {
        Unit::MegaByte
    } else if rank == 3 {
        Unit::GigaByte
    } else if rank == 4 {
        Unit::TeraByte
    } else {
        Unit::PetaByte
    }
}

/// The binary unit of a rank.
fn binary_unit_of(rank: u8) -> (u: Unit)
    ensures
        u == binary_unit(rank as int),
{
    if rank <= 1 {
        Unit::KibiByte
    } else if rank == 2 {
        Unit::MebiByte
    } else if rank == 3 {
        Unit::GibiByte
    } else if rank == 4 {
        Unit::TebiByte
    } else {
        Unit::PebiByte
    }
}

impl Unit {
    /// Resolves a suffix against the unit table.
    pub fn resolve(suffix: &str) -> (unit: Option<Unit>)
        ensures
            unit == unit_named(suffix@),
    {
        let chars = to_chars(suffix);
        let n = chars.len();
        proof {
            lemma_unit_named(suffix@);
        }
        if n == 0 || n > 3 {
            return None;
        }
        let first = fold(chars[0]);
        if n == 1 && first == 'b' {
            return Some(Unit::Byte);
        }
        let rank = rank_of_letter(first);
        if rank == 0 {
            return None;
        }
        if n == 1 {
            return Some(decimal_unit_of(rank));
        }
        let second = fold(chars[1]);
        if n == 2 && second == 'b' {
            Some(decimal_unit_of(rank))
        } else if n == 2 && second == 'i' {
            Some(binary_unit_of(rank))
        } else if n == 3 && second == 'i' && fold(chars[2]) == 'b' {
            Some(binary_unit_of(rank))
        } else {
            None
        }
    }

    /// Resolves a suffix, or reports it as naming no unit.
    pub fn parse(suffix: &str) -> (r: Result<Unit, String>)
        ensures
            match r {
                Ok(unit) => unit_named(suffix@) == Some(unit),
                Err(text) => unit_named(suffix@).is_none() && text@ == unknown_unit_text(
                    suffix@,
                ),
            },
    {
        match Unit::resolve(suffix) {
            Some(unit) => Ok(unit),
            None => {
                let quoted = quote(suffix);
                Err(unknown_unit_message(quoted.as_str()))
            },
        }
    }
}

impl core::str::FromStr for Unit {
    type Err = String;

    fn from_str(unit: &str) -> (r: Result<Unit, String>)
        ensures
            match r {
                Ok(named) => unit_named(unit@) == Some(named),
                Err(text) => unit_named(unit@).is_none() && text@ == unknown_unit_text(unit@),
            },
    {
        Unit::parse(unit)
    }
}

impl From<Unit> for u64 {
    fn from(unit: Unit) -> (f: u64) {
        unit.factor()
    }
}

impl vstd::std_specs::convert::FromSpecImpl<Unit> for u64 {
    open spec fn obeys_from_spec() -> bool {
        true
    }

    open spec fn from_spec(unit: Unit) -> u64 {
        unit.multiplier() as u64
    }
}

/// Suffixes that differ only in the case of their letters name the same
/// unit, or both name none.
pub proof fn lemma_suffix_case(a: Seq<char>, b: Seq<char>)
    requires
        a.len() == b.len(),
        forall|i: int| 0 <= i < a.len() ==> folded(#[trigger] a[i]) == folded(b[i]),
    ensures
        unit_named(a) == unit_named(b),
{
    if a.len() >= 1 {
        assert(folded(a[0]) == folded(b[0]));
    }
    if a.len() >= 2 {
        assert(folded(a[1]) == folded(b[1]));
    }
    if a.len() >= 3 {
        assert(folded(a[2]) == folded(b[2]));
    }
}

/// The short and the full suffix of a unit name the same unit: a magnitude
/// letter alone and the letter with `b` name the decimal unit, the letter
/// with `i` and the letter with `ib` the binary unit, whatever the case of
/// each letter.
pub proof fn lemma_suffix_short_and_full(short: Seq<char>, b: char)
    requires
        folded(b) == 'b',
        letter_rank(folded(short[0])) > 0,
        short.len() == 1 || (short.len() == 2 && folded(short[1]) == 'i'),
    ensures
        unit_named(short) is Some,
        unit_named(short.push(b)) == unit_named(short),
        short.len() == 1 ==> unit_named(short) == Some(
            decimal_unit(letter_rank(folded(short[0]))),
        ),
        short.len() == 2 ==> unit_named(short) == Some(
            binary_unit(letter_rank(folded(short[0]))),
        ),
{
    let full = short.push(b);
    assert(full[0] == short[0]);
    assert(full[short.len() as int] == b);
    if short.len() == 2 {
        assert(full[1] == short[1]);
    }
    lemma_unit_named(short);
    lemma_unit_named(full);
}

/// Ranks and multipliers agree: the decimal unit of a rank is that power of
/// 1000 and the binary unit that power of 1024, and the multipliers grow
/// with the rank.
pub proof fn lemma_unit_multipliers(rank: int)
    requires
        1 <= rank <= 5,
    ensures
        decimal_unit(rank).multiplier() == vstd::arithmetic::power::pow(1000, rank as nat),
        binary_unit(rank).multiplier() == vstd::arithmetic::power::pow(1024, rank as nat),
        rank < 5 ==> decimal_unit(rank).multiplier() < decimal_unit(rank + 1).multiplier(),
        rank < 5 ==> binary_unit(rank).multiplier() < binary_unit(rank + 1).multiplier(),
        Unit::Byte.multiplier() == 1,
{
    reveal_with_fuel(vstd::arithmetic::power::pow, 6);
}

} // verus!
