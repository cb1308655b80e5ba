//! The humanizer: the choice of a magnitude for a count of bytes and its
//! rendering with one decimal place.
//!
//! The rank of a count at or above the unit of its base is that of the
//! largest power of the unit that does not exceed the count, from 1 for kilo
//! or kibi up to 6 for exa or exbi. The count is divided by that power in the
//! manner of double-precision arithmetic, and the quotient is rounded to one
//! decimal place.

use crate::decimal::{decimal_text, digit_char, push_decimal, push_digit};
use crate::rounding::{held_to_53_bits, hold_to_53_bits, quotient_tenths, tenths_of_quotient};
use crate::unit::{KB, KIB};
use vstd::prelude::*;
use vstd::string::StringExecFns;

verus! {

/// The unit of a base: 1000 for the decimal base, 1024 for the binary one.
pub open spec fn unit_of_base(decimal: bool) -> int {
    if decimal {
        1000
    } else {
        1024
    }
}

/// The rank of the magnitude in which `n` is rendered: that of the largest
/// power of the unit, from the first to the sixth, that does not exceed `n`.
/// It is meant for `n` at or above the unit of the base, and is 1 below it.
pub open spec fn rank_of(n: int, decimal: bool) -> int {
    if n >= unit_power(decimal, 6) {
        6
    } else if n >= unit_power(decimal, 5) {
        5
    } else if n >= unit_power(decimal, 4) {
        4
    } else if n >= unit_power(decimal, 3) {
        3
    } else if n >= unit_power(decimal, 2) {
        2
    } else {
        1
    }
}

/// The unit of the base raised to `rank`, for ranks 1 to 6.
pub open spec fn unit_power(decimal: bool, rank: int) -> int {
    if decimal {
        if rank <= 1 {
            1_000
        } else if rank == 2 {
            1_000_000
        } else if rank == 3 {
            1_000_000_000
        } else if rank == 4 {
            1_000_000_000_000
        } else if rank == 5 {
            1_000_000_000_000_000
        } else {
            1_000_000_000_000_000_000
        }
    } else {
        if rank <= 1 {
            0x400
        } else if rank == 2 {
            0x10_0000
        } else if rank == 3 {
            0x4000_0000
        } else if rank == 4 {
            0x100_0000_0000
        } else if rank == 5 {
            0x4_0000_0000_0000
        } else {
            0x1000_0000_0000_0000
        }
    }
}

/// The letter of a rank: K, M, G, T, P, E for ranks 1 to 6, the same in
/// both bases.
pub open spec fn prefix_letter(rank: int) -> char {
    if rank <= 1 {
        'K'
    } else if rank == 2 {
        'M'
    } else if rank == 3 {
        'G'
    } else if rank == 4 {
        'T'
    } else if rank == 5 {
        'P'
    } else {
        'E'
    }
}

/// The count `n`, divided by the unit power of its rank in double precision
/// and rounded to one decimal place, in tenths.
pub open spec fn scaled_tenths(n: int, decimal: bool) -> int {
    quotient_tenths(held_to_53_bits(n), unit_power(decimal, rank_of(n, decimal)))
}

/// The text of `n` bytes. Below the unit of the base it is the count itself,
/// the separator and `B`. From the unit on it is the scaled count with one
/// decimal place, the separator, the letter of the rank and the suffix.
pub open spec fn humanized(n: u64, decimal: bool, separator: Seq<char>, suffix: Seq<char>) -> Seq<
    char,
> {
    if n < unit_of_base(decimal) {
        decimal_text(n as nat) + separator + seq!['B']
    } else {
        let t = scaled_tenths(n as int, decimal);
        decimal_text((t / 10) as nat) + seq!['.', digit_char(t % 10)] + separator
            + seq![prefix_letter(rank_of(n as int, decimal))] + suffix
    }
}

/// Computes the rank of `n`.
pub fn rank(n: u64, decimal: bool) -> (r: u8)
    ensures
        r == rank_of(n as int, decimal),
        1 <= r <= 6,
{
    let mut r: u8 = 6;
    while r > 1 && n < power_of_unit(decimal, r)
        invariant
            1 <= r <= 6,
            forall|k: int| r < k <= 6 ==> n < #[trigger] unit_power(decimal, k),
        decreases r,
    {
        r = r - 1;
    }
    proof {
        assert(forall|k: int| r < k <= 6 ==> n < #[trigger] unit_power(decimal, k));
        if r < 6 {
            assert(n < unit_power(decimal, 6));
        }
        if r < 5 {
            assert(n < unit_power(decimal, 5));
        }
        if r < 4 {
            assert(n < unit_power(decimal, 4));
        }
        if r < 3 {
            assert(n < unit_power(decimal, 3));
        }
        if r < 2 {
            assert(n < unit_power(decimal, 2));
        }
    }
    r
}

/// Computes the unit of the base raised to `rank`.
pub fn power_of_unit(decimal: bool, rank: u8) -> (p: u64)
    ensures
        p == unit_power(decimal, rank as int),
        1000 <= p <= 0x1000_0000_0000_0000,
{
    if decimal {
        if rank <= 1 {
            1_000
        } else if rank == 2 {
            1_000_000
        } else if rank == 3 {
            1_000_000_000
        } else if rank == 4 {
            1_000_000_000_000
        } else if rank == 5 {
            1_000_000_000_000_000
        } else {
            1_000_000_000_000_000_000
        }
    } else {
        if rank <= 1 {
            0x400
        } else if rank == 2 {
            0x10_0000
        } else if rank == 3 {
            0x4000_0000
        } else if rank == 4 {
            0x100_0000_0000
        } else if rank == 5 {
            0x4_0000_0000_0000
        } else {
            0x1000_0000_0000_0000
        }
    }
}

/// Writes the letter of `rank` at the end of `out`.
fn push_prefix_letter(out: &mut String, rank: u8)
    ensures
        final(out)@ == old(out)@.push(prefix_letter(rank as int)),
{
    let ghost before = out@;
    proof {
        reveal_strlit("K");
        reveal_strlit("M");
        reveal_strlit("G");
        reveal_strlit("T");
        reveal_strlit("P");
        reveal_strlit("E");
    }
    if rank <= 1 {
        out.append("K");
    } else if rank == 2 {
        out.append("M");
    } else if rank == 3 {
        out.append("G");
    } else if rank == 4 {
        out.append("T");
    } else if rank == 5 {
        out.append("P");
    } else {
        out.append("E");
    }
    assert(out@ =~= before.push(prefix_letter(rank as int)));
}

/// Renders `bytes` as text in the decimal or the binary base.
pub fn render(bytes: u64, decimal: bool, separator: &str, suffix: &str) -> (text: String)
    ensures
        text@ == humanized(bytes, decimal, separator@, suffix@),
{
    let unit = if decimal {
        KB
    } else {
        KIB
    };
    let mut out = String::new();
    if bytes < unit {
        push_decimal(&mut out, bytes);
        out.append(separator);
        out.append("B");
        proof {
            reveal_strlit("B");
            assert(out@ =~= humanized(bytes, decimal, separator@, suffix@));
        }
    } else {
        let r = rank(bytes, decimal);
        let wide = tenths_of_quotient(hold_to_53_bits(bytes), power_of_unit(decimal, r) as u128);
        let t: u64 = wide as u64;
        push_decimal(&mut out, t / 10);
        out.append(".");
        push_digit(&mut out, t % 10);
        out.append(separator);
        push_prefix_letter(&mut out, r);
        out.append(suffix);
        proof {
            reveal_strlit(".");
            assert(out@ =~= humanized(bytes, decimal, separator@, suffix@));
        }
    }
    out
}

/// A count below the unit of its base is rendered exactly: the count itself,
/// the separator and `B`, with no decimal point and no magnitude letter.
pub proof fn lemma_below_unit_is_exact(
    n: u64,
    decimal: bool,
    separator: Seq<char>,
    suffix: Seq<char>,
)
    requires
        n < unit_of_base(decimal),
    ensures
        humanized(n, decimal, separator, suffix) == decimal_text(n as nat) + separator + seq!['B'],
{
}

/// The rank never falls as the count grows.
pub proof fn lemma_rank_is_monotonic(a: int, b: int, decimal: bool)
    requires
        a <= b,
    ensures
        rank_of(a, decimal) <= rank_of(b, decimal),
        1 <= rank_of(a, decimal) <= 6,
{
}

/// The unit power of a rank is the unit of the base raised to the rank.
pub proof fn lemma_unit_power(decimal: bool, rank: int)
    requires
        1 <= rank <= 6,
    ensures
        unit_power(decimal, rank) == vstd::arithmetic::power::pow(
            unit_of_base(decimal),
            rank as nat,
        ),
{
    reveal_with_fuel(vstd::arithmetic::power::pow, 7);
}

/// The rank of a count at or above the unit of its base is that of the
/// largest unit that does not exceed the count: the power of the unit of
/// that rank does not exceed the count, the next power, if the rank has one,
/// does, and so does the power of every rank above.
pub proof fn lemma_rank_is_largest(n: int, decimal: bool)
    requires
        n >= unit_of_base(decimal),
    ensures
        1 <= rank_of(n, decimal) <= 6,
        unit_power(decimal, rank_of(n, decimal)) <= n,
        rank_of(n, decimal) < 6 ==> n < unit_power(decimal, rank_of(n, decimal) + 1),
        forall|k: int| 1 <= k <= 6 && #[trigger] unit_power(decimal, k) <= n ==> k <= rank_of(
            n,
            decimal,
        ),
{
}

} // verus!
