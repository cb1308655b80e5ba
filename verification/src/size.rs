//! Byte sizes whose rendering is chosen by a formatter: binary units, decimal
//! units, or a compact form that sorts well.

use crate::conversion::converts_to;
use crate::parse::{
    offending_part, parse_bytes, parse_result, rejection_text, Failure, Rejection,
};
use crate::render::{humanized, render};
use crate::unit::{GB, GIB, KB, KIB, MB, MIB, PB, PIB, TB, TIB};
use vstd::prelude::*;

verus! {

/// The number of bytes in `size` units of `unit` bytes each: a multiple of
/// the unit whose quotient is what converting `size` gives.
fn times_unit<V: Into<u64>>(size: V, unit: u64) -> (bytes: u64)
    requires
        unit > 0,
        forall|count: u64| converts_to(size, count) ==> count * unit <= u64::MAX,
    ensures
        bytes % unit == 0,
        converts_to(size, bytes / unit),
{
    let count: u64 = size.into();
    assert(converts_to(size, count));
    proof {
        vstd::arithmetic::div_mod::lemma_fundamental_div_mod_converse(
            count * unit,
            unit as int,
            count as int,
            0,
        );
    }
    count * unit
}

/// The number of bytes in `size` kilobytes: a multiple of the unit whose
/// quotient is what converting `size` gives.
pub fn kb<V: Into<u64>>(size: V) -> (bytes: u64)
    requires
        forall|count: u64| converts_to(size, count) ==> count * KB <= u64::MAX,
    ensures
        bytes % KB == 0,
        converts_to(size, bytes / KB),
{
    times_unit(size, KB)
}

/// The number of bytes in `size` kibibytes: a multiple of the unit whose
/// quotient is what converting `size` gives.
pub fn kib<V: Into<u64>>(size: V) -> (bytes: u64)
    requires
        forall|count: u64| converts_to(size, count) ==> count * KIB <= u64::MAX,
    ensures
        bytes % KIB == 0,
        converts_to(size, bytes / KIB),
{
    times_unit(size, KIB)
}

/// The number of bytes in `size` megabytes: a multiple of the unit whose
/// quotient is what converting `size` gives.
pub fn mb<V: Into<u64>>(size: V) -> (bytes: u64)
    requires
        forall|count: u64| converts_to(size, count) ==> count * MB <= u64::MAX,
    ensures
        bytes % MB == 0,
        converts_to(size, bytes / MB),
{
    times_unit(size, MB)
}

/// The number of bytes in `size` mebibytes: a multiple of the unit whose
/// quotient is what converting `size` gives.
pub fn mib<V: Into<u64>>(size: V) -> (bytes: u64)
    requires
        forall|count: u64| converts_to(size, count) ==> count * MIB <= u64::MAX,
    ensures
        bytes % MIB == 0,
        converts_to(size, bytes / MIB),
{
    times_unit(size, MIB)
}

/// The number of bytes in `size` gigabytes: a multiple of the unit whose
/// quotient is what converting `size` gives.
pub fn gb<V: Into<u64>>(size: V) -> (bytes: u64)
    requires
        forall|count: u64| converts_to(size, count) ==> count * GB <= u64::MAX,
    ensures
        bytes % GB == 0,
        converts_to(size, bytes / GB),
{
    times_unit(size, GB)
}

/// The number of bytes in `size` gibibytes: a multiple of the unit whose
/// quotient is what converting `size` gives.
pub fn gib<V: Into<u64>>(size: V) -> (bytes: u64)
    requires
        forall|count: u64| converts_to(size, count) ==> count * GIB <= u64::MAX,
    ensures
        bytes % GIB == 0,
        converts_to(size, bytes / GIB),
{
    times_unit(size, GIB)
}

/// The number of bytes in `size` terabytes: a multiple of the unit whose
/// quotient is what converting `size` gives.
pub fn tb<V: Into<u64>>(size: V) -> (bytes: u64)
    requires
        forall|count: u64| converts_to(size, count) ==> count * TB <= u64::MAX,
    ensures
        bytes % TB == 0,
        converts_to(size, bytes / TB),
{
    times_unit(size, TB)
}

/// The number of bytes in `size` tebibytes: a multiple of the unit whose
/// quotient is what converting `size` gives.
pub fn tib<V: Into<u64>>(size: V) -> (bytes: u64)
    requires
        forall|count: u64| converts_to(size, count) ==> count * TIB <= u64::MAX,
    ensures
        bytes % TIB == 0,
        converts_to(size, bytes / TIB),
{
    times_unit(size, TIB)
}

/// The number of bytes in `size` petabytes: a multiple of the unit whose
/// quotient is what converting `size` gives.
pub fn pb<V: Into<u64>>(size: V) -> (bytes: u64)
    requires
        forall|count: u64| converts_to(size, count) ==> count * PB <= u64::MAX,
    ensures
        bytes % PB == 0,
        converts_to(size, bytes / PB),
{
    times_unit(size, PB)
}

/// The number of bytes in `size` pebibytes: a multiple of the unit whose
/// quotient is what converting `size` gives.
pub fn pib<V: Into<u64>>(size: V) -> (bytes: u64)
    requires
        forall|count: u64| converts_to(size, count) ==> count * PIB <= u64::MAX,
    ensures
        bytes % PIB == 0,
        converts_to(size, bytes / PIB),
{
    times_unit(size, PIB)
}

/// The formatter of binary units: 32 * 1024 bytes are `32.0 KiB`.
pub struct IEC;

/// The formatter of decimal units: 32 * 1000 bytes are `32.0 KB`.
pub struct SI;

/// The formatter of the compact form: 32 * 1024 bytes are `32.0K`.
pub struct Sort;

/// Renders `bytes` in the decimal base where `si` is set and in the binary
/// base where it is not. `prefix` stands before the unit and `suffix` after
/// its letter.
pub fn humanize(bytes: u64, si: bool, prefix: &str, suffix: &str) -> (text: String)
    ensures
        text@ == humanized(bytes, si, prefix@, suffix@),
{
    render(bytes, si, prefix, suffix)
}

/// A way to render a count of bytes as text.
pub trait ByteFormatter {
    /// The text that the formatter gives for `bytes`.
    spec fn text(&self, bytes: u64) -> Seq<char>;

    /// Renders `bytes` as text.
    fn humanize(&self, bytes: u64) -> (text: String)
        ensures
            text@ == self.text(bytes),
    ;
}

impl ByteFormatter for IEC {
    open spec fn text(&self, bytes: u64) -> Seq<char> {
        humanized(bytes, false, seq![' '], seq!['i', 'B'])
    }

    fn humanize(&self, bytes: u64) -> (text: String) {
        proof {
            reveal_strlit(" ");
            reveal_strlit("iB");
            assert(" "@ =~= seq![' ']);
            assert("iB"@ =~= seq!['i', 'B']);
        }
        self::humanize(bytes, false, " ", "iB")
    }
}

impl ByteFormatter for SI {
    open spec fn text(&self, bytes: u64) -> Seq<char> {
        humanized(bytes, true, seq![' '], seq!['B'])
    }

    fn humanize(&self, bytes: u64) -> (text: String) {
        proof {
            reveal_strlit(" ");
            reveal_strlit("B");
            assert(" "@ =~= seq![' ']);
            assert("B"@ =~= seq!['B']);
        }
        self::humanize(bytes, true, " ", "B")
    }
}

impl ByteFormatter for Sort {
    open spec fn text(&self, bytes: u64) -> Seq<char> {
        humanized(bytes, false, Seq::empty(), Seq::empty())
    }

    fn humanize(&self, bytes: u64) -> (text: String) {
        proof {
            reveal_strlit("");
            assert(""@ =~= Seq::<char>::empty());
        }
        self::humanize(bytes, false, "", "")
    }
}

/// A size in bytes.
#[derive(Copy, Clone, Debug, PartialEq, Eq, Structural, Ord, Hash)]
pub struct ByteSize(pub u64);

impl ByteSize {
    /// The size of `size` bytes.
    pub fn b(size: u64) -> (bs: ByteSize)
        ensures
            bs.0 == size,
    {
        ByteSize(size)
    }

    /// The size of `size` kilobytes.
    pub fn kb(size: u64) -> (bs: ByteSize)
        requires
            size * KB <= u64::MAX,
        ensures
            bs.0 == size * KB,
    {
        ByteSize(size * KB)
    }

    /// The size of `size` kibibytes.
    pub fn kib(size: u64) -> (bs: ByteSize)
        requires
            size * KIB <= u64::MAX,
        ensures
            bs.0 == size * KIB,
    {
        ByteSize(size * KIB)
    }

    /// The size of `size` megabytes.
    pub fn mb(size: u64) -> (bs: ByteSize)
        requires
            size * MB <= u64::MAX,
        ensures
            bs.0 == size * MB,
    {
        ByteSize(size * MB)
    }

    /// The size of `size` mebibytes.
    pub fn mib(size: u64) -> (bs: ByteSize)
        requires
            size * MIB <= u64::MAX,
        ensures
            bs.0 == size * MIB,
    {
        ByteSize(size * MIB)
    }

    /// The size of `size` gigabytes.
    pub fn gb(size: u64) -> (bs: ByteSize)
        requires
            size * GB <= u64::MAX,
        ensures
            bs.0 == size * GB,
    {
        ByteSize(size * GB)
    }

    /// The size of `size` gibibytes.
    pub fn gib(size: u64) -> (bs: ByteSize)
        requires
            size * GIB <= u64::MAX,
        ensures
            bs.0 == size * GIB,
    {
        ByteSize(size * GIB)
    }

    /// The size of `size` terabytes.
    pub fn tb(size: u64) -> (bs: ByteSize)
        requires
            size * TB <= u64::MAX,
        ensures
            bs.0 == size * TB,
    {
        ByteSize(size * TB)
    }

    /// The size of `size` tebibytes.
    pub fn tib(size: u64) -> (bs: ByteSize)
        requires
            size * TIB <= u64::MAX,
        ensures
            bs.0 == size * TIB,
    {
        ByteSize(size * TIB)
    }

    /// The size of `size` petabytes.
    pub fn pb(size: u64) -> (bs: ByteSize)
        requires
            size * PB <= u64::MAX,
        ensures
            bs.0 == size * PB,
    {
        ByteSize(size * PB)
    }

    /// The size of `size` pebibytes.
    pub fn pib(size: u64) -> (bs: ByteSize)
        requires
            size * PIB <= u64::MAX,
        ensures
            bs.0 == size * PIB,
    {
        ByteSize(size * PIB)
    }

    /// The number of bytes.
    pub fn as_u64(&self) -> (bytes: u64)
        ensures
            bytes == self.0,
    {
        self.0
    }

    /// The text of the size in decimal units where `si_unit` is set, in
    /// binary units where it is not.
    pub fn to_string_as(&self, si_unit: bool) -> (text: String)
        ensures
            si_unit ==> text@ == SI.text(self.0),
            !si_unit ==> text@ == IEC.text(self.0),
    {
        if si_unit {
            self.humanize(SI)
        } else {
            self.humanize(IEC)
        }
    }

    /// The text of the size as `fmt` renders it.
    pub fn humanize<F: ByteFormatter>(&self, fmt: F) -> (text: String)
        ensures
            text@ == fmt.text(self.0),
    {
        fmt.humanize(self.0)
    }

    /// The text of the size in decimal units, as it is displayed.
    pub fn to_string(&self) -> (text: String)
        ensures
            text@ == SI.text(self.0),
    {
        self.humanize(SI)
    }
}

impl Default for ByteSize {
    fn default() -> (bs: ByteSize)
        ensures
            bs.0 == 0,
    {
        ByteSize(0)
    }
}

/// The text of `bytes` in decimal units where `si_prefix` is set, in binary
/// units where it is not.
pub fn to_string(bytes: u64, si_prefix: bool) -> (text: String)
    ensures
        si_prefix ==> text@ == SI.text(bytes),
        !si_prefix ==> text@ == IEC.text(bytes),
{
    if si_prefix {
        SI.humanize(bytes)
    } else {
        IEC.humanize(bytes)
    }
}

impl ByteSize {
    /// Parses a size expression such as `1.5 KiB`, `500` or `8P`.
    pub fn parse(value: &str) -> (r: Result<ByteSize, Rejection>)
        ensures
            match r {
                Ok(bs) => parse_result(value@) == Ok::<u64, Failure>(bs.0),
                Err(e) => parse_result(value@) == Err::<u64, Failure>(e.failure) && e.offending@
                    == offending_part(value@, e.failure),
            },
    {
        match parse_bytes(value) {
            Ok(count) => Ok(ByteSize(count)),
            Err(e) => Err(e),
        }
    }
}

impl core::str::FromStr for ByteSize {
    type Err = String;

    fn from_str(value: &str) -> (r: Result<ByteSize, String>)
        ensures
            match r {
                Ok(bs) => parse_result(value@) == Ok::<u64, Failure>(bs.0),
                Err(text) => parse_result(value@) is Err && text@ == rejection_text(
                    parse_result(value@)->Err_0,
                    offending_part(value@, parse_result(value@)->Err_0),
                ),
            },
    {
        match ByteSize::parse(value) {
            Ok(bs) => Ok(bs),
            Err(e) => Err(e.message()),
        }
    }
}

} // verus!
