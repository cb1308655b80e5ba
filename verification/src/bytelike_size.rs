//! A byte-like size: a count of bytes that is displayed in binary units.

use crate::bytelike::{display_text, to_string, ByteLikeRange};
use crate::conversion::converts_to;
use crate::parse::{
    offending_part, parse_bytes, parse_result, rejection_text, Failure, Rejection,
};
use crate::text::{pad, padded_text, Alignment};
use crate::unit::{GB, GIB, KB, KIB, MB, MIB, PB, PIB, TB, TIB};
use vstd::prelude::*;
use vstd::std_specs::convert::FromSpecImpl;

verus! {

/// A size in bytes.
#[derive(Copy, Clone, Debug, PartialEq, Eq, Structural, Ord, Hash)]
pub struct ByteSize(pub u64);

impl ByteSize {
    /// The size of `size` bytes.
    pub fn b(size: u64) -> (bs: ByteSize)
        ensures
            bs.0 == size,
    {
        ByteSize(size)
    }

    /// The size of `size` kilobytes.
    pub fn kb(size: u64) -> (bs: ByteSize)
        requires
            size * KB <= u64::MAX,
        ensures
            bs.0 == size * KB,
    {
        ByteSize(size * KB)
    }

    /// The size of `size` kibibytes.
    pub fn kib(size: u64) -> (bs: ByteSize)
        requires
            size * KIB <= u64::MAX,
        ensures
            bs.0 == size * KIB,
    {
        ByteSize(size * KIB)
    }

    /// The size of `size` megabytes.
    pub fn mb(size: u64) -> (bs: ByteSize)
        requires
            size * MB <= u64::MAX,
        ensures
            bs.0 == size * MB,
    {
        ByteSize(size * MB)
    }

    /// The size of `size` mebibytes.
    pub fn mib(size: u64) -> (bs: ByteSize)
        requires
            size * MIB <= u64::MAX,
        ensures
            bs.0 == size * MIB,
    {
        ByteSize(size * MIB)
    }

    /// The size of `size` gigabytes.
    pub fn gb(size: u64) -> (bs: ByteSize)
        requires
            size * GB <= u64::MAX,
        ensures
            bs.0 == size * GB,
    {
        ByteSize(size * GB)
    }

    /// The size of `size` gibibytes.
    pub fn gib(size: u64) -> (bs: ByteSize)
        requires
            size * GIB <= u64::MAX,
        ensures
            bs.0 == size * GIB,
    {
        ByteSize(size * GIB)
    }

    /// The size of `size` terabytes.
    pub fn tb(size: u64) -> (bs: ByteSize)
        requires
            size * TB <= u64::MAX,
        ensures
            bs.0 == size * TB,
    {
        ByteSize(size * TB)
    }

    /// The size of `size` tebibytes.
    pub fn tib(size: u64) -> (bs: ByteSize)
        requires
            size * TIB <= u64::MAX,
        ensures
            bs.0 == size * TIB,
    {
        ByteSize(size * TIB)
    }

    /// The size of `size` petabytes.
    pub fn pb(size: u64) -> (bs: ByteSize)
        requires
            size * PB <= u64::MAX,
        ensures
            bs.0 == size * PB,
    {
        ByteSize(size * PB)
    }

    /// The size of `size` pebibytes.
    pub fn pib(size: u64) -> (bs: ByteSize)
        requires
            size * PIB <= u64::MAX,
        ensures
            bs.0 == size * PIB,
    {
        ByteSize(size * PIB)
    }

    /// The text of the size in binary units where `si_unit` is set, in
    /// decimal units where it is not.
    pub fn to_string_as(&self, si_unit: bool) -> (text: String)
        ensures
            text@ == display_text(self.0, si_unit),
    {
        to_string(self.0, si_unit)
    }

    /// The number of bytes.
    pub fn as_u64(&self) -> (bytes: u64)
        ensures
            bytes == self.0,
    {
        self.0
    }

    /// The text of the size in binary units, as it is displayed.
    pub fn to_string(&self) -> (text: String)
        ensures
            text@ == display_text(self.0, true),
    {
        to_string(self.0, true)
    }

    /// The text of the size as it is displayed in a field of `width`
    /// characters.
    pub fn to_padded_string(&self, width: usize, alignment: Alignment, fill: char) -> (text:
        String)
        ensures
            text@ == padded_text(display_text(self.0, true), width as nat, alignment, fill),
    {
        let plain = to_string(self.0, true);
        pad(plain.as_str(), width, alignment, fill)
    }

    /// Parses a size expression such as `1.5 KiB`, `500` or `8P`.
    pub fn parse(value: &str) -> (r: Result<ByteSize, Rejection>)
        ensures
            match r {
                Ok(bs) => parse_result(value@) == Ok::<u64, Failure>(bs.0),
                Err(e) => parse_result(value@) == Err::<u64, Failure>(e.failure) && e.offending@
                    == offending_part(value@, e.failure),
            },
    {
        match parse_bytes(value) {
            Ok(count) => Ok(ByteSize(count)),
            Err(e) => Err(e),
        }
    }

    /// The range from `start` to `stop`, both included.
    pub fn range<I: Into<ByteSize>>(start: I, stop: I) -> (range: ByteLikeRange<ByteSize>)
        ensures
            converts_to(start, range.first()),
            converts_to(stop, range.last()),
    {
        ByteLikeRange::new(Some(start), Some(stop))
    }

    /// The range from `start` to the largest size, both included.
    pub fn range_start<I: Into<ByteSize>>(start: I) -> (range: ByteLikeRange<ByteSize>)
        ensures
            converts_to(start, range.first()),
            range.last() == ByteSize(u64::MAX),
    {
        ByteLikeRange::new(Some(start), None)
    }

    /// The range from the empty size to `stop`, both included.
    pub fn range_stop<I: Into<ByteSize>>(stop: I) -> (range: ByteLikeRange<ByteSize>)
        ensures
            range.first() == ByteSize(0),
            converts_to(stop, range.last()),
    {
        ByteLikeRange::new(None, Some(stop))
    }
}

impl From<u64> for ByteSize {
    fn from(size: u64) -> (bs: ByteSize) {
        ByteSize(size)
    }
}

impl FromSpecImpl<u64> for ByteSize {
    open spec fn obeys_from_spec() -> bool {
        true
    }

    open spec fn from_spec(size: u64) -> ByteSize {
        ByteSize(size)
    }
}

impl Default for ByteSize {
    fn default() -> (bs: ByteSize)
        ensures
            bs.0 == 0,
    {
        ByteSize(0)
    }
}

impl core::str::FromStr for ByteSize {
    type Err = String;

    fn from_str(value: &str) -> (r: Result<ByteSize, String>)
        ensures
            match r {
                Ok(bs) => parse_result(value@) == Ok::<u64, Failure>(bs.0),
                Err(text) => parse_result(value@) is Err && text@ == rejection_text(
                    parse_result(value@)->Err_0,
                    offending_part(value@, parse_result(value@)->Err_0),
                ),
            },
    {
        match ByteSize::parse(value) {
            Ok(bs) => Ok(bs),
            Err(e) => Err(e.message()),
        }
    }
}

} // verus!
