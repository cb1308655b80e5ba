//! Sizes in structured formats: a size is written as its text where people
//! read the format and as its count of bytes where they do not, and it is
//! read back from a whole number or from a text.

use crate::bytelike::display_text;
use crate::bytelike_size::ByteSize;
use crate::parse::{parse_bytes, parse_result};
use vstd::prelude::*;
use vstd::string::StringExecFns;

verus! {

/// What a size is written as.
#[derive(Debug)]
pub enum Written {
    /// The text of the size, as it is displayed.
    Text(String),
    /// The count of bytes.
    Count(u64),
}

/// A value that is no size.
#[derive(Debug)]
pub enum Mismatch {
    /// A whole number below zero.
    IntegerOverflow(i64),
    /// A text that does not parse.
    UnparsableString(String),
}

impl ByteSize {
    /// What the size is written as: its text in a format that people read,
    /// its count of bytes in any other.
    pub fn written(&self, human_readable: bool) -> (w: Written)
        ensures
            human_readable ==> w is Text && w->Text_0@ == display_text(self.0, true),
            !human_readable ==> w == Written::Count(self.0),
    {
        if human_readable {
            Written::Text(self.to_string())
        } else {
            Written::Count(self.0)
        }
    }

    /// The size of a count that was read as a signed number.
    pub fn from_signed(value: i64) -> (r: Result<ByteSize, Mismatch>)
        ensures
            value >= 0 ==> r == Ok::<ByteSize, Mismatch>(ByteSize(value as u64)),
            value < 0 ==> r == Err::<ByteSize, Mismatch>(Mismatch::IntegerOverflow(value)),
    {
        if value >= 0 {
            Ok(ByteSize(value as u64))
        } else {
            Err(Mismatch::IntegerOverflow(value))
        }
    }

    /// The size of a count that was read as an unsigned number.
    pub fn from_unsigned(value: u64) -> (bs: ByteSize)
        ensures
            bs.0 == value,
    {
        ByteSize(value)
    }

    /// The size that a text that was read stands for.
    pub fn from_text(value: &str) -> (r: Result<ByteSize, Mismatch>)
        ensures
            match r {
                Ok(bs) => parse_result(value@) == Ok::<u64, crate::parse::Failure>(bs.0),
                Err(e) => parse_result(value@) is Err && e is UnparsableString
                    && e->UnparsableString_0@ == value@,
            },
    {
        match parse_bytes(value) {
            Ok(count) => Ok(ByteSize(count)),
            Err(_) => Err(Mismatch::UnparsableString(String::from_str(value))),
        }
    }
}

} // verus!
