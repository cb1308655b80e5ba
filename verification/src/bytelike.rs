//! The common ground of byte-like types: the unit table, the rendering that
//! their display uses, and helpers for parsing them.

use crate::conversion::converts_to;
use crate::parse::{rejection_text, Rejection};
use crate::render::{humanized, render};
use vstd::prelude::*;
use vstd::string::StrSliceExecFns;

pub use crate::bytelike_size::ByteSize;
pub use crate::unit::{Unit, B, GB, GIB, KB, KIB, MB, MIB, PB, PIB, TB, TIB};

verus! {

/// The text of `bytes` in binary units where `si_prefix` is set, as in
/// `1.0 KiB`, and in decimal units where it is not, as in `1.0 KB`.
pub open spec fn display_text(bytes: u64, si_prefix: bool) -> Seq<char> {
    if si_prefix {
        humanized(bytes, false, seq![' '], seq!['i', 'B'])
    } else {
        humanized(bytes, true, seq![' '], seq!['B'])
    }
}

/// Renders `bytes` in binary units where `si_prefix` is set and in decimal
/// units where it is not.
pub fn to_string(bytes: u64, si_prefix: bool) -> (text: String)
    ensures
        text@ == display_text(bytes, si_prefix),
{
    proof {
        reveal_strlit(" ");
        reveal_strlit("iB");
        reveal_strlit("B");
        assert(" "@ =~= seq![' ']);
        assert("iB"@ =~= seq!['i', 'B']);
        assert("B"@ =~= seq!['B']);
    }
    if si_prefix {
        render(bytes, false, " ", "iB")
    } else {
        render(bytes, true, " ", "B")
    }
}

/// The report of a text that could not be parsed.
#[derive(Debug)]
pub struct ParseError(pub String);

impl ParseError {
    /// The report of a rejection: its message.
    pub fn of(rejection: &Rejection) -> (error: ParseError)
        ensures
            error.0@ == rejection_text(rejection.failure, rejection.offending@),
    {
        ParseError(rejection.message())
    }

    /// The text of the report.
    pub fn to_string(&self) -> (text: String)
        ensures
            text@ == self.0@,
    {
        self.0.clone()
    }
}

/// The start of `s` up to the first character that `predicate` refuses.
pub fn take_while<P>(s: &str, predicate: P) -> (head: &str) where P: Fn(char) -> bool
    requires
        forall|c: char| call_requires(predicate, (c,)),
    ensures
        head@.len() <= s@.len(),
        head@ == s@.take(head@.len() as int),
        forall|i: int| 0 <= i < head@.len() ==> call_ensures(predicate, (#[trigger] s@[i],), true),
        head@.len() < s@.len() ==> call_ensures(predicate, (s@[head@.len() as int],), false),
{
    let n = s.unicode_len();
    let mut i: usize = 0;
    let mut open = true;
    while open && i < n
        invariant
            n == s@.len(),
            i <= n,
            forall|c: char| call_requires(predicate, (c,)),
            forall|j: int| 0 <= j < i ==> call_ensures(predicate, (#[trigger] s@[j],), true),
            !open ==> i < n && call_ensures(predicate, (s@[i as int],), false),
        decreases n - i + if open { 1int } else { 0int },
    {
        if predicate(s.get_char(i)) {
            i = i + 1;
        } else {
            open = false;
        }
    }
    s.substring_char(0, i)
}

/// What is left of `s` from the first character that `predicate` refuses.
pub fn skip_while<P>(s: &str, predicate: P) -> (tail: &str) where P: Fn(char) -> bool
    requires
        forall|c: char| call_requires(predicate, (c,)),
    ensures
        tail@.len() <= s@.len(),
        tail@ == s@.skip(s@.len() - tail@.len()),
        forall|i: int|
            0 <= i < s@.len() - tail@.len() ==> call_ensures(predicate, (#[trigger] s@[i],), true),
        tail@.len() > 0 ==> call_ensures(predicate, (tail@[0],), false),
{
    let n = s.unicode_len();
    let mut i: usize = 0;
    let mut open = true;
    while open && i < n
        invariant
            n == s@.len(),
            i <= n,
            forall|c: char| call_requires(predicate, (c,)),
            forall|j: int| 0 <= j < i ==> call_ensures(predicate, (#[trigger] s@[j],), true),
            !open ==> i < n && call_ensures(predicate, (s@[i as int],), false),
        decreases n - i + if open { 1int } else { 0int },
    {
        if predicate(s.get_char(i)) {
            i = i + 1;
        } else {
            open = false;
        }
    }
    s.substring_char(i, n)
}

/// `Bound` of the standard library, an end of a range. It is declared with
/// its variants, so that an end can be built and compared.
#[verifier::external_type_specification]
#[verifier::reject_recursive_types(T)]
pub struct ExBound<T>(core::ops::Bound<T>);

/// A range of byte-like values that has both of its ends.
pub struct ByteLikeRange<T: From<u64>> {
    start: T,
    stop: T,
}

impl<T: From<u64>> ByteLikeRange<T> {
    /// The first value of the range.
    pub closed spec fn first(&self) -> T {
        self.start
    }

    /// The last value of the range.
    pub closed spec fn last(&self) -> T {
        self.stop
    }

    /// The range from `start` to `stop`, both included, each converted into
    /// the type of the range. A missing start stands for 0 and a missing stop
    /// for the largest 64-bit value.
    pub fn new<I: Into<T>>(start: Option<I>, stop: Option<I>) -> (range: Self)
        ensures
            match start {
                Some(value) => converts_to(value, range.first()),
                None => call_ensures(<T as From<u64>>::from, (0u64,), range.first()),
            },
            match stop {
                Some(value) => converts_to(value, range.last()),
                None => call_ensures(<T as From<u64>>::from, (u64::MAX,), range.last()),
            },
    {
        let start: T = match start {
            Some(value) => value.into(),
            None => T::from(0u64),
        };
        let stop: T = match stop {
            Some(value) => value.into(),
            None => T::from(u64::MAX),
        };
        ByteLikeRange { start, stop }
    }
}

impl<T: From<u64>> core::ops::RangeBounds<T> for ByteLikeRange<T> {
    fn start_bound(&self) -> (bound: core::ops::Bound<&T>)
        ensures
            bound == core::ops::Bound::Included(&self.first()),
    {
        core::ops::Bound::Included(&self.start)
    }

    fn end_bound(&self) -> (bound: core::ops::Bound<&T>)
        ensures
            bound == core::ops::Bound::Included(&self.last()),
    {
        core::ops::Bound::Included(&self.stop)
    }
}

} // verus!
