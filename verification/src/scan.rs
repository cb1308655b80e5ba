//! Scanning text: classes of characters and the runs of them that open or
//! close a text.

use crate::decimal::is_digit;
use vstd::prelude::*;

verus! {

/// Whether `c` is white space: a character with the Unicode property
/// `White_Space`.
pub open spec fn is_space(c: char) -> bool {
    let p = c as u32;
    (0x09 <= p && p <= 0x0D) || p == 0x20 || p == 0x85 || p == 0xA0 || p == 0x1680 || (0x2000
        <= p && p <= 0x200A) || p == 0x2028 || p == 0x2029 || p == 0x202F || p == 0x205F || p
        == 0x3000
}

/// Whether `c` may stand between the start of a text and its unit suffix:
/// white space, an ASCII digit or the decimal point.
pub open spec fn is_skipped(c: char) -> bool {
    is_space(c) || is_digit(c) || c == '.'
}

/// Where the run of characters that satisfy `p` and that starts at `i` ends:
/// the place of the first character, from `i` on, that does not satisfy `p`,
/// or the end of the text.
pub open spec fn run_from(s: Seq<char>, p: spec_fn(char) -> bool, i: int) -> int
    decreases s.len() - i,
{
    if 0 <= i < s.len() && p(s[i]) {
        run_from(s, p, i + 1)
    } else {
        i
    }
}

/// Where the run of characters that satisfy `p` and that ends before `i`
/// starts: just behind the last character, before `i`, that does not satisfy
/// `p`, or the start of the text.
pub open spec fn run_back(s: Seq<char>, p: spec_fn(char) -> bool, i: int) -> int
    decreases i,
{
    if 0 < i <= s.len() && p(s[i - 1]) {
        run_back(s, p, i - 1)
    } else {
        i
    }
}

/// A run that starts at `i` ends at `k` exactly when the characters from `i`
/// up to `k` satisfy `p` and the one at `k`, if there is one, does not.
pub proof fn lemma_run_from_is(s: Seq<char>, p: spec_fn(char) -> bool, i: int, k: int)
    requires
        0 <= i <= k <= s.len(),
        forall|j: int| i <= j < k ==> p(#[trigger] s[j]),
        k < s.len() ==> !p(s[k]),
    ensures
        run_from(s, p, i) == k,
    decreases k - i,
{
    if i < k {
        assert(p(s[i]));
        lemma_run_from_is(s, p, i + 1, k);
    }
}

/// A run that ends before `i` starts at `k` exactly when the characters
/// from `k` up to `i` satisfy `p` and the one before `k`, if there is one,
/// does not.
pub proof fn lemma_run_back_is(s: Seq<char>, p: spec_fn(char) -> bool, i: int, k: int)
    requires
        0 <= k <= i <= s.len(),
        forall|j: int| k <= j < i ==> p(#[trigger] s[j]),
        0 < k ==> !p(s[k - 1]),
    ensures
        run_back(s, p, i) == k,
    decreases i - k,
{
    if k < i {
        assert(p(s[i - 1]));
        lemma_run_back_is(s, p, i - 1, k);
    }
}

/// A run lies inside the text, is made of characters that satisfy `p`, and
/// ends at a character that does not.
pub proof fn lemma_run_from(s: Seq<char>, p: spec_fn(char) -> bool, i: int)
    requires
        0 <= i <= s.len(),
    ensures
        i <= run_from(s, p, i) <= s.len(),
        forall|j: int| i <= j < run_from(s, p, i) ==> p(#[trigger] s[j]),
        run_from(s, p, i) < s.len() ==> !p(s[run_from(s, p, i)]),
    decreases s.len() - i,
{
    if i < s.len() && p(s[i]) {
        lemma_run_from(s, p, i + 1);
    }
}

/// A run back from `i` starts inside the text, and not before a character,
/// before `i`, that does not satisfy `p`.
pub proof fn lemma_run_back(s: Seq<char>, p: spec_fn(char) -> bool, i: int)
    requires
        0 <= i <= s.len(),
    ensures
        0 <= run_back(s, p, i) <= i,
        forall|j: int| 0 <= j < i && !p(#[trigger] s[j]) ==> j < run_back(s, p, i),
    decreases i,
{
    if 0 < i && p(s[i - 1]) {
        lemma_run_back(s, p, i - 1);
    }
}

/// Tells whether `c` is white space.
pub fn is_whitespace(c: char) -> (b: bool)
    ensures
        b == is_space(c),
{
    let p: u32 = c as u32;
    (0x09 <= p && p <= 0x0D) || p == 0x20 || p == 0x85 || p == 0xA0 || p == 0x1680 || (0x2000
        <= p && p <= 0x200A) || p == 0x2028 || p == 0x2029 || p == 0x202F || p == 0x205F || p
        == 0x3000
}

/// Tells whether `c` is an ASCII digit.
pub fn is_ascii_digit(c: char) -> (b: bool)
    ensures
        b == is_digit(c),
{
    '0' <= c && c <= '9'
}

/// The characters of `s`, in order.
pub fn to_chars(s: &str) -> (v: Vec<char>)
    ensures
        v@ == s@,
{
    let mut v: Vec<char> = Vec::new();
    for c in it: s.chars()
        invariant
            v@ == it.seq().take(it.index() as int),
            it.seq() == s@,
    {
        v.push(c);
    }
    v
}

/// A class of characters that a scan runs over.
#[derive(Clone, Copy, Debug, PartialEq, Eq, Structural)]
pub enum Class {
    /// The ASCII digits.
    Digit,
    /// White space.
    Space,
    /// White space, the ASCII digits and the decimal point.
    Skipped,
}

impl Class {
    /// Whether `c` belongs to the class.
    pub open spec fn holds(self, c: char) -> bool {
        match self {
            Class::Digit => is_digit(c),
            Class::Space => is_space(c),
            Class::Skipped => is_skipped(c),
        }
    }

    /// The class as a predicate on characters.
    pub open spec fn members(self) -> spec_fn(char) -> bool {
        |c: char| self.holds(c)
    }

    /// Tells whether `c` belongs to the class.
    pub fn contains(self, c: char) -> (b: bool)
        ensures
            b == self.holds(c),
    {
        match self {
            Class::Digit => is_ascii_digit(c),
            Class::Space => is_whitespace(c),
            Class::Skipped => is_whitespace(c) || is_ascii_digit(c) || c == '.',
        }
    }
}

/// Finds where the run of characters of `class` that starts at `from` ends.
pub fn run_end(chars: &Vec<char>, from: usize, class: Class) -> (end: usize)
    requires
        from <= chars.len(),
    ensures
        from <= end <= chars.len(),
        end == run_from(chars@, class.members(), from as int),
{
    let mut i: usize = from;
    while i < chars.len() && class.contains(chars[i])
        invariant
            from <= i <= chars.len(),
            forall|j: int| from <= j < i ==> class.holds(#[trigger] chars@[j]),
        decreases chars.len() - i,
    {
        i = i + 1;
    }
    proof {
        let p = class.members();
        assert forall|j: int| from <= j < i implies p(#[trigger] chars@[j]) by {
            assert(class.holds(chars@[j]));
        }
        lemma_run_from_is(chars@, p, from as int, i as int);
    }
    i
}

/// Finds where the run of characters of `class` that ends before `to`
/// starts.
pub fn run_start(chars: &Vec<char>, to: usize, class: Class) -> (start: usize)
    requires
        to <= chars.len(),
    ensures
        start <= to,
        start == run_back(chars@, class.members(), to as int),
{
    let mut i: usize = to;
    while i > 0 && class.contains(chars[i - 1])
        invariant
            i <= to <= chars.len(),
            forall|j: int| i <= j < to ==> class.holds(#[trigger] chars@[j]),
        decreases i,
    {
        i = i - 1;
    }
    proof {
        let p = class.members();
        assert forall|j: int| i <= j < to implies p(#[trigger] chars@[j]) by {
            assert(class.holds(chars@[j]));
        }
        lemma_run_back_is(chars@, p, to as int, i as int);
    }
    i
}

} // verus!
