//! Text as the standard formatter writes it: strings in their debug form,
//! and texts set in a field of a given width.

use vstd::prelude::*;
use vstd::string::{StrSliceExecFns, StringExecFns};

verus! {

/// The text that the standard formatter writes for a string under `{:?}`: the
/// string between double quotes, with the characters that need it escaped.
pub uninterp spec fn debug_quoted(s: Seq<char>) -> Seq<char>;

/// Formats `s` with `format!` under `{:?}`, the debug form of `str` in the
/// standard library. The contract only names the text that comes back, as a
/// function of the characters of `s`; what the escapes are is not stated.
#[verifier::external_body]
pub(crate) fn quote(s: &str) -> (quoted: String)
    ensures
        quoted@ == debug_quoted(s@),
{
    format!("{:?}", s)
}

/// Appends one character to a string with `String::push` of the standard
/// library: the string is then what it was, with the character at its end.
#[verifier::external_body]
pub(crate) fn push_char(text: &mut String, c: char)
    ensures
        final(text)@ == old(text)@.push(c),
{
    text.push(c);
}

/// Where a text stands in a field that is wider than the text.
#[derive(Clone, Copy, Debug, PartialEq, Eq, Structural)]
pub enum Alignment {
    /// At the start of the field, the filling after it.
    Left,
    /// At the end of the field, the filling before it.
    Right,
    /// In the middle of the field; where the filling does not split evenly,
    /// the larger part comes after the text.
    Center,
}

/// How many filling characters stand before a text that is `room`
/// characters short of its field.
pub open spec fn filling_before(room: int, alignment: Alignment) -> int {
    match alignment {
        Alignment::Left => 0,
        Alignment::Right => room,
        Alignment::Center => room / 2,
    }
}

/// A text in a field of `width` characters: a text that is shorter than the
/// field is filled up with `fill`, before it or after it as the alignment
/// says; a text that fills the field, or is longer, stays as it is.
pub open spec fn padded_text(text: Seq<char>, width: nat, alignment: Alignment, fill: char) -> Seq<
    char,
> {
    if text.len() >= width {
        text
    } else {
        let room = width - text.len();
        let before = filling_before(room, alignment);
        Seq::new(before as nat, |i: int| fill) + text + Seq::new(
            (room - before) as nat,
            |i: int| fill,
        )
    }
}

/// Writes `count` times the character `fill` at the end of `out`.
fn push_filling(out: &mut String, count: usize, fill: char)
    ensures
        final(out)@ == old(out)@ + Seq::new(count as nat, |i: int| fill),
{
    let ghost before = out@;
    let mut i: usize = 0;
    assert(out@ =~= before + Seq::new(0, |i: int| fill));
    while i < count
        invariant
            i <= count,
            out@ == before + Seq::new(i as nat, |i: int| fill),
        decreases count - i,
    {
        push_char(out, fill);
        i = i + 1;
        assert(out@ =~= before + Seq::new(i as nat, |i: int| fill));
    }
}

/// Sets a text in a field of `width` characters.
pub fn pad(text: &str, width: usize, alignment: Alignment, fill: char) -> (out: String)
    ensures
        out@ == padded_text(text@, width as nat, alignment, fill),
{
    let len = text.unicode_len();
    let mut out = String::new();
    if len >= width {
        out.append(text);
        assert(out@ =~= text@);
    } else {
        let room = width - len;
        let before = match alignment {
            Alignment::Left => 0,
            Alignment::Right => room,
            Alignment::Center => room / 2,
        };
        push_filling(&mut out, before, fill);
        out.append(text);
        push_filling(&mut out, room - before, fill);
        assert(out@ =~= padded_text(text@, width as nat, alignment, fill));
    }
    out
}

} // verus!
