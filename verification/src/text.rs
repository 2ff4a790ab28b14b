//! UTF-16 text lines.
//!
//! A line of text is a `widestring::Utf16String`. Verus cannot look inside one,
//! so this module names what a line holds, its sequence of 16-bit code units,
//! and states over that name what each operation of the string type does. The
//! functions marked `external_body` are believed, not proved: each one holds a
//! single call into `widestring`, and its doc comment says what is claimed of it.

use vstd::prelude::*;
use widestring::Utf16String;

verus! {

/// `widestring::Utf16String`, declared so that it can stand in signatures and
/// fields. Nothing is known of a value but what the functions below state.
#[verifier::external_type_specification]
#[verifier::external_body]
pub struct ExUtf16String(Utf16String);

/// The code units that a line holds, in order.
pub uninterp spec fn units(s: Utf16String) -> Seq<u16>;

/// The code units of every line of a text.
pub open spec fn text_of(lines: Seq<Utf16String>) -> Seq<Seq<u16>> {
    Seq::new(lines.len(), |i: int| units(lines[i]))
}

/// Whether `u` is the first unit of a surrogate pair.
pub open spec fn is_high_surrogate(u: u16) -> bool {
    0xD800 <= u <= 0xDBFF
}

/// Whether `u` is the second unit of a surrogate pair.
pub open spec fn is_low_surrogate(u: u16) -> bool {
    0xDC00 <= u <= 0xDFFF
}

/// Whether a character starts, or the text ends, at offset `i`.
pub open spec fn is_boundary(u: Seq<u16>, i: int) -> bool {
    0 <= i <= u.len() && (i == u.len() || !is_low_surrogate(u[i]))
}

/// How many units the character that starts with unit `u` takes.
pub open spec fn unit_width(u: u16) -> int {
    if is_high_surrogate(u) {
        2
    } else {
        1
    }
}

/// The UTF-16 encoding of one character: itself below U+10000, a surrogate
/// pair above.
pub open spec fn encode_char(c: char) -> Seq<u16> {
    let v = c as u32;
    if v < 0x10000 {
        seq![v as u16]
    } else {
        seq![(0xD800 + (v - 0x10000) / 0x400) as u16, (0xDC00 + (v - 0x10000) % 0x400) as u16]
    }
}

/// The UTF-16 encoding of a sequence of characters.
pub open spec fn encode_utf16(cs: Seq<char>) -> Seq<u16>
    decreases cs.len(),
{
    if cs.len() == 0 {
        Seq::empty()
    } else {
        encode_utf16(cs.drop_last()) + encode_char(cs.last())
    }
}

/// `u` with the units from `start` up to `end` replaced by `with`.
pub open spec fn spliced(u: Seq<u16>, start: int, end: int, with: Seq<u16>) -> Seq<u16> {
    u.subrange(0, start) + with + u.subrange(end, u.len() as int)
}

/// `Utf16String::new`: a line without units.
#[verifier::external_body]
pub(crate) fn line_new() -> (s: Utf16String)
    ensures
        units(s) == Seq::<u16>::empty(),
{
    Utf16String::new()
}

/// `Utf16String::from_str`: the line that encodes the characters of `s`.
#[verifier::external_body]
pub(crate) fn line_from_str(s: &str) -> (line: Utf16String)
    ensures
        units(line) == encode_utf16(s@),
{
    Utf16String::from_str(s)
}

/// `Utf16String::len`: the number of code units, not of characters.
#[verifier::external_body]
pub(crate) fn line_len(s: &Utf16String) -> (n: usize)
    ensures
        n == units(*s).len(),
{
    s.len()
}

/// `Utf16String::as_slice`, copied out: the code units themselves.
#[verifier::external_body]
pub(crate) fn line_units(s: &Utf16String) -> (v: Vec<u16>)
    ensures
        v@ == units(*s),
{
    s.as_slice().to_vec()
}

/// `Utf16Str::is_char_boundary`: true at the end of the line and at every
/// unit that is not the second half of a surrogate pair, false past the end.
#[verifier::external_body]
pub(crate) fn line_is_boundary(s: &Utf16String, index: usize) -> (b: bool)
    ensures
        b == is_boundary(units(*s), index as int),
{
    s.is_char_boundary(index)
}

/// `Utf16String::push`: appends the encoding of `ch`.
#[verifier::external_body]
pub(crate) fn line_push(s: &mut Utf16String, ch: char)
    ensures
        units(*final(s)) == units(*old(s)) + encode_char(ch),
{
    s.push(ch)
}

/// `Utf16String::insert`: puts the encoding of `ch` at offset `idx`. The
/// method panics off a character boundary, which `requires` leaves out.
#[verifier::external_body]
pub(crate) fn line_insert(s: &mut Utf16String, idx: usize, ch: char)
    requires
        is_boundary(units(*old(s)), idx as int),
    ensures
        units(*final(s)) == spliced(units(*old(s)), idx as int, idx as int, encode_char(ch)),
{
    s.insert(idx, ch)
}

/// `Utf16String::insert_utfstr`: puts the units of `piece` at offset `idx`. The
/// method panics off a character boundary, which `requires` leaves out.
#[verifier::external_body]
pub(crate) fn line_insert_line(s: &mut Utf16String, idx: usize, piece: &Utf16String)
    requires
        is_boundary(units(*old(s)), idx as int),
    ensures
        units(*final(s)) == spliced(units(*old(s)), idx as int, idx as int, units(*piece)),
{
    s.insert_utfstr(idx, piece.as_utfstr())
}

/// `Utf16String::push_utfstr`: appends the units of `tail`.
#[verifier::external_body]
pub(crate) fn line_append(s: &mut Utf16String, tail: &Utf16String)
    ensures
        units(*final(s)) == units(*old(s)) + units(*tail),
{
    s.push_utfstr(tail)
}

/// `Utf16Str::split_at`: the units before `mid` and those from `mid` on, each
/// as a line of its own. The method panics off a character boundary, which
/// `requires` leaves out.
#[verifier::external_body]
pub(crate) fn line_split(s: &Utf16String, mid: usize) -> (halves: (Utf16String, Utf16String))
    requires
        is_boundary(units(*s), mid as int),
    ensures
        units(halves.0) == units(*s).subrange(0, mid as int),
        units(halves.1) == units(*s).subrange(mid as int, units(*s).len() as int),
{
    let (first, last) = s.split_at(mid);
    (Utf16String::from(first), Utf16String::from(last))
}

/// `Utf16String::remove`: takes out the whole character that starts at `idx`,
/// one unit or a surrogate pair. A line is valid UTF-16, so a pair that starts
/// inside the line ends inside it. The method panics at the end of the line
/// and off a character boundary, which `requires` leaves out.
#[verifier::external_body]
pub(crate) fn line_remove(s: &mut Utf16String, idx: usize)
    requires
        idx < units(*old(s)).len(),
        is_boundary(units(*old(s)), idx as int),
    ensures
        idx + unit_width(units(*old(s))[idx as int]) <= units(*old(s)).len(),
        units(*final(s)) == spliced(
            units(*old(s)),
            idx as int,
            idx + unit_width(units(*old(s))[idx as int]),
            Seq::empty(),
        ),
{
    s.remove(idx);
}

/// `Utf16String::replace_range`, with the range `start..end`: the units of
/// `with` take the place of those from `start` up to `end`. The method panics
/// where an end of the range is off a character boundary or the range is
/// reversed, which `requires` leaves out.
#[verifier::external_body]
pub(crate) fn line_replace(s: &mut Utf16String, start: usize, end: usize, with: &Utf16String)
    requires
        start <= end,
        is_boundary(units(*old(s)), start as int),
        is_boundary(units(*old(s)), end as int),
    ensures
        units(*final(s)) == spliced(units(*old(s)), start as int, end as int, units(*with)),
{
    s.replace_range(start..end, with.as_utfstr())
}

/// `Utf16String::to_string`: the characters that the line encodes. Every line
/// is valid UTF-16, so such characters exist, and encoding them gives the
/// line's units back.
#[verifier::external_body]
pub(crate) fn line_to_string(s: &Utf16String) -> (text: String)
    ensures
        encode_utf16(text@) == units(*s),
{
    s.to_string()
}

} // verus!
