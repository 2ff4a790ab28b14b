//! From the bytes of a file to the lines of a buffer and back.
//!
//! A file's text is cut at every line feed; what stands between two line feeds
//! is one line, so a text with `n` line feeds has `n + 1` lines and a trailing
//! line feed gives a last line that is empty. Flattening puts one line feed
//! between each two lines and none at the end. [`lemma_flatten_split`] shows
//! that flattening what was split gives the text back.

use crate::text::{
    encode_char, encode_utf16, is_low_surrogate, line_new, line_push, line_to_string, text_of,
    units,
};
use vstd::prelude::*;
use vstd::string::{StrSliceExecFns, StringExecFns};
use vstd::utf8::encode_utf8;
use widestring::Utf16String;

verus! {

/// The character that ends a line.
pub open spec fn line_feed() -> char {
    '\n'
}

/// The lines of a text: the pieces between its line feeds.
pub open spec fn split_chars(cs: Seq<char>) -> Seq<Seq<char>>
    decreases cs.len(),
{
    if cs.len() == 0 {
        seq![Seq::empty()]
    } else {
        let before = split_chars(cs.drop_last());
        if cs.last() == line_feed() {
            before.push(Seq::empty())
        } else {
            before.update(before.len() - 1, before.last().push(cs.last()))
        }
    }
}

/// The text of some lines: the lines with a line feed between each two.
pub open spec fn join_chars(lines: Seq<Seq<char>>) -> Seq<char>
    decreases lines.len(),
{
    if lines.len() == 0 {
        Seq::empty()
    } else if lines.len() == 1 {
        lines[0]
    } else {
        join_chars(lines.drop_last()).push(line_feed()) + lines.last()
    }
}

/// The characters that a line of valid UTF-16 encodes.
pub open spec fn decode_utf16(u: Seq<u16>) -> Seq<char> {
    choose|cs: Seq<char>| encode_utf16(cs) == u
}

/// The characters of each line of a text.
pub open spec fn decoded(text: Seq<Seq<u16>>) -> Seq<Seq<char>> {
    Seq::new(text.len(), |i: int| decode_utf16(text[i]))
}

/// The units of each of some lines of characters.
pub open spec fn encoded(lines: Seq<Seq<char>>) -> Seq<Seq<u16>> {
    Seq::new(lines.len(), |i: int| encode_utf16(lines[i]))
}

/// The bytes that a buffer with this text is saved as.
pub open spec fn flat_bytes(text: Seq<Seq<u16>>) -> Seq<u8> {
    encode_utf8(join_chars(decoded(text)))
}

/// A character takes one unit or two; its last unit is the second half of a
/// surrogate pair exactly where it takes two.
pub proof fn lemma_encode_char(c: char)
    ensures
        encode_char(c).len() == 1 || encode_char(c).len() == 2,
        is_low_surrogate(encode_char(c).last()) <==> encode_char(c).len() == 2,
{
    vstd::utf8::char_is_scalar(c);
}

/// Two characters with the same encoding are the same character.
pub proof fn lemma_encode_char_injective(a: char, b: char)
    requires
        encode_char(a) == encode_char(b),
    ensures
        a == b,
{
    vstd::utf8::char_is_scalar(a);
    vstd::utf8::char_is_scalar(b);
    let x = a as u32;
    let ea = encode_char(a);
    let eb = encode_char(b);
    if x < 0x10000 {
        assert(ea[0] == eb[0]);
    }
}

/// An encoding has at least as many units as there are characters.
pub proof fn lemma_encode_len(cs: Seq<char>)
    ensures
        cs.len() <= encode_utf16(cs).len(),
    decreases cs.len(),
{
    if cs.len() > 0 {
        lemma_encode_len(cs.drop_last());
        lemma_encode_char(cs.last());
    }
}

/// Two texts with the same encoding are the same text.
pub proof fn lemma_encode_injective(a: Seq<char>, b: Seq<char>)
    requires
        encode_utf16(a) == encode_utf16(b),
    ensures
        a == b,
    decreases a.len(),
{
    lemma_encode_len(a);
    lemma_encode_len(b);
    if a.len() != 0 {
        let ea = encode_char(a.last());
        let eb = encode_char(b.last());
        let pa = encode_utf16(a.drop_last());
        let pb = encode_utf16(b.drop_last());
        lemma_encode_char(a.last());
        lemma_encode_char(b.last());
        let whole = encode_utf16(a);
        assert(whole.last() == eb.last());
        assert(pa =~= whole.subrange(0, whole.len() - ea.len()));
        assert(pb =~= whole.subrange(0, whole.len() - eb.len()));
        assert(eb =~= whole.subrange(whole.len() - eb.len(), whole.len() as int));
        lemma_encode_char_injective(a.last(), b.last());
        lemma_encode_injective(a.drop_last(), b.drop_last());
        assert(b =~= b.drop_last().push(b.last()));
    }
}

/// Decoding what was encoded gives the characters back.
pub proof fn lemma_decode_encode(cs: Seq<char>)
    ensures
        decode_utf16(encode_utf16(cs)) == cs,
{
    let back = decode_utf16(encode_utf16(cs));
    lemma_encode_injective(back, cs);
}

/// A text has at least one line.
pub proof fn lemma_split_nonempty(cs: Seq<char>)
    ensures
        split_chars(cs).len() >= 1,
    decreases cs.len(),
{
    if cs.len() > 0 {
        lemma_split_nonempty(cs.drop_last());
    }
}

/// Joining the lines of a text gives the text back.
pub proof fn lemma_join_split(cs: Seq<char>)
    ensures
        join_chars(split_chars(cs)) == cs,
    decreases cs.len(),
{
    if cs.len() != 0 {
        let head = cs.drop_last();
        let before = split_chars(head);
        lemma_split_nonempty(head);
        lemma_join_split(head);
        if cs.last() == line_feed() {
            let now = before.push(Seq::<char>::empty());
            assert(now.drop_last() =~= before);
        } else {
            let grown = before.last().push(cs.last());
            let now = before.update(before.len() - 1, grown);
            if before.len() != 1 {
                assert(now.drop_last() =~= before.drop_last());
                assert(join_chars(now) =~= join_chars(before).push(cs.last()));
            }
        }
    }
}

/// Round trip: the bytes that a freshly loaded text is saved as are the bytes
/// it was loaded from, with no line feed added or dropped at the end.
pub proof fn lemma_flatten_split(cs: Seq<char>)
    ensures
        flat_bytes(encoded(split_chars(cs))) == encode_utf8(cs),
{
    let lines = split_chars(cs);
    assert forall|i: int| 0 <= i < lines.len() implies decode_utf16(encode_utf16(lines[i]))
        == lines[i] by {
        lemma_decode_encode(lines[i]);
    }
    assert(decoded(encoded(lines)) =~= lines);
    lemma_join_split(cs);
}

/// Cuts a text into its lines.
pub fn split_lines(text: &str) -> (lines: Vec<Utf16String>)
    ensures
        text_of(lines@) == encoded(split_chars(text@)),
        lines@.len() >= 1,
{
    broadcast use vstd::string::group_string_axioms;

    let mut lines: Vec<Utf16String> = Vec::new();
    let mut current = line_new();
    let ghost mut seen: Seq<char> = Seq::empty();
    for c in it: text.chars()
        invariant
            it.seq() == text@,
            seen == text@.take(it.index() as int),
            split_chars(seen).len() == lines@.len() + 1,
            forall|i: int|
                0 <= i < lines@.len() ==> units(#[trigger] lines@[i]) == encode_utf16(
                    split_chars(seen)[i],
                ),
            units(current) == encode_utf16(split_chars(seen).last()),
    {
        proof {
            let next = text@.take(it.index() + 1);
            assert(next.drop_last() =~= seen);
            seen = next;
        }
        if c == '\n' {
            lines.push(current);
            current = line_new();
        } else {
            line_push(&mut current, c);
            proof {
                let grown = split_chars(seen).last();
                assert(grown.drop_last() =~= split_chars(seen.drop_last()).last());
            }
        }
    }
    lines.push(current);
    proof {
        assert(seen =~= text@);
    }
    lines
}

/// The characters of each of some strings.
pub open spec fn chars_of(lines: Seq<String>) -> Seq<Seq<char>> {
    Seq::new(lines.len(), |i: int| lines[i]@)
}

/// Cuts a text into its lines, each a string of its own.
pub fn string_lines(text: &str) -> (lines: Vec<String>)
    ensures
        chars_of(lines@) == split_chars(text@),
        lines@.len() >= 1,
{
    broadcast use vstd::string::group_string_axioms;

    let mut lines: Vec<String> = Vec::new();
    let mut current = String::new();
    let ghost mut seen: Seq<char> = Seq::empty();
    for c in it: text.chars()
        invariant
            it.seq() == text@,
            seen == text@.take(it.index() as int),
            split_chars(seen).len() == lines@.len() + 1,
            forall|i: int|
                0 <= i < lines@.len() ==> (#[trigger] lines@[i])@ == split_chars(seen)[i],
            current@ == split_chars(seen).last(),
    {
        proof {
            let next = text@.take(it.index() + 1);
            assert(next.drop_last() =~= seen);
            seen = next;
        }
        if c == '\n' {
            lines.push(current);
            current = String::new();
        } else {
            current.push(c);
        }
    }
    lines.push(current);
    proof {
        assert(seen =~= text@);
        assert(chars_of(lines@) =~= split_chars(text@));
    }
    lines
}

/// The bytes that the lines are saved as: the lines in UTF-8 with a line feed
/// between each two and none after the last.
pub fn flatten(content: &Vec<Utf16String>) -> (bytes: Vec<u8>)
    ensures
        bytes@ == flat_bytes(text_of(content@)),
{
    let ghost text = text_of(content@);
    let mut joined = String::new();
    let mut i: usize = 0;
    while i < content.len()
        invariant
            i <= content@.len(),
            text == text_of(content@),
            joined@ == join_chars(decoded(text).take(i as int)),
        decreases content@.len() - i,
    {
        let line = line_to_string(&content[i]);
        proof {
            lemma_encode_injective(line@, decode_utf16(text[i as int]));
            let now = decoded(text).take(i + 1);
            assert(now.drop_last() =~= decoded(text).take(i as int));
        }
        if i > 0 {
            joined.push('\n');
        }
        joined.append(line.as_str());
        i += 1;
    }
    proof {
        assert(decoded(text).take(i as int) =~= decoded(text));
    }
    joined.as_str().as_bytes_vec()
}

} // verus!
