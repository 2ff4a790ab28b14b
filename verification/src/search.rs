//! Literal search in the text.
//!
//! A search finds, line by line, every occurrence of a pattern that does not
//! overlap an earlier one, scanning each line from the left. A match is a
//! (line, column) pair; the matches come out by line, then by column.

use crate::text::{line_units, spliced, text_of, units};
use vstd::prelude::*;
use widestring::Utf16String;

verus! {

/// Whether the pattern `p` stands in `u` at offset `at`.
pub open spec fn occurs_at(u: Seq<u16>, p: Seq<u16>, at: int) -> bool {
    0 <= at && at + p.len() <= u.len() && u.subrange(at, at + p.len()) == p
}

/// The offsets of the matches of `p` in `u` that a scan from `from` finds: at
/// a match the scan goes on behind it, elsewhere one unit further.
pub open spec fn matches_from(u: Seq<u16>, p: Seq<u16>, from: int) -> Seq<int>
    decreases u.len() - from,
{
    if p.len() == 0 || from < 0 || from + p.len() > u.len() {
        Seq::empty()
    } else if occurs_at(u, p, from) {
        seq![from] + matches_from(u, p, from + p.len())
    } else {
        matches_from(u, p, from + 1)
    }
}

/// The offsets of all matches of `p` in the line `u`.
pub open spec fn line_matches(u: Seq<u16>, p: Seq<u16>) -> Seq<int> {
    matches_from(u, p, 0)
}

/// The matches of one line as (line, column) pairs.
pub open spec fn placed(line: int, cols: Seq<int>) -> Seq<(int, int)> {
    Seq::new(cols.len(), |i: int| (line, cols[i]))
}

/// The matches of `p` in the first `upto` lines of a text.
pub open spec fn text_matches(text: Seq<Seq<u16>>, p: Seq<u16>, upto: int) -> Seq<(int, int)>
    decreases upto,
{
    if upto <= 0 {
        Seq::empty()
    } else {
        text_matches(text, p, upto - 1) + placed(upto - 1, line_matches(text[upto - 1], p))
    }
}

/// Matches as the viewport stores them, read as pairs of integers.
pub open spec fn places(found: Seq<(usize, usize)>) -> Seq<(int, int)> {
    Seq::new(found.len(), |i: int| (found[i].0 as int, found[i].1 as int))
}

/// The sum of the lengths of all lines of a text.
pub open spec fn total_units(text: Seq<Seq<u16>>) -> int
    decreases text.len(),
{
    if text.len() == 0 {
        0
    } else {
        total_units(text.drop_last()) + text.last().len()
    }
}

/// Every match that a scan finds is an occurrence of the pattern, and the
/// matches come in rising order without overlap.
pub proof fn lemma_matches_are_occurrences(u: Seq<u16>, p: Seq<u16>, from: int)
    requires
        0 <= from,
    ensures
        forall|i: int|
            0 <= i < matches_from(u, p, from).len() ==> from <= #[trigger] matches_from(
                u,
                p,
                from,
            )[i] && occurs_at(u, p, matches_from(u, p, from)[i]),
        forall|i: int, j: int|
            0 <= i < j < matches_from(u, p, from).len() ==> #[trigger] matches_from(u, p, from)[i]
                + p.len() <= #[trigger] matches_from(u, p, from)[j],
    decreases u.len() - from,
{
    if p.len() > 0 && from + p.len() <= u.len() {
        if occurs_at(u, p, from) {
            lemma_matches_are_occurrences(u, p, from + p.len());
            assert(matches_from(u, p, from) == seq![from] + matches_from(u, p, from + p.len()));
        } else {
            lemma_matches_are_occurrences(u, p, from + 1);
            assert(matches_from(u, p, from) == matches_from(u, p, from + 1));
        }
    }
}

/// Whether the pattern stands at offset `at` of the line.
pub fn occurs(u: &Vec<u16>, p: &Vec<u16>, at: usize) -> (found: bool)
    requires
        at + p@.len() <= u@.len(),
    ensures
        found == occurs_at(u@, p@, at as int),
{
    let len = u.len();
    let mut j: usize = 0;
    while j < p.len()
        invariant
            j <= p@.len(),
            at + p@.len() <= u@.len(),
            u@.len() == len,
            forall|k: int| 0 <= k < j ==> u@[at + k] == p@[k],
        decreases p@.len() - j,
    {
        if u[at + j] != p[j] {
            return false;
        }
        j += 1;
    }
    assert(u@.subrange(at as int, at + p@.len()) =~= p@);
    true
}

/// The offsets of all matches of a pattern in one line.
pub fn find_in_line(u: &Vec<u16>, p: &Vec<u16>) -> (found: Vec<usize>)
    requires
        p@.len() > 0,
    ensures
        found@.len() == line_matches(u@, p@).len(),
        forall|i: int| 0 <= i < found@.len() ==> found@[i] == line_matches(u@, p@)[i],
{
    let mut found: Vec<usize> = Vec::new();
    let mut pos: usize = 0;
    let ghost mut done: Seq<int> = Seq::empty();
    while p.len() <= u.len() && pos <= u.len() - p.len()
        invariant
            p@.len() > 0,
            done + matches_from(u@, p@, pos as int) == line_matches(u@, p@),
            found@.len() == done.len(),
            forall|i: int| 0 <= i < found@.len() ==> found@[i] == done[i],
        decreases u@.len() - pos,
    {
        if occurs(u, p, pos) {
            found.push(pos);
            proof {
                done = done.push(pos as int);
            }
            pos += p.len();
        } else {
            pos += 1;
        }
    }
    found
}

/// Every match of the pattern in the text, as (line, column), by line and
/// then by column.
pub fn find_matches(content: &Vec<Utf16String>, pattern: &Utf16String) -> (found: Vec<
    (usize, usize),
>)
    requires
        units(*pattern).len() > 0,
    ensures
        places(found@) == text_matches(text_of(content@), units(*pattern), content@.len() as int),
{
    let p = line_units(pattern);
    let ghost text = text_of(content@);
    let mut found: Vec<(usize, usize)> = Vec::new();
    let mut line: usize = 0;
    while line < content.len()
        invariant
            line <= content@.len(),
            text == text_of(content@),
            p@ == units(*pattern),
            p@.len() > 0,
            places(found@) == text_matches(text, p@, line as int),
        decreases content@.len() - line,
    {
        let u = line_units(&content[line]);
        let cols = find_in_line(&u, &p);
        let ghost before = found@;
        let mut k: usize = 0;
        while k < cols.len()
            invariant
                k <= cols@.len(),
                found@.len() == before.len() + k,
                forall|i: int| 0 <= i < before.len() ==> found@[i] == before[i],
                forall|i: int| 0 <= i < k ==> found@[before.len() + i] == (line, cols@[i]),
            decreases cols@.len() - k,
        {
            found.push((line, cols[k]));
            k += 1;
        }
        proof {
            let here = placed(line as int, line_matches(text[line as int], p@));
            assert forall|i: int| 0 <= i < here.len() implies places(found@)[before.len() + i]
                == here[i] by {
                assert(found@[before.len() + i] == (line, cols@[i]));
            }
        }
        line += 1;
    }
    found
}

/// The line `u` with the pattern's units at offset `idx` replaced by `with`.
pub open spec fn replaced_line(u: Seq<u16>, idx: int, p: Seq<u16>, with: Seq<u16>) -> Seq<u16> {
    spliced(u, idx, idx + p.len(), with)
}

/// Whether the scan of `u` that starts at `from` comes to stand on `idx`.
pub open spec fn reaches(u: Seq<u16>, p: Seq<u16>, from: int, idx: int) -> bool
    decreases idx - from,
{
    if from >= idx || p.len() == 0 {
        from == idx
    } else if occurs_at(u, p, from) {
        from + p.len() <= idx && reaches(u, p, from + p.len(), idx)
    } else {
        reaches(u, p, from + 1, idx)
    }
}

/// Whether the replacement has brought no occurrence of the pattern: in the
/// line `after`, in which `width` new units stand at offset `idx`, the
/// pattern stands nowhere on any of the new units or across their ends.
pub open spec fn no_new_match(after: Seq<u16>, p: Seq<u16>, idx: int, width: int) -> bool {
    forall|q: int| idx - p.len() < q < idx + width ==> !occurs_at(after, p, q)
}

/// A scan skips a stretch in which the pattern does not stand.
pub proof fn lemma_scan_skips(v: Seq<u16>, p: Seq<u16>, a: int, b: int)
    requires
        p.len() > 0,
        0 <= a <= b,
        forall|q: int| a <= q < b ==> !occurs_at(v, p, q),
    ensures
        matches_from(v, p, a) == matches_from(v, p, b),
    decreases b - a,
{
    if a < b {
        lemma_scan_skips(v, p, a + 1, b);
        if a + p.len() > v.len() {
            lemma_scan_past_end(v, p, a + 1);
            lemma_scan_past_end(v, p, b);
        }
    }
}

/// A scan that starts where the pattern has no room left finds nothing.
pub proof fn lemma_scan_past_end(v: Seq<u16>, p: Seq<u16>, a: int)
    requires
        p.len() > 0,
        a + p.len() > v.len(),
    ensures
        matches_from(v, p, a) == Seq::<int>::empty(),
{
}

/// Two lines with the same units from some offsets on have as many matches
/// from these offsets on.
pub proof fn lemma_same_tail(v1: Seq<u16>, a1: int, v2: Seq<u16>, a2: int, p: Seq<u16>)
    requires
        p.len() > 0,
        0 <= a1 <= v1.len(),
        0 <= a2 <= v2.len(),
        v1.skip(a1) == v2.skip(a2),
    ensures
        matches_from(v1, p, a1).len() == matches_from(v2, p, a2).len(),
    decreases v1.len() - a1,
{
    let m = p.len() as int;
    let tail = v1.skip(a1);
    assert(tail.len() == v2.len() - a2);
    if a1 + m <= v1.len() {
        assert(v1.subrange(a1, a1 + m) =~= tail.take(m));
        assert(v2.subrange(a2, a2 + m) =~= tail.take(m));
        if occurs_at(v1, p, a1) {
            assert(v1.skip(a1 + m) =~= tail.skip(m));
            assert(v2.skip(a2 + m) =~= tail.skip(m));
            lemma_same_tail(v1, a1 + m, v2, a2 + m, p);
        } else {
            assert(v1.skip(a1 + 1) =~= tail.skip(1));
            assert(v2.skip(a2 + 1) =~= tail.skip(1));
            lemma_same_tail(v1, a1 + 1, v2, a2 + 1, p);
        }
    }
}

/// A scan comes to stand on each of its matches.
pub proof fn lemma_match_is_reached(u: Seq<u16>, p: Seq<u16>, from: int, k: int)
    requires
        p.len() > 0,
        0 <= from,
        0 <= k < matches_from(u, p, from).len(),
    ensures
        from <= matches_from(u, p, from)[k],
        occurs_at(u, p, matches_from(u, p, from)[k]),
        reaches(u, p, from, matches_from(u, p, from)[k]),
    decreases u.len() - from,
{
    lemma_matches_are_occurrences(u, p, from);
    if occurs_at(u, p, from) {
        assert(matches_from(u, p, from) == seq![from] + matches_from(u, p, from + p.len()));
        if k > 0 {
            lemma_match_is_reached(u, p, from + p.len(), k - 1);
        }
    } else if from + p.len() <= u.len() {
        lemma_match_is_reached(u, p, from + 1, k);
    }
}

/// Replacing one match in a line, where the replacement brings no new
/// occurrence of the pattern, leaves one match fewer from every offset on
/// from which the scan reaches the replaced match.
pub proof fn lemma_line_loses_one(u: Seq<u16>, p: Seq<u16>, idx: int, with: Seq<u16>, from: int)
    requires
        p.len() > 0,
        0 <= from <= idx,
        occurs_at(u, p, idx),
        reaches(u, p, from, idx),
        no_new_match(replaced_line(u, idx, p, with), p, idx, with.len() as int),
    ensures
        matches_from(replaced_line(u, idx, p, with), p, from).len() + 1 == matches_from(
            u,
            p,
            from,
        ).len(),
    decreases idx - from,
{
    let m = p.len() as int;
    let after = replaced_line(u, idx, p, with);
    if from == idx {
        lemma_scan_skips(after, p, idx, idx + with.len());
        assert(after.skip(idx + with.len()) =~= u.skip(idx + m));
        lemma_same_tail(after, idx + with.len(), u, idx + m, p);
    } else if occurs_at(u, p, from) {
        assert(after.subrange(from, from + m) =~= u.subrange(from, from + m));
        lemma_line_loses_one(u, p, idx, with, from + m);
    } else {
        lemma_line_loses_one(u, p, idx, with, from + 1);
        if from + m > after.len() {
            lemma_scan_past_end(after, p, from);
            lemma_scan_past_end(after, p, from + 1);
        } else if from + m <= idx {
            assert(after.subrange(from, from + m) =~= u.subrange(from, from + m));
        }
    }
}

/// The number of matches in the first `upto` lines of a text.
pub open spec fn match_count(text: Seq<Seq<u16>>, p: Seq<u16>, upto: int) -> int
    decreases upto,
{
    if upto <= 0 {
        0
    } else {
        match_count(text, p, upto - 1) + line_matches(text[upto - 1], p).len()
    }
}

/// The matches of a text are as many as its lines have together.
pub proof fn lemma_match_count(text: Seq<Seq<u16>>, p: Seq<u16>, upto: int)
    ensures
        text_matches(text, p, upto).len() == match_count(text, p, upto),
    decreases upto,
{
    if upto > 0 {
        lemma_match_count(text, p, upto - 1);
    }
}

/// A match of a text is a match of its line.
pub proof fn lemma_match_in_line(text: Seq<Seq<u16>>, p: Seq<u16>, upto: int, k: int)
    requires
        0 <= upto <= text.len(),
        0 <= k < text_matches(text, p, upto).len(),
    ensures
        0 <= text_matches(text, p, upto)[k].0 < upto,
        exists|j: int|
            0 <= j < line_matches(text[text_matches(text, p, upto)[k].0], p).len() && line_matches(
                text[text_matches(text, p, upto)[k].0],
                p,
            )[j] == text_matches(text, p, upto)[k].1,
    decreases upto,
{
    let before = text_matches(text, p, upto - 1);
    if k < before.len() {
        lemma_match_in_line(text, p, upto - 1, k);
    }
}

/// Changing one line changes the number of matches by as much as the
/// number of matches in that line changes.
pub proof fn lemma_count_one_line(
    text: Seq<Seq<u16>>,
    p: Seq<u16>,
    line: int,
    now: Seq<u16>,
    upto: int,
)
    requires
        0 <= line < text.len(),
        0 <= upto <= text.len(),
    ensures
        match_count(text.update(line, now), p, upto) == match_count(text, p, upto) + if line
            < upto {
            line_matches(now, p).len() - line_matches(text[line], p).len()
        } else {
            0
        },
    decreases upto,
{
    if upto > 0 {
        lemma_count_one_line(text, p, line, now, upto - 1);
    }
}

/// Changing one line changes the number of units by as much as the length
/// of that line changes.
pub proof fn lemma_total_one_line(text: Seq<Seq<u16>>, line: int, now: Seq<u16>)
    requires
        0 <= line < text.len(),
    ensures
        total_units(text.update(line, now)) == total_units(text) - text[line].len() + now.len(),
    decreases text.len(),
{
    let changed = text.update(line, now);
    if line == text.len() - 1 {
        assert(changed.drop_last() =~= text.drop_last());
    } else {
        lemma_total_one_line(text.drop_last(), line, now);
        assert(changed.drop_last() =~= text.drop_last().update(line, now));
    }
}

/// Search, then replace. Replacing the match at (`line`, `idx`) changes the
/// number of units in the text by the length of the replacement less the
/// length of the pattern. Where the replacement brings no new occurrence of
/// the pattern, the text has one match fewer afterwards.
pub proof fn lemma_replace_one(
    text: Seq<Seq<u16>>,
    p: Seq<u16>,
    with: Seq<u16>,
    line: int,
    idx: int,
    k: int,
)
    requires
        p.len() > 0,
        0 <= k < text_matches(text, p, text.len() as int).len(),
        text_matches(text, p, text.len() as int)[k] == (line, idx),
    ensures
        0 <= line < text.len(),
        occurs_at(text[line], p, idx),
        total_units(text.update(line, replaced_line(text[line], idx, p, with))) == total_units(text)
            + with.len() - p.len(),
        no_new_match(replaced_line(text[line], idx, p, with), p, idx, with.len() as int)
            ==> text_matches(
            text.update(line, replaced_line(text[line], idx, p, with)),
            p,
            text.len() as int,
        ).len() == text_matches(text, p, text.len() as int).len() - 1,
{
    let n = text.len() as int;
    lemma_match_in_line(text, p, n, k);
    let u = text[line];
    let j = choose|j: int| 0 <= j < line_matches(u, p).len() && line_matches(u, p)[j] == idx;
    lemma_match_is_reached(u, p, 0, j);
    let after = replaced_line(u, idx, p, with);
    let changed = text.update(line, after);
    lemma_total_one_line(text, line, after);
    if no_new_match(after, p, idx, with.len() as int) {
        lemma_line_loses_one(u, p, idx, with, 0);
        lemma_count_one_line(text, p, line, after, n);
        lemma_match_count(text, p, n);
        lemma_match_count(changed, p, n);
    }
}

} // verus!
