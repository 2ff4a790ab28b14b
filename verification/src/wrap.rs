//! Soft wrapping: how logical lines fall into rows of the screen.
//!
//! Everything here counts in 16-bit code units. A line of `len` units shown
//! `width` units per row takes `max(1, ceil(len / width))` rows. The row that
//! the cursor stands on and the rows that get painted are both defined from
//! that one count, and [`lemma_cursor_on_painted_row`] shows that they agree.

use crate::text::{line_units, units};
use vstd::prelude::*;
use widestring::Utf16String;

verus! {

/// The number of screen rows that a line of `len` units takes at `width`
/// units per row: an empty line takes one row.
pub open spec fn rows_of(len: int, width: int) -> int {
    if len <= 0 {
        1
    } else {
        (len - 1) / width + 1
    }
}

/// The number of rows that the lines `from`, ..., `to - 1` take together.
pub open spec fn rows_between(text: Seq<Seq<u16>>, from: int, to: int, width: int) -> int
    decreases to - from,
{
    if from >= to {
        0
    } else {
        rows_between(text, from, to - 1, width) + rows_of(text[to - 1].len() as int, width)
    }
}

/// The row of the cursor, counted from the row on which line `scroll` begins:
/// the rows of the lines between `scroll` and the cursor's line, and the full
/// rows that lie before the cursor in its own line.
pub open spec fn cursor_row(
    text: Seq<Seq<u16>>,
    scroll: int,
    line: int,
    idx: int,
    width: int,
) -> int {
    rows_between(text, scroll, if line <= text.len() { line } else { text.len() as int }, width)
        + idx / width
}

/// The column of the cursor within its row.
pub open spec fn cursor_col(idx: int, width: int) -> int {
    idx % width
}

/// `n`, or the largest `usize` where `n` is larger.
pub open spec fn clip(n: int) -> usize {
    if n > usize::MAX {
        usize::MAX
    } else if n < 0 {
        0
    } else {
        n as usize
    }
}

/// The units of row `k` of a line: `width` of them, fewer on the last row.
pub open spec fn chunk(line: Seq<u16>, k: int, width: int) -> Seq<u16> {
    line.subrange(
        k * width,
        if (k + 1) * width <= line.len() {
            (k + 1) * width
        } else {
            line.len() as int
        },
    )
}

/// One painted row: which logical line it shows, which of the line's rows it
/// is (0 for the first), and its units.
pub struct RowView {
    pub line: int,
    pub part: int,
    pub text: Seq<u16>,
}

/// The rows of one line, in order.
pub open spec fn line_rows(units: Seq<u16>, line: int, width: int) -> Seq<RowView> {
    Seq::new(
        rows_of(units.len() as int, width) as nat,
        |k: int| RowView { line, part: k, text: chunk(units, k, width) },
    )
}

/// The rows of the lines `from`, ..., `to - 1`, in order.
pub open spec fn page_rows(text: Seq<Seq<u16>>, from: int, to: int, width: int) -> Seq<RowView>
    decreases to - from,
{
    if from >= to {
        Seq::empty()
    } else {
        page_rows(text, from, to - 1, width) + line_rows(text[to - 1], to - 1, width)
    }
}

/// A line takes at least one row and at most as many as it has units (one,
/// where it is empty).
pub proof fn lemma_rows_of_bounds(len: int, width: int)
    requires
        0 <= len,
        0 < width,
    ensures
        1 <= rows_of(len, width),
        rows_of(len, width) <= if len == 0 {
            1
        } else {
            len
        },
        (rows_of(len, width) - 1) * width <= len,
        len <= rows_of(len, width) * width,
{
    if len > 0 {
        let q = (len - 1) / width;
        vstd::arithmetic::div_mod::lemma_fundamental_div_mod(len - 1, width);
        vstd::arithmetic::div_mod::lemma_mod_bound(len - 1, width);
        vstd::arithmetic::div_mod::lemma_div_pos_is_pos(len - 1, width);
        assert((q + 1) * width == q * width + width) by (nonlinear_arith);
    }
}

/// The count of rows is never negative and grows with the range.
pub proof fn lemma_rows_between_nonneg(text: Seq<Seq<u16>>, from: int, to: int, width: int)
    requires
        0 < width,
    ensures
        0 <= rows_between(text, from, to, width),
        from < to ==> to - from <= rows_between(text, from, to, width),
    decreases to - from,
{
    if from < to {
        lemma_rows_between_nonneg(text, from, to - 1, width);
        lemma_rows_of_bounds(text[to - 1].len() as int, width);
    }
}

/// As many rows are painted for a range of lines as are counted for it.
pub proof fn lemma_page_rows_len(text: Seq<Seq<u16>>, from: int, to: int, width: int)
    requires
        0 < width,
    ensures
        page_rows(text, from, to, width).len() == rows_between(text, from, to, width),
    decreases to - from,
{
    if from < to {
        lemma_page_rows_len(text, from, to - 1, width);
        lemma_rows_of_bounds(text[to - 1].len() as int, width);
    }
}

/// The rows of a range of lines are those of its first part followed by
/// those of its second part.
pub proof fn lemma_page_rows_split(text: Seq<Seq<u16>>, from: int, mid: int, to: int, width: int)
    requires
        from <= mid <= to,
    ensures
        page_rows(text, from, to, width) == page_rows(text, from, mid, width) + page_rows(
            text,
            mid,
            to,
            width,
        ),
    decreases to - mid,
{
    if mid != to {
        lemma_page_rows_split(text, from, mid, to - 1, width);
    }
}

/// The rows of a single line, as a range of one line.
pub proof fn lemma_page_rows_one(text: Seq<Seq<u16>>, line: int, width: int)
    ensures
        page_rows(text, line, line + 1, width) == line_rows(text[line], line, width),
{
    assert(page_rows(text, line, line, width) =~= Seq::<RowView>::empty());
}

/// Painting and cursor placement agree. With the cursor on unit `idx` of line
/// `line`, the row that [`cursor_row`] computes is, among the painted rows,
/// the row of that line which holds that unit, and [`cursor_col`] is the
/// unit's place in it.
pub proof fn lemma_cursor_on_painted_row(
    text: Seq<Seq<u16>>,
    scroll: int,
    line: int,
    idx: int,
    width: int,
)
    requires
        0 < width,
        0 <= scroll <= line < text.len(),
        0 <= idx < text[line].len(),
    ensures
        rows_between(text, scroll, line, width) == page_rows(text, scroll, line, width).len(),
        0 <= cursor_row(text, scroll, line, idx, width) < page_rows(
            text,
            scroll,
            text.len() as int,
            width,
        ).len(),
        ({
            let row = page_rows(text, scroll, text.len() as int, width)[cursor_row(
                text,
                scroll,
                line,
                idx,
                width,
            )];
            &&& row.line == line
            &&& row.part == idx / width
            &&& 0 <= cursor_col(idx, width) < row.text.len()
            &&& row.text[cursor_col(idx, width)] == text[line][idx]
        }),
{
    let n = text.len() as int;
    let len = text[line].len() as int;
    lemma_page_rows_len(text, scroll, line, width);
    lemma_rows_between_nonneg(text, scroll, line, width);
    lemma_page_rows_split(text, scroll, line, n, width);
    lemma_page_rows_split(text, line, line + 1, n, width);
    lemma_page_rows_one(text, line, width);
    lemma_rows_of_bounds(len, width);
    let k = idx / width;
    vstd::arithmetic::div_mod::lemma_fundamental_div_mod(idx, width);
    vstd::arithmetic::div_mod::lemma_mod_bound(idx, width);
    vstd::arithmetic::div_mod::lemma_div_pos_is_pos(idx, width);
    assert(k <= (len - 1) / width) by {
        vstd::arithmetic::div_mod::lemma_div_is_ordered(idx, len - 1, width);
    }
    assert((k + 1) * width == k * width + width) by (nonlinear_arith);
}

/// `a + b`, or the largest `usize` where the sum is larger.
pub fn sat_add(a: usize, b: usize) -> (sum: usize)
    ensures
        sum == clip(a + b),
{
    if a > usize::MAX - b {
        usize::MAX
    } else {
        a + b
    }
}

/// The number of rows that a line of `len` units takes.
pub fn visual_rows(len: usize, width: usize) -> (rows: usize)
    requires
        width > 0,
    ensures
        rows == rows_of(len as int, width as int),
{
    if len == 0 {
        1
    } else {
        (len - 1) / width + 1
    }
}

/// The units of row `k` of a line.
pub fn row_chunk(line: &Vec<u16>, k: usize, width: usize) -> (row: Vec<u16>)
    requires
        width > 0,
        k < rows_of(line.len() as int, width as int),
    ensures
        row@ == chunk(line@, k as int, width as int),
{
    proof {
        lemma_rows_of_bounds(line.len() as int, width as int);
        assert(k * width <= (rows_of(line.len() as int, width as int) - 1) * width)
            by (nonlinear_arith)
            requires
                k <= rows_of(line.len() as int, width as int) - 1,
                0 < width,
        ;
        assert((k + 1) * width == k * width + width) by (nonlinear_arith);
    }
    let start: usize = k * width;
    let end: usize = if line.len() - start >= width {
        start + width
    } else {
        line.len()
    };
    let mut row: Vec<u16> = Vec::new();
    let mut i: usize = start;
    while i < end
        invariant
            start <= i <= end <= line.len(),
            row@ == line@.subrange(start as int, i as int),
        decreases end - i,
    {
        row.push(line[i]);
        i += 1;
    }
    row
}

/// A line being cut into rows of `mid` units: what is left of it, and how
/// many rows were handed out.
pub struct SplitNAtIter {
    pub string: Vec<u16>,
    pub is_end: bool,
    pub count: u64,
    pub mid: usize,
}

/// Cutting text into rows of a fixed length.
pub trait SplitNAt {
    /// The units that the rows are cut from.
    spec fn row_units(&self) -> Seq<u16>;

    /// Starts cutting `self` into rows of `mid` units.
    fn splitn_at(&self, mid: usize) -> (iter: SplitNAtIter)
        requires
            0 < mid,
        ensures
            iter.string@ == self.row_units(),
            !iter.is_end,
            iter.count == 0,
            iter.mid == mid,
            iter.wf(),
    ;
}

impl SplitNAt for Vec<u16> {
    open spec fn row_units(&self) -> Seq<u16> {
        self@
    }

    fn splitn_at(&self, mid: usize) -> (iter: SplitNAtIter) {
        SplitNAtIter { string: self.clone(), is_end: false, count: 0, mid }
    }
}

impl SplitNAt for Utf16String {
    open spec fn row_units(&self) -> Seq<u16> {
        units(*self)
    }

    fn splitn_at(&self, mid: usize) -> (iter: SplitNAtIter) {
        let string = line_units(self);
        let len = string.len();
        assert(len <= u64::MAX);
        SplitNAtIter { string, is_end: false, count: 0, mid }
    }
}

impl SplitNAtIter {
    /// The rows still to come are counted by a number that fits.
    pub open spec fn wf(&self) -> bool {
        &&& 0 < self.mid
        &&& self.is_end || self.count + if self.string@.len() == 0 {
            1
        } else {
            self.string@.len()
        } <= u64::MAX
    }

    /// The next row with its number, counted from 0, or `None` after the last.
    /// Every row but the last holds `mid` units; an empty text has one empty
    /// row.
    pub fn next(&mut self) -> (item: Option<(Vec<u16>, u64)>)
        requires
            old(self).wf(),
        ensures
            final(self).wf(),
            final(self).mid == old(self).mid,
            old(self).is_end ==> item.is_none() && *final(self) == *old(self),
            !old(self).is_end ==> item.is_some() && item.unwrap().1 == old(self).count,
            !old(self).is_end ==> final(self).count == old(self).count + 1,
            !old(self).is_end && old(self).string@.len() > old(self).mid ==> {
                &&& !final(self).is_end
                &&& item.unwrap().0@ == old(self).string@.subrange(0, old(self).mid as int)
                &&& final(self).string@ == old(self).string@.subrange(
                    old(self).mid as int,
                    old(self).string@.len() as int,
                )
            },
            !old(self).is_end && old(self).string@.len() <= old(self).mid ==> {
                &&& final(self).is_end
                &&& item.unwrap().0@ == old(self).string@
                &&& final(self).string@ == old(self).string@
            },
    {
        if self.is_end {
            return None;
        }
        let mid = self.mid;
        let count = self.count;
        self.count = self.count + 1;
        if self.string.len() > mid {
            let last = self.string.split_off(mid);
            let mut first = last;
            core::mem::swap(&mut first, &mut self.string);
            Some((first, count))
        } else {
            self.is_end = true;
            Some((self.string.clone(), count))
        }
    }
}

} // verus!
