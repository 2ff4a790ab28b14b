//! The text viewport.
//!
//! It shows one buffer, soft-wrapped and scrolled, inside its panel. It owns
//! the cursor, the scroll offset and the search state; the lines themselves
//! belong to the buffer store, which lends them for the length of one call.
//! All positions count 16-bit code units.

use crate::attrs::{panel, scan, ViewAttr};
use crate::color::Color;
use crate::fmt::{decimal_chars, number_of, parse_number, push_decimal};
use crate::file::{next_id, prev_id};
use crate::key::{alt_left_bytes, alt_right_bytes, is_alt_left, is_alt_right, Key};
use crate::lines::{decode_utf16, lemma_encode_injective};
use crate::screen::{Module, Op, OpView};
use crate::search::{find_matches, places, replaced_line, text_matches};
use crate::settings::Settings;
use crate::terminal::term::Term;
use crate::text::{
    encode_char, encode_utf16, is_boundary, line_append, line_from_str, line_insert,
    line_insert_line, line_is_boundary, line_len, line_new, line_remove, line_replace, line_split,
    line_to_string, line_units, spliced, text_of, unit_width, units,
};
use crate::view::{Ask, Panel, Pos, Position, Prompt};
use crate::wrap::{
    clip, cursor_col, cursor_row, lemma_page_rows_one, lemma_page_rows_split, line_rows, page_rows,
    row_chunk, rows_between, rows_of, sat_add, visual_rows, RowView,
};
use vstd::prelude::*;
use vstd::string::StringExecFns;
use widestring::Utf16String;

verus! {

/// Whether keys edit the text or walk through the matches of a search.
#[derive(Clone, Copy, Debug, PartialEq, Eq, Structural)]
pub enum Mode {
    Search,
    Normal,
}

/// How many rows from the top or the bottom of the viewport the cursor may
/// come before the scroll offset follows it.
pub const SCROLL_MARGIN: usize = 4;

/// How many lines PageUp and PageDown move.
pub const PAGE_LINES: usize = 25;

/// The text viewport: a panel with a cursor, a scroll offset and a search.
pub struct MainView {
    pub panel: Panel,
    /// The colour of the line numbers.
    pub lnum_clr: Color,
    /// The colour of the current line's number.
    pub lnum_sclr: Color,
    pub curr_line: usize,
    pub curr_idx: usize,
    /// The first line that is shown.
    pub scroll: usize,
    pub mode: Mode,
    /// The matches of the last search, each as (line, column).
    pub search_stack: Vec<(usize, usize)>,
    pub search_str: Utf16String,
    /// Which match is selected.
    pub search_idx: usize,
}

/// The scroll offset after the cursor has moved down one line from a place
/// `row` rows below the top of a viewport of `height` rows.
pub open spec fn scroll_after_inc(scroll: usize, row: int, height: int) -> usize {
    if row + SCROLL_MARGIN > height && scroll < usize::MAX {
        (scroll + 1) as usize
    } else {
        scroll
    }
}

/// The scroll offset after the cursor has moved up one line from a place
/// `row` rows below the top of the viewport.
pub open spec fn scroll_after_dec(scroll: usize, row: int) -> usize {
    if scroll != 0 && row < SCROLL_MARGIN {
        (scroll - 1) as usize
    } else {
        scroll
    }
}

/// Where the viewport is in a text: the cursor's line and column and the
/// first line shown.
#[derive(Clone, Copy, Debug, PartialEq, Eq, Structural)]
pub struct Place {
    pub line: usize,
    pub idx: usize,
    pub scroll: usize,
}

/// One line down, the column kept: the scroll offset follows the cursor
/// once it has come within the margin of the last row of a viewport `height`
/// rows high and `width` units wide.
pub open spec fn stepped_down(p: Place, text: Seq<Seq<u16>>, width: int, height: int) -> Place {
    Place {
        line: (p.line + 1) as usize,
        idx: p.idx,
        scroll: scroll_after_inc(
            p.scroll,
            cursor_row(text, p.scroll as int, p.line as int, p.idx as int, width),
            height,
        ),
    }
}

/// One line up, the column kept: the scroll offset follows the cursor once
/// it has come within the margin of the first row.
pub open spec fn stepped_up(p: Place, text: Seq<Seq<u16>>, width: int) -> Place {
    Place {
        line: (p.line - 1) as usize,
        idx: p.idx,
        scroll: scroll_after_dec(
            p.scroll,
            cursor_row(text, p.scroll as int, p.line as int, p.idx as int, width),
        ),
    }
}

/// The place after the Up key: the line above, no further right than its
/// end; the same place on the first line.
pub open spec fn up_place(p: Place, text: Seq<Seq<u16>>, width: int) -> Place {
    if p.line == 0 {
        p
    } else {
        stepped_up(
            Place { idx: clamped(p.idx, text[p.line - 1].len()) as usize, ..p },
            text,
            width,
        )
    }
}

/// The place after the Down key: the line below, no further right than its
/// end; the same place on the last line.
pub open spec fn down_place(p: Place, text: Seq<Seq<u16>>, width: int, height: int) -> Place {
    if p.line + 1 >= text.len() {
        p
    } else {
        stepped_down(
            Place { idx: clamped(p.idx, text[p.line + 1].len()) as usize, ..p },
            text,
            width,
            height,
        )
    }
}

/// The place after `n` times Up.
pub open spec fn up_n(p: Place, text: Seq<Seq<u16>>, width: int, n: nat) -> Place
    decreases n,
{
    if n == 0 {
        p
    } else {
        up_place(up_n(p, text, width, (n - 1) as nat), text, width)
    }
}

/// The place after `n` times Down.
pub open spec fn down_n(p: Place, text: Seq<Seq<u16>>, width: int, height: int, n: nat) -> Place
    decreases n,
{
    if n == 0 {
        p
    } else {
        down_place(down_n(p, text, width, height, (n - 1) as nat), text, width, height)
    }
}

/// The place after Enter, in the text as Enter has left it.
pub open spec fn enter_place(p: Place, after: Seq<Seq<u16>>, width: int, height: int) -> Place {
    Place { idx: 0, ..stepped_down(p, after, width, height) }
}

/// The text after Backspace.
pub open spec fn backspace_text(text: Seq<Seq<u16>>, p: Place) -> Seq<Seq<u16>> {
    if p.idx > 0 {
        erased_text(text, p.line as int, p.idx - 1)
    } else if p.line > 0 {
        joined_text(text, p.line as int)
    } else {
        text
    }
}

/// The place after Backspace.
pub open spec fn backspace_place(p: Place, text: Seq<Seq<u16>>, width: int) -> Place {
    if p.idx > 0 {
        Place { idx: (p.idx - 1) as usize, ..p }
    } else if p.line > 0 {
        stepped_up(
            Place { idx: text[p.line - 1].len() as usize, ..p },
            joined_text(text, p.line as int),
            width,
        )
    } else {
        p
    }
}

/// The four spaces that the Tab key types.
pub open spec fn tab_units() -> Seq<u16> {
    seq![32u16, 32u16, 32u16, 32u16]
}

impl MainView {
    /// The viewport as it starts: at the top of the text, in normal mode,
    /// with no search.
    pub fn new() -> (view: MainView)
        ensures
            view.panel.name@ == "MainView"@,
            view.panel.start == (Pos::Fixed(25), Pos::Fixed(2)),
            view.panel.end == (Pos::Opposite(0), Pos::Opposite(1)),
            view.panel.focusable(),
            !view.panel.lock,
            view.panel.fcolor == (Color { r: 0xff, g: 0xff, b: 0xff }),
            view.panel.bcolor == (Color { r: 0, g: 0, b: 0 }),
            view.lnum_clr == (Color { r: 0, g: 0, b: 0 }),
            view.lnum_sclr == (Color { r: 0, g: 0, b: 0 }),
            view.curr_line == 0,
            view.curr_idx == 0,
            view.scroll == 0,
            view.mode == Mode::Normal,
            view.search_stack@.len() == 0,
            units(view.search_str).len() == 0,
            view.search_idx == 0,
    {
        let attrs = vec![ViewAttr::Start(26, 3), ViewAttr::End(-1, -2)];
        proof {
            reveal_with_fuel(scan, 3);
        }
        MainView {
            panel: panel(String::from_str("MainView"), &attrs),
            lnum_clr: Color::new(0, 0, 0),
            lnum_sclr: Color::new(0, 0, 0),
            curr_line: 0,
            curr_idx: 0,
            scroll: 0,
            mode: Mode::Normal,
            search_stack: Vec::new(),
            search_str: line_new(),
            search_idx: 0,
        }
    }

    /// Whether this is the viewport as the editor starts with it: as it is
    /// made, with the colours of the theme.
    pub open spec fn started(&self, settings: Settings) -> bool {
        &&& self.panel.name@ == "MainView"@
        &&& self.panel.start == (Pos::Fixed(25), Pos::Fixed(2))
        &&& self.panel.end == (Pos::Opposite(0), Pos::Opposite(1))
        &&& self.panel.focusable()
        &&& !self.panel.lock
        &&& self.panel.bcolor == settings.theme.normal_bclr
        &&& self.panel.fcolor == settings.theme.normal_fclr
        &&& self.lnum_clr == settings.theme.weak_fclr
        &&& self.lnum_sclr == settings.theme.yellow
        &&& self.place() == (Place { line: 0, idx: 0, scroll: 0 })
        &&& self.mode == Mode::Normal
        &&& self.search_stack@.len() == 0
        &&& units(self.search_str).len() == 0
        &&& self.search_idx == 0
    }

    /// Takes its colours from the theme.
    pub fn init(&mut self, settings: &Settings)
        ensures
            final(self).panel.bcolor == settings.theme.normal_bclr,
            final(self).panel.fcolor == settings.theme.normal_fclr,
            final(self).lnum_clr == settings.theme.weak_fclr,
            final(self).lnum_sclr == settings.theme.yellow,
            final(self).same_but_colors(*old(self)),
    {
        self.panel.bcolor = settings.theme.normal_bclr;
        self.panel.fcolor = settings.theme.normal_fclr;
        self.lnum_clr = settings.theme.weak_fclr;
        self.lnum_sclr = settings.theme.yellow;
    }

    /// Whether `self` differs from `other` in its colours at most.
    pub open spec fn same_but_colors(&self, other: MainView) -> bool {
        &&& self.panel.name == other.panel.name
        &&& self.panel.start == other.panel.start
        &&& self.panel.end == other.panel.end
        &&& self.panel.silent == other.panel.silent
        &&& self.panel.lock == other.panel.lock
        &&& self.panel.show == other.panel.show
        &&& self.same_state(other)
    }

    /// Whether cursor, scroll offset and search state are those of `other`.
    pub open spec fn same_state(&self, other: MainView) -> bool {
        &&& self.curr_line == other.curr_line
        &&& self.curr_idx == other.curr_idx
        &&& self.scroll == other.scroll
        &&& self.same_search(other)
    }

    /// Whether mode and search state are those of `other`.
    pub open spec fn same_search(&self, other: MainView) -> bool {
        &&& self.mode == other.mode
        &&& self.search_stack == other.search_stack
        &&& self.search_str == other.search_str
        &&& self.search_idx == other.search_idx
    }

    /// The column at which the text begins, right of the line numbers.
    pub open spec fn text_x(&self, term: Term, settings: Settings) -> int {
        self.panel.start.0.resolved(term.width) + settings.num_offset
    }

    /// The wrap width: the number of units that one row of the viewport shows.
    pub open spec fn wrap_width(&self, term: Term, settings: Settings) -> int {
        self.panel.end.0.resolved(term.width) - self.text_x(term, settings)
    }

    /// The number of rows of the viewport.
    pub open spec fn page_height(&self, term: Term) -> int {
        self.panel.end.1.resolved(term.height) - self.panel.start.1.resolved(term.height)
    }

    /// Whether the viewport has room for text on a terminal of this size: its
    /// corners resolve, at least one column is left beside the line numbers,
    /// and its end is not above its start.
    pub open spec fn layout_ok(&self, term: Term, settings: Settings) -> bool {
        &&& self.panel.fits(term)
        &&& self.text_x(term, settings) <= u16::MAX
        &&& self.wrap_width(term, settings) > 0
        &&& self.page_height(term) >= 0
    }

    /// Whether the cursor stands inside the text.
    pub open spec fn cursor_ok(&self, text: Seq<Seq<u16>>) -> bool {
        self.curr_line < text.len() && self.curr_idx <= text[self.curr_line as int].len()
    }

    /// Cursor and scroll offset.
    pub open spec fn place(&self) -> Place {
        Place { line: self.curr_line, idx: self.curr_idx, scroll: self.scroll }
    }

    /// The row of the cursor below the top of the viewport.
    pub open spec fn row(&self, text: Seq<Seq<u16>>, term: Term, settings: Settings) -> int {
        cursor_row(
            text,
            self.scroll as int,
            self.curr_line as int,
            self.curr_idx as int,
            self.wrap_width(term, settings),
        )
    }

    /// The cursor's row is never negative.
    pub proof fn lemma_row_nonneg(&self, text: Seq<Seq<u16>>, term: Term, settings: Settings)
        requires
            self.wrap_width(term, settings) > 0,
        ensures
            0 <= self.row(text, term, settings),
    {
        let width = self.wrap_width(term, settings);
        let stop = if self.curr_line <= text.len() {
            self.curr_line as int
        } else {
            text.len() as int
        };
        crate::wrap::lemma_rows_between_nonneg(text, self.scroll as int, stop, width);
        vstd::arithmetic::div_mod::lemma_div_pos_is_pos(self.curr_idx as int, width);
    }

    /// Whether `layout_ok` holds, computed.
    pub fn check_layout(&self, term: &Term, settings: &Settings) -> (ok: bool)
        ensures
            ok == self.layout_ok(*term, *settings),
    {
        if !self.panel.check_fits(term) {
            return false;
        }
        let (x, y) = self.panel.get_start(term);
        let (x_e, y_e) = self.panel.get_end(term);
        x <= u16::MAX - settings.num_offset && x_e > x + settings.num_offset && y_e >= y
    }

    /// Whether `cursor_ok` holds, computed.
    pub fn check_cursor(&self, content: &Vec<Utf16String>) -> (ok: bool)
        ensures
            ok == self.cursor_ok(text_of(content@)),
    {
        self.curr_line < content.len() && self.curr_idx <= line_len(&content[self.curr_line])
    }

    /// Takes over the cursor column, the cursor line and the scroll offset
    /// that a buffer had stored, in this order.
    pub fn sync(&mut self, new_status: (usize, usize, usize))
        ensures
            final(self).curr_idx == new_status.0,
            final(self).curr_line == new_status.1,
            final(self).scroll == new_status.2,
            final(self).panel == old(self).panel,
            final(self).lnum_clr == old(self).lnum_clr,
            final(self).lnum_sclr == old(self).lnum_sclr,
            final(self).same_search(*old(self)),
    {
        self.curr_idx = new_status.0;
        self.curr_line = new_status.1;
        self.scroll = new_status.2;
    }

    /// The first corner of the viewport.
    pub fn get_pos(&self, term: &Term) -> (cell: (u16, u16))
        requires
            self.panel.fits(*term),
        ensures
            (cell.0 as int, cell.1 as int) == self.panel.start_cell(*term),
    {
        (self.panel.start.0.unwrap(term.width), self.panel.start.1.unwrap(term.height))
    }

    /// The cell of the first unit of the first shown line.
    pub fn get_text_pos(&self, term: &Term, settings: &Settings) -> (cell: (u16, u16))
        requires
            self.panel.fits(*term),
            self.text_x(*term, *settings) <= u16::MAX,
        ensures
            cell.0 == self.text_x(*term, *settings),
            cell.1 == self.panel.start.1.resolved(term.height),
    {
        (
            self.panel.start.0.unwrap(term.width) + settings.num_offset,
            self.panel.start.1.unwrap(term.height),
        )
    }

    /// The wrap width.
    pub fn get_vpos_max(&self, term: &Term, settings: &Settings) -> (max: usize)
        requires
            self.layout_ok(*term, *settings),
        ensures
            max == self.wrap_width(*term, *settings),
            max > 0,
    {
        (self.panel.end.0.unwrap(term.width) - self.get_text_pos(term, settings).0) as usize
    }

    /// The number of rows of the viewport.
    pub fn get_height(&self, term: &Term) -> (height: usize)
        requires
            self.panel.fits(*term),
            self.page_height(*term) >= 0,
        ensures
            height == self.page_height(*term),
    {
        (self.panel.end.1.unwrap(term.height) - self.panel.start.1.unwrap(term.height)) as usize
    }

    /// The row of the cursor below the top of the viewport: the rows of the
    /// lines from the scroll offset to the cursor's line, and the full rows
    /// before the cursor in its own line. A count beyond `usize` is clipped.
    pub fn pre_all_lines(
        &self,
        content: &Vec<Utf16String>,
        term: &Term,
        settings: &Settings,
    ) -> (rows: usize)
        requires
            self.layout_ok(*term, *settings),
        ensures
            rows == clip(self.row(text_of(content@), *term, *settings)),
    {
        let max = self.get_vpos_max(term, settings);
        let stop = if self.curr_line <= content.len() {
            self.curr_line
        } else {
            content.len()
        };
        let ghost text = text_of(content@);
        let mut line_cnt: usize = 0;
        let mut i: usize = self.scroll;
        proof {
            crate::wrap::lemma_rows_between_nonneg(text, self.scroll as int, i as int, max as int);
        }
        while i < stop
            invariant
                max > 0,
                stop <= content.len(),
                text == text_of(content@),
                self.scroll <= i,
                i <= stop || i == self.scroll,
                0 <= rows_between(text, self.scroll as int, i as int, max as int),
                line_cnt == clip(rows_between(text, self.scroll as int, i as int, max as int)),
            decreases stop - i,
        {
            let rows = visual_rows(line_len(&content[i]), max);
            proof {
                crate::wrap::lemma_rows_of_bounds(text[i as int].len() as int, max as int);
            }
            line_cnt = sat_add(line_cnt, rows);
            i += 1;
        }
        proof {
            vstd::arithmetic::div_mod::lemma_div_pos_is_pos(self.curr_idx as int, max as int);
        }
        sat_add(line_cnt, self.curr_idx / max)
    }

    /// The cell on which the terminal's cursor belongs: the column and the
    /// row of the cursor's unit, both counted from the first text cell. The
    /// row is the one that [`MainView::pre_all_lines`] counts.
    pub fn set_cursor(
        &self,
        content: &Vec<Utf16String>,
        term: &Term,
        settings: &Settings,
    ) -> (cell: (usize, usize))
        requires
            self.layout_ok(*term, *settings),
        ensures
            cell.0 == self.text_x(*term, *settings) + cursor_col(
                self.curr_idx as int,
                self.wrap_width(*term, *settings),
            ),
            cell.1 == clip(
                self.panel.start.1.resolved(term.height) + clip(
                    self.row(text_of(content@), *term, *settings),
                ),
            ),
    {
        let max = self.get_vpos_max(term, settings);
        let (x, y) = self.get_text_pos(term, settings);
        let rows = self.pre_all_lines(content, term, settings);
        proof {
            vstd::arithmetic::div_mod::lemma_mod_bound(self.curr_idx as int, max as int);
        }
        ((x as usize) + self.curr_idx % max, sat_add(y as usize, rows))
    }

    /// The cursor goes down one line; the scroll offset follows once the
    /// cursor has come within the margin of the viewport's last row.
    pub fn line_inc(&mut self, content: &Vec<Utf16String>, term: &Term, settings: &Settings)
        requires
            old(self).layout_ok(*term, *settings),
            old(self).curr_line < usize::MAX,
        ensures
            final(self).place() == stepped_down(
                old(self).place(),
                text_of(content@),
                old(self).wrap_width(*term, *settings),
                old(self).page_height(*term),
            ),
            final(self).same_but_place(*old(self)),
    {
        let pre_all_lines = self.pre_all_lines(content, term, settings);
        let height = self.get_height(term);
        proof {
            self.lemma_row_nonneg(text_of(content@), *term, *settings);
        }
        if (pre_all_lines > usize::MAX - SCROLL_MARGIN || pre_all_lines + SCROLL_MARGIN > height)
            && self.scroll < usize::MAX {
            self.scroll += 1;
        }
        self.curr_line += 1;
    }

    /// The cursor goes up one line; the scroll offset follows once the cursor
    /// has come within the margin of the viewport's first row.
    pub fn line_dec(&mut self, content: &Vec<Utf16String>, term: &Term, settings: &Settings)
        requires
            old(self).layout_ok(*term, *settings),
            old(self).curr_line > 0,
        ensures
            final(self).place() == stepped_up(
                old(self).place(),
                text_of(content@),
                old(self).wrap_width(*term, *settings),
            ),
            final(self).same_but_place(*old(self)),
    {
        if self.scroll != 0 {
            let pre_all_lines = self.pre_all_lines(content, term, settings);
            proof {
                self.lemma_row_nonneg(text_of(content@), *term, *settings);
            }
            if pre_all_lines < SCROLL_MARGIN {
                self.scroll -= 1;
            }
        }
        self.curr_line -= 1;
    }

    /// Whether `self` differs from `other` in cursor and scroll offset at most.
    pub open spec fn same_but_place(&self, other: MainView) -> bool {
        &&& self.panel == other.panel
        &&& self.lnum_clr == other.lnum_clr
        &&& self.lnum_sclr == other.lnum_sclr
        &&& self.same_search(other)
    }

    /// Whether the cursor stands where a character can be typed: inside the
    /// text, or at the origin of a text without lines, and not between the
    /// halves of a surrogate pair.
    pub open spec fn can_type(&self, text: Seq<Seq<u16>>) -> bool {
        if text.len() == 0 {
            self.curr_line == 0 && self.curr_idx == 0
        } else {
            self.cursor_ok(text) && is_boundary(text[self.curr_line as int], self.curr_idx as int)
        }
    }

    /// Whether Backspace can take out what stands before the cursor: the
    /// cursor is inside the text, and a character starts one unit before it.
    pub open spec fn can_erase(&self, text: Seq<Seq<u16>>) -> bool {
        &&& self.cursor_ok(text)
        &&& self.curr_idx > 0 ==> is_boundary(text[self.curr_line as int], self.curr_idx - 1)
    }

    /// Types one character at the cursor, which moves one column on. A text
    /// without lines gets its first line.
    pub fn push(&mut self, content: &mut Vec<Utf16String>, ch: char)
        requires
            old(self).can_type(text_of(old(content)@)),
        ensures
            text_of(final(content)@) == pushed_text(
                text_of(old(content)@),
                old(self).curr_line as int,
                old(self).curr_idx as int,
                encode_char(ch),
            ),
            final(self).place()
                == (Place { idx: (old(self).curr_idx + 1) as usize, ..old(self).place() }),
            final(self).same_but_place(*old(self)),
            final(self).cursor_ok(text_of(final(content)@)),
    {
        if content.len() == 0 {
            content.push(line_new());
        }
        line_insert(&mut content[self.curr_line], self.curr_idx, ch);
        let len = line_len(&content[self.curr_line]);
        assert(self.curr_idx < len);
        self.curr_idx += 1;
    }

    /// Inserts the units of `string` at the cursor, which moves behind them.
    pub fn push_str(&mut self, content: &mut Vec<Utf16String>, string: &Utf16String)
        requires
            old(self).cursor_ok(text_of(old(content)@)),
            old(self).can_type(text_of(old(content)@)),
        ensures
            text_of(final(content)@) == pushed_text(
                text_of(old(content)@),
                old(self).curr_line as int,
                old(self).curr_idx as int,
                units(*string),
            ),
            final(self).place() == (Place {
                idx: (old(self).curr_idx + units(*string).len()) as usize,
                ..old(self).place()
            }),
            final(self).same_but_place(*old(self)),
            final(self).cursor_ok(text_of(final(content)@)),
    {
        line_insert_line(&mut content[self.curr_line], self.curr_idx, string);
        let len = line_len(&content[self.curr_line]);
        assert(self.curr_idx + units(*string).len() <= len);
        self.curr_idx = self.curr_idx + line_len(string);
    }

    /// Enter: splits the cursor's line at the cursor in two. The cursor goes
    /// to the start of the second half, and the scroll offset follows.
    pub fn push_line(&mut self, content: &mut Vec<Utf16String>, term: &Term, settings: &Settings)
        requires
            old(self).layout_ok(*term, *settings),
            old(self).cursor_ok(text_of(old(content)@)),
            old(self).can_type(text_of(old(content)@)),
        ensures
            text_of(final(content)@) == split_text(
                text_of(old(content)@),
                old(self).curr_line as int,
                old(self).curr_idx as int,
            ),
            final(self).place() == enter_place(
                old(self).place(),
                text_of(final(content)@),
                old(self).wrap_width(*term, *settings),
                old(self).page_height(*term),
            ),
            final(self).same_but_place(*old(self)),
            final(self).cursor_ok(text_of(final(content)@)),
    {
        let line = self.curr_line;
        let count = content.len();
        assert(line < count);
        let (first, last) = line_split(&content[line], self.curr_idx);
        content[line] = first;
        content.insert(line + 1, last);
        self.line_inc(content, term, settings);
        self.curr_idx = 0;
    }

    /// Backspace. At the start of a line, the line is joined to the one
    /// above: the cursor goes to where that one ended, and the scroll offset
    /// follows. At the start of the text nothing happens. Elsewhere the
    /// character before the cursor goes.
    pub fn delete(&mut self, content: &mut Vec<Utf16String>, term: &Term, settings: &Settings)
        requires
            old(self).layout_ok(*term, *settings),
            old(self).can_erase(text_of(old(content)@)),
        ensures
            text_of(final(content)@) == backspace_text(text_of(old(content)@), old(self).place()),
            final(self).place() == backspace_place(
                old(self).place(),
                text_of(old(content)@),
                old(self).wrap_width(*term, *settings),
            ),
            final(self).same_but_place(*old(self)),
            final(self).cursor_ok(text_of(final(content)@)),
    {
        let (line, idx) = (self.curr_line, self.curr_idx);
        if idx == 0 {
            if line == 0 {
                return ;
            }
            self.curr_idx = line_len(&content[line - 1]);
            let tail = content.remove(line);
            line_append(&mut content[line - 1], &tail);
            proof {
                assert(text_of(content@) =~= joined_text(text_of(old(content)@), line as int));
            }
            self.line_dec(content, term, settings);
        } else {
            line_remove(&mut content[line], idx - 1);
            self.curr_idx -= 1;
        }
    }

    /// The cursor goes to the line above, if there is one, and no further
    /// right than that line's end.
    pub fn up(&mut self, content: &Vec<Utf16String>, term: &Term, settings: &Settings)
        requires
            old(self).layout_ok(*term, *settings),
            old(self).cursor_ok(text_of(content@)),
        ensures
            final(self).place() == up_place(
                old(self).place(),
                text_of(content@),
                old(self).wrap_width(*term, *settings),
            ),
            final(self).same_but_place(*old(self)),
            final(self).cursor_ok(text_of(content@)),
    {
        let (line, idx) = (self.curr_line, self.curr_idx);
        if line > 0 {
            let len = line_len(&content[line - 1]);
            if idx > len {
                self.curr_idx = len;
            }
            self.line_dec(content, term, settings);
        }
    }

    /// The cursor goes to the line below, if there is one, and no further
    /// right than that line's end.
    pub fn down(&mut self, content: &Vec<Utf16String>, term: &Term, settings: &Settings)
        requires
            old(self).layout_ok(*term, *settings),
            old(self).cursor_ok(text_of(content@)),
        ensures
            final(self).place() == down_place(
                old(self).place(),
                text_of(content@),
                old(self).wrap_width(*term, *settings),
                old(self).page_height(*term),
            ),
            final(self).same_but_place(*old(self)),
            final(self).cursor_ok(text_of(content@)),
    {
        let (line, idx) = (self.curr_line, self.curr_idx);
        if line < content.len() - 1 {
            let len = line_len(&content[line + 1]);
            if idx > len {
                self.curr_idx = len;
            }
            self.line_inc(content, term, settings);
        }
    }

    /// The cursor goes one column left, not past the start of the line.
    pub fn left(&mut self)
        ensures
            final(self).place() == left_place(old(self).place()),
            final(self).same_but_place(*old(self)),
    {
        if self.curr_idx > 0 {
            self.curr_idx -= 1;
        }
    }

    /// The cursor goes one column right, not past the end of the line.
    pub fn right(&mut self, content: &Vec<Utf16String>)
        requires
            old(self).curr_line < content@.len(),
        ensures
            final(self).place() == right_place(old(self).place(), text_of(content@)),
            final(self).same_but_place(*old(self)),
    {
        let max = line_len(&content[self.curr_line]);
        if self.curr_idx < max {
            self.curr_idx += 1;
        }
    }

    /// The cursor goes to the end of its line.
    pub fn end(&mut self, content: &Vec<Utf16String>)
        requires
            old(self).curr_line < content@.len(),
        ensures
            final(self).place() == end_place(old(self).place(), text_of(content@)),
            final(self).same_but_place(*old(self)),
    {
        self.curr_idx = line_len(&content[self.curr_line]);
    }

    /// The cursor goes to the start of its line.
    pub fn home(&mut self)
        ensures
            final(self).place() == (Place { idx: 0, ..old(self).place() }),
            final(self).same_but_place(*old(self)),
    {
        self.curr_idx = 0;
    }

    /// Puts the cursor on a (line, column) pair.
    pub fn set_pos(&mut self, pos: (usize, usize))
        ensures
            final(self).place() == (Place { line: pos.0, idx: pos.1, scroll: old(self).scroll }),
            final(self).same_but_place(*old(self)),
    {
        self.curr_line = pos.0;
        self.curr_idx = pos.1;
    }
}

/// The place after the Left key.
pub open spec fn left_place(p: Place) -> Place {
    if p.idx > 0 {
        Place { idx: (p.idx - 1) as usize, ..p }
    } else {
        p
    }
}

/// The place after the Right key.
pub open spec fn right_place(p: Place, text: Seq<Seq<u16>>) -> Place {
    if p.idx < text[p.line as int].len() {
        Place { idx: (p.idx + 1) as usize, ..p }
    } else {
        p
    }
}

/// The place after the End key.
pub open spec fn end_place(p: Place, text: Seq<Seq<u16>>) -> Place {
    Place { idx: text[p.line as int].len() as usize, ..p }
}

/// `idx`, or `len` where `idx` is larger.
pub open spec fn clamped(idx: usize, len: nat) -> int {
    if idx > len {
        len as int
    } else {
        idx as int
    }
}

/// The text after `piece` was inserted at column `idx` of line `line`. A text
/// without lines counts as one empty line.
pub open spec fn pushed_text(text: Seq<Seq<u16>>, line: int, idx: int, piece: Seq<u16>) -> Seq<
    Seq<u16>,
> {
    let base = if text.len() == 0 {
        seq![Seq::<u16>::empty()]
    } else {
        text
    };
    base.update(line, spliced(base[line], idx, idx, piece))
}

/// The text after line `line` was split at column `idx` in two lines.
pub open spec fn split_text(text: Seq<Seq<u16>>, line: int, idx: int) -> Seq<Seq<u16>> {
    text.update(line, text[line].subrange(0, idx)).insert(
        line + 1,
        text[line].subrange(idx, text[line].len() as int),
    )
}

/// The text after line `line` was appended to the line above it.
pub open spec fn joined_text(text: Seq<Seq<u16>>, line: int) -> Seq<Seq<u16>> {
    text.update(line - 1, text[line - 1] + text[line]).remove(line)
}

/// The text after the character that starts at column `at` of line `line`
/// was taken out: one unit, or two where it is a surrogate pair.
pub open spec fn erased_text(text: Seq<Seq<u16>>, line: int, at: int) -> Seq<Seq<u16>> {
    text.update(
        line,
        spliced(text[line], at, at + unit_width(text[line][at]), Seq::<u16>::empty()),
    )
}

/// The notice that a search has selected match number `index`.
pub open spec fn search_notice(pattern: Seq<char>, index: nat) -> Seq<char> {
    "Search for String \""@ + pattern + "\" at Index "@ + decimal_chars(index)
}

/// The notice that a search has found nothing.
pub open spec fn not_found_notice(pattern: Seq<char>) -> Seq<char> {
    "Can't Find String \""@ + pattern + "\""@
}

/// The notice that a match was replaced.
pub open spec fn replace_notice(pattern: Seq<char>, index: nat, with: Seq<char>) -> Seq<char> {
    "Replace String \""@ + pattern + "\" at Index "@ + decimal_chars(index) + " with \""@ + with
        + "\""@
}

/// The notice that the search is over.
pub open spec fn normal_notice() -> Seq<char> {
    "Return to Normal Mode"@
}

/// The notice that a buffer is being saved.
pub open spec fn saved_notice(name: Seq<char>) -> Seq<char> {
    "File \""@ + name + "\" Saved"@
}

/// The notice that another buffer is shown.
pub open spec fn changed_notice(id: nat) -> Seq<char> {
    "Change to File No."@ + decimal_chars(id)
}

fn search_msg(pattern: &str, index: usize) -> (msg: String)
    ensures
        msg@ == search_notice(pattern@, index as nat),
{
    let mut msg = String::from_str("Search for String \"");
    msg.append(pattern);
    msg.append("\" at Index ");
    push_decimal(&mut msg, index as u64);
    msg
}

fn not_found_msg(pattern: &str) -> (msg: String)
    ensures
        msg@ == not_found_notice(pattern@),
{
    let mut msg = String::from_str("Can't Find String \"");
    msg.append(pattern);
    msg.append("\"");
    msg
}

fn replace_msg(pattern: &str, index: usize, with: &str) -> (msg: String)
    ensures
        msg@ == replace_notice(pattern@, index as nat, with@),
{
    let mut msg = String::from_str("Replace String \"");
    msg.append(pattern);
    msg.append("\" at Index ");
    push_decimal(&mut msg, index as u64);
    msg.append(" with \"");
    msg.append(with);
    msg.append("\"");
    msg
}

/// The notice that a buffer was saved under `name`.
pub fn saved_msg(name: &str) -> (msg: String)
    ensures
        msg@ == saved_notice(name@),
{
    let mut msg = String::from_str("File \"");
    msg.append(name);
    msg.append("\" Saved");
    msg
}

fn changed_msg(id: usize) -> (msg: String)
    ensures
        msg@ == changed_notice(id as nat),
{
    let mut msg = String::from_str("Change to File No.");
    push_decimal(&mut msg, id as u64);
    msg
}

/// The text after a key of normal mode.
pub open spec fn normal_text(key: Key, text: Seq<Seq<u16>>, p: Place) -> Seq<Seq<u16>> {
    match key {
        Key::Char(c) => if c == '\r' {
            split_text(text, p.line as int, p.idx as int)
        } else if c == '\t' {
            pushed_text(text, p.line as int, p.idx as int, tab_units())
        } else {
            pushed_text(text, p.line as int, p.idx as int, encode_char(c))
        },
        Key::Delete => backspace_text(text, p),
        _ => text,
    }
}

/// The place after a key of normal mode that moves or edits within the text.
pub open spec fn normal_place(
    key: Key,
    text: Seq<Seq<u16>>,
    p: Place,
    width: int,
    height: int,
) -> Place {
    match key {
        Key::Char(c) => if c == '\r' {
            enter_place(p, split_text(text, p.line as int, p.idx as int), width, height)
        } else if c == '\t' {
            Place { idx: (p.idx + 4) as usize, ..p }
        } else {
            Place { idx: (p.idx + 1) as usize, ..p }
        },
        Key::Delete => backspace_place(p, text, width),
        Key::Up => up_place(p, text, width),
        Key::Down => down_place(p, text, width, height),
        Key::Left => left_place(p),
        Key::Right => right_place(p, text),
        Key::Home => Place { idx: 0, ..p },
        Key::End => end_place(p, text),
        Key::PageUp => up_n(p, text, width, PAGE_LINES as nat),
        Key::PageDown => down_n(p, text, width, height, PAGE_LINES as nat),
        _ => p,
    }
}

/// The index of the match before `idx` among `count` matches, the last
/// before the first.
pub open spec fn prev_match(idx: usize, count: int) -> int {
    if idx < 1 {
        count - 1
    } else {
        (idx - 1) % count
    }
}

/// The index of the match after `idx` among `count` matches, the first after
/// the last.
pub open spec fn next_match(idx: usize, count: int) -> int {
    (idx + 1) % count
}

/// The text after the units from column `idx` on, as many as the pattern
/// has, were replaced in line `line`.
pub open spec fn replaced_text(
    text: Seq<Seq<u16>>,
    line: int,
    idx: int,
    pattern: Seq<u16>,
    with: Seq<u16>,
) -> Seq<Seq<u16>> {
    text.update(line, replaced_line(text[line], idx, pattern, with))
}

impl MainView {
    /// The matches of the last search.
    pub open spec fn found(&self) -> Seq<(int, int)> {
        places(self.search_stack@)
    }

    /// The characters of the search pattern.
    pub open spec fn pattern_chars(&self) -> Seq<char> {
        decode_utf16(units(self.search_str))
    }

    /// Whether `self` is `other` but for the place and the search state.
    pub open spec fn same_look(&self, other: MainView) -> bool {
        &&& self.panel == other.panel
        &&& self.lnum_clr == other.lnum_clr
        &&& self.lnum_sclr == other.lnum_sclr
    }

    /// Looks for `pattern` in the text. With at least one match the viewport
    /// goes into search mode and the cursor to the first match; without one
    /// only the pattern is kept.
    pub fn search(&mut self, content: &Vec<Utf16String>, pattern: Utf16String) -> (hit: bool)
        requires
            units(pattern).len() > 0,
        ensures
            final(self).search_str == pattern,
            final(self).same_look(*old(self)),
            hit == (text_matches(text_of(content@), units(pattern), content@.len() as int).len()
                > 0),
            hit ==> {
                &&& final(self).mode == Mode::Search
                &&& final(self).found() == text_matches(
                    text_of(content@),
                    units(pattern),
                    content@.len() as int,
                )
                &&& final(self).search_idx == 0
                &&& final(self).curr_line == final(self).found()[0].0
                &&& final(self).curr_idx == final(self).found()[0].1
                &&& final(self).scroll == old(self).scroll
            },
            !hit ==> {
                &&& final(self).mode == old(self).mode
                &&& final(self).search_stack == old(self).search_stack
                &&& final(self).search_idx == old(self).search_idx
                &&& final(self).place() == old(self).place()
            },
    {
        let match_str = find_matches(content, &pattern);
        self.search_str = pattern;
        if match_str.len() > 0 {
            self.search_stack = match_str;
            self.mode = Mode::Search;
            self.search_idx = 0;
            let first = self.search_stack[0];
            self.set_pos(first);
            true
        } else {
            false
        }
    }

    /// Selects the match before the selected one and puts the cursor on it.
    pub fn select_prev(&mut self)
        requires
            old(self).search_stack@.len() > 0,
        ensures
            final(self).search_idx == prev_match(
                old(self).search_idx,
                old(self).search_stack@.len() as int,
            ),
            final(self).on_match(*old(self)),
    {
        let len = self.search_stack.len();
        if self.search_idx < 1 {
            self.search_idx = len - 1;
        } else {
            self.search_idx = (self.search_idx - 1) % len;
        }
        let at = self.search_stack[self.search_idx];
        self.set_pos(at);
    }

    /// Selects the match after the selected one and puts the cursor on it.
    pub fn select_next(&mut self)
        requires
            old(self).search_stack@.len() > 0,
        ensures
            final(self).search_idx == next_match(
                old(self).search_idx,
                old(self).search_stack@.len() as int,
            ),
            final(self).on_match(*old(self)),
    {
        let len = self.search_stack.len();
        let here = self.search_idx % len;
        proof {
            vstd::arithmetic::div_mod::lemma_add_mod_noop(
                self.search_idx as int,
                1,
                len as int,
            );
            if len > 1 {
                vstd::arithmetic::div_mod::lemma_small_mod(1, len as nat);
                if here + 1 < len {
                    vstd::arithmetic::div_mod::lemma_small_mod((here + 1) as nat, len as nat);
                } else {
                    vstd::arithmetic::div_mod::lemma_mod_self_0(len as int);
                }
            } else {
                vstd::arithmetic::div_mod::lemma_mod_self_0(1);
                vstd::arithmetic::div_mod::lemma_small_mod(0, 1);
            }
        }
        self.search_idx = if here + 1 == len {
            0
        } else {
            here + 1
        };
        let at = self.search_stack[self.search_idx];
        self.set_pos(at);
    }

    /// Whether the cursor stands on the selected match and nothing else has
    /// changed against `before` but the selection.
    pub open spec fn on_match(&self, before: MainView) -> bool {
        &&& self.search_idx < self.search_stack@.len()
        &&& self.curr_line == self.search_stack@[self.search_idx as int].0
        &&& self.curr_idx == self.search_stack@[self.search_idx as int].1
        &&& self.scroll == before.scroll
        &&& self.mode == before.mode
        &&& self.search_stack == before.search_stack
        &&& self.search_str == before.search_str
        &&& self.same_look(before)
    }

    /// Puts the cursor on the match with the given index; the selection stays.
    pub fn jump(&mut self, index: usize)
        requires
            index < old(self).search_stack@.len(),
        ensures
            final(self).curr_line == old(self).search_stack@[index as int].0,
            final(self).curr_idx == old(self).search_stack@[index as int].1,
            final(self).scroll == old(self).scroll,
            final(self).same_but_place(*old(self)),
    {
        let at = self.search_stack[index];
        self.set_pos(at);
    }

    /// Whether the units at the cursor, as many as the pattern has, can be
    /// replaced: they lie inside the cursor's line and between character
    /// boundaries.
    pub open spec fn can_replace(&self, text: Seq<Seq<u16>>) -> bool {
        &&& self.cursor_ok(text)
        &&& units(self.search_str).len() > 0
        &&& self.curr_idx + units(self.search_str).len() <= text[self.curr_line as int].len()
        &&& is_boundary(text[self.curr_line as int], self.curr_idx as int)
        &&& is_boundary(
            text[self.curr_line as int],
            self.curr_idx + units(self.search_str).len(),
        )
    }

    /// Whether `can_replace` holds, computed.
    pub fn check_replace(&self, content: &Vec<Utf16String>) -> (ok: bool)
        ensures
            ok == self.can_replace(text_of(content@)),
    {
        if !self.check_cursor(content) {
            return false;
        }
        let line = &content[self.curr_line];
        let len = line_len(line);
        let width = line_len(&self.search_str);
        width > 0 && width <= len - self.curr_idx && line_is_boundary(line, self.curr_idx)
            && line_is_boundary(line, self.curr_idx + width)
    }

    /// Puts `with` in place of the units at the cursor, as many as the
    /// pattern has, and searches the text again. Without a match left the
    /// viewport goes back to normal mode.
    pub fn replace(&mut self, content: &mut Vec<Utf16String>, with: &Utf16String)
        requires
            old(self).can_replace(text_of(old(content)@)),
        ensures
            text_of(final(content)@) == replaced_text(
                text_of(old(content)@),
                old(self).curr_line as int,
                old(self).curr_idx as int,
                units(old(self).search_str),
                units(*with),
            ),
            final(content)@.len() == old(content)@.len(),
            final(self).place() == old(self).place(),
            final(self).search_idx == old(self).search_idx,
            final(self).search_str == old(self).search_str,
            final(self).same_look(*old(self)),
            final(self).rescanned(*old(self), text_of(final(content)@)),
    {
        let start = self.curr_idx;
        let len = line_len(&content[self.curr_line]);
        assert(start + units(self.search_str).len() <= len);
        let end = start + line_len(&self.search_str);
        line_replace(&mut content[self.curr_line], start, end, with);
        let match_str = find_matches(content, &self.search_str);
        if match_str.len() > 0 {
            self.search_stack = match_str;
        } else {
            self.mode = Mode::Normal;
        }
    }

    /// Whether the search state is that of `before` after the text `text`
    /// was searched again: the new matches, or normal mode where there are
    /// none.
    pub open spec fn rescanned(&self, before: MainView, text: Seq<Seq<u16>>) -> bool {
        let again = text_matches(text, units(before.search_str), text.len() as int);
        if again.len() > 0 {
            self.found() == again && self.mode == before.mode
        } else {
            self.search_stack == before.search_stack && self.mode == Mode::Normal
        }
    }

    /// Whether the viewport can take `key` in normal mode: the panel has room
    /// on the terminal, the cursor stands inside the text, and where the key
    /// types or erases, the cursor stands where that can be done.
    pub open spec fn can_edit(
        &self,
        text: Seq<Seq<u16>>,
        term: Term,
        settings: Settings,
        key: Key,
    ) -> bool {
        &&& self.layout_ok(term, settings)
        &&& self.cursor_ok(text)
        &&& key is Char ==> self.can_type(text)
        &&& key is Delete ==> self.can_erase(text)
    }

    /// Whether `can_edit` holds, computed.
    pub fn check_edit(
        &self,
        content: &Vec<Utf16String>,
        term: &Term,
        settings: &Settings,
        key: &Key,
    ) -> (ok: bool)
        ensures
            ok == self.can_edit(text_of(content@), *term, *settings, *key),
    {
        if !self.check_layout(term, settings) || !self.check_cursor(content) {
            return false;
        }
        let line = &content[self.curr_line];
        match key {
            Key::Char(_) => line_is_boundary(line, self.curr_idx),
            Key::Delete => self.curr_idx == 0 || line_is_boundary(line, self.curr_idx - 1),
            _ => true,
        }
    }

    /// The keys of normal mode that move the cursor or change the text.
    pub fn edit_key(
        &mut self,
        content: &mut Vec<Utf16String>,
        term: &Term,
        settings: &Settings,
        key: &Key,
    )
        requires
            old(self).can_edit(text_of(old(content)@), *term, *settings, *key),
        ensures
            text_of(final(content)@)
                == normal_text(*key, text_of(old(content)@), old(self).place()),
            final(self).place() == normal_place(
                *key,
                text_of(old(content)@),
                old(self).place(),
                old(self).wrap_width(*term, *settings),
                old(self).page_height(*term),
            ),
            final(self).same_but_place(*old(self)),
            final(self).cursor_ok(text_of(final(content)@)),
    {
        let ghost text = text_of(content@);
        let ghost width = self.wrap_width(*term, *settings);
        let ghost height = self.page_height(*term);
        match key {
            Key::Char(c) => {
                if *c == '\r' {
                    self.push_line(content, term, settings);
                } else if *c == '\t' {
                    let tab = line_from_str("    ");
                    proof {
                        lemma_tab();
                    }
                    self.push_str(content, &tab);
                } else {
                    self.push(content, *c);
                }
            },
            Key::Delete => {
                self.delete(content, term, settings);
            },
            Key::Up => {
                self.up(content, term, settings);
            },
            Key::Down => {
                self.down(content, term, settings);
            },
            Key::Left => {
                self.left();
            },
            Key::Right => {
                self.right(content);
            },
            Key::Home => {
                self.home();
            },
            Key::End => {
                self.end(content);
            },
            Key::PageUp => {
                let mut n: usize = 0;
                while n < PAGE_LINES
                    invariant
                        n <= PAGE_LINES,
                        text == text_of(content@),
                        self.layout_ok(*term, *settings),
                        width == self.wrap_width(*term, *settings),
                        self.cursor_ok(text),
                        self.place() == up_n(old(self).place(), text, width, n as nat),
                        self.same_but_place(*old(self)),
                    decreases PAGE_LINES - n,
                {
                    self.up(content, term, settings);
                    n += 1;
                }
            },
            Key::PageDown => {
                let mut n: usize = 0;
                while n < PAGE_LINES
                    invariant
                        n <= PAGE_LINES,
                        text == text_of(content@),
                        self.layout_ok(*term, *settings),
                        width == self.wrap_width(*term, *settings),
                        height == self.page_height(*term),
                        self.cursor_ok(text),
                        self.place() == down_n(old(self).place(), text, width, height, n as nat),
                        self.same_but_place(*old(self)),
                    decreases PAGE_LINES - n,
                {
                    self.down(content, term, settings);
                    n += 1;
                }
            },
            _ => {},
        }
    }
}

/// What the host is asked for after a key of normal mode, in a buffer that
/// has a name or has none.
pub open spec fn normal_ask(key: Key, unnamed: bool) -> Ask {
    match key {
        Key::Ctrl(c) => if c == 'f' {
            Ask::Prompt(Prompt::Search)
        } else if c == 's' {
            if unnamed {
                Ask::Prompt(Prompt::SaveAs)
            } else {
                Ask::Save
            }
        } else {
            Ask::Nothing
        },
        Key::F(n) => if n == 8 {
            Ask::Prompt(Prompt::FileNumber)
        } else {
            Ask::Nothing
        },
        _ => Ask::Nothing,
    }
}

/// By how much a key moves the left edge of the viewport: Alt+Left by one
/// cell to the left, Alt+Right by one to the right.
pub open spec fn edge_move(key: Key) -> i16 {
    match key {
        Key::Other(bytes) => if bytes@ == alt_left_bytes() {
            -1i16
        } else if bytes@ == alt_right_bytes() {
            1i16
        } else {
            0i16
        },
        _ => 0i16,
    }
}

/// The operations that keep the neighbours in step when the viewport's left
/// edge moves by `by`: the file tree's right edge and the top bar's left edge
/// move along.
pub open spec fn edge_ops(by: i16) -> Seq<OpView> {
    if by == 0 {
        Seq::empty()
    } else {
        seq![
            OpView::Resize("FileTree"@, (0i16, 0i16, by, 0i16)),
            OpView::Resize("TopBar"@, (by, 0i16, 0i16, 0i16)),
        ]
    }
}

/// Whether the key switches to another buffer.
pub open spec fn switches(key: Key) -> bool {
    key matches Key::F(n) && (n == 6 || n == 7)
}

impl MainView {
    /// Moves the viewport's left edge by `by` and asks for its neighbours to
    /// follow.
    fn move_edge(&mut self, module: &mut Module, by: i16)
        requires
            by != 0,
        ensures
            final(self).panel == old(self).panel.resized(old(module).term, by, 0, 0, 0),
            final(self).lnum_clr == old(self).lnum_clr,
            final(self).lnum_sclr == old(self).lnum_sclr,
            final(self).same_state(*old(self)),
            final(module).ops() == old(module).ops() + edge_ops(by),
            final(module).term == old(module).term,
            final(module).file_mod == old(module).file_mod,
            final(module).settings == old(module).settings,
            final(module).curr_view == old(module).curr_view,
            final(module).message == old(module).message,
    {
        let term = module.term;
        self.panel.resize(&term, by, 0, 0, 0);
        module.push_op(Op::Resize(String::from_str("FileTree"), (0, 0, by, 0)));
        module.push_op(Op::Resize(String::from_str("TopBar"), (by, 0, 0, 0)));
    }

    /// Whether `self` and `after` are what one key of normal mode makes of
    /// `before` and `module`, with `ask` the request to the host.
    pub open spec fn normal_done(
        &self,
        before: MainView,
        module: Module,
        after: Module,
        key: Key,
        ask: Ask,
    ) -> bool {
        &&& ask == normal_ask(
                key,
                module.file_mod.buf(module.file_mod.curr_file).name@.len() == 0,
            )
        &&& after.term == module.term
        &&& after.settings == module.settings
        &&& after.curr_view == module.curr_view
        &&& after.file_mod.wf()
        &&& self.same_search(before)
        &&& self.lnum_clr == before.lnum_clr
        &&& self.lnum_sclr == before.lnum_sclr
        &&& self.panel == if edge_move(key) == 0 {
                before.panel
            } else {
                before.panel.resized(module.term, edge_move(key), 0, 0, 0)
            }
        &&& after.ops() == module.ops() + edge_ops(edge_move(key))
        &&& after.sent(
                module,
                "Menu"@,
                if ask is Save {
                    seq![
                        saved_notice(
                            module.file_mod.buf(module.file_mod.curr_file).name@,
                        ),
                    ]
                } else {
                    Seq::empty()
                },
            )
        &&& !switches(key) ==> {
                &&& after.file_mod.edited(module.file_mod)
                &&& after.file_mod.curr_text() == normal_text(
                    key,
                    module.file_mod.curr_text(),
                    before.place(),
                )
                &&& self.place() == normal_place(
                    key,
                    module.file_mod.curr_text(),
                    before.place(),
                    before.wrap_width(module.term, module.settings),
                    before.page_height(module.term),
                )
                &&& self.cursor_ok(after.file_mod.curr_text())
            }
        &&& switches(key) ==> {
                &&& after.file_mod.switched(
                    module.file_mod,
                    (if key == Key::F(6) {
                        next_id(
                            module.file_mod.curr_file,
                            module.file_mod.file_map@.len() as int,
                        )
                    } else {
                        prev_id(
                            module.file_mod.curr_file,
                            module.file_mod.file_map@.len() as int,
                        )
                    }) as usize,
                    (before.curr_idx, before.curr_line),
                    before.scroll,
                )
                &&& (self.curr_idx, self.curr_line, self.scroll)
                    == after.file_mod.buf(after.file_mod.curr_file).status()
            }
    }

    /// One key in normal mode.
    ///
    /// Characters are typed, Enter splits the line, Tab types four spaces,
    /// Delete erases backwards; the arrow keys, Home, End, PageUp and
    /// PageDown move the cursor. F6 and F7 leave the place with the current
    /// buffer and show the next or the previous one at the place left with
    /// it. Alt+Left and Alt+Right move the viewport's left edge. Ctrl+F, F8
    /// and Ctrl+S need the host: they return what to ask the user for, or
    /// that the buffer is to be written.
    pub fn normal_mode(&mut self, module: &mut Module, key: Key) -> (ask: Ask)
        requires
            old(module).file_mod.wf(),
            old(self).can_edit(
                old(module).file_mod.curr_text(),
                old(module).term,
                old(module).settings,
                key,
            ),
        ensures
            final(self).normal_done(*old(self), *old(module), *final(module), key, ask),
    {
        let term = module.term;
        let settings = module.settings;
        match &key {
            Key::Ctrl(c) => {
                if *c == 'f' {
                    return Ask::Prompt(Prompt::Search);
                }
                if *c == 's' {
                    if module.file_mod.name().as_str().is_empty() {
                        return Ask::Prompt(Prompt::SaveAs);
                    }
                    let msg = saved_msg(module.file_mod.name().as_str());
                    module.sendmsg(String::from_str("Menu"), msg);
                    proof {
                        let name = old(module).file_mod.buf(old(module).file_mod.curr_file).name@;
                        let inbox = old(module).inbox_text("Menu"@);
                        assert(inbox.push(saved_notice(name)) =~= inbox + seq![saved_notice(name)]);
                    }
                    return Ask::Save;
                }
                Ask::Nothing
            },
            Key::F(n) => {
                if *n == 6 {
                    let status = module.file_mod.shift(
                        (self.curr_idx, self.curr_line),
                        self.scroll,
                    );
                    self.sync(status);
                } else if *n == 7 {
                    let status = module.file_mod.rshift(
                        (self.curr_idx, self.curr_line),
                        self.scroll,
                    );
                    self.sync(status);
                } else if *n == 8 {
                    return Ask::Prompt(Prompt::FileNumber);
                }
                Ask::Nothing
            },
            Key::Other(bytes) => {
                if is_alt_left(bytes) {
                    self.move_edge(module, -1);
                } else if is_alt_right(bytes) {
                    self.move_edge(module, 1);
                }
                Ask::Nothing
            },
            _ => {
                let at = module.file_mod.curr_file - 1;
                self.edit_key(&mut module.file_mod.file_map[at].content, &term, &settings, &key);
                Ask::Nothing
            },
        }
    }
}

/// The match that a key of search mode puts the cursor on, if it moves it:
/// the one before or after the selected one, the first or the last.
pub open spec fn search_target(key: Key, idx: usize, count: int) -> Option<int> {
    match key {
        Key::Up | Key::PageUp | Key::Left => Some(prev_match(idx, count)),
        Key::Down | Key::PageDown | Key::Right => Some(next_match(idx, count)),
        Key::Home => Some(0),
        Key::End => Some(count - 1),
        _ => None,
    }
}

/// The selected match after a key of search mode. Home and End move the
/// cursor and leave the selection.
pub open spec fn search_index(key: Key, idx: usize, count: int) -> int {
    match key {
        Key::Up | Key::PageUp | Key::Left => prev_match(idx, count),
        Key::Down | Key::PageDown | Key::Right => next_match(idx, count),
        _ => idx as int,
    }
}

/// Whether the key leaves search mode: Enter.
pub open spec fn ends_search(key: Key) -> bool {
    key == Key::Char('\r')
}

/// Whether the key asks for a replacement: Ctrl+F.
pub open spec fn asks_replace(key: Key) -> bool {
    key == Key::Ctrl('f')
}

impl MainView {
    /// The search pattern as text.
    fn pattern_text(&self) -> (text: String)
        ensures
            text@ == self.pattern_chars(),
    {
        let text = line_to_string(&self.search_str);
        proof {
            lemma_encode_injective(text@, self.pattern_chars());
        }
        text
    }

    /// Whether `self` and `after` are what one key of search mode makes of
    /// `before` and `module`, with `ask` the request to the host.
    pub open spec fn search_done(
        &self,
        before: MainView,
        module: Module,
        after: Module,
        key: Key,
        ask: Ask,
    ) -> bool {
        &&& ask == if asks_replace(key) {
                Ask::Prompt(Prompt::Replace)
            } else {
                Ask::Nothing
            }
        &&& after.term == module.term
        &&& after.settings == module.settings
        &&& after.curr_view == module.curr_view
        &&& after.file_mod == module.file_mod
        &&& self.lnum_clr == before.lnum_clr
        &&& self.lnum_sclr == before.lnum_sclr
        &&& self.search_stack == before.search_stack
        &&& self.search_str == before.search_str
        &&& self.scroll == before.scroll
        &&& self.mode == if ends_search(key) {
                Mode::Normal
            } else {
                before.mode
            }
        &&& self.search_idx == search_index(
                key,
                before.search_idx,
                before.search_stack@.len() as int,
            )
        &&& match search_target(key, before.search_idx, before.search_stack@.len() as int) {
                Some(at) => 0 <= at < before.search_stack@.len()
                    && self.curr_line == before.search_stack@[at].0
                        && self.curr_idx == before.search_stack@[at].1,
                None => self.curr_line == before.curr_line && self.curr_idx == before.curr_idx,
            }
        &&& self.panel == if edge_move(key) == 0 {
                before.panel
            } else {
                before.panel.resized(module.term, edge_move(key), 0, 0, 0)
            }
        &&& after.ops() == module.ops() + edge_ops(edge_move(key))
        &&& after.sent(
                module,
                "Menu"@,
                if asks_replace(key) {
                    Seq::empty()
                } else if ends_search(key) {
                    seq![normal_notice()]
                } else {
                    seq![search_notice(before.pattern_chars(), self.search_idx as nat)]
                },
            )
    }

    /// One key in search mode.
    ///
    /// Up, Left and PageUp select the match before the selected one, Down,
    /// Right and PageDown the one after it, both going round; Home and End
    /// put the cursor on the first and the last match. Enter goes back to
    /// normal mode. Ctrl+F asks the host for a replacement. Alt+Left and
    /// Alt+Right move the viewport's left edge. But for Enter and Ctrl+F, the
    /// command bar is told which match is selected.
    pub fn search_mode(&mut self, module: &mut Module, key: Key) -> (ask: Ask)
        requires
            old(self).search_stack@.len() > 0,
        ensures
            final(self).search_done(*old(self), *old(module), *final(module), key, ask),
    {
        let ghost inbox = old(module).inbox_text("Menu"@);
        proof {
            let count = old(self).search_stack@.len() as int;
            vstd::arithmetic::div_mod::lemma_mod_bound(old(self).search_idx + 1, count);
            if old(self).search_idx >= 1 {
                vstd::arithmetic::div_mod::lemma_mod_bound(old(self).search_idx - 1, count);
            }
        }
        match &key {
            Key::Ctrl(c) => {
                if *c == 'f' {
                    return Ask::Prompt(Prompt::Replace);
                }
            },
            Key::Char(c) => {
                if *c == '\r' {
                    self.mode = Mode::Normal;
                    module.sendmsg(
                        String::from_str("Menu"),
                        String::from_str("Return to Normal Mode"),
                    );
                    assert(inbox.push(normal_notice()) =~= inbox + seq![normal_notice()]);
                    return Ask::Nothing;
                }
            },
            Key::Up | Key::PageUp | Key::Left => {
                self.select_prev();
            },
            Key::Down | Key::PageDown | Key::Right => {
                self.select_next();
            },
            Key::Home => {
                self.jump(0);
            },
            Key::End => {
                let last = self.search_stack.len() - 1;
                self.jump(last);
            },
            Key::Other(bytes) => {
                if is_alt_left(bytes) {
                    self.move_edge(module, -1);
                } else if is_alt_right(bytes) {
                    self.move_edge(module, 1);
                }
            },
            _ => {},
        }
        let pattern = self.pattern_text();
        let msg = search_msg(pattern.as_str(), self.search_idx);
        module.sendmsg(String::from_str("Menu"), msg);
        proof {
            let notice = search_notice(old(self).pattern_chars(), self.search_idx as nat);
            assert(inbox.push(notice) =~= inbox + seq![notice]);
        }
        Ask::Nothing
    }

    /// Whether the viewport can take `key`: in search mode there are matches;
    /// in normal mode the store is well formed and the key can be carried out.
    pub open spec fn can_take(&self, module: Module, key: Key) -> bool {
        &&& self.mode == Mode::Search ==> self.search_stack@.len() > 0
        &&& self.mode == Mode::Normal ==> module.file_mod.wf() && self.can_edit(
            module.file_mod.curr_text(),
            module.term,
            module.settings,
            key,
        )
    }

    /// Whether `can_take` holds, computed.
    pub fn check_take(&self, module: &Module, key: &Key) -> (ok: bool)
        ensures
            ok == self.can_take(*module, *key),
    {
        match self.mode {
            Mode::Search => self.search_stack.len() > 0,
            Mode::Normal => module.file_mod.check_wf() && self.check_edit(
                module.file_mod.get_content(),
                &module.term,
                &module.settings,
                key,
            ),
        }
    }

    /// Whether `self` and `after` are what one key makes of `before` and
    /// `module`, in the mode that `before` is in.
    pub open spec fn took(
        &self,
        before: MainView,
        module: Module,
        after: Module,
        key: Key,
        ask: Ask,
    ) -> bool {
        match before.mode {
            Mode::Normal => self.normal_done(before, module, after, key, ask),
            Mode::Search => self.search_done(before, module, after, key, ask),
        }
    }

    /// One key, in the mode that the viewport is in.
    pub fn matchar(&mut self, module: &mut Module, key: Key) -> (ask: Ask)
        requires
            old(self).can_take(*old(module), key),
        ensures
            final(self).took(*old(self), *old(module), *final(module), key, ask),
    {
        match self.mode {
            Mode::Normal => self.normal_mode(module, key),
            Mode::Search => self.search_mode(module, key),
        }
    }

    /// Whether the viewport can take the answer to a prompt: the store is
    /// well formed, and where a match is to be replaced, the units at the
    /// cursor can be replaced.
    pub open spec fn can_answer(&self, module: Module, prompt: Prompt, text: Seq<char>) -> bool {
        &&& module.file_mod.wf()
        &&& prompt == Prompt::Replace && text.len() > 0 ==> self.can_replace(
            module.file_mod.curr_text(),
        )
    }

    /// Whether `can_answer` holds, computed.
    pub fn check_answer(&self, module: &Module, prompt: Prompt, text: &str) -> (ok: bool)
        ensures
            ok == self.can_answer(*module, prompt, text@),
    {
        if !module.file_mod.check_wf() {
            return false;
        }
        match prompt {
            Prompt::Replace => text.is_empty() || self.check_replace(module.file_mod.get_content()),
            _ => true,
        }
    }

    /// Takes what the user typed into the modal dialog.
    ///
    /// A pattern is searched for, and the command bar is told the outcome; an
    /// empty one changes nothing. A replacement takes the place of the
    /// selected match; an empty one ends the search, and the viewport goes
    /// back to normal mode. A name is given to the current buffer, which is
    /// then to be written; an empty one changes nothing. A number that is
    /// the identifier of a buffer makes that buffer current; anything else
    /// changes nothing.
    pub fn answer(&mut self, module: &mut Module, prompt: Prompt, text: String) -> (ask: Ask)
        requires
            old(self).can_answer(*old(module), prompt, text@),
        ensures
            ask == if prompt == Prompt::SaveAs && text@.len() > 0 {
                Ask::Save
            } else {
                Ask::Nothing
            },
            final(module).term == old(module).term,
            final(module).settings == old(module).settings,
            final(module).curr_view == old(module).curr_view,
            final(module).operation == old(module).operation,
            final(module).file_mod.wf(),
            final(self).same_look(*old(self)),
            prompt == Prompt::Search && text@.len() > 0 ==> {
                let found = text_matches(
                    old(module).file_mod.curr_text(),
                    encode_utf16(text@),
                    old(module).file_mod.curr_text().len() as int,
                );
                &&& final(module).file_mod == old(module).file_mod
                &&& units(final(self).search_str) == encode_utf16(text@)
                &&& found.len() > 0 ==> {
                    &&& final(self).mode == Mode::Search
                    &&& final(self).found() == found
                    &&& final(self).search_idx == 0
                    &&& final(self).curr_line == found[0].0
                    &&& final(self).curr_idx == found[0].1
                    &&& final(self).scroll == old(self).scroll
                    &&& final(module).sent(*old(module), "Menu"@, seq![search_notice(text@, 0)])
                }
                &&& found.len() == 0 ==> {
                    &&& final(self).same_state_but_pattern(*old(self))
                    &&& final(module).sent(*old(module), "Menu"@, seq![not_found_notice(text@)])
                }
            },
            prompt == Prompt::Replace && text@.len() > 0 ==> {
                &&& final(module).file_mod.edited(old(module).file_mod)
                &&& final(module).file_mod.curr_text() == replaced_text(
                    old(module).file_mod.curr_text(),
                    old(self).curr_line as int,
                    old(self).curr_idx as int,
                    units(old(self).search_str),
                    encode_utf16(text@),
                )
                &&& final(self).place() == old(self).place()
                &&& final(self).search_idx == old(self).search_idx
                &&& final(self).search_str == old(self).search_str
                &&& final(self).rescanned(*old(self), final(module).file_mod.curr_text())
                &&& final(module).sent(
                    *old(module),
                    "Menu"@,
                    seq![
                        replace_notice(
                            old(self).pattern_chars(),
                            old(self).search_idx as nat,
                            text@,
                        ),
                    ],
                )
            },
            prompt == Prompt::Replace && text@.len() == 0 ==> {
                &&& final(module).file_mod == old(module).file_mod
                &&& final(self).mode == Mode::Normal
                &&& final(self).same_state_but_mode(*old(self))
                &&& final(module).sent(*old(module), "Menu"@, seq![normal_notice()])
            },
            prompt == Prompt::SaveAs && text@.len() > 0 ==> {
                &&& final(self).same_state(*old(self))
                &&& final(module).file_mod.buf(old(module).file_mod.curr_file).name@ == text@
                &&& final(module).file_mod.buf(old(module).file_mod.curr_file).same_but_name(
                    old(module).file_mod.buf(old(module).file_mod.curr_file),
                )
                &&& final(module).file_mod.curr_file == old(module).file_mod.curr_file
                &&& final(module).file_mod.file_map@.len() == old(module).file_mod.file_map@.len()
                &&& final(module).sent(*old(module), "Menu"@, seq![saved_notice(text@)])
            },
            prompt == Prompt::FileNumber ==> match buffer_number(
                text@,
                old(module).file_mod.file_map@.len(),
            ) {
                Some(id) => {
                    &&& final(module).file_mod.switched(
                        old(module).file_mod,
                        id,
                        (old(self).curr_idx, old(self).curr_line),
                        old(self).scroll,
                    )
                    &&& (final(self).curr_idx, final(self).curr_line, final(self).scroll)
                        == final(module).file_mod.buf(id).status()
                    &&& final(self).same_search(*old(self))
                    &&& final(module).sent(*old(module), "Menu"@, seq![changed_notice(id as nat)])
                },
                None => {
                    &&& final(module).file_mod == old(module).file_mod
                    &&& final(self).same_state(*old(self))
                    &&& final(module).message == old(module).message
                },
            },
            (prompt == Prompt::Search || prompt == Prompt::SaveAs) && text@.len() == 0 || prompt
                == Prompt::SaveAll || prompt == Prompt::Quit ==> {
                &&& final(module).file_mod == old(module).file_mod
                &&& final(self).same_state(*old(self))
                &&& final(module).message == old(module).message
            },
    {
        let ghost inbox = old(module).inbox_text("Menu"@);
        match prompt {
            Prompt::Search => {
                if !text.as_str().is_empty() {
                    let pattern = line_from_str(text.as_str());
                    proof {
                        crate::lines::lemma_encode_len(text@);
                    }
                    let at = module.file_mod.curr_file - 1;
                    let hit = self.search(&module.file_mod.file_map[at].content, pattern);
                    if hit {
                        let msg = search_msg(text.as_str(), 0);
                        module.sendmsg(String::from_str("Menu"), msg);
                        assert(inbox.push(search_notice(text@, 0)) =~= inbox + seq![
                            search_notice(text@, 0),
                        ]);
                    } else {
                        let msg = not_found_msg(text.as_str());
                        module.sendmsg(String::from_str("Menu"), msg);
                        assert(inbox.push(not_found_notice(text@)) =~= inbox + seq![
                            not_found_notice(text@),
                        ]);
                    }
                }
                Ask::Nothing
            },
            Prompt::Replace => {
                if !text.as_str().is_empty() {
                    let pattern = self.pattern_text();
                    let with = line_from_str(text.as_str());
                    let at = module.file_mod.curr_file - 1;
                    self.replace(&mut module.file_mod.file_map[at].content, &with);
                    let msg = replace_msg(pattern.as_str(), self.search_idx, text.as_str());
                    module.sendmsg(String::from_str("Menu"), msg);
                    proof {
                        let notice = replace_notice(
                            old(self).pattern_chars(),
                            old(self).search_idx as nat,
                            text@,
                        );
                        assert(inbox.push(notice) =~= inbox + seq![notice]);
                    }
                } else {
                    self.mode = Mode::Normal;
                    module.sendmsg(
                        String::from_str("Menu"),
                        String::from_str("Return to Normal Mode"),
                    );
                    assert(inbox.push(normal_notice()) =~= inbox + seq![normal_notice()]);
                }
                Ask::Nothing
            },
            Prompt::SaveAs => {
                if !text.as_str().is_empty() {
                    let msg = saved_msg(text.as_str());
                    module.sendmsg(String::from_str("Menu"), msg);
                    assert(inbox.push(saved_notice(text@)) =~= inbox + seq![saved_notice(text@)]);
                    module.file_mod.set_name(text);
                    Ask::Save
                } else {
                    Ask::Nothing
                }
            },
            Prompt::FileNumber => {
                match parse_number(text.as_str()) {
                    Some(file_id) => {
                        if file_id != 0 && file_id <= module.file_mod.file_map.len() {
                            let msg = changed_msg(file_id);
                            module.sendmsg(String::from_str("Menu"), msg);
                            assert(inbox.push(changed_notice(file_id as nat)) =~= inbox + seq![
                                changed_notice(file_id as nat),
                            ]);
                            let status = module.file_mod.shift_to(
                                file_id,
                                (self.curr_idx, self.curr_line),
                                self.scroll,
                            );
                            self.sync(status);
                        }
                    },
                    None => {},
                }
                Ask::Nothing
            },
            _ => Ask::Nothing,
        }
    }

    /// Whether `self` is `other` but for the mode.
    pub open spec fn same_state_but_mode(&self, other: MainView) -> bool {
        &&& self.curr_line == other.curr_line
        &&& self.curr_idx == other.curr_idx
        &&& self.scroll == other.scroll
        &&& self.search_stack == other.search_stack
        &&& self.search_str == other.search_str
        &&& self.search_idx == other.search_idx
    }

    /// Whether `self` is `other` but for the search pattern.
    pub open spec fn same_state_but_pattern(&self, other: MainView) -> bool {
        &&& self.curr_line == other.curr_line
        &&& self.curr_idx == other.curr_idx
        &&& self.scroll == other.scroll
        &&& self.mode == other.mode
        &&& self.search_stack == other.search_stack
        &&& self.search_idx == other.search_idx
    }

    /// Whether `self` and `after` are what the update pass makes of `before`
    /// and `module`.
    pub open spec fn updated(&self, before: MainView, module: Module, after: Module) -> bool {
        &&& after.term == module.term
        &&& after.settings == module.settings
        &&& after.curr_view == module.curr_view
        &&& after.operation == module.operation
        &&& after.file_mod.wf()
        &&& self.same_but_place(before)
        &&& forall|other: Seq<char>|
                other != before.panel.name@ && other != "Menu"@ ==> after.inbox(other)
                    == module.inbox(other)
        &&& before.mode == Mode::Search || module.inbox(before.panel.name@).len() == 0
                ==> {
                &&& after.file_mod == module.file_mod
                &&& self.place() == before.place()
                &&& after.inbox(before.panel.name@) == module.inbox(
                    before.panel.name@,
                )
                &&& after.inbox("Menu"@) == module.inbox("Menu"@)
            }
        &&& before.mode == Mode::Normal && module.inbox(before.panel.name@).len() > 0
                ==> {
                &&& after.inbox(before.panel.name@) == module.inbox(
                    before.panel.name@,
                ).drop_first()
                &&& match buffer_number(
                    module.inbox(before.panel.name@)[0]@,
                    module.file_mod.file_map@.len(),
                ) {
                    Some(id) => {
                        &&& after.file_mod.switched(
                            module.file_mod,
                            id,
                            (before.curr_idx, before.curr_line),
                            before.scroll,
                        )
                        &&& (self.curr_idx, self.curr_line, self.scroll)
                            == after.file_mod.buf(id).status()
                        &&& after.inbox_text("Menu"@) == module.inbox_text(
                            "Menu"@,
                        ).push(changed_notice(id as nat))
                    },
                    None => {
                        &&& after.file_mod == module.file_mod
                        &&& self.place() == before.place()
                        &&& after.inbox("Menu"@) == module.inbox("Menu"@)
                    },
                }
            }
    }

    /// Once per cycle. In normal mode the viewport takes one message from its
    /// mailbox: the identifier of a buffer that the file tree has opened. It
    /// makes that buffer current and tells the command bar. A message that
    /// is no identifier of a buffer is dropped.
    pub fn update(&mut self, module: &mut Module)
        requires
            old(module).file_mod.wf(),
            old(self).panel.name@ != "Menu"@,
        ensures
            final(self).updated(*old(self), *old(module), *final(module)),
    {
        match self.mode {
            Mode::Search => {},
            Mode::Normal => {
                let received = module.recvmsg(&self.panel.name);
                match received {
                    Some(msg) => {
                        match parse_number(msg.as_str()) {
                            Some(id) => {
                                if id != 0 && id <= module.file_mod.file_map.len() {
                                    module.sendmsg(String::from_str("Menu"), changed_msg(id));
                                    let status = module.file_mod.shift_to(
                                        id,
                                        (self.curr_idx, self.curr_line),
                                        self.scroll,
                                    );
                                    self.sync(status);
                                }
                            },
                            None => {},
                        }
                    },
                    None => {},
                }
            },
        }
    }
}

/// The identifier that a text names among `count` buffers, if it names one.
pub open spec fn buffer_number(text: Seq<char>, count: nat) -> Option<usize> {
    match number_of(text) {
        Some(n) => if 1 <= n <= count && n <= usize::MAX {
            Some(n as usize)
        } else {
            None
        },
        None => None,
    }
}

/// One row of the viewport as it is to be painted.
pub struct Row {
    /// The number of the logical line, counted from 1.
    pub number: usize,
    /// Which of the line's rows this is; the first one, 0, carries the
    /// line number.
    pub part: usize,
    pub text: Vec<u16>,
    /// Whether the cursor is on this row's line.
    pub current: bool,
}

impl View for Row {
    type V = RowView;

    open spec fn view(&self) -> RowView {
        RowView { line: self.number - 1, part: self.part as int, text: self.text@ }
    }
}

/// Rows read as their views.
pub open spec fn rows_view(rows: Seq<Row>) -> Seq<RowView> {
    Seq::new(rows.len(), |i: int| rows[i]@)
}

/// The rows that a viewport `limit` rows high shows of a text from line
/// `scroll` on, `width` units per row.
pub open spec fn shown_rows(
    text: Seq<Seq<u16>>,
    scroll: int,
    width: int,
    limit: int,
) -> Seq<RowView> {
    let all = page_rows(text, scroll, text.len() as int, width);
    if all.len() <= limit {
        all
    } else {
        all.take(limit)
    }
}

impl MainView {
    /// The number of rows that are painted at most: the height of the
    /// viewport, and one row where the height is zero.
    pub open spec fn row_limit(&self, term: Term) -> int {
        if self.page_height(term) < 1 {
            1
        } else {
            self.page_height(term)
        }
    }

    /// Painting and cursor placement agree. With the cursor on a unit of a
    /// line that is shown, the row at which [`MainView::set_cursor`] puts the
    /// terminal's cursor is, where [`MainView::draw`] paints that many rows,
    /// the row on which it paints that unit, and the column is the unit's
    /// place in the row.
    pub proof fn lemma_draw_agrees(&self, text: Seq<Seq<u16>>, term: Term, settings: Settings)
        requires
            self.layout_ok(term, settings),
            self.scroll <= self.curr_line < text.len(),
            self.curr_idx < text[self.curr_line as int].len(),
            self.row(text, term, settings) < self.row_limit(term),
        ensures
            ({
                let width = self.wrap_width(term, settings);
                let rows = shown_rows(text, self.scroll as int, width, self.row_limit(term));
                let at = self.row(text, term, settings);
                &&& 0 <= at < rows.len()
                &&& rows[at].line == self.curr_line
                &&& rows[at].part == self.curr_idx as int / width
                &&& 0 <= cursor_col(self.curr_idx as int, width) < rows[at].text.len()
                &&& rows[at].text[cursor_col(self.curr_idx as int, width)]
                    == text[self.curr_line as int][self.curr_idx as int]
            }),
    {
        crate::wrap::lemma_cursor_on_painted_row(
            text,
            self.scroll as int,
            self.curr_line as int,
            self.curr_idx as int,
            self.wrap_width(term, settings),
        );
    }

    /// The rows to paint: the lines from the scroll offset on, cut into rows
    /// of the wrap width, as many as the viewport has room for. Each row says
    /// which line it belongs to and whether that is the cursor's line.
    pub fn draw(
        &self,
        content: &Vec<Utf16String>,
        term: &Term,
        settings: &Settings,
    ) -> (rows: Vec<Row>)
        requires
            self.layout_ok(*term, *settings),
        ensures
            rows_view(rows@) == shown_rows(
                text_of(content@),
                self.scroll as int,
                self.wrap_width(*term, *settings),
                self.row_limit(*term),
            ),
            forall|i: int|
                0 <= i < rows@.len() ==> (#[trigger] rows@[i]).current == (rows@[i].number
                    == self.curr_line + 1) && rows@[i].number >= 1,
    {
        let max_line = self.get_vpos_max(term, settings);
        let height = self.get_height(term);
        let max_height = if height < 1 {
            1
        } else {
            height
        };
        let ghost text = text_of(content@);
        let ghost width = max_line as int;
        let lines = content.len();
        let ghost count = content@.len() as int;
        let ghost start = self.scroll as int;
        let mut rows: Vec<Row> = Vec::new();
        let mut i: usize = self.scroll;
        while i < content.len()
            invariant
                max_line > 0,
                width == max_line,
                width == self.wrap_width(*term, *settings),
                max_height >= 1,
                max_height == self.row_limit(*term),
                text == text_of(content@),
                count == content@.len(),
                count == lines,
                start == self.scroll,
                start <= i,
                i <= count || i == start,
                rows@.len() < max_height,
                rows_view(rows@) == page_rows(text, start, i as int, width),
                forall|j: int|
                    0 <= j < rows@.len() ==> (#[trigger] rows@[j]).current == (rows@[j].number
                        == self.curr_line + 1) && rows@[j].number >= 1,
            decreases count - i,
        {
            let units = line_units(&content[i]);
            let parts = visual_rows(units.len(), max_line);
            let ghost before = rows_view(rows@);
            let ghost own = line_rows(text[i as int], i as int, width);
            let mut k: usize = 0;
            proof {
                lemma_page_rows_split(text, start, i as int, i + 1, width);
                lemma_page_rows_split(text, start, i + 1, count, width);
                lemma_page_rows_one(text, i as int, width);
            }
            while k < parts
                invariant
                    max_line > 0,
                    width == max_line,
                    width == self.wrap_width(*term, *settings),
                    max_height >= 1,
                    max_height == self.row_limit(*term),
                    text == text_of(content@),
                    start == self.scroll,
                    i < count,
                    count == content@.len(),
                    count == lines,
                    count == text.len(),
                    units@ == text[i as int],
                    parts == rows_of(units@.len() as int, width),
                    own == line_rows(text[i as int], i as int, width),
                    own.len() == parts,
                    k <= parts,
                    before == page_rows(text, start, i as int, width),
                    page_rows(text, start, count, width) == before + own + page_rows(
                        text,
                        i + 1,
                        count,
                        width,
                    ),
                    rows@.len() < max_height,
                    rows_view(rows@) == before + own.take(k as int),
                    forall|j: int|
                        0 <= j < rows@.len() ==> (#[trigger] rows@[j]).current == (rows@[j].number
                            == self.curr_line + 1) && rows@[j].number >= 1,
                decreases parts - k,
            {
                let chunk = row_chunk(&units, k, max_line);
                let ghost prev = rows_view(rows@);
                rows.push(
                    Row { number: i + 1, part: k, text: chunk, current: i == self.curr_line },
                );
                k += 1;
                proof {
                    let now = rows_view(rows@);
                    assert(now =~= prev.push(own[k - 1]));
                }
                if rows.len() >= max_height {
                    return rows;
                }
            }
            i += 1;
        }
        rows
    }
}

/// Four spaces encode as four units with the value 32.
pub proof fn lemma_tab()
    ensures
        encode_utf16("    "@) == tab_units(),
{
    reveal_strlit("    ");
    reveal_with_fuel(encode_utf16, 6);
}

impl Position for MainView {
    open spec fn frame(&self) -> Panel {
        self.panel
    }

    fn get_name(&self) -> (name: &String) {
        &self.panel.name
    }

    fn get_start(&self, term: &Term) -> (cell: (u16, u16)) {
        self.panel.get_start(term)
    }

    fn get_end(&self, term: &Term) -> (cell: (u16, u16)) {
        self.panel.get_end(term)
    }

    fn resize(&mut self, term: &Term, dx_s: i16, dy_s: i16, dx_e: i16, dy_e: i16)
        ensures
            final(self).same_state(*old(self)),
            final(self).lnum_clr == old(self).lnum_clr,
            final(self).lnum_sclr == old(self).lnum_sclr,
    {
        self.panel.resize(term, dx_s, dy_s, dx_e, dy_e)
    }

    fn is_silent(&self) -> (b: bool) {
        self.panel.silent
    }

    fn is_lock(&self) -> (b: bool) {
        self.panel.lock
    }

    fn is_show(&self) -> (b: bool) {
        self.panel.show
    }
}

} // verus!
