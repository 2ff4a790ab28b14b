//! The modal dialog: a framed box with a title and one line of input.
//!
//! While the dialog is open its panel is locked. Enter closes it and keeps
//! what was typed; Esc closes it and drops what was typed.

use crate::attrs::{panel, scan, ViewAttr};
use crate::key::Key;
use crate::settings::Settings;
use crate::terminal::term::Term;
use crate::view::input::{edited_line, InputLine};
use crate::view::{Panel, Pos};
use vstd::prelude::*;
use vstd::string::{StrSliceExecFns, StringExecFns};

verus! {

/// The modal dialog.
pub struct MsgBox {
    pub panel: Panel,
    pub title: String,
    pub input: InputLine,
}

/// How far the dialog reaches to the left and to the right of the middle of
/// the screen, for a title of `title_len` characters.
pub open spec fn half_span(title_len: nat) -> int {
    (title_len / 2 + 10) as int
}

/// Whether `key` closes the dialog.
pub open spec fn closes(key: Key) -> bool {
    key is Esc || key == Key::Char('\r')
}

impl MsgBox {
    /// A closed dialog without title, one cell large.
    pub fn new() -> (msgbox: MsgBox)
        ensures
            msgbox.panel.name@ == "MsgBox"@,
            msgbox.panel.start == (Pos::Fixed(0), Pos::Fixed(0)),
            msgbox.panel.end == (Pos::Fixed(1), Pos::Fixed(1)),
            msgbox.panel.focusable(),
            !msgbox.panel.lock,
            msgbox.panel.fcolor == (crate::color::Color { r: 0xff, g: 0xff, b: 0xff }),
            msgbox.panel.bcolor == (crate::color::Color { r: 0, g: 0, b: 0 }),
            msgbox.title@.len() == 0,
            msgbox.input.wf(),
            msgbox.input@.chars.len() == 0,
            msgbox.input@.idx == 0,
    {
        let attrs = vec![ViewAttr::Start(1, 1), ViewAttr::End(2, 2)];
        proof {
            reveal_with_fuel(scan, 3);
        }
        MsgBox {
            panel: panel(String::from_str("MsgBox"), &attrs),
            title: String::new(),
            input: InputLine::new(),
        }
    }

    /// Whether `self` is `other` but for the corners.
    pub open spec fn same_but_corners(&self, other: MsgBox) -> bool {
        &&& self.panel.name == other.panel.name
        &&& self.panel.silent == other.panel.silent
        &&& self.panel.lock == other.panel.lock
        &&& self.panel.show == other.panel.show
        &&& self.panel.fcolor == other.panel.fcolor
        &&& self.panel.bcolor == other.panel.bcolor
        &&& self.title == other.title
        &&& self.input == other.input
    }

    /// Takes its colours from the theme.
    pub fn init(&mut self, settings: &Settings)
        ensures
            final(self).panel.fcolor == settings.theme.normal_fclr,
            final(self).panel.bcolor == settings.theme.normal_bclr,
            final(self).panel.name == old(self).panel.name,
            final(self).panel.start == old(self).panel.start,
            final(self).panel.end == old(self).panel.end,
            final(self).panel.silent == old(self).panel.silent,
            final(self).panel.lock == old(self).panel.lock,
            final(self).panel.show == old(self).panel.show,
            final(self).title == old(self).title,
            final(self).input == old(self).input,
    {
        self.panel.fcolor = settings.theme.normal_fclr;
        self.panel.bcolor = settings.theme.normal_bclr;
    }

    /// The number of characters that fit between the frame's two sides.
    pub open spec fn room(&self, term: Term) -> int {
        self.panel.end.0.resolved(term.width) - self.panel.start.0.resolved(term.width) - 2
    }

    /// One key. Esc drops what was typed and closes the dialog; Enter closes
    /// it; any other key edits the line, which holds no more characters
    /// than fit into the frame.
    pub fn matchar(&mut self, term: &Term, key: Key)
        requires
            old(self).panel.fits(*term),
            old(self).room(*term) >= 0,
            old(self).input.wf(),
        ensures
            final(self).input.wf(),
            final(self).title == old(self).title,
            final(self).panel.name == old(self).panel.name,
            final(self).panel.start == old(self).panel.start,
            final(self).panel.end == old(self).panel.end,
            final(self).panel.silent == old(self).panel.silent,
            final(self).panel.show == old(self).panel.show,
            final(self).panel.fcolor == old(self).panel.fcolor,
            final(self).panel.bcolor == old(self).panel.bcolor,
            final(self).panel.lock == (old(self).panel.lock && !closes(key)),
            key is Esc ==> final(self).input@.chars.len() == 0 && final(self).input@.idx == 0,
            key == Key::Char('\r') ==> final(self).input@ == old(self).input@,
            !closes(key) ==> final(self).input@ == edited_line(
                old(self).input@,
                key,
                old(self).room(*term),
            ),
    {
        let max = self.panel.end.0.unwrap(term.width) - self.panel.start.0.unwrap(term.width) - 2;
        match &key {
            Key::Esc => {
                self.input.clear();
                self.panel.lock = false;
            },
            Key::Char(ch) => {
                if *ch == '\r' {
                    self.panel.lock = false;
                } else {
                    self.input.key(&key, max as usize);
                }
            },
            _ => {
                self.input.key(&key, max as usize);
            },
        }
    }

    /// The cell of the input cursor: inside the frame, behind what was typed
    /// before the cursor.
    pub fn set_cursor(&self, term: &Term) -> (cell: (usize, usize))
        requires
            self.panel.fits(*term),
            self.input.wf(),
        ensures
            cell.0 == crate::wrap::clip(
                self.panel.start.0.resolved(term.width) + 1 + self.input@.idx,
            ),
            cell.1 == self.panel.start.1.resolved(term.height) + 1,
    {
        let x = self.panel.start.0.unwrap(term.width) as usize;
        let y = self.panel.start.1.unwrap(term.height) as usize;
        (crate::wrap::sat_add(x + 1, self.input.idx), y + 1)
    }

    /// Puts the corners where the four signed numbers say.
    pub fn pos(&mut self, start: (i16, i16), end: (i16, i16))
        requires
            start.0 != 0,
            start.1 != 0,
            end.0 != 0,
            end.1 != 0,
        ensures
            Some(final(self).panel.start.0) == Pos::from_signed(start.0),
            Some(final(self).panel.start.1) == Pos::from_signed(start.1),
            Some(final(self).panel.end.0) == Pos::from_signed(end.0),
            Some(final(self).panel.end.1) == Pos::from_signed(end.1),
            final(self).same_but_corners(*old(self)),
    {
        let (x_s, y_s) = start;
        let (x_e, y_e) = end;
        match (Pos::try_from(x_s), Pos::try_from(y_s), Pos::try_from(x_e), Pos::try_from(y_e)) {
            (Ok(x_s), Ok(y_s), Ok(x_e), Ok(y_e)) => {
                self.panel.start = (x_s, y_s);
                self.panel.end = (x_e, y_e);
            },
            _ => {},
        }
    }

    /// Whether the dialog can be centred on a terminal of this size: the
    /// terminal's size fits a signed 16-bit number, and none of the four
    /// coordinates comes out as 0 or beyond that range.
    pub open spec fn can_center(&self, term: Term) -> bool {
        &&& term.width <= i16::MAX
        &&& term.height <= i16::MAX
        &&& half_span(self.title@.len()) <= i16::MAX
        &&& term.width / 2 + half_span(self.title@.len()) <= i16::MAX
        &&& term.width / 2 != half_span(self.title@.len())
        &&& term.height / 2 != 1
    }

    /// Whether `can_center` holds, computed.
    pub fn check_center(&self, term: &Term) -> (ok: bool)
        ensures
            ok == self.can_center(*term),
    {
        let len = self.title.as_str().unicode_len();
        if term.width > 0x7fff || term.height > 0x7fff || len / 2 > 0x7fff - 10 {
            return false;
        }
        let span = len / 2 + 10;
        let half = (term.width / 2) as usize;
        half + span <= 0x7fff && half != span && term.height / 2 != 1
    }

    /// Centres the dialog on the screen: three rows high, and wide enough
    /// for the title with ten cells on either side.
    pub fn default_pos(&mut self, term: &Term)
        requires
            old(self).can_center(*term),
        ensures
            Some(final(self).panel.start.0) == Pos::from_signed(
                (term.width / 2 - half_span(old(self).title@.len())) as i16,
            ),
            Some(final(self).panel.start.1) == Pos::from_signed((term.height / 2 - 1) as i16),
            Some(final(self).panel.end.0) == Pos::from_signed(
                (term.width / 2 + half_span(old(self).title@.len())) as i16,
            ),
            Some(final(self).panel.end.1) == Pos::from_signed((term.height / 2 + 2) as i16),
            final(self).same_but_corners(*old(self)),
    {
        let height = term.height as i16;
        let width = term.width as i16;
        let length = (self.title.as_str().unicode_len() / 2) as i16 + 10;
        self.pos((width / 2 - length, height / 2 - 1), (width / 2 + length, height / 2 + 2));
    }

    /// Sets the title.
    pub fn title(&mut self, content: &str)
        ensures
            final(self).title@ == content@,
            final(self).panel == old(self).panel,
            final(self).input == old(self).input,
    {
        self.title = String::from_str(content);
    }

    /// Opens the dialog: it is locked until Enter or Esc, and starts with an
    /// empty line.
    pub fn wait(&mut self, settings: &Settings)
        ensures
            final(self).panel.lock,
            final(self).input.wf(),
            final(self).input@.chars.len() == 0,
            final(self).input@.idx == 0,
            final(self).title == old(self).title,
            final(self).panel.silent == old(self).panel.silent,
            final(self).panel.show == old(self).panel.show,
            final(self).panel.name == old(self).panel.name,
            final(self).panel.start == old(self).panel.start,
            final(self).panel.end == old(self).panel.end,
            final(self).panel.fcolor == settings.theme.normal_fclr,
            final(self).panel.bcolor == settings.theme.normal_bclr,
    {
        self.panel.lock = true;
        self.input.clear();
        self.init(settings);
    }

    /// What was typed.
    pub fn input(&self) -> (text: String)
        ensures
            text@ == self.input@.chars,
    {
        self.input.text()
    }
}

} // verus!
