//! The help panel: pages of text, one shown at a time.

use crate::attrs::{panel, scan, ViewAttr};
use crate::key::Key;
use crate::lines::{chars_of, split_chars, string_lines};
use crate::screen::Module;
use crate::settings::Settings;
use crate::view::{Panel, Pos};
use vstd::prelude::*;
use vstd::string::StringExecFns;

verus! {

/// The first page: how to move, type, leave, save and search.
pub const GENERAL_HELP: &'static str = " General Help\n\n    1.  Move the Cursor:\n        Use the cursor keys\n    \n            [^]\n        [<] [v] [>]\n\n    2. Input the Content\n        Use keyboard input whatever you want\n\n        The line will wrap if the line's length is over the max length\n\n    3. How to Exit\n        Press <Esc> to exit the editor\n        Press <F1~5> to exit the help\n\n    4. Save\n        Press <Ctrl+s> to save the content\n\n        If the content is changed and don't save yet, the topbar will remind you\n\n    5. Search & Replace\n        Press <Ctrl+f> to switch to search mode\n        Press <Ctrl+f> again to replace the chosen string\n\n    6. Terminal Help\n        Input `tged --help` for more information";

/// The second page: the keys that move the focus, and the panels.
pub const VIEW_HELP: &'static str = " View Help\n\n    1. <Fn> Keys\n        Press <F2>: shift to Main View\n        Press <F3>: shift to File Tree\n        Press <F4>: shift to Menu\n        Press <F5>: shift the view in order\n\n    2. FileTree\n        Press <Enter>: open the directory or open the file\n\n    3. Menu\n        See `Menu Help`";

/// The help panel.
pub struct Help {
    pub panel: Panel,
    pub content: Vec<String>,
    pub curr_page: usize,
}

/// What the foot of the help panel's frame says.
pub struct Footer {
    /// The number of the page that is shown, counted from 1.
    pub page: usize,
    /// The number of pages.
    pub pages: usize,
    /// Whether a page stands before the one shown.
    pub left: bool,
    /// Whether a page stands after the one shown.
    pub right: bool,
}

/// The page after a key: Left and Up turn one page back, Right and Down one
/// page on, neither past the ends; Home and End go to the first and the last
/// page.
pub open spec fn turned(page: usize, key: Key, pages: int) -> int {
    match key {
        Key::Left | Key::Up => if page > 0 {
            page - 1
        } else {
            page as int
        },
        Key::Right | Key::Down => if page < pages - 1 {
            page + 1
        } else {
            page as int
        },
        Key::Home => 0,
        Key::End => pages - 1,
        _ => page as int,
    }
}

impl Help {
    /// The help panel before its pages are written.
    pub fn new() -> (help: Help)
        ensures
            help.panel.name@ == "Help"@,
            help.panel.start == (Pos::Fixed(7), Pos::Fixed(3)),
            help.panel.end == (Pos::Opposite(7), Pos::Opposite(3)),
            help.panel.focusable(),
            !help.panel.lock,
            help.panel.fcolor == (crate::color::Color { r: 0xff, g: 0xff, b: 0xff }),
            help.panel.bcolor == (crate::color::Color { r: 0, g: 0, b: 0 }),
            help.content@.len() == 0,
            help.curr_page == 0,
    {
        let attrs = vec![ViewAttr::Start(8, 4), ViewAttr::End(-8, -4)];
        proof {
            reveal_with_fuel(scan, 3);
        }
        Help {
            panel: panel(String::from_str("Help"), &attrs),
            content: Vec::new(),
            curr_page: 0,
        }
    }

    /// Whether this is the help panel as the editor starts with it: hidden,
    /// on its first page, with its two pages and the colours of the theme.
    pub open spec fn started(&self, settings: Settings) -> bool {
        &&& self.panel.name@ == "Help"@
        &&& self.panel.start == (Pos::Fixed(7), Pos::Fixed(3))
        &&& self.panel.end == (Pos::Opposite(7), Pos::Opposite(3))
        &&& !self.panel.silent
        &&& !self.panel.show
        &&& !self.panel.lock
        &&& self.panel.bcolor == settings.theme.normal_bclr
        &&& self.panel.fcolor == settings.theme.normal_fclr
        &&& self.content@.len() == 2
        &&& self.content@[0]@ == GENERAL_HELP@
        &&& self.content@[1]@ == VIEW_HELP@
        &&& self.curr_page == 0
    }

    /// Writes the two pages, takes the colours from the theme, and hides
    /// the panel.
    pub fn init(&mut self, settings: &Settings)
        ensures
            final(self).content@.len() == old(self).content@.len() + 2,
            final(self).content@.take(old(self).content@.len() as int) == old(self).content@,
            final(self).content@[old(self).content@.len() as int]@ == GENERAL_HELP@,
            final(self).content@[old(self).content@.len() as int + 1]@ == VIEW_HELP@,
            !final(self).panel.show,
            final(self).panel.fcolor == settings.theme.normal_fclr,
            final(self).panel.bcolor == settings.theme.normal_bclr,
            final(self).panel.name == old(self).panel.name,
            final(self).panel.start == old(self).panel.start,
            final(self).panel.end == old(self).panel.end,
            final(self).panel.silent == old(self).panel.silent,
            final(self).panel.lock == old(self).panel.lock,
            final(self).curr_page == old(self).curr_page,
    {
        self.panel.fcolor = settings.theme.normal_fclr;
        self.panel.bcolor = settings.theme.normal_bclr;
        self.content.push(String::from_str(GENERAL_HELP));
        self.content.push(String::from_str(VIEW_HELP));
        self.panel.show = false;
    }

    /// Whether `self` is what the update pass makes of `before`.
    pub open spec fn updated(&self, before: Help, module: Module) -> bool {
        &&& self.panel.show == (module.curr_view@ == before.panel.name@)
        &&& self.panel.name == before.panel.name
        &&& self.panel.start == before.panel.start
        &&& self.panel.end == before.panel.end
        &&& self.panel.silent == before.panel.silent
        &&& self.panel.lock == before.panel.lock
        &&& self.panel.fcolor == before.panel.fcolor
        &&& self.panel.bcolor == before.panel.bcolor
        &&& self.content == before.content
        &&& self.curr_page == before.curr_page
    }

    /// Once per cycle: the panel is shown exactly while it has the focus.
    pub fn update(&mut self, module: &Module)
        ensures
            final(self).updated(*old(self), *module),
    {
        self.panel.show = module.curr_view == self.panel.name;
    }

    /// Whether `self` is what one key makes of `before`.
    pub open spec fn keyed(&self, before: Help, key: Key) -> bool {
        &&& self.curr_page == turned(
                before.curr_page,
                key,
                before.content@.len() as int,
            )
        &&& self.panel == before.panel
        &&& self.content == before.content
    }

    /// One key: turns the pages.
    pub fn matchar(&mut self, key: Key)
        requires
            old(self).content@.len() > 0,
        ensures
            final(self).keyed(*old(self), key),
    {
        match key {
            Key::Left | Key::Up => {
                if self.curr_page > 0 {
                    self.curr_page -= 1;
                }
            },
            Key::Right | Key::Down => {
                if self.curr_page < self.content.len() - 1 {
                    self.curr_page += 1;
                }
            },
            Key::Home => {
                self.curr_page = 0;
            },
            Key::End => {
                self.curr_page = self.content.len() - 1;
            },
            _ => {},
        }
    }

    /// The lines of the page that is shown.
    pub fn draw(&self) -> (lines: Vec<String>)
        requires
            self.curr_page < self.content@.len(),
        ensures
            chars_of(lines@) == split_chars(self.content@[self.curr_page as int]@),
    {
        string_lines(self.content[self.curr_page].as_str())
    }

    /// The foot of the frame: which page is shown, of how many, and whether
    /// a page stands before it and after it.
    pub fn footer(&self) -> (foot: Footer)
        requires
            self.curr_page < self.content@.len(),
        ensures
            foot.page == self.curr_page + 1,
            foot.pages == self.content@.len(),
            foot.left == (self.curr_page != 0),
            foot.right == (self.curr_page + 1 < self.content@.len()),
    {
        let pages = self.content.len();
        Footer {
            page: self.curr_page + 1,
            pages,
            left: self.curr_page != 0,
            right: self.curr_page < pages - 1,
        }
    }

    /// The cell of the terminal's cursor: the first cell inside the frame.
    pub fn set_cursor(&self, term: &crate::terminal::term::Term) -> (cell: (usize, usize))
        requires
            self.panel.fits(*term),
        ensures
            cell.0 == self.panel.start.0.resolved(term.width) + 1,
            cell.1 == self.panel.start.1.resolved(term.height) + 1,
    {
        let x = self.panel.start.0.unwrap(term.width) as usize;
        let y = self.panel.start.1.unwrap(term.height) as usize;
        (x + 1, y + 1)
    }
}

} // verus!
