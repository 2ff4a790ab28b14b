//! The top bar: one tab for each open buffer.

use crate::attrs::{panel, scan, ViewAttr};
use crate::color::Color;
use crate::file::{FileID, FileMod};
use crate::settings::Settings;
use crate::view::{Panel, Pos};
use vstd::prelude::*;
use vstd::string::{StrSliceExecFns, StringExecFns};

verus! {

/// What one tab shows.
pub struct Tab {
    pub id: FileID,
    /// The buffer's name, or `[No Name]` where it has none.
    pub name: String,
    pub dirty: bool,
    /// Whether this is the current buffer's tab.
    pub current: bool,
}

/// The top bar.
pub struct TopBar {
    pub panel: Panel,
    /// The colour of the current tab.
    pub scolor: Color,
    /// The colour behind the tabs.
    pub dcolor: Color,
    /// The colour of the mark on a dirty buffer's tab.
    pub green: Color,
    pub tabs: Vec<Tab>,
}

/// The name that a tab shows for a buffer's name.
pub open spec fn tab_name(name: Seq<char>) -> Seq<char> {
    if name.len() == 0 {
        "[No Name]"@
    } else {
        name
    }
}

impl TopBar {
    /// The top bar without tabs. It never takes the focus.
    pub fn new() -> (bar: TopBar)
        ensures
            bar.panel.name@ == "TopBar"@,
            bar.panel.start == (Pos::Fixed(25), Pos::Fixed(1)),
            bar.panel.end == (Pos::Opposite(0), Pos::Fixed(2)),
            bar.panel.silent,
            bar.panel.show,
            !bar.panel.lock,
            bar.panel.bcolor == (Color { r: 0x14, g: 0x14, b: 0x14 }),
            bar.panel.fcolor == (Color { r: 0xa0, g: 0x40, b: 0x40 }),
            bar.scolor == (Color { r: 0, g: 0, b: 0 }),
            bar.dcolor == (Color { r: 0, g: 0, b: 0 }),
            bar.green == (Color { r: 0, g: 0, b: 0 }),
            bar.tabs@.len() == 0,
    {
        let attrs = vec![
            ViewAttr::Silent,
            ViewAttr::Start(26, 2),
            ViewAttr::End(-1, 3),
            ViewAttr::Bcolor(0x14, 0x14, 0x14),
            ViewAttr::Fcolor(0xa0, 0x40, 0x40),
        ];
        proof {
            reveal_with_fuel(scan, 6);
        }
        TopBar {
            panel: panel(String::from_str("TopBar"), &attrs),
            scolor: Color::new(0, 0, 0),
            dcolor: Color::new(0, 0, 0),
            green: Color::new(0, 0, 0),
            tabs: Vec::new(),
        }
    }

    /// Whether this is the top bar as the editor starts with it: as it is
    /// made, with the colours of the theme.
    pub open spec fn started(&self, settings: Settings) -> bool {
        &&& self.panel.name@ == "TopBar"@
        &&& self.panel.start == (Pos::Fixed(25), Pos::Fixed(1))
        &&& self.panel.end == (Pos::Opposite(0), Pos::Fixed(2))
        &&& self.panel.silent
        &&& self.panel.show
        &&& !self.panel.lock
        &&& self.panel.bcolor == settings.theme.black
        &&& self.panel.fcolor == settings.theme.weak_fclr
        &&& self.scolor == settings.theme.yellow
        &&& self.dcolor == settings.theme.normal_bclr
        &&& self.green == settings.theme.green
        &&& self.tabs@.len() == 0
    }

    /// Takes its colours from the theme.
    pub fn init(&mut self, settings: &Settings)
        ensures
            final(self).panel.bcolor == settings.theme.black,
            final(self).panel.fcolor == settings.theme.weak_fclr,
            final(self).scolor == settings.theme.yellow,
            final(self).dcolor == settings.theme.normal_bclr,
            final(self).green == settings.theme.green,
            final(self).panel.name == old(self).panel.name,
            final(self).panel.start == old(self).panel.start,
            final(self).panel.end == old(self).panel.end,
            final(self).panel.silent == old(self).panel.silent,
            final(self).panel.lock == old(self).panel.lock,
            final(self).panel.show == old(self).panel.show,
            final(self).tabs == old(self).tabs,
    {
        self.panel.bcolor = settings.theme.black;
        self.panel.fcolor = settings.theme.weak_fclr;
        self.scolor = settings.theme.yellow;
        self.dcolor = settings.theme.normal_bclr;
        self.green = settings.theme.green;
    }

    /// Whether `self` is what the update pass makes of `before`.
    pub open spec fn updated(&self, before: TopBar, file_mod: FileMod) -> bool {
        &&& self.panel == before.panel
        &&& self.scolor == before.scolor
        &&& self.dcolor == before.dcolor
        &&& self.green == before.green
        &&& self.tabs@.len() == file_mod.file_map@.len()
        &&& forall|i: int|
                0 <= i < self.tabs@.len() ==> {
                    let tab = #[trigger] self.tabs@[i];
                    &&& tab.id == i + 1
                    &&& tab.name@ == tab_name(file_mod.file_map@[i].name@)
                    &&& tab.dirty == file_mod.file_map@[i].dirty
                    &&& tab.current == (file_mod.curr_file == i + 1)
                }
    }

    /// Once per cycle: one tab for each buffer, by rising identifier, with
    /// the buffer's name, its dirty flag, and a mark on the current one.
    pub fn update(&mut self, file_mod: &FileMod)
        ensures
            final(self).updated(*old(self), *file_mod),
    {
        let curr_id = file_mod.curr_id();
        let files = file_mod.to_vec();
        let mut tabs: Vec<Tab> = Vec::new();
        let mut i: usize = 0;
        while i < files.len()
            invariant
                i <= files@.len(),
                curr_id == file_mod.curr_file,
                files@.len() == file_mod.file_map@.len(),
                forall|j: int|
                    0 <= j < files@.len() ==> (#[trigger] files@[j]).0 == j + 1 && *files@[j].1
                        == file_mod.file_map@[j],
                tabs@.len() == i,
                forall|j: int|
                    0 <= j < i ==> {
                        let tab = #[trigger] tabs@[j];
                        &&& tab.id == j + 1
                        &&& tab.name@ == tab_name(file_mod.file_map@[j].name@)
                        &&& tab.dirty == file_mod.file_map@[j].dirty
                        &&& tab.current == (file_mod.curr_file == j + 1)
                    },
            decreases files@.len() - i,
        {
            let (id, file_buf) = files[i];
            let name = if file_buf.name().as_str().is_empty() {
                String::from_str("[No Name]")
            } else {
                file_buf.name().clone()
            };
            tabs.push(Tab { id, name, dirty: file_buf.is_dirty(), current: id == curr_id });
            i += 1;
        }
        self.tabs = tabs;
    }
}

} // verus!
