//! The bottom bar: the focused panel, the current buffer and its size.

use crate::attrs::{panel, scan, ViewAttr};
use crate::color::Color;
use crate::screen::Module;
use crate::settings::Settings;
use crate::view::{Panel, Pos};
use vstd::prelude::*;
use vstd::string::{StrSliceExecFns, StringExecFns};

verus! {

/// The bottom bar.
pub struct BottomBar {
    pub panel: Panel,
    pub bcolor_lv1: Color,
    pub fcolor_lv1: Color,
    pub bcolor_lv2: Color,
    pub fcolor_lv2: Color,
    /// The three fields of the bar, each with one space on either side, in
    /// one line.
    pub content: String,
}

/// The name that the bar shows for a buffer's name.
pub open spec fn shown_name(name: Seq<char>) -> Seq<char> {
    if name.len() == 0 {
        "[New File]"@
    } else {
        name
    }
}

/// The text of the bar: the focused panel, the buffer's name and its size.
pub open spec fn bar_text(view: Seq<char>, name: Seq<char>, size: Seq<char>) -> Seq<char> {
    " "@ + view + "  "@ + shown_name(name) + "  size  "@ + size + " "@
}

impl BottomBar {
    /// The empty bottom bar. It never takes the focus.
    pub fn new() -> (bar: BottomBar)
        ensures
            bar.panel.name@ == "BottomBar"@,
            bar.panel.start == (Pos::Fixed(0), Pos::Opposite(1)),
            bar.panel.end == (Pos::Opposite(0), Pos::Opposite(0)),
            bar.panel.silent,
            bar.panel.show,
            !bar.panel.lock,
            bar.panel.fcolor == (Color { r: 0xff, g: 0xff, b: 0xff }),
            bar.panel.bcolor == (Color { r: 0, g: 0, b: 0 }),
            bar.bcolor_lv1 == (Color { r: 0, g: 0, b: 0 }),
            bar.fcolor_lv1 == (Color { r: 0, g: 0, b: 0 }),
            bar.bcolor_lv2 == (Color { r: 0, g: 0, b: 0 }),
            bar.fcolor_lv2 == (Color { r: 0, g: 0, b: 0 }),
            bar.content@.len() == 0,
    {
        let attrs = vec![ViewAttr::Start(1, -2), ViewAttr::End(-1, -1), ViewAttr::Silent];
        proof {
            reveal_with_fuel(scan, 4);
        }
        BottomBar {
            panel: panel(String::from_str("BottomBar"), &attrs),
            bcolor_lv1: Color::new(0, 0, 0),
            fcolor_lv1: Color::new(0, 0, 0),
            bcolor_lv2: Color::new(0, 0, 0),
            fcolor_lv2: Color::new(0, 0, 0),
            content: String::new(),
        }
    }

    /// Whether this is the bottom bar as the editor starts with it: as it is
    /// made, with the colours of the theme.
    pub open spec fn started(&self, settings: Settings) -> bool {
        &&& self.panel.name@ == "BottomBar"@
        &&& self.panel.start == (Pos::Fixed(0), Pos::Opposite(1))
        &&& self.panel.end == (Pos::Opposite(0), Pos::Opposite(0))
        &&& self.panel.silent
        &&& self.panel.show
        &&& !self.panel.lock
        &&& self.panel.bcolor == settings.theme.black
        &&& self.panel.fcolor == settings.theme.normal_fclr
        &&& self.bcolor_lv1 == settings.theme.stress_fclr
        &&& self.fcolor_lv1 == settings.theme.black
        &&& self.bcolor_lv2 == settings.theme.stress_bclr
        &&& self.fcolor_lv2 == settings.theme.stress_fclr
        &&& self.content@.len() == 0
    }

    /// Takes its colours from the theme.
    pub fn init(&mut self, settings: &Settings)
        ensures
            final(self).bcolor_lv1 == settings.theme.stress_fclr,
            final(self).fcolor_lv1 == settings.theme.black,
            final(self).bcolor_lv2 == settings.theme.stress_bclr,
            final(self).fcolor_lv2 == settings.theme.stress_fclr,
            final(self).panel.bcolor == settings.theme.black,
            final(self).panel.fcolor == settings.theme.normal_fclr,
            final(self).panel.name == old(self).panel.name,
            final(self).panel.start == old(self).panel.start,
            final(self).panel.end == old(self).panel.end,
            final(self).panel.silent == old(self).panel.silent,
            final(self).panel.lock == old(self).panel.lock,
            final(self).panel.show == old(self).panel.show,
            final(self).content == old(self).content,
    {
        self.bcolor_lv1 = settings.theme.stress_fclr;
        self.fcolor_lv1 = settings.theme.black;
        self.bcolor_lv2 = settings.theme.stress_bclr;
        self.fcolor_lv2 = settings.theme.stress_fclr;
        self.panel.bcolor = settings.theme.black;
        self.panel.fcolor = settings.theme.normal_fclr;
    }

    /// Whether `self` is what the update pass makes of `before`, with `size`
    /// the size of the current buffer's file as text.
    pub open spec fn updated(&self, before: BottomBar, module: Module, size: Seq<char>) -> bool {
        &&& self.content@ == bar_text(
                module.curr_view@,
                module.file_mod.buf(module.file_mod.curr_file).name@,
                size,
            )
        &&& self.panel == before.panel
        &&& self.bcolor_lv1 == before.bcolor_lv1
        &&& self.fcolor_lv1 == before.fcolor_lv1
        &&& self.bcolor_lv2 == before.bcolor_lv2
        &&& self.fcolor_lv2 == before.fcolor_lv2
    }

    /// Once per cycle: writes the bar anew from the name of the focused
    /// panel, the name of the current buffer and the size of its file as text.
    pub fn update(&mut self, module: &Module, file_size: &str)
        requires
            module.file_mod.wf(),
        ensures
            final(self).updated(*old(self), *module, file_size@),
    {
        let mut content = String::from_str(" ");
        content.append(module.curr_view.as_str());
        content.append("  ");
        if module.file_mod.name().as_str().is_empty() {
            content.append("[New File]");
        } else {
            content.append(module.file_mod.name().as_str());
        }
        content.append("  size  ");
        content.append(file_size);
        content.append(" ");
        self.content = content;
    }

    /// Appends to what the bar shows.
    pub fn push_str(&mut self, string: &str)
        ensures
            final(self).content@ == old(self).content@ + string@,
            final(self).panel == old(self).panel,
            final(self).bcolor_lv1 == old(self).bcolor_lv1,
            final(self).fcolor_lv1 == old(self).fcolor_lv1,
            final(self).bcolor_lv2 == old(self).bcolor_lv2,
            final(self).fcolor_lv2 == old(self).fcolor_lv2,
    {
        self.content.append(string);
    }
}

} // verus!
