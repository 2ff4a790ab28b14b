//! Panels: named rectangles of the screen whose corners follow the terminal's
//! size, and the flags by which the compositor picks the focused one.

use crate::color::Color;
use crate::terminal::term::Term;
use vstd::prelude::*;

pub mod bottombar;
pub mod filetree;
pub mod help;
pub mod input;
pub mod mainview;
pub mod menu;
pub mod msgbox;
pub mod topbar;

verus! {

/// The number of a panel, counted from 1 in the order of registration; 0 is
/// no panel.
pub type ViewID = u64;

/// One coordinate of a panel's corner: a distance from the near edge of the
/// terminal (left or top), or from the far edge (right or bottom).
#[derive(Clone, Copy, Debug, PartialEq, Eq, Structural)]
pub enum Pos {
    Fixed(u16),
    Opposite(u16),
}

impl Pos {
    /// The distance that the coordinate stores, whichever edge it is from.
    pub open spec fn offset(self) -> u16 {
        match self {
            Pos::Fixed(val) => val,
            Pos::Opposite(val) => val,
        }
    }

    /// The screen coordinate (counted from 1) that this one stands for on an
    /// axis of `value` cells, as a mathematical integer.
    pub open spec fn resolved(self, value: u16) -> int {
        match self {
            Pos::Fixed(val) => val + 1,
            Pos::Opposite(val) => value - val + 1,
        }
    }

    /// Whether the coordinate resolves to a cell number that a `u16` holds,
    /// with the far edge not closer than the stored distance.
    pub open spec fn fits(self, value: u16) -> bool {
        match self {
            Pos::Fixed(val) => val < u16::MAX,
            Pos::Opposite(val) => val <= value && value - val < u16::MAX,
        }
    }

    /// Turns the relative distance into an absolute screen coordinate.
    pub fn unwrap(&self, value: u16) -> (cell: u16)
        requires
            self.fits(value),
        ensures
            cell == self.resolved(value),
    {
        match self {
            Pos::Fixed(val) => *val + 1,
            Pos::Opposite(val) => value - *val + 1,
        }
    }

    /// The absolute coordinate, or `None` where `unwrap` could not compute it.
    pub fn resolve(&self, value: u16) -> (cell: Option<u16>)
        ensures
            cell.is_some() == self.fits(value),
            cell.is_some() ==> cell.unwrap() == self.resolved(value),
    {
        match self {
            Pos::Fixed(val) => if *val < u16::MAX {
                Some(*val + 1)
            } else {
                None
            },
            Pos::Opposite(val) => if *val <= value && value - *val < u16::MAX {
                Some(value - *val + 1)
            } else {
                None
            },
        }
    }

    /// The stored distance itself.
    pub fn get(&self) -> (val: u16)
        ensures
            val == self.offset(),
    {
        match self {
            Pos::Fixed(val) => *val,
            Pos::Opposite(val) => *val,
        }
    }

    /// The coordinate moved by `rhs` along its own edge's direction: the
    /// distance grows by a positive `rhs` and shrinks by a negative one. A
    /// move that would leave the range of `u16` changes nothing.
    pub open spec fn moved(self, rhs: i16) -> Pos {
        let val = self.offset() + rhs;
        if 0 <= val <= u16::MAX {
            match self {
                Pos::Fixed(_) => Pos::Fixed(val as u16),
                Pos::Opposite(_) => Pos::Opposite(val as u16),
            }
        } else {
            self
        }
    }

    /// The coordinate that a signed number writes: `n > 0` is the `n`-th cell
    /// from the near edge, `n < 0` the `|n|`-th from the far edge; zero is none.
    pub open spec fn from_signed(value: i16) -> Option<Pos> {
        if value > 0 {
            Some(Pos::Fixed((value - 1) as u16))
        } else if value < 0 {
            Some(Pos::Opposite((-value - 1) as u16))
        } else {
            None
        }
    }
}

impl vstd::std_specs::convert::TryFromSpecImpl<i16> for Pos {
    open spec fn obeys_try_from_spec() -> bool {
        true
    }

    open spec fn try_from_spec(value: i16) -> Result<Pos, &'static str> {
        match Pos::from_signed(value) {
            Some(pos) => Ok(pos),
            None => Err("value can't be zero"),
        }
    }
}

impl TryFrom<i16> for Pos {
    type Error = &'static str;

    /// A positive number is a distance from the near edge, a negative one
    /// from the far edge; see [`Pos::from_signed`]. Zero is no coordinate.
    fn try_from(value: i16) -> (pos: Result<Pos, &'static str>)
        ensures
            pos is Ok == (value != 0),
            pos is Ok ==> Some(pos->Ok_0) == Pos::from_signed(value),
    {
        if value > 0 {
            Ok(Pos::Fixed((value - 1) as u16))
        } else if value < 0 {
            Ok(Pos::Opposite((-(value as i32) - 1) as u16))
        } else {
            Err("value can't be zero")
        }
    }
}

impl vstd::std_specs::ops::AddSpecImpl<i16> for Pos {
    open spec fn obeys_add_spec() -> bool {
        true
    }

    open spec fn add_req(self, rhs: i16) -> bool {
        true
    }

    open spec fn add_spec(self, rhs: i16) -> Pos {
        self.moved(rhs)
    }
}

impl core::ops::Add<i16> for Pos {
    type Output = Pos;

    /// Adds to the stored distance; see [`Pos::moved`].
    fn add(self, rhs: i16) -> (out: Pos)
        ensures
            out == self.moved(rhs),
    {
        if rhs == 0 {
            return self;
        }
        let mut val: u16 = self.get();
        if rhs > 0 {
            let abs: u16 = rhs as u16;
            if val > u16::MAX - abs {
                return self;
            }
            val += abs;
        } else {
            let abs: u16 = (-(rhs as i32)) as u16;
            if val < abs {
                return self;
            }
            val -= abs;
        }
        match self {
            Pos::Fixed(_) => Pos::Fixed(val),
            Pos::Opposite(_) => Pos::Opposite(val),
        }
    }
}

/// The purposes for which the modal dialog is shown.
#[derive(Clone, Copy, Debug, PartialEq, Eq, Structural)]
pub enum Prompt {
    /// "Search": the pattern to look for.
    Search,
    /// "Replace": what to put in place of the selected match.
    Replace,
    /// "Save as": a name for a buffer that has none.
    SaveAs,
    /// "Input File Number": the identifier of the buffer to show.
    FileNumber,
    /// "Save All?(y/n)": asked on Esc while a buffer is dirty.
    SaveAll,
    /// "Quit?(y/n)": asked on Esc while no buffer is dirty.
    Quit,
}

/// The title that the dialog shows for a purpose.
pub open spec fn title_of(prompt: Prompt) -> Seq<char> {
    match prompt {
        Prompt::Search => "Search"@,
        Prompt::Replace => "Replace"@,
        Prompt::SaveAs => "Save as"@,
        Prompt::FileNumber => "Input File Number"@,
        Prompt::SaveAll => "Save All?(y/n)"@,
        Prompt::Quit => "Quit?(y/n)"@,
    }
}

impl Prompt {
    /// The title that the dialog shows.
    pub fn title(&self) -> (title: &'static str)
        ensures
            title@ == title_of(*self),
    {
        match self {
            Prompt::Search => "Search",
            Prompt::Replace => "Replace",
            Prompt::SaveAs => "Save as",
            Prompt::FileNumber => "Input File Number",
            Prompt::SaveAll => "Save All?(y/n)",
            Prompt::Quit => "Quit?(y/n)",
        }
    }
}

/// What a panel needs from its host before the cycle can go on. The panels do
/// no input or output themselves.
#[derive(Debug)]
pub enum Ask {
    Nothing,
    /// Run the modal dialog and hand what was typed to the panel's `answer`.
    Prompt(Prompt),
    /// Write the current buffer to disk as its save plan says.
    Save,
    /// Write every dirty buffer to disk.
    SaveAll,
    /// Read the directory with this path and hand its entries to the file tree.
    ListDir(String),
    /// Read the file with this path and hand it to the file tree.
    OpenFile(String),
}

/// A request with its path read as characters.
pub enum AskView {
    Nothing,
    Prompt(Prompt),
    Save,
    SaveAll,
    ListDir(Seq<char>),
    OpenFile(Seq<char>),
}

impl View for Ask {
    type V = AskView;

    open spec fn view(&self) -> AskView {
        match self {
            Ask::Nothing => AskView::Nothing,
            Ask::Prompt(prompt) => AskView::Prompt(*prompt),
            Ask::Save => AskView::Save,
            Ask::SaveAll => AskView::SaveAll,
            Ask::ListDir(path) => AskView::ListDir(path@),
            Ask::OpenFile(path) => AskView::OpenFile(path@),
        }
    }
}

/// One axis of a panel after a resize request: both ends moved, unless the
/// moved ends do not resolve on an axis of `extent` cells or the start would
/// not come strictly before the end; then both ends stay as they were.
pub open spec fn axis_resized(start: Pos, end: Pos, d_start: i16, d_end: i16, extent: u16) -> (
    Pos,
    Pos,
) {
    let s = start.moved(d_start);
    let e = end.moved(d_end);
    if s.fits(extent) && e.fits(extent) && s.resolved(extent) < e.resolved(extent) {
        (s, e)
    } else {
        (start, end)
    }
}

/// Moves the two ends of one axis, or leaves both where the result would not
/// be a proper interval of the screen.
pub fn resize_axis(start: Pos, end: Pos, d_start: i16, d_end: i16, extent: u16) -> (out: (Pos, Pos))
    ensures
        out == axis_resized(start, end, d_start, d_end, extent),
{
    let s = start + d_start;
    let e = end + d_end;
    match (s.resolve(extent), e.resolve(extent)) {
        (Some(a), Some(b)) => if a < b {
            (s, e)
        } else {
            (start, end)
        },
        _ => (start, end),
    }
}

/// What every panel has: a name, by which messages and focus requests reach
/// it, two corners, three flags and its colours.
#[derive(Debug)]
pub struct Panel {
    pub name: String,
    pub start: (Pos, Pos),
    pub end: (Pos, Pos),
    /// A silent panel is never chosen when the focus cycles.
    pub silent: bool,
    /// While the focused panel is locked, the focus does not cycle away.
    pub lock: bool,
    pub show: bool,
    pub fcolor: Color,
    pub bcolor: Color,
}

impl Panel {
    /// A shown, unlocked panel that takes the focus, white on black.
    pub fn new(name: String, start: (Pos, Pos), end: (Pos, Pos)) -> (panel: Panel)
        ensures
            panel.name == name,
            panel.start == start,
            panel.end == end,
            !panel.silent,
            !panel.lock,
            panel.show,
            panel.fcolor == (Color { r: 0xff, g: 0xff, b: 0xff }),
            panel.bcolor == (Color { r: 0, g: 0, b: 0 }),
    {
        Panel {
            name,
            start,
            end,
            silent: false,
            lock: false,
            show: true,
            fcolor: Color::new(0xff, 0xff, 0xff),
            bcolor: Color::new(0, 0, 0),
        }
    }

    /// Whether the focus may cycle onto this panel.
    pub open spec fn focusable(&self) -> bool {
        !self.silent && self.show
    }

    /// Whether all four coordinates resolve on a terminal of this size.
    pub open spec fn fits(&self, term: Term) -> bool {
        &&& self.start.0.fits(term.width)
        &&& self.start.1.fits(term.height)
        &&& self.end.0.fits(term.width)
        &&& self.end.1.fits(term.height)
    }

    /// The column and row of the first corner.
    pub open spec fn start_cell(&self, term: Term) -> (int, int) {
        (self.start.0.resolved(term.width), self.start.1.resolved(term.height))
    }

    /// The column and row of the second corner.
    pub open spec fn end_cell(&self, term: Term) -> (int, int) {
        (self.end.0.resolved(term.width), self.end.1.resolved(term.height))
    }

    /// The panel after a resize request, each axis judged by itself.
    pub open spec fn resized(
        self,
        term: Term,
        dx_s: i16,
        dy_s: i16,
        dx_e: i16,
        dy_e: i16,
    ) -> Panel {
        let x = axis_resized(self.start.0, self.end.0, dx_s, dx_e, term.width);
        let y = axis_resized(self.start.1, self.end.1, dy_s, dy_e, term.height);
        Panel { start: (x.0, y.0), end: (x.1, y.1), ..self }
    }

    /// Whether `fits` holds, computed.
    pub fn check_fits(&self, term: &Term) -> (ok: bool)
        ensures
            ok == self.fits(*term),
    {
        self.start.0.resolve(term.width).is_some() && self.start.1.resolve(term.height).is_some()
            && self.end.0.resolve(term.width).is_some() && self.end.1.resolve(
            term.height,
        ).is_some()
    }
}

/// The geometry and the flags of a panel, as the compositor reads them.
pub trait Position {
    /// The panel record that the methods below read and change.
    spec fn frame(&self) -> Panel;

    fn get_name(&self) -> (name: &String)
        ensures
            *name == self.frame().name,
    ;

    /// The first corner on a terminal of the given size.
    fn get_start(&self, term: &Term) -> (cell: (u16, u16))
        requires
            self.frame().fits(*term),
        ensures
            (cell.0 as int, cell.1 as int) == self.frame().start_cell(*term),
    ;

    /// The second corner on a terminal of the given size.
    fn get_end(&self, term: &Term) -> (cell: (u16, u16))
        requires
            self.frame().fits(*term),
        ensures
            (cell.0 as int, cell.1 as int) == self.frame().end_cell(*term),
    ;

    /// Moves the corners by the given amounts. On each axis the change is
    /// dropped where the start would not stay strictly before the end.
    fn resize(&mut self, term: &Term, dx_s: i16, dy_s: i16, dx_e: i16, dy_e: i16)
        ensures
            final(self).frame() == old(self).frame().resized(*term, dx_s, dy_s, dx_e, dy_e),
    ;

    fn is_silent(&self) -> (b: bool)
        ensures
            b == self.frame().silent,
    ;

    fn is_lock(&self) -> (b: bool)
        ensures
            b == self.frame().lock,
    ;

    fn is_show(&self) -> (b: bool)
        ensures
            b == self.frame().show,
    ;
}

impl Position for Panel {
    open spec fn frame(&self) -> Panel {
        *self
    }

    fn get_name(&self) -> (name: &String) {
        &self.name
    }

    fn get_start(&self, term: &Term) -> (cell: (u16, u16)) {
        (self.start.0.unwrap(term.width), self.start.1.unwrap(term.height))
    }

    fn get_end(&self, term: &Term) -> (cell: (u16, u16)) {
        (self.end.0.unwrap(term.width), self.end.1.unwrap(term.height))
    }

    fn resize(&mut self, term: &Term, dx_s: i16, dy_s: i16, dx_e: i16, dy_e: i16) {
        let x = resize_axis(self.start.0, self.end.0, dx_s, dx_e, term.width);
        let y = resize_axis(self.start.1, self.end.1, dy_s, dy_e, term.height);
        self.start = (x.0, y.0);
        self.end = (x.1, y.1);
    }

    fn is_silent(&self) -> (b: bool) {
        self.silent
    }

    fn is_lock(&self) -> (b: bool) {
        self.lock
    }

    fn is_show(&self) -> (b: bool) {
        self.show
    }
}

} // verus!
