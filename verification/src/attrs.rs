//! How a panel is described: its corners, written as signed cell numbers, its
//! colours and whether it stays out of the focus cycle.

use crate::color::Color;
use crate::view::{Panel, Pos};
use vstd::prelude::*;

verus! {

/// One item of a panel's description.
#[derive(Clone, Copy, Debug, PartialEq, Eq, Structural)]
pub enum ViewAttr {
    /// The first corner (x, y): a positive number counts cells from the left
    /// or top edge, a negative one from the right or bottom edge.
    Start(i16, i16),
    /// The second corner, written like the first.
    End(i16, i16),
    /// The background colour (r, g, b).
    Bcolor(u8, u8, u8),
    /// The foreground colour (r, g, b).
    Fcolor(u8, u8, u8),
    /// The panel never gets the focus by cycling.
    Silent,
}

/// The kinds of items, for error reports.
#[derive(Clone, Copy, Debug, PartialEq, Eq, Structural)]
pub enum AttrKind {
    Start,
    End,
    Bcolor,
    Fcolor,
    Silent,
}

/// Why a description is not accepted.
#[derive(Clone, Copy, Debug, PartialEq, Eq, Structural)]
pub enum AttrError {
    /// An item of this kind stands twice.
    Twice(AttrKind),
    /// A corner has a coordinate 0.
    Zero,
    /// No first corner is given.
    NoStart,
    /// No second corner is given.
    NoEnd,
}

/// What has been read of a description so far.
#[derive(Debug)]
pub struct Partial {
    pub start: Option<(Pos, Pos)>,
    pub end: Option<(Pos, Pos)>,
    pub bcolor: Option<Color>,
    pub fcolor: Option<Color>,
    pub silent: bool,
}

/// A complete description.
#[derive(Debug)]
pub struct PanelStyle {
    pub start: (Pos, Pos),
    pub end: (Pos, Pos),
    pub silent: bool,
    pub bcolor: Color,
    pub fcolor: Color,
}

/// A corner from its two signed numbers.
pub open spec fn corner(x: i16, y: i16) -> Result<(Pos, Pos), AttrError> {
    match (Pos::from_signed(x), Pos::from_signed(y)) {
        (Some(px), Some(py)) => Ok((px, py)),
        _ => Err(AttrError::Zero),
    }
}

/// Nothing read yet.
pub open spec fn blank() -> Partial {
    Partial { start: None, end: None, bcolor: None, fcolor: None, silent: false }
}

/// Reads one more item. An item of a kind that was read before is an error;
/// so is a corner with a coordinate 0.
pub open spec fn step(so_far: Partial, attr: ViewAttr) -> Result<Partial, AttrError> {
    match attr {
        ViewAttr::Start(x, y) => if so_far.start.is_some() {
            Err(AttrError::Twice(AttrKind::Start))
        } else {
            match corner(x, y) {
                Ok(c) => Ok(Partial { start: Some(c), ..so_far }),
                Err(e) => Err(e),
            }
        },
        ViewAttr::End(x, y) => if so_far.end.is_some() {
            Err(AttrError::Twice(AttrKind::End))
        } else {
            match corner(x, y) {
                Ok(c) => Ok(Partial { end: Some(c), ..so_far }),
                Err(e) => Err(e),
            }
        },
        ViewAttr::Bcolor(r, g, b) => if so_far.bcolor.is_some() {
            Err(AttrError::Twice(AttrKind::Bcolor))
        } else {
            Ok(Partial { bcolor: Some(Color { r, g, b }), ..so_far })
        },
        ViewAttr::Fcolor(r, g, b) => if so_far.fcolor.is_some() {
            Err(AttrError::Twice(AttrKind::Fcolor))
        } else {
            Ok(Partial { fcolor: Some(Color { r, g, b }), ..so_far })
        },
        ViewAttr::Silent => if so_far.silent {
            Err(AttrError::Twice(AttrKind::Silent))
        } else {
            Ok(Partial { silent: true, ..so_far })
        },
    }
}

/// Reads the first `upto` items in order, up to the first error.
pub open spec fn scan(attrs: Seq<ViewAttr>, upto: int) -> Result<Partial, AttrError>
    decreases upto,
{
    if upto <= 0 {
        Ok(blank())
    } else {
        match scan(attrs, upto - 1) {
            Ok(so_far) => step(so_far, attrs[upto - 1]),
            Err(e) => Err(e),
        }
    }
}

/// Completes what was read: both corners must be there; the colours default
/// to white on black.
pub open spec fn finish(read: Partial) -> Result<PanelStyle, AttrError> {
    if read.start.is_none() {
        Err(AttrError::NoStart)
    } else if read.end.is_none() {
        Err(AttrError::NoEnd)
    } else {
        Ok(
            PanelStyle {
                start: read.start.unwrap(),
                end: read.end.unwrap(),
                silent: read.silent,
                bcolor: match read.bcolor {
                    Some(c) => c,
                    None => Color { r: 0, g: 0, b: 0 },
                },
                fcolor: match read.fcolor {
                    Some(c) => c,
                    None => Color { r: 0xff, g: 0xff, b: 0xff },
                },
            },
        )
    }
}

/// What a description means, or the first reason why it means nothing.
pub open spec fn parsed(attrs: Seq<ViewAttr>) -> Result<PanelStyle, AttrError> {
    match scan(attrs, attrs.len() as int) {
        Ok(read) => finish(read),
        Err(e) => Err(e),
    }
}

/// A corner from its two signed numbers.
pub fn parse_pos_tuple(x: i16, y: i16) -> (c: Result<(Pos, Pos), AttrError>)
    ensures
        c == corner(x, y),
{
    match (Pos::try_from(x), Pos::try_from(y)) {
        (Ok(px), Ok(py)) => Ok((px, py)),
        _ => Err(AttrError::Zero),
    }
}

/// Reads one more item of a description.
fn read_attr(so_far: Partial, attr: ViewAttr) -> (next: Result<Partial, AttrError>)
    ensures
        next == step(so_far, attr),
{
    let mut read = so_far;
    match attr {
        ViewAttr::Start(x, y) => {
            if read.start.is_some() {
                return Err(AttrError::Twice(AttrKind::Start));
            }
            match parse_pos_tuple(x, y) {
                Ok(c) => {
                    read.start = Some(c);
                },
                Err(e) => {
                    return Err(e);
                },
            }
        },
        ViewAttr::End(x, y) => {
            if read.end.is_some() {
                return Err(AttrError::Twice(AttrKind::End));
            }
            match parse_pos_tuple(x, y) {
                Ok(c) => {
                    read.end = Some(c);
                },
                Err(e) => {
                    return Err(e);
                },
            }
        },
        ViewAttr::Bcolor(r, g, b) => {
            if read.bcolor.is_some() {
                return Err(AttrError::Twice(AttrKind::Bcolor));
            }
            read.bcolor = Some(Color::new(r, g, b));
        },
        ViewAttr::Fcolor(r, g, b) => {
            if read.fcolor.is_some() {
                return Err(AttrError::Twice(AttrKind::Fcolor));
            }
            read.fcolor = Some(Color::new(r, g, b));
        },
        ViewAttr::Silent => {
            if read.silent {
                return Err(AttrError::Twice(AttrKind::Silent));
            }
            read.silent = true;
        },
    }
    Ok(read)
}

/// Reads a panel's description. Each kind of item may stand once, in any
/// order; both corners are needed and no coordinate may be 0; a panel takes
/// the focus unless it is marked silent; without colours it is white on black.
pub fn parse_attrs(attrs: &Vec<ViewAttr>) -> (style: Result<PanelStyle, AttrError>)
    ensures
        style == parsed(attrs@),
{
    let mut read = Partial { start: None, end: None, bcolor: None, fcolor: None, silent: false };
    let mut i: usize = 0;
    while i < attrs.len()
        invariant
            i <= attrs@.len(),
            scan(attrs@, i as int) == Ok::<Partial, AttrError>(read),
        decreases attrs@.len() - i,
    {
        match read_attr(read, attrs[i]) {
            Ok(next) => {
                read = next;
            },
            Err(e) => {
                proof {
                    lemma_scan_error_stays(attrs@, i + 1, attrs@.len() as int);
                }
                return Err(e);
            },
        }
        i += 1;
    }
    match (read.start, read.end) {
        (None, _) => Err(AttrError::NoStart),
        (Some(_), None) => Err(AttrError::NoEnd),
        (Some(start), Some(end)) => Ok(
            PanelStyle {
                start,
                end,
                silent: read.silent,
                bcolor: match read.bcolor {
                    Some(c) => c,
                    None => Color::new(0, 0, 0),
                },
                fcolor: match read.fcolor {
                    Some(c) => c,
                    None => Color::new(0xff, 0xff, 0xff),
                },
            },
        ),
    }
}

/// After the first error nothing more is read.
pub proof fn lemma_scan_error_stays(attrs: Seq<ViewAttr>, at: int, upto: int)
    requires
        0 <= at <= upto,
        scan(attrs, at) is Err,
    ensures
        scan(attrs, upto) == scan(attrs, at),
    decreases upto - at,
{
    if at < upto {
        lemma_scan_error_stays(attrs, at, upto - 1);
    }
}

/// The panel that a name and a description make: shown and not locked.
pub fn view(name: String, attrs: &Vec<ViewAttr>) -> (panel: Result<Panel, AttrError>)
    ensures
        match parsed(attrs@) {
            Ok(style) => panel is Ok && panel->Ok_0.name == name && panel->Ok_0.start == style.start
                && panel->Ok_0.end == style.end && panel->Ok_0.silent == style.silent
                && panel->Ok_0.bcolor == style.bcolor && panel->Ok_0.fcolor == style.fcolor
                && !panel->Ok_0.lock && panel->Ok_0.show,
            Err(e) => panel == Err::<Panel, AttrError>(e),
        },
{
    match parse_attrs(attrs) {
        Ok(style) => Ok(
            Panel {
                name,
                start: style.start,
                end: style.end,
                silent: style.silent,
                lock: false,
                show: true,
                fcolor: style.fcolor,
                bcolor: style.bcolor,
            },
        ),
        Err(e) => Err(e),
    }
}

/// The panel that a name and a description make, for a description that
/// is known to be accepted.
pub fn panel(name: String, attrs: &Vec<ViewAttr>) -> (panel: Panel)
    requires
        parsed(attrs@) is Ok,
    ensures
        panel.name == name,
        panel.start == parsed(attrs@)->Ok_0.start,
        panel.end == parsed(attrs@)->Ok_0.end,
        panel.silent == parsed(attrs@)->Ok_0.silent,
        panel.bcolor == parsed(attrs@)->Ok_0.bcolor,
        panel.fcolor == parsed(attrs@)->Ok_0.fcolor,
        !panel.lock,
        panel.show,
{
    match view(name, attrs) {
        Ok(panel) => panel,
        Err(_) => {
            unreached()
        },
    }
}

} // verus!
