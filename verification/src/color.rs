//! 24-bit colours and the escape sequences that select them.

use crate::fmt::{decimal_chars, push_decimal};
use crate::lines::{decode_utf16, lemma_encode_injective};
use crate::text::{line_to_string, units};
use widestring::Utf16String;
use vstd::prelude::*;
use vstd::string::StringExecFns;

verus! {

/// The escape sequence that resets every attribute.
pub const END: &'static str = "\x1b[0m";

/// A colour by its red, green and blue parts.
#[derive(Clone, Copy, Debug, Default, PartialEq, Eq, Structural)]
pub struct Color {
    pub r: u8,
    pub g: u8,
    pub b: u8,
}

/// The three parts of a colour as an escape sequence writes them: decimal,
/// separated by semicolons.
pub open spec fn rgb_chars(c: Color) -> Seq<char> {
    decimal_chars(c.r as nat) + seq![';'] + decimal_chars(c.g as nat) + seq![';'] + decimal_chars(
        c.b as nat,
    )
}

/// The sequence that selects `c` as the foreground colour.
pub open spec fn fclr_chars(c: Color) -> Seq<char> {
    "\x1b[38;2;"@ + rgb_chars(c) + seq!['m']
}

/// The sequence that selects `c` as the background colour.
pub open spec fn bclr_chars(c: Color) -> Seq<char> {
    "\x1b[48;2;"@ + rgb_chars(c) + seq!['m']
}

/// The sequence that selects bold type.
pub open spec fn bold_chars() -> Seq<char> {
    "\x1b[1m"@
}

impl Color {
    /// The colour with the given parts.
    pub fn new(r: u8, g: u8, b: u8) -> (c: Color)
        ensures
            c == (Color { r, g, b }),
    {
        Color { r, g, b }
    }

    /// Appends `r;g;b` in decimal to `out`.
    fn push_rgb(&self, out: &mut String)
        ensures
            final(out)@ == old(out)@ + rgb_chars(*self),
    {
        push_decimal(out, self.r as u64);
        out.push(';');
        push_decimal(out, self.g as u64);
        out.push(';');
        push_decimal(out, self.b as u64);
    }

    /// The escape sequence that makes this the foreground colour.
    pub fn fclr_head(&self) -> (s: String)
        ensures
            s@ == fclr_chars(*self),
    {
        let mut s = String::from_str("\x1b[38;2;");
        self.push_rgb(&mut s);
        s.push('m');
        s
    }

    /// The escape sequence that makes this the background colour.
    pub fn bclr_head(&self) -> (s: String)
        ensures
            s@ == bclr_chars(*self),
    {
        let mut s = String::from_str("\x1b[48;2;");
        self.push_rgb(&mut s);
        s.push('m');
        s
    }

    /// Whether each part can be lowered by `val`.
    pub open spec fn can_darken(self, val: u8) -> bool {
        val <= self.r && val <= self.g && val <= self.b
    }

    /// Whether each part can be raised by `val`.
    pub open spec fn can_lighten(self, val: u8) -> bool {
        self.r + val <= u8::MAX && self.g + val <= u8::MAX && self.b + val <= u8::MAX
    }

    /// Whether `can_darken` holds, computed.
    pub fn check_darken(&self, val: u8) -> (ok: bool)
        ensures
            ok == self.can_darken(val),
    {
        val <= self.r && val <= self.g && val <= self.b
    }

    /// Whether `can_lighten` holds, computed.
    pub fn check_lighten(&self, val: u8) -> (ok: bool)
        ensures
            ok == self.can_lighten(val),
    {
        self.r <= u8::MAX - val && self.g <= u8::MAX - val && self.b <= u8::MAX - val
    }

    /// The colour with each part lowered by `val`.
    pub fn darken(&self, val: u8) -> (c: Color)
        requires
            self.can_darken(val),
        ensures
            c.r == self.r - val,
            c.g == self.g - val,
            c.b == self.b - val,
    {
        Color { r: self.r - val, g: self.g - val, b: self.b - val }
    }

    /// The colour with each part raised by `val`.
    pub fn lighten(&self, val: u8) -> (c: Color)
        requires
            self.can_lighten(val),
        ensures
            c.r == self.r + val,
            c.g == self.g + val,
            c.b == self.b + val,
    {
        Color { r: self.r + val, g: self.g + val, b: self.b + val }
    }

    /// The colour that the hexadecimal number `0xRRGGBB` writes; higher bits
    /// are ignored.
    pub open spec fn from_hex(value: u32) -> Color {
        Color {
            r: ((value / 0x10000) % 0x100) as u8,
            g: ((value / 0x100) % 0x100) as u8,
            b: (value % 0x100) as u8,
        }
    }
}

impl vstd::std_specs::convert::FromSpecImpl<u32> for Color {
    open spec fn obeys_from_spec() -> bool {
        true
    }

    open spec fn from_spec(value: u32) -> Color {
        Color::from_hex(value)
    }
}

impl From<u32> for Color {
    /// Splits `0xRRGGBB` into its three parts.
    fn from(value: u32) -> (c: Color)
        ensures
            c == Color::from_hex(value),
    {
        let r: u8 = ((value / 0x10000) % 0x100) as u8;
        let g: u8 = ((value / 0x100) % 0x100) as u8;
        let b: u8 = (value % 0x100) as u8;
        Color { r, g, b }
    }
}

/// Text that can be wrapped in colour and weight.
pub trait Colorful {
    /// The characters of the text.
    spec fn chars(&self) -> Seq<char>;

    /// The text on the background `bclr` in the foreground `fclr`, with a
    /// reset behind it.
    fn color(&self, bclr: &Color, fclr: &Color) -> (s: String)
        ensures
            s@ == bclr_chars(*bclr) + fclr_chars(*fclr) + self.chars() + END@,
    ;

    /// The text in the foreground `clr`, with a reset behind it.
    fn fcolor(&self, clr: &Color) -> (s: String)
        ensures
            s@ == fclr_chars(*clr) + self.chars() + END@,
    ;

    /// The text on the background `clr`, with a reset behind it.
    fn bcolor(&self, clr: &Color) -> (s: String)
        ensures
            s@ == bclr_chars(*clr) + self.chars() + END@,
    ;

    /// The text in the foreground `clr`, which stays selected.
    fn fclr_head(&self, clr: &Color) -> (s: String)
        ensures
            s@ == fclr_chars(*clr) + self.chars(),
    ;

    /// The text on the background `clr`, which stays selected.
    fn bclr_head(&self, clr: &Color) -> (s: String)
        ensures
            s@ == bclr_chars(*clr) + self.chars(),
    ;

    /// The text in bold type, with a reset behind it.
    fn bold(&self) -> (s: String)
        ensures
            s@ == bold_chars() + self.chars() + END@,
    ;

    /// The text in bold type, which stays selected.
    fn bold_head(&self) -> (s: String)
        ensures
            s@ == bold_chars() + self.chars(),
    ;
}

impl Colorful for Utf16String {
    open spec fn chars(&self) -> Seq<char> {
        decode_utf16(units(*self))
    }

    fn color(&self, bclr: &Color, fclr: &Color) -> (s: String) {
        line_text(self).color(bclr, fclr)
    }

    fn fcolor(&self, clr: &Color) -> (s: String) {
        line_text(self).fcolor(clr)
    }

    fn bcolor(&self, clr: &Color) -> (s: String) {
        line_text(self).bcolor(clr)
    }

    fn fclr_head(&self, clr: &Color) -> (s: String) {
        line_text(self).fclr_head(clr)
    }

    fn bclr_head(&self, clr: &Color) -> (s: String) {
        line_text(self).bclr_head(clr)
    }

    fn bold(&self) -> (s: String) {
        line_text(self).bold()
    }

    fn bold_head(&self) -> (s: String) {
        line_text(self).bold_head()
    }
}

/// The characters of a line as a string.
fn line_text(line: &Utf16String) -> (text: String)
    ensures
        text@ == decode_utf16(units(*line)),
{
    let text = line_to_string(line);
    proof {
        lemma_encode_injective(text@, decode_utf16(units(*line)));
    }
    text
}

impl Colorful for str {
    open spec fn chars(&self) -> Seq<char> {
        self@
    }

    fn color(&self, bclr: &Color, fclr: &Color) -> (s: String) {
        String::from_str(self).color(bclr, fclr)
    }

    fn fcolor(&self, clr: &Color) -> (s: String) {
        String::from_str(self).fcolor(clr)
    }

    fn bcolor(&self, clr: &Color) -> (s: String) {
        String::from_str(self).bcolor(clr)
    }

    fn fclr_head(&self, clr: &Color) -> (s: String) {
        String::from_str(self).fclr_head(clr)
    }

    fn bclr_head(&self, clr: &Color) -> (s: String) {
        String::from_str(self).bclr_head(clr)
    }

    fn bold(&self) -> (s: String) {
        String::from_str(self).bold()
    }

    fn bold_head(&self) -> (s: String) {
        String::from_str(self).bold_head()
    }
}

impl Colorful for String {
    open spec fn chars(&self) -> Seq<char> {
        self@
    }

    fn color(&self, bclr: &Color, fclr: &Color) -> (s: String) {
        let mut s = bclr.bclr_head();
        s.append(fclr.fclr_head().as_str());
        s.append(self.as_str());
        s.append(END);
        s
    }

    fn fcolor(&self, clr: &Color) -> (s: String) {
        let mut s = clr.fclr_head();
        s.append(self.as_str());
        s.append(END);
        s
    }

    fn bcolor(&self, clr: &Color) -> (s: String) {
        let mut s = clr.bclr_head();
        s.append(self.as_str());
        s.append(END);
        s
    }

    fn fclr_head(&self, clr: &Color) -> (s: String) {
        let mut s = clr.fclr_head();
        s.append(self.as_str());
        s
    }

    fn bclr_head(&self, clr: &Color) -> (s: String) {
        let mut s = clr.bclr_head();
        s.append(self.as_str());
        s
    }

    fn bold(&self) -> (s: String) {
        let mut s = String::from_str("\x1b[1m");
        s.append(self.as_str());
        s.append(END);
        s
    }

    fn bold_head(&self) -> (s: String) {
        let mut s = String::from_str("\x1b[1m");
        s.append(self.as_str());
        s
    }
}

} // verus!
