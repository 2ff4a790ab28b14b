//! The escape sequences that move, hide and show the terminal's cursor.

use crate::fmt::{decimal_chars, push_decimal};
use vstd::prelude::*;
use vstd::string::StringExecFns;

verus! {

/// The sequences are functions of this type; it holds nothing.
#[derive(Debug)]
pub struct Cursor();

/// The sequence that puts the cursor on column `x` of row `y`.
pub open spec fn set_csr_chars(x: u16, y: u16) -> Seq<char> {
    "\x1b["@ + decimal_chars(y as nat) + seq![';'] + decimal_chars(x as nat) + seq!['H']
}

/// The sequence that puts the cursor on column `col` of its row.
pub open spec fn csr_setcol_chars(col: u16) -> Seq<char> {
    "\x1b["@ + decimal_chars(col as nat) + seq!['G']
}

impl Cursor {
    /// To the first cell of the screen.
    pub fn reset_csr() -> (s: &'static str)
        ensures
            s@ == "\x1b[1;1H"@,
    {
        "\x1b[1;1H"
    }

    /// To column `x` of row `y`, both counted from 1.
    pub fn set_csr(x: u16, y: u16) -> (s: String)
        ensures
            s@ == set_csr_chars(x, y),
    {
        let mut s = String::from_str("\x1b[");
        push_decimal(&mut s, y as u64);
        s.push(';');
        push_decimal(&mut s, x as u64);
        s.push('H');
        s
    }

    /// To the start of the next row.
    pub fn csr_nextline() -> (s: &'static str)
        ensures
            s@ == "\x1b[1E"@,
    {
        "\x1b[1E"
    }

    /// To column `col` of the same row.
    pub fn csr_setcol(col: u16) -> (s: String)
        ensures
            s@ == csr_setcol_chars(col),
    {
        let mut s = String::from_str("\x1b[");
        push_decimal(&mut s, col as u64);
        s.push('G');
        s
    }

    /// The sequence that hides the cursor.
    pub fn hide_csr() -> (s: &'static str)
        ensures
            s@ == "\x1b[?25l"@,
    {
        "\x1b[?25l"
    }

    /// Remembers where the cursor is.
    pub fn save_csr() -> (s: &'static str)
        ensures
            s@ == "\x1b[s"@,
    {
        "\x1b[s"
    }

    /// Back to where the cursor was remembered.
    pub fn restore_csr() -> (s: &'static str)
        ensures
            s@ == "\x1b[u"@,
    {
        "\x1b[u"
    }

    /// The sequence that shows the cursor.
    pub fn show_csr() -> (s: &'static str)
        ensures
            s@ == "\x1b[?25h"@,
    {
        "\x1b[?25h"
    }
}

} // verus!
