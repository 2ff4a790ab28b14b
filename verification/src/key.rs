//! Decoded key events, as the panels receive them.

use vstd::prelude::*;

verus! {

/// One key press. The variants are those that a raw-mode keyboard reader
/// tells apart; a sequence that it cannot name arrives as `Other` with its bytes.
#[derive(Debug)]
pub enum Key {
    EOF,
    Backspace,
    Delete,
    Esc,
    Up,
    Down,
    Right,
    Left,
    End,
    Home,
    BackTab,
    Insert,
    PageUp,
    PageDown,
    F(u8),
    Char(char),
    Alt(char),
    Ctrl(char),
    Other(Vec<u8>),
}

/// The bytes that a terminal sends for Alt+Left.
pub open spec fn alt_left_bytes() -> Seq<u8> {
    seq![27u8, 91u8, 49u8, 59u8, 51u8, 68u8]
}

/// The bytes that a terminal sends for Alt+Right.
pub open spec fn alt_right_bytes() -> Seq<u8> {
    seq![27u8, 91u8, 49u8, 59u8, 51u8, 67u8]
}

/// Whether `bytes` is the five-byte prefix that Alt+Left and Alt+Right share,
/// followed by `last`.
fn is_alt_arrow(bytes: &Vec<u8>, last: u8) -> (b: bool)
    ensures
        b == (bytes@ == seq![27u8, 91u8, 49u8, 59u8, 51u8, last]),
{
    let b = bytes.len() == 6 && bytes[0] == 27 && bytes[1] == 91 && bytes[2] == 49 && bytes[3]
        == 59 && bytes[4] == 51 && bytes[5] == last;
    proof {
        let want = seq![27u8, 91u8, 49u8, 59u8, 51u8, last];
        if b {
            assert(bytes@ =~= want);
        }
    }
    b
}

/// Whether an unnamed key sequence is Alt+Left.
pub fn is_alt_left(bytes: &Vec<u8>) -> (b: bool)
    ensures
        b == (bytes@ == alt_left_bytes()),
{
    is_alt_arrow(bytes, 68)
}

/// Whether an unnamed key sequence is Alt+Right.
pub fn is_alt_right(bytes: &Vec<u8>) -> (b: bool)
    ensures
        b == (bytes@ == alt_right_bytes()),
{
    is_alt_arrow(bytes, 67)
}

} // verus!
