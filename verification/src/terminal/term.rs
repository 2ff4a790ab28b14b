//! The terminal's dimensions, against which every panel resolves its corners.

use vstd::prelude::*;

verus! {

/// The current size of the terminal, in character cells.
#[derive(Clone, Copy, Debug, PartialEq, Eq, Structural)]
pub struct Term {
    pub height: u16,
    pub width: u16,
}

impl Term {
    /// A terminal whose size is not known yet.
    pub fn new() -> (term: Term)
        ensures
            term.height == 0,
            term.width == 0,
    {
        Term { height: 0, width: 0 }
    }

    /// The number of cells on the screen.
    pub fn size(&self) -> (cells: usize)
        ensures
            cells == self.height * self.width,
    {
        assert(self.height * self.width <= 0xFFFF * 0xFFFF) by (nonlinear_arith)
            requires
                self.height <= 0xFFFF,
                self.width <= 0xFFFF,
        ;
        (self.height as usize) * (self.width as usize)
    }
}

} // verus!
