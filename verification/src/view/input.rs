//! A line of typed text with a cursor, as the modal dialog and the command bar
//! edit it. Positions count characters.

use crate::key::Key;
use vstd::prelude::*;

verus! {

/// A line of typed text with its cursor.
pub struct InputLine {
    pub chars: Vec<char>,
    /// The cursor: the number of characters before it.
    pub idx: usize,
}

/// What a line editor holds: its characters and its cursor.
pub struct InputView {
    pub chars: Seq<char>,
    pub idx: int,
}

/// The line after a key, where at most `limit` characters may be held.
/// Characters are typed at the cursor while there is room; Delete takes out
/// the character before the cursor; Left and Right move the cursor inside the
/// line. Every other key leaves the line as it is.
pub open spec fn edited_line(line: InputView, key: Key, limit: int) -> InputView {
    match key {
        Key::Char(ch) => if line.chars.len() < limit {
            InputView { chars: line.chars.insert(line.idx, ch), idx: line.idx + 1 }
        } else {
            line
        },
        Key::Delete => if line.idx > 0 {
            InputView { chars: line.chars.remove(line.idx - 1), idx: line.idx - 1 }
        } else {
            line
        },
        Key::Left => if line.idx > 0 {
            InputView { idx: line.idx - 1, ..line }
        } else {
            line
        },
        Key::Right => if line.idx < line.chars.len() {
            InputView { idx: line.idx + 1, ..line }
        } else {
            line
        },
        _ => line,
    }
}

impl View for InputLine {
    type V = InputView;

    open spec fn view(&self) -> InputView {
        InputView { chars: self.chars@, idx: self.idx as int }
    }
}

impl InputLine {
    /// The cursor stands inside the line.
    pub open spec fn wf(&self) -> bool {
        self.idx <= self.chars@.len()
    }

    /// An empty line.
    pub fn new() -> (line: InputLine)
        ensures
            line.wf(),
            line@.chars.len() == 0,
            line@.idx == 0,
    {
        InputLine { chars: Vec::new(), idx: 0 }
    }

    /// Empties the line.
    pub fn clear(&mut self)
        ensures
            final(self).wf(),
            final(self)@.chars.len() == 0,
            final(self)@.idx == 0,
    {
        self.chars.clear();
        self.idx = 0;
    }

    /// One key of the line editor.
    pub fn key(&mut self, key: &Key, limit: usize)
        requires
            old(self).wf(),
        ensures
            final(self).wf(),
            final(self)@ == edited_line(old(self)@, *key, limit as int),
    {
        match key {
            Key::Char(ch) => {
                if self.chars.len() < limit {
                    self.chars.insert(self.idx, *ch);
                    self.idx += 1;
                }
            },
            Key::Delete => {
                if self.idx > 0 {
                    self.idx -= 1;
                    self.chars.remove(self.idx);
                }
            },
            Key::Left => {
                if self.idx > 0 {
                    self.idx -= 1;
                }
            },
            Key::Right => {
                if self.idx < self.chars.len() {
                    self.idx += 1;
                }
            },
            _ => {},
        }
    }

    /// Appends text at the end of the line; the cursor moves on by as many
    /// characters as were appended.
    pub fn push_str(&mut self, text: &str)
        requires
            old(self).wf(),
        ensures
            final(self).wf(),
            final(self)@.chars == old(self)@.chars + text@,
            final(self)@.idx == old(self)@.idx + text@.len(),
    {
        let before = self.chars.len();
        broadcast use vstd::string::group_string_axioms;

        for c in it: text.chars()
            invariant
                it.seq() == text@,
                self.idx == old(self).idx,
                before == old(self).chars@.len(),
                self.chars@ == old(self).chars@ + text@.take(it.index() as int),
        {
            self.chars.push(c);
        }
        let grown = self.chars.len();
        self.idx = self.idx + (grown - before);
    }

    /// The line as a string.
    pub fn text(&self) -> (text: String)
        ensures
            text@ == self@.chars,
    {
        let mut text = String::new();
        let mut i: usize = 0;
        while i < self.chars.len()
            invariant
                i <= self.chars@.len(),
                text@ == self.chars@.take(i as int),
            decreases self.chars@.len() - i,
        {
            text.push(self.chars[i]);
            i += 1;
        }
        text
    }
}

} // verus!
