//! The command bar.
//!
//! While it has the focus, a line of text can be typed and sent with Enter as
//! a command. At other times it shows the latest notice that a panel has sent
//! to it.

use crate::attrs::{panel, scan, ViewAttr};
use crate::color::Color;
use crate::fmt::same_text;
use crate::key::Key;
use crate::screen::{Module, Op, OpView};
use crate::settings::Settings;
use crate::terminal::term::Term;
use crate::view::input::{edited_line, InputLine};
use crate::view::mainview::{saved_msg, saved_notice};
use crate::view::{Ask, Panel, Pos};
use vstd::prelude::*;
use vstd::string::{StrSliceExecFns, StringExecFns};

verus! {

/// The command bar.
pub struct Menu {
    pub panel: Panel,
    /// How many cells the dashes on either side of the input field take.
    pub offset: usize,
    pub search_bclr: Color,
    pub search_fclr: Color,
    /// What the input field shows.
    pub content: String,
    pub input: InputLine,
}

/// What a command line asks for.
pub enum Command {
    Quit,
    Save,
    /// `save as:<name>`
    SaveAs(Seq<char>),
    /// `save all:y` or `save all:n`
    SaveAll(bool),
    Unknown(Seq<char>),
}

/// Whether `c` is blank: a space, or one of the control characters from tab
/// to carriage return.
pub open spec fn is_blank(c: char) -> bool {
    c == ' ' || 9 <= c as u32 <= 13
}

/// The line without the blanks at its start.
pub open spec fn trim_start(cs: Seq<char>) -> Seq<char>
    decreases cs.len(),
{
    if cs.len() > 0 && is_blank(cs[0]) {
        trim_start(cs.drop_first())
    } else {
        cs
    }
}

/// The line without the blanks at its end.
pub open spec fn trim_end(cs: Seq<char>) -> Seq<char>
    decreases cs.len(),
{
    if cs.len() > 0 && is_blank(cs.last()) {
        trim_end(cs.drop_last())
    } else {
        cs
    }
}

/// The line without the blanks at its ends.
pub open spec fn trimmed(cs: Seq<char>) -> Seq<char> {
    trim_end(trim_start(cs))
}

/// Whether `cs` begins with `prefix`.
pub open spec fn starts_with(cs: Seq<char>, prefix: Seq<char>) -> bool {
    prefix.len() <= cs.len() && cs.take(prefix.len() as int) == prefix
}

/// The command that a line writes, its ends trimmed.
pub open spec fn command_of(line: Seq<char>) -> Command {
    let cmd = trimmed(line);
    if cmd == "quit"@ {
        Command::Quit
    } else if cmd == "save"@ {
        Command::Save
    } else if starts_with(cmd, "save as:"@) && cmd.len() > "save as:"@.len() {
        Command::SaveAs(cmd.skip("save as:"@.len() as int))
    } else if cmd == "save all:y"@ {
        Command::SaveAll(true)
    } else if cmd == "save all:n"@ {
        Command::SaveAll(false)
    } else {
        Command::Unknown(cmd)
    }
}

/// The notice for a command that is not known.
pub open spec fn unknown_notice(cmd: Seq<char>) -> Seq<char> {
    "Unkonwn Command: `"@ + cmd + "`"@
}

/// The hint for a save command in a buffer without a name.
pub open spec fn unnamed_notice() -> Seq<char> {
    "Use <Ctrl+s>"@
}

/// What the input field shows while no notice waits and the bar has no focus.
pub open spec fn idle_notice() -> Seq<char> {
    "Press <F1> for help"@
}

/// The characters from `from` up to `to`.
fn slice_chars(chars: &Vec<char>, from: usize, to: usize) -> (text: String)
    requires
        from <= to <= chars@.len(),
    ensures
        text@ == chars@.subrange(from as int, to as int),
{
    let mut text = String::new();
    let mut i: usize = from;
    while i < to
        invariant
            from <= i <= to <= chars@.len(),
            text@ == chars@.subrange(from as int, i as int),
        decreases to - i,
    {
        text.push(chars[i]);
        i += 1;
    }
    text
}

/// Whether `c` is blank.
fn blank(c: char) -> (b: bool)
    ensures
        b == is_blank(c),
{
    let code = c as u32;
    c == ' ' || (9 <= code && code <= 13)
}

/// Trimming the start takes off a prefix of blanks and no more.
proof fn lemma_trim_start(cs: Seq<char>, k: int)
    requires
        0 <= k <= cs.len(),
        forall|i: int| 0 <= i < k ==> is_blank(#[trigger] cs[i]),
        k < cs.len() ==> !is_blank(cs[k]),
    ensures
        trim_start(cs) == cs.skip(k),
    decreases k,
{
    if k != 0 {
        let rest = cs.drop_first();
        lemma_trim_start(rest, k - 1);
    }
}

/// Trimming the end takes off a suffix of blanks and no more.
proof fn lemma_trim_end(cs: Seq<char>, k: int)
    requires
        0 <= k <= cs.len(),
        forall|i: int| k <= i < cs.len() ==> is_blank(#[trigger] cs[i]),
        k > 0 ==> !is_blank(cs[k - 1]),
    ensures
        trim_end(cs) == cs.take(k),
    decreases cs.len() - k,
{
    if k != cs.len() {
        let rest = cs.drop_last();
        lemma_trim_end(rest, k);
    }
}

/// The line without the blanks at its ends.
pub fn trim(chars: &Vec<char>) -> (text: String)
    ensures
        text@ == trimmed(chars@),
{
    let mut from: usize = 0;
    while from < chars.len() && blank(chars[from])
        invariant
            from <= chars@.len(),
            forall|i: int| 0 <= i < from ==> is_blank(#[trigger] chars@[i]),
        decreases chars@.len() - from,
    {
        from += 1;
    }
    let mut to: usize = chars.len();
    while to > from && blank(chars[to - 1])
        invariant
            from <= to <= chars@.len(),
            forall|i: int| to <= i < chars@.len() ==> is_blank(#[trigger] chars@[i]),
        decreases to,
    {
        to -= 1;
    }
    proof {
        let started = chars@.skip(from as int);
        lemma_trim_start(chars@, from as int);
        lemma_trim_end(started, to - from);
    }
    slice_chars(chars, from, to)
}

impl Menu {
    /// The command bar with an empty line.
    pub fn new() -> (menu: Menu)
        ensures
            menu.panel.name@ == "Menu"@,
            menu.panel.start == (Pos::Fixed(0), Pos::Fixed(0)),
            menu.panel.end == (Pos::Opposite(0), Pos::Fixed(1)),
            menu.panel.focusable(),
            !menu.panel.lock,
            menu.panel.fcolor == (Color { r: 0xff, g: 0xff, b: 0xff }),
            menu.panel.bcolor == (Color { r: 0, g: 0, b: 0 }),
            menu.search_bclr == (Color { r: 0, g: 0, b: 0 }),
            menu.search_fclr == (Color { r: 0, g: 0, b: 0 }),
            menu.offset == 0,
            menu.content@.len() == 0,
            menu.input.wf(),
            menu.input@.chars.len() == 0,
            menu.input@.idx == 0,
    {
        let attrs = vec![ViewAttr::Start(1, 1), ViewAttr::End(-1, 2)];
        proof {
            reveal_with_fuel(scan, 3);
        }
        Menu {
            panel: panel(String::from_str("Menu"), &attrs),
            offset: 0,
            search_bclr: Color::new(0, 0, 0),
            search_fclr: Color::new(0, 0, 0),
            content: String::new(),
            input: InputLine::new(),
        }
    }

    /// Whether `self` is `other` but for the line and what is shown.
    pub open spec fn same_frame(&self, other: Menu) -> bool {
        &&& self.panel == other.panel
        &&& self.offset == other.offset
        &&& self.search_bclr == other.search_bclr
        &&& self.search_fclr == other.search_fclr
    }

    /// Whether this is the command bar as the editor starts with it: as it is
    /// made, with the colours of the theme and 15 cells of dashes on either
    /// side.
    pub open spec fn started(&self, settings: Settings) -> bool {
        &&& self.panel.name@ == "Menu"@
        &&& self.panel.start == (Pos::Fixed(0), Pos::Fixed(0))
        &&& self.panel.end == (Pos::Opposite(0), Pos::Fixed(1))
        &&& self.panel.focusable()
        &&& !self.panel.lock
        &&& self.panel.bcolor == settings.theme.weak_bclr
        &&& self.panel.fcolor == settings.theme.stress_fclr
        &&& self.search_bclr == settings.theme.stress_bclr
        &&& self.search_fclr == settings.theme.bright_white
        &&& self.offset == 15
        &&& self.content@.len() == 0
        &&& self.input@.chars.len() == 0
        &&& self.input@.idx == 0
    }

    /// Takes its colours from the theme; the dashes on either side take 15 cells.
    pub fn init(&mut self, settings: &Settings)
        ensures
            final(self).panel.bcolor == settings.theme.weak_bclr,
            final(self).panel.fcolor == settings.theme.stress_fclr,
            final(self).search_bclr == settings.theme.stress_bclr,
            final(self).search_fclr == settings.theme.bright_white,
            final(self).offset == 15,
            final(self).panel.name == old(self).panel.name,
            final(self).panel.start == old(self).panel.start,
            final(self).panel.end == old(self).panel.end,
            final(self).panel.silent == old(self).panel.silent,
            final(self).panel.lock == old(self).panel.lock,
            final(self).panel.show == old(self).panel.show,
            final(self).content == old(self).content,
            final(self).input == old(self).input,
    {
        self.panel.bcolor = settings.theme.weak_bclr;
        self.search_bclr = settings.theme.stress_bclr;
        self.search_fclr = settings.theme.bright_white;
        self.panel.fcolor = settings.theme.stress_fclr;
        self.offset = 15;
    }

    /// The width of the panel.
    pub open spec fn width(&self, term: Term) -> int {
        self.panel.end.0.resolved(term.width) - self.panel.start.0.resolved(term.width)
    }

    /// How many characters the line may hold: what is left of the panel's
    /// width beside the dashes on both sides and the four cells of the field's frame.
    pub open spec fn room(&self, term: Term) -> int {
        if self.width(term) - 2 * self.offset - 4 > 0 {
            self.width(term) - 2 * self.offset - 4
        } else {
            0
        }
    }

    /// The width of the field in which the line is shown: what the dashes on
    /// both sides leave of a panel more than 50 cells wide, and 20 cells in a
    /// narrower one.
    pub open spec fn field(&self, term: Term) -> int {
        if self.width(term) > 50 {
            self.width(term) - 2 * self.offset
        } else {
            20
        }
    }

    /// The width of the field, computed.
    pub fn search_len(&self, term: &Term) -> (len: usize)
        requires
            self.panel.fits(*term),
            self.width(*term) >= 0,
            self.width(*term) > 50 ==> 2 * self.offset <= self.width(*term),
        ensures
            len == self.field(*term),
    {
        let max = (self.panel.end.0.unwrap(term.width) - self.panel.start.0.unwrap(
            term.width,
        )) as usize;
        if max > 50 {
            max - 2 * self.offset
        } else {
            20
        }
    }

    /// How many characters the line may hold.
    fn get_room(&self, term: &Term) -> (room: usize)
        requires
            self.panel.fits(*term),
        ensures
            room == self.room(*term),
    {
        let x = self.panel.start.0.unwrap(term.width);
        let x_e = self.panel.end.0.unwrap(term.width);
        if x_e <= x {
            return 0;
        }
        let max = (x_e - x) as usize;
        if max < 4 || self.offset > (max - 4) / 2 {
            0
        } else {
            max - 2 * self.offset - 4
        }
    }

    /// Whether `self` and `after` are what the update pass makes of `before`
    /// and `module`.
    pub open spec fn updated(&self, before: Menu, module: Module, after: Module) -> bool {
        &&& self.same_frame(before)
        &&& self.input.wf()
        &&& after.same_but_mail(module)
        &&& forall|other: Seq<char>|
                other != before.panel.name@ ==> after.inbox(other) == module.inbox(
                    other,
                )
        &&& after.inbox(before.panel.name@) == if module.inbox(
                before.panel.name@,
            ).len() > 0 {
                module.inbox(before.panel.name@).drop_first()
            } else {
                module.inbox(before.panel.name@)
            }
        &&& module.curr_view@ == before.panel.name@ ==> {
                &&& self.input@.chars == before.input@.chars + (if module.inbox(
                    before.panel.name@,
                ).len() > 0 {
                    module.inbox(before.panel.name@)[0]@
                } else {
                    Seq::empty()
                })
                &&& self.content@ == self.input@.chars
                &&& self.input@.idx == before.input@.idx + self.input@.chars.len()
                    - before.input@.chars.len()
            }
        &&& module.curr_view@ != before.panel.name@ ==> {
                &&& self.input == before.input
                &&& self.content@ == if module.inbox(before.panel.name@).len() > 0 {
                    module.inbox(before.panel.name@)[0]@
                } else {
                    idle_notice()
                }
            }
    }

    /// Once per cycle. With the focus, a notice that waits is typed into the
    /// line, and the line is shown. Without it, the notice is shown, or a
    /// hint where none waits.
    pub fn update(&mut self, module: &mut Module)
        requires
            old(self).input.wf(),
        ensures
            final(self).updated(*old(self), *old(module), *final(module)),
    {
        let received = module.recvmsg(&self.panel.name);
        if module.curr_view == self.panel.name {
            match received {
                Some(recv) => {
                    self.input.push_str(recv.as_str());
                },
                None => {},
            }
            self.content = self.input.text();
        } else {
            self.content = match received {
                Some(recv) => recv,
                None => String::from_str("Press <F1> for help"),
            };
        }
    }

    /// Whether `self` and `after` are what one key makes of `before` and
    /// `module`, with `ask` the request to the host.
    pub open spec fn keyed(
        &self,
        before: Menu,
        module: Module,
        after: Module,
        key: Key,
        ask: Ask,
    ) -> bool {
        &&& self.same_frame(before)
        &&& self.content == before.content
        &&& self.input.wf()
        &&& after.file_mod.wf()
        &&& after.term == module.term
        &&& after.settings == module.settings
        &&& after.curr_view == module.curr_view
        &&& key == Key::Char('\r') ==> self.ran(before, module, after, ask)
        &&& key != Key::Char('\r') ==> {
                &&& ask is Nothing
                &&& self.input@ == edited_line(
                    before.input@,
                    key,
                    before.room(module.term),
                )
                &&& after.file_mod == module.file_mod
                &&& after.message == module.message
                &&& after.operation == module.operation
            }
    }

    /// One key. Enter sends the line as a command; any other key edits the
    /// line.
    pub fn matchar(&mut self, module: &mut Module, key: Key) -> (ask: Ask)
        requires
            old(self).panel.fits(old(module).term),
            old(self).input.wf(),
            old(module).file_mod.wf(),
        ensures
            final(self).keyed(*old(self), *old(module), *final(module), key, ask),
    {
        let term = module.term;
        let room = self.get_room(&term);
        match &key {
            Key::Char(ch) => {
                if *ch == '\r' {
                    return self.exec(module);
                }
                self.input.key(&key, room);
            },
            _ => {
                self.input.key(&key, room);
            },
        }
        Ask::Nothing
    }

    /// Whether the state is what the command in the line of `before` leaves:
    /// `quit` queues the end of the session; `save` has the current buffer
    /// written, or gives a hint where it has no name; `save as:<name>` names
    /// the buffer and has it written; `save all:y` has every dirty buffer
    /// written and `save all:n` does nothing; anything else is reported as
    /// unknown. The line is empty afterwards.
    pub open spec fn ran(&self, before: Menu, module: Module, after: Module, ask: Ask) -> bool {
        let name = module.file_mod.buf(module.file_mod.curr_file).name@;
        &&& self.input@.chars.len() == 0
        &&& self.input@.idx == 0
        &&& match command_of(before.input@.chars) {
            Command::Quit => {
                &&& ask is Nothing
                &&& after.ops() == module.ops().push(OpView::Quit)
                &&& after.message == module.message
                &&& after.file_mod == module.file_mod
            },
            Command::Save => {
                &&& after.operation == module.operation
                &&& after.file_mod == module.file_mod
                &&& if name.len() > 0 {
                    ask is Save && after.sent(module, "Menu"@, seq![saved_notice(name)])
                } else {
                    ask is Nothing && after.sent(module, "Menu"@, seq![unnamed_notice()])
                }
            },
            Command::SaveAs(new_name) => {
                &&& ask is Save
                &&& after.operation == module.operation
                &&& after.sent(module, "Menu"@, seq![saved_notice(new_name)])
                &&& after.file_mod.curr_file == module.file_mod.curr_file
                &&& after.file_mod.file_map@.len() == module.file_mod.file_map@.len()
                &&& after.file_mod.buf(module.file_mod.curr_file).name@ == new_name
                &&& after.file_mod.buf(module.file_mod.curr_file).same_but_name(
                    module.file_mod.buf(module.file_mod.curr_file),
                )
            },
            Command::SaveAll(yes) => {
                &&& ask == if yes {
                    Ask::SaveAll
                } else {
                    Ask::Nothing
                }
                &&& after.operation == module.operation
                &&& after.message == module.message
                &&& after.file_mod == module.file_mod
            },
            Command::Unknown(cmd) => {
                &&& ask is Nothing
                &&& after.operation == module.operation
                &&& after.file_mod == module.file_mod
                &&& after.sent(module, "Menu"@, seq![unknown_notice(cmd)])
            },
        }
    }

    /// Carries out the command in the line and empties the line.
    pub fn exec(&mut self, module: &mut Module) -> (ask: Ask)
        requires
            old(module).file_mod.wf(),
        ensures
            final(self).same_frame(*old(self)),
            final(self).content == old(self).content,
            final(self).input.wf(),
            final(module).file_mod.wf(),
            final(module).term == old(module).term,
            final(module).settings == old(module).settings,
            final(module).curr_view == old(module).curr_view,
            final(self).ran(*old(self), *old(module), *final(module), ask),
    {
        let cmd = trim(&self.input.chars);
        let line = cmd.as_str();
        let ghost inbox = old(module).inbox_text("Menu"@);
        let ghost chars = cmd@;
        proof {
            reveal_strlit("quit");
            reveal_strlit("save");
            reveal_strlit("save as:");
            reveal_strlit("save all:y");
            reveal_strlit("save all:n");
        }
        let known = cmd.as_str().unicode_len();
        let ask = if same_text(line, "quit") {
            module.push_op(Op::Quit);
            Ask::Nothing
        } else if same_text(line, "save") {
            if !module.file_mod.name().as_str().is_empty() {
                let msg = saved_msg(module.file_mod.name().as_str());
                module.sendmsg(String::from_str("Menu"), msg);
                proof {
                    let notice = saved_notice(
                        old(module).file_mod.buf(old(module).file_mod.curr_file).name@,
                    );
                    assert(inbox.push(notice) =~= inbox + seq![notice]);
                }
                Ask::Save
            } else {
                module.sendmsg(String::from_str("Menu"), String::from_str("Use <Ctrl+s>"));
                assert(inbox.push(unnamed_notice()) =~= inbox + seq![unnamed_notice()]);
                Ask::Nothing
            }
        } else if known > 8 && same_text(line.substring_char(0, 8), "save as:") {
            let name = String::from_str(line.substring_char(8, known));
            let msg = saved_msg(name.as_str());
            module.sendmsg(String::from_str("Menu"), msg);
            assert(inbox.push(saved_notice(name@)) =~= inbox + seq![saved_notice(name@)]);
            module.file_mod.set_name(name);
            Ask::Save
        } else if same_text(line, "save all:y") {
            Ask::SaveAll
        } else if same_text(line, "save all:n") {
            Ask::Nothing
        } else {
            let mut msg = String::from_str("Unkonwn Command: `");
            msg.append(line);
            msg.append("`");
            module.sendmsg(String::from_str("Menu"), msg);
            assert(inbox.push(unknown_notice(chars)) =~= inbox + seq![unknown_notice(chars)]);
            Ask::Nothing
        };
        self.input.clear();
        ask
    }

    /// The cell of the input cursor: behind the dashes on the left and the field's
    /// frame, after what was typed before the cursor.
    pub fn set_cursor(&self, term: &Term) -> (cell: (usize, usize))
        requires
            self.panel.fits(*term),
        ensures
            cell.0 == crate::wrap::clip(
                crate::wrap::clip(self.panel.start.0.resolved(term.width) + 3 + self.offset)
                    + self.input@.idx,
            ),
            cell.1 == self.panel.start.1.resolved(term.height),
    {
        let x = self.panel.start.0.unwrap(term.width) as usize;
        let y = self.panel.start.1.unwrap(term.height) as usize;
        (crate::wrap::sat_add(crate::wrap::sat_add(x + 3, self.offset), self.input.idx), y)
    }
}

} // verus!
