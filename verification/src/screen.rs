//! The panel compositor.
//!
//! [`Module`] is what the panels share: the terminal's size, the buffer store,
//! the settings, a mailbox for each panel name and the operations that the
//! panels ask the compositor to carry out. [`Screen`] owns the panels, knows
//! which one has the focus, and runs one cycle per key.

use crate::file::FileMod;
use crate::key::Key;
use crate::settings::Settings;
use crate::terminal::term::Term;
use crate::view::bottombar::BottomBar;
use crate::view::filetree::FileTree;
use crate::view::help::Help;
use crate::view::mainview::MainView;
use crate::view::menu::Menu;
use crate::view::topbar::TopBar;
use crate::fmt::same_text;
use crate::focus::{lemma_first_ok_found, lemma_first_ok_none, next_focus};
use crate::view::{Ask, Panel, Position, Prompt, ViewID};
use vstd::string::StringExecFns;
use std::collections::VecDeque;
use vstd::prelude::*;

verus! {

/// What a panel may ask the compositor to do at the end of the cycle.
#[derive(Debug)]
pub enum Op {
    Nothing,
    /// Give the focus to the panel with this name.
    Shift(String),
    /// Move the corners of the panel with this name by
    /// (start x, start y, end x, end y).
    Resize(String, (i16, i16, i16, i16)),
    Quit,
}

/// An operation with its panel name read as characters.
pub enum OpView {
    Nothing,
    Shift(Seq<char>),
    Resize(Seq<char>, (i16, i16, i16, i16)),
    Quit,
}

impl View for Op {
    type V = OpView;

    open spec fn view(&self) -> OpView {
        match self {
            Op::Nothing => OpView::Nothing,
            Op::Shift(name) => OpView::Shift(name@),
            Op::Resize(name, by) => OpView::Resize(name@, *by),
            Op::Quit => OpView::Quit,
        }
    }
}

/// Operations read as their views.
pub open spec fn ops_view(ops: Seq<Op>) -> Seq<OpView> {
    Seq::new(ops.len(), |i: int| ops[i]@)
}

/// Messages read as characters.
pub open spec fn mail_text(mail: Seq<String>) -> Seq<Seq<char>> {
    Seq::new(mail.len(), |i: int| mail[i]@)
}

/// The messages that wait for the panel with one name, oldest first.
pub struct Mailbox {
    pub name: String,
    pub queue: VecDeque<String>,
}

/// What the panels share.
pub struct Module {
    pub term: Term,
    pub file_mod: FileMod,
    pub settings: Settings,
    /// The name of the focused panel.
    pub curr_view: String,
    pub message: Vec<Mailbox>,
    pub operation: Vec<Op>,
}

/// The index of the mailbox for `name` among the first `upto`, or -1.
pub open spec fn box_index(boxes: Seq<Mailbox>, name: Seq<char>, upto: int) -> int
    decreases upto,
{
    if upto <= 0 {
        -1
    } else if box_index(boxes, name, upto - 1) >= 0 {
        box_index(boxes, name, upto - 1)
    } else if boxes[upto - 1].name@ == name {
        upto - 1
    } else {
        -1
    }
}

/// The messages that wait under `name`, oldest first.
pub open spec fn inbox_of(boxes: Seq<Mailbox>, name: Seq<char>) -> Seq<String> {
    let at = box_index(boxes, name, boxes.len() as int);
    if at >= 0 {
        boxes[at].queue@
    } else {
        Seq::empty()
    }
}

/// What `box_index` finds is the first mailbox with that name.
pub proof fn lemma_box_index(boxes: Seq<Mailbox>, name: Seq<char>, upto: int)
    requires
        0 <= upto <= boxes.len(),
    ensures
        -1 <= box_index(boxes, name, upto) < upto,
        box_index(boxes, name, upto) >= 0 ==> boxes[box_index(boxes, name, upto)].name@ == name,
        forall|i: int|
            0 <= i < upto && (box_index(boxes, name, upto) < 0 || i < box_index(boxes, name, upto))
                ==> (#[trigger] boxes[i]).name@ != name,
    decreases upto,
{
    if upto > 0 {
        lemma_box_index(boxes, name, upto - 1);
    }
}

/// The first mailbox with a name is found whatever stands behind it.
pub proof fn lemma_box_index_stays(boxes: Seq<Mailbox>, name: Seq<char>, found: int, upto: int)
    requires
        0 < found <= upto,
        box_index(boxes, name, found) >= 0,
    ensures
        box_index(boxes, name, upto) == box_index(boxes, name, found),
    decreases upto - found,
{
    if found < upto {
        lemma_box_index_stays(boxes, name, found, upto - 1);
    }
}

/// Mailboxes with the same names in the same places are searched alike.
pub proof fn lemma_box_index_same_names(
    a: Seq<Mailbox>,
    b: Seq<Mailbox>,
    name: Seq<char>,
    upto: int,
)
    requires
        0 <= upto <= a.len(),
        upto <= b.len(),
        forall|i: int| 0 <= i < upto ==> (#[trigger] a[i]).name@ == b[i].name@,
    ensures
        box_index(a, name, upto) == box_index(b, name, upto),
    decreases upto,
{
    if upto > 0 {
        lemma_box_index_same_names(a, b, name, upto - 1);
    }
}

impl Module {
    /// The shared state at the start: no messages, no operations, no focus.
    pub fn new(term: Term, file_mod: FileMod, settings: Settings) -> (module: Module)
        ensures
            module.term == term,
            module.file_mod == file_mod,
            module.settings == settings,
            module.curr_view@.len() == 0,
            module.message@.len() == 0,
            module.operation@.len() == 0,
    {
        Module {
            term,
            file_mod,
            settings,
            curr_view: String::new(),
            message: Vec::new(),
            operation: Vec::new(),
        }
    }

    /// The messages that wait for the panel `name`, oldest first.
    pub open spec fn inbox(&self, name: Seq<char>) -> Seq<String> {
        inbox_of(self.message@, name)
    }

    /// The text of the messages that wait for the panel `name`.
    pub open spec fn inbox_text(&self, name: Seq<char>) -> Seq<Seq<char>> {
        mail_text(self.inbox(name))
    }

    /// The queued operations, read as their views.
    pub open spec fn ops(&self) -> Seq<OpView> {
        ops_view(self.operation@)
    }

    /// Whether the mail is that of `before` with `texts` sent to the panel
    /// `to`, in this order.
    pub open spec fn sent(&self, before: Module, to: Seq<char>, texts: Seq<Seq<char>>) -> bool {
        &&& self.inbox_text(to) == before.inbox_text(to) + texts
        &&& forall|other: Seq<char>| other != to ==> self.inbox(other) == before.inbox(other)
    }

    /// Whether `self` is `other` but for the mailboxes.
    pub open spec fn same_but_mail(&self, other: Module) -> bool {
        &&& self.term == other.term
        &&& self.file_mod == other.file_mod
        &&& self.settings == other.settings
        &&& self.curr_view == other.curr_view
        &&& self.operation == other.operation
    }

    /// The index of the mailbox for `name`, if there is one.
    fn find_box(&self, name: &String) -> (at: Option<usize>)
        ensures
            match at {
                Some(i) => i < self.message@.len() && i == box_index(
                    self.message@,
                    name@,
                    self.message@.len() as int,
                ),
                None => box_index(self.message@, name@, self.message@.len() as int) < 0,
            },
    {
        let mut i: usize = 0;
        while i < self.message.len()
            invariant
                i <= self.message@.len(),
                box_index(self.message@, name@, i as int) < 0,
            decreases self.message@.len() - i,
        {
            if self.message[i].name == *name {
                proof {
                    lemma_box_index_stays(
                        self.message@,
                        name@,
                        i + 1,
                        self.message@.len() as int,
                    );
                }
                return Some(i);
            }
            i += 1;
        }
        None
    }

    /// Sends `content` to the panel `to`: the message waits behind those
    /// that wait there already.
    pub fn sendmsg(&mut self, to: String, content: String)
        ensures
            final(self).inbox(to@) == old(self).inbox(to@).push(content),
            final(self).inbox_text(to@) == old(self).inbox_text(to@).push(content@),
            forall|name: Seq<char>| name != to@
                ==> final(self).inbox(name) == old(self).inbox(name),
            final(self).same_but_mail(*old(self)),
    {
        let ghost before = self.message@;
        let ghost count = before.len() as int;
        match self.find_box(&to) {
            Some(at) => {
                self.message[at].queue.push_back(content);
                proof {
                    let after = self.message@;
                    assert forall|name: Seq<char>| true implies box_index(after, name, count)
                        == box_index(before, name, count) by {
                        lemma_box_index_same_names(after, before, name, count);
                    }
                    lemma_box_index(before, to@, count);
                    assert forall|name: Seq<char>| name != to@ implies inbox_of(after, name)
                        == inbox_of(before, name) by {
                        lemma_box_index(before, name, count);
                    }
                }
            },
            None => {
                let mut queue = VecDeque::new();
                queue.push_back(content);
                self.message.push(Mailbox { name: to, queue });
                proof {
                    let after = self.message@;
                    lemma_box_index(before, to@, count);
                    assert forall|name: Seq<char>| true implies box_index(after, name, count)
                        == box_index(before, name, count) by {
                        lemma_box_index_same_names(after, before, name, count);
                    }
                    assert forall|name: Seq<char>| name != to@ implies inbox_of(after, name)
                        == inbox_of(before, name) by {
                        lemma_box_index(before, name, count);
                    }
                }
            },
        }
    }

    /// Takes the oldest message that waits for the panel `name`, if one does.
    pub fn recvmsg(&mut self, name: &String) -> (msg: Option<String>)
        ensures
            old(self).inbox(name@).len() == 0
                ==> msg.is_none() && final(self).inbox(name@) == old(self).inbox(name@),
            old(self).inbox(name@).len() > 0
                ==> msg == Some(old(self).inbox(name@)[0])
                    && final(self).inbox(name@) == old(self).inbox(name@).drop_first(),
            forall|other: Seq<char>|
                other != name@ ==> final(self).inbox(other) == old(self).inbox(other),
            final(self).same_but_mail(*old(self)),
    {
        let ghost before = self.message@;
        let ghost count = before.len() as int;
        match self.find_box(name) {
            Some(at) => {
                let msg = self.message[at].queue.pop_front();
                proof {
                    let after = self.message@;
                    assert forall|other: Seq<char>| true implies box_index(after, other, count)
                        == box_index(before, other, count) by {
                        lemma_box_index_same_names(after, before, other, count);
                    }
                    lemma_box_index(before, name@, count);
                    assert forall|other: Seq<char>| other != name@ implies inbox_of(after, other)
                        == inbox_of(before, other) by {
                        lemma_box_index(before, other, count);
                    }
                }
                msg
            },
            None => None,
        }
    }

    /// Queues an operation for the end of the cycle.
    pub fn push_op(&mut self, op: Op)
        ensures
            final(self).operation@ == old(self).operation@.push(op),
            final(self).ops() == old(self).ops().push(op@),
            final(self).term == old(self).term,
            final(self).file_mod == old(self).file_mod,
            final(self).settings == old(self).settings,
            final(self).curr_view == old(self).curr_view,
            final(self).message == old(self).message,
    {
        self.operation.push(op);
    }
}

/// One panel of the screen, whichever kind it is.
pub enum AnyView {
    Main(MainView),
    Top(TopBar),
    Bottom(BottomBar),
    Tree(FileTree),
    Menu(Menu),
    Help(Help),
}

impl AnyView {
    /// The panel record of the view.
    pub open spec fn panel(&self) -> Panel {
        match self {
            AnyView::Main(v) => v.panel,
            AnyView::Top(v) => v.panel,
            AnyView::Bottom(v) => v.panel,
            AnyView::Tree(v) => v.panel,
            AnyView::Menu(v) => v.panel,
            AnyView::Help(v) => v.panel,
        }
    }

    /// The view with another panel record and nothing else changed.
    pub open spec fn with_panel(self, panel: Panel) -> AnyView {
        match self {
            AnyView::Main(v) => AnyView::Main(MainView { panel, ..v }),
            AnyView::Top(v) => AnyView::Top(TopBar { panel, ..v }),
            AnyView::Bottom(v) => AnyView::Bottom(BottomBar { panel, ..v }),
            AnyView::Tree(v) => AnyView::Tree(FileTree { panel, ..v }),
            AnyView::Menu(v) => AnyView::Menu(Menu { panel, ..v }),
            AnyView::Help(v) => AnyView::Help(Help { panel, ..v }),
        }
    }

    /// Whether the view can take `key`.
    pub open spec fn can_take(&self, module: Module, key: Key) -> bool {
        match self {
            AnyView::Main(v) => v.can_take(module, key),
            AnyView::Tree(v) => {
                &&& v.wf()
                &&& v.panel.fits(module.term)
                &&& v.page_height(module.term) >= 0
                &&& key == Key::Char('\r') ==> v.curr_line < v.dir_items@.len()
            },
            AnyView::Menu(v) => v.panel.fits(module.term) && v.input.wf() && module.file_mod.wf(),
            AnyView::Help(v) => v.content@.len() > 0,
            _ => true,
        }
    }

    /// Whether `can_take` holds, computed.
    pub fn check_take(&self, module: &Module, key: &Key) -> (ok: bool)
        ensures
            ok == self.can_take(*module, *key),
    {
        match self {
            AnyView::Main(v) => v.check_take(module, key),
            AnyView::Tree(v) => {
                if v.scroll > v.curr_line || !v.panel.check_fits(&module.term) {
                    return false;
                }
                let y = v.panel.start.1.unwrap(module.term.height);
                let y_e = v.panel.end.1.unwrap(module.term.height);
                let enter = match key {
                    Key::Char(c) => *c == '\r',
                    _ => false,
                };
                y <= y_e && (!enter || v.curr_line < v.dir_items.len())
            },
            AnyView::Menu(v) => v.panel.check_fits(&module.term) && v.input.idx
                <= v.input.chars.len() && module.file_mod.check_wf(),
            AnyView::Help(v) => v.content.len() > 0,
            _ => true,
        }
    }

    /// Whether `steady` holds, computed.
    pub fn check_steady(&self) -> (ok: bool)
        ensures
            ok == self.steady(),
    {
        match self {
            AnyView::Main(v) => {
                let menu = String::from_str("Menu");
                !(v.panel.name == menu)
            },
            AnyView::Menu(v) => v.input.idx <= v.input.chars.len(),
            _ => true,
        }
    }

    /// Whether `self` and `after` are what one key makes of `before` and
    /// `module`, with `ask` the request to the host. The two bars take no
    /// keys.
    pub open spec fn took(
        &self,
        before: AnyView,
        module: Module,
        after: Module,
        key: Key,
        ask: Ask,
    ) -> bool {
        match (before, *self) {
            (AnyView::Main(b), AnyView::Main(v)) => v.took(b, module, after, key, ask),
            (AnyView::Tree(b), AnyView::Tree(v)) => v.keyed(b, module.term, key, ask)
                && after == module,
            (AnyView::Menu(b), AnyView::Menu(v)) => v.keyed(b, module, after, key, ask),
            (AnyView::Help(b), AnyView::Help(v)) => v.keyed(b, key) && after == module
                && ask is Nothing,
            (AnyView::Top(_), AnyView::Top(_)) => *self == before && after == module
                && ask is Nothing,
            (AnyView::Bottom(_), AnyView::Bottom(_)) => *self == before && after == module
                && ask is Nothing,
            _ => false,
        }
    }

    /// One key for the view.
    pub fn matchar(&mut self, module: &mut Module, key: Key) -> (ask: Ask)
        requires
            old(self).can_take(*old(module), key),
        ensures
            final(self).took(*old(self), *old(module), *final(module), key, ask),
    {
        match self {
            AnyView::Main(v) => v.matchar(module, key),
            AnyView::Tree(v) => {
                let term = module.term;
                v.matchar(&term, key)
            },
            AnyView::Menu(v) => v.matchar(module, key),
            AnyView::Help(v) => {
                v.matchar(key);
                Ask::Nothing
            },
            AnyView::Top(_) => Ask::Nothing,
            AnyView::Bottom(_) => Ask::Nothing,
        }
    }

    /// Whether the view can run its part of the update pass.
    pub open spec fn can_update(&self, module: Module) -> bool {
        module.file_mod.wf() && self.steady()
    }

    /// Whether `self` and `after` are what the update pass makes of `before`
    /// and `module`. The file tree has no part in it.
    pub open spec fn updated(
        &self,
        before: AnyView,
        module: Module,
        after: Module,
        size: Seq<char>,
    ) -> bool {
        match (before, *self) {
            (AnyView::Main(b), AnyView::Main(v)) => v.updated(b, module, after),
            (AnyView::Menu(b), AnyView::Menu(v)) => v.updated(b, module, after),
            (AnyView::Help(b), AnyView::Help(v)) => v.updated(b, module) && after == module,
            (AnyView::Top(b), AnyView::Top(v)) => v.updated(b, module.file_mod) && after == module,
            (AnyView::Bottom(b), AnyView::Bottom(v)) => v.updated(b, module, size) && after
                == module,
            (AnyView::Tree(_), AnyView::Tree(_)) => *self == before && after == module,
            _ => false,
        }
    }

    /// What an update pass leaves of a panel's record: everything but the
    /// flag of the help panel, which is shown exactly while it has the focus.
    pub open spec fn kept(&self, before: AnyView, module: Module) -> bool {
        &&& self.steady()
        &&& self.panel().name == before.panel().name
        &&& self.panel().start == before.panel().start
        &&& self.panel().end == before.panel().end
        &&& self.panel().silent == before.panel().silent
        &&& self.panel().lock == before.panel().lock
        &&& self.panel().show == if before is Help {
            module.curr_view@ == before.panel().name@
        } else {
            before.panel().show
        }
        &&& before is Help <==> self is Help
        &&& before is Main <==> self is Main
    }

    /// The view's part of the update pass. `size` is the size of the current
    /// buffer's file as the bottom bar is to show it.
    pub fn update(&mut self, module: &mut Module, size: &str)
        requires
            old(self).can_update(*old(module)),
        ensures
            final(self).updated(*old(self), *old(module), *final(module), size@),
            final(self).kept(*old(self), *old(module)),
            final(module).term == old(module).term,
            final(module).settings == old(module).settings,
            final(module).curr_view == old(module).curr_view,
            final(module).operation == old(module).operation,
            final(module).file_mod.wf(),
    {
        match self {
            AnyView::Main(v) => {
                v.update(module);
            },
            AnyView::Top(v) => {
                v.update(&module.file_mod);
            },
            AnyView::Bottom(v) => {
                v.update(module, size);
            },
            AnyView::Tree(_) => {},
            AnyView::Menu(v) => {
                v.update(module);
            },
            AnyView::Help(v) => {
                v.update(module);
            },
        }
    }

    /// Moves the corners of the view's panel; see [`Panel::resized`].
    pub fn resize_panel(&mut self, term: &Term, by: (i16, i16, i16, i16))
        ensures
            *final(self) == old(self).with_panel(
                old(self).panel().resized(*term, by.0, by.1, by.2, by.3),
            ),
    {
        match self {
            AnyView::Main(v) => v.panel.resize(term, by.0, by.1, by.2, by.3),
            AnyView::Top(v) => v.panel.resize(term, by.0, by.1, by.2, by.3),
            AnyView::Bottom(v) => v.panel.resize(term, by.0, by.1, by.2, by.3),
            AnyView::Tree(v) => v.panel.resize(term, by.0, by.1, by.2, by.3),
            AnyView::Menu(v) => v.panel.resize(term, by.0, by.1, by.2, by.3),
            AnyView::Help(v) => v.panel.resize(term, by.0, by.1, by.2, by.3),
        }
    }

    /// The panel record of the view.
    pub fn get_panel(&self) -> (panel: &Panel)
        ensures
            *panel == self.panel(),
    {
        match self {
            AnyView::Main(v) => &v.panel,
            AnyView::Top(v) => &v.panel,
            AnyView::Bottom(v) => &v.panel,
            AnyView::Tree(v) => &v.panel,
            AnyView::Menu(v) => &v.panel,
            AnyView::Help(v) => &v.panel,
        }
    }
}

impl Position for AnyView {
    open spec fn frame(&self) -> Panel {
        self.panel()
    }

    fn get_name(&self) -> (name: &String) {
        &self.get_panel().name
    }

    fn get_start(&self, term: &Term) -> (cell: (u16, u16)) {
        self.get_panel().get_start(term)
    }

    fn get_end(&self, term: &Term) -> (cell: (u16, u16)) {
        self.get_panel().get_end(term)
    }

    fn resize(&mut self, term: &Term, dx_s: i16, dy_s: i16, dx_e: i16, dy_e: i16)
        ensures
            *final(self) == old(self).with_panel(
                old(self).panel().resized(*term, dx_s, dy_s, dx_e, dy_e),
            ),
    {
        self.resize_panel(term, (dx_s, dy_s, dx_e, dy_e))
    }

    fn is_silent(&self) -> (b: bool) {
        self.get_panel().silent
    }

    fn is_lock(&self) -> (b: bool) {
        self.get_panel().lock
    }

    fn is_show(&self) -> (b: bool) {
        self.get_panel().show
    }
}

impl AnyView {
    /// What an update pass needs of the view itself.
    pub open spec fn steady(&self) -> bool {
        match self {
            AnyView::Main(v) => v.panel.name@ != "Menu"@,
            AnyView::Menu(v) => v.input.wf(),
            _ => true,
        }
    }
}

/// The compositor: the panels and the focus.
pub struct Screen {
    /// The identifier of the focused panel.
    pub focus: ViewID,
    /// The identifier that the next panel gets.
    pub id_cnt: u64,
    /// The panels; the one with identifier `id` stands at index `id - 1`.
    pub view_map: Vec<AnyView>,
}

/// What is to happen after the user has answered a question on Esc.
#[derive(Clone, Copy, Debug, PartialEq, Eq, Structural)]
pub enum Verdict {
    /// The session goes on.
    Continue,
    /// The session ends.
    Quit,
    /// Every dirty buffer is saved, then the session ends.
    SaveAllAndQuit,
}

/// For each panel, whether the focus may cycle onto it.
pub open spec fn can_focus(views: Seq<AnyView>) -> Seq<bool> {
    Seq::new(views.len(), |i: int| views[i].panel().focusable())
}

/// The identifier of the panel with the name `name` among the first `upto`:
/// the one registered last, 0 where there is none.
pub open spec fn name_id(views: Seq<AnyView>, name: Seq<char>, upto: int) -> int
    decreases upto,
{
    if upto <= 0 {
        0
    } else if views[upto - 1].panel().name@ == name {
        upto
    } else {
        name_id(views, name, upto - 1)
    }
}

/// What `name_id` finds is the identifier of a panel with that name.
pub proof fn lemma_name_id(views: Seq<AnyView>, name: Seq<char>, upto: int)
    requires
        0 <= upto <= views.len(),
    ensures
        0 <= name_id(views, name, upto) <= upto,
        name_id(views, name, upto) > 0 ==> views[name_id(views, name, upto) - 1].panel().name@
            == name,
    decreases upto,
{
    if upto > 0 {
        lemma_name_id(views, name, upto - 1);
    }
}

/// Whether the answer to a yes-or-no question is no.
pub open spec fn says_no(text: Seq<char>) -> bool {
    text == "n"@ || text == "N"@
}

/// The verdict on the answer to a question asked on Esc: after "save all?"
/// the session ends, with every dirty buffer saved unless the answer is no;
/// after "quit?" the session ends unless the answer is no.
pub open spec fn verdict_of(prompt: Prompt, text: Seq<char>) -> Verdict {
    match prompt {
        Prompt::SaveAll => if says_no(text) {
            Verdict::Quit
        } else {
            Verdict::SaveAllAndQuit
        },
        Prompt::Quit => if says_no(text) {
            Verdict::Continue
        } else {
            Verdict::Quit
        },
        _ => Verdict::Continue,
    }
}

/// The panels in the order in which they are painted: those that are shown
/// and do not have the focus, by rising identifier among the first `upto`.
pub open spec fn paint_before(views: Seq<AnyView>, focus: ViewID, upto: int) -> Seq<ViewID>
    decreases upto,
{
    if upto <= 0 {
        Seq::empty()
    } else if upto != focus && views[upto - 1].panel().show {
        paint_before(views, focus, upto - 1).push(upto as ViewID)
    } else {
        paint_before(views, focus, upto - 1)
    }
}

/// The state that the queued operations work on.
pub struct Stage {
    pub views: Seq<AnyView>,
    pub focus: ViewID,
    pub curr_view: Seq<char>,
    /// How many operations are still queued.
    pub left: int,
    pub quit: bool,
}

/// The stage after one operation. A panel that is not registered gets
/// neither focus nor new corners.
pub open spec fn applied(stage: Stage, op: OpView, term: Term) -> Stage {
    match op {
        OpView::Nothing => stage,
        OpView::Shift(name) => {
            let id = name_id(stage.views, name, stage.views.len() as int);
            if id != 0 {
                Stage { focus: id as ViewID, curr_view: name, ..stage }
            } else {
                stage
            }
        },
        OpView::Resize(name, by) => {
            let id = name_id(stage.views, name, stage.views.len() as int);
            if id != 0 {
                Stage {
                    views: stage.views.update(
                        id - 1,
                        stage.views[id - 1].with_panel(
                            stage.views[id - 1].panel().resized(term, by.0, by.1, by.2, by.3),
                        ),
                    ),
                    ..stage
                }
            } else {
                stage
            }
        },
        OpView::Quit => Stage { quit: true, ..stage },
    }
}

/// The stage after the queued operations were carried out, the one queued
/// last first, up to and with the first request to quit.
pub open spec fn drained(stage: Stage, ops: Seq<OpView>, term: Term) -> Stage
    decreases ops.len(),
{
    if ops.len() == 0 {
        Stage { left: 0, ..stage }
    } else if ops.last() is Quit {
        Stage { quit: true, left: ops.len() - 1, ..stage }
    } else {
        drained(applied(stage, ops.last(), term), ops.drop_last(), term)
    }
}

impl Screen {
    /// Identifiers start at 1 and none is used twice.
    pub open spec fn wf(&self) -> bool {
        self.id_cnt == self.view_map@.len() + 1
    }

    /// Whether some panel can take the focus.
    pub open spec fn has_focusable(&self) -> bool {
        exists|j: int| 0 <= j < self.view_map@.len() && can_focus(self.view_map@)[j]
    }

    /// The stage that the queued operations of `module` work on.
    pub open spec fn stage(&self, module: Module) -> Stage {
        Stage {
            views: self.view_map@,
            focus: self.focus,
            curr_view: module.curr_view@,
            left: module.operation@.len() as int,
            quit: false,
        }
    }

    /// A screen without panels.
    pub fn new() -> (screen: Screen)
        ensures
            screen.wf(),
            screen.focus == 0,
            screen.view_map@.len() == 0,
    {
        Screen { focus: 0, id_cnt: 1, view_map: Vec::new() }
    }

    /// Adds a panel and returns its identifier.
    pub fn register(&mut self, view: AnyView) -> (id: ViewID)
        requires
            old(self).wf(),
            old(self).id_cnt < u64::MAX,
        ensures
            final(self).wf(),
            id == old(self).id_cnt,
            final(self).view_map@ == old(self).view_map@.push(view),
            final(self).focus == old(self).focus,
    {
        let id = self.id_cnt;
        self.view_map.push(view);
        self.id_cnt += 1;
        id
    }

    /// Builds the six panels of the editor and registers them: the text
    /// viewport first, which gets the focus, then the top bar, the bottom
    /// bar, the file tree, the command bar and the help panel. The line
    /// numbers are switched on, six cells wide. `entries` is the listing of
    /// the working directory and `modified` its modification time.
    pub fn init(
        &mut self,
        module: &mut Module,
        entries: Vec<crate::view::filetree::DirItem>,
        modified: crate::file::Stamp,
    )
        requires
            old(self).wf(),
            old(self).view_map@.len() == 0,
            old(module).settings.theme.normal_bclr.can_darken(4),
        ensures
            final(self).wf(),
            final(self).focus == 1,
            final(self).view_map@.len() == 6,
            final(self).view_map@[0] matches AnyView::Main(v) && v.started(final(module).settings),
            final(self).view_map@[1] matches AnyView::Top(v) && v.started(final(module).settings),
            final(self).view_map@[2] matches AnyView::Bottom(v) && v.started(
                final(module).settings,
            ),
            final(self).view_map@[3] matches AnyView::Tree(v) && v.started(
                *final(module),
                entries@,
                modified,
            ),
            final(self).view_map@[4] matches AnyView::Menu(v) && v.started(final(module).settings),
            final(self).view_map@[5] matches AnyView::Help(v) && v.started(final(module).settings),
            final(self).has_focusable(),
            final(module).settings.num_offset == 6,
            final(module).settings.is_show_num,
            final(module).settings.theme == old(module).settings.theme,
            final(module).curr_view@ == "MainView"@,
            final(module).term == old(module).term,
            final(module).file_mod == old(module).file_mod,
            final(module).message == old(module).message,
            final(module).operation == old(module).operation,
    {
        let mut main_view = MainView::new();
        let mut top_bar = TopBar::new();
        let mut bottom_bar = BottomBar::new();
        let mut file_tree = FileTree::new();
        let mut menu = Menu::new();
        let mut help = Help::new();
        module.settings.num_offset = 6;
        module.settings.is_show_num = true;
        module.curr_view = main_view.panel.name.clone();
        let settings = module.settings;
        main_view.init(&settings);
        top_bar.init(&settings);
        bottom_bar.init(&settings);
        file_tree.init(module, entries, modified);
        menu.init(&settings);
        help.init(&settings);
        self.register(AnyView::Main(main_view));
        self.register(AnyView::Top(top_bar));
        self.register(AnyView::Bottom(bottom_bar));
        self.register(AnyView::Tree(file_tree));
        self.register(AnyView::Menu(menu));
        self.register(AnyView::Help(help));
        self.focus = 1;
        assert(can_focus(self.view_map@)[0]);
    }

    /// Whether the panel with the identifier `id` can take the focus.
    fn focusable(&self, id: ViewID) -> (b: bool)
        requires
            1 <= id <= self.view_map@.len(),
        ensures
            b == can_focus(self.view_map@)[id - 1],
    {
        let count = self.view_map.len();
        assert(id <= count);
        let at = (id - 1) as usize;
        let panel = self.view_map[at].get_panel();
        !panel.silent && panel.show
    }

    /// The focus cycles on: to the next panel that is shown and not silent,
    /// from the last panel on to the first. Returns the name of the panel
    /// that has the focus now.
    pub fn shift(&mut self) -> (name: String)
        requires
            old(self).wf(),
            old(self).has_focusable(),
        ensures
            final(self).focus == next_focus(can_focus(old(self).view_map@), old(self).focus as int),
            1 <= final(self).focus <= old(self).view_map@.len(),
            final(self).view_map@[final(self).focus - 1].panel().focusable(),
            name == final(self).view_map@[final(self).focus - 1].panel().name,
            final(self).view_map == old(self).view_map,
            final(self).id_cnt == old(self).id_cnt,
    {
        let count = self.id_cnt - 1;
        let ghost ok = can_focus(self.view_map@);
        let ghost n = ok.len() as int;
        let ghost start = self.focus as int % n;
        let ghost witness = choose|j: int| 0 <= j < self.view_map@.len() && can_focus(
            self.view_map@,
        )[j];
        let mut new = self.focus % count + 1;
        let ghost mut wrapped = false;
        proof {
            vstd::arithmetic::div_mod::lemma_mod_bound(self.focus as int, n);
        }
        while !self.focusable(new)
            invariant
                self.wf(),
                *self == *old(self),
                ok == can_focus(self.view_map@),
                n == ok.len(),
                count == n,
                0 <= start < n,
                0 <= witness < n && ok[witness],
                1 <= new <= count,
                !wrapped ==> start <= new - 1 && forall|j: int| start <= j < new - 1 ==> !ok[j],
                wrapped ==> (forall|j: int| start <= j < n ==> !ok[j]) && forall|j: int|
                    0 <= j < new - 1 ==> !ok[j],
            decreases
                    (if wrapped {
                        n - new
                    } else {
                        2 * n - new
                    }),
        {
            proof {
                if new == count {
                    vstd::arithmetic::div_mod::lemma_mod_self_0(n);
                    wrapped = true;
                } else {
                    vstd::arithmetic::div_mod::lemma_small_mod(new as nat, n as nat);
                }
            }
            new = new % count + 1;
        }
        proof {
            if !wrapped {
                lemma_first_ok_found(ok, start, n, new - 1);
            } else {
                lemma_first_ok_none(ok, start, n);
                lemma_first_ok_found(ok, 0, n, new - 1);
            }
        }
        self.focus = new;
        let count = self.view_map.len();
        assert(new <= count);
        let at = (new - 1) as usize;
        self.view_map[at].get_panel().name.clone()
    }

    /// The focus goes to the panel with the name `name`, if there is one.
    /// Returns whether there is.
    pub fn shift_to(&mut self, name: &String) -> (found: bool)
        requires
            old(self).wf(),
        ensures
            found == (name_id(old(self).view_map@, name@, old(self).view_map@.len() as int) != 0),
            final(self).focus == if found {
                name_id(old(self).view_map@, name@, old(self).view_map@.len() as int) as ViewID
            } else {
                old(self).focus
            },
            final(self).view_map == old(self).view_map,
            final(self).id_cnt == old(self).id_cnt,
    {
        let id = self.find(name);
        if id != 0 {
            self.focus = id;
            true
        } else {
            false
        }
    }

    /// The identifier of the panel with the name `name`, 0 where there is
    /// none.
    pub fn find(&self, name: &String) -> (id: ViewID)
        requires
            self.wf(),
        ensures
            id == name_id(self.view_map@, name@, self.view_map@.len() as int),
            id <= self.view_map@.len(),
    {
        let mut upto: usize = self.view_map.len();
        while upto > 0
            invariant
                upto <= self.view_map@.len(),
                self.wf(),
                name_id(self.view_map@, name@, self.view_map@.len() as int) == name_id(
                    self.view_map@,
                    name@,
                    upto as int,
                ),
            decreases upto,
        {
            if self.view_map[upto - 1].get_panel().name == *name {
                return upto as u64;
            }
            upto -= 1;
        }
        0
    }

    /// The verdict on the answer to the question that was asked on Esc.
    pub fn answer(prompt: Prompt, text: &str) -> (verdict: Verdict)
        ensures
            verdict == verdict_of(prompt, text@),
    {
        let no = same_text(text, "n") || same_text(text, "N");
        match prompt {
            Prompt::SaveAll => if no {
                Verdict::Quit
            } else {
                Verdict::SaveAllAndQuit
            },
            Prompt::Quit => if no {
                Verdict::Continue
            } else {
                Verdict::Quit
            },
            _ => Verdict::Continue,
        }
    }
}

/// Whether the compositor keeps the key for itself: Esc and F1 to F5.
pub open spec fn reserved(key: Key) -> bool {
    key is Esc || (key matches Key::F(n) && 1 <= n <= 5)
}

/// The question that Esc asks: whether to save all, while a buffer is dirty,
/// and else whether to quit.
pub open spec fn esc_prompt(module: Module) -> Prompt {
    if forall|i: int|
        0 <= i < module.file_mod.file_map@.len()
            ==> !(#[trigger] module.file_mod.file_map@[i]).dirty {
        Prompt::Quit
    } else {
        Prompt::SaveAll
    }
}

/// The focus after it has gone to the panel `name`, where there is one, with
/// the name that the module then holds as that of the focused panel.
pub open spec fn jumped(
    views: Seq<AnyView>,
    focus: ViewID,
    curr_view: Seq<char>,
    name: Seq<char>,
) -> (ViewID, Seq<char>) {
    let id = name_id(views, name, views.len() as int);
    if id != 0 {
        (id as ViewID, name)
    } else {
        (focus, curr_view)
    }
}

/// The focus after it has cycled on.
pub open spec fn cycled(views: Seq<AnyView>, focus: ViewID) -> (ViewID, Seq<char>) {
    let to = next_focus(can_focus(views), focus as int);
    (to as ViewID, views[to - 1].panel().name@)
}

/// The focus after one of the keys F1 to F5. F1 goes to the help panel, or
/// on from it where it has the focus; F2, F3 and F4 go to the text viewport,
/// the file tree and the command bar; F5 cycles on, unless the focused panel
/// is locked.
pub open spec fn fkey_focus(views: Seq<AnyView>, focus: ViewID, curr_view: Seq<char>, n: u8) -> (
    ViewID,
    Seq<char>,
) {
    if n == 1 {
        if curr_view == "Help"@ {
            cycled(views, focus)
        } else {
            jumped(views, focus, curr_view, "Help"@)
        }
    } else if n == 2 {
        jumped(views, focus, curr_view, "MainView"@)
    } else if n == 3 {
        jumped(views, focus, curr_view, "FileTree"@)
    } else if n == 4 {
        jumped(views, focus, curr_view, "Menu"@)
    } else if n == 5 && !views[focus - 1].panel().lock {
        cycled(views, focus)
    } else {
        (focus, curr_view)
    }
}

impl Screen {
    /// Whether the screen is ready for a key: a panel has the focus, some
    /// panel can take it, and a key that goes to the focused panel can be
    /// taken by it.
    pub open spec fn can_interact(&self, module: Module, key: Key) -> bool {
        &&& self.wf()
        &&& 1 <= self.focus <= self.view_map@.len()
        &&& self.has_focusable()
        &&& !reserved(key) ==> self.view_map@[self.focus - 1].can_take(module, key)
    }

    /// Whether some panel can take the focus, computed.
    pub fn check_focusable(&self) -> (ok: bool)
        requires
            self.wf(),
        ensures
            ok == self.has_focusable(),
    {
        let mut id: u64 = 1;
        let count = self.view_map.len();
        while id < self.id_cnt
            invariant
                self.wf(),
                count == self.view_map@.len(),
                1 <= id <= self.id_cnt,
                forall|j: int| 0 <= j < id - 1 ==> !can_focus(self.view_map@)[j],
            decreases self.id_cnt - id,
        {
            if self.focusable(id) {
                return true;
            }
            id += 1;
        }
        false
    }

    /// Whether `can_interact` holds, computed.
    pub fn check_interact(&self, module: &Module, key: &Key) -> (ok: bool)
        ensures
            ok == self.can_interact(*module, *key),
    {
        let count = self.view_map.len();
        if count as u64 >= u64::MAX || self.id_cnt != count as u64 + 1 {
            return false;
        }
        if self.focus < 1 || self.focus >= self.id_cnt || !self.check_focusable() {
            return false;
        }
        let kept = match key {
            Key::Esc => true,
            Key::F(n) => 1 <= *n && *n <= 5,
            _ => false,
        };
        kept || self.view_map[(self.focus - 1) as usize].check_take(module, key)
    }

    /// Whether an update pass can be run, computed: a panel has the focus,
    /// the store is well formed and every panel is steady.
    pub fn check_update(&self, module: &Module) -> (ok: bool)
        ensures
            ok == {
                &&& self.wf()
                &&& 1 <= self.focus <= self.view_map@.len()
                &&& module.file_mod.wf()
                &&& forall|i: int|
                    0 <= i < self.view_map@.len() ==> (#[trigger] self.view_map@[i]).steady()
            },
    {
        let count = self.view_map.len();
        if count as u64 >= u64::MAX || self.id_cnt != count as u64 + 1 {
            return false;
        }
        if self.focus < 1 || self.focus >= self.id_cnt || !module.file_mod.check_wf() {
            return false;
        }
        let mut i: usize = 0;
        while i < count
            invariant
                i <= count,
                count == self.view_map@.len(),
                forall|j: int| 0 <= j < i ==> (#[trigger] self.view_map@[j]).steady(),
            decreases count - i,
        {
            if !self.view_map[i].check_steady() {
                return false;
            }
            i += 1;
        }
        true
    }

    /// Whether `self` and `after` are what one key makes of `before` and
    /// `module`. On Esc nothing changes and the host is to ask whether to
    /// save all or to quit. The keys F1 to F5 move the focus. Every other
    /// key goes to the focused panel, and no other panel changes.
    pub open spec fn reacted(
        &self,
        before: Screen,
        module: Module,
        after: Module,
        key: Key,
        ask: Ask,
    ) -> bool {
        &&& self.wf()
        &&& self.id_cnt == before.id_cnt
        &&& self.view_map@.len() == before.view_map@.len()
        &&& after.term == module.term
        &&& after.settings == module.settings
        &&& key is Esc ==> {
            &&& ask == Ask::Prompt(esc_prompt(module))
            &&& *self == before
            &&& after == module
        }
        &&& match key {
            Key::F(n) => 1 <= n <= 5 ==> {
                &&& ask is Nothing
                &&& self.view_map == before.view_map
                &&& (self.focus, after.curr_view@) == fkey_focus(
                    before.view_map@,
                    before.focus,
                    module.curr_view@,
                    n,
                )
                &&& after.file_mod == module.file_mod
                &&& after.message == module.message
                &&& after.operation == module.operation
            },
            _ => true,
        }
        &&& !reserved(key) ==> {
            &&& self.focus == before.focus
            &&& after.curr_view == module.curr_view
            &&& forall|i: int|
                0 <= i < before.view_map@.len() && i != before.focus - 1 ==> self.view_map@[i]
                    == before.view_map@[i]
            &&& self.view_map@[before.focus - 1].took(
                before.view_map@[before.focus - 1],
                module,
                after,
                key,
                ask,
            )
        }
    }

    /// The first part of a cycle: one key.
    pub fn interact(&mut self, module: &mut Module, key: Key) -> (ask: Ask)
        requires
            old(self).can_interact(*old(module), key),
        ensures
            final(self).reacted(*old(self), *old(module), *final(module), key, ask),
    {
        match &key {
            Key::Esc => {
                if !module.file_mod.is_all_saved() {
                    return Ask::Prompt(Prompt::SaveAll);
                } else {
                    return Ask::Prompt(Prompt::Quit);
                }
            },
            Key::F(n) => {
                let n = *n;
                if n == 1 {
                    let help = String::from_str("Help");
                    if module.curr_view == help {
                        module.curr_view = self.shift();
                    } else if self.shift_to(&help) {
                        module.curr_view = help;
                    }
                    return Ask::Nothing;
                } else if n == 2 {
                    let main = String::from_str("MainView");
                    if self.shift_to(&main) {
                        module.curr_view = main;
                    }
                    return Ask::Nothing;
                } else if n == 3 {
                    let file_tree = String::from_str("FileTree");
                    if self.shift_to(&file_tree) {
                        module.curr_view = file_tree;
                    }
                    return Ask::Nothing;
                } else if n == 4 {
                    let menu = String::from_str("Menu");
                    if self.shift_to(&menu) {
                        module.curr_view = menu;
                    }
                    return Ask::Nothing;
                } else if n == 5 {
                    let count = self.view_map.len();
                    assert(self.focus <= count);
                    let at = (self.focus - 1) as usize;
                    if !self.view_map[at].get_panel().lock {
                        module.curr_view = self.shift();
                    }
                    return Ask::Nothing;
                }
            },
            _ => {},
        }
        let count = self.view_map.len();
        assert(self.focus <= count);
        let at = (self.focus - 1) as usize;
        self.view_map[at].matchar(module, key)
    }

    /// The third part of a cycle, after the disk was polled: the operations
    /// that the panels have queued are carried out, the one queued last
    /// first. A request to quit ends this at once and is reported; what is
    /// queued before it stays queued.
    pub fn settle(&mut self, module: &mut Module) -> (quit: bool)
        requires
            old(self).wf(),
        ensures
            final(self).wf(),
            final(self).id_cnt == old(self).id_cnt,
            final(module).term == old(module).term,
            final(module).settings == old(module).settings,
            final(module).file_mod == old(module).file_mod,
            final(module).message == old(module).message,
            ({
                let end = drained(
                    old(self).stage(*old(module)),
                    old(module).ops(),
                    old(module).term,
                );
                &&& quit == end.quit
                &&& final(self).view_map@ == end.views
                &&& final(self).focus == end.focus
                &&& final(module).curr_view@ == end.curr_view
                &&& final(module).operation@ == old(module).operation@.take(end.left)
            }),
    {
        let term = module.term;
        let ghost goal = drained(old(self).stage(*old(module)), old(module).ops(), term);
        while module.operation.len() > 0
            invariant
                self.wf(),
                self.id_cnt == old(self).id_cnt,
                term == old(module).term,
                module.term == old(module).term,
                module.settings == old(module).settings,
                module.file_mod == old(module).file_mod,
                module.message == old(module).message,
                module.operation@ == old(module).operation@.take(module.operation@.len() as int),
                module.operation@.len() <= old(module).operation@.len(),
                goal == drained(self.stage(*module), module.ops(), term),
                goal == drained(
                    old(self).stage(*old(module)),
                    old(module).ops(),
                    old(module).term,
                ),
            decreases module.operation@.len(),
        {
            let ghost before_ops = module.ops();
            let ghost before_stage = self.stage(*module);
            let op = module.operation.pop().unwrap();
            proof {
                assert(module.ops() =~= before_ops.drop_last());
            }
            match op {
                Op::Nothing => {},
                Op::Shift(name) => {
                    if self.shift_to(&name) {
                        module.curr_view = name;
                    }
                },
                Op::Resize(name, size) => {
                    let id = self.find(&name);
                    if id != 0 {
                        let count = self.view_map.len();
                        assert(id <= count);
                        let at = (id - 1) as usize;
                        self.view_map[at].resize_panel(&term, size);
                    }
                },
                Op::Quit => {
                    return true;
                },
            }
            proof {
                let now = self.stage(*module);
                let want = applied(before_stage, op@, term);
                lemma_drained_ignores_left(want, now, module.ops(), term);
            }
        }
        false
    }

    /// Whether the panels are those of `before` after an update pass that
    /// has led the shared state through `states`: from the first state the
    /// focused panel was updated, and then, by rising identifier, every other
    /// panel from the state that the update before it had left.
    pub open spec fn passed(&self, before: Screen, states: Seq<Module>, size: Seq<char>) -> bool {
        let count = before.view_map@.len() as int;
        let at = before.focus - 1;
        &&& states.len() == count + 2
        &&& self.view_map@.len() == count
        &&& self.view_map@[at].updated(before.view_map@[at], states[0], states[1], size)
        &&& forall|i: int|
            0 <= i < count ==> if i == at {
                #[trigger] states[i + 2] == states[i + 1]
            } else {
                self.view_map@[i].updated(
                    before.view_map@[i],
                    states[i + 1],
                    #[trigger] states[i + 2],
                    size,
                )
            }
    }

    /// Whether the state is what an update pass leaves of `before`: every
    /// panel keeps its kind, its name, its corners and its flags, but for
    /// the help panel, which is shown exactly while it has the focus.
    pub open spec fn refreshed(&self, before: Screen, module: Module) -> bool {
        &&& self.wf()
        &&& self.focus == before.focus
        &&& self.id_cnt == before.id_cnt
        &&& self.view_map@.len() == before.view_map@.len()
        &&& forall|i: int|
            0 <= i < before.view_map@.len() ==> (#[trigger] self.view_map@[i]).kept(
                before.view_map@[i],
                module,
            )
    }

    /// The last part of a cycle: the update pass. The focused panel is
    /// updated first, then every other panel by rising identifier. Returns
    /// the identifiers of the panels to paint, in the order in which to
    /// paint them: the panels that are shown, but for the focused one, by
    /// rising identifier, and the focused panel last, where the terminal's
    /// cursor then goes. `size` is the size of the current buffer's file, as
    /// the bottom bar is to show it.
    pub fn update(&mut self, module: &mut Module, size: &str) -> (order: Vec<ViewID>)
        requires
            old(self).wf(),
            1 <= old(self).focus <= old(self).view_map@.len(),
            old(module).file_mod.wf(),
            forall|i: int|
                0 <= i < old(self).view_map@.len() ==> (#[trigger] old(self).view_map@[i]).steady(),
        ensures
            final(self).refreshed(*old(self), *old(module)),
            exists|states: Seq<Module>|
                states.len() > 0 && states[0] == *old(module) && states.last() == *final(module)
                    && #[trigger] final(self).passed(*old(self), states, size@),
            order@ == paint_before(
                final(self).view_map@,
                old(self).focus,
                old(self).view_map@.len() as int,
            ).push(old(self).focus),
            final(module).term == old(module).term,
            final(module).settings == old(module).settings,
            final(module).curr_view == old(module).curr_view,
            final(module).operation == old(module).operation,
            final(module).file_mod.wf(),
    {
        let count = self.view_map.len();
        let focus = self.focus;
        let at = (focus - 1) as usize;
        let ghost mut states: Seq<Module> = seq![*module];
        self.view_map[at].update(module, size);
        proof {
            states = states.push(*module);
        }
        let mut order: Vec<ViewID> = Vec::new();
        let mut i: usize = 0;
        while i < count
            invariant
                i <= count,
                count == self.view_map@.len(),
                count == old(self).view_map@.len(),
                at == focus - 1,
                1 <= focus <= count,
                focus == old(self).focus,
                self.wf(),
                self.focus == old(self).focus,
                self.id_cnt == old(self).id_cnt,
                module.term == old(module).term,
                module.settings == old(module).settings,
                module.curr_view == old(module).curr_view,
                module.operation == old(module).operation,
                module.file_mod.wf(),
                states.len() == i + 2,
                states[0] == *old(module),
                states.last() == *module,
                self.view_map@[at as int].updated(
                    old(self).view_map@[at as int],
                    states[0],
                    states[1],
                    size@,
                ),
                self.view_map@[at as int].kept(old(self).view_map@[at as int], *old(module)),
                forall|j: int|
                    0 <= j < i ==> if j == at {
                        #[trigger] states[j + 2] == states[j + 1]
                    } else {
                        self.view_map@[j].updated(
                            old(self).view_map@[j],
                            states[j + 1],
                            #[trigger] states[j + 2],
                            size@,
                        )
                    },
                forall|j: int|
                    0 <= j < i ==> (#[trigger] self.view_map@[j]).kept(
                        old(self).view_map@[j],
                        *old(module),
                    ),
                forall|j: int|
                    i <= j < count && j != at ==> self.view_map@[j] == old(self).view_map@[j],
                forall|j: int| 0 <= j < count ==> (#[trigger] old(self).view_map@[j]).steady(),
                order@ == paint_before(self.view_map@, focus, i as int),
            decreases count - i,
        {
            let ghost before = self.view_map@;
            if i != at {
                self.view_map[i].update(module, size);
                let shown = self.view_map[i].get_panel().show;
                proof {
                    lemma_paint_before_same(before, self.view_map@, focus, i as int);
                }
                if shown {
                    order.push((i + 1) as u64);
                }
            }
            proof {
                states = states.push(*module);
                assert(forall|j: int|
                    0 <= j < i + 1 ==> if j == at {
                        #[trigger] states[j + 2] == states[j + 1]
                    } else {
                        self.view_map@[j].updated(
                            old(self).view_map@[j],
                            states[j + 1],
                            #[trigger] states[j + 2],
                            size@,
                        )
                    });
            }
            i += 1;
        }
        order.push(focus);
        proof {
            assert(self.passed(*old(self), states, size@));
        }
        order
    }
}

/// How many operations are said to be queued does not matter for what
/// carrying them out leads to.
pub proof fn lemma_drained_ignores_left(a: Stage, b: Stage, ops: Seq<OpView>, term: Term)
    requires
        b == (Stage { left: b.left, ..a }),
    ensures
        drained(a, ops, term) == drained(b, ops, term),
    decreases ops.len(),
{
    if ops.len() > 0 && !(ops.last() is Quit) {
        lemma_drained_ignores_left(
            applied(a, ops.last(), term),
            applied(b, ops.last(), term),
            ops.drop_last(),
            term,
        );
    }
}

/// The order of painting among the first panels depends on those panels
/// only.
pub proof fn lemma_paint_before_same(a: Seq<AnyView>, b: Seq<AnyView>, focus: ViewID, upto: int)
    requires
        0 <= upto <= a.len(),
        upto <= b.len(),
        forall|j: int| 0 <= j < upto ==> a[j] == b[j],
    ensures
        paint_before(a, focus, upto) == paint_before(b, focus, upto),
    decreases upto,
{
    if upto > 0 {
        lemma_paint_before_same(a, b, focus, upto - 1);
    }
}

} // verus!
