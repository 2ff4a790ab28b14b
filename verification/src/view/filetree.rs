//! The file tree.
//!
//! The panel shows the entries of the working directory, directories first.
//! A directory can be opened, which puts its entries below it, one level
//! deeper, and closed again, which takes away all that stands below it. The
//! tree is kept as the list of the entries that are shown, top to bottom,
//! each with its depth. The panel reads no directory itself: it says which
//! one it needs, and its host hands the listing in.

use crate::attrs::{panel, scan, ViewAttr};
use crate::file::{Loaded, Stamp};
use crate::fmt::{decimal, decimal_chars};
use crate::key::Key;
use crate::screen::{Module, Op, OpView};
use crate::settings::Settings;
use crate::terminal::term::Term;
use crate::view::{Ask, Panel, Pos};
use vstd::prelude::*;
use vstd::string::StringExecFns;

verus! {

/// A directory in the tree.
pub struct Dir {
    pub name: String,
    pub path: String,
    /// Whether the directory is open, its entries shown below it.
    pub is_show: bool,
}

/// An entry of a directory: a directory, or a file with its name and path.
pub enum DirItem {
    Dir(Dir),
    File(String, String),
}

/// One line of the tree: an entry and how deep it stands, 0 for the entries
/// of the working directory.
pub struct TreeLine {
    pub depth: usize,
    pub item: DirItem,
}

/// One line of the tree as it is to be painted.
pub struct TreeRow {
    pub depth: usize,
    pub is_dir: bool,
    /// Whether the entry is a directory that is open.
    pub is_open: bool,
    pub name: String,
}

/// Whether the row shows the line.
pub open spec fn shows(row: TreeRow, line: TreeLine) -> bool {
    &&& row.depth == line.depth
    &&& row.is_dir == line.item.is_dir()
    &&& row.is_open == line.item.is_open()
    &&& row.name@ == line.item.name()
}

/// The file tree panel.
pub struct FileTree {
    pub panel: Panel,
    /// The working directory, as the head line shows it.
    pub dir: String,
    pub path: String,
    /// The lines that are shown, top to bottom.
    pub dir_items: Vec<TreeLine>,
    /// When the working directory was last modified, as far as is known.
    pub metadata: Option<Stamp>,
    pub curr_line: usize,
    pub scroll: usize,
}

impl Dir {
    /// A closed directory.
    pub fn new(name: String, path: String) -> (dir: Dir)
        ensures
            dir.name == name,
            dir.path == path,
            !dir.is_show,
    {
        Dir { name, path, is_show: false }
    }

    /// Marks the directory as open.
    pub fn open(&mut self)
        ensures
            final(self).is_show,
            final(self).name == old(self).name,
            final(self).path == old(self).path,
    {
        self.is_show = true;
    }

    /// Marks the directory as closed.
    pub fn close(&mut self)
        ensures
            !final(self).is_show,
            final(self).name == old(self).name,
            final(self).path == old(self).path,
    {
        self.is_show = false;
    }
}

impl DirItem {
    /// Whether the entry is a directory.
    pub open spec fn is_dir(&self) -> bool {
        self is Dir
    }

    /// The path of the entry.
    pub open spec fn path(&self) -> Seq<char> {
        match self {
            DirItem::Dir(dir) => dir.path@,
            DirItem::File(_, path) => path@,
        }
    }

    /// The name of the entry.
    pub open spec fn name(&self) -> Seq<char> {
        match self {
            DirItem::Dir(dir) => dir.name@,
            DirItem::File(name, _) => name@,
        }
    }

    /// Whether the entry is an open directory.
    pub open spec fn is_open(&self) -> bool {
        self matches DirItem::Dir(dir) && dir.is_show
    }
}

/// Where the lines below line `line` end that stand deeper than it: the
/// index of the first line from `from` on that is not deeper, or the length.
pub open spec fn subtree_end(lines: Seq<TreeLine>, line: int, from: int) -> int
    decreases lines.len() - from,
{
    if from < lines.len() && lines[from].depth > lines[line].depth {
        subtree_end(lines, line, from + 1)
    } else {
        from
    }
}

/// The listing of a directory as lines of depth `depth`, in the order given.
pub open spec fn as_lines(entries: Seq<DirItem>, depth: usize) -> Seq<TreeLine> {
    Seq::new(entries.len(), |i: int| TreeLine { depth, item: entries[i] })
}

/// The paths of the lines, top to bottom.
pub open spec fn line_paths(lines: Seq<TreeLine>) -> Seq<Seq<char>> {
    Seq::new(lines.len(), |i: int| lines[i].item.path())
}

/// The end of the subtree lies behind the line and inside the list.
pub proof fn lemma_subtree_end(lines: Seq<TreeLine>, line: int, from: int)
    requires
        0 <= line < from <= lines.len(),
    ensures
        from <= subtree_end(lines, line, from) <= lines.len(),
        forall|i: int|
            from <= i < subtree_end(lines, line, from) ==> (#[trigger] lines[i]).depth
                > lines[line].depth,
        subtree_end(lines, line, from) < lines.len() ==> lines[subtree_end(
            lines,
            line,
            from,
        )].depth <= lines[line].depth,
    decreases lines.len() - from,
{
    if from < lines.len() && lines[from].depth > lines[line].depth {
        lemma_subtree_end(lines, line, from + 1);
    }
}

/// The directories of a listing before its files, each group in the order
/// given.
pub open spec fn dirs_first(entries: Seq<DirItem>) -> Seq<DirItem> {
    picked(entries, true) + picked(entries, false)
}

/// The directories of a listing, or its files, in the order given.
pub open spec fn picked(entries: Seq<DirItem>, dirs: bool) -> Seq<DirItem>
    decreases entries.len(),
{
    if entries.len() == 0 {
        Seq::empty()
    } else if entries.last().is_dir() == dirs {
        picked(entries.drop_last(), dirs).push(entries.last())
    } else {
        picked(entries.drop_last(), dirs)
    }
}

/// Every entry is a directory or a file.
pub proof fn lemma_dirs_first_len(entries: Seq<DirItem>)
    ensures
        dirs_first(entries).len() == entries.len(),
    decreases entries.len(),
{
    if entries.len() > 0 {
        lemma_dirs_first_len(entries.drop_last());
    }
}

/// Puts the directories of a listing before its files.
pub fn sort_entries(entries: Vec<DirItem>) -> (sorted: Vec<DirItem>)
    ensures
        sorted@ == dirs_first(entries@),
{
    let ghost all = entries@;
    let mut dirs: Vec<DirItem> = Vec::new();
    let mut files: Vec<DirItem> = Vec::new();
    let mut rest = entries;
    let ghost mut done: int = 0;

    while rest.len() > 0
        invariant
            0 <= done <= all.len(),
            rest@ == all.skip(done),
            dirs@ == picked(all.take(done), true),
            files@ == picked(all.take(done), false),
        decreases rest@.len(),
    {
        let item = rest.remove(0);
        proof {
            let before = all.take(done);
            let now = all.take(done + 1);
            assert(now.drop_last() =~= before);
            done = done + 1;
        }
        match item {
            DirItem::Dir(dir) => {
                dirs.push(DirItem::Dir(dir));
            },
            DirItem::File(name, path) => {
                files.push(DirItem::File(name, path));
            },
        }
    }
    dirs.append(&mut files);
    dirs
}

impl FileTree {
    /// The empty tree, before the working directory was listed.
    pub fn new() -> (tree: FileTree)
        ensures
            tree.panel.name@ == "FileTree"@,
            tree.panel.start == (Pos::Fixed(0), Pos::Fixed(1)),
            tree.panel.end == (Pos::Fixed(25), Pos::Opposite(1)),
            tree.panel.focusable(),
            !tree.panel.lock,
            tree.panel.fcolor == (crate::color::Color { r: 0xff, g: 0xff, b: 0xff }),
            tree.panel.bcolor == (crate::color::Color { r: 0, g: 0, b: 0 }),
            tree.dir@.len() == 0,
            tree.path@.len() == 0,
            tree.dir_items@.len() == 0,
            tree.metadata.is_none(),
            tree.curr_line == 0,
            tree.scroll == 0,
    {
        let attrs = vec![ViewAttr::Start(1, 2), ViewAttr::End(26, -2)];
        proof {
            reveal_with_fuel(scan, 3);
        }
        FileTree {
            panel: panel(String::from_str("FileTree"), &attrs),
            dir: String::new(),
            path: String::new(),
            dir_items: Vec::new(),
            metadata: None,
            curr_line: 0,
            scroll: 0,
        }
    }

    /// Whether `self` is `other` but for the lines and the place in them.
    pub open spec fn same_frame(&self, other: FileTree) -> bool {
        &&& self.panel == other.panel
        &&& self.dir == other.dir
        &&& self.path == other.path
    }

    /// The number of rows of the panel.
    pub open spec fn page_height(&self, term: Term) -> int {
        self.panel.end.1.resolved(term.height) - self.panel.start.1.resolved(term.height)
    }

    /// The selected line is not above the first line shown.
    pub open spec fn wf(&self) -> bool {
        self.scroll <= self.curr_line
    }

    /// Whether this is the file tree as the editor starts with it: the
    /// working directory of `module` with the listing `entries`, all
    /// directories closed, the first line selected.
    pub open spec fn started(
        &self,
        module: Module,
        entries: Seq<DirItem>,
        modified: Stamp,
    ) -> bool {
        &&& self.panel.name@ == "FileTree"@
        &&& self.panel.start == (Pos::Fixed(0), Pos::Fixed(1))
        &&& self.panel.end == (Pos::Fixed(25), Pos::Opposite(1))
        &&& self.panel.focusable()
        &&& !self.panel.lock
        &&& self.panel.fcolor == module.settings.theme.stress_fclr
        &&& self.panel.bcolor.r == module.settings.theme.normal_bclr.r - 4
        &&& self.panel.bcolor.g == module.settings.theme.normal_bclr.g - 4
        &&& self.panel.bcolor.b == module.settings.theme.normal_bclr.b - 4
        &&& self.path == module.file_mod.curr_dir
        &&& self.dir == module.file_mod.curr_dir
        &&& self.dir_items@ == as_lines(dirs_first(entries), 0)
        &&& self.metadata == Some(modified)
        &&& self.curr_line == 0
        &&& self.scroll == 0
    }

    /// Takes the working directory from the store and its listing from the
    /// host; the colours come from the theme.
    pub fn init(&mut self, module: &Module, entries: Vec<DirItem>, modified: Stamp)
        requires
            module.settings.theme.normal_bclr.can_darken(4),
        ensures
            final(self).path == module.file_mod.curr_dir,
            final(self).dir == module.file_mod.curr_dir,
            final(self).dir_items@ == as_lines(dirs_first(entries@), 0),
            final(self).metadata == Some(modified),
            final(self).curr_line == old(self).curr_line,
            final(self).scroll == old(self).scroll,
            final(self).panel.fcolor == module.settings.theme.stress_fclr,
            final(self).panel.bcolor.r == module.settings.theme.normal_bclr.r - 4,
            final(self).panel.bcolor.g == module.settings.theme.normal_bclr.g - 4,
            final(self).panel.bcolor.b == module.settings.theme.normal_bclr.b - 4,
            final(self).panel.name == old(self).panel.name,
            final(self).panel.start == old(self).panel.start,
            final(self).panel.end == old(self).panel.end,
            final(self).panel.silent == old(self).panel.silent,
            final(self).panel.lock == old(self).panel.lock,
            final(self).panel.show == old(self).panel.show,
    {
        self.path = module.file_mod.curr_dir().clone();
        self.dir = module.file_mod.curr_dir().clone();
        self.panel.bcolor = module.settings.theme.normal_bclr.darken(4);
        self.panel.fcolor = module.settings.theme.stress_fclr;
        self.metadata = Some(modified);
        self.dir_items = lines_of(sort_entries(entries), 0);
    }

    /// Whether the working directory has changed on disk since it was
    /// listed: its modification time is another one than the known one.
    pub fn is_stale(&self, live: Stamp) -> (stale: bool)
        ensures
            stale == (self.metadata != Some(live)),
    {
        match self.metadata {
            Some(known) => known.secs != live.secs || known.nanos != live.nanos,
            None => true,
        }
    }

    /// Takes a new listing of the working directory: every directory is
    /// closed again and the first line is selected.
    pub fn update(&mut self, entries: Vec<DirItem>, modified: Stamp)
        ensures
            final(self).dir_items@ == as_lines(dirs_first(entries@), 0),
            final(self).metadata == Some(modified),
            final(self).curr_line == 0,
            final(self).scroll == 0,
            final(self).wf(),
            final(self).same_frame(*old(self)),
    {
        self.dir_items = lines_of(sort_entries(entries), 0);
        self.curr_line = 0;
        self.scroll = 0;
        self.metadata = Some(modified);
    }

    /// The number of lines.
    pub fn len(&self) -> (len: usize)
        ensures
            len == self.dir_items@.len(),
    {
        self.dir_items.len()
    }

    /// What the host is asked for when Enter is pressed on a line: nothing
    /// for an open directory, which is closed; the listing of a closed
    /// directory; the text of a file.
    pub open spec fn enter_ask(line: TreeLine) -> Ask {
        match line.item {
            DirItem::Dir(dir) => if dir.is_show {
                Ask::Nothing
            } else {
                Ask::ListDir(dir.path)
            },
            DirItem::File(_, path) => Ask::OpenFile(path),
        }
    }

    /// Whether `self` is `before` after Enter, with `ask` the request to the host.
    pub open spec fn entered(&self, before: FileTree, ask: Ask) -> bool {
        &&& self.same_frame(before)
        &&& self.metadata == before.metadata
        &&& self.curr_line == before.curr_line
        &&& self.scroll == before.scroll
        &&& ask@ == Self::enter_ask(before.dir_items@[before.curr_line as int])@
        &&& !before.dir_items@[before.curr_line as int].item.is_open()
            ==> self.dir_items == before.dir_items
        &&& before.dir_items@[before.curr_line as int].item.is_open() ==> self.closed_from(before)
    }

    /// Enter on the selected line. An open directory is closed: the lines
    /// below it that stand deeper go. For a closed directory the host is
    /// asked for its listing, and for a file for its text.
    pub fn enter(&mut self) -> (ask: Ask)
        requires
            old(self).curr_line < old(self).dir_items@.len(),
        ensures
            final(self).entered(*old(self), ask),
    {
        let at = self.curr_line;
        let is_open = match &self.dir_items[at].item {
            DirItem::Dir(dir) => dir.is_show,
            DirItem::File(_, _) => false,
        };
        if is_open {
            let ghost before = self.dir_items@;
            proof {
                lemma_subtree_end(before, at as int, at + 1);
            }
            let depth = self.dir_items[at].depth;
            let count = self.dir_items.len();
            assert(at < count);
            let mut end: usize = at + 1;
            while end < self.dir_items.len() && self.dir_items[end].depth > depth
                invariant
                    at < end <= self.dir_items@.len(),
                    self.dir_items@ == before,
                    depth == before[at as int].depth,
                    subtree_end(before, at as int, end as int) == subtree_end(
                        before,
                        at as int,
                        at + 1,
                    ),
                decreases self.dir_items@.len() - end,
            {
                end += 1;
            }
            let mut tail = self.dir_items.split_off(end);
            self.dir_items.truncate(at + 1);
            match &mut self.dir_items[at].item {
                DirItem::Dir(dir) => {
                    dir.close();
                },
                DirItem::File(_, _) => {},
            }
            self.dir_items.append(&mut tail);
            Ask::Nothing
        } else {
            match &self.dir_items[at].item {
                DirItem::Dir(dir) => Ask::ListDir(dir.path.clone()),
                DirItem::File(_, path) => Ask::OpenFile(path.clone()),
            }
        }
    }

    /// Whether the lines are those of `before` with the selected directory
    /// closed: the lines below it that stand deeper are gone, the line
    /// itself is marked closed, and every other line is as it was.
    pub open spec fn closed_from(&self, before: FileTree) -> bool {
        let at = before.curr_line as int;
        let stop = subtree_end(before.dir_items@, at, at + 1);
        &&& self.dir_items@.len() == before.dir_items@.len() - (stop - at - 1)
        &&& forall|i: int| 0 <= i < at ==> self.dir_items@[i] == before.dir_items@[i]
        &&& forall|i: int|
            at < i < self.dir_items@.len()
                ==> self.dir_items@[i] == before.dir_items@[i + (stop - at
                - 1)]
        &&& self.dir_items@[at].depth == before.dir_items@[at].depth
        &&& self.dir_items@[at].item is Dir
        &&& !self.dir_items@[at].item.is_open()
        &&& self.dir_items@[at].item.path() == before.dir_items@[at].item.path()
        &&& self.dir_items@[at].item.name() == before.dir_items@[at].item.name()
    }

    /// Takes the listing of the directory on line `line` and opens it: its
    /// entries stand below it, one level deeper, directories first.
    pub fn listed(&mut self, line: usize, entries: Vec<DirItem>)
        requires
            line < old(self).dir_items@.len(),
            old(self).dir_items@[line as int].item is Dir,
            old(self).dir_items@[line as int].depth < usize::MAX,
        ensures
            final(self).same_frame(*old(self)),
            final(self).metadata == old(self).metadata,
            final(self).curr_line == old(self).curr_line,
            final(self).scroll == old(self).scroll,
            final(self).dir_items@.len() == old(self).dir_items@.len() + entries@.len(),
            forall|i: int| 0 <= i < line ==> final(self).dir_items@[i] == old(self).dir_items@[i],
            final(self).dir_items@[line as int].depth == old(self).dir_items@[line as int].depth,
            final(self).dir_items@[line as int].item.is_open(),
            final(self).dir_items@[line as int].item.path()
                == old(self).dir_items@[line as int].item.path(),
            final(self).dir_items@[line as int].item.name()
                == old(self).dir_items@[line as int].item.name(),
            final(self).dir_items@.subrange(line + 1, line + 1 + entries@.len()) == as_lines(
                dirs_first(entries@),
                (old(self).dir_items@[line as int].depth + 1) as usize,
            ),
            forall|i: int|
                line < i < old(self).dir_items@.len() ==> final(self).dir_items@[i + entries@.len()]
                    == old(self).dir_items@[i],
    {
        let depth = self.dir_items[line].depth + 1;
        let mut below = lines_of(sort_entries(entries), depth);
        proof {
            lemma_dirs_first_len(entries@);
        }
        let count = self.dir_items.len();
        assert(line < count);
        let mut tail = self.dir_items.split_off(line + 1);
        match &mut self.dir_items[line].item {
            DirItem::Dir(dir) => {
                dir.open();
            },
            DirItem::File(_, _) => {},
        }
        self.dir_items.append(&mut below);
        self.dir_items.append(&mut tail);
    }

    /// Takes a file that the host has read for the tree: the store opens it,
    /// the text viewport is told its identifier and is to get the focus.
    pub fn opened(&mut self, module: &mut Module, file: Loaded)
        requires
            old(module).file_mod.wf(),
            old(module).file_mod.file_map@.len() + 1 < usize::MAX,
        ensures
            *final(self) == *old(self),
            final(module).term == old(module).term,
            final(module).settings == old(module).settings,
            final(module).curr_view == old(module).curr_view,
            final(module).file_mod.wf(),
            final(module).file_mod.curr_file == old(module).file_mod.curr_file,
            final(module).ops() == old(module).ops().push(OpView::Shift("MainView"@)),
            final(module).sent(
                *old(module),
                "MainView"@,
                seq![decimal_chars(old(module).file_mod.opened_id(file.pathbuf@) as nat)],
            ),
            final(module).file_mod.buf(old(module).file_mod.opened_id(file.pathbuf@)).pathbuf@
                == file.pathbuf@,
            old(module).file_mod.path_id(file.pathbuf@) != 0
                ==> final(module).file_mod == old(module).file_mod,
            old(module).file_mod.path_id(file.pathbuf@) == 0 ==> {
                &&& final(module).file_mod.file_map@.len() == old(module).file_mod.file_map@.len()
                    + 1
                &&& final(module).file_mod.buf(
                    old(module).file_mod.opened_id(file.pathbuf@),
                ).holds_fresh(file.text@)
            },
    {
        let ghost inbox = old(module).inbox_text("MainView"@);
        let latest = module.file_mod.insert_from_path(file);
        module.sendmsg(String::from_str("MainView"), decimal(latest as u64));
        assert(inbox.push(decimal_chars(latest as nat)) =~= inbox + seq![
            decimal_chars(latest as nat),
        ]);
        assert(module.sent(*old(module), "MainView"@, seq![decimal_chars(latest as nat)]));
        module.push_op(Op::Shift(String::from_str("MainView")));
    }

    /// Whether `self` is `before` after the Up key.
    pub open spec fn went_up(&self, before: FileTree) -> bool {
        &&& self.wf()
        &&& self.same_frame(before)
        &&& self.dir_items == before.dir_items
        &&& self.metadata == before.metadata
        &&& self.curr_line == if before.curr_line > 0 {
                before.curr_line - 1
            } else {
                0
            }
        &&& self.scroll == if before.curr_line > 0 && before.scroll != 0
            && before.curr_line - before.scroll < 4 {
                before.scroll - 1
            } else {
                before.scroll as int
            }
    }

    /// One line up, not above the first. The first line shown follows once
    /// the selection has come within four lines of it.
    pub fn up(&mut self)
        requires
            old(self).wf(),
        ensures
            final(self).went_up(*old(self)),
    {
        if self.curr_line > 0 {
            self.line_dec();
        }
    }

    /// Whether `self` is `before` after the Down key.
    pub open spec fn went_down(&self, before: FileTree, term: Term) -> bool {
        &&& self.wf()
        &&& self.same_frame(before)
        &&& self.dir_items == before.dir_items
        &&& self.metadata == before.metadata
        &&& self.curr_line == if before.curr_line + 1 < before.dir_items@.len() {
                before.curr_line + 1
            } else {
                before.curr_line as int
            }
        &&& self.scroll == if before.curr_line + 1 < before.dir_items@.len()
            && before.curr_line - before.scroll + 4 > before.page_height(term) {
                before.scroll + 1
            } else {
                before.scroll as int
            }
    }

    /// One line down, not below the last. The first line shown follows once
    /// the selection has come within four lines of the panel's last row.
    pub fn down(&mut self, term: &Term)
        requires
            old(self).wf(),
            old(self).panel.fits(*term),
            old(self).page_height(*term) >= 0,
        ensures
            final(self).went_down(*old(self), *term),
    {
        let len = self.len();
        if len > 0 && self.curr_line < len - 1 {
            self.line_inc(term);
        }
    }

    fn line_inc(&mut self, term: &Term)
        requires
            old(self).wf(),
            old(self).panel.fits(*term),
            old(self).page_height(*term) >= 0,
            old(self).curr_line < usize::MAX,
        ensures
            final(self).wf(),
            final(self).same_frame(*old(self)),
            final(self).dir_items == old(self).dir_items,
            final(self).metadata == old(self).metadata,
            final(self).curr_line == old(self).curr_line + 1,
            final(self).scroll
                == if old(self).curr_line - old(self).scroll + 4 > old(self).page_height(*term) {
                old(self).scroll + 1
            } else {
                old(self).scroll as int
            },
    {
        let pre_all_lines = self.curr_line - self.scroll;
        let height = (self.panel.end.1.unwrap(term.height) - self.panel.start.1.unwrap(
            term.height,
        )) as usize;
        if pre_all_lines > usize::MAX - 4 || pre_all_lines + 4 > height {
            self.scroll += 1;
        }
        self.curr_line += 1;
    }

    fn line_dec(&mut self)
        requires
            old(self).wf(),
            old(self).curr_line > 0,
        ensures
            final(self).wf(),
            final(self).same_frame(*old(self)),
            final(self).dir_items == old(self).dir_items,
            final(self).metadata == old(self).metadata,
            final(self).curr_line == old(self).curr_line - 1,
            final(self).scroll == if old(self).scroll != 0
                && old(self).curr_line - old(self).scroll < 4 {
                old(self).scroll - 1
            } else {
                old(self).scroll as int
            },
    {
        if self.scroll != 0 {
            let pre_all_lines = self.curr_line - self.scroll;
            if pre_all_lines < 4 {
                self.scroll -= 1;
            }
        }
        self.curr_line -= 1;
    }

    /// Whether `self` is what one key makes of `before`, with `ask` the
    /// request to the host: Enter acts on the selected line, Up and Down move
    /// the selection, and every other key changes nothing.
    pub open spec fn keyed(&self, before: FileTree, term: Term, key: Key, ask: Ask) -> bool {
        if key == Key::Char('\r') {
            self.entered(before, ask)
        } else if key is Up {
            self.went_up(before) && ask is Nothing
        } else if key is Down {
            self.went_down(before, term) && ask is Nothing
        } else {
            *self == before && ask is Nothing
        }
    }

    /// One key: Enter acts on the selected line, Up and Down move the
    /// selection.
    pub fn matchar(&mut self, term: &Term, key: Key) -> (ask: Ask)
        requires
            old(self).wf(),
            old(self).panel.fits(*term),
            old(self).page_height(*term) >= 0,
            key == Key::Char('\r') ==> old(self).curr_line < old(self).dir_items@.len(),
        ensures
            final(self).keyed(*old(self), *term, key, ask),
    {
        match key {
            Key::Char(c) => {
                if c == '\r' {
                    return self.enter();
                }
            },
            Key::Up => {
                self.up();
            },
            Key::Down => {
                self.down(term);
            },
            _ => {},
        }
        Ask::Nothing
    }

    /// How many lines of the tree are painted: those from the first line
    /// shown on, as many as the panel has rows, and one where it has none.
    pub open spec fn painted(&self, term: Term) -> int {
        let left = if self.scroll <= self.dir_items@.len() {
            self.dir_items@.len() - self.scroll
        } else {
            0
        };
        let room = if self.page_height(term) < 1 {
            1
        } else {
            self.page_height(term)
        };
        if left <= room {
            left
        } else {
            room
        }
    }

    /// The lines to paint below the head line, top to bottom.
    pub fn draw(&self, term: &Term) -> (rows: Vec<TreeRow>)
        requires
            self.panel.fits(*term),
            self.page_height(*term) >= 0,
        ensures
            rows@.len() == self.painted(*term),
            forall|i: int|
                0 <= i < rows@.len() ==> shows(
                    #[trigger] rows@[i],
                    self.dir_items@[self.scroll + i],
                ),
    {
        let height = (self.panel.end.1.unwrap(term.height) - self.panel.start.1.unwrap(
            term.height,
        )) as usize;
        let room = if height < 1 {
            1
        } else {
            height
        };
        let mut rows: Vec<TreeRow> = Vec::new();
        let mut i: usize = self.scroll;
        while i < self.dir_items.len() && rows.len() < room
            invariant
                self.scroll <= i,
                i <= self.dir_items@.len() || i == self.scroll,
                rows@.len() == i - self.scroll,
                rows@.len() <= room,
                forall|j: int|
                    0 <= j < rows@.len() ==> shows(
                        #[trigger] rows@[j],
                        self.dir_items@[self.scroll + j],
                    ),
            decreases self.dir_items@.len() - i,
        {
            let line = &self.dir_items[i];
            let row = match &line.item {
                DirItem::Dir(dir) => TreeRow {
                    depth: line.depth,
                    is_dir: true,
                    is_open: dir.is_show,
                    name: dir.name.clone(),
                },
                DirItem::File(name, _) => TreeRow {
                    depth: line.depth,
                    is_dir: false,
                    is_open: false,
                    name: name.clone(),
                },
            };
            rows.push(row);
            i += 1;
        }
        rows
    }

    /// The cell of the terminal's cursor: the row of the selected line, below
    /// the head line.
    pub fn set_cursor(&self, term: &Term) -> (cell: (usize, usize))
        requires
            self.wf(),
            self.panel.fits(*term),
        ensures
            cell.0 == self.panel.start.0.resolved(term.width),
            cell.1 == crate::wrap::clip(
                self.panel.start.1.resolved(term.height) + 1 + (self.curr_line - self.scroll),
            ),
    {
        let x = self.panel.start.0.unwrap(term.width) as usize;
        let y = self.panel.start.1.unwrap(term.height) as usize;
        (x, crate::wrap::sat_add(y + 1, self.curr_line - self.scroll))
    }
}

/// A listing as lines of one depth.
fn lines_of(entries: Vec<DirItem>, depth: usize) -> (lines: Vec<TreeLine>)
    ensures
        lines@ == as_lines(entries@, depth),
{
    let ghost all = entries@;
    let mut rest = entries;
    let mut lines: Vec<TreeLine> = Vec::new();
    while rest.len() > 0
        invariant
            lines@.len() <= all.len(),
            rest@ == all.skip(lines@.len() as int),
            forall|i: int|
                0 <= i < lines@.len() ==> lines@[i] == (TreeLine { depth, item: all[i] }),
        decreases rest@.len(),
    {
        let item = rest.remove(0);
        lines.push(TreeLine { depth, item });
    }
    lines
}

/// The paths of the lines, top to bottom.
pub fn flatten(dir_items: &Vec<TreeLine>) -> (flat: Vec<String>)
    ensures
        flat@.len() == dir_items@.len(),
        forall|i: int| 0 <= i < flat@.len() ==> flat@[i]@ == line_paths(dir_items@)[i],
{
    let mut flat: Vec<String> = Vec::new();
    let mut i: usize = 0;
    while i < dir_items.len()
        invariant
            i <= dir_items@.len(),
            flat@.len() == i,
            forall|j: int| 0 <= j < i ==> flat@[j]@ == line_paths(dir_items@)[j],
        decreases dir_items@.len() - i,
    {
        let path = match &dir_items[i].item {
            DirItem::Dir(dir) => dir.path.clone(),
            DirItem::File(_, path) => path.clone(),
        };
        flat.push(path);
        i += 1;
    }
    flat
}

} // verus!
