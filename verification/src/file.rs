//! The buffer store.
//!
//! A buffer is the text of one open file, or of a scratch text that has no
//! file yet, with what is known of the file on disk. The store owns the
//! buffers, numbers them from 1 in the order they were opened, and knows which
//! one is current. It does no input or output itself: its host reads and
//! writes the files and hands over what it found.

use crate::lines::{encoded, flat_bytes, flatten, lemma_flatten_split, split_chars, split_lines};
use crate::text::text_of;
use std::collections::hash_map::DefaultHasher;
use std::hash::Hasher;
use vstd::prelude::*;
use vstd::std_specs::hash::DefaultHasherAdditionalSpecFns;
use vstd::string::{StrSliceExecFns, StringSliceAdditionalSpecFns};
use widestring::Utf16String;

verus! {

/// The number of a buffer, counted from 1 in the order of opening; 0 is no
/// buffer.
pub type FileID = usize;

/// The lines of a buffer.
pub type Content = Vec<Utf16String>;

/// The fingerprint of a sequence of bytes: what the standard hasher, made
/// with its fixed keys and fed the bytes in one piece, gives out.
pub open spec fn fingerprint(bytes: Seq<u8>) -> u64 {
    DefaultHasher::spec_finish(seq![bytes])
}

/// Computes the fingerprint of the bytes.
pub fn calculate_hash(bytes: &Vec<u8>) -> (hash: u64)
    ensures
        hash == fingerprint(bytes@),
{
    let mut s = DefaultHasher::new();
    s.write(bytes.as_slice());
    s.finish()
}

/// A point in time, as seconds and nanoseconds since the epoch.
#[derive(Clone, Copy, Debug, PartialEq, Eq, Structural)]
pub struct Stamp {
    pub secs: u64,
    pub nanos: u32,
}

/// What the disk says of a file: its size and when it was last modified.
#[derive(Clone, Copy, Debug, PartialEq, Eq, Structural)]
pub struct DiskMeta {
    pub size: u64,
    pub modified: Stamp,
}

/// A file as its host found it on disk.
pub struct Loaded {
    /// The canonical path.
    pub pathbuf: String,
    /// The last component of the canonical path.
    pub name: String,
    pub text: String,
    pub metadata: DiskMeta,
}

/// What a save has to do on disk.
pub enum SavePlan {
    /// The buffer is backed and not dirty: nothing is written.
    Skip,
    /// Write these bytes over the file and cut the file to their length.
    Rewrite(Vec<u8>),
    /// Create the file under the buffer's name and write these bytes.
    Create(Vec<u8>),
}

/// Why a buffer cannot be saved as it is.
#[derive(Clone, Copy, Debug, PartialEq, Eq, Structural)]
pub enum SaveError {
    /// The buffer has no file and no name: the user has to give one first.
    NoName,
}

/// One buffer: the lines of an open file or of a scratch text, what is known
/// of the file on disk, and the place that the viewport left in it.
pub struct FileBuf {
    pub name: String,
    /// Whether a file on disk stands behind the buffer.
    pub backed: bool,
    pub dirty: bool,
    /// The cursor (column, line) that the viewport left behind.
    pub pos: (usize, usize),
    /// The scroll offset that the viewport left behind.
    pub scroll: usize,
    /// The canonical path of the file; empty while there is none.
    pub pathbuf: String,
    pub metadata: Option<DiskMeta>,
    pub content: Content,
    /// The bytes of the text as it was last read from or written to disk.
    pub copies: Vec<u8>,
}

impl FileBuf {
    /// The units of the buffer's lines.
    pub open spec fn text(&self) -> Seq<Seq<u16>> {
        text_of(self.content@)
    }

    /// The dirty flag says whether the text has another fingerprint than the
    /// bytes it was last synchronized with.
    pub open spec fn in_sync(&self) -> bool {
        self.dirty == (fingerprint(flat_bytes(self.text())) != fingerprint(self.copies@))
    }

    /// Whether the buffer holds exactly the text `cs`, as read from disk.
    pub open spec fn holds_fresh(&self, cs: Seq<char>) -> bool {
        &&& self.text() == encoded(split_chars(cs))
        &&& self.copies@ == vstd::utf8::encode_utf8(cs)
        &&& !self.dirty
    }

    /// Round trip: a buffer that holds a text as it was read, with no edit
    /// made, is saved as exactly the bytes that were read. No line feed is
    /// added or dropped at the end.
    pub proof fn lemma_fresh_round_trip(&self, cs: Seq<char>)
        requires
            self.holds_fresh(cs),
        ensures
            flat_bytes(self.text()) == vstd::utf8::encode_utf8(cs),
            flat_bytes(self.text()) == self.copies@,
            self.in_sync(),
    {
        lemma_flatten_split(cs);
    }

    /// A buffer for the file that was found under the name `input`, or, where
    /// none was found, an empty buffer that keeps `input` as the name to be
    /// saved under.
    pub fn new(input: String, found: Option<Loaded>) -> (buf: FileBuf)
        ensures
            buf.in_sync(),
            buf.pos == (0usize, 0usize),
            buf.scroll == 0,
            buf.backed == found.is_some(),
            match found {
                None => buf.name == input && buf.pathbuf@.len() == 0 && buf.metadata.is_none()
                    && buf.holds_fresh(Seq::empty()),
                Some(file) => buf.name == file.name && buf.pathbuf == file.pathbuf
                    && buf.metadata == Some(file.metadata) && buf.holds_fresh(file.text@),
            },
    {
        match found {
            None => {
                let content = split_lines("");
                proof {
                    reveal_strlit("");
                    lemma_flatten_split(""@);
                }
                FileBuf {
                    name: input,
                    backed: false,
                    dirty: false,
                    pos: (0, 0),
                    scroll: 0,
                    pathbuf: String::new(),
                    metadata: None,
                    content,
                    copies: "".as_bytes_vec(),
                }
            },
            Some(file) => FileBuf::from(file),
        }
    }

    /// A buffer for a file that was found on disk.
    pub fn from(file: Loaded) -> (buf: FileBuf)
        ensures
            buf.in_sync(),
            buf.pos == (0usize, 0usize),
            buf.scroll == 0,
            buf.backed,
            buf.name == file.name,
            buf.pathbuf == file.pathbuf,
            buf.metadata == Some(file.metadata),
            buf.holds_fresh(file.text@),
    {
        let content = split_lines(file.text.as_str());
        let copies = file.text.as_str().as_bytes_vec();
        proof {
            lemma_flatten_split(file.text@);
        }
        FileBuf {
            name: file.name,
            backed: true,
            dirty: false,
            pos: (0, 0),
            scroll: 0,
            pathbuf: file.pathbuf,
            metadata: Some(file.metadata),
            content,
            copies,
        }
    }

    /// The name that the buffer is shown under.
    pub fn name(&self) -> (name: &String)
        ensures
            *name == self.name,
    {
        &self.name
    }

    /// The path of the file behind the buffer.
    pub fn pathbuf(&self) -> (path: &String)
        ensures
            *path == self.pathbuf,
    {
        &self.pathbuf
    }

    /// Ties the buffer to the file that its host has opened under the
    /// buffer's name.
    pub fn try_open(&mut self, pathbuf: String, name: String, metadata: DiskMeta)
        ensures
            final(self).backed,
            final(self).pathbuf == pathbuf,
            final(self).name == name,
            final(self).metadata == Some(metadata),
            final(self).dirty == old(self).dirty,
            final(self).pos == old(self).pos,
            final(self).scroll == old(self).scroll,
            final(self).content == old(self).content,
            final(self).copies == old(self).copies,
    {
        self.metadata = Some(metadata);
        self.backed = true;
        self.pathbuf = pathbuf;
        self.name = name;
    }

    /// The size of the file on disk, 0 while there is none.
    pub fn file_size(&self) -> (size: u64)
        ensures
            size == match self.metadata {
                Some(metadata) => metadata.size,
                None => 0,
            },
    {
        match &self.metadata {
            Some(metadata) => metadata.size,
            None => 0,
        }
    }

    /// When the file was last modified, as far as the buffer knows.
    pub fn file_modified(&self) -> (modified: Option<Stamp>)
        ensures
            modified == match self.metadata {
                Some(metadata) => Some(metadata.modified),
                None => None,
            },
    {
        match &self.metadata {
            Some(metadata) => Some(metadata.modified),
            None => None,
        }
    }

    /// Takes over the file's text as it now is on disk. What was in the
    /// buffer is dropped, edits that were not saved too.
    pub fn sync(&mut self, text: &str, metadata: DiskMeta)
        ensures
            final(self).in_sync(),
            final(self).holds_fresh(text@),
            final(self).metadata == Some(metadata),
            final(self).name == old(self).name,
            final(self).backed == old(self).backed,
            final(self).pathbuf == old(self).pathbuf,
            final(self).pos == old(self).pos,
            final(self).scroll == old(self).scroll,
    {
        self.content = split_lines(text);
        self.copies = text.as_bytes_vec();
        self.metadata = Some(metadata);
        self.dirty = false;
        proof {
            lemma_flatten_split(text@);
        }
    }

    /// The lines of the buffer.
    pub fn content(&self) -> (content: &Content)
        ensures
            *content == self.content,
    {
        &self.content
    }

    /// Decides what a save has to do on disk: nothing for a backed buffer that
    /// is not dirty, else writing the flattened text. A buffer with neither
    /// file nor name cannot be saved. The host writes and then calls
    /// [`FileBuf::saved`].
    pub fn save(&self) -> (plan: Result<SavePlan, SaveError>)
        ensures
            plan is Err <==> !self.backed && self.name@.len() == 0,
            plan is Err ==> plan == Err::<SavePlan, SaveError>(SaveError::NoName),
            plan matches Ok(SavePlan::Skip) <==> self.backed && !self.dirty,
            plan matches Ok(SavePlan::Rewrite(_)) <==> self.backed && self.dirty,
            plan matches Ok(SavePlan::Create(_)) <==> !self.backed && self.name@.len() > 0,
            plan matches Ok(SavePlan::Rewrite(bytes)) ==> bytes@ == flat_bytes(self.text()),
            plan matches Ok(SavePlan::Create(bytes)) ==> bytes@ == flat_bytes(self.text()),
    {
        if self.backed {
            if self.dirty {
                Ok(SavePlan::Rewrite(self.flatten()))
            } else {
                Ok(SavePlan::Skip)
            }
        } else if self.name.as_str().is_empty() {
            Err(SaveError::NoName)
        } else {
            Ok(SavePlan::Create(self.flatten()))
        }
    }

    /// Records that the text, as it is, now stands on disk under the given
    /// path: the buffer is backed and clean.
    pub fn saved(&mut self, pathbuf: String, name: String, metadata: DiskMeta)
        ensures
            final(self).in_sync(),
            !final(self).dirty,
            final(self).backed,
            final(self).copies@ == flat_bytes(old(self).text()),
            final(self).content == old(self).content,
            final(self).pathbuf == pathbuf,
            final(self).name == name,
            final(self).metadata == Some(metadata),
            final(self).pos == old(self).pos,
            final(self).scroll == old(self).scroll,
    {
        self.copies = self.flatten();
        self.pathbuf = pathbuf;
        self.name = name;
        self.metadata = Some(metadata);
        self.backed = true;
        self.dirty = false;
    }

    /// Stores the viewport's cursor and scroll offset.
    pub fn save_status(&mut self, pos: (usize, usize), scroll: usize)
        ensures
            final(self).pos == pos,
            final(self).scroll == scroll,
            final(self).same_file(*old(self)),
    {
        self.pos = pos;
        self.scroll = scroll;
    }

    /// Whether `self` is `other` but for the stored cursor and scroll offset.
    pub open spec fn same_file(&self, other: FileBuf) -> bool {
        &&& self.name == other.name
        &&& self.backed == other.backed
        &&& self.dirty == other.dirty
        &&& self.pathbuf == other.pathbuf
        &&& self.metadata == other.metadata
        &&& self.content == other.content
        &&& self.copies == other.copies
    }

    /// The stored cursor and scroll offset.
    pub fn get_status(&self) -> (status: (usize, usize, usize))
        ensures
            status == (self.pos.0, self.pos.1, self.scroll),
    {
        let (x, y) = self.pos;
        (x, y, self.scroll)
    }

    /// Whether the buffer was found changed when it was last compared.
    pub fn is_dirty(&self) -> (dirty: bool)
        ensures
            dirty == self.dirty,
    {
        self.dirty
    }

    /// The bytes that the text is saved as.
    pub fn flatten(&self) -> (bytes: Vec<u8>)
        ensures
            bytes@ == flat_bytes(self.text()),
    {
        flatten(&self.content)
    }

    /// Sets the dirty flag by comparing fingerprints.
    pub fn refresh_dirty(&mut self)
        ensures
            final(self).in_sync(),
            final(self).pos == old(self).pos,
            final(self).scroll == old(self).scroll,
            final(self).name == old(self).name,
            final(self).backed == old(self).backed,
            final(self).pathbuf == old(self).pathbuf,
            final(self).metadata == old(self).metadata,
            final(self).content == old(self).content,
            final(self).copies == old(self).copies,
    {
        let now = self.flatten();
        self.dirty = calculate_hash(&now) != calculate_hash(&self.copies);
    }
}

/// What came of writing one buffer to disk.
pub struct Written {
    pub pathbuf: String,
    pub name: String,
    pub metadata: DiskMeta,
}

/// Why a buffer was not saved.
pub enum SaveFailure {
    NoName,
    /// Reading or writing failed; the text is the system's message.
    Io(String),
}

/// The buffer store: every open buffer, and which one is current.
pub struct FileMod {
    /// The buffers; the one with identifier `id` stands at index `id - 1`.
    pub file_map: Vec<FileBuf>,
    /// The identifier that the next buffer gets.
    pub file_cnt: FileID,
    pub curr_file: FileID,
    /// The directory that the file tree shows.
    pub curr_dir: String,
}

/// Whether the file behind a buffer has another modification time than the
/// buffer knows of.
pub open spec fn stale(buf: FileBuf, live: Option<Stamp>) -> bool {
    buf.backed && live.is_some() && buf.metadata.is_some() && buf.metadata.unwrap().modified
        != live.unwrap()
}

/// The identifiers of the stale buffers among the first `upto`, rising.
pub open spec fn stale_ids(bufs: Seq<FileBuf>, live: Seq<Option<Stamp>>, upto: int) -> Seq<FileID>
    decreases upto,
{
    if upto <= 0 {
        Seq::empty()
    } else if stale(bufs[upto - 1], live[upto - 1]) {
        stale_ids(bufs, live, upto - 1).push(upto as usize)
    } else {
        stale_ids(bufs, live, upto - 1)
    }
}

/// Where no identifier is listed, no buffer is stale.
pub proof fn lemma_none_stale(bufs: Seq<FileBuf>, live: Seq<Option<Stamp>>, upto: int)
    requires
        stale_ids(bufs, live, upto).len() == 0,
    ensures
        forall|i: int| 0 <= i < upto ==> !stale(#[trigger] bufs[i], live[i]),
    decreases upto,
{
    if upto > 0 {
        if !stale(bufs[upto - 1], live[upto - 1]) {
            lemma_none_stale(bufs, live, upto - 1);
        }
    }
}

/// The identifiers of the dirty buffers among the first `upto`, rising.
pub open spec fn dirty_ids(bufs: Seq<FileBuf>, upto: int) -> Seq<FileID>
    decreases upto,
{
    if upto <= 0 {
        Seq::empty()
    } else if bufs[upto - 1].dirty {
        dirty_ids(bufs, upto - 1).push(upto as usize)
    } else {
        dirty_ids(bufs, upto - 1)
    }
}

/// The identifier after `id` among `count` buffers, the first after the last.
pub open spec fn next_id(id: FileID, count: int) -> int {
    id as int % count + 1
}

/// The identifier before `id` among `count` buffers, the last before the first.
pub open spec fn prev_id(id: FileID, count: int) -> int {
    if id <= 1 {
        count
    } else {
        id - 1
    }
}

impl FileMod {
    /// There is a buffer, the current identifier names one, and the next
    /// identifier is one more than the number of buffers: identifiers start
    /// at 1 and none is used twice.
    pub open spec fn wf(&self) -> bool {
        &&& 1 <= self.curr_file <= self.file_map@.len()
        &&& self.file_cnt == self.file_map@.len() + 1
    }

    /// Whether `wf` holds, computed.
    pub fn check_wf(&self) -> (ok: bool)
        ensures
            ok == self.wf(),
    {
        let count = self.file_map.len();
        1 <= self.curr_file && self.curr_file <= count && count < usize::MAX && self.file_cnt
            == count + 1
    }

    /// The buffer with the given identifier.
    pub open spec fn buf(&self, id: FileID) -> FileBuf {
        self.file_map@[id - 1]
    }

    /// Every buffer's dirty flag agrees with the fingerprints.
    pub open spec fn all_in_sync(&self) -> bool {
        forall|i: int| 0 <= i < self.file_map@.len() ==> (#[trigger] self.file_map@[i]).in_sync()
    }

    /// The text of the current buffer.
    pub open spec fn curr_text(&self) -> Seq<Seq<u16>> {
        self.buf(self.curr_file).text()
    }

    /// Whether `self` is `before` but for the lines of the current buffer.
    pub open spec fn edited(&self, before: FileMod) -> bool {
        &&& self.wf()
        &&& self.curr_file == before.curr_file
        &&& self.file_cnt == before.file_cnt
        &&& self.curr_dir == before.curr_dir
        &&& self.file_map@.len() == before.file_map@.len()
        &&& forall|i: int|
            0 <= i < before.file_map@.len() && i != before.curr_file - 1 ==> self.file_map@[i]
                == before.file_map@[i]
        &&& self.buf(before.curr_file).same_but_content(before.buf(before.curr_file))
    }

    /// A store with one empty scratch buffer, for the directory `dir`.
    pub fn new(dir: String) -> (store: FileMod)
        ensures
            store.wf(),
            store.all_in_sync(),
            store.file_map@.len() == 1,
            store.curr_file == 1,
            store.curr_dir == dir,
            !store.buf(1).backed,
            store.buf(1).name@.len() == 0,
            store.buf(1).holds_fresh(Seq::empty()),
    {
        let mut file_map: Vec<FileBuf> = Vec::new();
        file_map.push(FileBuf::new(String::new(), None));
        FileMod { file_map, file_cnt: 2, curr_file: 1, curr_dir: dir }
    }

    /// A store of the given buffers, numbered in their order; the first one
    /// is current.
    pub fn from(opened: Vec<FileBuf>) -> (store: FileMod)
        requires
            1 <= opened@.len() < usize::MAX,
        ensures
            store.wf(),
            store.file_map == opened,
            store.curr_file == 1,
            store.curr_dir@.len() == 0,
    {
        let file_cnt = opened.len() + 1;
        FileMod { file_map: opened, file_cnt, curr_file: 1, curr_dir: String::new() }
    }

    /// Sets the working directory.
    pub fn set_dir(&mut self, dir: String)
        ensures
            final(self).curr_dir == dir,
            final(self).file_map == old(self).file_map,
            final(self).file_cnt == old(self).file_cnt,
            final(self).curr_file == old(self).curr_file,
    {
        self.curr_dir = dir;
    }

    /// One poll of the disk. `live` holds, for each buffer in order, the
    /// modification time that its file has now, where it has a file. A backed
    /// buffer whose file has another time than the buffer knows of is stale:
    /// it is left as it is and its identifier is returned, for the host to
    /// read the file again and hand it to [`FileMod::sync`]. Every other
    /// buffer has its dirty flag set anew from the fingerprints.
    pub fn update(&mut self, live: &Vec<Option<Stamp>>) -> (reload: Vec<FileID>)
        requires
            live@.len() == old(self).file_map@.len(),
        ensures
            reload@ == stale_ids(old(self).file_map@, live@, live@.len() as int),
            reload@.len() == 0 ==> final(self).all_in_sync(),
            final(self).file_map@.len() == old(self).file_map@.len(),
            final(self).file_cnt == old(self).file_cnt,
            final(self).curr_file == old(self).curr_file,
            final(self).curr_dir == old(self).curr_dir,
            forall|i: int|
                0 <= i < live@.len() && stale(old(self).file_map@[i], live@[i])
                    ==> final(self).file_map@[i] == old(self).file_map@[i],
            forall|i: int|
                0 <= i < live@.len() && !stale(old(self).file_map@[i], live@[i]) ==> {
                    &&& (#[trigger] final(self).file_map@[i]).in_sync()
                    &&& final(self).file_map@[i].same_but_dirty(old(self).file_map@[i])
                },
    {
        let mut reload: Vec<FileID> = Vec::new();
        let count = self.file_map.len();
        let mut i: usize = 0;
        while i < count
            invariant
                i <= count,
                count == live@.len(),
                self.file_map@.len() == count,
                self.file_cnt == old(self).file_cnt,
                self.curr_file == old(self).curr_file,
                self.curr_dir == old(self).curr_dir,
                reload@ == stale_ids(old(self).file_map@, live@, i as int),
                forall|j: int| i <= j < count ==> self.file_map@[j] == old(self).file_map@[j],
                forall|j: int|
                    0 <= j < i && stale(old(self).file_map@[j], live@[j]) ==> self.file_map@[j]
                        == old(self).file_map@[j],
                forall|j: int|
                    0 <= j < i && !stale(old(self).file_map@[j], live@[j]) ==> {
                        &&& (#[trigger] self.file_map@[j]).in_sync()
                        &&& self.file_map@[j].same_but_dirty(old(self).file_map@[j])
                    },
            decreases count - i,
        {
            let is_stale = self.file_map[i].backed && match (live[i], self.file_map[i].metadata) {
                (Some(now), Some(known)) => now.secs != known.modified.secs || now.nanos
                    != known.modified.nanos,
                _ => false,
            };
            if is_stale {
                reload.push(i + 1);
            } else {
                self.file_map[i].refresh_dirty();
            }
            i += 1;
        }
        proof {
            if reload@.len() == 0 {
                lemma_none_stale(old(self).file_map@, live@, count as int);
            }
        }
        reload
    }

    /// Hands the text that the host read from disk to the buffer `id`.
    pub fn sync(&mut self, id: FileID, text: &str, metadata: DiskMeta)
        requires
            1 <= id <= old(self).file_map@.len(),
        ensures
            final(self).file_map@.len() == old(self).file_map@.len(),
            final(self).file_cnt == old(self).file_cnt,
            final(self).curr_file == old(self).curr_file,
            final(self).curr_dir == old(self).curr_dir,
            forall|i: int|
                0 <= i < old(self).file_map@.len() && i != id - 1 ==> final(self).file_map@[i]
                    == old(self).file_map@[i],
            final(self).buf(id).in_sync(),
            final(self).buf(id).holds_fresh(text@),
            final(self).buf(id).metadata == Some(metadata),
            final(self).buf(id).name == old(self).buf(id).name,
            final(self).buf(id).pathbuf == old(self).buf(id).pathbuf,
            final(self).buf(id).backed == old(self).buf(id).backed,
            final(self).buf(id).pos == old(self).buf(id).pos,
            final(self).buf(id).scroll == old(self).buf(id).scroll,
    {
        self.file_map[id - 1].sync(text, metadata);
    }

    /// The buffers with their identifiers, by rising identifier.
    pub fn to_vec(&self) -> (all: Vec<(FileID, &FileBuf)>)
        ensures
            all@.len() == self.file_map@.len(),
            forall|i: int|
                0 <= i < all@.len() ==> (#[trigger] all@[i]).0 == i + 1 && *all@[i].1
                    == self.file_map@[i],
    {
        let mut all: Vec<(FileID, &FileBuf)> = Vec::new();
        let mut i: usize = 0;
        while i < self.file_map.len()
            invariant
                i <= self.file_map@.len(),
                all@.len() == i,
                forall|j: int|
                    0 <= j < i ==> (#[trigger] all@[j]).0 == j + 1 && *all@[j].1
                        == self.file_map@[j],
            decreases self.file_map@.len() - i,
        {
            all.push((i + 1, &self.file_map[i]));
            i += 1;
        }
        all
    }

    /// The number of the current buffer.
    pub fn curr_id(&self) -> (id: FileID)
        ensures
            id == self.curr_file,
    {
        self.curr_file
    }

    /// The working directory.
    pub fn curr_dir(&self) -> (dir: &String)
        ensures
            *dir == self.curr_dir,
    {
        &self.curr_dir
    }

    /// Adds a buffer for the file found under `name`, or an empty one that
    /// keeps the name, and returns its identifier.
    pub fn insert(&mut self, name: String, found: Option<Loaded>) -> (id: FileID)
        requires
            old(self).wf(),
            old(self).file_map@.len() + 1 < usize::MAX,
        ensures
            final(self).wf(),
            id == old(self).file_cnt,
            final(self).file_map@.len() == old(self).file_map@.len() + 1,
            final(self).file_map@.take(old(self).file_map@.len() as int) == old(self).file_map@,
            final(self).curr_file == old(self).curr_file,
            final(self).curr_dir == old(self).curr_dir,
            final(self).buf(id).in_sync(),
            final(self).buf(id).backed == found.is_some(),
            match found {
                None => final(self).buf(id).name == name && final(self).buf(id).holds_fresh(
                    Seq::empty(),
                ),
                Some(file) => final(self).buf(id).name == file.name && final(self).buf(id).pathbuf
                    == file.pathbuf && final(self).buf(id).holds_fresh(file.text@),
            },
    {
        let cnt = self.file_cnt;
        let file_buf = FileBuf::new(name, found);
        self.file_map.push(file_buf);
        self.file_cnt += 1;
        cnt
    }

    /// Opens a file once: where a buffer already holds the file with this
    /// canonical path, its identifier is returned and the store stays as it
    /// is; else a new buffer is added and its identifier returned.
    pub fn insert_from_path(&mut self, file: Loaded) -> (id: FileID)
        requires
            old(self).wf(),
            old(self).file_map@.len() + 1 < usize::MAX,
        ensures
            final(self).wf(),
            1 <= id <= final(self).file_map@.len(),
            id == old(self).opened_id(file.pathbuf@),
            final(self).buf(id).pathbuf@ == file.pathbuf@,
            final(self).curr_file == old(self).curr_file,
            final(self).curr_dir == old(self).curr_dir,
            old(self).path_id(file.pathbuf@) != 0 ==> id == old(self).path_id(file.pathbuf@)
                && final(self).file_map == old(self).file_map,
            old(self).path_id(file.pathbuf@) == 0 ==> {
                &&& id == old(self).file_cnt
                &&& final(self).file_map@.len() == old(self).file_map@.len() + 1
                &&& final(self).file_map@.take(old(self).file_map@.len() as int)
                    == old(self).file_map@
                &&& final(self).buf(id).in_sync()
                &&& final(self).buf(id).backed
                &&& final(self).buf(id).name == file.name
                &&& final(self).buf(id).holds_fresh(file.text@)
            },
    {
        let id = self.search(&file.pathbuf);
        if id == 0 {
            self.insert(String::new(), Some(file))
        } else {
            id
        }
    }

    /// The least identifier of a buffer with the canonical path `path` among
    /// the first `upto` buffers, 0 where there is none.
    pub open spec fn path_id_upto(&self, path: Seq<char>, upto: int) -> int
        decreases upto,
    {
        if upto <= 0 {
            0
        } else if self.path_id_upto(path, upto - 1) != 0 {
            self.path_id_upto(path, upto - 1)
        } else if self.file_map@[upto - 1].pathbuf@ == path {
            upto
        } else {
            0
        }
    }

    /// The least identifier of a buffer with the canonical path `path`, 0
    /// where there is none.
    pub open spec fn path_id(&self, path: Seq<char>) -> int {
        self.path_id_upto(path, self.file_map@.len() as int)
    }

    /// The identifier under which a file with the canonical path `path` is
    /// found after it was opened: that of the buffer that holds it already,
    /// or the next free one.
    pub open spec fn opened_id(&self, path: Seq<char>) -> FileID {
        if self.path_id(path) != 0 {
            self.path_id(path) as usize
        } else {
            self.file_cnt
        }
    }

    /// What `path_id_upto` finds is an identifier of a buffer with that path.
    pub proof fn lemma_path_id(&self, path: Seq<char>, upto: int)
        requires
            0 <= upto <= self.file_map@.len(),
        ensures
            0 <= self.path_id_upto(path, upto) <= upto,
            self.path_id_upto(path, upto) != 0 ==> self.file_map@[self.path_id_upto(path, upto)
                - 1].pathbuf@ == path,
            self.path_id_upto(path, upto) == 0 ==> forall|i: int|
                0 <= i < upto ==> (#[trigger] self.file_map@[i]).pathbuf@ != path,
        decreases upto,
    {
        if upto > 0 {
            self.lemma_path_id(path, upto - 1);
        }
    }

    /// The identifier of the buffer that holds the file with the canonical
    /// path `path`, 0 where none does.
    pub fn search(&self, path: &String) -> (id: FileID)
        ensures
            id == self.path_id(path@),
            id <= self.file_map@.len(),
            id != 0 ==> self.buf(id).pathbuf@ == path@,
    {
        let mut i: usize = 0;
        while i < self.file_map.len()
            invariant
                i <= self.file_map@.len(),
                self.path_id_upto(path@, i as int) == 0,
            decreases self.file_map@.len() - i,
        {
            if self.file_map[i].pathbuf == *path {
                proof {
                    self.lemma_path_stays(path@, i + 1, self.file_map@.len() as int);
                }
                return i + 1;
            }
            i += 1;
        }
        0
    }

    /// Once a buffer with the path is found, later buffers do not change
    /// what is found.
    pub proof fn lemma_path_stays(&self, path: Seq<char>, found: int, upto: int)
        requires
            0 < found <= upto,
            self.path_id_upto(path, found) != 0,
        ensures
            self.path_id_upto(path, upto) == self.path_id_upto(path, found),
        decreases upto - found,
    {
        if found < upto {
            self.lemma_path_stays(path, found, upto - 1);
        }
    }

    /// The current buffer.
    pub fn curr(&self) -> (buf: &FileBuf)
        requires
            self.wf(),
        ensures
            *buf == self.buf(self.curr_file),
    {
        &self.file_map[self.curr_file - 1]
    }

    /// The lines of the current buffer.
    pub fn get_content(&self) -> (content: &Content)
        requires
            self.wf(),
        ensures
            *content == self.buf(self.curr_file).content,
    {
        &self.file_map[self.curr_file - 1].content
    }

    /// What saving the current buffer has to do on disk.
    pub fn save(&self) -> (plan: Result<SavePlan, SaveError>)
        requires
            self.wf(),
        ensures
            plan is Err <==> !self.buf(self.curr_file).backed && self.buf(
                self.curr_file,
            ).name@.len() == 0,
            plan is Err ==> plan == Err::<SavePlan, SaveError>(SaveError::NoName),
            plan matches Ok(SavePlan::Skip) <==> self.buf(self.curr_file).backed && !self.buf(
                self.curr_file,
            ).dirty,
            plan matches Ok(SavePlan::Rewrite(_)) <==> self.buf(self.curr_file).backed && self.buf(
                self.curr_file,
            ).dirty,
            plan matches Ok(SavePlan::Create(_)) <==> !self.buf(self.curr_file).backed && self.buf(
                self.curr_file,
            ).name@.len() > 0,
            plan matches Ok(SavePlan::Rewrite(bytes)) ==> bytes@ == flat_bytes(
                self.buf(self.curr_file).text(),
            ),
            plan matches Ok(SavePlan::Create(bytes)) ==> bytes@ == flat_bytes(
                self.buf(self.curr_file).text(),
            ),
    {
        self.file_map[self.curr_file - 1].save()
    }

    /// Records that the buffer `id` now stands on disk as it is.
    pub fn saved(&mut self, id: FileID, written: Written)
        requires
            1 <= id <= old(self).file_map@.len(),
        ensures
            final(self).file_map@.len() == old(self).file_map@.len(),
            final(self).file_cnt == old(self).file_cnt,
            final(self).curr_file == old(self).curr_file,
            final(self).curr_dir == old(self).curr_dir,
            forall|i: int|
                0 <= i < old(self).file_map@.len() && i != id - 1 ==> final(self).file_map@[i]
                    == old(self).file_map@[i],
            final(self).buf(id).in_sync(),
            !final(self).buf(id).dirty,
            final(self).buf(id).backed,
            final(self).buf(id).copies@ == flat_bytes(old(self).buf(id).text()),
            final(self).buf(id).content == old(self).buf(id).content,
            final(self).buf(id).pathbuf == written.pathbuf,
            final(self).buf(id).name == written.name,
            final(self).buf(id).metadata == Some(written.metadata),
            final(self).buf(id).pos == old(self).buf(id).pos,
            final(self).buf(id).scroll == old(self).buf(id).scroll,
    {
        self.file_map[id - 1].saved(written.pathbuf, written.name, written.metadata);
    }

    /// Gives the current buffer a name to be saved under.
    pub fn set_name(&mut self, name: String)
        requires
            old(self).wf(),
        ensures
            final(self).wf(),
            final(self).file_map@.len() == old(self).file_map@.len(),
            final(self).file_cnt == old(self).file_cnt,
            final(self).curr_file == old(self).curr_file,
            final(self).curr_dir == old(self).curr_dir,
            forall|i: int|
                0 <= i < old(self).file_map@.len() && i != old(self).curr_file - 1
                    ==> final(self).file_map@[i] == old(self).file_map@[i],
            final(self).buf(old(self).curr_file).name == name,
            final(self).buf(old(self).curr_file).same_but_name(old(self).buf(old(self).curr_file)),
    {
        let at = self.curr_file - 1;
        self.file_map[at].name = name;
    }

    /// The name of the current buffer.
    pub fn name(&self) -> (name: &String)
        requires
            self.wf(),
        ensures
            *name == self.buf(self.curr_file).name,
    {
        &self.file_map[self.curr_file - 1].name
    }

    /// The names of all buffers, by rising identifier.
    pub fn names(&self) -> (names: Vec<&String>)
        ensures
            names@.len() == self.file_map@.len(),
            forall|i: int| 0 <= i < names@.len() ==> *names@[i] == self.file_map@[i].name,
    {
        let mut names: Vec<&String> = Vec::new();
        let mut i: usize = 0;
        while i < self.file_map.len()
            invariant
                i <= self.file_map@.len(),
                names@.len() == i,
                forall|j: int| 0 <= j < i ==> *names@[j] == self.file_map@[j].name,
            decreases self.file_map@.len() - i,
        {
            names.push(&self.file_map[i].name);
            i += 1;
        }
        names
    }

    /// Leaves the viewport's cursor and scroll offset with the current
    /// buffer, makes the buffer `to` current and returns what was left with
    /// that one.
    fn switch(&mut self, to: FileID, pos: (usize, usize), scroll: usize) -> (status: (
        usize,
        usize,
        usize,
    ))
        requires
            old(self).wf(),
            1 <= to <= old(self).file_map@.len(),
        ensures
            final(self).switched(*old(self), to, pos, scroll),
            status == final(self).buf(to).status(),
    {
        let from = self.curr_file - 1;
        self.file_map[from].save_status(pos, scroll);
        self.curr_file = to;
        self.file_map[to - 1].get_status()
    }

    /// Whether `self` is `before` after a switch to the buffer `to`: the
    /// buffer that was current holds the given cursor and scroll offset,
    /// `to` is current, and nothing else has changed.
    pub open spec fn switched(
        &self,
        before: FileMod,
        to: FileID,
        pos: (usize, usize),
        scroll: usize,
    ) -> bool {
        &&& self.wf()
        &&& self.curr_file == to
        &&& self.file_cnt == before.file_cnt
        &&& self.curr_dir == before.curr_dir
        &&& self.file_map@.len() == before.file_map@.len()
        &&& forall|i: int|
            0 <= i < before.file_map@.len() && i != before.curr_file - 1 ==> self.file_map@[i]
                == before.file_map@[i]
        &&& self.buf(before.curr_file).pos == pos
        &&& self.buf(before.curr_file).scroll == scroll
        &&& self.buf(before.curr_file).same_file(before.buf(before.curr_file))
    }

    /// Goes to the next buffer, from the last to the first.
    pub fn shift(&mut self, pos: (usize, usize), scroll: usize) -> (status: (usize, usize, usize))
        requires
            old(self).wf(),
        ensures
            final(self).switched(
                *old(self),
                next_id(old(self).curr_file, old(self).file_map@.len() as int) as usize,
                pos,
                scroll,
            ),
            status == final(self).buf(final(self).curr_file).status(),
    {
        let to = self.curr_file % (self.file_cnt - 1) + 1;
        self.switch(to, pos, scroll)
    }

    /// Goes to the buffer before, from the first to the last.
    pub fn rshift(&mut self, pos: (usize, usize), scroll: usize) -> (status: (usize, usize, usize))
        requires
            old(self).wf(),
        ensures
            final(self).switched(
                *old(self),
                prev_id(old(self).curr_file, old(self).file_map@.len() as int) as usize,
                pos,
                scroll,
            ),
            status == final(self).buf(final(self).curr_file).status(),
    {
        let to = if self.curr_file <= 1 {
            self.file_cnt - 1
        } else {
            self.curr_file - 1
        };
        self.switch(to, pos, scroll)
    }

    /// Goes to the buffer with the identifier `file_id`.
    pub fn shift_to(&mut self, file_id: FileID, pos: (usize, usize), scroll: usize) -> (status: (
        usize,
        usize,
        usize,
    ))
        requires
            old(self).wf(),
            1 <= file_id <= old(self).file_map@.len(),
        ensures
            final(self).switched(*old(self), file_id, pos, scroll),
            status == final(self).buf(file_id).status(),
    {
        self.switch(file_id, pos, scroll)
    }

    /// Whether no buffer is dirty.
    pub fn is_all_saved(&self) -> (clean: bool)
        ensures
            clean == forall|i: int| 0 <= i < self.file_map@.len() ==> !(
            #[trigger] self.file_map@[i]).dirty,
    {
        let mut i: usize = 0;
        while i < self.file_map.len()
            invariant
                i <= self.file_map@.len(),
                forall|j: int| 0 <= j < i ==> !(#[trigger] self.file_map@[j]).dirty,
            decreases self.file_map@.len() - i,
        {
            if self.file_map[i].dirty {
                return false;
            }
            i += 1;
        }
        true
    }

    /// For every dirty buffer, by rising identifier, what saving it has to do
    /// on disk. The host tries every one of them, also after one has failed,
    /// and hands what came of each to [`FileMod::save_all_done`].
    pub fn save_all(&self) -> (plans: Vec<(FileID, Result<SavePlan, SaveError>)>)
        requires
            self.file_map@.len() < usize::MAX,
        ensures
            plans@.len() == dirty_ids(self.file_map@, self.file_map@.len() as int).len(),
            forall|k: int|
                0 <= k < plans@.len() ==> {
                    let id = dirty_ids(self.file_map@, self.file_map@.len() as int)[k];
                    &&& (#[trigger] plans@[k]).0 == id
                    &&& 1 <= id <= self.file_map@.len()
                    &&& self.buf(id).dirty
                    &&& plans@[k].1 is Err <==> !self.buf(id).backed && self.buf(id).name@.len()
                        == 0
                    &&& plans@[k].1 matches Ok(SavePlan::Rewrite(bytes)) ==> self.buf(id).backed
                        && bytes@ == flat_bytes(self.buf(id).text())
                    &&& plans@[k].1 matches Ok(SavePlan::Create(bytes)) ==> !self.buf(id).backed
                        && bytes@ == flat_bytes(self.buf(id).text())
                    &&& !(plans@[k].1 matches Ok(SavePlan::Skip))
                },
    {
        let mut plans: Vec<(FileID, Result<SavePlan, SaveError>)> = Vec::new();
        let mut i: usize = 0;
        while i < self.file_map.len()
            invariant
                i <= self.file_map@.len(),
                self.file_map@.len() < usize::MAX,
                plans@.len() == dirty_ids(self.file_map@, i as int).len(),
                forall|k: int|
                    0 <= k < plans@.len() ==> {
                        let id = dirty_ids(self.file_map@, i as int)[k];
                        &&& (#[trigger] plans@[k]).0 == id
                        &&& 1 <= id <= i
                        &&& self.buf(id).dirty
                        &&& plans@[k].1 is Err <==> !self.buf(id).backed && self.buf(
                            id,
                        ).name@.len() == 0
                        &&& plans@[k].1 matches Ok(SavePlan::Rewrite(bytes)) ==> self.buf(
                            id,
                        ).backed && bytes@ == flat_bytes(self.buf(id).text())
                        &&& plans@[k].1 matches Ok(SavePlan::Create(bytes)) ==> !self.buf(
                            id,
                        ).backed && bytes@ == flat_bytes(self.buf(id).text())
                        &&& !(plans@[k].1 matches Ok(SavePlan::Skip))
                    },
            decreases self.file_map@.len() - i,
        {
            if self.file_map[i].dirty {
                let plan = self.file_map[i].save();
                plans.push((i + 1, plan));
            }
            i += 1;
        }
        plans
    }

    /// The current buffer, to be changed in place.
    pub fn mut_curr(&mut self) -> (buf: &mut FileBuf)
        requires
            old(self).wf(),
        ensures
            *buf == old(self).buf(old(self).curr_file),
            final(self).file_map@ == old(self).file_map@.update(
                old(self).curr_file - 1,
                *final(buf),
            ),
            final(self).file_cnt == old(self).file_cnt,
            final(self).curr_file == old(self).curr_file,
            final(self).curr_dir == old(self).curr_dir,
    {
        let at = self.curr_file - 1;
        &mut self.file_map[at]
    }

    /// Takes in what came of the host's attempt to save every dirty buffer.
    /// Each buffer that was written is clean from now on; the others stay as
    /// they are. The first failure is reported, after all outcomes have been
    /// taken in.
    pub fn save_all_done(
        &mut self,
        outcomes: &Vec<(FileID, Result<Written, SaveFailure>)>,
    ) -> (first: Result<(), SaveFailure>)
        requires
            forall|k: int|
                0 <= k < outcomes@.len()
                    ==> 1 <= (#[trigger] outcomes@[k]).0 <= old(self).file_map@.len(),
            forall|j: int, k: int|
                0 <= j < k < outcomes@.len() ==> (#[trigger] outcomes@[j]).0 < (
                #[trigger] outcomes@[k]).0,
        ensures
            first == match Self::first_failure(outcomes@, outcomes@.len() as int) {
                None => Ok::<(), SaveFailure>(()),
                Some(failure) => Err::<(), SaveFailure>(failure),
            },
            final(self).file_map@.len() == old(self).file_map@.len(),
            final(self).file_cnt == old(self).file_cnt,
            final(self).curr_file == old(self).curr_file,
            final(self).curr_dir == old(self).curr_dir,
            forall|k: int|
                0 <= k < outcomes@.len() && (#[trigger] outcomes@[k]).1 is Ok ==> {
                    let id = outcomes@[k].0;
                    &&& !final(self).buf(id).dirty
                    &&& final(self).buf(id).in_sync()
                    &&& final(self).buf(id).backed
                    &&& final(self).buf(id).content == old(self).buf(id).content
                    &&& final(self).buf(id).copies@ == flat_bytes(old(self).buf(id).text())
                },
            forall|i: int|
                0 <= i < old(self).file_map@.len() && (forall|k: int|
                    0 <= k < outcomes@.len() ==> (#[trigger] outcomes@[k]).0 != i + 1
                        || outcomes@[k].1 is Err) ==> (#[trigger] final(self).file_map@[i])
                    == old(self).file_map@[i],
    {
        let mut first: Result<(), SaveFailure> = Ok(());
        let mut k: usize = 0;
        while k < outcomes.len()
            invariant
                k <= outcomes@.len(),
                self.file_map@.len() == old(self).file_map@.len(),
                self.file_cnt == old(self).file_cnt,
                self.curr_file == old(self).curr_file,
                self.curr_dir == old(self).curr_dir,
                forall|j: int|
                    0 <= j < outcomes@.len()
                        ==> 1 <= (#[trigger] outcomes@[j]).0 <= old(self).file_map@.len(),
                forall|i: int, j: int|
                    0 <= i < j < outcomes@.len() ==> (#[trigger] outcomes@[i]).0 < (
                    #[trigger] outcomes@[j]).0,
                first == match Self::first_failure(outcomes@, k as int) {
                    None => Ok::<(), SaveFailure>(()),
                    Some(failure) => Err::<(), SaveFailure>(failure),
                },
                forall|j: int|
                    0 <= j < k && (#[trigger] outcomes@[j]).1 is Ok ==> {
                        let id = outcomes@[j].0;
                        &&& !self.buf(id).dirty
                        &&& self.buf(id).in_sync()
                        &&& self.buf(id).backed
                        &&& self.buf(id).content == old(self).buf(id).content
                        &&& self.buf(id).copies@ == flat_bytes(old(self).buf(id).text())
                    },
                forall|i: int|
                    0 <= i < old(self).file_map@.len() && (forall|j: int|
                        0 <= j < k ==> (#[trigger] outcomes@[j]).0 != i + 1 || outcomes@[j].1
                            is Err) ==> (#[trigger] self.file_map@[i]) == old(self).file_map@[i],
            decreases outcomes@.len() - k,
        {
            let id = outcomes[k].0;
            match &outcomes[k].1 {
                Ok(written) => {
                    self.file_map[id - 1].saved(
                        written.pathbuf.clone(),
                        written.name.clone(),
                        written.metadata,
                    );
                },
                Err(failure) => {
                    if first.is_ok() {
                        first = Err(
                            match failure {
                                SaveFailure::NoName => SaveFailure::NoName,
                                SaveFailure::Io(message) => SaveFailure::Io(message.clone()),
                            },
                        );
                    }
                },
            }
            k += 1;
        }
        first
    }

    /// The first failure among the outcomes of a save of all dirty buffers,
    /// if there is one.
    pub open spec fn first_failure(
        outcomes: Seq<(FileID, Result<Written, SaveFailure>)>,
        upto: int,
    ) -> Option<SaveFailure>
        decreases upto,
    {
        if upto <= 0 {
            None
        } else {
            match Self::first_failure(outcomes, upto - 1) {
                Some(failure) => Some(failure),
                None => match outcomes[upto - 1].1 {
                    Ok(_) => None,
                    Err(failure) => Some(failure),
                },
            }
        }
    }
}

impl FileBuf {
    /// Whether `self` is `other` but for the dirty flag.
    pub open spec fn same_but_dirty(&self, other: FileBuf) -> bool {
        &&& self.name == other.name
        &&& self.backed == other.backed
        &&& self.pos == other.pos
        &&& self.scroll == other.scroll
        &&& self.pathbuf == other.pathbuf
        &&& self.metadata == other.metadata
        &&& self.content == other.content
        &&& self.copies == other.copies
    }

    /// Whether `self` is `other` but for the name.
    pub open spec fn same_but_name(&self, other: FileBuf) -> bool {
        &&& self.dirty == other.dirty
        &&& self.backed == other.backed
        &&& self.pos == other.pos
        &&& self.scroll == other.scroll
        &&& self.pathbuf == other.pathbuf
        &&& self.metadata == other.metadata
        &&& self.content == other.content
        &&& self.copies == other.copies
    }

    /// Whether `self` is `other` but for the lines.
    pub open spec fn same_but_content(&self, other: FileBuf) -> bool {
        &&& self.name == other.name
        &&& self.dirty == other.dirty
        &&& self.backed == other.backed
        &&& self.pos == other.pos
        &&& self.scroll == other.scroll
        &&& self.pathbuf == other.pathbuf
        &&& self.metadata == other.metadata
        &&& self.copies == other.copies
    }

    /// The stored cursor and scroll offset, as the viewport takes them over.
    pub open spec fn status(&self) -> (usize, usize, usize) {
        (self.pos.0, self.pos.1, self.scroll)
    }
}

} // verus!
