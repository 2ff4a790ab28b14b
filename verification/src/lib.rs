//! A terminal text editor's core: the buffer store, the soft-wrapping text
//! viewport and the panel compositor, with their contracts.
//!
//! - [`file`] holds the buffers: the text of each open file, what is known of
//!   the file on disk, and whether the two differ.
//! - [`view::mainview`] is the text viewport: cursor, scrolling, soft wrap,
//!   editing, search and replace. [`wrap`] and [`search`] hold its arithmetic.
//! - [`screen`] is the compositor: the panels, the focus, the mailboxes and
//!   the cycle that one key drives. [`focus`] holds the order of the focus.
//!
//! The library does no input or output. A host reads keys, files and
//! directories, hands them in, and paints what the panels say is to be seen.
//! Lines of text are `widestring::Utf16String`s; [`text`] states what the
//! library relies on of them.

pub mod attrs;
pub mod color;
pub mod file;
pub mod fmt;
pub mod focus;
pub mod key;
pub mod lines;
pub mod screen;
pub mod search;
pub mod settings;
pub mod terminal;
pub mod text;
pub mod view;
pub mod wrap;
