use std::collections::hash_map::DefaultHasher;
use std::hash::Hasher;
use tged::file::{
    calculate_hash, DiskMeta, FileBuf, FileMod, Loaded, SaveError, SaveFailure, SavePlan, Stamp,
    Written,
};
use tged::lines::{flatten, split_lines, string_lines};
use widestring::Utf16String;

fn meta(secs: u64) -> DiskMeta {
    DiskMeta { size: 0, modified: Stamp { secs, nanos: 0 } }
}

fn file(path: &str, text: &str) -> Loaded {
    Loaded {
        pathbuf: String::from(path),
        name: String::from(path.rsplit('/').next().unwrap()),
        text: String::from(text),
        metadata: meta(5),
    }
}

fn texts(lines: &Vec<Utf16String>) -> Vec<String> {
    lines.iter().map(|l| l.to_string()).collect()
}

#[test]
fn a_text_is_cut_at_every_line_feed() {
    assert_eq!(texts(&split_lines("")), vec![""]);
    assert_eq!(texts(&split_lines("abc")), vec!["abc"]);
    assert_eq!(texts(&split_lines("a\nb")), vec!["a", "b"]);
    assert_eq!(texts(&split_lines("a\nb\n")), vec!["a", "b", ""]);
    assert_eq!(texts(&split_lines("\n\n")), vec!["", "", ""]);
    assert_eq!(texts(&split_lines("a\r\nb")), vec!["a\r", "b"]);
}

#[test]
fn flattening_gives_the_bytes_back_with_and_without_a_last_line_feed() {
    for text in ["", "x", "line1\nline2", "line1\nline2\n", "\n", "\n\nx\n\n", "h\u{e9}llo \u{1f496}\nw\u{f6}rld"] {
        assert_eq!(flatten(&split_lines(text)), text.as_bytes().to_vec());
    }
}

#[test]
fn flattening_puts_one_line_feed_between_two_lines() {
    let lines = vec![Utf16String::from_str("a"), Utf16String::from_str(""), Utf16String::from_str("b")];
    assert_eq!(flatten(&lines), b"a\n\nb".to_vec());
    assert_eq!(flatten(&Vec::new()), Vec::<u8>::new());
}

#[test]
fn a_new_buffer_without_a_file_keeps_the_name_and_one_empty_line() {
    let buf = FileBuf::new(String::from("list.txt"), None);
    assert_eq!(buf.name(), "list.txt");
    assert_eq!(buf.pathbuf(), "");
    assert!(!buf.backed);
    assert!(!buf.is_dirty());
    assert_eq!(texts(buf.content()), vec![""]);
    assert_eq!(buf.file_size(), 0);
    assert_eq!(buf.file_modified(), None);
    assert_eq!(buf.get_status(), (0, 0, 0));
}

#[test]
fn a_buffer_for_a_file_takes_its_text_and_what_the_disk_says() {
    let mut found = file("/w/a.txt", "one\ntwo");
    found.metadata = DiskMeta { size: 7, modified: Stamp { secs: 9, nanos: 3 } };
    let buf = FileBuf::new(String::from("a.txt"), Some(found));
    assert_eq!(buf.name(), "a.txt");
    assert_eq!(buf.pathbuf(), "/w/a.txt");
    assert!(buf.backed);
    assert!(!buf.is_dirty());
    assert_eq!(texts(buf.content()), vec!["one", "two"]);
    assert_eq!(buf.copies, b"one\ntwo".to_vec());
    assert_eq!(buf.file_size(), 7);
    assert_eq!(buf.file_modified(), Some(Stamp { secs: 9, nanos: 3 }));
}

#[test]
fn the_dirty_flag_follows_the_fingerprints() {
    let mut buf = FileBuf::from(file("/w/a", "abc"));
    buf.refresh_dirty();
    assert!(!buf.is_dirty());
    buf.content[0] = Utf16String::from_str("abd");
    buf.refresh_dirty();
    assert!(buf.is_dirty());
    buf.content[0] = Utf16String::from_str("abc");
    buf.refresh_dirty();
    assert!(!buf.is_dirty());
}

#[test]
fn a_buffer_with_neither_file_nor_name_cannot_be_saved() {
    let buf = FileBuf::new(String::new(), None);
    assert!(matches!(buf.save(), Err(SaveError::NoName)));
    let store = FileMod::new(String::from("/w"));
    assert!(matches!(store.save(), Err(SaveError::NoName)));
}

#[test]
fn a_named_buffer_without_a_file_is_created_on_save() {
    let mut buf = FileBuf::new(String::from("new.txt"), None);
    buf.content[0] = Utf16String::from_str("hi");
    match buf.save() {
        Ok(SavePlan::Create(bytes)) => assert_eq!(bytes, b"hi".to_vec()),
        _ => panic!("a named buffer without a file is created"),
    }
    buf.saved(String::from("/w/new.txt"), String::from("new.txt"), meta(7));
    assert!(buf.backed);
    assert!(!buf.is_dirty());
    assert_eq!(buf.copies, b"hi".to_vec());
    assert_eq!(buf.pathbuf(), "/w/new.txt");
    assert!(matches!(buf.save(), Ok(SavePlan::Skip)));
}

#[test]
fn a_reload_drops_unsaved_edits() {
    let mut buf = FileBuf::from(file("/w/a", "old"));
    buf.content[0] = Utf16String::from_str("edited");
    buf.refresh_dirty();
    assert!(buf.is_dirty());
    buf.sync("fresh\ntext", meta(8));
    assert!(!buf.is_dirty());
    assert_eq!(texts(buf.content()), vec!["fresh", "text"]);
    assert_eq!(buf.file_modified(), Some(Stamp { secs: 8, nanos: 0 }));
}

#[test]
fn try_open_ties_a_buffer_to_its_file() {
    let mut buf = FileBuf::new(String::from("n"), None);
    buf.try_open(String::from("/w/n"), String::from("n"), meta(2));
    assert!(buf.backed);
    assert_eq!(buf.pathbuf(), "/w/n");
    assert_eq!(buf.file_modified(), Some(Stamp { secs: 2, nanos: 0 }));
}

#[test]
fn identifiers_start_at_one_and_grow() {
    let mut store = FileMod::new(String::from("/w"));
    assert_eq!(store.curr_id(), 1);
    assert_eq!(store.curr_dir(), "/w");
    assert_eq!(store.insert(String::from("b"), None), 2);
    assert_eq!(store.insert(String::from("c"), Some(file("/w/c", "x"))), 3);
    assert_eq!(store.names(), vec!["", "b", "c"]);
    let all = store.to_vec();
    assert_eq!(all.iter().map(|(id, _)| *id).collect::<Vec<_>>(), vec![1, 2, 3]);
    store.set_dir(String::from("/other"));
    assert_eq!(store.curr_dir(), "/other");
}

#[test]
fn opening_a_path_twice_gives_the_same_buffer() {
    let mut store = FileMod::from(vec![FileBuf::from(file("/w/a", "a"))]);
    assert_eq!(store.search(&String::from("/w/a")), 1);
    assert_eq!(store.search(&String::from("/w/b")), 0);
    assert_eq!(store.insert_from_path(file("/w/b", "b")), 2);
    assert_eq!(store.insert_from_path(file("/w/a", "changed")), 1);
    assert_eq!(store.insert_from_path(file("/w/b", "b")), 2);
    assert_eq!(store.to_vec().len(), 2);
    assert_eq!(texts(store.to_vec()[0].1.content()), vec!["a"]);
}

#[test]
fn switching_leaves_the_place_behind_and_fetches_the_other_one() {
    let mut store = FileMod::from(vec![
        FileBuf::from(file("/w/a", "a")),
        FileBuf::from(file("/w/b", "b")),
        FileBuf::from(file("/w/c", "c")),
    ]);
    assert_eq!(store.shift((4, 2), 1), (0, 0, 0));
    assert_eq!(store.curr_id(), 2);
    assert_eq!(store.shift((7, 7), 7), (0, 0, 0));
    assert_eq!(store.curr_id(), 3);
    assert_eq!(store.shift((9, 9), 9), (4, 2, 1));
    assert_eq!(store.curr_id(), 1);
    assert_eq!(store.rshift((1, 1), 0), (9, 9, 9));
    assert_eq!(store.curr_id(), 3);
    assert_eq!(store.rshift((3, 3), 3), (7, 7, 7));
    assert_eq!(store.curr_id(), 2);
    assert_eq!(store.shift_to(3, (5, 5), 5), (3, 3, 3));
    assert_eq!(store.curr_id(), 3);
    assert_eq!(store.name(), "c");
    assert_eq!(store.curr().name(), "c");
    store.mut_curr().save_status((8, 8), 8);
    assert_eq!(store.curr().get_status(), (8, 8, 8));
}

#[test]
fn a_poll_names_the_stale_buffers_and_refreshes_the_others() {
    let mut store = FileMod::from(vec![
        FileBuf::from(file("/w/a", "a")),
        FileBuf::new(String::from("scratch"), None),
        FileBuf::from(file("/w/c", "c")),
    ]);
    store.file_map[1].content[0] = Utf16String::from_str("typed");
    store.file_map[2].content[0] = Utf16String::from_str("edited");
    let live = vec![Some(Stamp { secs: 5, nanos: 0 }), None, Some(Stamp { secs: 6, nanos: 0 })];
    assert_eq!(store.update(&live), vec![3]);
    assert!(!store.file_map[0].is_dirty());
    assert!(store.file_map[1].is_dirty());
    assert!(!store.file_map[2].is_dirty());
    assert!(!store.is_all_saved());
    store.sync(3, "c on disk", DiskMeta { size: 9, modified: Stamp { secs: 6, nanos: 0 } });
    assert_eq!(texts(store.file_map[2].content()), vec!["c on disk"]);
    assert_eq!(store.update(&live), Vec::<usize>::new());
}

#[test]
fn saving_all_goes_on_after_a_failure_and_reports_the_first_one() {
    let mut store = FileMod::from(vec![
        FileBuf::from(file("/w/a", "a")),
        FileBuf::new(String::new(), None),
        FileBuf::from(file("/w/c", "c")),
        FileBuf::from(file("/w/d", "d")),
    ]);
    store.file_map[0].content[0] = Utf16String::from_str("a2");
    store.file_map[1].content[0] = Utf16String::from_str("s");
    store.file_map[3].content[0] = Utf16String::from_str("d2");
    store.update(&vec![None, None, None, None]);
    let plans = store.save_all();
    assert_eq!(plans.iter().map(|p| p.0).collect::<Vec<_>>(), vec![1, 2, 4]);
    assert!(matches!(&plans[0].1, Ok(SavePlan::Rewrite(b)) if b == b"a2"));
    assert!(matches!(&plans[1].1, Err(SaveError::NoName)));
    assert!(matches!(&plans[2].1, Ok(SavePlan::Rewrite(b)) if b == b"d2"));
    let outcomes = vec![
        (1, Err(SaveFailure::Io(String::from("disk full")))),
        (2, Err(SaveFailure::NoName)),
        (
            4,
            Ok(Written { pathbuf: String::from("/w/d"), name: String::from("d"), metadata: meta(9) }),
        ),
    ];
    match store.save_all_done(&outcomes) {
        Err(SaveFailure::Io(message)) => assert_eq!(message, "disk full"),
        _ => panic!("the first failure is reported"),
    }
    assert!(store.file_map[0].is_dirty());
    assert!(store.file_map[1].is_dirty());
    assert!(!store.file_map[3].is_dirty());
    assert_eq!(store.file_map[3].copies, b"d2".to_vec());
    assert!(matches!(store.save_all_done(&Vec::new()), Ok(())));
}

#[test]
fn naming_the_current_buffer_makes_it_savable() {
    let mut store = FileMod::new(String::from("/w"));
    store.set_name(String::from("named.txt"));
    assert_eq!(store.name(), "named.txt");
    assert!(matches!(store.save(), Ok(SavePlan::Create(_))));
    store.saved(
        1,
        Written { pathbuf: String::from("/w/named.txt"), name: String::from("named.txt"), metadata: meta(1) },
    );
    assert!(store.is_all_saved());
    assert!(store.curr().backed);
}

#[test]
fn cutting_agrees_with_the_standard_split_on_line_feeds() {
    for text in ["", "\n", "a", "a\n", "\na", "a\n\nb", "x\ny\nz\n", "\r\n\r\n", "t\u{e4}st\n\u{1f496}\n"] {
        let expected: Vec<String> = text.split('\n').map(String::from).collect();
        assert_eq!(texts(&split_lines(text)), expected);
    }
}

#[test]
fn the_fingerprint_is_the_standard_hash_of_the_bytes() {
    let bytes = b"line1\nline2".to_vec();
    let print = calculate_hash(&bytes);
    assert_eq!(print, calculate_hash(&bytes.clone()));
    assert_ne!(print, calculate_hash(&b"line1\nline2\n".to_vec()));
    assert_ne!(print, calculate_hash(&Vec::new()));
    let mut hasher = DefaultHasher::new();
    hasher.write(&bytes);
    assert_eq!(print, hasher.finish());
}

#[test]
fn a_text_is_cut_into_strings_at_every_line_feed() {
    for text in ["", "\n", "a", "a\n", "\na", "a\n\nb", "t\u{e4}st\n\u{1f496}\n"] {
        let expected: Vec<&str> = text.split('\n').collect();
        assert_eq!(string_lines(text), expected);
    }
}
