use tged::file::{DiskMeta, FileBuf, FileMod, Loaded, Stamp};
use tged::key::Key;
use tged::screen::Module;
use tged::search::{find_in_line, find_matches, occurs};
use tged::settings::Settings;
use tged::terminal::term::Term;
use tged::view::mainview::{MainView, Mode};
use tged::view::{Ask, Prompt};
use widestring::Utf16String;

fn units(text: &str) -> Vec<u16> {
    text.encode_utf16().collect()
}

fn content(lines: &[&str]) -> Vec<Utf16String> {
    lines.iter().map(|l| Utf16String::from_str(l)).collect()
}

fn texts(lines: &Vec<Utf16String>) -> Vec<String> {
    lines.iter().map(|l| l.to_string()).collect()
}

fn module(text: &str) -> Module {
    let file = Loaded {
        pathbuf: String::from("/w/f"),
        name: String::from("f"),
        text: String::from(text),
        metadata: DiskMeta { size: 0, modified: Stamp { secs: 1, nanos: 0 } },
    };
    let mut module = Module::new(
        Term { height: 24, width: 80 },
        FileMod::from(vec![FileBuf::from(file)]),
        Settings::default(),
    );
    module.settings.num_offset = 6;
    module
}

fn menu_mail(module: &mut Module) -> Vec<String> {
    let mut mail = Vec::new();
    while let Some(msg) = module.recvmsg(&String::from("Menu")) {
        mail.push(msg);
    }
    mail
}

#[test]
fn a_pattern_occurs_where_its_units_stand() {
    assert!(occurs(&units("hello"), &units("lo"), 3));
    assert!(!occurs(&units("hello"), &units("lo"), 2));
    assert!(occurs(&units("hello"), &units("hello"), 0));
    assert!(occurs(&units("hello"), &units(""), 5));
}

#[test]
fn matches_in_a_line_do_not_overlap() {
    assert_eq!(find_in_line(&units("aaaa"), &units("aa")), vec![0, 2]);
    assert_eq!(find_in_line(&units("aaa"), &units("aa")), vec![0]);
    assert_eq!(find_in_line(&units("abcabc"), &units("bc")), vec![1, 4]);
    assert_eq!(find_in_line(&units("abc"), &units("abcd")), Vec::<usize>::new());
    assert_eq!(find_in_line(&units(""), &units("a")), Vec::<usize>::new());
    assert_eq!(find_in_line(&units("xabab"), &units("abab")), vec![1]);
}

#[test]
fn matches_come_by_line_and_then_by_column() {
    let text = content(&["hello", "lobby", "", "lolo"]);
    assert_eq!(
        find_matches(&text, &Utf16String::from_str("lo")),
        vec![(0, 3), (1, 0), (3, 0), (3, 2)]
    );
    assert!(find_matches(&text, &Utf16String::from_str("zz")).is_empty());
}

#[test]
fn columns_count_units() {
    let text = content(&["\u{1f496}ab"]);
    assert_eq!(find_matches(&text, &Utf16String::from_str("ab")), vec![(0, 2)]);
}

#[test]
fn a_search_without_a_match_stays_in_normal_mode() {
    let mut m = module("hello");
    let mut view = MainView::new();
    view.set_pos((0, 2));
    view.answer(&mut m, Prompt::Search, String::from("xyz"));
    assert_eq!(view.mode, Mode::Normal);
    assert_eq!((view.curr_line, view.curr_idx), (0, 2));
    assert_eq!(menu_mail(&mut m), vec!["Can't Find String \"xyz\""]);
    view.answer(&mut m, Prompt::Search, String::new());
    assert!(menu_mail(&mut m).is_empty());
}

#[test]
fn the_search_keys_select_and_jump() {
    let mut m = module("a-a-a");
    let mut view = MainView::new();
    view.answer(&mut m, Prompt::Search, String::from("a"));
    assert_eq!(view.search_stack, vec![(0, 0), (0, 2), (0, 4)]);
    assert_eq!(menu_mail(&mut m), vec!["Search for String \"a\" at Index 0"]);
    view.matchar(&mut m, Key::Up);
    assert_eq!((view.search_idx, view.curr_idx), (2, 4));
    view.matchar(&mut m, Key::Left);
    assert_eq!((view.search_idx, view.curr_idx), (1, 2));
    view.matchar(&mut m, Key::PageUp);
    assert_eq!((view.search_idx, view.curr_idx), (0, 0));
    view.matchar(&mut m, Key::Right);
    view.matchar(&mut m, Key::PageDown);
    assert_eq!((view.search_idx, view.curr_idx), (2, 4));
    view.matchar(&mut m, Key::Down);
    assert_eq!((view.search_idx, view.curr_idx), (0, 0));
    view.matchar(&mut m, Key::End);
    assert_eq!((view.search_idx, view.curr_idx), (0, 4));
    view.matchar(&mut m, Key::Home);
    assert_eq!((view.search_idx, view.curr_idx), (0, 0));
    view.matchar(&mut m, Key::Char('q'));
    assert_eq!((view.search_idx, view.curr_idx), (0, 0));
    assert_eq!(texts(m.file_mod.get_content()), vec!["a-a-a"]);
    let mail = menu_mail(&mut m);
    assert_eq!(mail.len(), 9);
    assert_eq!(mail[0], "Search for String \"a\" at Index 2");
    assert_eq!(mail[8], "Search for String \"a\" at Index 0");
}

#[test]
fn enter_leaves_search_mode() {
    let mut m = module("abab");
    let mut view = MainView::new();
    view.answer(&mut m, Prompt::Search, String::from("ab"));
    menu_mail(&mut m);
    let ask = view.matchar(&mut m, Key::Char('\r'));
    assert!(matches!(ask, Ask::Nothing));
    assert_eq!(view.mode, Mode::Normal);
    assert_eq!(menu_mail(&mut m), vec!["Return to Normal Mode"]);
    assert_eq!(texts(m.file_mod.get_content()), vec!["abab"]);
}

#[test]
fn replacing_one_of_three_matches_leaves_two_and_changes_the_length_by_the_difference() {
    let mut m = module("one cat\ntwo cats\ncat");
    let mut view = MainView::new();
    view.answer(&mut m, Prompt::Search, String::from("cat"));
    assert_eq!(view.search_stack, vec![(0, 4), (1, 4), (2, 0)]);
    view.matchar(&mut m, Key::Down);
    menu_mail(&mut m);
    let before: usize = m.file_mod.get_content().iter().map(|l| l.len()).sum();
    assert!(matches!(view.matchar(&mut m, Key::Ctrl('f')), Ask::Prompt(Prompt::Replace)));
    assert!(view.check_replace(m.file_mod.get_content()));
    view.answer(&mut m, Prompt::Replace, String::from("horse"));
    let after: usize = m.file_mod.get_content().iter().map(|l| l.len()).sum();
    assert_eq!(after, before + 5 - 3);
    assert_eq!(texts(m.file_mod.get_content()), vec!["one cat", "two horses", "cat"]);
    assert_eq!(view.search_stack, vec![(0, 4), (2, 0)]);
    assert_eq!(view.mode, Mode::Search);
    assert_eq!((view.curr_line, view.curr_idx), (1, 4));
    assert_eq!(
        menu_mail(&mut m),
        vec!["Replace String \"cat\" at Index 1 with \"horse\""]
    );
}

#[test]
fn replacing_the_last_match_goes_back_to_normal_mode() {
    let mut m = module("only here");
    let mut view = MainView::new();
    view.answer(&mut m, Prompt::Search, String::from("here"));
    view.answer(&mut m, Prompt::Replace, String::from("x"));
    assert_eq!(texts(m.file_mod.get_content()), vec!["only x"]);
    assert_eq!(view.mode, Mode::Normal);
}

#[test]
fn an_empty_replacement_replaces_nothing_and_ends_the_search() {
    let mut m = module("abc");
    let mut view = MainView::new();
    view.answer(&mut m, Prompt::Search, String::from("b"));
    menu_mail(&mut m);
    assert_eq!(view.mode, Mode::Search);
    view.answer(&mut m, Prompt::Replace, String::new());
    assert_eq!(texts(m.file_mod.get_content()), vec!["abc"]);
    assert_eq!(view.mode, Mode::Normal);
    assert_eq!((view.curr_line, view.curr_idx), (0, 1));
    assert_eq!(view.search_stack, vec![(0, 1)]);
    assert_eq!(menu_mail(&mut m), vec!["Return to Normal Mode"]);
}

#[test]
fn a_replacement_can_bring_new_matches() {
    let mut m = module("xaby");
    let mut view = MainView::new();
    view.answer(&mut m, Prompt::Search, String::from("ab"));
    view.answer(&mut m, Prompt::Replace, String::from("abab"));
    assert_eq!(texts(m.file_mod.get_content()), vec!["xababy"]);
    assert_eq!(view.search_stack, vec![(0, 1), (0, 3)]);
}

#[test]
fn a_replacement_is_refused_off_the_text() {
    let text = content(&["abc"]);
    let mut view = MainView::new();
    view.search(&text, Utf16String::from_str("bc"));
    assert!(view.check_replace(&text));
    view.set_pos((0, 2));
    assert!(!view.check_replace(&text));
    view.set_pos((1, 0));
    assert!(!view.check_replace(&text));
}

#[test]
fn the_scan_finds_what_the_standard_search_finds_in_plain_text() {
    let mut state = 0x9e37_79b9_7f4a_7c15u64;
    let mut next = move || {
        state ^= state << 13;
        state ^= state >> 7;
        state ^= state << 17;
        state
    };
    for _ in 0..500 {
        let len = next() % 30;
        let line: String = (0..len).map(|_| (b'a' + (next() % 3) as u8) as char).collect();
        let pat_len = 1 + next() % 3;
        let pattern: String = (0..pat_len).map(|_| (b'a' + (next() % 3) as u8) as char).collect();
        let expected: Vec<usize> = line.match_indices(&pattern).map(|m| m.0).collect();
        assert_eq!(find_in_line(&units(&line), &units(&pattern)), expected);
    }
}
