use tged::file::{DiskMeta, FileBuf, FileMod, Loaded, Stamp};
use tged::key::Key;
use tged::screen::{Module, Op};
use tged::settings::Settings;
use tged::terminal::term::Term;
use tged::view::mainview::{MainView, Mode};
use tged::view::{Ask, Pos, Position, Prompt};
use tged::wrap::{row_chunk, sat_add, visual_rows, SplitNAt};
use widestring::Utf16String;

fn content(lines: &[&str]) -> Vec<Utf16String> {
    lines.iter().map(|l| Utf16String::from_str(l)).collect()
}

fn texts(lines: &Vec<Utf16String>) -> Vec<String> {
    lines.iter().map(|l| l.to_string()).collect()
}

fn term(width: u16, height: u16) -> Term {
    Term { height, width }
}

fn settings() -> Settings {
    let mut settings = Settings::default();
    settings.num_offset = 6;
    settings.is_show_num = true;
    settings
}

fn module(text: &str, width: u16, height: u16) -> Module {
    let file = Loaded {
        pathbuf: String::from("/w/f"),
        name: String::from("f"),
        text: String::from(text),
        metadata: DiskMeta { size: 0, modified: Stamp { secs: 1, nanos: 0 } },
    };
    let mut module =
        Module::new(term(width, height), FileMod::from(vec![FileBuf::from(file)]), Settings::default());
    module.settings = settings();
    module
}

#[test]
fn the_row_count_is_one_for_an_empty_line_and_the_ceiling_else() {
    assert_eq!(visual_rows(0, 10), 1);
    assert_eq!(visual_rows(1, 10), 1);
    assert_eq!(visual_rows(10, 10), 1);
    assert_eq!(visual_rows(11, 10), 2);
    assert_eq!(visual_rows(20, 10), 2);
    assert_eq!(visual_rows(21, 10), 3);
    assert_eq!(visual_rows(5, 1), 5);
    assert_eq!(visual_rows(usize::MAX, 1), usize::MAX);
}

#[test]
fn sums_stop_at_the_largest_number() {
    assert_eq!(sat_add(2, 3), 5);
    assert_eq!(sat_add(usize::MAX, 1), usize::MAX);
    assert_eq!(sat_add(usize::MAX - 1, 1), usize::MAX);
}

#[test]
fn rows_are_cut_at_the_width() {
    let line: Vec<u16> = "abcdefghijklmno".encode_utf16().collect();
    assert_eq!(String::from_utf16(&row_chunk(&line, 0, 10)).unwrap(), "abcdefghij");
    assert_eq!(String::from_utf16(&row_chunk(&line, 1, 10)).unwrap(), "klmno");
    assert_eq!(row_chunk(&Vec::new(), 0, 10), Vec::<u16>::new());
}

#[test]
fn cutting_a_line_hands_out_numbered_rows_and_then_none() {
    let line: Vec<u16> = "abcdefg".encode_utf16().collect();
    let mut rows = line.splitn_at(3);
    assert_eq!(rows.next(), Some(("abc".encode_utf16().collect(), 0)));
    assert_eq!(rows.next(), Some(("def".encode_utf16().collect(), 1)));
    assert_eq!(rows.next(), Some(("g".encode_utf16().collect(), 2)));
    assert_eq!(rows.next(), None);
    assert_eq!(rows.next(), None);
    let mut exact = "abcdef".encode_utf16().collect::<Vec<u16>>().splitn_at(3);
    assert_eq!(exact.next().unwrap().1, 0);
    assert_eq!(exact.next().unwrap().1, 1);
    assert_eq!(exact.next(), None);
    let mut empty = Vec::<u16>::new().splitn_at(4);
    assert_eq!(empty.next(), Some((Vec::new(), 0)));
    assert_eq!(empty.next(), None);
}

#[test]
fn the_viewport_starts_at_the_top_in_normal_mode() {
    let view = MainView::new();
    assert_eq!(view.get_name(), "MainView");
    assert_eq!(view.panel.start, (Pos::Fixed(25), Pos::Fixed(2)));
    assert_eq!(view.panel.end, (Pos::Opposite(0), Pos::Opposite(1)));
    assert!(!view.is_silent());
    assert!(!view.is_lock());
    assert!(view.is_show());
    assert_eq!((view.curr_line, view.curr_idx, view.scroll), (0, 0, 0));
    assert_eq!(view.mode, Mode::Normal);
    assert!(view.search_stack.is_empty());
}

#[test]
fn the_geometry_follows_the_terminal() {
    let view = MainView::new();
    let (t, s) = (term(80, 24), settings());
    assert!(view.check_layout(&t, &s));
    assert_eq!(view.get_pos(&t), (26, 3));
    assert_eq!(view.get_start(&t), (26, 3));
    assert_eq!(view.get_end(&t), (81, 24));
    assert_eq!(view.get_text_pos(&t, &s), (32, 3));
    assert_eq!(view.get_vpos_max(&t, &s), 49);
    assert_eq!(view.get_height(&t), 21);
    assert!(!view.check_layout(&term(31, 24), &s));
    assert!(view.check_layout(&term(32, 24), &s));
    assert!(!view.check_layout(&term(80, 0), &s));
}

#[test]
fn init_takes_the_colours_of_the_theme() {
    let mut view = MainView::new();
    let s = settings();
    view.init(&s);
    assert_eq!(view.panel.bcolor, s.theme.normal_bclr);
    assert_eq!(view.panel.fcolor, s.theme.normal_fclr);
    assert_eq!(view.lnum_clr, s.theme.weak_fclr);
    assert_eq!(view.lnum_sclr, s.theme.yellow);
}

#[test]
fn typing_inserts_at_the_cursor() {
    let mut text = content(&["ac"]);
    let mut view = MainView::new();
    view.set_pos((0, 1));
    view.push(&mut text, 'b');
    assert_eq!(texts(&text), vec!["abc"]);
    assert_eq!(view.curr_idx, 2);
    view.push_str(&mut text, &Utf16String::from_str("XY"));
    assert_eq!(texts(&text), vec!["abXYc"]);
    assert_eq!(view.curr_idx, 4);
    let mut none: Vec<Utf16String> = Vec::new();
    let mut fresh = MainView::new();
    fresh.push(&mut none, 'z');
    assert_eq!(texts(&none), vec!["z"]);
}

#[test]
fn a_character_beyond_the_basic_plane_takes_two_units() {
    let mut text = content(&["ab"]);
    let mut view = MainView::new();
    view.set_pos((0, 1));
    view.push(&mut text, '\u{1f496}');
    assert_eq!(text[0].len(), 4);
    assert_eq!(texts(&text), vec!["a\u{1f496}b"]);
    assert_eq!(view.curr_idx, 2);
    assert!(!view.check_replace(&text));
}

#[test]
fn enter_splits_the_line_and_tab_types_four_spaces() {
    let mut m = module("hello world", 80, 24);
    let mut view = MainView::new();
    view.set_pos((0, 5));
    view.normal_mode(&mut m, Key::Char('\r'));
    assert_eq!(texts(m.file_mod.get_content()), vec!["hello", " world"]);
    assert_eq!((view.curr_line, view.curr_idx), (1, 0));
    view.normal_mode(&mut m, Key::Char('\t'));
    assert_eq!(texts(m.file_mod.get_content()), vec!["hello", "     world"]);
    assert_eq!(view.curr_idx, 4);
}

#[test]
fn delete_erases_backwards_and_joins_lines() {
    let (t, s) = (term(80, 24), settings());
    let mut text = content(&["ab", "cd"]);
    let mut view = MainView::new();
    view.delete(&mut text, &t, &s);
    assert_eq!(texts(&text), vec!["ab", "cd"]);
    view.set_pos((1, 1));
    view.delete(&mut text, &t, &s);
    assert_eq!(texts(&text), vec!["ab", "d"]);
    assert_eq!((view.curr_line, view.curr_idx), (1, 0));
    view.delete(&mut text, &t, &s);
    assert_eq!(texts(&text), vec!["abd"]);
    assert_eq!((view.curr_line, view.curr_idx), (0, 2));
    view.delete(&mut text, &t, &s);
    assert_eq!(texts(&text), vec!["ad"]);
    assert_eq!(view.curr_idx, 1);
}

#[test]
fn delete_takes_a_whole_surrogate_pair() {
    let (t, s) = (term(80, 24), settings());
    let mut text = content(&["a\u{1f496}b"]);
    let mut view = MainView::new();
    view.set_pos((0, 2));
    view.delete(&mut text, &t, &s);
    assert_eq!(texts(&text), vec!["ab"]);
    assert_eq!(view.curr_idx, 1);
}

#[test]
fn up_and_down_keep_the_column_within_the_line() {
    let (t, s) = (term(80, 24), settings());
    let text = content(&["long line", "ab", "longer line"]);
    let mut view = MainView::new();
    view.set_pos((0, 7));
    view.up(&text, &t, &s);
    assert_eq!((view.curr_line, view.curr_idx), (0, 7));
    view.down(&text, &t, &s);
    assert_eq!((view.curr_line, view.curr_idx), (1, 2));
    view.down(&text, &t, &s);
    assert_eq!((view.curr_line, view.curr_idx), (2, 2));
    view.down(&text, &t, &s);
    assert_eq!((view.curr_line, view.curr_idx), (2, 2));
    view.end(&text);
    assert_eq!(view.curr_idx, 11);
    view.up(&text, &t, &s);
    assert_eq!((view.curr_line, view.curr_idx), (1, 2));
}

#[test]
fn left_and_right_stay_inside_the_line() {
    let text = content(&["ab", "cd"]);
    let mut view = MainView::new();
    view.left();
    assert_eq!(view.curr_idx, 0);
    view.right(&text);
    view.right(&text);
    assert_eq!(view.curr_idx, 2);
    view.right(&text);
    assert_eq!((view.curr_line, view.curr_idx), (0, 2));
    view.left();
    assert_eq!(view.curr_idx, 1);
    view.home();
    assert_eq!(view.curr_idx, 0);
    view.end(&text);
    assert_eq!(view.curr_idx, 2);
    assert!(view.check_cursor(&text));
    view.set_pos((2, 0));
    assert!(!view.check_cursor(&text));
}

#[test]
fn the_scroll_offset_follows_four_rows_from_the_edges() {
    let (t, s) = (term(80, 24), settings());
    let lines: Vec<String> = (0..40).map(|i| format!("line {i}")).collect();
    let text: Vec<Utf16String> = lines.iter().map(|l| Utf16String::from_str(l)).collect();
    let mut view = MainView::new();
    for _ in 0..18 {
        view.down(&text, &t, &s);
    }
    assert_eq!((view.curr_line, view.scroll), (18, 0));
    view.down(&text, &t, &s);
    assert_eq!((view.curr_line, view.scroll), (19, 1));
    view.down(&text, &t, &s);
    assert_eq!((view.curr_line, view.scroll), (20, 2));
    assert_eq!(view.pre_all_lines(&text, &t, &s), 18);
    for _ in 0..14 {
        view.up(&text, &t, &s);
    }
    assert_eq!((view.curr_line, view.scroll), (6, 2));
    view.up(&text, &t, &s);
    assert_eq!((view.curr_line, view.scroll), (5, 2));
    view.up(&text, &t, &s);
    assert_eq!((view.curr_line, view.scroll), (4, 1));
    view.up(&text, &t, &s);
    assert_eq!((view.curr_line, view.scroll), (3, 0));
    view.up(&text, &t, &s);
    assert_eq!((view.curr_line, view.scroll), (2, 0));
}

#[test]
fn page_keys_move_twenty_five_lines() {
    let lines: Vec<String> = (0..60).map(|i| format!("{i}")).collect();
    let mut m = module(&lines.join("\n"), 80, 24);
    let mut view = MainView::new();
    view.normal_mode(&mut m, Key::PageDown);
    assert_eq!(view.curr_line, 25);
    assert_eq!(view.scroll, 7);
    view.normal_mode(&mut m, Key::PageDown);
    view.normal_mode(&mut m, Key::PageDown);
    assert_eq!(view.curr_line, 59);
    view.normal_mode(&mut m, Key::PageUp);
    assert_eq!(view.curr_line, 34);
    view.normal_mode(&mut m, Key::PageUp);
    view.normal_mode(&mut m, Key::PageUp);
    assert_eq!((view.curr_line, view.scroll), (0, 0));
}

#[test]
fn painting_and_cursor_placement_agree_on_the_row() {
    let s = settings();
    let lines = ["", "abcdefghijkl", "x", "0123456789", "0123456789a", ""];
    let text = content(&lines);
    for width in [32u16, 33, 35, 36, 41, 44] {
        let t = term(width, 200);
        let wrap = (width - 31) as usize;
        for scroll in 0..lines.len() {
            for line in scroll..lines.len() {
                for idx in 0..lines[line].len() {
                    let mut view = MainView::new();
                    view.set_pos((line, idx));
                    view.scroll = scroll;
                    let rows = view.draw(&text, &t, &s);
                    let row = view.pre_all_lines(&text, &t, &s);
                    assert_eq!(rows[row].number, line + 1);
                    assert_eq!(rows[row].part, idx / wrap);
                    assert_eq!(rows[row].text[idx % wrap], text[line].as_slice()[idx]);
                    assert!(rows[row].current);
                    let (x, y) = view.get_text_pos(&t, &s);
                    assert_eq!(
                        view.set_cursor(&text, &t, &s),
                        (x as usize + idx % wrap, y as usize + row)
                    );
                }
            }
        }
    }
}

#[test]
fn no_more_rows_are_painted_than_the_viewport_has() {
    let s = settings();
    let lines: Vec<String> = (0..40).map(|i| format!("{i}")).collect();
    let text: Vec<Utf16String> = lines.iter().map(|l| Utf16String::from_str(l)).collect();
    let mut view = MainView::new();
    let rows = view.draw(&text, &term(80, 10), &s);
    assert_eq!(rows.len(), 7);
    assert_eq!(rows[6].number, 7);
    view.scroll = 38;
    let rows = view.draw(&text, &term(80, 10), &s);
    assert_eq!(rows.iter().map(|r| r.number).collect::<Vec<_>>(), vec![39, 40]);
    view.scroll = 50;
    assert!(view.draw(&text, &term(80, 10), &s).is_empty());
    assert_eq!(view.draw(&text, &term(80, 3), &s).len(), 0);
    view.scroll = 0;
    assert_eq!(view.draw(&text, &term(80, 3), &s).len(), 1);
}

#[test]
fn the_function_keys_switch_buffers_and_keep_each_place() {
    let a = FileBuf::new(String::from("a"), None);
    let b = FileBuf::new(String::from("b"), None);
    let mut m = Module::new(term(80, 24), FileMod::from(vec![a, b]), settings());
    let mut view = MainView::new();
    view.normal_mode(&mut m, Key::Char('x'));
    view.normal_mode(&mut m, Key::F(6));
    assert_eq!(m.file_mod.curr_id(), 2);
    assert_eq!((view.curr_line, view.curr_idx, view.scroll), (0, 0, 0));
    view.normal_mode(&mut m, Key::F(7));
    assert_eq!(m.file_mod.curr_id(), 1);
    assert_eq!((view.curr_line, view.curr_idx), (0, 1));
    let ask = view.normal_mode(&mut m, Key::F(8));
    assert!(matches!(ask, Ask::Prompt(Prompt::FileNumber)));
    view.answer(&mut m, Prompt::FileNumber, String::from("2"));
    assert_eq!(m.file_mod.curr_id(), 2);
    assert_eq!(m.recvmsg(&String::from("Menu")), Some(String::from("Change to File No.2")));
    view.answer(&mut m, Prompt::FileNumber, String::from("3"));
    view.answer(&mut m, Prompt::FileNumber, String::from("0"));
    view.answer(&mut m, Prompt::FileNumber, String::from("two"));
    assert_eq!(m.file_mod.curr_id(), 2);
    assert_eq!(m.recvmsg(&String::from("Menu")), None);
}

#[test]
fn ctrl_s_saves_a_named_buffer_and_asks_for_a_name_else() {
    let mut named = module("x", 80, 24);
    let mut view = MainView::new();
    assert!(matches!(view.normal_mode(&mut named, Key::Ctrl('s')), Ask::Save));
    assert_eq!(named.recvmsg(&String::from("Menu")), Some(String::from("File \"f\" Saved")));
    let mut scratch = Module::new(term(80, 24), FileMod::new(String::from("/w")), settings());
    assert!(matches!(view.normal_mode(&mut scratch, Key::Ctrl('s')), Ask::Prompt(Prompt::SaveAs)));
    assert_eq!(scratch.recvmsg(&String::from("Menu")), None);
    assert!(matches!(view.answer(&mut scratch, Prompt::SaveAs, String::new()), Ask::Nothing));
    assert!(matches!(view.answer(&mut scratch, Prompt::SaveAs, String::from("n.txt")), Ask::Save));
    assert_eq!(scratch.file_mod.name(), "n.txt");
    assert_eq!(scratch.recvmsg(&String::from("Menu")), Some(String::from("File \"n.txt\" Saved")));
}

#[test]
fn alt_arrows_move_the_left_edge_and_ask_the_neighbours_to_follow() {
    let mut m = module("x", 80, 24);
    let mut view = MainView::new();
    view.normal_mode(&mut m, Key::Other(vec![27, 91, 49, 59, 51, 68]));
    assert_eq!(view.panel.start, (Pos::Fixed(24), Pos::Fixed(2)));
    assert_eq!(m.operation.len(), 2);
    assert!(matches!(&m.operation[0], Op::Resize(name, (0, 0, -1, 0)) if name == "FileTree"));
    assert!(matches!(&m.operation[1], Op::Resize(name, (-1, 0, 0, 0)) if name == "TopBar"));
    view.normal_mode(&mut m, Key::Other(vec![27, 91, 49, 59, 51, 67]));
    assert_eq!(view.panel.start, (Pos::Fixed(25), Pos::Fixed(2)));
    assert!(matches!(&m.operation[2], Op::Resize(name, (0, 0, 1, 0)) if name == "FileTree"));
    view.normal_mode(&mut m, Key::Other(vec![27, 91]));
    view.normal_mode(&mut m, Key::Insert);
    assert_eq!(m.operation.len(), 4);
    assert_eq!(view.panel.start, (Pos::Fixed(25), Pos::Fixed(2)));
}

#[test]
fn the_viewport_follows_a_file_that_the_tree_has_opened() {
    let a = FileBuf::new(String::from("a"), None);
    let b = FileBuf::new(String::from("b"), None);
    let mut m = Module::new(term(80, 24), FileMod::from(vec![a, b]), settings());
    let mut view = MainView::new();
    view.set_pos((0, 0));
    view.update(&mut m);
    assert_eq!(m.file_mod.curr_id(), 1);
    m.sendmsg(String::from("MainView"), String::from("2"));
    m.sendmsg(String::from("MainView"), String::from("nonsense"));
    view.update(&mut m);
    assert_eq!(m.file_mod.curr_id(), 2);
    assert_eq!(m.recvmsg(&String::from("Menu")), Some(String::from("Change to File No.2")));
    view.update(&mut m);
    assert_eq!(m.file_mod.curr_id(), 2);
    assert_eq!(m.recvmsg(&String::from("MainView")), None);
}

#[test]
fn sync_takes_column_line_and_scroll_in_this_order() {
    let mut view = MainView::new();
    view.sync((3, 4, 5));
    assert_eq!((view.curr_idx, view.curr_line, view.scroll), (3, 4, 5));
}

#[test]
fn editing_is_refused_between_the_halves_of_a_surrogate_pair() {
    let (t, s) = (term(80, 24), settings());
    let text = content(&["a\u{1f496}b"]);
    let mut view = MainView::new();
    let typed = Key::Char('x');
    for (idx, can_type, can_erase) in
        [(0, true, true), (1, true, true), (2, false, true), (3, true, false), (4, true, true)]
    {
        view.set_pos((0, idx));
        assert_eq!(view.check_edit(&text, &t, &s, &typed), can_type);
        assert_eq!(view.check_edit(&text, &t, &s, &Key::Delete), can_erase);
        assert!(view.check_edit(&text, &t, &s, &Key::Left));
    }
    view.set_pos((0, 5));
    assert!(!view.check_edit(&text, &t, &s, &Key::Left));
    view.set_pos((0, 1));
    assert!(!view.check_edit(&text, &term(20, 24), &s, &Key::Left));
}

#[test]
fn the_viewport_says_whether_it_can_take_a_key() {
    let mut m = module("ab", 80, 24);
    let mut view = MainView::new();
    assert!(view.check_take(&m, &Key::Char('x')));
    assert!(view.check_answer(&m, Prompt::Search, "a"));
    assert!(view.check_answer(&m, Prompt::Replace, ""));
    assert!(!view.check_answer(&m, Prompt::Replace, "x"));
    view.answer(&mut m, Prompt::Search, String::from("b"));
    assert!(view.check_take(&m, &Key::Down));
    assert!(view.check_answer(&m, Prompt::Replace, "x"));
    view.search_stack.clear();
    assert!(!view.check_take(&m, &Key::Down));
    view.mode = Mode::Normal;
    view.set_pos((3, 0));
    assert!(!view.check_take(&m, &Key::Down));
    view.set_pos((0, 0));
    m.file_mod.curr_file = 0;
    assert!(!view.check_take(&m, &Key::Down));
    assert!(!view.check_answer(&m, Prompt::Search, "a"));
}

#[test]
fn rows_can_be_cut_from_a_line_of_text() {
    let line = Utf16String::from_str("abcdefg");
    let mut rows = line.splitn_at(4);
    assert_eq!(rows.next(), Some(("abcd".encode_utf16().collect(), 0)));
    assert_eq!(rows.next(), Some(("efg".encode_utf16().collect(), 1)));
    assert_eq!(rows.next(), None);
}

fn next_random(state: &mut u64) -> u64 {
    *state ^= *state << 13;
    *state ^= *state >> 7;
    *state ^= *state << 17;
    *state
}

#[test]
fn painting_and_cursor_placement_agree_on_random_texts() {
    let s = settings();
    let mut state = 0x2545_f491_4f6c_dd1du64;
    for _ in 0..300 {
        let count = 1 + next_random(&mut state) % 8;
        let lines: Vec<String> = (0..count)
            .map(|_| {
                let len = next_random(&mut state) % 40;
                (0..len).map(|_| (b'a' + (next_random(&mut state) % 26) as u8) as char).collect()
            })
            .collect();
        let text: Vec<Utf16String> = lines.iter().map(|l| Utf16String::from_str(l)).collect();
        let wrap = 1 + (next_random(&mut state) % 30) as usize;
        let t = term(31 + wrap as u16, 1000);
        let line = (next_random(&mut state) % count) as usize;
        if lines[line].is_empty() {
            continue;
        }
        let idx = (next_random(&mut state) % lines[line].len() as u64) as usize;
        let mut view = MainView::new();
        view.scroll = (next_random(&mut state) % (line as u64 + 1)) as usize;
        view.set_pos((line, idx));
        let rows = view.draw(&text, &t, &s);
        let row = view.pre_all_lines(&text, &t, &s);
        let expected: usize = lines[view.scroll..line]
            .iter()
            .map(|l| std::cmp::max(1, (l.len() + wrap - 1) / wrap))
            .sum::<usize>()
            + idx / wrap;
        assert_eq!(row, expected);
        assert_eq!((rows[row].number, rows[row].part), (line + 1, idx / wrap));
        assert_eq!(rows[row].text[idx % wrap] as u8 as char, lines[line].as_bytes()[idx] as char);
    }
}
