use tged::file::{DiskMeta, FileBuf, FileMod, Loaded, SavePlan, Stamp};
use tged::key::Key;
use tged::screen::{AnyView, Module, Screen};
use tged::settings::Settings;
use tged::terminal::term::Term;
use tged::view::bottombar::BottomBar;
use tged::view::mainview::{MainView, Mode};
use tged::view::menu::Menu;
use tged::view::{Ask, Prompt};
use widestring::Utf16String;

fn lines(module: &Module) -> Vec<String> {
    module.file_mod.get_content().iter().map(|l| l.to_string()).collect()
}

fn scratch(width: u16, height: u16) -> Module {
    let mut module = Module::new(
        Term { height, width },
        FileMod::new(String::from("/work")),
        Settings::default(),
    );
    module.settings.num_offset = 6;
    module.settings.is_show_num = true;
    module
}

fn opened(text: &str, width: u16, height: u16) -> Module {
    let file = Loaded {
        pathbuf: String::from("/work/notes.txt"),
        name: String::from("notes.txt"),
        text: String::from(text),
        metadata: DiskMeta { size: text.len() as u64, modified: Stamp { secs: 10, nanos: 0 } },
    };
    let mut module = Module::new(
        Term { height, width },
        FileMod::from(vec![FileBuf::from(file)]),
        Settings::default(),
    );
    module.settings.num_offset = 6;
    module.settings.is_show_num = true;
    module
}

#[test]
fn typing_into_a_scratch_buffer_makes_two_lines_and_dirties_it() {
    let mut module = scratch(80, 24);
    let mut view = MainView::new();
    for key in [Key::Char('a'), Key::Char('b'), Key::Char('c'), Key::Char('\r'), Key::Char('d')] {
        let ask = view.normal_mode(&mut module, key);
        assert!(matches!(ask, Ask::Nothing));
    }
    assert_eq!(lines(&module), vec!["abc", "d"]);
    assert_eq!((view.curr_line, view.curr_idx), (1, 1));
    let reload = module.file_mod.update(&vec![None]);
    assert!(reload.is_empty());
    assert!(module.file_mod.curr().is_dirty());
}

#[test]
fn saving_an_unmodified_file_writes_its_bytes_without_a_line_feed_added() {
    let module = opened("line1\nline2", 80, 24);
    assert_eq!(module.file_mod.curr().flatten(), b"line1\nline2".to_vec());
    assert!(matches!(module.file_mod.save(), Ok(SavePlan::Skip)));
    let mut buf = FileBuf::from(Loaded {
        pathbuf: String::from("/work/a"),
        name: String::from("a"),
        text: String::from("line1\nline2"),
        metadata: DiskMeta { size: 11, modified: Stamp { secs: 1, nanos: 0 } },
    });
    buf.dirty = true;
    match buf.save() {
        Ok(SavePlan::Rewrite(bytes)) => assert_eq!(bytes, b"line1\nline2".to_vec()),
        _ => panic!("a dirty backed buffer is rewritten"),
    }
}

#[test]
fn a_line_of_fifteen_units_wraps_into_two_rows_at_width_ten() {
    let mut module = opened("abcdefghijklmno", 41, 24);
    let mut view = MainView::new();
    assert_eq!(view.get_vpos_max(&module.term, &module.settings), 10);
    view.set_pos((0, 12));
    let content = module.file_mod.get_content();
    let rows = view.draw(content, &module.term, &module.settings);
    assert_eq!(rows.len(), 2);
    assert_eq!(String::from_utf16(&rows[0].text).unwrap(), "abcdefghij");
    assert_eq!(String::from_utf16(&rows[1].text).unwrap(), "klmno");
    assert_eq!((rows[0].number, rows[0].part), (1, 0));
    assert_eq!((rows[1].number, rows[1].part), (1, 1));
    assert_eq!(view.pre_all_lines(content, &module.term, &module.settings), 1);
    let (text_x, text_y) = view.get_text_pos(&module.term, &module.settings);
    let cell = view.set_cursor(content, &module.term, &module.settings);
    assert_eq!(cell, (text_x as usize + 2, text_y as usize + 1));
    module.settings.num_offset = 6;
}

#[test]
fn searching_walks_the_matches_and_goes_round() {
    let mut module = opened("hello\nlobby", 80, 24);
    let mut view = MainView::new();
    let ask = view.normal_mode(&mut module, Key::Ctrl('f'));
    assert!(matches!(ask, Ask::Prompt(Prompt::Search)));
    view.answer(&mut module, Prompt::Search, String::from("lo"));
    assert_eq!(view.mode, Mode::Search);
    assert_eq!(view.search_stack, vec![(0, 3), (1, 0)]);
    assert_eq!((view.curr_line, view.curr_idx), (0, 3));
    view.search_mode(&mut module, Key::Down);
    assert_eq!((view.curr_line, view.curr_idx), (1, 0));
    view.search_mode(&mut module, Key::Down);
    assert_eq!((view.curr_line, view.curr_idx), (0, 3));
    assert_eq!(view.search_str, Utf16String::from_str("lo"));
}

#[test]
fn the_focus_cycles_onto_the_panel_that_is_not_silent_from_any_start() {
    let mut screen = Screen::new();
    let silent = screen.register(AnyView::Bottom(BottomBar::new()));
    let open = screen.register(AnyView::Menu(Menu::new()));
    assert_eq!((silent, open), (1, 2));
    for start in [0u64, 1, 2, 3, 7] {
        screen.focus = start;
        let name = screen.shift();
        assert_eq!(screen.focus, open);
        assert_eq!(name, "Menu");
    }
}
