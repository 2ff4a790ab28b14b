use tged::file::{FileBuf, FileMod, Stamp};
use tged::key::Key;
use tged::screen::{AnyView, Module, Op, Screen, Verdict};
use tged::settings::Settings;
use tged::terminal::term::Term;
use tged::view::bottombar::BottomBar;
use tged::view::filetree::{Dir, DirItem};
use tged::view::help::Help;
use tged::view::mainview::MainView;
use tged::view::menu::Menu;
use tged::view::topbar::TopBar;
use tged::view::{Ask, Pos, Position, Prompt};
use widestring::Utf16String;

fn module() -> Module {
    Module::new(Term { height: 24, width: 80 }, FileMod::new(String::from("/w")), Settings::default())
}

fn editor() -> (Screen, Module) {
    let mut screen = Screen::new();
    let mut module = module();
    let entries = vec![
        DirItem::File(String::from("b.txt"), String::from("/w/b.txt")),
        DirItem::Dir(Dir::new(String::from("src"), String::from("/w/src"))),
    ];
    screen.init(&mut module, entries, Stamp { secs: 1, nanos: 0 });
    (screen, module)
}

fn names(screen: &Screen) -> Vec<String> {
    screen.view_map.iter().map(|v| v.get_name().clone()).collect()
}

#[test]
fn messages_wait_in_the_order_they_were_sent() {
    let mut m = module();
    let menu = String::from("Menu");
    assert_eq!(m.recvmsg(&menu), None);
    m.sendmsg(menu.clone(), String::from("first"));
    m.sendmsg(String::from("Help"), String::from("other"));
    m.sendmsg(menu.clone(), String::from("second"));
    assert_eq!(m.recvmsg(&menu), Some(String::from("first")));
    assert_eq!(m.recvmsg(&menu), Some(String::from("second")));
    assert_eq!(m.recvmsg(&menu), None);
    assert_eq!(m.recvmsg(&String::from("Help")), Some(String::from("other")));
    assert_eq!(m.recvmsg(&String::from("Nobody")), None);
}

#[test]
fn operations_queue_up() {
    let mut m = module();
    m.push_op(Op::Nothing);
    m.push_op(Op::Quit);
    assert_eq!(m.operation.len(), 2);
    assert!(matches!(m.operation[1], Op::Quit));
}

#[test]
fn the_editor_has_six_panels_and_the_viewport_has_the_focus() {
    let (screen, module) = editor();
    assert_eq!(names(&screen), vec!["MainView", "TopBar", "BottomBar", "FileTree", "Menu", "Help"]);
    assert_eq!(screen.focus, 1);
    assert_eq!(screen.id_cnt, 7);
    assert_eq!(module.curr_view, "MainView");
    assert_eq!(module.settings.num_offset, 6);
    assert!(module.settings.is_show_num);
    assert!(!screen.view_map[5].is_show());
    assert!(screen.view_map[1].is_silent());
    assert!(screen.view_map[2].is_silent());
}

#[test]
fn a_full_rotation_visits_each_panel_that_can_take_the_focus_once() {
    let (mut screen, _) = editor();
    let mut seen = Vec::new();
    for _ in 0..3 {
        seen.push((screen.shift(), screen.focus));
    }
    assert_eq!(
        seen,
        vec![
            (String::from("FileTree"), 4),
            (String::from("Menu"), 5),
            (String::from("MainView"), 1)
        ]
    );
    screen.focus = 2;
    screen.shift();
    assert_eq!(screen.focus, 4);
    screen.focus = 6;
    screen.shift();
    assert_eq!(screen.focus, 1);
}

#[test]
fn a_shown_help_panel_joins_the_rotation() {
    let (mut screen, _) = editor();
    if let AnyView::Help(help) = &mut screen.view_map[5] {
        help.panel.show = true;
    }
    screen.focus = 5;
    screen.shift();
    assert_eq!(screen.focus, 6);
    screen.shift();
    assert_eq!(screen.focus, 1);
}

#[test]
fn the_focus_goes_to_a_panel_by_its_name() {
    let (mut screen, _) = editor();
    assert!(screen.shift_to(&String::from("Menu")));
    assert_eq!(screen.focus, 5);
    assert!(screen.shift_to(&String::from("BottomBar")));
    assert_eq!(screen.focus, 3);
    assert!(!screen.shift_to(&String::from("Nobody")));
    assert_eq!(screen.focus, 3);
    assert_eq!(screen.find(&String::from("Help")), 6);
    assert_eq!(screen.find(&String::from("help")), 0);
}

#[test]
fn of_two_panels_with_one_name_the_later_one_is_found() {
    let mut screen = Screen::new();
    screen.register(AnyView::Menu(Menu::new()));
    screen.register(AnyView::Help(Help::new()));
    screen.register(AnyView::Menu(Menu::new()));
    assert_eq!(screen.find(&String::from("Menu")), 3);
}

#[test]
fn esc_asks_to_quit_or_to_save_all() {
    let (mut screen, mut module) = editor();
    assert!(matches!(screen.interact(&mut module, Key::Esc), Ask::Prompt(Prompt::Quit)));
    module.file_mod.file_map[0].content[0] = Utf16String::from_str("typed");
    module.file_mod.update(&vec![None]);
    assert!(matches!(screen.interact(&mut module, Key::Esc), Ask::Prompt(Prompt::SaveAll)));
    assert_eq!(screen.focus, 1);
}

#[test]
fn the_answer_on_esc_decides_how_the_session_goes_on() {
    assert_eq!(Screen::answer(Prompt::Quit, "n"), Verdict::Continue);
    assert_eq!(Screen::answer(Prompt::Quit, "N"), Verdict::Continue);
    assert_eq!(Screen::answer(Prompt::Quit, "y"), Verdict::Quit);
    assert_eq!(Screen::answer(Prompt::Quit, ""), Verdict::Quit);
    assert_eq!(Screen::answer(Prompt::Quit, "no"), Verdict::Quit);
    assert_eq!(Screen::answer(Prompt::SaveAll, "n"), Verdict::Quit);
    assert_eq!(Screen::answer(Prompt::SaveAll, "N"), Verdict::Quit);
    assert_eq!(Screen::answer(Prompt::SaveAll, "y"), Verdict::SaveAllAndQuit);
    assert_eq!(Screen::answer(Prompt::SaveAll, ""), Verdict::SaveAllAndQuit);
    assert_eq!(Screen::answer(Prompt::Search, "n"), Verdict::Continue);
}

#[test]
fn the_function_keys_move_the_focus() {
    let (mut screen, mut module) = editor();
    screen.interact(&mut module, Key::F(3));
    assert_eq!((screen.focus, module.curr_view.as_str()), (4, "FileTree"));
    screen.interact(&mut module, Key::F(4));
    assert_eq!((screen.focus, module.curr_view.as_str()), (5, "Menu"));
    screen.interact(&mut module, Key::F(2));
    assert_eq!((screen.focus, module.curr_view.as_str()), (1, "MainView"));
    screen.interact(&mut module, Key::F(5));
    assert_eq!((screen.focus, module.curr_view.as_str()), (4, "FileTree"));
    screen.interact(&mut module, Key::F(1));
    assert_eq!((screen.focus, module.curr_view.as_str()), (6, "Help"));
    screen.interact(&mut module, Key::F(1));
    assert_eq!((screen.focus, module.curr_view.as_str()), (1, "MainView"));
}

#[test]
fn a_locked_panel_keeps_the_focus_on_f5() {
    let (mut screen, mut module) = editor();
    if let AnyView::Main(view) = &mut screen.view_map[0] {
        view.panel.lock = true;
    }
    screen.interact(&mut module, Key::F(5));
    assert_eq!((screen.focus, module.curr_view.as_str()), (1, "MainView"));
}

#[test]
fn other_keys_go_to_the_focused_panel() {
    let (mut screen, mut module) = editor();
    screen.interact(&mut module, Key::Char('h'));
    screen.interact(&mut module, Key::Char('i'));
    assert_eq!(module.file_mod.get_content()[0].to_string(), "hi");
    screen.interact(&mut module, Key::F(4));
    for ch in "quit".chars() {
        screen.interact(&mut module, Key::Char(ch));
    }
    assert_eq!(module.file_mod.get_content()[0].to_string(), "hi");
    screen.interact(&mut module, Key::Char('\r'));
    assert!(matches!(module.operation[0], Op::Quit));
    assert!(screen.settle(&mut module));
    assert!(matches!(screen.interact(&mut module, Key::F(6)), Ask::Nothing));
}

#[test]
fn queued_operations_are_carried_out_last_first() {
    let (mut screen, mut module) = editor();
    module.push_op(Op::Shift(String::from("Menu")));
    module.push_op(Op::Nothing);
    module.push_op(Op::Shift(String::from("Nobody")));
    module.push_op(Op::Shift(String::from("FileTree")));
    assert!(!screen.settle(&mut module));
    assert_eq!((screen.focus, module.curr_view.as_str()), (5, "Menu"));
    assert!(module.operation.is_empty());
}

#[test]
fn a_request_to_quit_leaves_the_earlier_requests_queued() {
    let (mut screen, mut module) = editor();
    module.push_op(Op::Shift(String::from("Menu")));
    module.push_op(Op::Quit);
    module.push_op(Op::Shift(String::from("FileTree")));
    assert!(screen.settle(&mut module));
    assert_eq!(screen.focus, 4);
    assert_eq!(module.operation.len(), 1);
    assert!(matches!(&module.operation[0], Op::Shift(name) if name == "Menu"));
}

#[test]
fn a_resize_moves_the_corners_of_the_named_panel() {
    let (mut screen, mut module) = editor();
    module.push_op(Op::Resize(String::from("FileTree"), (0, 0, -1, 0)));
    module.push_op(Op::Resize(String::from("TopBar"), (-1, 0, 0, 0)));
    module.push_op(Op::Resize(String::from("Nobody"), (1, 1, 1, 1)));
    assert!(!screen.settle(&mut module));
    let term = module.term;
    assert_eq!(screen.view_map[3].get_end(&term), (25, 24));
    assert_eq!(screen.view_map[1].get_start(&term), (25, 2));
    assert_eq!(screen.view_map[0].get_start(&term), (26, 3));
}

#[test]
fn a_resize_that_would_turn_a_panel_inside_out_is_dropped() {
    let (mut screen, mut module) = editor();
    module.push_op(Op::Resize(String::from("Menu"), (0, 5, 0, 0)));
    module.push_op(Op::Resize(String::from("Menu"), (3, 0, 0, 0)));
    screen.settle(&mut module);
    let term = module.term;
    assert_eq!(screen.view_map[4].get_start(&term), (4, 1));
    assert_eq!(screen.view_map[4].get_end(&term), (81, 2));
    if let AnyView::Menu(menu) = &screen.view_map[4] {
        assert_eq!(menu.panel.start, (Pos::Fixed(3), Pos::Fixed(0)));
    }
}

#[test]
fn the_update_pass_paints_the_focused_panel_last() {
    let (mut screen, mut module) = editor();
    assert_eq!(screen.update(&mut module, "0b"), vec![2, 3, 4, 5, 1]);
    screen.interact(&mut module, Key::F(1));
    assert_eq!(screen.update(&mut module, "0b"), vec![1, 2, 3, 4, 5, 6]);
    assert!(screen.view_map[5].is_show());
    screen.interact(&mut module, Key::F(3));
    assert_eq!(screen.update(&mut module, "0b"), vec![1, 2, 3, 5, 4]);
    assert!(!screen.view_map[5].is_show());
}

#[test]
fn the_update_pass_fills_the_bars() {
    let (mut screen, mut module) = editor();
    module.sendmsg(String::from("Menu"), String::from("hello"));
    screen.update(&mut module, "12b");
    if let AnyView::Bottom(bar) = &screen.view_map[2] {
        assert_eq!(bar.content, " MainView  [New File]  size  12b ");
    }
    if let AnyView::Top(bar) = &screen.view_map[1] {
        assert_eq!(bar.tabs.len(), 1);
        assert_eq!(bar.tabs[0].name, "[No Name]");
        assert!(bar.tabs[0].current);
    }
    if let AnyView::Menu(menu) = &screen.view_map[4] {
        assert_eq!(menu.content, "hello");
    }
    screen.update(&mut module, "12b");
    if let AnyView::Menu(menu) = &screen.view_map[4] {
        assert_eq!(menu.content, "Press <F1> for help");
    }
}

#[test]
fn registering_hands_out_rising_identifiers() {
    let mut screen = Screen::new();
    assert_eq!(screen.focus, 0);
    assert_eq!(screen.register(AnyView::Main(MainView::new())), 1);
    assert_eq!(screen.register(AnyView::Top(TopBar::new())), 2);
    assert_eq!(screen.register(AnyView::Bottom(BottomBar::new())), 3);
    assert_eq!(screen.shift(), "MainView");
    assert_eq!(screen.focus, 1);
    let store = FileMod::from(vec![FileBuf::new(String::from("x"), None)]);
    assert_eq!(store.curr_id(), 1);
}

#[test]
fn the_screen_says_whether_it_is_ready() {
    let (mut screen, mut module) = editor();
    assert!(screen.check_focusable());
    assert!(screen.check_interact(&module, &Key::Char('a')));
    assert!(screen.check_interact(&module, &Key::Esc));
    assert!(screen.check_update(&module));
    assert!(module.file_mod.check_wf());
    screen.focus = 4;
    assert!(screen.check_interact(&module, &Key::Char('\r')));
    if let AnyView::Tree(tree) = &mut screen.view_map[3] {
        tree.curr_line = 2;
    }
    assert!(!screen.check_interact(&module, &Key::Char('\r')));
    assert!(screen.check_interact(&module, &Key::Down));
    assert!(screen.check_interact(&module, &Key::F(5)));
    screen.focus = 6;
    assert!(screen.check_interact(&module, &Key::Right));
    screen.focus = 7;
    assert!(!screen.check_interact(&module, &Key::Esc));
    assert!(!screen.check_update(&module));
    screen.focus = 0;
    assert!(!screen.check_interact(&module, &Key::Esc));
    screen.focus = 1;
    module.file_mod.file_cnt = 9;
    assert!(!module.file_mod.check_wf());
    assert!(!screen.check_update(&module));
    assert!(!screen.check_interact(&module, &Key::Char('a')));
    assert!(screen.check_interact(&module, &Key::F(2)));
}

#[test]
fn a_screen_of_bars_has_nothing_to_focus() {
    let mut screen = Screen::new();
    assert!(!screen.check_focusable());
    screen.register(AnyView::Top(TopBar::new()));
    screen.register(AnyView::Bottom(BottomBar::new()));
    screen.focus = 1;
    assert!(!screen.check_focusable());
    assert!(!screen.check_interact(&module(), &Key::Esc));
    assert!(screen.view_map[0].check_take(&module(), &Key::Char('x')));
    assert!(screen.view_map[0].check_steady());
    let mut odd = MainView::new();
    odd.panel.name = String::from("Menu");
    assert!(!AnyView::Main(odd).check_steady());
    assert!(!AnyView::Help(Help::new()).check_take(&module(), &Key::Left));
}
