use tged::attrs::{panel, parse_attrs, parse_pos_tuple, view, AttrError, AttrKind, ViewAttr};
use tged::color::Color;
use tged::file::{DiskMeta, FileBuf, FileMod, Loaded, Stamp};
use tged::key::{is_alt_left, is_alt_right, Key};
use tged::screen::{Module, Op};
use tged::settings::Settings;
use tged::terminal::term::Term;
use tged::view::bottombar::BottomBar;
use tged::view::filetree::{flatten, sort_entries, Dir, DirItem, FileTree};
use tged::view::help::Help;
use tged::view::input::InputLine;
use tged::view::menu::{trim, Menu};
use tged::view::msgbox::MsgBox;
use tged::view::topbar::TopBar;
use tged::view::{resize_axis, Ask, Panel, Pos, Position, Prompt};

fn term() -> Term {
    Term { height: 24, width: 80 }
}

fn module() -> Module {
    Module::new(term(), FileMod::new(String::from("/w")), Settings::default())
}

fn file(name: &str) -> DirItem {
    DirItem::File(String::from(name), format!("/w/{name}"))
}

fn dir(name: &str) -> DirItem {
    DirItem::Dir(Dir::new(String::from(name), format!("/w/{name}")))
}

fn paths(tree: &FileTree) -> Vec<String> {
    flatten(&tree.dir_items)
}

fn type_into(menu: &mut Menu, module: &mut Module, text: &str) -> Ask {
    for ch in text.chars() {
        menu.matchar(module, Key::Char(ch));
    }
    menu.matchar(module, Key::Char('\r'))
}

#[test]
fn a_coordinate_resolves_from_its_edge() {
    assert_eq!(Pos::Fixed(0).unwrap(80), 1);
    assert_eq!(Pos::Fixed(25).unwrap(80), 26);
    assert_eq!(Pos::Opposite(0).unwrap(80), 81);
    assert_eq!(Pos::Opposite(1).unwrap(24), 24);
    assert_eq!(Pos::Fixed(7).get(), 7);
    assert_eq!(Pos::Opposite(9).get(), 9);
    assert_eq!(Pos::Fixed(3).resolve(80), Some(4));
    assert_eq!(Pos::Fixed(u16::MAX).resolve(80), None);
    assert_eq!(Pos::Opposite(81).resolve(80), None);
    assert_eq!(Pos::Opposite(80).resolve(80), Some(1));
    assert_eq!(Pos::Opposite(0).resolve(u16::MAX), None);
}

#[test]
fn adding_moves_a_coordinate_along_its_own_edge() {
    assert_eq!(Pos::Fixed(5) + 3, Pos::Fixed(8));
    assert_eq!(Pos::Fixed(5) + -3, Pos::Fixed(2));
    assert_eq!(Pos::Opposite(5) + -5, Pos::Opposite(0));
    assert_eq!(Pos::Fixed(5) + -6, Pos::Fixed(5));
    assert_eq!(Pos::Fixed(5) + 0, Pos::Fixed(5));
    assert_eq!(Pos::Fixed(u16::MAX) + 1, Pos::Fixed(u16::MAX));
    assert_eq!(Pos::Fixed(40000) + i16::MIN, Pos::Fixed(40000 - 32768));
    assert_eq!(Pos::Opposite(100) + i16::MIN, Pos::Opposite(100));
}

#[test]
fn a_signed_number_writes_a_coordinate() {
    assert_eq!(Pos::try_from(1), Ok(Pos::Fixed(0)));
    assert_eq!(Pos::try_from(26), Ok(Pos::Fixed(25)));
    assert_eq!(Pos::try_from(-1), Ok(Pos::Opposite(0)));
    assert_eq!(Pos::try_from(-2), Ok(Pos::Opposite(1)));
    assert_eq!(Pos::try_from(i16::MIN), Ok(Pos::Opposite(32767)));
    assert_eq!(Pos::try_from(i16::MAX), Ok(Pos::Fixed(32766)));
    assert_eq!(Pos::try_from(0), Err("value can't be zero"));
}

#[test]
fn an_axis_keeps_its_ends_where_the_start_would_not_stay_before_the_end() {
    assert_eq!(resize_axis(Pos::Fixed(2), Pos::Fixed(5), 1, 0, 80), (Pos::Fixed(3), Pos::Fixed(5)));
    assert_eq!(resize_axis(Pos::Fixed(2), Pos::Fixed(5), 3, 0, 80), (Pos::Fixed(2), Pos::Fixed(5)));
    assert_eq!(resize_axis(Pos::Fixed(2), Pos::Fixed(5), 0, -3, 80), (Pos::Fixed(2), Pos::Fixed(5)));
    assert_eq!(resize_axis(Pos::Fixed(2), Pos::Fixed(5), 2, 2, 80), (Pos::Fixed(4), Pos::Fixed(7)));
    assert_eq!(
        resize_axis(Pos::Fixed(2), Pos::Opposite(0), 0, 100, 80),
        (Pos::Fixed(2), Pos::Opposite(0))
    );
}

#[test]
fn a_panel_resizes_each_axis_by_itself() {
    let mut panel = Panel::new(String::from("p"), (Pos::Fixed(0), Pos::Fixed(0)), (Pos::Fixed(10), Pos::Fixed(1)));
    assert!(panel.check_fits(&term()));
    panel.resize(&term(), 2, 1, 0, 0);
    assert_eq!(panel.start, (Pos::Fixed(2), Pos::Fixed(0)));
    assert_eq!(panel.end, (Pos::Fixed(10), Pos::Fixed(1)));
    assert_eq!(panel.get_start(&term()), (3, 1));
    assert_eq!(panel.get_end(&term()), (11, 2));
    assert_eq!(panel.get_name(), "p");
    assert_eq!(panel.fcolor, Color::new(255, 255, 255));
    assert_eq!(panel.bcolor, Color::new(0, 0, 0));
    let far = Panel::new(String::from("q"), (Pos::Opposite(90), Pos::Fixed(0)), (Pos::Fixed(1), Pos::Fixed(1)));
    assert!(!far.check_fits(&term()));
}

#[test]
fn a_description_gives_a_panel() {
    let attrs = vec![ViewAttr::Start(26, 2), ViewAttr::End(-1, 3), ViewAttr::Silent, ViewAttr::Bcolor(0x14, 0x14, 0x14), ViewAttr::Fcolor(0xa0, 0x40, 0x40)];
    let style = parse_attrs(&attrs).unwrap();
    assert_eq!(style.start, (Pos::Fixed(25), Pos::Fixed(1)));
    assert_eq!(style.end, (Pos::Opposite(0), Pos::Fixed(2)));
    assert!(style.silent);
    assert_eq!(style.bcolor, Color::new(0x14, 0x14, 0x14));
    assert_eq!(style.fcolor, Color::new(0xa0, 0x40, 0x40));
    let plain = view(String::from("Plain"), &vec![ViewAttr::End(2, 2), ViewAttr::Start(1, 1)]).unwrap();
    assert_eq!(plain.name, "Plain");
    assert_eq!((plain.silent, plain.lock, plain.show), (false, false, true));
    assert_eq!(plain.bcolor, Color::new(0, 0, 0));
    assert_eq!(plain.fcolor, Color::new(255, 255, 255));
    assert_eq!(plain.start, TopBarBox::one().0);
    assert_eq!(plain.end, TopBarBox::one().1);
}

struct TopBarBox;

impl TopBarBox {
    fn one() -> ((Pos, Pos), (Pos, Pos)) {
        ((Pos::Fixed(0), Pos::Fixed(0)), (Pos::Fixed(1), Pos::Fixed(1)))
    }
}

#[test]
fn a_description_is_refused_for_the_first_thing_wrong_with_it() {
    let err = |attrs: Vec<ViewAttr>| parse_attrs(&attrs).unwrap_err();
    assert_eq!(err(vec![]), AttrError::NoStart);
    assert_eq!(err(vec![ViewAttr::End(1, 1)]), AttrError::NoStart);
    assert_eq!(err(vec![ViewAttr::Start(1, 1), ViewAttr::Silent]), AttrError::NoEnd);
    assert_eq!(err(vec![ViewAttr::Start(0, 1), ViewAttr::End(1, 1)]), AttrError::Zero);
    assert_eq!(err(vec![ViewAttr::Start(1, 1), ViewAttr::End(1, 0)]), AttrError::Zero);
    assert_eq!(err(vec![ViewAttr::Start(1, 1), ViewAttr::Start(0, 0)]), AttrError::Twice(AttrKind::Start));
    assert_eq!(err(vec![ViewAttr::End(1, 1), ViewAttr::End(2, 2)]), AttrError::Twice(AttrKind::End));
    assert_eq!(err(vec![ViewAttr::Bcolor(1, 1, 1), ViewAttr::Bcolor(1, 1, 1)]), AttrError::Twice(AttrKind::Bcolor));
    assert_eq!(err(vec![ViewAttr::Fcolor(1, 1, 1), ViewAttr::Fcolor(2, 2, 2)]), AttrError::Twice(AttrKind::Fcolor));
    assert_eq!(err(vec![ViewAttr::Silent, ViewAttr::Silent, ViewAttr::Start(0, 0)]), AttrError::Twice(AttrKind::Silent));
    assert_eq!(parse_pos_tuple(3, -3), Ok((Pos::Fixed(2), Pos::Opposite(2))));
    assert_eq!(parse_pos_tuple(3, 0), Err(AttrError::Zero));
    assert!(matches!(view(String::from("x"), &vec![]), Err(AttrError::NoStart)));
}

#[test]
fn the_alt_arrows_are_told_by_their_bytes() {
    assert!(is_alt_left(&vec![27, 91, 49, 59, 51, 68]));
    assert!(!is_alt_left(&vec![27, 91, 49, 59, 51, 67]));
    assert!(is_alt_right(&vec![27, 91, 49, 59, 51, 67]));
    assert!(!is_alt_right(&vec![27, 91, 49, 59, 51]));
    assert!(!is_alt_right(&vec![27, 91, 49, 59, 51, 67, 0]));
    assert!(!is_alt_left(&vec![]));
}

#[test]
fn a_line_editor_types_erases_and_moves() {
    let mut line = InputLine::new();
    for key in [Key::Char('a'), Key::Char('c'), Key::Left, Key::Char('b')] {
        line.key(&key, 10);
    }
    assert_eq!((line.text(), line.idx), (String::from("abc"), 2));
    line.key(&Key::Delete, 10);
    assert_eq!((line.text(), line.idx), (String::from("ac"), 1));
    line.key(&Key::Left, 10);
    line.key(&Key::Left, 10);
    line.key(&Key::Delete, 10);
    assert_eq!((line.text(), line.idx), (String::from("ac"), 0));
    line.key(&Key::Right, 10);
    line.key(&Key::Right, 10);
    line.key(&Key::Right, 10);
    assert_eq!(line.idx, 2);
    line.key(&Key::Char('x'), 2);
    line.key(&Key::F(3), 10);
    assert_eq!(line.text(), "ac");
    line.key(&Key::Left, 10);
    line.push_str("zz");
    assert_eq!((line.text(), line.idx), (String::from("aczz"), 3));
    line.clear();
    assert_eq!((line.text(), line.idx), (String::new(), 0));
}

#[test]
fn the_dialog_collects_a_line_until_enter_or_esc() {
    let mut settings = Settings::default();
    settings.init();
    assert_eq!((settings.num_offset, settings.is_show_num), (5, true));
    let mut msgbox = MsgBox::new();
    assert_eq!(msgbox.panel.name, "MsgBox");
    msgbox.title("Search");
    assert!(msgbox.check_center(&term()));
    msgbox.default_pos(&term());
    assert_eq!(msgbox.panel.start, (Pos::Fixed(26), Pos::Fixed(10)));
    assert_eq!(msgbox.panel.end, (Pos::Fixed(52), Pos::Fixed(13)));
    msgbox.wait(&settings);
    assert!(msgbox.panel.lock);
    assert_eq!(msgbox.panel.fcolor, settings.theme.normal_fclr);
    for key in [Key::Char('l'), Key::Char('o'), Key::Up] {
        msgbox.matchar(&term(), key);
    }
    assert_eq!(msgbox.set_cursor(&term()), (30, 12));
    assert!(msgbox.panel.lock);
    msgbox.matchar(&term(), Key::Char('\r'));
    assert!(!msgbox.panel.lock);
    assert_eq!(msgbox.input(), "lo");
    msgbox.wait(&settings);
    msgbox.matchar(&term(), Key::Char('x'));
    msgbox.matchar(&term(), Key::Esc);
    assert!(!msgbox.panel.lock);
    assert_eq!(msgbox.input(), "");
}

#[test]
fn the_dialog_holds_no_more_than_fits_its_frame() {
    let mut msgbox = MsgBox::new();
    msgbox.pos((1, 1), (6, 4));
    assert_eq!(msgbox.panel.start, (Pos::Fixed(0), Pos::Fixed(0)));
    assert_eq!(msgbox.panel.end, (Pos::Fixed(5), Pos::Fixed(3)));
    for ch in "abcdef".chars() {
        msgbox.matchar(&term(), Key::Char(ch));
    }
    assert_eq!(msgbox.input(), "abc");
    msgbox.pos((-10, -5), (-1, -1));
    assert_eq!(msgbox.panel.start, (Pos::Opposite(9), Pos::Opposite(4)));
    let mut small = MsgBox::new();
    small.title("Quit?(y/n)");
    assert!(!small.check_center(&Term { height: 3, width: 80 }));
    assert!(!small.check_center(&Term { height: 24, width: 30 }));
    assert!(!small.check_center(&Term { height: 24, width: 31 }));
    assert!(small.check_center(&Term { height: 24, width: 32 }));
    assert!(small.check_center(&Term { height: 24, width: 20 }));
}

#[test]
fn the_help_panel_turns_its_pages() {
    let mut help = Help::new();
    help.init(&Settings::default());
    assert_eq!(help.content.len(), 2);
    assert!(help.content[0].starts_with(" General Help"));
    assert!(help.content[1].starts_with(" View Help"));
    assert!(!help.panel.show);
    help.matchar(Key::Left);
    assert_eq!(help.curr_page, 0);
    help.matchar(Key::Right);
    assert_eq!(help.curr_page, 1);
    help.matchar(Key::Down);
    assert_eq!(help.curr_page, 1);
    help.matchar(Key::Up);
    assert_eq!(help.curr_page, 0);
    help.matchar(Key::End);
    assert_eq!(help.curr_page, 1);
    help.matchar(Key::Home);
    assert_eq!(help.curr_page, 0);
    help.matchar(Key::Char('x'));
    assert_eq!(help.curr_page, 0);
    assert_eq!(help.set_cursor(&term()), (9, 5));
    let mut m = module();
    m.curr_view = String::from("Help");
    help.update(&m);
    assert!(help.panel.show);
    m.curr_view = String::from("Menu");
    help.update(&m);
    assert!(!help.panel.show);
}

#[test]
fn trimming_takes_blanks_off_both_ends() {
    let chars = |s: &str| s.chars().collect::<Vec<char>>();
    assert_eq!(trim(&chars("  save \t\r\n")), "save");
    assert_eq!(trim(&chars("save as: a b ")), "save as: a b");
    assert_eq!(trim(&chars("   ")), "");
    assert_eq!(trim(&chars("")), "");
    assert_eq!(trim(&chars("x")), "x");
}

#[test]
fn the_command_bar_carries_out_commands() {
    let mut menu = Menu::new();
    menu.init(&Settings::default());
    assert_eq!(menu.offset, 15);
    let mut m = module();
    let menu_name = String::from("Menu");
    assert!(matches!(type_into(&mut menu, &mut m, " quit "), Ask::Nothing));
    assert!(matches!(m.operation[0], Op::Quit));
    assert_eq!(menu.input.text(), "");
    assert!(matches!(type_into(&mut menu, &mut m, "save"), Ask::Nothing));
    assert_eq!(m.recvmsg(&menu_name), Some(String::from("Use <Ctrl+s>")));
    assert!(matches!(type_into(&mut menu, &mut m, "save as:notes.txt"), Ask::Save));
    assert_eq!(m.file_mod.name(), "notes.txt");
    assert_eq!(m.recvmsg(&menu_name), Some(String::from("File \"notes.txt\" Saved")));
    assert!(matches!(type_into(&mut menu, &mut m, "save"), Ask::Save));
    assert_eq!(m.recvmsg(&menu_name), Some(String::from("File \"notes.txt\" Saved")));
    assert!(matches!(type_into(&mut menu, &mut m, "save all:y"), Ask::SaveAll));
    assert!(matches!(type_into(&mut menu, &mut m, "save all:n"), Ask::Nothing));
    assert!(matches!(type_into(&mut menu, &mut m, "save as:"), Ask::Nothing));
    assert_eq!(m.recvmsg(&menu_name), Some(String::from("Unkonwn Command: `save as:`")));
    assert!(matches!(type_into(&mut menu, &mut m, "wq"), Ask::Nothing));
    assert_eq!(m.recvmsg(&menu_name), Some(String::from("Unkonwn Command: `wq`")));
    assert_eq!(m.recvmsg(&menu_name), None);
    assert_eq!(m.operation.len(), 1);
}

#[test]
fn the_command_bar_shows_its_line_or_the_latest_notice() {
    let mut menu = Menu::new();
    menu.init(&Settings::default());
    let mut m = module();
    m.curr_view = String::from("Menu");
    menu.matchar(&mut m, Key::Char('a'));
    m.sendmsg(String::from("Menu"), String::from("bc"));
    menu.update(&mut m);
    assert_eq!(menu.content, "abc");
    assert_eq!(menu.input.idx, 3);
    assert_eq!(menu.set_cursor(&term()), (1 + 15 + 3 + 3, 1));
    menu.update(&mut m);
    assert_eq!(menu.content, "abc");
    m.curr_view = String::from("MainView");
    menu.update(&mut m);
    assert_eq!(menu.content, "Press <F1> for help");
    m.sendmsg(String::from("Menu"), String::from("saved"));
    menu.update(&mut m);
    assert_eq!(menu.content, "saved");
    assert_eq!(menu.input.text(), "abc");
    assert_eq!(menu.search_len(&term()), 80 - 30);
    let mut narrow = Menu::new();
    narrow.init(&Settings::default());
    narrow.panel.end = (Pos::Fixed(36), Pos::Fixed(1));
    assert_eq!(narrow.search_len(&term()), 20);
    narrow.matchar(&mut m, Key::Char('a'));
    narrow.matchar(&mut m, Key::Char('b'));
    narrow.matchar(&mut m, Key::Char('c'));
    assert_eq!(narrow.input.text(), "ab");
}

#[test]
fn a_listing_puts_directories_first() {
    let sorted = sort_entries(vec![file("b"), dir("src"), file("a"), dir("doc")]);
    let names: Vec<String> = sorted
        .iter()
        .map(|item| match item {
            DirItem::Dir(d) => d.name.clone(),
            DirItem::File(name, _) => name.clone(),
        })
        .collect();
    assert_eq!(names, vec!["src", "doc", "b", "a"]);
}

#[test]
fn the_tree_opens_and_closes_directories() {
    let m = module();
    let mut tree = FileTree::new();
    tree.init(&m, vec![file("b"), dir("src")], Stamp { secs: 1, nanos: 0 });
    assert_eq!(tree.dir, "/w");
    assert_eq!(tree.len(), 2);
    assert_eq!(paths(&tree), vec!["/w/src", "/w/b"]);
    assert!(matches!(tree.enter(), Ask::ListDir(path) if path == "/w/src"));
    assert_eq!(tree.len(), 2);
    tree.listed(
        0,
        vec![
            DirItem::File(String::from("main.rs"), String::from("/w/src/main.rs")),
            DirItem::Dir(Dir::new(String::from("view"), String::from("/w/src/view"))),
        ],
    );
    assert_eq!(paths(&tree), vec!["/w/src", "/w/src/view", "/w/src/main.rs", "/w/b"]);
    assert_eq!(tree.dir_items.iter().map(|l| l.depth).collect::<Vec<_>>(), vec![0, 1, 1, 0]);
    tree.listed(1, vec![DirItem::File(String::from("x.rs"), String::from("/w/src/view/x.rs"))]);
    assert_eq!(tree.len(), 5);
    assert_eq!(tree.dir_items[2].depth, 2);
    tree.down(&term());
    tree.down(&term());
    assert_eq!(tree.curr_line, 2);
    assert!(matches!(tree.matchar(&term(), Key::Char('\r')), Ask::OpenFile(path) if path == "/w/src/view/x.rs"));
    tree.up();
    assert!(matches!(tree.enter(), Ask::Nothing));
    assert_eq!(paths(&tree), vec!["/w/src", "/w/src/view", "/w/src/main.rs", "/w/b"]);
    tree.up();
    tree.up();
    assert_eq!(tree.curr_line, 0);
    assert!(matches!(tree.enter(), Ask::Nothing));
    assert_eq!(paths(&tree), vec!["/w/src", "/w/b"]);
    assert!(matches!(tree.enter(), Ask::ListDir(_)));
    assert_eq!(tree.set_cursor(&term()), (1, 3));
}

#[test]
fn the_tree_is_listed_anew_when_the_directory_has_changed() {
    let m = module();
    let mut tree = FileTree::new();
    tree.init(&m, vec![file("a"), file("b"), file("c")], Stamp { secs: 1, nanos: 0 });
    tree.down(&term());
    tree.down(&term());
    tree.down(&term());
    assert_eq!(tree.curr_line, 2);
    assert!(!tree.is_stale(Stamp { secs: 1, nanos: 0 }));
    assert!(tree.is_stale(Stamp { secs: 1, nanos: 5 }));
    tree.update(vec![file("z")], Stamp { secs: 1, nanos: 5 });
    assert_eq!((tree.len(), tree.curr_line, tree.scroll), (1, 0, 0));
    assert!(!tree.is_stale(Stamp { secs: 1, nanos: 5 }));
}

#[test]
fn the_tree_scrolls_near_the_edges() {
    let m = module();
    let mut tree = FileTree::new();
    let names: Vec<String> = (0..40).map(|i| format!("f{i}")).collect();
    tree.init(&m, names.iter().map(|n| file(n)).collect(), Stamp { secs: 1, nanos: 0 });
    for _ in 0..19 {
        tree.down(&term());
    }
    assert_eq!((tree.curr_line, tree.scroll), (19, 0));
    tree.down(&term());
    assert_eq!((tree.curr_line, tree.scroll), (20, 1));
    for _ in 0..16 {
        tree.up();
    }
    assert_eq!((tree.curr_line, tree.scroll), (4, 1));
    tree.up();
    assert_eq!((tree.curr_line, tree.scroll), (3, 0));
}

#[test]
fn a_file_from_the_tree_is_opened_once_and_shown() {
    let mut m = module();
    let mut tree = FileTree::new();
    let loaded = |text: &str| Loaded {
        pathbuf: String::from("/w/a.txt"),
        name: String::from("a.txt"),
        text: String::from(text),
        metadata: DiskMeta { size: 1, modified: Stamp { secs: 1, nanos: 0 } },
    };
    tree.opened(&mut m, loaded("a"));
    assert_eq!(m.file_mod.names(), vec!["", "a.txt"]);
    assert_eq!(m.recvmsg(&String::from("MainView")), Some(String::from("2")));
    assert!(matches!(&m.operation[0], Op::Shift(name) if name == "MainView"));
    tree.opened(&mut m, loaded("other"));
    assert_eq!(m.file_mod.names().len(), 2);
    assert_eq!(m.recvmsg(&String::from("MainView")), Some(String::from("2")));
}

#[test]
fn the_top_bar_has_a_tab_for_each_buffer() {
    let mut store = FileMod::from(vec![
        FileBuf::new(String::new(), None),
        FileBuf::new(String::from("b.txt"), None),
    ]);
    store.file_map[1].dirty = true;
    store.shift((0, 0), 0);
    let mut bar = TopBar::new();
    bar.init(&Settings::default());
    assert!(bar.panel.silent);
    bar.update(&store);
    assert_eq!(bar.tabs.len(), 2);
    assert_eq!((bar.tabs[0].id, bar.tabs[0].name.as_str(), bar.tabs[0].dirty, bar.tabs[0].current), (1, "[No Name]", false, false));
    assert_eq!((bar.tabs[1].id, bar.tabs[1].name.as_str(), bar.tabs[1].dirty, bar.tabs[1].current), (2, "b.txt", true, true));
}

#[test]
fn the_bottom_bar_names_the_panel_the_buffer_and_its_size() {
    let mut m = module();
    m.curr_view = String::from("MainView");
    let mut bar = BottomBar::new();
    bar.init(&m.settings);
    assert_eq!(bar.bcolor_lv1, m.settings.theme.stress_fclr);
    bar.update(&m, "0b");
    assert_eq!(bar.content, " MainView  [New File]  size  0b ");
    m.file_mod.set_name(String::from("n.txt"));
    bar.update(&m, "1.50kb");
    assert_eq!(bar.content, " MainView  n.txt  size  1.50kb ");
    bar.push_str("!");
    assert_eq!(bar.content, " MainView  n.txt  size  1.50kb !");
}

#[test]
fn an_accepted_description_gives_its_panel_at_once() {
    let made = panel(String::from("Side"), &vec![ViewAttr::Start(1, 2), ViewAttr::End(26, -2)]);
    assert_eq!(made.name, "Side");
    assert_eq!(made.start, (Pos::Fixed(0), Pos::Fixed(1)));
    assert_eq!(made.end, (Pos::Fixed(25), Pos::Opposite(1)));
    assert_eq!((made.silent, made.lock, made.show), (false, false, true));
}

#[test]
fn each_question_has_its_title() {
    assert_eq!(Prompt::Search.title(), "Search");
    assert_eq!(Prompt::Replace.title(), "Replace");
    assert_eq!(Prompt::SaveAs.title(), "Save as");
    assert_eq!(Prompt::FileNumber.title(), "Input File Number");
    assert_eq!(Prompt::SaveAll.title(), "Save All?(y/n)");
    assert_eq!(Prompt::Quit.title(), "Quit?(y/n)");
}

#[test]
fn the_tree_paints_as_many_lines_as_it_has_rows() {
    let m = module();
    let mut tree = FileTree::new();
    let mut entries: Vec<DirItem> = (0..40).map(|i| file(&format!("f{i}"))).collect();
    entries.push(dir("src"));
    tree.init(&m, entries, Stamp { secs: 1, nanos: 0 });
    let rows = tree.draw(&term());
    assert_eq!(rows.len(), 22);
    assert_eq!(
        (rows[0].name.as_str(), rows[0].is_dir, rows[0].is_open, rows[0].depth),
        ("src", true, false, 0)
    );
    assert_eq!((rows[1].name.as_str(), rows[1].is_dir, rows[1].is_open), ("f0", false, false));
    assert_eq!(rows[21].name, "f20");
    tree.listed(0, vec![file("src/x.rs")]);
    let rows = tree.draw(&term());
    assert_eq!(rows.len(), 22);
    assert_eq!((rows[0].name.as_str(), rows[0].is_open), ("src", true));
    assert_eq!((rows[1].name.as_str(), rows[1].depth), ("src/x.rs", 1));
    assert_eq!((rows[2].name.as_str(), rows[2].depth), ("f0", 0));
    tree.scroll = 31;
    tree.curr_line = 31;
    let rows = tree.draw(&term());
    assert_eq!(rows.len(), 11);
    assert_eq!(rows[0].name, "f29");
    assert_eq!(rows[10].name, "f39");
    tree.scroll = 50;
    assert!(tree.draw(&term()).is_empty());
    tree.scroll = 0;
    tree.panel.end = (Pos::Fixed(25), Pos::Fixed(1));
    assert_eq!(tree.draw(&term()).len(), 1);
}

#[test]
fn the_help_panel_shows_the_lines_of_its_page() {
    let mut help = Help::new();
    help.init(&Settings::default());
    let lines = help.draw();
    assert_eq!(lines[0], " General Help");
    assert_eq!(lines.join("\n"), help.content[0]);
    let foot = help.footer();
    assert_eq!((foot.page, foot.pages, foot.left, foot.right), (1, 2, false, true));
    help.matchar(Key::End);
    let foot = help.footer();
    assert_eq!((foot.page, foot.pages, foot.left, foot.right), (2, 2, true, false));
    let lines = help.draw();
    assert_eq!(lines[0], " View Help");
    assert_eq!(lines.join("\n"), help.content[1]);
}
