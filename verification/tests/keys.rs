use phetch::menu::Menu;
use phetch::ui::{Action, Key, View};

fn links(n: usize) -> Menu {
    let mut body = String::new();
    for i in 1..=n {
        body.push_str(&format!("1Link {}\t/{}\thost\t70\n", i, i));
    }
    let mut menu = Menu::parse("gopher://host/1/".to_string(), body);
    menu.set_size(80, 24);
    menu
}

fn named(names: &[&str]) -> Menu {
    let mut body = String::new();
    for (i, name) in names.iter().enumerate() {
        body.push_str(&format!("1{}\t/{}\thost\t70\n", name, i + 1));
    }
    let mut menu = Menu::parse("gopher://host/1/".to_string(), body);
    menu.set_size(80, 24);
    menu
}

fn opened(action: Action) -> String {
    match action {
        Action::Open(url) => url,
        other => panic!("{:?}", other),
    }
}

fn drawn(action: Action) -> String {
    match action {
        Action::Draw(text) => text,
        other => panic!("{:?}", other),
    }
}

#[test]
fn nine_links_open_on_the_first_digit() {
    for d in 1..=9u32 {
        let mut menu = links(9);
        let c = std::char::from_digit(d, 10).unwrap();
        let url = opened(menu.process_key(Key::Char(c)));
        assert_eq!(url, format!("gopher://host/1/{}", d));
        assert_eq!(menu.link, (d - 1) as usize);
        assert_eq!(menu.input, "");
    }
}

#[test]
fn fifteen_links_wait_for_a_second_digit() {
    let mut menu = links(15);
    assert!(matches!(menu.process_key(Key::Char('1')), Action::Redraw));
    assert_eq!(menu.link, 0);
    assert_eq!(menu.input, "1");
    let url = opened(menu.process_key(Key::Char('2')));
    assert_eq!(url, "gopher://host/1/12");
    assert_eq!(menu.link, 11);
    assert_eq!(menu.input, "");
}

#[test]
fn fifteen_links_open_two_to_nine_at_once() {
    let mut menu = links(15);
    assert_eq!(opened(menu.process_key(Key::Char('2'))), "gopher://host/1/2");
    let mut menu = links(15);
    assert_eq!(opened(menu.process_key(Key::Char('9'))), "gopher://host/1/9");
}

#[test]
fn second_digit_that_is_no_link_falls_back_to_search() {
    let mut menu = named(&["alpha", "room 19", "gamma", "d", "e", "f", "g", "h", "i", "j", "k"]);
    assert!(matches!(menu.process_key(Key::Char('1')), Action::Redraw));
    assert_eq!(menu.link, 0);
    assert!(matches!(menu.process_key(Key::Char('9')), Action::Redraw));
    assert_eq!(menu.link, 1);
    assert_eq!(menu.input, "19");
}

#[test]
fn second_digit_without_link_or_match_only_draws() {
    let mut menu = links(11);
    menu.process_key(Key::Char('1'));
    let text = drawn(menu.process_key(Key::Char('9')));
    assert_eq!(text, "\x1b[24;1H\x1b[2K19");
    assert_eq!(menu.link, 0);
    assert_eq!(menu.input, "19");
}

#[test]
fn three_digits_reach_large_menus() {
    let mut menu = links(150);
    assert!(matches!(menu.process_key(Key::Char('1')), Action::Redraw));
    assert!(matches!(menu.process_key(Key::Char('2')), Action::Redraw));
    assert_eq!(menu.link, 11);
    assert_eq!(opened(menu.process_key(Key::Char('3'))), "gopher://host/1/123");
    assert_eq!(menu.link, 122);
    let mut menu = links(150);
    menu.process_key(Key::Char('1'));
    assert_eq!(opened(menu.process_key(Key::Char('6'))), "gopher://host/1/16");
}

#[test]
fn zero_is_no_link_number() {
    let mut menu = links(9);
    let text = drawn(menu.process_key(Key::Char('0')));
    assert_eq!(text, "\x1b[24;1H\x1b[2K0");
    assert_eq!(menu.link, 0);
    assert_eq!(menu.input, "0");
    let mut menu = named(&["a", "b", "room 0"]);
    assert!(matches!(menu.process_key(Key::Char('0')), Action::Redraw));
    assert_eq!(menu.link, 2);
}

#[test]
fn digit_past_the_last_link_searches() {
    let mut menu = named(&["one", "two", "area 5"]);
    assert!(matches!(menu.process_key(Key::Char('5')), Action::Redraw));
    assert_eq!(menu.link, 2);
    assert_eq!(menu.input, "5");
}

#[test]
fn letters_search_the_labels_without_case() {
    let mut menu = named(&["Apples", "Bananas", "Cherries", "bandits"]);
    assert!(matches!(menu.process_key(Key::Char('b')), Action::Redraw));
    assert_eq!(menu.link, 1);
    assert!(matches!(menu.process_key(Key::Char('A')), Action::Redraw));
    assert!(matches!(menu.process_key(Key::Char('N')), Action::Redraw));
    assert!(matches!(menu.process_key(Key::Char('d')), Action::Redraw));
    assert_eq!(menu.link, 3);
    assert_eq!(menu.input, "bANd");
    let text = drawn(menu.process_key(Key::Char('x')));
    assert_eq!(text, "\x1b[24;1H\x1b[2KbANdx");
    assert_eq!(menu.link, 3);
}

#[test]
fn search_finds_a_word_inside_a_label() {
    let mut menu = named(&["Apples", "Bananas", "Cherries"]);
    menu.process_key(Key::Char('r'));
    assert_eq!(menu.link, 2);
    menu.process_key(Key::Char('r'));
    assert_eq!(menu.link, 2);
    menu.process_key(Key::Char('i'));
    assert_eq!(menu.link, 2);
    assert_eq!(menu.input, "rri");
}

#[test]
fn backspace_on_an_empty_buffer_goes_back() {
    let mut menu = links(30);
    menu.link = 4;
    menu.scroll = 2;
    assert!(matches!(menu.process_key(Key::Backspace), Action::Back));
    assert!(matches!(menu.process_key(Key::Delete), Action::Back));
    assert_eq!((menu.link, menu.scroll), (4, 2));
    assert_eq!(menu.input, "");
}

#[test]
fn backspace_shortens_the_buffer_only() {
    let mut menu = links(30);
    menu.process_key(Key::Char('2'));
    menu.process_key(Key::Char('x'));
    let (link, scroll) = (menu.link, menu.scroll);
    assert_eq!(menu.input, "2x");
    assert_eq!(drawn(menu.process_key(Key::Backspace)), "\x1b[24;1H\x1b[2K2");
    assert_eq!(menu.input, "2");
    assert_eq!((menu.link, menu.scroll), (link, scroll));
    assert_eq!(drawn(menu.process_key(Key::Delete)), "\x1b[24;1H\x1b[2K");
    assert_eq!(menu.input, "");
    assert_eq!((menu.link, menu.scroll), (link, scroll));
    assert!(matches!(menu.process_key(Key::Backspace), Action::Back));
}

#[test]
fn escape_and_ctrl_c_clear_the_buffer() {
    let mut menu = links(30);
    assert!(matches!(menu.process_key(Key::Esc), Action::Nothing));
    menu.process_key(Key::Char('x'));
    assert_eq!(drawn(menu.process_key(Key::Esc)), "\x1b[24;1H\x1b[2K");
    assert_eq!(menu.input, "");
    menu.process_key(Key::Char('x'));
    assert_eq!(drawn(menu.process_key(Key::Ctrl('c'))), "\x1b[24;1H\x1b[2K");
    assert_eq!(menu.input, "");
    assert!(matches!(menu.process_key(Key::Ctrl('c')), Action::Quit));
}

#[test]
fn ctrl_w_toggles_wide_mode() {
    let mut menu = links(3);
    assert!(matches!(menu.process_key(Key::Ctrl('w')), Action::Redraw));
    assert!(menu.wide);
    assert!(matches!(menu.process_key(Key::Ctrl('w')), Action::Redraw));
    assert!(!menu.wide);
}

#[test]
fn minus_and_space_page_or_join_the_buffer() {
    let mut menu = links(100);
    assert!(matches!(menu.process_key(Key::Char(' ')), Action::Redraw));
    assert_eq!(menu.scroll, 15);
    assert!(matches!(menu.process_key(Key::Char('-')), Action::Redraw));
    assert_eq!(menu.scroll, 0);
    menu.process_key(Key::Char('k'));
    assert_eq!(drawn(menu.process_key(Key::Char(' '))), "\x1b[24;1H\x1b[2Kk ");
    assert_eq!(drawn(menu.process_key(Key::Char('-'))), "\x1b[24;1H\x1b[2Kk -");
    assert_eq!(menu.input, "k -");
    assert_eq!(menu.scroll, 0);
}

#[test]
fn other_keys_are_handed_back() {
    let mut menu = links(3);
    assert!(matches!(menu.process_key(Key::Left), Action::Keypress(Key::Left)));
    assert!(matches!(menu.process_key(Key::F(2)), Action::Keypress(Key::F(2))));
    assert!(matches!(menu.process_key(Key::Ctrl('q')), Action::Keypress(Key::Ctrl('q'))));
    assert!(matches!(menu.process_key(Key::Alt('x')), Action::Keypress(Key::Alt('x'))));
    assert!(matches!(menu.process_input(Key::Home), Action::Keypress(Key::Home)));
}

#[test]
fn enter_opens_the_selection() {
    let mut menu = links(3);
    menu.process_key(Key::Down);
    assert_eq!(opened(menu.process_key(Key::Char('\n'))), "gopher://host/1/2");
}
