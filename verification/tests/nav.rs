use phetch::menu::nav::search_action;
use phetch::menu::{LinkDir, Menu};
use phetch::ui::{Action, Key, View};

/// A menu of `n` links named `Link 1` to `Link n`, one per line.
fn links(n: usize) -> Menu {
    let mut body = String::new();
    for i in 1..=n {
        body.push_str(&format!("1Link {}\t/{}\thost\t70\n", i, i));
    }
    Menu::parse("gopher://host/1/".to_string(), body)
}

/// A menu of `info` informational lines followed by `n` links.
fn padded(info: usize, n: usize) -> Menu {
    let mut body = String::new();
    for i in 0..info {
        body.push_str(&format!("iline {}\n", i));
    }
    for i in 1..=n {
        body.push_str(&format!("1Link {}\t/{}\thost\t70\n", i, i));
    }
    Menu::parse("gopher://host/1/".to_string(), body)
}

fn sized(mut menu: Menu, cols: usize, rows: usize) -> Menu {
    menu.set_size(cols, rows);
    menu
}

fn on_screen(menu: &Menu) -> bool {
    menu.link_visibility(menu.link) == Some(LinkDir::Visible)
}

#[test]
fn visibility_of_links() {
    let mut menu = sized(links(40), 80, 10);
    assert_eq!(menu.link_visibility(0), Some(LinkDir::Visible));
    assert_eq!(menu.link_visibility(8), Some(LinkDir::Visible));
    assert_eq!(menu.link_visibility(9), Some(LinkDir::Below));
    assert_eq!(menu.link_visibility(40), None);
    menu.scroll = 5;
    assert_eq!(menu.link_visibility(4), Some(LinkDir::Above));
    assert_eq!(menu.link_visibility(5), Some(LinkDir::Visible));
    assert_eq!(menu.link_visibility(13), Some(LinkDir::Visible));
    assert_eq!(menu.link_visibility(14), Some(LinkDir::Below));
    assert_eq!(menu.link(2).map(|l| l.url.clone()), Some("gopher://host/1/3".to_string()));
    assert!(menu.link(40).is_none());
}

#[test]
fn nothing_is_on_screen_without_rows() {
    let menu = links(3);
    assert_eq!(menu.link_visibility(0), Some(LinkDir::Below));
    let one = sized(links(3), 80, 1);
    assert_eq!(one.link_visibility(0), Some(LinkDir::Below));
    let two = sized(links(3), 80, 2);
    assert_eq!(two.link_visibility(0), Some(LinkDir::Visible));
    assert_eq!(two.link_visibility(1), Some(LinkDir::Below));
}

#[test]
fn down_and_up_within_the_screen() {
    let mut menu = sized(links(5), 80, 24);
    assert!(matches!(menu.action_down(), Action::Redraw));
    assert_eq!((menu.link, menu.scroll), (1, 0));
    assert!(matches!(menu.action_down(), Action::Redraw));
    assert_eq!((menu.link, menu.scroll), (2, 0));
    assert!(matches!(menu.action_up(), Action::Redraw));
    assert_eq!((menu.link, menu.scroll), (1, 0));
    assert!(matches!(menu.action_up(), Action::Redraw));
    assert!(matches!(menu.action_up(), Action::Nothing));
    assert_eq!((menu.link, menu.scroll), (0, 0));
}

#[test]
fn down_at_the_last_link_of_a_short_menu() {
    let mut menu = sized(links(3), 80, 24);
    menu.link = 2;
    assert!(matches!(menu.action_down(), Action::Nothing));
    assert_eq!((menu.link, menu.scroll), (2, 0));
}

#[test]
fn down_scrolls_one_line_to_reach_the_next_link() {
    let mut menu = sized(links(40), 80, 10);
    menu.link = 8;
    assert!(matches!(menu.action_down(), Action::Redraw));
    assert_eq!((menu.link, menu.scroll), (9, 1));
    assert!(on_screen(&menu));
}

#[test]
fn down_scrolls_without_selecting_a_far_link() {
    let mut menu = sized(padded(30, 2), 80, 10);
    assert!(matches!(menu.action_down(), Action::Redraw));
    assert_eq!((menu.link, menu.scroll), (0, 1));
}

#[test]
fn down_jumps_to_a_link_above_the_screen() {
    let mut menu = sized(links(40), 80, 10);
    menu.scroll = 20;
    menu.link = 3;
    assert!(matches!(menu.action_down(), Action::Redraw));
    assert_eq!((menu.link, menu.scroll), (4, 4));
    assert!(on_screen(&menu));
}

#[test]
fn down_at_the_last_link_scrolls_while_lines_are_left() {
    let mut body = String::new();
    body.push_str("1Only\t/o\thost\t70\n");
    for i in 0..30 {
        body.push_str(&format!("iline {}\n", i));
    }
    let mut menu = sized(Menu::parse("u".to_string(), body), 80, 10);
    assert!(matches!(menu.action_down(), Action::Redraw));
    assert_eq!((menu.link, menu.scroll), (0, 1));
    menu.scroll = 21;
    assert!(matches!(menu.action_down(), Action::Redraw));
    assert_eq!(menu.scroll, 22);
    assert!(matches!(menu.action_down(), Action::Nothing));
    assert_eq!(menu.scroll, 22);
}

#[test]
fn down_never_scrolls_past_the_end() {
    let mut menu = sized(links(40), 80, 10);
    menu.link = 39;
    for _ in 0..100 {
        menu.action_down();
        assert!(menu.scroll <= menu.lines.len());
    }
    assert_eq!(menu.scroll, 40);
    assert!(matches!(menu.action_down(), Action::Nothing));
}

#[test]
fn up_at_the_first_link_scrolls() {
    let mut menu = sized(padded(5, 3), 80, 10);
    menu.scroll = 2;
    assert!(matches!(menu.action_up(), Action::Redraw));
    assert_eq!((menu.link, menu.scroll), (0, 1));
    assert!(matches!(menu.action_up(), Action::Redraw));
    assert!(matches!(menu.action_up(), Action::Nothing));
    assert_eq!((menu.link, menu.scroll), (0, 0));
}

#[test]
fn up_scrolls_one_line_to_reach_the_link_before() {
    let mut menu = sized(links(40), 80, 10);
    menu.scroll = 5;
    menu.link = 5;
    assert!(matches!(menu.action_up(), Action::Redraw));
    assert_eq!((menu.link, menu.scroll), (4, 4));
    assert!(on_screen(&menu));
}

#[test]
fn up_scrolls_without_selecting_a_far_link() {
    let mut body = String::from("1First\t/1\thost\t70\n");
    for i in 0..30 {
        body.push_str(&format!("iline {}\n", i));
    }
    body.push_str("1Second\t/2\thost\t70\n");
    let mut menu = sized(Menu::parse("u".to_string(), body), 80, 10);
    menu.scroll = 25;
    menu.link = 1;
    assert!(matches!(menu.action_up(), Action::Redraw));
    assert_eq!((menu.link, menu.scroll), (1, 24));
}

#[test]
fn up_jumps_to_a_link_below_the_screen() {
    let mut menu = sized(links(40), 80, 10);
    menu.link = 30;
    assert!(matches!(menu.action_up(), Action::Redraw));
    assert_eq!((menu.link, menu.scroll), (29, 29));
    assert!(on_screen(&menu));
}

#[test]
fn page_down_moves_by_fifteen_lines() {
    let mut menu = sized(links(100), 80, 24);
    assert!(matches!(menu.action_page_down(), Action::Redraw));
    assert_eq!((menu.link, menu.scroll), (15, 15));
    assert!(on_screen(&menu));
    assert!(matches!(menu.action_page_down(), Action::Redraw));
    assert_eq!((menu.link, menu.scroll), (30, 30));
}

#[test]
fn page_down_stops_a_page_before_the_end() {
    let mut menu = sized(links(40), 80, 24);
    assert!(matches!(menu.action_page_down(), Action::Redraw));
    assert_eq!(menu.scroll, 15);
    assert!(matches!(menu.action_page_down(), Action::Redraw));
    assert_eq!(menu.scroll, 25);
    assert!(matches!(menu.action_page_down(), Action::Nothing));
    assert_eq!(menu.scroll, 25);
    assert!(on_screen(&menu));
}

#[test]
fn page_down_in_a_short_menu_does_nothing() {
    let mut menu = sized(links(15), 80, 24);
    assert!(matches!(menu.action_page_down(), Action::Nothing));
    assert_eq!((menu.link, menu.scroll), (0, 0));
}

#[test]
fn page_down_keeps_a_selection_that_stays_on_screen() {
    let mut menu = sized(links(100), 80, 24);
    menu.link = 20;
    menu.scroll = 10;
    assert!(matches!(menu.action_page_down(), Action::Redraw));
    assert_eq!((menu.link, menu.scroll), (25, 25));
    menu.link = 30;
    menu.scroll = 10;
    menu.action_page_down();
    assert_eq!((menu.link, menu.scroll), (30, 25));
}

#[test]
fn page_down_keeps_the_selection_when_no_link_is_on_screen() {
    let mut menu = sized(padded(0, 2), 80, 10);
    let mut body = String::from("1First\t/1\thost\t70\n");
    for i in 0..60 {
        body.push_str(&format!("iline {}\n", i));
    }
    body.push_str("1Last\t/2\thost\t70\n");
    menu = sized(Menu::parse("u".to_string(), body), 80, 10);
    assert!(matches!(menu.action_page_down(), Action::Redraw));
    assert_eq!((menu.link, menu.scroll), (0, 15));
}

#[test]
fn page_up_moves_by_fifteen_lines_and_stops_at_the_top() {
    let mut menu = sized(links(100), 80, 24);
    menu.scroll = 40;
    menu.link = 45;
    assert!(matches!(menu.action_page_up(), Action::Redraw));
    assert_eq!((menu.link, menu.scroll), (45, 25));
    assert!(matches!(menu.action_page_up(), Action::Redraw));
    assert_eq!((menu.link, menu.scroll), (32, 10));
    assert!(on_screen(&menu));
    assert!(matches!(menu.action_page_up(), Action::Redraw));
    assert_eq!((menu.link, menu.scroll), (22, 0));
    assert!(on_screen(&menu));
    assert!(matches!(menu.action_page_up(), Action::Redraw));
    assert_eq!((menu.link, menu.scroll), (0, 0));
    assert!(matches!(menu.action_page_up(), Action::Nothing));
}

#[test]
fn select_link_scrolls_to_a_link_off_screen() {
    let mut menu = sized(links(100), 80, 24);
    assert!(matches!(menu.action_select_link(50), Action::Redraw));
    assert_eq!((menu.link, menu.scroll), (50, 35));
    assert!(on_screen(&menu));
    assert!(matches!(menu.action_select_link(40), Action::Redraw));
    assert_eq!((menu.link, menu.scroll), (40, 35));
    assert!(matches!(menu.action_select_link(3), Action::Redraw));
    assert_eq!((menu.link, menu.scroll), (3, 0));
    assert!(matches!(menu.action_select_link(100), Action::Nothing));
    assert_eq!((menu.link, menu.scroll), (3, 0));
}

#[test]
fn select_link_on_a_small_screen_may_leave_the_link_below() {
    let mut menu = sized(links(100), 80, 10);
    menu.action_select_link(50);
    assert_eq!((menu.link, menu.scroll), (50, 35));
    assert_eq!(menu.link_visibility(50), Some(LinkDir::Below));
}

#[test]
fn selection_stays_on_screen_through_a_walk() {
    let mut menu = sized(links(120), 80, 24);
    let keys = [
        Key::Down, Key::Down, Key::PageDown, Key::Down, Key::PageDown, Key::PageDown,
        Key::Up, Key::PageUp, Key::Down, Key::Ctrl('n'), Key::Ctrl('p'), Key::PageDown,
        Key::PageDown, Key::PageDown, Key::PageDown, Key::PageDown, Key::Down, Key::Up,
        Key::PageUp, Key::PageUp, Key::Up, Key::Up,
    ];
    for key in keys.iter() {
        menu.process_key(*key);
        assert!(on_screen(&menu));
        assert!(menu.link < menu.links.len());
        assert!(menu.scroll <= menu.lines.len());
    }
}

#[test]
fn open_answers_with_the_address() {
    let mut menu = sized(links(3), 80, 24);
    menu.link = 1;
    menu.input = "x".to_string();
    match menu.action_open() {
        Action::Open(url) => assert_eq!(url, "gopher://host/1/2"),
        other => panic!("{:?}", other),
    }
    assert_eq!(menu.input, "");
    let mut empty = Menu::parse("u".to_string(), "iNo links here\n".to_string());
    assert!(matches!(empty.action_open(), Action::Nothing));
    assert!(matches!(empty.process_key(Key::Char('\n')), Action::Nothing));
}

#[test]
fn open_on_a_search_entry_asks_for_a_query() {
    let mut menu = sized(
        Menu::parse("u".to_string(), "7Find it\t/q\thost\t70\n".to_string()),
        80,
        24,
    );
    match menu.process_key(Key::Char('\n')) {
        Action::Prompt(message, url) => {
            assert_eq!(message, "Find it> ");
            assert_eq!(url, "gopher://host/7/q");
        }
        other => panic!("{:?}", other),
    }
}

#[test]
fn search_action_appends_the_query() {
    match search_action("gopher://host/7/q", Some("rust lang".to_string())) {
        Action::Open(url) => assert_eq!(url, "gopher://host/7/q?rust lang"),
        other => panic!("{:?}", other),
    }
    assert!(matches!(search_action("gopher://host/7/q", None), Action::Nothing));
}

#[test]
fn follow_link_selects_and_opens() {
    let mut menu = sized(links(100), 80, 24);
    menu.input = "77".to_string();
    match menu.action_follow_link(76) {
        Action::Open(url) => assert_eq!(url, "gopher://host/1/77"),
        other => panic!("{:?}", other),
    }
    assert_eq!((menu.link, menu.scroll), (76, 61));
    assert_eq!(menu.input, "");
    assert!(matches!(menu.action_follow_link(100), Action::Open(_)));
    assert_eq!(menu.link, 76);
}
