use phetch::document::Document;
use phetch::gopher::Type;
use phetch::text::Text;
use phetch::ui::{Action, Key, View, UI};

fn numbered(n: usize) -> Text {
    let mut body = String::new();
    for i in 0..n {
        body.push_str(&format!("line {}\r\n", i));
    }
    Text::from("gopher://host/0/notes".to_string(), body)
}

#[test]
fn lines_lose_their_ends() {
    let t = Text::from("u".to_string(), "one\r\ntwo\n\nfour\r\r\nlast".to_string());
    assert_eq!(t.lines, vec!["one", "two", "", "four", "last"]);
    assert_eq!(t.raw, "one\r\ntwo\n\nfour\r\r\nlast");
    assert_eq!(t.url, "u");
    assert_eq!((t.scroll, t.size), (0, (0, 0)));
    assert_eq!(Text::from("u".to_string(), "".to_string()).lines.len(), 0);
    assert_eq!(Text::from("u".to_string(), "\n".to_string()).lines, vec![""]);
}

#[test]
fn text_window() {
    let mut t = numbered(5);
    t.set_size(80, 3);
    assert_eq!(t.render_lines(), "line 0\nline 1\n");
    t.scroll = 4;
    assert_eq!(t.render(), "line 4\n");
    t.scroll = 5;
    assert_eq!(t.render(), "");
    t.scroll = 0;
    t.set_size(80, 1);
    assert_eq!(t.render(), "");
    t.set_size(80, 0);
    assert_eq!(t.render(), "");
    t.set_size(80, 100);
    assert_eq!(t.render(), "line 0\nline 1\nline 2\nline 3\nline 4\n");
}

#[test]
fn text_scrolls_by_lines() {
    let mut t = numbered(3);
    t.set_size(80, 24);
    assert!(matches!(t.process_key(Key::Up), Action::Nothing));
    assert!(matches!(t.process_key(Key::Down), Action::Redraw));
    assert!(matches!(t.process_key(Key::Ctrl('n')), Action::Redraw));
    assert_eq!(t.scroll, 2);
    assert!(matches!(t.process_key(Key::Down), Action::Nothing));
    assert_eq!(t.scroll, 2);
    assert!(matches!(t.process_key(Key::Ctrl('p')), Action::Redraw));
    assert_eq!(t.scroll, 1);
}

#[test]
fn text_scrolls_by_pages() {
    let mut t = numbered(40);
    t.set_size(80, 24);
    assert!(matches!(t.process_key(Key::PageUp), Action::Nothing));
    assert!(matches!(t.process_key(Key::PageDown), Action::Redraw));
    assert_eq!(t.scroll, 15);
    assert!(matches!(t.process_key(Key::Char(' ')), Action::Redraw));
    assert_eq!(t.scroll, 25);
    assert!(matches!(t.process_key(Key::PageDown), Action::Nothing));
    assert!(matches!(t.process_key(Key::Char('-')), Action::Redraw));
    assert_eq!(t.scroll, 10);
    assert!(matches!(t.process_key(Key::PageUp), Action::Redraw));
    assert_eq!(t.scroll, 0);
    let mut short = numbered(15);
    assert!(matches!(short.process_key(Key::PageDown), Action::Nothing));
}

#[test]
fn text_leaves_other_keys_to_the_session() {
    let mut t = numbered(3);
    assert!(matches!(t.process_key(Key::Char('x')), Action::Unknown));
    assert!(matches!(t.process_key(Key::Left), Action::Unknown));
    assert!(matches!(t.process_key(Key::Ctrl('c')), Action::Unknown));
    assert!(matches!(t.process_input(Key::Char('\n')), Action::Unknown));
}

#[test]
fn documents_by_type() {
    let menu = Document::from("u".to_string(), Type::Menu, "1Dir\t/d\thost\t70\n".to_string());
    match menu {
        Some(Document::Menu(m)) => assert_eq!(m.links.len(), 1),
        _ => panic!("no menu"),
    }
    let text = Document::from("u".to_string(), Type::Text, "hello\n".to_string());
    match text {
        Some(Document::Text(t)) => assert_eq!(t.lines, vec!["hello"]),
        _ => panic!("no text"),
    }
    let html = Document::from("u".to_string(), Type::HTML, "<p>\n".to_string());
    assert!(matches!(html, Some(Document::Text(_))));
    assert!(Document::from("u".to_string(), Type::Binary, "".to_string()).is_none());
    assert!(Document::from("u".to_string(), Type::Search, "".to_string()).is_none());
    assert!(Document::from("u".to_string(), Type::Info, "".to_string()).is_none());
}

#[test]
fn session_of_documents() {
    let mut ui: UI<Document> = UI::new();
    ui.open(Document::from("gopher://a/1/".to_string(), Type::Menu, "0Notes\t/n\ta\t70\n".to_string()).unwrap());
    ui.draw(80, 24);
    match ui.update(Key::Char('1')) {
        Action::Open(url) => assert_eq!(url, "gopher://a/0/n"),
        other => panic!("{:?}", other),
    }
    ui.open(Document::from("gopher://a/0/n".to_string(), Type::Text, "first\nsecond\n".to_string()).unwrap());
    assert_eq!(ui.page(), 1);
    assert_eq!(
        ui.draw(80, 24),
        Some("\x1b[2J\x1b[1;1H\x1b[?25lfirst\nsecond\n".to_string())
    );
    assert_eq!(ui.current().unwrap().url(), "gopher://a/0/n");
    assert!(matches!(ui.update(Key::Down), Action::Nothing));
    assert!(ui.dirty());
    ui.draw(80, 24);
    assert!(matches!(ui.update(Key::Char('\n')), Action::Nothing));
    assert!(ui.dirty());
    assert!(matches!(ui.update(Key::Backspace), Action::Nothing));
    assert_eq!(ui.page(), 0);
    assert!(matches!(ui.update(Key::Backspace), Action::Nothing));
    assert_eq!(ui.page(), 0);
    assert!(matches!(ui.update(Key::Right), Action::Nothing));
    assert_eq!(ui.page(), 1);
    assert!(matches!(ui.update(Key::Ctrl('c')), Action::Quit));
    assert!(!ui.running());
}
