use phetch::page::{echo, key_command, prompt_line, Command, Page};
use phetch::ui::Key;

fn page(body: &str) -> Page {
    let mut page = Page::new("host:70/".to_string(), body.to_string());
    page.parse_links();
    page
}

#[test]
fn links_of_a_response() {
    let p = page("iWelcome\tfake\t(NULL)\t0\r\n1Phlogs\t/phlogs/\tgopher.club\t70\r\n0About\t/about.txt\tsdf.org\t7070\r\nhWeb\tURL:http://x\thost\t70\r\n.\r\n");
    assert_eq!(p.links.len(), 2);
    assert_eq!(p.links[0].name, "Phlogs");
    assert_eq!(p.links[0].selector, "/phlogs/");
    assert_eq!(p.links[0].host, "gopher.club");
    assert_eq!(p.links[0].port, "70");
    assert_eq!(p.links[1].name, "About");
    assert_eq!(p.links[1].selector, "/about.txt");
    assert_eq!(p.links[1].host, "sdf.org");
    assert_eq!(p.links[1].port, "7070");
    assert_eq!(p.url, "host:70/");
    assert_eq!(p.cursor, 0);
}

#[test]
fn a_line_without_its_end_is_no_link() {
    let p = page("1Dir\t/d\thost\t70");
    assert_eq!(p.links.len(), 0);
    let p = page("1Dir\t/d\thost\t70\n1Other\t/o\thost\t70");
    assert_eq!(p.links.len(), 1);
    assert_eq!(p.links[0].name, "Dir");
}

#[test]
fn short_and_empty_lines() {
    let p = page("\n\n1\n0\n1A\n1B\t/b\n0C\t/c\thost\n");
    assert_eq!(p.links.len(), 3);
    assert_eq!((p.links[0].name.as_str(), p.links[0].selector.as_str()), ("A", ""));
    assert_eq!((p.links[0].host.as_str(), p.links[0].port.as_str()), ("", ""));
    assert_eq!((p.links[1].name.as_str(), p.links[1].selector.as_str()), ("B", "/b"));
    assert_eq!((p.links[2].host.as_str(), p.links[2].port.as_str()), ("host", ""));
}

#[test]
fn parsing_again_starts_anew() {
    let mut p = page("1Dir\t/d\thost\t70\n");
    p.parse_links();
    assert_eq!(p.links.len(), 1);
    p.body = "iNothing\n".to_string();
    p.parse_links();
    assert_eq!(p.links.len(), 0);
}

#[test]
fn cursor_moves_within_the_links() {
    let mut p = page("1A\t/a\th\t70\n1B\t/b\th\t70\n");
    assert!(p.selected().is_none());
    p.cursor_up();
    assert_eq!(p.cursor, 0);
    p.cursor_down();
    assert_eq!(p.cursor, 1);
    assert_eq!(p.selected().unwrap().name, "A");
    p.cursor_down();
    p.cursor_down();
    assert_eq!(p.cursor, 2);
    assert_eq!(p.selected().unwrap().name, "B");
    p.cursor_up();
    assert_eq!(p.cursor, 1);
}

#[test]
fn commands_move_or_open() {
    let mut p = page("1A\t/a\th\t70\n");
    assert!(!p.respond(Command::Open));
    assert!(!p.respond(Command::Down));
    assert_eq!(p.cursor, 1);
    assert!(p.respond(Command::Open));
    assert!(!p.respond(Command::Quit));
    assert!(!p.respond(Command::Up));
    assert_eq!(p.cursor, 0);
}

#[test]
fn draw_plain() {
    let p = page("iHello\tfake\t(NULL)\t0\r\n1Dir\t/d\thost\t70\r\n.\r\n");
    let expected = [
        "   \x1b[0m   \x1b[93mHello\r\n\x1b[0m",
        "  \x1b[95m 1. \x1b[0m\x1b[94mDir\r\n\x1b[0m",
        "   \x1b[0m   \x1b[94m\r\n",
    ]
    .concat();
    assert_eq!(p.draw(), expected);
}

#[test]
fn draw_marks_the_selected_link() {
    let mut p = page("1A\t/a\th\t70\nhB\tURL:x\th\t70\n0C\t/c\th\t70\n");
    p.cursor = 2;
    let expected = [
        "  \x1b[95m 1. \x1b[0m\x1b[94mA\r\n\x1b[0m",
        "\x1b[92;1m*\x1b[0m \x1b[95m 2. \x1b[0m\x1b[96mB\r\n\x1b[0m",
        "  \x1b[95m 3. \x1b[0m\x1b[94mC\r\n\x1b[0m",
    ]
    .concat();
    assert_eq!(p.draw(), expected);
}

#[test]
fn draw_lines_without_tabs_and_other_types() {
    let p = page("iNo tab here\n3Oops\n\r\n\nxStrange");
    let expected = [
        "   \x1b[0m   \x1b[93mNo tab here\n",
        "   \x1b[0m   Oops\n",
        "   \x1b[0m   Strange",
    ]
    .concat();
    assert_eq!(p.draw(), expected);
}

#[test]
fn draw_numbers_from_ten_on() {
    let mut body = String::new();
    for i in 1..=10 {
        body.push_str(&format!("1L{}\t/\th\t70\n", i));
    }
    let out = page(&body).draw();
    assert!(out.contains("  \x1b[95m 9. \x1b[0m\x1b[94mL9\r\n"));
    assert!(out.ends_with("  \x1b[95m10. \x1b[0m\x1b[94mL10\r\n\x1b[0m"));
}

#[test]
fn draw_empty() {
    assert_eq!(page("").draw(), "");
}

#[test]
fn keys_and_commands() {
    assert_eq!(key_command(Key::Ctrl('c')), Some(Command::Quit));
    assert_eq!(key_command(Key::Char('q')), Some(Command::Quit));
    assert_eq!(key_command(Key::Char('\n')), Some(Command::Open));
    assert_eq!(key_command(Key::Up), Some(Command::Up));
    assert_eq!(key_command(Key::Ctrl('p')), Some(Command::Up));
    assert_eq!(key_command(Key::Down), Some(Command::Down));
    assert_eq!(key_command(Key::Ctrl('n')), Some(Command::Down));
    assert_eq!(key_command(Key::Char('x')), None);
    assert_eq!(key_command(Key::Left), None);
    assert_eq!(key_command(Key::Backspace), None);
}

#[test]
fn other_keys_are_echoed() {
    let mut input = String::new();
    assert_eq!(echo(Key::Char('a'), &mut input), "");
    assert_eq!(echo(Key::Char('b'), &mut input), "");
    assert_eq!(input, "ab");
    assert_eq!(echo(Key::Alt('x'), &mut input), "Alt-x");
    assert_eq!(echo(Key::Ctrl('t'), &mut input), "Ctrl-t");
    assert_eq!(echo(Key::Left, &mut input), "<left>");
    assert_eq!(echo(Key::Right, &mut input), "<right>");
    assert_eq!(echo(Key::PageUp, &mut input), "Other");
    assert_eq!(input, "ab");
    assert_eq!(echo(Key::Backspace, &mut input), "");
    assert_eq!(input, "a");
    assert_eq!(echo(Key::Delete, &mut input), "");
    assert_eq!(echo(Key::Delete, &mut input), "");
    assert_eq!(input, "");
}

#[test]
fn prompt_on_a_row() {
    assert_eq!(prompt_line(25, "Other"), "\x1b[25;1H\x1b[2K\x1b[92;1m>> \x1b[0mOther");
    assert_eq!(prompt_line(0, ""), "\x1b[0;1H\x1b[2K\x1b[92;1m>> \x1b[0m");
}
