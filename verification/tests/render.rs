use phetch::menu::Menu;
use phetch::ui::View;

fn menu(body: &str, cols: usize, rows: usize) -> Menu {
    let mut menu = Menu::parse("gopher://host/1/".to_string(), body.to_string());
    menu.set_size(cols, rows);
    menu
}

#[test]
fn entries_and_status_line() {
    let m = menu("iHello\n1Dir\t/d\thost\t70\n0File\t/f\thost\t70\n", 20, 24);
    assert_eq!(m.indent(), 1);
    let expected = [
        "       \x1b[93mHello\x1b[0m\n",
        " \x1b[97;1m*\x1b[0m \x1b[95m 1.\x1b[0m \x1b[94mDir\x1b[0m\n",
        "   \x1b[95m 2.\x1b[0m \x1b[96mFile\x1b[0m\n",
        "\x1b[24;1H\x1b[2K",
    ].concat();
    assert_eq!(m.render_lines(), expected);
    assert_eq!(m.render(), expected);
}

#[test]
fn wide_mode_has_no_indent() {
    let mut m = menu("1Dir\t/d\thost\t70\n", 80, 24);
    assert_eq!(m.indent(), 32);
    m.wide = true;
    assert_eq!(
        m.render_lines(),
        "\x1b[97;1m*\x1b[0m \x1b[95m 1.\x1b[0m \x1b[94mDir\x1b[0m\n\x1b[24;1H\x1b[2K"
    );
}

#[test]
fn indent_follows_the_size() {
    let mut m = menu("1Dir\t/d\thost\t70\n", 80, 24);
    assert_eq!(m.longest, 3);
    assert_eq!(m.indent(), 32);
    m.set_size(15, 24);
    assert_eq!(m.indent(), 0);
    m.set_size(16, 24);
    assert_eq!(m.indent(), 0);
    m.set_size(17, 24);
    assert_eq!(m.indent(), 1);
    m.set_size(2, 24);
    assert_eq!(m.indent(), 0);
    m.longest = 500;
    m.set_size(100, 24);
    assert_eq!(m.indent(), 8);
    m.set_size(72, 24);
    assert_eq!(m.indent(), 0);
    m.set_size(71, 24);
    assert_eq!(m.indent(), 0);
}

#[test]
fn only_the_window_is_drawn() {
    let mut m = menu("iA\niB\niC\niD\niE\n", 0, 3);
    m.scroll = 1;
    assert_eq!(
        m.render_lines(),
        "      \x1b[93mB\x1b[0m\n      \x1b[93mC\x1b[0m\n\x1b[3;1H\x1b[2K"
    );
    m.scroll = 4;
    assert_eq!(m.render_lines(), "      \x1b[93mE\x1b[0m\n\x1b[3;1H\x1b[2K");
    m.scroll = 5;
    assert_eq!(m.render_lines(), "\x1b[3;1H\x1b[2K");
    m.set_size(0, 1);
    m.scroll = 0;
    assert_eq!(m.render_lines(), "\x1b[1;1H\x1b[2K");
    m.set_size(0, 0);
    assert_eq!(m.render_lines(), "\x1b[0;1H\x1b[2K");
}

#[test]
fn colours_by_type() {
    let m = menu(
        "3Oops\t\thost\t70\nhWeb\tURL:http://x\thost\t70\n9Bin\t/b\thost\t70\n7Find\t/q\thost\t70\n8Tel\t/t\thost\t70\n",
        0,
        24,
    );
    let expected = [
        "\x1b[97;1m*\x1b[0m \x1b[95m 1.\x1b[0m \x1b[91mOops\x1b[0m\n",
        "  \x1b[95m 2.\x1b[0m \x1b[92mWeb\x1b[0m\n",
        "  \x1b[95m 3.\x1b[0m \x1b[4;97mBin\x1b[0m\n",
        "  \x1b[95m 4.\x1b[0m \x1b[0mFind\x1b[0m\n",
        "  \x1b[95m 5.\x1b[0m \x1b[0mTel\x1b[0m\n",
        "\x1b[24;1H\x1b[2K",
    ].concat();
    assert_eq!(m.render_lines(), expected);
}

#[test]
fn numbers_of_two_and_three_digits() {
    let mut body = String::new();
    for i in 1..=120 {
        body.push_str(&format!("1L{}\t/{}\thost\t70\n", i, i));
    }
    let mut m = menu(&body, 0, 3);
    m.scroll = 8;
    m.link = 9;
    assert_eq!(
        m.render_lines(),
        [
            "  \x1b[95m 9.\x1b[0m \x1b[94mL9\x1b[0m\n",
            "\x1b[97;1m*\x1b[0m \x1b[95m10.\x1b[0m \x1b[94mL10\x1b[0m\n",
            "\x1b[3;1H\x1b[2K"
        ].concat()
    );
    m.scroll = 99;
    assert_eq!(
        m.render_lines(),
        [
            "  \x1b[95m100.\x1b[0m \x1b[94mL100\x1b[0m\n",
            "  \x1b[95m101.\x1b[0m \x1b[94mL101\x1b[0m\n",
            "\x1b[3;1H\x1b[2K"
        ].concat()
    );
}

#[test]
fn long_labels_are_cut() {
    let long = "x".repeat(80);
    let m = menu(&format!("i{}\n", long), 0, 24);
    let expected = format!("      \x1b[93m{}...\x1b[0m\n\x1b[24;1H\x1b[2K", "x".repeat(72));
    assert_eq!(m.render_lines(), expected);
    let exact = "y".repeat(72);
    let m = menu(&format!("i{}\n", exact), 0, 24);
    let expected = format!("      \x1b[93m{}\x1b[0m\n\x1b[24;1H\x1b[2K", exact);
    assert_eq!(m.render_lines(), expected);
    let accents = "\u{e9}".repeat(40);
    let m = menu(&format!("i{}\n", accents), 0, 24);
    let expected = format!("      \x1b[93m{}...\x1b[0m\n\x1b[24;1H\x1b[2K", accents);
    assert_eq!(m.render_lines(), expected);
}

#[test]
fn status_line_shows_the_buffer() {
    let mut m = menu("1Dir\t/d\thost\t70\n", 80, 40);
    m.input = "gop".to_string();
    assert_eq!(m.redraw_input(), "\x1b[40;1H\x1b[2Kgop");
    assert!(m.render_lines().ends_with("\x1b[40;1H\x1b[2Kgop"));
    m.set_size(80, 65536 + 7);
    assert_eq!(m.redraw_input(), "\x1b[7;1H\x1b[2Kgop");
}
