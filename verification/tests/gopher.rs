use phetch::gopher::{parse_url, Type};
use phetch::menu::Menu;

fn parts(url: &str) -> (Type, String, String, String) {
    parse_url(url)
}

fn owned(t: Type, h: &str, p: &str, s: &str) -> (Type, String, String, String) {
    (t, h.to_string(), p.to_string(), s.to_string())
}

#[test]
fn full_addresses() {
    assert_eq!(parts("gopher://gopher.club/1/phlogs/"), owned(Type::Menu, "gopher.club", "70", "/phlogs/"));
    assert_eq!(parts("gopher://sdf.org:7070/0/about.txt"), owned(Type::Text, "sdf.org", "7070", "/about.txt"));
    assert_eq!(parts("gopher://host/7/search"), owned(Type::Search, "host", "70", "/search"));
    assert_eq!(parts("gopher://host/1"), owned(Type::Menu, "host", "70", ""));
    assert_eq!(parts("gopher://host/1/"), owned(Type::Menu, "host", "70", "/"));
}

#[test]
fn short_addresses() {
    assert_eq!(parts("sdf.org"), owned(Type::Menu, "sdf.org", "70", ""));
    assert_eq!(parts("gopher://sdf.org"), owned(Type::Menu, "sdf.org", "70", ""));
    assert_eq!(parts("sdf.org/"), owned(Type::Menu, "sdf.org", "70", ""));
    assert_eq!(parts("sdf.org:71"), owned(Type::Menu, "sdf.org", "71", ""));
    assert_eq!(parts("sdf.org:"), owned(Type::Menu, "sdf.org", "70", ""));
    assert_eq!(parts("127.0.0.1:7070/0/x"), owned(Type::Text, "127.0.0.1", "7070", "/x"));
    assert_eq!(parts(""), owned(Type::Menu, "", "70", ""));
}

#[test]
fn paths_without_a_type() {
    assert_eq!(parts("sdf.org/users/"), owned(Type::Menu, "sdf.org", "70", "/users/"));
    assert_eq!(parts("sdf.org/~x:y"), owned(Type::Menu, "sdf.org", "70", "/~x:y"));
    assert_eq!(parts("sdf.org/0"), owned(Type::Text, "sdf.org", "70", ""));
}

#[test]
fn addresses_of_menu_lines_lead_back() {
    let menu = Menu::parse(
        "test".to_string(),
        "1Dir\t/d\thost\t70\r\n0File\t/f.txt\texample.org\t7070\r\n7Find\t\thost\t70\r\n".to_string(),
    );
    assert_eq!(parts(&menu.lines[0].url), owned(Type::Menu, "host", "70", "/d"));
    assert_eq!(parts(&menu.lines[1].url), owned(Type::Text, "example.org", "7070", "/f.txt"));
    assert_eq!(parts(&menu.lines[2].url), owned(Type::Search, "host", "70", "/"));
}
