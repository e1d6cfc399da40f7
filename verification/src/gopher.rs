//! Gopher item types and the one-character codes that name them.

use vstd::prelude::*;
use vstd::string::*;
use crate::chars::{find, find_char, range_to_string, slice_chars, starts_with, to_chars};

verus! {

/// The kind of resource a menu entry points at.
#[derive(Copy, Clone, PartialEq, Eq, Debug, Structural)]
pub enum Type {
    Text,
    Menu,
    CSOEntity,
    Error,
    Binhex,
    DOSFile,
    UUEncoded,
    Search,
    Telnet,
    Binary,
    Mirror,
    GIF,
    Telnet3270,
    HTML,
    Image,
    PNG,
    Info,
    Sound,
    Document,
}

/// The item type that a code character stands for, if it stands for one.
pub open spec fn spec_type_for_char(c: char) -> Option<Type> {
    if c == '0' {
        Some(Type::Text)
    } else if c == '1' {
        Some(Type::Menu)
    } else if c == '2' {
        Some(Type::CSOEntity)
    } else if c == '3' {
        Some(Type::Error)
    } else if c == '4' {
        Some(Type::Binhex)
    } else if c == '5' {
        Some(Type::DOSFile)
    } else if c == '6' {
        Some(Type::UUEncoded)
    } else if c == '7' {
        Some(Type::Search)
    } else if c == '8' {
        Some(Type::Telnet)
    } else if c == '9' {
        Some(Type::Binary)
    } else if c == '+' {
        Some(Type::Mirror)
    } else if c == 'g' {
        Some(Type::GIF)
    } else if c == 'T' {
        Some(Type::Telnet3270)
    } else if c == 'h' {
        Some(Type::HTML)
    } else if c == 'I' {
        Some(Type::Image)
    } else if c == 'p' {
        Some(Type::PNG)
    } else if c == 'i' {
        Some(Type::Info)
    } else if c == 's' {
        Some(Type::Sound)
    } else if c == 'd' {
        Some(Type::Document)
    } else {
        None
    }
}

impl Type {
    /// Whether resources of this type are saved to disk rather than shown.
    pub open spec fn spec_is_download(self) -> bool {
        self == Type::Binhex || self == Type::DOSFile || self == Type::UUEncoded || self
            == Type::Binary || self == Type::GIF || self == Type::Image || self == Type::PNG
            || self == Type::Sound || self == Type::Document
    }

    /// Whether resources of this type are saved to disk rather than shown.
    #[verifier::when_used_as_spec(spec_is_download)]
    pub fn is_download(self) -> (b: bool)
        ensures
            b == self.spec_is_download(),
    {
        match self {
            Type::Binhex
            | Type::DOSFile
            | Type::UUEncoded
            | Type::Binary
            | Type::GIF
            | Type::Image
            | Type::PNG
            | Type::Sound
            | Type::Document => true,
            _ => false,
        }
    }
}

/// Looks up the item type for the first character of a menu line.
///
/// Every recognised code is a single ASCII character; any other character
/// names no type.
#[verifier::when_used_as_spec(spec_type_for_char)]
pub fn type_for_char(c: char) -> (t: Option<Type>)
    ensures
        t == spec_type_for_char(c),
        t is Some ==> (c as u32) < 128,
{
    match c {
        '0' => Some(Type::Text),
        '1' => Some(Type::Menu),
        '2' => Some(Type::CSOEntity),
        '3' => Some(Type::Error),
        '4' => Some(Type::Binhex),
        '5' => Some(Type::DOSFile),
        '6' => Some(Type::UUEncoded),
        '7' => Some(Type::Search),
        '8' => Some(Type::Telnet),
        '9' => Some(Type::Binary),
        '+' => Some(Type::Mirror),
        'g' => Some(Type::GIF),
        'T' => Some(Type::Telnet3270),
        'h' => Some(Type::HTML),
        'I' => Some(Type::Image),
        'p' => Some(Type::PNG),
        'i' => Some(Type::Info),
        's' => Some(Type::Sound),
        'd' => Some(Type::Document),
        _ => None,
    }
}

/// The parts of a Gopher address: what kind of resource it names, and the
/// host, the port and the selector to ask for it.
pub ghost struct UrlView {
    pub typ: Type,
    pub host: Seq<char>,
    pub port: Seq<char>,
    pub selector: Seq<char>,
}

/// An address without `gopher://` at its front, if it has that.
pub open spec fn without_scheme(url: Seq<char>) -> Seq<char> {
    if "gopher://"@.is_prefix_of(url) {
        url.skip(9)
    } else {
        url
    }
}

/// What follows the character at `at` in `s`, or nothing if `s` ends
/// there or before.
pub open spec fn after(s: Seq<char>, at: int) -> Seq<char> {
    if at + 1 < s.len() {
        s.skip(at + 1)
    } else {
        Seq::<char>::empty()
    }
}

/// The parts of the address `url`, which has the form
/// `gopher://host:port/Tselector`.
///
/// The scheme may be left out. The host ends at the first `/`, or with the
/// address; within it the port follows the first `:`, and is 70 where none
/// is given. What follows that `/` is the path. A path that begins with
/// the code of an item type names a resource of that type, and the
/// selector is the rest of the path. Any other path is the selector of a
/// menu, with its `/` before it; without a path the selector is empty.
pub open spec fn spec_parse_url(url: Seq<char>) -> UrlView {
    let rest = without_scheme(url);
    let slash = find(rest, '/');
    let authority = rest.take(slash);
    let path = after(rest, slash);
    let colon = find(authority, ':');
    let port = after(authority, colon);
    let known = path.len() > 0 && spec_type_for_char(path[0]) is Some;
    UrlView {
        typ: if known {
            spec_type_for_char(path[0])->0
        } else {
            Type::Menu
        },
        host: authority.take(colon),
        port: if port.len() > 0 {
            port
        } else {
            "70"@
        },
        selector: if known {
            path.skip(1)
        } else if path.len() > 0 {
            "/"@ + path
        } else {
            path
        },
    }
}

/// Takes a Gopher address apart into the item type, the host, the port and
/// the selector.
pub fn parse_url(url: &str) -> (parts: (Type, String, String, String))
    ensures
        spec_parse_url(url@) == (UrlView {
            typ: parts.0,
            host: parts.1@,
            port: parts.2@,
            selector: parts.3@,
        }),
{
    let all = to_chars(url);
    let rest = if starts_with(&all, "gopher://") {
        proof {
            reveal_strlit("gopher://");
        }
        let r = slice_chars(&all, 9, all.len());
        assert(r@ =~= all@.skip(9));
        r
    } else {
        all
    };
    let slash = find_char(&rest, '/');
    let authority = slice_chars(&rest, 0, slash);
    assert(authority@ =~= rest@.take(slash as int));
    let path = if slash < rest.len() && slash + 1 < rest.len() {
        let p = slice_chars(&rest, slash + 1, rest.len());
        assert(p@ =~= rest@.skip(slash + 1));
        p
    } else {
        Vec::new()
    };
    assert(path@ =~= after(rest@, slash as int));
    let colon = find_char(&authority, ':');
    let host = range_to_string(&authority, 0, colon);
    assert(host@ =~= authority@.take(colon as int));
    let port = if colon < authority.len() && colon + 1 < authority.len() {
        let s = range_to_string(&authority, colon + 1, authority.len());
        assert(s@ =~= authority@.skip(colon + 1));
        s
    } else {
        String::from_str("70")
    };
    let code = if path.len() > 0 {
        type_for_char(path[0])
    } else {
        None
    };
    match code {
        Some(typ) => {
            let selector = range_to_string(&path, 1, path.len());
            assert(selector@ =~= path@.skip(1));
            (typ, host, port, selector)
        },
        None => {
            let mut selector = String::new();
            if path.len() > 0 {
                selector.append("/");
            }
            crate::chars::push_range(&mut selector, &path, 0, path.len());
            assert(path@.subrange(0, path@.len() as int) =~= path@);
            assert(selector@ =~= if path@.len() > 0 {
                "/"@ + path@
            } else {
                path@
            });
            (Type::Menu, host, port, selector)
        },
    }
}

} // verus!
