//! Gopher menus: parsing a response into lines and links, moving the
//! selection and the scroll offset in answer to keys, and painting the
//! visible window.

use vstd::prelude::*;
use vstd::string::*;
use vstd::view::View as _;

pub mod keys;
pub mod nav;
pub mod render;

use crate::chars::{
    byte_len, lemma_find, lemma_split_first, prefix_is, push_range, range_to_string,
    split_terminated, split_terminator, starts_with, str_len, to_chars, trim_end, trim_end_len,
    views,
};
use crate::gopher::{
    after, spec_parse_url, spec_type_for_char, type_for_char, without_scheme, Type, UrlView,
};

verus! {

/// One entry of a menu.
pub struct Line {
    /// The label shown to the user.
    pub name: String,
    /// The absolute address the entry points at.
    pub url: String,
    /// The kind of resource behind the entry.
    pub typ: Type,
    /// The entry's link number, counted from one; zero for an entry that
    /// is no link.
    pub link: usize,
}

/// A menu entry as a mathematical value.
pub ghost struct LineView {
    pub name: Seq<char>,
    pub url: Seq<char>,
    pub typ: Type,
    pub link: int,
}

impl vstd::view::View for Line {
    type V = LineView;

    open spec fn view(&self) -> LineView {
        LineView { name: self.name@, url: self.url@, typ: self.typ, link: self.link as int }
    }
}

/// The line indices that a vector of links holds.
pub open spec fn index_views(links: Seq<usize>) -> Seq<int> {
    Seq::new(links.len(), |k: int| links[k] as int)
}

/// The entries that a vector of lines holds.
pub open spec fn line_views(lines: Seq<Line>) -> Seq<LineView> {
    Seq::new(lines.len(), |i: int| lines[i]@)
}

/// The address of an entry whose line begins with the type character `code`
/// and has the tab-separated `fields`: the label, then the selector, the
/// host and the port as far as they are given.
///
/// A selector that begins with `URL:` gives the address itself. Otherwise
/// the address is put together from the host, the port unless it is 70,
/// the type character and the selector, with `/` in place of an empty
/// selector.
pub open spec fn line_url(code: char, fields: Seq<Seq<char>>) -> Seq<char> {
    if fields.len() > 1 && "URL:"@.is_prefix_of(fields[1]) {
        fields[1].skip(4)
    } else {
        "gopher://"@ + (if fields.len() > 2 {
            fields[2]
        } else {
            Seq::<char>::empty()
        }) + (if fields.len() > 3 && trim_end(fields[3], '\r') != "70"@ {
            ":"@ + trim_end(fields[3], '\r')
        } else {
            Seq::<char>::empty()
        }) + "/"@.push(code) + (if fields.len() > 1 && fields[1].len() == 0 {
            "/"@
        } else {
            Seq::<char>::empty()
        }) + (if fields.len() > 1 {
            fields[1]
        } else {
            Seq::<char>::empty()
        })
    }
}

/// The entry that the response line `line` of type `typ` stands for, when
/// `number` is the next free link number.
pub open spec fn entry(line: Seq<char>, typ: Type, number: int) -> LineView {
    let fields = split_terminator(line, '\t');
    LineView {
        name: fields[0].skip(1),
        url: line_url(line[0], fields),
        typ,
        link: if typ == Type::Info {
            0
        } else {
            number
        },
    }
}

/// How many of the entries are links.
pub open spec fn link_count(entries: Seq<LineView>) -> int
    decreases entries.len(),
{
    if entries.len() == 0 {
        0
    } else {
        link_count(entries.drop_last()) + if entries.last().typ == Type::Info {
            0int
        } else {
            1int
        }
    }
}

/// The entries of a menu whose response has the lines `rows`. An empty
/// line, or one whose first character names no item type, gives no entry.
/// The links are numbered from one in the order of their lines.
pub open spec fn entries(rows: Seq<Seq<char>>) -> Seq<LineView>
    decreases rows.len(),
{
    if rows.len() == 0 {
        Seq::<LineView>::empty()
    } else {
        let before = entries(rows.drop_last());
        let row = rows.last();
        if row.len() > 0 && spec_type_for_char(row[0]) is Some {
            before.push(entry(row, spec_type_for_char(row[0])->0, link_count(before) + 1))
        } else {
            before
        }
    }
}

/// The entries of the menu that the response `raw` describes.
pub open spec fn parse_entries(raw: Seq<char>) -> Seq<LineView> {
    entries(split_terminator(raw, '\n'))
}

/// The indices of the entries that are links, in order.
pub open spec fn link_lines(entries: Seq<LineView>) -> Seq<int>
    decreases entries.len(),
{
    if entries.len() == 0 {
        Seq::<int>::empty()
    } else {
        let before = link_lines(entries.drop_last());
        if entries.last().link > 0 {
            before.push(entries.len() - 1)
        } else {
            before
        }
    }
}

/// The greatest length in bytes among the labels of the entries.
pub open spec fn longest_name(entries: Seq<LineView>) -> nat
    decreases entries.len(),
{
    if entries.len() == 0 {
        0
    } else {
        let before = longest_name(entries.drop_last());
        if byte_len(entries.last().name) > before {
            byte_len(entries.last().name)
        } else {
            before
        }
    }
}

/// Where a link lies relative to the lines on screen.
#[derive(Copy, Clone, PartialEq, Eq, Debug, Structural)]
pub enum LinkDir {
    Above,
    Below,
    Visible,
}

/// A menu view: the parsed entries of one response, with the state of the
/// cursor, the scroll offset and the text typed so far.
pub struct Menu {
    /// The address of the menu itself.
    pub url: String,
    /// The entries, in the order of the response.
    pub lines: Vec<Line>,
    /// For each link, in order, the index of its entry in `lines`.
    pub links: Vec<usize>,
    /// The length in bytes of the longest label.
    pub longest: usize,
    /// The response as it was received.
    pub raw: String,
    /// What the user has typed towards a link number or a search.
    pub input: String,
    /// The selected link, as an index into `links`.
    pub link: usize,
    /// The index of the first entry on screen.
    pub scroll: usize,
    /// The size of the terminal: columns, then rows.
    pub size: (usize, usize),
    /// Whether entries are drawn at the left edge instead of centred.
    pub wide: bool,
}

/// A menu view as a mathematical value.
pub ghost struct MenuView {
    pub url: Seq<char>,
    pub lines: Seq<LineView>,
    pub links: Seq<int>,
    pub longest: int,
    pub raw: Seq<char>,
    pub input: Seq<char>,
    pub link: int,
    pub scroll: int,
    pub cols: int,
    pub rows: int,
    pub wide: bool,
}

impl vstd::view::View for Menu {
    type V = MenuView;

    open spec fn view(&self) -> MenuView {
        MenuView {
            url: self.url@,
            lines: line_views(self.lines@),
            links: index_views(self.links@),
            longest: self.longest as int,
            raw: self.raw@,
            input: self.input@,
            link: self.link as int,
            scroll: self.scroll as int,
            cols: self.size.0 as int,
            rows: self.size.1 as int,
            wide: self.wide,
        }
    }
}

impl MenuView {
    /// The invariant of a menu view. `links` lists exactly the entries that
    /// are links, in order, and the entries number them from one; the
    /// selection is a link, or zero where there is none; the scroll offset
    /// is an index into the lines, or their number.
    pub open spec fn wf(self) -> bool {
        &&& numbered(self.lines, self.links)
        &&& 0 <= self.link
        &&& self.link < self.links.len() || (self.links.len() == 0 && self.link == 0)
        &&& 0 <= self.scroll <= self.lines.len()
        &&& 0 <= self.cols
        &&& 0 <= self.rows
        &&& 0 <= self.longest
    }
}

/// Whether `links` lists exactly the entries of `lines` that are links, in
/// order, and the entries number their links from one. An entry is a link
/// unless it is informational.
pub open spec fn numbered(lines: Seq<LineView>, links: Seq<int>) -> bool {
    &&& forall|k: int|
        0 <= k < links.len() ==> 0 <= #[trigger] links[k] < lines.len() && lines[links[k]].link
            == k + 1
    &&& forall|i: int|
        0 <= i < lines.len() ==> ((#[trigger] lines[i]).typ == Type::Info <==> lines[i].link
            == 0) && (lines[i].link != 0 ==> 1 <= lines[i].link <= links.len()
            && links[lines[i].link - 1] == i)
    &&& forall|j: int, k: int|
        0 <= j < k < links.len() ==> #[trigger] links[j] < #[trigger] links[k]
}

/// The entries of a response, with the indices of its links, are numbered
/// as a menu needs them.
pub proof fn lemma_entries_numbered(rows: Seq<Seq<char>>)
    ensures
        numbered(entries(rows), link_lines(entries(rows))),
        link_lines(entries(rows)).len() == link_count(entries(rows)),
    decreases rows.len(),
{
    if rows.len() > 0 {
        lemma_entries_numbered(rows.drop_last());
        let before = entries(rows.drop_last());
        let row = rows.last();
        if row.len() > 0 && spec_type_for_char(row[0]) is Some {
            let e = entries(rows);
            assert(e.drop_last() =~= before);
            assert(forall|i: int| 0 <= i < before.len() ==> e[i] == before[i]);
        }
    }
}

/// The address built for an entry leads back to the entry: taken apart
/// again it gives the type that the code stands for, the host, the port
/// without carriage returns, and the selector, or `/` for an empty one.
///
/// This holds of an entry with all four fields whose selector does not
/// begin with `URL:`, whose host holds neither `/` nor `:`, and whose port
/// is not empty and holds no `/`.
pub proof fn lemma_url_leads_back(code: char, fields: Seq<Seq<char>>)
    requires
        spec_type_for_char(code) is Some,
        fields.len() >= 4,
        !"URL:"@.is_prefix_of(fields[1]),
        forall|j: int| 0 <= j < fields[2].len() ==> fields[2][j] != '/' && fields[2][j] != ':',
        trim_end(fields[3], '\r').len() > 0,
        forall|j: int|
            0 <= j < trim_end(fields[3], '\r').len() ==> trim_end(fields[3], '\r')[j] != '/',
    ensures
        spec_parse_url(line_url(code, fields)) == (UrlView {
            typ: spec_type_for_char(code)->0,
            host: fields[2],
            port: trim_end(fields[3], '\r'),
            selector: if fields[1].len() == 0 {
                "/"@
            } else {
                fields[1]
            },
        }),
{
    reveal_strlit("gopher://");
    reveal_strlit("/");
    reveal_strlit(":");
    reveal_strlit("70");
    let host = fields[2];
    let port = trim_end(fields[3], '\r');
    let sel = fields[1];
    let p = if port != "70"@ {
        ":"@ + port
    } else {
        Seq::<char>::empty()
    };
    let s = if sel.len() == 0 {
        "/"@
    } else {
        Seq::<char>::empty()
    };
    let url = line_url(code, fields);
    let rest = host + p + "/"@.push(code) + s + sel;
    assert(url =~= "gopher://"@ + rest);
    assert(url.subrange(0, 9) =~= "gopher://"@);
    assert(without_scheme(url) =~= rest);
    let slash = host.len() + p.len();
    assert(rest[slash as int] == '/');
    assert forall|j: int| 0 <= j < slash implies rest[j] != '/' by {
        if j < host.len() {
            assert(rest[j] == host[j]);
        } else {
            assert(rest[j] == p[j - host.len()]);
            if j > host.len() {
                assert(p[j - host.len()] == port[j - host.len() - 1]);
            }
        }
    }
    lemma_find(rest, '/', slash as int);
    let authority = rest.take(slash as int);
    assert(authority =~= host + p);
    let path = after(rest, slash as int);
    assert(path =~= seq![code] + s + sel);
    assert(path[0] == code);
    assert forall|j: int| 0 <= j < host.len() implies authority[j] != ':' by {
        assert(authority[j] == host[j]);
    }
    lemma_find(authority, ':', host.len() as int);
    assert(authority.take(host.len() as int) =~= host);
    if port != "70"@ {
        assert(after(authority, host.len() as int) =~= port);
    } else {
        assert(after(authority, host.len() as int) =~= Seq::<char>::empty());
    }
    assert(path.skip(1) =~= s + sel);
    assert(s + sel =~= if sel.len() == 0 {
        "/"@
    } else {
        sel
    });
}

/// Builds the address of an entry from the type character of its line and
/// the line's tab-separated fields.
pub fn build_url(code: char, fields: &Vec<Vec<char>>) -> (url: String)
    ensures
        url@ == line_url(code, views(fields@)),
{
    let ghost f = views(fields@);
    if fields.len() > 1 && starts_with(&fields[1], "URL:") {
        proof {
            reveal_strlit("URL:");
        }
        let url = range_to_string(&fields[1], 4, fields[1].len());
        assert(url@ =~= f[1].skip(4));
        return url;
    }
    let mut url = String::from_str("gopher://");
    if fields.len() > 2 {
        push_range(&mut url, &fields[2], 0, fields[2].len());
        assert(fields@[2]@.subrange(0, fields@[2]@.len() as int) =~= f[2]);
    }
    let ghost with_host = url@;
    if fields.len() > 3 {
        let n = trim_end_len(&fields[3], '\r');
        if !prefix_is(&fields[3], n, "70") {
            url.append(":");
            push_range(&mut url, &fields[3], 0, n);
            assert(fields@[3]@.subrange(0, n as int) =~= fields@[3]@.take(n as int));
            assert(url@ =~= with_host + (":"@ + trim_end(f[3], '\r')));
        }
    }
    let ghost with_port = url@;
    url.append("/");
    url.push(code);
    assert(url@ =~= with_port + "/"@.push(code));
    if fields.len() > 1 {
        if fields[1].len() == 0 {
            url.append("/");
        }
        push_range(&mut url, &fields[1], 0, fields[1].len());
        assert(fields@[1]@.subrange(0, fields@[1]@.len() as int) =~= f[1]);
    }
    assert(url@ =~= line_url(code, f));
    url
}

/// Builds the entry for one line of a response.
fn parse_line(row: &Vec<char>, typ: Type, number: usize) -> (line: Line)
    requires
        row@.len() > 0,
        spec_type_for_char(row@[0]) == Some(typ),
    ensures
        line@ == entry(row@, typ, number as int),
{
    let fields = split_terminated(row, '\t');
    proof {
        assert(row@[0] != '\t');
        lemma_split_first(row@, '\t');
    }
    let name = range_to_string(&fields[0], 1, fields[0].len());
    assert(name@ =~= views(fields@)[0].skip(1));
    let url = build_url(row[0], &fields);
    let link = if typ == Type::Info {
        0
    } else {
        number
    };
    Line { name, url, typ, link }
}

impl Menu {
    /// The invariant of a menu view.
    pub open spec fn wf(&self) -> bool {
        self@.wf()
    }

    /// The response as it was received.
    pub fn raw(&self) -> (raw: String)
        ensures
            raw@ == self@.raw,
    {
        self.raw.clone()
    }

    /// Parses a response into a menu view.
    pub fn from(url: String, response: String) -> (menu: Menu)
        ensures
            menu.wf(),
            menu@ == Menu::parsed(url@, response@),
    {
        Self::parse(url, response)
    }

    /// The menu view that parsing the response `raw` from `url` gives: its
    /// entries, the indices of those that are links, the first link
    /// selected, nothing typed, nothing scrolled, and no size yet.
    pub open spec fn parsed(url: Seq<char>, raw: Seq<char>) -> MenuView {
        let lines = parse_entries(raw);
        MenuView {
            url,
            lines,
            links: link_lines(lines),
            longest: longest_name(lines) as int,
            raw,
            input: Seq::<char>::empty(),
            link: 0,
            scroll: 0,
            cols: 0,
            rows: 0,
            wide: false,
        }
    }

    /// Parses a response into a menu view.
    pub fn parse(url: String, raw: String) -> (menu: Menu)
        ensures
            menu.wf(),
            menu@ == Menu::parsed(url@, raw@),
    {
        let text = to_chars(raw.as_str());
        let rows = split_terminated(&text, '\n');
        let ghost all = views(rows@);
        let mut lines: Vec<Line> = Vec::new();
        let mut links: Vec<usize> = Vec::new();
        let mut longest: usize = 0;
        let mut k: usize = 0;
        assert(all.take(0) =~= Seq::<Seq<char>>::empty());
        while k < rows.len()
            invariant
                k <= rows.len(),
                all == views(rows@),
                lines@.len() <= k,
                line_views(lines@) == entries(all.take(k as int)),
                index_views(links@) == link_lines(line_views(lines@)),
                links@.len() == link_count(line_views(lines@)),
                links@.len() <= lines@.len(),
                longest == longest_name(line_views(lines@)),
            decreases rows.len() - k,
        {
            let row = &rows[k];
            proof {
                assert(all.take(k + 1).drop_last() =~= all.take(k as int));
                assert(all.take(k + 1).last() == row@);
            }
            if row.len() > 0 {
                if let Some(typ) = type_for_char(row[0]) {
                    let line = parse_line(row, typ, links.len() + 1);
                    let ghost before = line_views(lines@);
                    let ghost before_links = index_views(links@);
                    let width = str_len(line.name.as_str());
                    if width > longest {
                        longest = width;
                    }
                    if line.link > 0 {
                        links.push(lines.len());
                    }
                    let ghost added = line@;
                    lines.push(line);
                    proof {
                        assert(line_views(lines@) =~= before.push(added));
                        assert(before.push(added).drop_last() =~= before);
                        if added.link > 0 {
                            assert(index_views(links@) =~= before_links.push(before.len() as int));
                        } else {
                            assert(index_views(links@) =~= before_links);
                        }
                    }
                }
            }
            k += 1;
        }
        assert(all.take(k as int) =~= all);
        proof {
            lemma_entries_numbered(all);
        }
        Menu {
            url,
            lines,
            links,
            longest,
            raw,
            input: String::new(),
            link: 0,
            scroll: 0,
            size: (0, 0),
            wide: false,
        }
    }
}

} // verus!
