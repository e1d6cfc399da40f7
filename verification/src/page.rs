//! A plain page: a response kept as text, with the links found in it and a
//! cursor that moves over them. The page is drawn character by character,
//! without any layout.

use vstd::prelude::*;
use vstd::string::*;
use vstd::view::View as _;
use crate::chars::{
    decimal, push_decimal, range_to_string, slice_chars, split, split_chars, to_chars, trim_end,
    trim_end_len, views,
};
use crate::term::{clear_line, goto};
use crate::ui::Key;

verus! {

/// A link of a page: the four fields of its line.
#[derive(Debug)]
pub struct Link {
    pub name: String,
    pub host: String,
    pub port: String,
    pub selector: String,
}

/// A link as a mathematical value.
pub ghost struct LinkView {
    pub name: Seq<char>,
    pub host: Seq<char>,
    pub port: Seq<char>,
    pub selector: Seq<char>,
}

impl vstd::view::View for Link {
    type V = LinkView;

    open spec fn view(&self) -> LinkView {
        LinkView {
            name: self.name@,
            host: self.host@,
            port: self.port@,
            selector: self.selector@,
        }
    }
}

/// The links that a vector holds.
pub open spec fn link_views(links: Seq<Link>) -> Seq<LinkView> {
    Seq::new(links.len(), |i: int| links[i]@)
}

/// A page: the text of a response, the links found in it, and a cursor.
#[derive(Debug)]
pub struct Page {
    /// The response.
    pub body: String,
    /// The selected link, counted from one; zero if none is selected.
    pub cursor: usize,
    /// Where the response came from.
    pub url: String,
    /// The links of the response, once `parse_links` has found them.
    pub links: Vec<Link>,
}

/// What a key asks of a page.
#[derive(Copy, Clone, PartialEq, Eq, Debug, Structural)]
pub enum Command {
    Up,
    Down,
    Open,
    Quit,
}

/// Field `i` of a line, or nothing if the line has no such field.
pub open spec fn field(fields: Seq<Seq<char>>, i: int) -> Seq<char> {
    if 0 <= i < fields.len() {
        fields[i]
    } else {
        Seq::<char>::empty()
    }
}

/// The link that the text `rest` describes: its fields, separated by tabs,
/// are the name, the selector, the host and the port, in this order; the
/// port is taken without carriage returns at its end.
pub open spec fn link_of(rest: Seq<char>) -> LinkView {
    let fields = split(rest, '\t');
    LinkView {
        name: field(fields, 0),
        selector: field(fields, 1),
        host: field(fields, 2),
        port: trim_end(field(fields, 3), '\r'),
    }
}

/// Whether a line describes a link: it begins with `0` or `1` and has more
/// than that character.
pub open spec fn is_link_line(line: Seq<char>) -> bool {
    line.len() >= 2 && (line[0] == '0' || line[0] == '1')
}

/// The links that the lines `lines` describe, in order.
pub open spec fn links_of(lines: Seq<Seq<char>>) -> Seq<LinkView>
    decreases lines.len(),
{
    if lines.len() == 0 {
        Seq::<LinkView>::empty()
    } else {
        let before = links_of(lines.drop_last());
        if is_link_line(lines.last()) {
            before.push(link_of(lines.last().skip(1)))
        } else {
            before
        }
    }
}

/// The links of a response: those of its lines that a line feed ends.
pub open spec fn page_links(body: Seq<char>) -> Seq<LinkView> {
    links_of(split(body, '\n').drop_last())
}

/// What drawing a page has come to after some of its characters.
pub ghost struct DrawState {
    /// Whether the next character begins a line.
    pub start: bool,
    /// Whether the rest of the line is left out.
    pub skip: bool,
    /// How many links have begun.
    pub links: int,
    /// The colour of the line, as the sequence that sets it.
    pub prefix: Seq<char>,
    /// The text drawn so far.
    pub out: Seq<char>,
}

/// What stands before the text of a line: a star in the first column if
/// the line is the selected link, two blanks otherwise; then the number of
/// the link, right-justified and followed by a dot, or blanks in its place.
pub open spec fn gutter(is_link: bool, selected: bool, number: int) -> Seq<char> {
    (if selected {
        "\x1b[92;1m*\x1b[0m"@
    } else {
        " "@
    }) + " "@ + (if is_link {
        "\x1B[95m"@ + (if number < 10 {
            " "@
        } else {
            Seq::<char>::empty()
        }) + decimal(number as nat) + ". \x1B[0m"@
    } else {
        " "@ + "\x1B[0m"@ + "   "@
    })
}

/// Whether the character `c` at the start of a line begins a link.
pub open spec fn begins_link(c: char) -> bool {
    c == 'h' || c == '0' || c == '1'
}

/// The colour of a line that begins with `c`, where `before` is the colour
/// of the line before: yellow for text, cyan for a web link, blue for a
/// file or a directory, none for anything else; a line that begins with a
/// dot keeps the colour before.
pub open spec fn line_prefix(c: char, before: Seq<char>) -> Seq<char> {
    if c == 'i' {
        "\x1B[93m"@
    } else if c == 'h' {
        "\x1B[96m"@
    } else if c == '0' || c == '1' {
        "\x1B[94m"@
    } else if c == '.' {
        before
    } else {
        Seq::<char>::empty()
    }
}

/// Drawing, one character further. `cursor` is the selected link.
///
/// At the start of a line, a carriage return or a line feed is passed
/// over. Any other character there is the type of the line: it is not
/// drawn, but the gutter and the colour of the line are. Within a line
/// characters are drawn as they are, up to the first tab; from there on
/// the line is left out, and a carriage return, a line feed and the
/// sequence that ends the colour stand for its end.
pub open spec fn draw_step(s: DrawState, c: char, cursor: int) -> DrawState {
    if s.start {
        if c == '\r' || c == '\n' {
            s
        } else {
            let is_link = begins_link(c);
            let links = if is_link {
                s.links + 1
            } else {
                s.links
            };
            let prefix = line_prefix(c, s.prefix);
            DrawState {
                start: false,
                skip: s.skip,
                links,
                prefix,
                out: s.out + gutter(is_link, is_link && cursor > 0 && cursor == links, links)
                    + prefix,
            }
        }
    } else if s.skip {
        if c == '\n' {
            DrawState { start: true, skip: false, out: s.out + "\r\n\x1B[0m"@, ..s }
        } else {
            s
        }
    } else if c == '\t' {
        DrawState { skip: true, ..s }
    } else {
        DrawState { start: c == '\n', out: s.out.push(c), ..s }
    }
}

/// Drawing, after all of `body`.
pub open spec fn draw_run(body: Seq<char>, cursor: int) -> DrawState
    decreases body.len(),
{
    if body.len() == 0 {
        DrawState {
            start: true,
            skip: false,
            links: 0,
            prefix: Seq::<char>::empty(),
            out: Seq::<char>::empty(),
        }
    } else {
        draw_step(draw_run(body.drop_last(), cursor), body.last(), cursor)
    }
}

/// The command that a key stands for, if it stands for one.
pub open spec fn spec_key_command(key: Key) -> Option<Command> {
    match key {
        Key::Ctrl(c) => if c == 'c' {
            Some(Command::Quit)
        } else if c == 'p' {
            Some(Command::Up)
        } else if c == 'n' {
            Some(Command::Down)
        } else {
            None
        },
        Key::Char(c) => if c == 'q' {
            Some(Command::Quit)
        } else if c == '\n' {
            Some(Command::Open)
        } else {
            None
        },
        Key::Up => Some(Command::Up),
        Key::Down => Some(Command::Down),
        _ => None,
    }
}

/// The command that a key stands for, if it stands for one.
#[verifier::when_used_as_spec(spec_key_command)]
pub fn key_command(key: Key) -> (command: Option<Command>)
    ensures
        command == spec_key_command(key),
{
    match key {
        Key::Ctrl('c') | Key::Char('q') => Some(Command::Quit),
        Key::Char('\n') => Some(Command::Open),
        Key::Up | Key::Ctrl('p') => Some(Command::Up),
        Key::Down | Key::Ctrl('n') => Some(Command::Down),
        _ => None,
    }
}

/// What a key that stands for no command does to the text typed so far,
/// and the note that is shown for it: a character joins the text,
/// Backspace and Delete take the last one back, and any other key only
/// leaves a note of itself.
pub open spec fn spec_echo(key: Key, input: Seq<char>) -> (Seq<char>, Seq<char>) {
    match key {
        Key::Char(c) => (input.push(c), Seq::<char>::empty()),
        Key::Alt(c) => (input, "Alt-"@.push(c)),
        Key::Ctrl(c) => (input, "Ctrl-"@.push(c)),
        Key::Left => (input, "<left>"@),
        Key::Right => (input, "<right>"@),
        Key::Backspace => (
            if input.len() > 0 {
                input.drop_last()
            } else {
                input
            },
            Seq::<char>::empty(),
        ),
        Key::Delete => (
            if input.len() > 0 {
                input.drop_last()
            } else {
                input
            },
            Seq::<char>::empty(),
        ),
        _ => (input, "Other"@),
    }
}

/// Takes a key that stands for no command: changes the text typed so far
/// and returns the note to show for the key.
pub fn echo(key: Key, input: &mut String) -> (note: String)
    ensures
        (final(input)@, note@) == spec_echo(key, old(input)@),
{
    match key {
        Key::Char(c) => {
            input.push(c);
            String::new()
        },
        Key::Alt(c) => {
            let mut note = String::from_str("Alt-");
            note.push(c);
            note
        },
        Key::Ctrl(c) => {
            let mut note = String::from_str("Ctrl-");
            note.push(c);
            note
        },
        Key::Left => String::from_str("<left>"),
        Key::Right => String::from_str("<right>"),
        Key::Backspace | Key::Delete => {
            let _ = input.pop();
            String::new()
        },
        _ => String::from_str("Other"),
    }
}

/// The text that shows the prompt on row `row`, with `text` after it.
pub open spec fn spec_prompt_line(row: u16, text: Seq<char>) -> Seq<char> {
    "\x1b["@ + decimal(row as nat) + ";"@ + decimal(1) + "H"@ + "\x1b[2K"@ + "\x1B[92;1m>> \x1B[0m"@
        + text
}

/// The text that puts the cursor on row `row`, clears the row and shows
/// the prompt with `text` after it.
pub fn prompt_line(row: u16, text: &str) -> (out: String)
    ensures
        out@ == spec_prompt_line(row, text@),
{
    let mut out = goto(1, row);
    out.append(clear_line().as_str());
    out.append("\x1B[92;1m>> \x1B[0m");
    out.append(text);
    assert(out@ =~= spec_prompt_line(row, text@));
    out
}

/// The string of field `i`, or an empty one if there is no such field.
fn field_string(fields: &Vec<Vec<char>>, i: usize) -> (s: String)
    ensures
        s@ == field(views(fields@), i as int),
{
    if i < fields.len() {
        let s = range_to_string(&fields[i], 0, fields[i].len());
        assert(s@ =~= fields@[i as int]@);
        s
    } else {
        String::new()
    }
}

/// Builds the link that the rest of a line describes.
fn parse_link(line: &Vec<char>) -> (link: Link)
    requires
        line@.len() >= 1,
    ensures
        link@ == link_of(line@.skip(1)),
{
    let rest = slice_chars(line, 1, line.len());
    assert(rest@ =~= line@.skip(1));
    let fields = split_chars(&rest, '\t');
    let port = if fields.len() > 3 {
        let n = trim_end_len(&fields[3], '\r');
        let s = range_to_string(&fields[3], 0, n);
        assert(s@ =~= fields@[3]@.take(n as int));
        s
    } else {
        String::new()
    };
    Link {
        name: field_string(&fields, 0),
        selector: field_string(&fields, 1),
        host: field_string(&fields, 2),
        port,
    }
}

/// Appends what stands before the text of a line.
fn push_gutter(out: &mut String, is_link: bool, selected: bool, number: usize)
    ensures
        final(out)@ == old(out)@ + gutter(is_link, selected, number as int),
{
    let mut text = String::new();
    if selected {
        text.append("\x1b[92;1m*\x1b[0m");
    } else {
        text.append(" ");
    }
    text.append(" ");
    if is_link {
        text.append("\x1B[95m");
        if number < 10 {
            text.append(" ");
        }
        push_decimal(&mut text, number);
        text.append(". \x1B[0m");
    } else {
        text.append(" ");
        text.append("\x1B[0m");
        text.append("   ");
    }
    assert(text@ =~= gutter(is_link, selected, number as int));
    out.append(text.as_str());
}

impl Page {
    /// A page with the response `body` from `url`, with no link found yet
    /// and none selected.
    pub fn new(url: String, body: String) -> (page: Page)
        ensures
            page.url@ == url@,
            page.body@ == body@,
            page.cursor == 0,
            page.links@.len() == 0,
    {
        Page { body, cursor: 0, url, links: Vec::new() }
    }

    /// Moves the cursor one link up, or off the links from the first.
    pub fn cursor_up(&mut self)
        ensures
            final(self).cursor == (if old(self).cursor > 0 {
                old(self).cursor - 1
            } else {
                0
            }),
            final(self).body == old(self).body,
            final(self).url == old(self).url,
            final(self).links == old(self).links,
    {
        if self.cursor > 0 {
            self.cursor -= 1;
        }
    }

    /// Moves the cursor one link down, unless it is on the last.
    pub fn cursor_down(&mut self)
        ensures
            final(self).cursor == (if old(self).cursor < old(self).links@.len() {
                old(self).cursor + 1
            } else {
                old(self).cursor as int
            }),
            final(self).body == old(self).body,
            final(self).url == old(self).url,
            final(self).links == old(self).links,
    {
        if self.cursor < self.links.len() {
            self.cursor += 1;
        }
    }

    /// The link under the cursor, if the cursor is on one.
    pub fn selected(&self) -> (link: Option<&Link>)
        ensures
            0 < self.cursor <= self.links@.len() ==> link is Some && *link->0
                == self.links@[self.cursor - 1],
            !(0 < self.cursor <= self.links@.len()) ==> link is None,
    {
        if self.cursor > 0 && self.cursor - 1 < self.links.len() {
            Some(&self.links[self.cursor - 1])
        } else {
            None
        }
    }

    /// Carries out a command: moves the cursor, or for `Open` says whether
    /// the cursor is on a link to open.
    pub fn respond(&mut self, command: Command) -> (open: bool)
        ensures
            final(self).body == old(self).body,
            final(self).url == old(self).url,
            final(self).links == old(self).links,
            final(self).cursor == (match command {
                Command::Up => if old(self).cursor > 0 {
                    old(self).cursor - 1
                } else {
                    0
                },
                Command::Down => if old(self).cursor < old(self).links@.len() {
                    old(self).cursor + 1
                } else {
                    old(self).cursor as int
                },
                _ => old(self).cursor as int,
            }),
            open == (command == Command::Open && 0 < old(self).cursor <= old(self).links@.len()),
    {
        match command {
            Command::Up => {
                self.cursor_up();
                false
            },
            Command::Down => {
                self.cursor_down();
                false
            },
            Command::Open => self.cursor > 0 && self.cursor - 1 < self.links.len(),
            Command::Quit => false,
        }
    }

    /// Finds the links of the response anew.
    pub fn parse_links(&mut self)
        ensures
            link_views(final(self).links@) == page_links(old(self).body@),
            final(self).body == old(self).body,
            final(self).url == old(self).url,
            final(self).cursor == old(self).cursor,
    {
        let text = to_chars(self.body.as_str());
        let lines = split_chars(&text, '\n');
        let ghost all = views(lines@);
        proof {
            crate::chars::lemma_split_pieces(text@, '\n');
        }
        let mut links: Vec<Link> = Vec::new();
        let ended = lines.len() - 1;
        let mut k: usize = 0;
        assert(all.drop_last().take(0) =~= Seq::<Seq<char>>::empty());
        while k < ended
            invariant
                k <= ended,
                ended == lines.len() - 1,
                all == views(lines@),
                link_views(links@) == links_of(all.drop_last().take(k as int)),
            decreases ended - k,
        {
            let line = &lines[k];
            proof {
                assert(all.drop_last().take(k + 1).drop_last() =~= all.drop_last().take(k as int));
                assert(all.drop_last().take(k + 1).last() == line@);
            }
            if line.len() >= 2 && (line[0] == '0' || line[0] == '1') {
                let ghost before = link_views(links@);
                let link = parse_link(line);
                let ghost added = link@;
                links.push(link);
                assert(link_views(links@) =~= before.push(added));
            }
            k += 1;
        }
        assert(all.drop_last().take(k as int) =~= all.drop_last());
        self.links = links;
    }

    /// The text that paints the page.
    pub fn draw(&self) -> (out: String)
        ensures
            out@ == draw_run(self.body@, self.cursor as int).out,
    {
        let body = to_chars(self.body.as_str());
        let mut start = true;
        let mut skip_to_end = false;
        let mut links: usize = 0;
        let mut out = String::new();
        let mut prefix: &str = "";
        proof {
            reveal_strlit("");
            assert(body@.take(0) =~= Seq::<char>::empty());
            assert(""@ =~= Seq::<char>::empty());
        }
        let mut i: usize = 0;
        while i < body.len()
            invariant
                i <= body.len(),
                body@ == self.body@,
                links <= i,
                draw_run(body@.take(i as int), self.cursor as int) == (DrawState {
                    start,
                    skip: skip_to_end,
                    links: links as int,
                    prefix: prefix@,
                    out: out@,
                }),
            decreases body.len() - i,
        {
            let c = body[i];
            let ghost before = draw_run(body@.take(i as int), self.cursor as int);
            proof {
                reveal_strlit("");
                assert(""@ =~= Seq::<char>::empty());
                assert(body@.take(i + 1).drop_last() =~= body@.take(i as int));
                assert(body@.take(i + 1).last() == c);
            }
            if start {
                if c != '\r' && c != '\n' {
                    let is_link = c == 'h' || c == '0' || c == '1';
                    if is_link {
                        links += 1;
                    }
                    if c == 'i' {
                        prefix = "\x1B[93m";
                    } else if c == 'h' {
                        prefix = "\x1B[96m";
                    } else if c == '0' || c == '1' {
                        prefix = "\x1B[94m";
                    } else if c != '.' {
                        prefix = "";
                    }
                    push_gutter(
                        &mut out,
                        is_link,
                        is_link && self.cursor > 0 && self.cursor == links,
                        links,
                    );
                    out.append(prefix);
                    start = false;
                }
            } else if skip_to_end {
                if c == '\n' {
                    out.append("\r\n\x1B[0m");
                    start = true;
                    skip_to_end = false;
                }
            } else if c == '\t' {
                skip_to_end = true;
            } else {
                out.push(c);
                if c == '\n' {
                    start = true;
                }
            }
            assert(out@ =~= draw_step(before, c, self.cursor as int).out);
            i += 1;
        }
        assert(body@.take(i as int) =~= body@);
        out
    }
}

} // verus!
