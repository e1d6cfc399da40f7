//! Text views: a response shown line by line, as it came, with a window
//! that scrolls over it.

use vstd::prelude::*;
use vstd::string::*;
use vstd::view::View as _;
use crate::chars::{
    range_to_string, split_terminated, split_terminator, to_chars, trim_end, trim_end_len, views,
};
use crate::ui::{Action, ActionView, Key, View, SCROLL_LINES};

verus! {

/// A text view: the lines of one response and how far they are scrolled.
pub struct Text {
    /// The address of the text.
    pub url: String,
    /// The response as it was received.
    pub raw: String,
    /// The lines of the response, without their line ends.
    pub lines: Vec<String>,
    /// The index of the first line on screen.
    pub scroll: usize,
    /// The size of the terminal: columns, then rows.
    pub size: (usize, usize),
}

/// A text view as a mathematical value.
pub ghost struct TextView {
    pub url: Seq<char>,
    pub raw: Seq<char>,
    pub lines: Seq<Seq<char>>,
    pub scroll: int,
    pub cols: int,
    pub rows: int,
}

/// The character sequences that a vector of strings holds.
pub open spec fn string_views(lines: Seq<String>) -> Seq<Seq<char>> {
    Seq::new(lines.len(), |i: int| lines[i]@)
}

/// Each of `lines` without the carriage returns at its end.
pub open spec fn trimmed(lines: Seq<Seq<char>>) -> Seq<Seq<char>> {
    Seq::new(lines.len(), |i: int| trim_end(lines[i], '\r'))
}

/// The lines of a response: what each line feed ends, without the carriage
/// returns before it.
pub open spec fn text_lines(raw: Seq<char>) -> Seq<Seq<char>> {
    trimmed(split_terminator(raw, '\n'))
}

impl vstd::view::View for Text {
    type V = TextView;

    open spec fn view(&self) -> TextView {
        TextView {
            url: self.url@,
            raw: self.raw@,
            lines: string_views(self.lines@),
            scroll: self.scroll as int,
            cols: self.size.0 as int,
            rows: self.size.1 as int,
        }
    }
}

impl TextView {
    /// The invariant of a text view: the scroll offset is an index into
    /// the lines, or their number.
    pub open spec fn wf(self) -> bool {
        &&& 0 <= self.scroll <= self.lines.len()
        &&& 0 <= self.cols
        &&& 0 <= self.rows
    }

    /// The text view that the response `raw` from `url` gives: its lines,
    /// nothing scrolled, and no size yet.
    pub open spec fn parsed(url: Seq<char>, raw: Seq<char>) -> TextView {
        TextView { url, raw, lines: text_lines(raw), scroll: 0, cols: 0, rows: 0 }
    }

    /// The view one line up, unless it is at its first line.
    pub open spec fn up(self) -> (TextView, ActionView) {
        if self.scroll > 0 {
            (TextView { scroll: self.scroll - 1, ..self }, ActionView::Redraw)
        } else {
            (self, ActionView::Nothing)
        }
    }

    /// The view one line down, unless its last line is the first on
    /// screen.
    pub open spec fn down(self) -> (TextView, ActionView) {
        if self.scroll + 1 < self.lines.len() {
            (TextView { scroll: self.scroll + 1, ..self }, ActionView::Redraw)
        } else {
            (self, ActionView::Nothing)
        }
    }

    /// The view one page up, but not past its first line.
    pub open spec fn page_up(self) -> (TextView, ActionView) {
        if self.scroll > 0 {
            (
                TextView {
                    scroll: if self.scroll > SCROLL_LINES {
                        self.scroll - SCROLL_LINES
                    } else {
                        0
                    },
                    ..self
                },
                ActionView::Redraw,
            )
        } else {
            (self, ActionView::Nothing)
        }
    }

    /// The view one page down, but not past the line one page before its
    /// end, and not at all from there on.
    pub open spec fn page_down(self) -> (TextView, ActionView) {
        let lines = self.lines.len() as int;
        if lines > SCROLL_LINES && self.scroll < lines - SCROLL_LINES {
            (
                TextView {
                    scroll: if self.scroll + SCROLL_LINES < lines - SCROLL_LINES {
                        self.scroll + SCROLL_LINES
                    } else {
                        lines - SCROLL_LINES
                    },
                    ..self
                },
                ActionView::Redraw,
            )
        } else {
            (self, ActionView::Nothing)
        }
    }

    /// The view after a key, and the answer to it. Keys that do not scroll
    /// are left to the session.
    pub open spec fn key(self, key: Key) -> (TextView, ActionView) {
        match key {
            Key::Up => self.up(),
            Key::Down => self.down(),
            Key::PageUp => self.page_up(),
            Key::PageDown => self.page_down(),
            Key::Ctrl(c) => if c == 'p' {
                self.up()
            } else if c == 'n' {
                self.down()
            } else {
                (self, ActionView::Unknown)
            },
            Key::Char(c) => if c == '-' {
                self.page_up()
            } else if c == ' ' {
                self.page_down()
            } else {
                (self, ActionView::Unknown)
            },
            _ => (self, ActionView::Unknown),
        }
    }

    /// The text of the lines `from` up to, not including, `to`, each with
    /// a line feed after it.
    pub open spec fn window_text(self, from: int, to: int) -> Seq<char>
        decreases to - from,
    {
        if to <= from {
            Seq::<char>::empty()
        } else {
            self.window_text(from, to - 1) + self.lines[to - 1] + "\n"@
        }
    }

    /// The index after the last line on screen: the last row of the screen
    /// shows no line.
    pub open spec fn window_end(self) -> int {
        if self.scroll + self.rows - 1 < self.lines.len() {
            self.scroll + self.rows - 1
        } else {
            self.lines.len() as int
        }
    }

    /// The text that paints the view: the lines on screen.
    pub open spec fn render(self) -> Seq<char> {
        self.window_text(self.scroll, self.window_end())
    }
}

impl Text {
    /// The invariant of a text view.
    pub open spec fn wf(&self) -> bool {
        self@.wf()
    }

    /// Makes a text view of a response.
    pub fn from(url: String, response: String) -> (text: Text)
        ensures
            text.wf(),
            text@ == TextView::parsed(url@, response@),
    {
        let chars = to_chars(response.as_str());
        let rows = split_terminated(&chars, '\n');
        let ghost all = views(rows@);
        let mut lines: Vec<String> = Vec::new();
        let mut k: usize = 0;
        while k < rows.len()
            invariant
                k <= rows.len(),
                all == views(rows@),
                string_views(lines@) =~= trimmed(all.take(k as int)),
            decreases rows.len() - k,
        {
            let n = trim_end_len(&rows[k], '\r');
            let line = range_to_string(&rows[k], 0, n);
            assert(rows@[k as int]@ == all[k as int]);
            assert(line@ =~= rows@[k as int]@.take(n as int));
            let ghost before = string_views(lines@);
            let ghost added = line@;
            lines.push(line);
            assert(string_views(lines@) =~= before.push(added));
            assert(trimmed(all.take(k + 1)) =~= trimmed(all.take(k as int)).push(added));
            k += 1;
        }
        assert(all.take(k as int) =~= all);
        Text { url, raw: response, lines, scroll: 0, size: (0, 0) }
    }

    /// Takes a key and answers with the action that it calls for.
    pub fn process_key(&mut self, key: Key) -> (action: Action)
        requires
            old(self).wf(),
        ensures
            final(self).wf(),
            (final(self)@, action@) == old(self)@.key(key),
    {
        let lines = self.lines.len();
        match key {
            Key::Up | Key::Ctrl('p') => {
                if self.scroll > 0 {
                    self.scroll -= 1;
                    Action::Redraw
                } else {
                    Action::Nothing
                }
            },
            Key::Down | Key::Ctrl('n') => {
                if self.scroll < lines && self.scroll + 1 < lines {
                    self.scroll += 1;
                    Action::Redraw
                } else {
                    Action::Nothing
                }
            },
            Key::PageUp | Key::Char('-') => {
                if self.scroll > 0 {
                    if self.scroll > SCROLL_LINES {
                        self.scroll -= SCROLL_LINES;
                    } else {
                        self.scroll = 0;
                    }
                    Action::Redraw
                } else {
                    Action::Nothing
                }
            },
            Key::PageDown | Key::Char(' ') => {
                if lines > SCROLL_LINES && self.scroll < lines - SCROLL_LINES {
                    if self.scroll + SCROLL_LINES < lines - SCROLL_LINES {
                        self.scroll += SCROLL_LINES;
                    } else {
                        self.scroll = lines - SCROLL_LINES;
                    }
                    Action::Redraw
                } else {
                    Action::Nothing
                }
            },
            _ => Action::Unknown,
        }
    }

    /// The text that paints the view.
    pub fn render_lines(&self) -> (out: String)
        requires
            self.wf(),
        ensures
            out@ == self@.render(),
    {
        let mut out = String::new();
        let left = self.lines.len() - self.scroll;
        let end = if self.size.1 == 0 {
            self.scroll
        } else if self.size.1 - 1 < left {
            self.scroll + (self.size.1 - 1)
        } else {
            self.lines.len()
        };
        let mut i: usize = self.scroll;
        while i < end
            invariant
                self.scroll <= i,
                i <= end || end < self.scroll,
                end <= self.lines.len(),
                out@ == self@.window_text(self.scroll as int, i as int),
            decreases end - i,
        {
            out.append(self.lines[i].as_str());
            out.append("\n");
            i += 1;
        }
        out
    }
}

impl View for Text {
    open spec fn wf(&self) -> bool {
        self@.wf()
    }

    open spec fn url_spec(&self) -> Seq<char> {
        self@.url
    }

    open spec fn size_spec(&self) -> (usize, usize) {
        self.size
    }

    open spec fn render_spec(&self) -> Seq<char> {
        self@.render()
    }

    open spec fn answer(&self, key: Key) -> ActionView {
        self@.key(key).1
    }

    open spec fn stepped(&self, key: Key, next: &Self) -> bool {
        next@ == self@.key(key).0
    }

    open spec fn resized(&self, cols: usize, rows: usize, next: &Self) -> bool {
        next@ == (TextView { cols: cols as int, rows: rows as int, ..self@ })
    }

    fn process_input(&mut self, key: Key) -> (action: Action) {
        self.process_key(key)
    }

    fn render(&self) -> (out: String) {
        self.render_lines()
    }

    fn url(&self) -> (url: String) {
        self.url.clone()
    }

    fn set_size(&mut self, cols: usize, rows: usize) {
        self.size = (cols, rows);
    }
}

} // verus!
