//! Painting a menu: the text of each entry, of the lines on screen, and of
//! the status line that shows what was typed.

use vstd::prelude::*;
use vstd::string::*;
use vstd::view::View as _;
use crate::chars::{byte_len, decimal, push_decimal, push_range, push_spaces, spaces, str_len, to_chars};
use crate::gopher::Type;
use crate::menu::{Line, LineView, Menu, MenuView};
use crate::term::{clear_line, goto};
use crate::ui::MAX_COLS;

verus! {

/// The colour code that entries of type `typ` are drawn in.
pub open spec fn color(typ: Type) -> Seq<char> {
    match typ {
        Type::Text => "96"@,
        Type::Menu => "94"@,
        Type::Info => "93"@,
        Type::HTML => "92"@,
        Type::Error => "91"@,
        _ => if typ.spec_is_download() {
            "4;97"@
        } else {
            "0"@
        },
    }
}

/// A label as it is drawn: whole, or cut after `MAX_COLS` characters and
/// followed by three dots if it is longer than `MAX_COLS` bytes.
pub open spec fn shown_name(name: Seq<char>) -> Seq<char> {
    if byte_len(name) > MAX_COLS {
        name.take(
            if name.len() < MAX_COLS {
                name.len() as int
            } else {
                MAX_COLS as int
            },
        ) + "..."@
    } else {
        name
    }
}

/// The label of an entry as it is drawn, in the colour of the entry's type
/// and with a line feed after it.
pub open spec fn label(line: LineView) -> Seq<char> {
    "\x1b["@ + color(line.typ) + "m"@ + shown_name(line.name) + "\x1b[0m"@ + "\n"@
}

/// The row of the status line, as the terminal is told it: the number of
/// rows, cut to sixteen bits.
pub open spec fn status_row(rows: int) -> int {
    rows % 0x10000
}

impl MenuView {
    /// How many blanks stand before each entry to centre the menu: half of
    /// what the longest label, taken as `MAX_COLS` wide at most, leaves of
    /// the columns, less the six columns of the link number.
    pub open spec fn indent(self) -> int {
        let longest = if self.longest > MAX_COLS {
            MAX_COLS as int
        } else {
            self.longest
        };
        if longest > self.cols {
            0
        } else {
            let left = (self.cols - longest) / 2;
            if left > 6 {
                left - 6
            } else {
                0
            }
        }
    }

    /// The blanks that stand before an entry: the indent, or nothing if the
    /// menu is wide.
    pub open spec fn margin(self) -> Seq<char> {
        if self.wide {
            Seq::<char>::empty()
        } else {
            spaces(self.indent() as nat)
        }
    }

    /// The six columns before a label: for a link a star if it is selected,
    /// else a blank, then its number, right-justified, with a dot; for
    /// other entries six blanks.
    pub open spec fn gutter(self, line: LineView) -> Seq<char> {
        if line.typ == Type::Info {
            "      "@
        } else {
            (if line.link - 1 == self.link {
                "\x1b[97;1m*\x1b[0m"@
            } else {
                " "@
            }) + " "@ + "\x1b[95m"@ + (if line.link < 10 {
                " "@
            } else {
                Seq::<char>::empty()
            }) + decimal(line.link as nat) + ".\x1b[0m "@
        }
    }

    /// The text of one entry: the margin, the gutter, the label in the
    /// colour of its type, and a line feed.
    pub open spec fn line_text(self, line: LineView) -> Seq<char> {
        self.margin() + self.gutter(line) + label(line)
    }

    /// The text of the entries `from` up to, not including, `to`.
    pub open spec fn window_text(self, from: int, to: int) -> Seq<char>
        decreases to - from,
    {
        if to <= from {
            Seq::<char>::empty()
        } else {
            self.window_text(from, to - 1) + self.line_text(self.lines[to - 1])
        }
    }

    /// The index after the last entry on screen.
    pub open spec fn window_end(self) -> int {
        if self.scroll + self.rows - 1 < self.lines.len() {
            self.scroll + self.rows - 1
        } else {
            self.lines.len() as int
        }
    }

    /// The text that puts the cursor on the last row, clears it and shows
    /// what was typed.
    pub open spec fn status_line(self) -> Seq<char> {
        "\x1b["@ + decimal(status_row(self.rows) as nat) + ";"@ + decimal(1) + "H"@ + "\x1b[2K"@
            + self.input
    }

    /// The text that paints the menu: the entries on screen, then the
    /// status line.
    pub open spec fn render(self) -> Seq<char> {
        self.window_text(self.scroll, self.window_end()) + self.status_line()
    }
}

/// Appends a label as it is drawn.
fn push_name(out: &mut String, name: &str)
    ensures
        final(out)@ == old(out)@ + shown_name(name@),
{
    if str_len(name) > MAX_COLS {
        let chars = to_chars(name);
        let n = if chars.len() < MAX_COLS {
            chars.len()
        } else {
            MAX_COLS
        };
        push_range(out, &chars, 0, n);
        out.append("...");
        assert(chars@.subrange(0, n as int) =~= name@.take(n as int));
        assert(out@ =~= old(out)@ + shown_name(name@));
    } else {
        out.append(name);
    }
}

/// Appends the colour code for `typ`.
fn push_color(out: &mut String, typ: Type)
    ensures
        final(out)@ == old(out)@ + color(typ),
{
    match typ {
        Type::Text => out.append("96"),
        Type::Menu => out.append("94"),
        Type::Info => out.append("93"),
        Type::HTML => out.append("92"),
        Type::Error => out.append("91"),
        _ => if typ.is_download() {
            out.append("4;97")
        } else {
            out.append("0")
        },
    }
}

/// The label of an entry as it is drawn.
fn label_text(line: &Line) -> (out: String)
    ensures
        out@ == label(line@),
{
    let mut out = String::from_str("\x1b[");
    push_color(&mut out, line.typ);
    out.append("m");
    push_name(&mut out, line.name.as_str());
    out.append("\x1b[0m");
    out.append("\n");
    out
}

impl Menu {
    /// How many blanks stand before each entry to centre the menu.
    pub fn indent(&self) -> (n: usize)
        ensures
            n == self@.indent(),
    {
        let longest = if self.longest > MAX_COLS {
            MAX_COLS
        } else {
            self.longest
        };
        if longest > self.size.0 {
            0
        } else {
            let left = (self.size.0 - longest) / 2;
            if left > 6 {
                left - 6
            } else {
                0
            }
        }
    }

    /// The six columns before the label of `line`.
    fn gutter(&self, line: &Line) -> (out: String)
        ensures
            out@ == self@.gutter(line@),
    {
        let mut out = String::new();
        if line.typ == Type::Info {
            out.append("      ");
        } else {
            if line.link > 0 && line.link - 1 == self.link {
                out.append("\x1b[97;1m*\x1b[0m");
            } else {
                out.append(" ");
            }
            out.append(" ");
            out.append("\x1b[95m");
            if line.link < 10 {
                out.append(" ");
            }
            push_decimal(&mut out, line.link);
            out.append(".\x1b[0m ");
        }
        assert(out@ =~= self@.gutter(line@));
        out
    }

    /// Appends the text of one entry.
    fn push_line(&self, out: &mut String, line: &Line, indent: usize)
        requires
            indent == self@.indent(),
        ensures
            final(out)@ == old(out)@ + self@.line_text(line@),
    {
        if !self.wide {
            push_spaces(out, indent);
        }
        assert(out@ =~= old(out)@ + self@.margin());
        out.append(self.gutter(line).as_str());
        out.append(label_text(line).as_str());
        assert(out@ =~= old(out)@ + self@.line_text(line@));
    }

    /// The text that puts the cursor on the last row, clears it and shows
    /// what was typed.
    pub fn redraw_input(&self) -> (out: String)
        ensures
            out@ == self@.status_line(),
    {
        let row: u16 = (self.size.1 % 0x10000) as u16;
        let mut out = goto(1, row);
        out.append(clear_line().as_str());
        out.append(self.input.as_str());
        assert(out@ =~= self@.status_line());
        out
    }

    /// The text that paints the menu.
    pub fn render_lines(&self) -> (out: String)
        requires
            self.wf(),
        ensures
            out@ == self@.render(),
    {
        let mut out = String::new();
        let indent = self.indent();
        let left = self.lines.len() - self.scroll;
        let end = if self.size.1 == 0 {
            self.scroll
        } else if self.size.1 - 1 < left {
            self.scroll + (self.size.1 - 1)
        } else {
            self.lines.len()
        };
        let mut i: usize = self.scroll;
        while i < end
            invariant
                self.scroll <= i,
                i <= end || end < self.scroll,
                end <= self.lines.len(),
                indent == self@.indent(),
                out@ == self@.window_text(self.scroll as int, i as int),
            decreases end - i,
        {
            let line = &self.lines[i];
            self.push_line(&mut out, line, indent);
            i += 1;
        }
        let status = self.redraw_input();
        out.append(status.as_str());
        out
    }
}

} // verus!
