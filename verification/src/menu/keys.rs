//! The keys of a menu: what each does to the menu and what the menu
//! answers, with link numbers and search words typed one character at a
//! time.

use vstd::prelude::*;
use vstd::string::*;
use vstd::view::View as _;
use crate::chars::{contains, contains_chars, digit, lowercase, lowercase_chars, to_chars};
use crate::gopher::Type;
use crate::menu::nav::lemma_moves_keep_invariant;
use crate::menu::{Menu, MenuView};
use crate::ui::{Action, ActionView, Key, View};

verus! {

/// Whether `c` is one of the ten decimal digits.
pub open spec fn is_digit(c: char) -> bool {
    '0' <= c && c <= '9'
}

/// The number that the decimal numeral `s` stands for.
pub open spec fn number_value(s: Seq<char>) -> int
    decreases s.len(),
{
    if s.len() == 0 {
        0
    } else {
        number_value(s.drop_last()) * 10 + (s.last() as int - '0' as int)
    }
}

/// The number that the typed text stands for, if it is one to three digits.
pub open spec fn typed_number(input: Seq<char>) -> Option<int> {
    if 1 <= input.len() <= 3 && (forall|i: int|
        0 <= i < input.len() ==> is_digit(#[trigger] input[i])) {
        Some(number_value(input))
    } else {
        None
    }
}

impl MenuView {
    /// Whether the label of link `i` holds `needle`, capitals aside.
    pub open spec fn link_matches(self, i: int, needle: Seq<char>) -> bool {
        contains(lowercase(self.lines[self.links[i]].name), lowercase(needle))
    }

    /// The first link from `from` on whose label holds `needle`, or the
    /// number of links if there is none.
    pub open spec fn find_link(self, needle: Seq<char>, from: int) -> int
        decreases self.count() - from,
    {
        if from >= self.count() {
            self.count()
        } else if self.link_matches(from, needle) {
            from
        } else {
            self.find_link(needle, from + 1)
        }
    }

    /// The menu with `input` as the typed text, and the answer that has the
    /// status line drawn again.
    pub open spec fn edited(self, input: Seq<char>) -> (MenuView, ActionView) {
        let m = MenuView { input, ..self };
        (m, ActionView::Draw(m.status_line()))
    }

    /// The menu after the character `c` is typed, and the answer to it.
    ///
    /// The character joins the typed text. If the text is now the number
    /// of a link, the link is opened at once where no other link's number
    /// begins with these digits, and selected where one does. Otherwise
    /// the first link whose label holds the text, capitals aside, is
    /// selected; if there is none only the status line changes.
    pub open spec fn typed(self, c: char) -> (MenuView, ActionView) {
        let m = MenuView { input: self.input.push(c), ..self };
        let number = typed_number(m.input);
        if number is Some && 1 <= number->0 <= m.count() {
            if m.count() < number->0 * 10 {
                m.follow(number->0 - 1)
            } else {
                m.select(number->0 - 1)
            }
        } else {
            let found = m.find_link(m.input, 0);
            if found < m.count() {
                m.select(found)
            } else {
                (m, ActionView::Draw(m.status_line()))
            }
        }
    }

    /// The menu after the character `c` is typed where, with nothing typed
    /// before, it would have paged: it joins what was typed.
    pub open spec fn typed_or(self, c: char, paged: (MenuView, ActionView)) -> (
        MenuView,
        ActionView,
    ) {
        if self.input.len() == 0 {
            paged
        } else {
            self.edited(self.input.push(c))
        }
    }

    /// The menu after the text typed so far is given up, and the answer to
    /// it; `idle` is the answer where nothing was typed.
    pub open spec fn cancelled(self, idle: ActionView) -> (MenuView, ActionView) {
        if self.input.len() > 0 {
            self.edited(Seq::<char>::empty())
        } else {
            (self, idle)
        }
    }

    /// The menu after the last typed character is taken back, and the
    /// answer to it: with nothing typed the answer is to go back a page.
    pub open spec fn erased(self) -> (MenuView, ActionView) {
        if self.input.len() == 0 {
            (self, ActionView::Back)
        } else {
            self.edited(self.input.drop_last())
        }
    }

    /// The menu after a key, and the answer to it.
    pub open spec fn key(self, key: Key) -> (MenuView, ActionView) {
        match key {
            Key::Up => self.up(),
            Key::Down => self.down(),
            Key::PageUp => self.page_up(),
            Key::PageDown => self.page_down(),
            Key::Backspace => self.erased(),
            Key::Delete => self.erased(),
            Key::Esc => self.cancelled(ActionView::Nothing),
            Key::Ctrl(c) => if c == 'p' {
                self.up()
            } else if c == 'n' {
                self.down()
            } else if c == 'w' {
                (MenuView { wide: !self.wide, ..self }, ActionView::Redraw)
            } else if c == 'c' {
                self.cancelled(ActionView::Quit)
            } else {
                (self, ActionView::Keypress(key))
            },
            Key::Char(c) => if c == '\n' {
                self.open()
            } else if c == '-' {
                self.typed_or(c, self.page_up())
            } else if c == ' ' {
                self.typed_or(c, self.page_down())
            } else {
                self.typed(c)
            },
            _ => (self, ActionView::Keypress(key)),
        }
    }
}

/// Reads the typed text as a link number, if it is one to three digits.
fn read_number(input: &Vec<char>) -> (number: Option<usize>)
    ensures
        match number {
            Some(n) => typed_number(input@) == Some(n as int),
            None => typed_number(input@) is None,
        },
{
    if input.len() < 1 || input.len() > 3 {
        return None;
    }
    let mut n: usize = 0;
    let mut i: usize = 0;
    while i < input.len()
        invariant
            i <= input.len() <= 3,
            forall|j: int| 0 <= j < i ==> is_digit(#[trigger] input@[j]),
            n == number_value(input@.take(i as int)),
            n <= 1000,
            i == 0 ==> n == 0,
            i == 1 ==> n <= 9,
            i == 2 ==> n <= 99,
        decreases input.len() - i,
    {
        let c = input[i];
        if !('0' <= c && c <= '9') {
            return None;
        }
        assert(input@.take(i + 1).drop_last() =~= input@.take(i as int));
        assert(input@.take(i + 1).last() == c);
        n = n * 10 + (c as usize - '0' as usize);
        i += 1;
    }
    assert(input@.take(i as int) =~= input@);
    Some(n)
}

impl Menu {
    /// The first link from `from` on whose label holds `needle`, or the
    /// number of links if there is none.
    fn find_link(&self, needle: &str, from: usize) -> (found: usize)
        requires
            self.wf(),
        ensures
            found == self@.find_link(needle@, from as int),
    {
        let lowered = lowercase_chars(needle);
        let mut i: usize = from;
        while i < self.links.len()
            invariant
                self.wf(),
                from <= i,
                lowered@ == lowercase(needle@),
                self@.find_link(needle@, i as int) == self@.find_link(needle@, from as int),
            decreases self.links.len() - i,
        {
            assert(self.links@[i as int] == self@.links[i as int]);
            let line = &self.lines[self.links[i]];
            assert(line@ == self@.lines[self@.links[i as int]]);
            let name = lowercase_chars(line.name.as_str());
            if contains_chars(&name, &lowered) {
                return i;
            }
            i += 1;
        }
        self.links.len()
    }

    /// The answer that has the status line drawn again.
    fn status(&self) -> (action: Action)
        ensures
            action@ == ActionView::Draw(self@.status_line()),
    {
        Action::Draw(self.redraw_input())
    }

    /// Takes the character `c` as part of a link number or a search word.
    fn action_type(&mut self, c: char) -> (action: Action)
        requires
            old(self).wf(),
        ensures
            final(self).wf(),
            (final(self)@, action@) == old(self)@.typed(c),
    {
        self.input.push(c);
        let count = self.links.len();
        let typed = to_chars(self.input.as_str());
        if let Some(n) = read_number(&typed) {
            if 1 <= n && n <= count {
                assert(n <= 999) by {
                    lemma_number_bound(typed@);
                }
                return if count < n * 10 {
                    self.action_follow_link(n - 1)
                } else {
                    self.action_select_link(n - 1)
                };
            }
        }
        let found = self.find_link(self.input.as_str(), 0);
        if found < count {
            self.action_select_link(found)
        } else {
            self.status()
        }
    }

    /// Takes a key and answers with the action that it calls for.
    pub fn process_key(&mut self, key: Key) -> (action: Action)
        requires
            old(self).wf(),
        ensures
            final(self).wf(),
            (final(self)@, action@) == old(self)@.key(key),
    {
        match key {
            Key::Char('\n') => self.action_open(),
            Key::Up | Key::Ctrl('p') => self.action_up(),
            Key::Down | Key::Ctrl('n') => self.action_down(),
            Key::Ctrl('w') => {
                self.wide = !self.wide;
                Action::Redraw
            },
            Key::Backspace | Key::Delete => {
                if self.input.as_str().is_empty() {
                    Action::Back
                } else {
                    let _ = self.input.pop();
                    self.status()
                }
            },
            Key::Esc => {
                if !self.input.as_str().is_empty() {
                    self.input.clear();
                    self.status()
                } else {
                    Action::Nothing
                }
            },
            Key::Ctrl('c') => {
                if !self.input.as_str().is_empty() {
                    self.input.clear();
                    self.status()
                } else {
                    Action::Quit
                }
            },
            Key::Char('-') => {
                if self.input.as_str().is_empty() {
                    self.action_page_up()
                } else {
                    self.input.push('-');
                    self.status()
                }
            },
            Key::PageUp => self.action_page_up(),
            Key::PageDown => self.action_page_down(),
            Key::Char(' ') => {
                if self.input.as_str().is_empty() {
                    self.action_page_down()
                } else {
                    self.input.push(' ');
                    self.status()
                }
            },
            Key::Char(c) => self.action_type(c),
            _ => Action::Keypress(key),
        }
    }
}

/// A numeral of up to three digits stands for a number below a thousand.
pub proof fn lemma_number_bound(s: Seq<char>)
    requires
        s.len() <= 3,
        forall|i: int| 0 <= i < s.len() ==> is_digit(#[trigger] s[i]),
    ensures
        0 <= number_value(s) <= 999,
        s.len() <= 2 ==> number_value(s) <= 99,
        s.len() <= 1 ==> number_value(s) <= 9,
        s.len() == 0 ==> number_value(s) == 0,
    decreases s.len(),
{
    if s.len() > 0 {
        lemma_number_bound(s.drop_last());
    }
}

/// Typing a character leaves a menu within its invariant and on the same
/// page.
pub proof fn lemma_typed_keeps_invariant(m: MenuView, c: char)
    requires
        m.wf(),
    ensures
        m.typed(c).0.wf(),
        m.same_page(m.typed(c).0),
{
    let typed = MenuView { input: m.input.push(c), ..m };
    let number = typed_number(typed.input);
    if number is Some && 1 <= number->0 <= typed.count() {
        lemma_moves_keep_invariant(typed, number->0 - 1);
    } else {
        lemma_moves_keep_invariant(typed, typed.find_link(typed.input, 0));
    }
}

/// Every key leaves a menu within its invariant and on the same page: its
/// address, its entries and its size stay as they were.
pub proof fn lemma_key_keeps_invariant(m: MenuView, key: Key)
    requires
        m.wf(),
    ensures
        m.key(key).0.wf(),
        m.same_page(m.key(key).0),
{
    lemma_moves_keep_invariant(m, 0);
    match key {
        Key::Char(c) => {
            lemma_typed_keeps_invariant(m, c);
        },
        _ => {},
    }
}

/// Backspace and Delete with nothing typed ask to go back a page and change
/// nothing; with something typed they take back the last character and
/// change nothing else, so the selection and the scroll offset stay.
pub proof fn lemma_backspace(m: MenuView)
    ensures
        m.key(Key::Delete) == m.key(Key::Backspace),
        m.input.len() == 0 ==> m.key(Key::Backspace) == (m, ActionView::Back),
        m.input.len() > 0 ==> m.key(Key::Backspace).0 == (MenuView {
            input: m.input.drop_last(),
            ..m
        }),
        m.key(Key::Backspace).0.link == m.link,
        m.key(Key::Backspace).0.scroll == m.scroll,
{
}

/// With nothing typed yet, a digit from 1 to 9 that is the number of a link
/// opens that link at once if the menu has fewer than ten times as many
/// links, so that no longer number begins with the digit; otherwise it
/// selects the link, keeps the digit and waits.
pub proof fn lemma_first_digit(m: MenuView, d: int)
    requires
        m.wf(),
        m.input.len() == 0,
        1 <= d <= 9,
        d <= m.count(),
    ensures
        typed_number(seq![digit(d as nat)]) == Some(d),
        m.count() < d * 10 ==> m.key(Key::Char(digit(d as nat))) == (MenuView {
            input: seq![digit(d as nat)],
            ..m
        }).follow(d - 1),
        m.count() < d * 10 ==> m.key(Key::Char(digit(d as nat))).0.link == d - 1 && m.key(
            Key::Char(digit(d as nat)),
        ).0.input.len() == 0 && m.key(Key::Char(digit(d as nat))).1 == (if m.lines[m.links[d
            - 1]].typ == Type::Search {
            ActionView::Prompt(m.lines[m.links[d - 1]].name + "> "@, m.lines[m.links[d - 1]].url)
        } else {
            ActionView::Open(m.lines[m.links[d - 1]].url)
        }),
        m.count() >= d * 10 ==> m.key(Key::Char(digit(d as nat))) == (MenuView {
            input: seq![digit(d as nat)],
            ..m
        }).select(d - 1),
        m.count() >= d * 10 ==> m.key(Key::Char(digit(d as nat))).0.link == d - 1 && m.key(
            Key::Char(digit(d as nat)),
        ).0.input == seq![digit(d as nat)] && m.key(Key::Char(digit(d as nat))).1
            == ActionView::Redraw,
{
    let c = digit(d as nat);
    let s = seq![c];
    assert(m.input.push(c) =~= s);
    assert(s.drop_last() =~= Seq::<char>::empty());
    assert(number_value(s.drop_last()) == 0);
    assert(number_value(s) == d);
    assert(c != '\n' && c != '-' && c != ' ');
}

/// After one digit, a second digit that completes the number of a link
/// opens that link at once if no longer number begins with the two digits;
/// otherwise it selects the link and waits. Where the two digits are no
/// link number the typed text is searched for in the labels instead.
pub proof fn lemma_second_digit(m: MenuView, d1: int, d2: int)
    requires
        m.wf(),
        m.input == seq![digit(d1 as nat)],
        1 <= d1 <= 9,
        0 <= d2 <= 9,
    ensures
        typed_number(seq![digit(d1 as nat), digit(d2 as nat)]) == Some(d1 * 10 + d2),
        ({
            let n = d1 * 10 + d2;
            let typed = MenuView { input: seq![digit(d1 as nat), digit(d2 as nat)], ..m };
            let after = m.key(Key::Char(digit(d2 as nat)));
            &&& n <= m.count() && m.count() < n * 10 ==> after == typed.follow(n - 1)
            &&& n <= m.count() && m.count() >= n * 10 ==> after == typed.select(n - 1)
            &&& n > m.count() && typed.find_link(typed.input, 0) < m.count() ==> after
                == typed.select(typed.find_link(typed.input, 0))
            &&& n > m.count() && typed.find_link(typed.input, 0) >= m.count() ==> after == (
                typed,
                ActionView::Draw(typed.status_line()),
            )
        }),
{
    let c1 = digit(d1 as nat);
    let c2 = digit(d2 as nat);
    let s = seq![c1, c2];
    assert(m.input.push(c2) =~= s);
    assert(s.drop_last() =~= seq![c1]);
    assert(seq![c1].drop_last() =~= Seq::<char>::empty());
    assert(number_value(seq![c1].drop_last()) == 0);
    assert(number_value(seq![c1]) == d1);
    assert(number_value(s) == d1 * 10 + d2);
    assert(c2 != '\n' && c2 != '-' && c2 != ' ');
}

impl View for Menu {
    open spec fn wf(&self) -> bool {
        self@.wf()
    }

    open spec fn url_spec(&self) -> Seq<char> {
        self@.url
    }

    open spec fn size_spec(&self) -> (usize, usize) {
        self.size
    }

    open spec fn render_spec(&self) -> Seq<char> {
        self@.render()
    }

    open spec fn answer(&self, key: Key) -> ActionView {
        self@.key(key).1
    }

    open spec fn stepped(&self, key: Key, next: &Self) -> bool {
        next@ == self@.key(key).0
    }

    open spec fn resized(&self, cols: usize, rows: usize, next: &Self) -> bool {
        next@ == (MenuView { cols: cols as int, rows: rows as int, ..self@ })
    }

    fn process_input(&mut self, key: Key) -> (action: Action) {
        proof {
            lemma_key_keeps_invariant(self@, key);
        }
        self.process_key(key)
    }

    fn render(&self) -> (out: String) {
        self.render_lines()
    }

    fn url(&self) -> (url: String) {
        self.url.clone()
    }

    fn set_size(&mut self, cols: usize, rows: usize) {
        self.size = (cols, rows);
    }
}

} // verus!
