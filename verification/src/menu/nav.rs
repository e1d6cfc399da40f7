//! Moving through a menu: single steps, pages, and direct selection of a
//! link, each as a function on the menu's mathematical value and as the
//! method that carries it out.

use vstd::prelude::*;
use vstd::string::*;
use vstd::view::View as _;
use crate::gopher::Type;
use crate::menu::{Line, LinkDir, Menu, MenuView};
use crate::ui::{Action, ActionView, SCROLL_LINES};

verus! {

/// Where the line `pos` lies when the screen has `rows` rows and begins at
/// line `scroll`. The last row of the screen shows no line, so the lines
/// on screen are those from `scroll` to `scroll + rows - 2`.
pub open spec fn direction(pos: int, scroll: int, rows: int) -> LinkDir {
    if pos < scroll {
        LinkDir::Above
    } else if pos >= scroll + rows - 1 {
        LinkDir::Below
    } else {
        LinkDir::Visible
    }
}

impl MenuView {
    /// The number of links.
    pub open spec fn count(self) -> int {
        self.links.len() as int
    }

    /// Where link `i` lies relative to the screen, if there is such a link.
    pub open spec fn visibility(self, i: int) -> Option<LinkDir> {
        if 0 <= i < self.count() {
            Some(direction(self.links[i], self.scroll, self.rows))
        } else {
            None
        }
    }

    /// Whether link `i` exists and is on screen.
    pub open spec fn visible(self, i: int) -> bool {
        self.visibility(i) == Some(LinkDir::Visible)
    }

    /// The first link from `from` on that is on screen, or the number of
    /// links if there is none.
    pub open spec fn next_visible(self, from: int) -> int
        decreases self.count() - from,
    {
        if from >= self.count() {
            self.count()
        } else if self.visible(from) {
            from
        } else {
            self.next_visible(from + 1)
        }
    }

    /// The last link up to `from` that is on screen, or -1 if there is
    /// none.
    pub open spec fn prev_visible(self, from: int) -> int
        decreases from + 1,
    {
        if from < 0 {
            -1
        } else if self.visible(from) {
            from
        } else {
            self.prev_visible(from - 1)
        }
    }

    /// The menu one line further down, unless it is at its end already.
    pub open spec fn scrolled_down(self) -> MenuView {
        if self.scroll < self.lines.len() {
            MenuView { scroll: self.scroll + 1, ..self }
        } else {
            self
        }
    }

    /// The menu after a step up, and the answer to it.
    ///
    /// With the first link selected the menu scrolls up by one line. Else
    /// the link before the selected one is the target: on screen it is
    /// selected; above the screen the menu scrolls up by one line and
    /// selects it if that brought it on screen; below the screen the menu
    /// jumps to its line and selects it.
    pub open spec fn up(self) -> (MenuView, ActionView) {
        if self.link == 0 {
            if self.scroll > 0 {
                (MenuView { scroll: self.scroll - 1, ..self }, ActionView::Redraw)
            } else {
                (self, ActionView::Nothing)
            }
        } else {
            let target = self.link - 1;
            match direction(self.links[target], self.scroll, self.rows) {
                LinkDir::Above => {
                    let moved = MenuView { scroll: self.scroll - 1, ..self };
                    if moved.visible(target) {
                        (MenuView { link: target, ..moved }, ActionView::Redraw)
                    } else {
                        (moved, ActionView::Redraw)
                    }
                },
                LinkDir::Below => (
                    MenuView { scroll: self.links[target], link: target, ..self },
                    ActionView::Redraw,
                ),
                LinkDir::Visible => (MenuView { link: target, ..self }, ActionView::Redraw),
            }
        }
    }

    /// Whether a step down scrolls by one line and leaves the selection
    /// alone: the last link is selected, and either lines are left below
    /// the screen, or the menu is scrolled past its first page and by less
    /// than a page more than it has links.
    pub open spec fn down_scrolls(self) -> bool {
        &&& self.link + 1 == self.count()
        &&& self.scroll < self.lines.len()
        &&& self.lines.len() > self.rows + self.scroll - 1 || (self.scroll > SCROLL_LINES
            && self.count() > self.scroll - SCROLL_LINES)
    }

    /// The menu after a step down, and the answer to it.
    ///
    /// Where `down_scrolls` holds the menu scrolls by one line. Else the
    /// link after the selected one, if there is one, is the target: on
    /// screen it is selected; below the screen the menu scrolls down by one
    /// line and selects it if that brought it on screen; above the screen
    /// the menu jumps to its line and selects it.
    pub open spec fn down(self) -> (MenuView, ActionView) {
        if self.down_scrolls() {
            (MenuView { scroll: self.scroll + 1, ..self }, ActionView::Redraw)
        } else if self.link + 1 < self.count() {
            let target = self.link + 1;
            match direction(self.links[target], self.scroll, self.rows) {
                LinkDir::Above => (
                    MenuView { scroll: self.links[target], link: target, ..self },
                    ActionView::Redraw,
                ),
                LinkDir::Below => {
                    let moved = self.scrolled_down();
                    if moved.visible(target) {
                        (MenuView { link: target, ..moved }, ActionView::Redraw)
                    } else {
                        (moved, ActionView::Redraw)
                    }
                },
                LinkDir::Visible => (MenuView { link: target, ..self }, ActionView::Redraw),
            }
        } else {
            (self, ActionView::Nothing)
        }
    }

    /// Whether `other` shows the same document on the same screen: only
    /// the selection, the scroll offset, the typed text and the wide mode
    /// may differ.
    pub open spec fn same_page(self, other: MenuView) -> bool {
        &&& other.url == self.url
        &&& other.lines == self.lines
        &&& other.links == self.links
        &&& other.longest == self.longest
        &&& other.raw == self.raw
        &&& other.cols == self.cols
        &&& other.rows == self.rows
    }

    /// The menu scrolled down by a page, but not past the line one page
    /// before its end.
    pub open spec fn paged_down(self) -> MenuView {
        MenuView {
            scroll: if self.scroll + SCROLL_LINES < self.lines.len() - SCROLL_LINES {
                self.scroll + SCROLL_LINES
            } else {
                self.lines.len() - SCROLL_LINES
            },
            ..self
        }
    }

    /// The menu scrolled up by a page, but not past its first line.
    pub open spec fn paged_up(self) -> MenuView {
        MenuView {
            scroll: if self.scroll > SCROLL_LINES {
                self.scroll - SCROLL_LINES
            } else {
                0
            },
            ..self
        }
    }

    /// The menu after a page down, and the answer to it.
    ///
    /// The menu scrolls down by a page, but not past the line one page
    /// before its end, and not at all from there on. If the selected link
    /// is no longer on screen, the first link after it that is on screen is
    /// selected, if there is one.
    pub open spec fn page_down(self) -> (MenuView, ActionView) {
        let lines = self.lines.len() as int;
        if lines > SCROLL_LINES && self.scroll < lines - SCROLL_LINES {
            let moved = self.paged_down();
            let found = moved.next_visible(self.link);
            if found < self.count() {
                (MenuView { link: found, ..moved }, ActionView::Redraw)
            } else {
                (moved, ActionView::Redraw)
            }
        } else {
            (self, ActionView::Nothing)
        }
    }

    /// The menu after a page up, and the answer to it.
    ///
    /// The menu scrolls up by a page, but not past its first line. If the
    /// selected link is no longer on screen, the last link before it that
    /// is on screen is selected, if there is one. At the first line
    /// already, the first link is selected instead.
    pub open spec fn page_up(self) -> (MenuView, ActionView) {
        if self.scroll > 0 {
            let moved = self.paged_up();
            let found = moved.prev_visible(self.link);
            if found >= 0 {
                (MenuView { link: found, ..moved }, ActionView::Redraw)
            } else {
                (moved, ActionView::Redraw)
            }
        } else if self.link > 0 {
            (MenuView { link: 0, ..self }, ActionView::Redraw)
        } else {
            (self, ActionView::Nothing)
        }
    }

    /// The menu after link `i` is selected, and the answer to it.
    ///
    /// If the link is not on screen the menu scrolls so that the link's
    /// line is one page below the first line on screen, or to its first
    /// line where the link lies within the first page. Where there is no
    /// link `i` nothing changes.
    pub open spec fn select(self, i: int) -> (MenuView, ActionView) {
        if 0 <= i < self.count() {
            let line = self.links[i];
            let scroll = if self.visible(i) {
                self.scroll
            } else if line > SCROLL_LINES {
                line - SCROLL_LINES
            } else {
                0
            };
            (MenuView { scroll, link: i, ..self }, ActionView::Redraw)
        } else {
            (self, ActionView::Nothing)
        }
    }

    /// The menu after the selected link is opened, and the answer to it.
    ///
    /// What was typed is forgotten. The answer is to open the link's
    /// address, or for a search entry to ask for a query first, with the
    /// entry's label and `> ` as the message; without a selected link
    /// there is nothing to do.
    pub open spec fn open(self) -> (MenuView, ActionView) {
        let cleared = MenuView { input: Seq::<char>::empty(), ..self };
        if 0 <= self.link < self.count() {
            let line = self.lines[self.links[self.link]];
            if line.typ == Type::Search {
                (cleared, ActionView::Prompt(line.name + "> "@, line.url))
            } else {
                (cleared, ActionView::Open(line.url))
            }
        } else {
            (cleared, ActionView::Nothing)
        }
    }

    /// The menu after link `i` is selected and opened at once, and the
    /// answer to it.
    pub open spec fn follow(self, i: int) -> (MenuView, ActionView) {
        self.select(i).0.open()
    }
}

/// The link that a search forward finds is at or after its start, and is
/// on screen if it is a link at all.
pub proof fn lemma_next_visible(m: MenuView, from: int)
    requires
        0 <= from,
    ensures
        from <= m.next_visible(from) || m.next_visible(from) == m.count(),
        m.next_visible(from) < m.count() ==> m.visible(m.next_visible(from)),
    decreases m.count() - from,
{
    if from < m.count() && !m.visible(from) {
        lemma_next_visible(m, from + 1);
    }
}

/// The link that a search backward finds is at or before its start, and is
/// on screen if it is a link at all.
pub proof fn lemma_prev_visible(m: MenuView, from: int)
    ensures
        -1 <= m.prev_visible(from),
        m.prev_visible(from) <= from || m.prev_visible(from) == -1,
        m.prev_visible(from) >= 0 ==> m.visible(m.prev_visible(from)),
    decreases from + 1,
{
    if from >= 0 && !m.visible(from) {
        lemma_prev_visible(m, from - 1);
    }
}

/// Steps, pages and direct selection keep a menu within its invariant:
/// the selection stays a link and the scroll offset stays within the lines.
pub proof fn lemma_moves_keep_invariant(m: MenuView, i: int)
    requires
        m.wf(),
    ensures
        m.up().0.wf() && m.same_page(m.up().0),
        m.down().0.wf() && m.same_page(m.down().0),
        m.page_up().0.wf() && m.same_page(m.page_up().0),
        m.page_down().0.wf() && m.same_page(m.page_down().0),
        m.select(i).0.wf() && m.same_page(m.select(i).0),
        m.open().0.wf() && m.same_page(m.open().0),
        m.follow(i).0.wf() && m.same_page(m.follow(i).0),
{
    lemma_next_visible(m.paged_down(), m.link);
    lemma_prev_visible(m.paged_up(), m.link);
    if m.link > 0 {
        assert(0 <= m.links[m.link - 1] < m.lines.len());
    }
    if m.link + 1 < m.count() {
        assert(0 <= m.links[m.link + 1] < m.lines.len());
    }
    if 0 <= i < m.count() {
        assert(0 <= m.links[i] < m.lines.len());
    }
}

/// A step or a page that moves the selection moves it to a link that is on
/// screen afterwards.
///
/// For a step this holds on a screen of two rows or more: a smaller one
/// shows no line at all. For a page up it holds unless the menu was at its
/// first line already, where the first link is selected wherever it lies.
pub proof fn lemma_moved_selection_on_screen(m: MenuView)
    requires
        m.wf(),
    ensures
        m.rows >= 2 && m.up().0.link != m.link ==> m.up().0.visible(m.up().0.link),
        m.rows >= 2 && m.down().0.link != m.link ==> m.down().0.visible(m.down().0.link),
        m.page_down().0.link != m.link ==> m.page_down().0.visible(m.page_down().0.link),
        m.scroll > 0 && m.page_up().0.link != m.link ==> m.page_up().0.visible(
            m.page_up().0.link,
        ),
        m.scroll == 0 && m.link > 0 ==> m.page_up().0.link == 0 && (m.page_up().0.visible(0)
            <==> m.links[0] + 2 <= m.rows),
{
    lemma_next_visible(m.paged_down(), m.link);
    lemma_prev_visible(m.paged_up(), m.link);
    if m.link > 0 {
        assert(0 <= m.links[m.link - 1] < m.lines.len());
        assert(0 <= m.links[0] < m.lines.len());
    }
    if m.link + 1 < m.count() {
        assert(0 <= m.links[m.link + 1] < m.lines.len());
    }
}

/// Selecting a link makes it the selection, and leaves it on screen
/// exactly if it was on screen before or the screen has two rows more than
/// the lines that then stand above the link: a page of them, or all that
/// the menu has before it where those are fewer.
pub proof fn lemma_selected_link_on_screen(m: MenuView, i: int)
    requires
        m.wf(),
        0 <= i < m.count(),
    ensures
        m.select(i).0.link == i,
        m.follow(i).0.link == i,
        m.select(i).0.visible(i) <==> m.visible(i) || (if m.links[i] < SCROLL_LINES {
            m.links[i]
        } else {
            SCROLL_LINES as int
        }) + 2 <= m.rows,
        m.follow(i).0.visible(i) <==> m.select(i).0.visible(i),
{
    assert(0 <= m.links[i] < m.lines.len());
}

/// The answer to a query typed for the search entry at `url`: to open the
/// address with `?` and the query behind it, or nothing if the user gave
/// none.
pub open spec fn spec_search_action(url: Seq<char>, query: Option<Seq<char>>) -> ActionView {
    match query {
        Some(q) => ActionView::Open(url + "?"@ + q),
        None => ActionView::Nothing,
    }
}

/// Turns the user's answer to a search prompt into an action.
pub fn search_action(url: &str, query: Option<String>) -> (action: Action)
    ensures
        action@ == spec_search_action(
            url@,
            match query {
                Some(q) => Some(q@),
                None => None,
            },
        ),
{
    match query {
        Some(q) => {
            let mut target = String::from_str(url);
            target.append("?");
            target.append(q.as_str());
            Action::Open(target)
        },
        None => Action::Nothing,
    }
}

impl Menu {
    /// The entry of link `i`, if there is such a link.
    pub fn link(&self, i: usize) -> (line: Option<&Line>)
        requires
            self.wf(),
        ensures
            i < self@.count() ==> line is Some && (*line->0)@ == self@.lines[self@.links[i as int]],
            i >= self@.count() ==> line is None,
    {
        if i < self.links.len() {
            assert(self.links@[i as int] == self@.links[i as int]);
            Some(&self.lines[self.links[i]])
        } else {
            None
        }
    }

    /// Where link `i` lies relative to the screen, if there is such a link.
    pub fn link_visibility(&self, i: usize) -> (dir: Option<LinkDir>)
        requires
            self.wf(),
        ensures
            dir == self@.visibility(i as int),
    {
        if i < self.links.len() {
            let pos = self.links[i];
            assert(pos == self@.links[i as int]);
            assert(pos < self.lines.len());
            Some(
                if pos < self.scroll {
                    LinkDir::Above
                } else if pos - self.scroll + 1 >= self.size.1 {
                    LinkDir::Below
                } else {
                    LinkDir::Visible
                },
            )
        } else {
            None
        }
    }

    /// Whether link `i` exists and is on screen.
    fn link_visible(&self, i: usize) -> (b: bool)
        requires
            self.wf(),
        ensures
            b == self@.visible(i as int),
    {
        match self.link_visibility(i) {
            Some(LinkDir::Visible) => true,
            _ => false,
        }
    }

    /// Scrolls up by a line or moves the selection to the link before.
    pub fn action_up(&mut self) -> (action: Action)
        requires
            old(self).wf(),
        ensures
            final(self).wf(),
            (final(self)@, action@) == old(self)@.up(),
    {
        if self.link == 0 {
            return if self.scroll > 0 {
                self.scroll -= 1;
                Action::Redraw
            } else {
                Action::Nothing
            };
        }
        let target = self.link - 1;
        let pos = self.links[target];
        assert(pos == self@.links[target as int]);
        match self.link_visibility(target) {
            Some(LinkDir::Above) => {
                self.scroll -= 1;
                if self.link_visible(target) {
                    self.link = target;
                }
            },
            Some(LinkDir::Below) => {
                self.scroll = pos;
                self.link = target;
            },
            _ => {
                self.link = target;
            },
        }
        Action::Redraw
    }

    /// Whether a step down scrolls and leaves the selection alone.
    fn down_scrolls(&self) -> (b: bool)
        requires
            self.wf(),
        ensures
            b == self@.down_scrolls(),
    {
        let count = self.links.len();
        let lines = self.lines.len();
        self.link + 1 == count && self.scroll < lines && (lines - self.scroll >= self.size.1 || (
        self.scroll > SCROLL_LINES && count > self.scroll - SCROLL_LINES))
    }

    /// Scrolls down by a line or moves the selection to the link after.
    pub fn action_down(&mut self) -> (action: Action)
        requires
            old(self).wf(),
        ensures
            final(self).wf(),
            (final(self)@, action@) == old(self)@.down(),
    {
        if self.down_scrolls() {
            assert(self.scroll < self.lines.len());
            self.scroll += 1;
            return Action::Redraw;
        }
        let count = self.links.len();
        if self.link + 1 < count {
            let target = self.link + 1;
            let pos = self.links[target];
            assert(pos == self@.links[target as int]);
            match self.link_visibility(target) {
                Some(LinkDir::Above) => {
                    self.scroll = pos;
                    self.link = target;
                },
                Some(LinkDir::Below) => {
                    if self.scroll < self.lines.len() {
                        self.scroll += 1;
                    }
                    if self.link_visible(target) {
                        self.link = target;
                    }
                },
                _ => {
                    self.link = target;
                },
            }
            Action::Redraw
        } else {
            Action::Nothing
        }
    }

    /// The first link from `from` on that is on screen, or the number of
    /// links if there is none.
    fn next_visible(&self, from: usize) -> (found: usize)
        requires
            self.wf(),
        ensures
            found == self@.next_visible(from as int),
            found <= self@.count() || found == from,
    {
        let mut j: usize = from;
        while j < self.links.len()
            invariant
                self.wf(),
                from <= j,
                self@.next_visible(j as int) == self@.next_visible(from as int),
            decreases self.links.len() - j,
        {
            if self.link_visible(j) {
                return j;
            }
            j += 1;
        }
        self.links.len()
    }

    /// The last link up to `from` that is on screen, if there is one.
    fn prev_visible(&self, from: usize) -> (found: Option<usize>)
        requires
            self.wf(),
        ensures
            match found {
                Some(j) => j == self@.prev_visible(from as int) && j <= from,
                None => self@.prev_visible(from as int) == -1,
            },
    {
        let mut j: usize = from;
        loop
            invariant
                self.wf(),
                j <= from,
                self@.prev_visible(j as int) == self@.prev_visible(from as int),
            decreases j,
        {
            if self.link_visible(j) {
                return Some(j);
            }
            if j == 0 {
                assert(self@.prev_visible(-1) == -1);
                return None;
            }
            j -= 1;
        }
    }

    /// Scrolls down by a page and keeps the selection on screen if it can.
    pub fn action_page_down(&mut self) -> (action: Action)
        requires
            old(self).wf(),
        ensures
            final(self).wf(),
            (final(self)@, action@) == old(self)@.page_down(),
    {
        let lines = self.lines.len();
        if lines > SCROLL_LINES && self.scroll < lines - SCROLL_LINES {
            if self.scroll + SCROLL_LINES < lines - SCROLL_LINES {
                self.scroll += SCROLL_LINES;
            } else {
                self.scroll = lines - SCROLL_LINES;
            }
            let found = self.next_visible(self.link);
            if found < self.links.len() {
                self.link = found;
            }
            Action::Redraw
        } else {
            Action::Nothing
        }
    }

    /// Scrolls up by a page and keeps the selection on screen if it can.
    pub fn action_page_up(&mut self) -> (action: Action)
        requires
            old(self).wf(),
        ensures
            final(self).wf(),
            (final(self)@, action@) == old(self)@.page_up(),
    {
        if self.scroll > 0 {
            if self.scroll > SCROLL_LINES {
                self.scroll -= SCROLL_LINES;
            } else {
                self.scroll = 0;
            }
            if let Some(found) = self.prev_visible(self.link) {
                self.link = found;
            }
            Action::Redraw
        } else if self.link > 0 {
            self.link = 0;
            Action::Redraw
        } else {
            Action::Nothing
        }
    }

    /// Selects link `link`, scrolling to it if it is not on screen.
    pub fn action_select_link(&mut self, link: usize) -> (action: Action)
        requires
            old(self).wf(),
        ensures
            final(self).wf(),
            (final(self)@, action@) == old(self)@.select(link as int),
    {
        if link < self.links.len() {
            let line = self.links[link];
            assert(line == self@.links[link as int]);
            if !self.link_visible(link) {
                if line > SCROLL_LINES {
                    self.scroll = line - SCROLL_LINES;
                } else {
                    self.scroll = 0;
                }
            }
            self.link = link;
            Action::Redraw
        } else {
            Action::Nothing
        }
    }

    /// Selects link `link` and opens it at once.
    pub fn action_follow_link(&mut self, link: usize) -> (action: Action)
        requires
            old(self).wf(),
        ensures
            final(self).wf(),
            (final(self)@, action@) == old(self)@.follow(link as int),
    {
        self.input.clear();
        let _ = self.action_select_link(link);
        self.action_open()
    }

    /// Opens the selected link.
    pub fn action_open(&mut self) -> (action: Action)
        requires
            old(self).wf(),
        ensures
            final(self).wf(),
            (final(self)@, action@) == old(self)@.open(),
    {
        self.input.clear();
        if self.link < self.links.len() {
            assert(self.links@[self.link as int] == self@.links[self.link as int]);
            let line = &self.lines[self.links[self.link]];
            assert(line@ == self@.lines[self@.links[self@.link]]);
            if line.typ == Type::Search {
                let mut message = line.name.clone();
                message.append("> ");
                Action::Prompt(message, line.url.clone())
            } else {
                Action::Open(line.url.clone())
            }
        } else {
            Action::Nothing
        }
    }
}

} // verus!
