//! The session: keys, the actions that views answer with, the capability
//! set of a view, and the history stack that holds the open views.

use vstd::prelude::*;
use vstd::string::*;
use vstd::view::View as _;
use crate::chars::decimal;
use crate::term::{clear_all, clear_line, goto, hide_cursor};

verus! {

/// How many lines a page key scrolls by.
pub const SCROLL_LINES: usize = 15;

/// The widest a line is drawn; longer names are cut.
pub const MAX_COLS: usize = 72;

/// One decoded key event, as the terminal hands it over.
#[derive(Copy, Clone, PartialEq, Eq, Debug, Structural)]
pub enum Key {
    Backspace,
    Left,
    Right,
    Up,
    Down,
    Home,
    End,
    PageUp,
    PageDown,
    BackTab,
    Delete,
    Insert,
    F(u8),
    Char(char),
    Alt(char),
    Ctrl(char),
    Null,
    Esc,
}

/// What a view asks of the session in answer to a key.
#[derive(Debug)]
pub enum Action {
    /// Nothing to do.
    Nothing,
    /// Go one page back in history.
    Back,
    /// Go one page forward in history.
    Forward,
    /// Open the given URL as a new page.
    Open(String),
    /// The view changed: paint the whole screen again.
    Redraw,
    /// End the session.
    Quit,
    /// Copy the given text to the clipboard.
    Clipboard(String),
    /// The view does not handle the key.
    Unknown,
    /// The view did not use the key and hands it back.
    Keypress(Key),
    /// Only the status line changed: write the given text to the terminal.
    Draw(String),
    /// Ask the user for a query with the given message, to be appended to
    /// the given URL.
    Prompt(String, String),
}

/// An action as a mathematical value.
pub ghost enum ActionView {
    Nothing,
    Back,
    Forward,
    Open(Seq<char>),
    Redraw,
    Quit,
    Clipboard(Seq<char>),
    Unknown,
    Keypress(Key),
    Draw(Seq<char>),
    Prompt(Seq<char>, Seq<char>),
}

impl vstd::view::View for Action {
    type V = ActionView;

    open spec fn view(&self) -> ActionView {
        match *self {
            Action::Nothing => ActionView::Nothing,
            Action::Back => ActionView::Back,
            Action::Forward => ActionView::Forward,
            Action::Open(url) => ActionView::Open(url@),
            Action::Redraw => ActionView::Redraw,
            Action::Quit => ActionView::Quit,
            Action::Clipboard(text) => ActionView::Clipboard(text@),
            Action::Unknown => ActionView::Unknown,
            Action::Keypress(key) => ActionView::Keypress(key),
            Action::Draw(text) => ActionView::Draw(text@),
            Action::Prompt(message, url) => ActionView::Prompt(message@, url@),
        }
    }
}

/// What every kind of page can do for the session.
pub trait View {
    /// The invariant of the page's own state.
    spec fn wf(&self) -> bool;

    /// The address that `url` returns.
    spec fn url_spec(&self) -> Seq<char>;

    /// The terminal size, columns then rows, that the page was last given.
    spec fn size_spec(&self) -> (usize, usize);

    /// The text that `render` returns.
    spec fn render_spec(&self) -> Seq<char>;

    /// The action that `process_input` answers `key` with.
    spec fn answer(&self, key: Key) -> ActionView;

    /// Whether `next` is the page that `process_input` makes of this one
    /// when it takes `key`.
    spec fn stepped(&self, key: Key, next: &Self) -> bool;

    /// Whether `next` is the page that `set_size` makes of this one.
    spec fn resized(&self, cols: usize, rows: usize, next: &Self) -> bool;

    /// Takes one key, changes the page's state and answers with an action.
    fn process_input(&mut self, key: Key) -> (action: Action)
        requires
            old(self).wf(),
        ensures
            final(self).wf(),
            final(self).url_spec() == old(self).url_spec(),
            final(self).size_spec() == old(self).size_spec(),
            action@ == old(self).answer(key),
            old(self).stepped(key, &*final(self)),
    ;

    /// The text to paint for the page's current state and size.
    fn render(&self) -> (out: String)
        requires
            self.wf(),
        ensures
            out@ == self.render_spec(),
    ;

    /// The address of the resource that the page shows.
    fn url(&self) -> (url: String)
        ensures
            url@ == self.url_spec(),
    ;

    /// Tells the page the size of the terminal.
    fn set_size(&mut self, cols: usize, rows: usize)
        requires
            old(self).wf(),
        ensures
            final(self).wf(),
            final(self).url_spec() == old(self).url_spec(),
            final(self).size_spec() == (cols, rows),
            old(self).resized(cols, rows, &*final(self)),
    ;
}

/// The action that the session binds to a key which the page shown, at
/// `url`, has not handled.
pub open spec fn bound_action(key: Key, url: Seq<char>) -> ActionView {
    match key {
        Key::Ctrl(c) => if c == 'q' || c == 'c' {
            ActionView::Quit
        } else if c == 'y' {
            ActionView::Clipboard(url)
        } else {
            ActionView::Nothing
        },
        Key::Left => ActionView::Back,
        Key::Backspace => ActionView::Back,
        Key::Right => ActionView::Forward,
        Key::Char(c) => if c == '\n' {
            ActionView::Redraw
        } else {
            ActionView::Nothing
        },
        _ => ActionView::Nothing,
    }
}

/// What becomes of a page's answer to `key`: where the page did not handle
/// the key, or handed a key back, the session's own binding of that key;
/// else the answer itself.
pub open spec fn resolved(answer: ActionView, key: Key, url: Seq<char>) -> ActionView {
    match answer {
        ActionView::Unknown => bound_action(key, url),
        ActionView::Keypress(k) => bound_action(k, url),
        _ => answer,
    }
}

/// The pages left when `view` is opened from page `page` of `pages`: those
/// up to and including `page`, then `view`.
pub open spec fn opened<P>(pages: Seq<P>, page: int, view: P) -> Seq<P> {
    if page + 1 < pages.len() {
        pages.take(page + 1).push(view)
    } else {
        pages.push(view)
    }
}

/// The page shown after one step back from `page`.
pub open spec fn stepped_back(page: int) -> int {
    if page > 0 {
        page - 1
    } else {
        page
    }
}

/// The page shown after one step forward from `page`, of `len` pages.
pub open spec fn stepped_forward(len: int, page: int) -> int {
    if page + 1 < len {
        page + 1
    } else {
        page
    }
}

/// A session: the pages opened so far, in order, and which of them is
/// shown.
pub struct UI<V: View> {
    pages: Vec<V>,
    page: usize,
    dirty: bool,
    running: bool,
}

/// A session as a mathematical value.
pub ghost struct UIView<V> {
    pub pages: Seq<V>,
    pub page: int,
    pub dirty: bool,
    pub running: bool,
}

impl<V: View> vstd::view::View for UI<V> {
    type V = UIView<V>;

    closed spec fn view(&self) -> UIView<V> {
        UIView {
            pages: self.pages@,
            page: self.page as int,
            dirty: self.dirty,
            running: self.running,
        }
    }
}

impl<V: View> UIView<V> {
    /// The invariant of a session: the page shown is one of the pages, or
    /// there is none yet; and every page is within its own invariant.
    pub open spec fn wf(self) -> bool {
        &&& 0 <= self.page
        &&& self.page < self.pages.len() || (self.pages.len() == 0 && self.page == 0)
        &&& forall|i: int| 0 <= i < self.pages.len() ==> (#[trigger] self.pages[i]).wf()
    }

    /// The session after `view` is added: the pages after the one shown
    /// are dropped, and `view` comes after it and is shown.
    pub open spec fn add_page(self, view: V) -> UIView<V> {
        let pages = opened(self.pages, self.page, view);
        UIView { pages, page: pages.len() - 1, ..self }
    }

    /// The session after `view` is opened: it is added as by `add_page`,
    /// and the screen is due.
    pub open spec fn open(self, view: V) -> UIView<V> {
        UIView { dirty: true, ..self.add_page(view) }
    }

    /// The session one page back, if there is a page before the one shown.
    pub open spec fn back(self) -> UIView<V> {
        UIView { page: stepped_back(self.page), dirty: self.dirty || self.page > 0, ..self }
    }

    /// The session one page forward, if there is a page after the one
    /// shown.
    pub open spec fn forward(self) -> UIView<V> {
        UIView {
            page: stepped_forward(self.pages.len() as int, self.page),
            dirty: self.dirty || self.page + 1 < self.pages.len(),
            ..self
        }
    }

    /// The session after it has taken an action, and what is left of the
    /// action for the caller: a redraw or a step in history is carried out
    /// here; anything else is handed on.
    pub open spec fn apply(self, action: ActionView) -> (UIView<V>, ActionView) {
        match action {
            ActionView::Redraw => (UIView { dirty: true, ..self }, ActionView::Nothing),
            ActionView::Back => (self.back(), ActionView::Nothing),
            ActionView::Forward => (self.forward(), ActionView::Nothing),
            _ => (self, action),
        }
    }

    /// The session after the caller has seen to what `apply` left: it has
    /// ended if that was the action to quit.
    pub open spec fn settle(self, left: ActionView) -> UIView<V> {
        if left == ActionView::Quit {
            UIView { running: false, ..self }
        } else {
            self
        }
    }
}

impl<V: View> UI<V> {
    /// The invariant of a session.
    pub open spec fn wf(&self) -> bool {
        self@.wf()
    }

    /// A session without pages, running, with the screen due.
    pub fn new() -> (ui: UI<V>)
        ensures
            ui.wf(),
            ui@ == (UIView::<V> { pages: Seq::empty(), page: 0, dirty: true, running: true }),
    {
        UI { pages: Vec::new(), page: 0, dirty: true, running: true }
    }

    /// Whether the session has not been quit.
    pub fn running(&self) -> (b: bool)
        ensures
            b == self@.running,
    {
        self.running
    }

    /// Whether the screen is due to be painted.
    pub fn dirty(&self) -> (b: bool)
        ensures
            b == self@.dirty,
    {
        self.dirty
    }

    /// The index of the page shown.
    pub fn page(&self) -> (i: usize)
        ensures
            i == self@.page,
    {
        self.page
    }

    /// The number of pages in history.
    pub fn len(&self) -> (n: usize)
        ensures
            n == self@.pages.len(),
    {
        self.pages.len()
    }

    /// The page shown, if there is one.
    pub fn current(&self) -> (view: Option<&V>)
        requires
            self.wf(),
        ensures
            self@.pages.len() == 0 ==> view is None,
            self@.pages.len() > 0 ==> view is Some && *view->0 == self@.pages[self@.page],
    {
        if self.page < self.pages.len() {
            Some(&self.pages[self.page])
        } else {
            None
        }
    }

    /// Adds `view` after the page shown, dropping the pages that came
    /// after it, and shows it.
    pub fn add_page(&mut self, view: V)
        requires
            old(self).wf(),
            view.wf(),
        ensures
            final(self).wf(),
            final(self)@ == old(self)@.add_page(view),
    {
        let n = self.pages.len();
        if n > 0 && self.page < n - 1 {
            self.pages.truncate(self.page + 1);
            assert(self.pages@ =~= old(self).pages@.take(old(self).page + 1));
        }
        self.pages.push(view);
        assert(self.pages@ =~= opened(old(self).pages@, old(self).page as int, view));
        if self.pages.len() > 1 {
            self.page += 1;
        }
    }

    /// Opens `view` as a new page: see `add_page`. The screen is due
    /// afterwards.
    pub fn open(&mut self, view: V)
        requires
            old(self).wf(),
            view.wf(),
        ensures
            final(self).wf(),
            final(self)@ == old(self)@.open(view),
    {
        self.dirty = true;
        self.add_page(view);
    }

    /// Goes one page back in history, if there is a page to go to.
    pub fn back(&mut self)
        requires
            old(self).wf(),
        ensures
            final(self).wf(),
            final(self)@ == old(self)@.back(),
    {
        if self.page > 0 {
            self.dirty = true;
            self.page -= 1;
        }
    }

    /// Goes one page forward in history, if there is a page to go to.
    pub fn forward(&mut self)
        requires
            old(self).wf(),
        ensures
            final(self).wf(),
            final(self)@ == old(self)@.forward(),
    {
        let n = self.pages.len();
        if n > 0 && self.page < n - 1 {
            self.dirty = true;
            self.page += 1;
        }
    }

    /// Takes an action: carries out what the session itself can do, and
    /// returns what is left for the caller.
    pub fn apply(&mut self, action: Action) -> (left: Action)
        requires
            old(self).wf(),
        ensures
            final(self).wf(),
            (final(self)@, left@) == old(self)@.apply(action@),
    {
        match action {
            Action::Redraw => {
                self.dirty = true;
                Action::Nothing
            },
            Action::Back => {
                self.back();
                Action::Nothing
            },
            Action::Forward => {
                self.forward();
                Action::Nothing
            },
            a => a,
        }
    }

    /// Offers `key` to the page shown and settles its answer: the page's
    /// own action, or the session's binding of a key that the page left
    /// unused.
    pub fn process_page_input(&mut self, key: Key) -> (action: Action)
        requires
            old(self).wf(),
            old(self)@.pages.len() > 0,
        ensures
            final(self).wf(),
            final(self)@.pages.len() == old(self)@.pages.len(),
            forall|i: int|
                0 <= i < old(self)@.pages.len() && i != old(self)@.page ==> final(self)@.pages[i]
                    == old(self)@.pages[i],
            final(self)@.page == old(self)@.page,
            final(self)@.dirty == old(self)@.dirty,
            final(self)@.running == old(self)@.running,
            final(self)@.pages[old(self)@.page].url_spec() == old(self)@.pages[old(
                self,
            )@.page].url_spec(),
            final(self)@.pages[old(self)@.page].size_spec() == old(self)@.pages[old(
                self,
            )@.page].size_spec(),
            old(self)@.pages[old(self)@.page].stepped(key, &final(self)@.pages[old(self)@.page]),
            action@ == resolved(
                old(self)@.pages[old(self)@.page].answer(key),
                key,
                old(self)@.pages[old(self)@.page].url_spec(),
            ),
    {
        let answer = self.pages[self.page].process_input(key);
        resolve(answer, key, &self.pages[self.page])
    }

    /// Takes a key: offers it to the page shown, carries out what the
    /// session itself can do of the answer, and returns what is left for
    /// the caller: to open an address, to copy to the clipboard, to ask
    /// for a query, to write to the terminal, or to quit.
    pub fn process_input(&mut self, key: Key) -> (left: Action)
        requires
            old(self).wf(),
            old(self)@.pages.len() > 0,
        ensures
            final(self).wf(),
            final(self)@.pages.len() == old(self)@.pages.len(),
            forall|i: int|
                0 <= i < old(self)@.pages.len() && i != old(self)@.page ==> final(self)@.pages[i]
                    == old(self)@.pages[i],
            final(self)@.pages[old(self)@.page].url_spec() == old(self)@.pages[old(
                self,
            )@.page].url_spec(),
            old(self)@.pages[old(self)@.page].stepped(key, &final(self)@.pages[old(self)@.page]),
            ({
                let action = resolved(
                    old(self)@.pages[old(self)@.page].answer(key),
                    key,
                    old(self)@.pages[old(self)@.page].url_spec(),
                );
                let applied = (UIView { pages: final(self)@.pages, ..old(self)@ }).apply(action);
                (final(self)@, left@) == applied
            }),
    {
        let action = self.process_page_input(key);
        self.apply(action)
    }

    /// Takes a key as `process_input` does, and ends the session if the
    /// key asks for that.
    pub fn update(&mut self, key: Key) -> (left: Action)
        requires
            old(self).wf(),
            old(self)@.pages.len() > 0,
        ensures
            final(self).wf(),
            final(self)@.pages.len() == old(self)@.pages.len(),
            forall|i: int|
                0 <= i < old(self)@.pages.len() && i != old(self)@.page ==> final(self)@.pages[i]
                    == old(self)@.pages[i],
            final(self)@.pages[old(self)@.page].url_spec() == old(self)@.pages[old(
                self,
            )@.page].url_spec(),
            old(self)@.pages[old(self)@.page].stepped(key, &final(self)@.pages[old(self)@.page]),
            ({
                let action = resolved(
                    old(self)@.pages[old(self)@.page].answer(key),
                    key,
                    old(self)@.pages[old(self)@.page].url_spec(),
                );
                let applied = (UIView { pages: final(self)@.pages, ..old(self)@ }).apply(action);
                final(self)@ == applied.0.settle(applied.1) && left@ == applied.1
            }),
    {
        let left = self.process_input(key);
        if let Action::Quit = left {
            self.running = false;
        }
        left
    }

    /// Tells the page shown the size of the terminal and returns the text
    /// that paints it; without a page, the text `N/A`.
    pub fn render(&mut self, cols: usize, rows: usize) -> (out: String)
        requires
            old(self).wf(),
        ensures
            final(self).wf(),
            final(self)@.pages.len() == old(self)@.pages.len(),
            forall|i: int|
                0 <= i < old(self)@.pages.len() && i != old(self)@.page ==> final(self)@.pages[i]
                    == old(self)@.pages[i],
            final(self)@.page == old(self)@.page,
            final(self)@.dirty == old(self)@.dirty,
            final(self)@.running == old(self)@.running,
            old(self)@.pages.len() == 0 ==> out@ == "N/A"@,
            old(self)@.pages.len() > 0 ==> {
                let shown = final(self)@.pages[old(self)@.page];
                &&& shown.size_spec() == (cols, rows)
                &&& shown.url_spec() == old(self)@.pages[old(self)@.page].url_spec()
                &&& old(self)@.pages[old(self)@.page].resized(cols, rows, &shown)
                &&& out@ == shown.render_spec()
            },
    {
        if self.page < self.pages.len() {
            self.pages[self.page].set_size(cols, rows);
            return self.pages[self.page].render();
        }
        String::from_str("N/A")
    }

    /// The text that paints the screen, if the screen is due: the
    /// sequences that clear it, put the cursor in its corner and hide it,
    /// then the page as `render` gives it. The screen is not due
    /// afterwards.
    pub fn draw(&mut self, cols: usize, rows: usize) -> (out: Option<String>)
        requires
            old(self).wf(),
        ensures
            final(self).wf(),
            final(self)@.pages.len() == old(self)@.pages.len(),
            forall|i: int|
                0 <= i < old(self)@.pages.len() && i != old(self)@.page ==> final(self)@.pages[i]
                    == old(self)@.pages[i],
            final(self)@.page == old(self)@.page,
            final(self)@.running == old(self)@.running,
            !final(self)@.dirty,
            !old(self)@.dirty ==> out is None && final(self)@ == old(self)@,
            old(self)@.dirty ==> out is Some && out->0@ == screen_prefix() + (if old(
                self,
            )@.pages.len() == 0 {
                "N/A"@
            } else {
                final(self)@.pages[old(self)@.page].render_spec()
            }),
            old(self)@.dirty && old(self)@.pages.len() > 0 ==> old(self)@.pages[old(
                self,
            )@.page].resized(cols, rows, &final(self)@.pages[old(self)@.page]),
    {
        if self.dirty {
            let mut out = clear_all();
            out.append(goto(1, 1).as_str());
            out.append(hide_cursor().as_str());
            let page = self.render(cols, rows);
            out.append(page.as_str());
            self.dirty = false;
            assert(out@ =~= screen_prefix() + page@);
            Some(out)
        } else {
            None
        }
    }
}

/// Steps in history and the session's own actions keep a session within
/// its invariant, and leave its pages as they are: the page shown stays
/// one of them.
pub proof fn lemma_history_keeps_invariant<V: View>(s: UIView<V>, action: ActionView)
    requires
        s.wf(),
    ensures
        s.back().wf() && s.back().pages == s.pages,
        s.forward().wf() && s.forward().pages == s.pages,
        s.apply(action).0.wf() && s.apply(action).0.pages == s.pages,
        s.settle(action).wf() && s.settle(action).pages == s.pages,
        s.pages.len() > 0 ==> 0 <= s.back().page < s.pages.len() && 0 <= s.forward().page
            < s.pages.len(),
{
}

/// Opening a page keeps the pages up to the one shown, drops every page
/// after it, and puts the new page last and shows it. One step back and
/// one step forward from there lead to the new page again, and no step
/// forward leads past it.
pub proof fn lemma_open_drops_forward_history<V: View>(s: UIView<V>, view: V)
    requires
        s.wf(),
        view.wf(),
    ensures
        s.open(view).wf(),
        s.open(view).pages.len() == (if s.pages.len() == 0 {
            1
        } else {
            s.page + 2
        }),
        s.open(view).page == s.open(view).pages.len() - 1,
        s.open(view).pages[s.open(view).page] == view,
        forall|i: int|
            0 <= i < s.open(view).pages.len() - 1 ==> s.open(view).pages[i] == s.pages[i],
        s.open(view).forward() == s.open(view),
        s.open(view).back().forward() == s.open(view),
        s.open(view).back().pages == s.open(view).pages,
{
}

/// What a key does to a prompt.
#[derive(Copy, Clone, PartialEq, Eq, Debug, Structural)]
pub enum Prompted {
    /// The prompt goes on.
    Editing,
    /// The user gives the text as it stands.
    Given,
    /// The user gives up.
    Cancelled,
}

/// What `key` does to the text typed at a prompt, and to the prompt: Enter
/// gives the text, Escape and Ctrl-C give up, a character joins the text,
/// Backspace and Delete take the last character back, and other keys do
/// nothing.
pub open spec fn spec_prompt_key(input: Seq<char>, key: Key) -> (Seq<char>, Prompted) {
    match key {
        Key::Char(c) => if c == '\n' {
            (input, Prompted::Given)
        } else {
            (input.push(c), Prompted::Editing)
        },
        Key::Backspace => (
            if input.len() > 0 {
                input.drop_last()
            } else {
                input
            },
            Prompted::Editing,
        ),
        Key::Delete => (
            if input.len() > 0 {
                input.drop_last()
            } else {
                input
            },
            Prompted::Editing,
        ),
        Key::Esc => (input, Prompted::Cancelled),
        Key::Ctrl(c) => if c == 'c' {
            (input, Prompted::Cancelled)
        } else {
            (input, Prompted::Editing)
        },
        _ => (input, Prompted::Editing),
    }
}

/// Takes a key at a prompt: changes the text typed so far and says whether
/// the prompt goes on.
pub fn prompt_key(input: &mut String, key: Key) -> (state: Prompted)
    ensures
        (final(input)@, state) == spec_prompt_key(old(input)@, key),
{
    match key {
        Key::Char('\n') => Prompted::Given,
        Key::Char(c) => {
            input.push(c);
            Prompted::Editing
        },
        Key::Backspace | Key::Delete => {
            let _ = input.pop();
            Prompted::Editing
        },
        Key::Esc | Key::Ctrl('c') => Prompted::Cancelled,
        _ => Prompted::Editing,
    }
}

/// The text that shows a prompt on the last of `rows` rows: the sequences
/// that put the cursor there and clear the row, the message, and what was
/// typed so far.
pub open spec fn spec_prompt_line(rows: int, message: Seq<char>, input: Seq<char>) -> Seq<char> {
    "\x1b["@ + decimal((rows % 0x10000) as nat) + ";"@ + decimal(1) + "H"@ + "\x1b[2K"@ + message
        + input
}

/// The text that shows a prompt on the last of `rows` rows.
pub fn prompt_line(rows: usize, message: &str, input: &str) -> (out: String)
    ensures
        out@ == spec_prompt_line(rows as int, message@, input@),
{
    let row: u16 = (rows % 0x10000) as u16;
    let mut out = goto(1, row);
    out.append(clear_line().as_str());
    out.append(message);
    out.append(input);
    assert(out@ =~= spec_prompt_line(rows as int, message@, input@));
    out
}

/// The sequences that begin a painted screen: clear all, go to row one,
/// column one, and hide the cursor.
pub open spec fn screen_prefix() -> Seq<char> {
    "\x1b[2J"@ + ("\x1b["@ + decimal(1) + ";"@ + decimal(1) + "H"@) + "\x1b[?25l"@
}

/// The action that the session binds to a key which the page shown has not
/// handled.
pub fn bind<V: View>(key: Key, page: &V) -> (action: Action)
    ensures
        action@ == bound_action(key, page.url_spec()),
{
    match key {
        Key::Ctrl('q') | Key::Ctrl('c') => Action::Quit,
        Key::Left | Key::Backspace => Action::Back,
        Key::Right => Action::Forward,
        Key::Char('\n') => Action::Redraw,
        Key::Ctrl('y') => Action::Clipboard(page.url()),
        _ => Action::Nothing,
    }
}

/// Settles a page's answer to `key`: its own answer, or the session's
/// binding of the key that the page left unused.
pub fn resolve<V: View>(answer: Action, key: Key, page: &V) -> (action: Action)
    ensures
        action@ == resolved(answer@, key, page.url_spec()),
{
    match answer {
        Action::Unknown => bind(key, page),
        Action::Keypress(k) => bind(k, page),
        a => a,
    }
}

} // verus!
