//! The views that a session can make of a response: a menu or a text.

use vstd::prelude::*;
use vstd::view::View as _;
use crate::gopher::Type;
use crate::menu::Menu;
use crate::text::Text;
use crate::ui::{Action, ActionView, Key, View};

verus! {

/// A view of either kind.
pub enum Document {
    Menu(Menu),
    Text(Text),
}

impl Document {
    /// Whether a resource of type `typ` can be shown, and as what: a menu
    /// as a menu, a text or a web page as text.
    pub open spec fn shows(typ: Type) -> bool {
        typ == Type::Menu || typ == Type::Text || typ == Type::HTML
    }

    /// Makes the view for a response of type `typ` from `url`, if a
    /// resource of that type can be shown.
    pub fn from(url: String, typ: Type, response: String) -> (view: Option<Document>)
        ensures
            Document::shows(typ) <==> view is Some,
            typ == Type::Menu ==> view->0 is Menu && view->0->Menu_0@ == Menu::parsed(
                url@,
                response@,
            ),
            typ == Type::Text || typ == Type::HTML ==> view->0 is Text && view->0->Text_0@
                == crate::text::TextView::parsed(url@, response@),
            view is Some ==> view->0.wf(),
    {
        match typ {
            Type::Menu => Some(Document::Menu(Menu::from(url, response))),
            Type::Text | Type::HTML => Some(Document::Text(Text::from(url, response))),
            _ => None,
        }
    }
}

impl View for Document {
    open spec fn wf(&self) -> bool {
        match *self {
            Document::Menu(m) => m@.wf(),
            Document::Text(t) => t@.wf(),
        }
    }

    open spec fn url_spec(&self) -> Seq<char> {
        match *self {
            Document::Menu(m) => m@.url,
            Document::Text(t) => t@.url,
        }
    }

    open spec fn size_spec(&self) -> (usize, usize) {
        match *self {
            Document::Menu(m) => m.size,
            Document::Text(t) => t.size,
        }
    }

    open spec fn render_spec(&self) -> Seq<char> {
        match *self {
            Document::Menu(m) => m@.render(),
            Document::Text(t) => t@.render(),
        }
    }

    open spec fn answer(&self, key: Key) -> ActionView {
        match *self {
            Document::Menu(m) => m@.key(key).1,
            Document::Text(t) => t@.key(key).1,
        }
    }

    open spec fn stepped(&self, key: Key, next: &Self) -> bool {
        match *self {
            Document::Menu(m) => *next is Menu && m.stepped(key, &next->Menu_0),
            Document::Text(t) => *next is Text && t.stepped(key, &next->Text_0),
        }
    }

    open spec fn resized(&self, cols: usize, rows: usize, next: &Self) -> bool {
        match *self {
            Document::Menu(m) => *next is Menu && m.resized(cols, rows, &next->Menu_0),
            Document::Text(t) => *next is Text && t.resized(cols, rows, &next->Text_0),
        }
    }

    fn process_input(&mut self, key: Key) -> (action: Action) {
        match self {
            Document::Menu(m) => m.process_input(key),
            Document::Text(t) => t.process_input(key),
        }
    }

    fn render(&self) -> (out: String) {
        match self {
            Document::Menu(m) => m.render(),
            Document::Text(t) => t.render(),
        }
    }

    fn url(&self) -> (url: String) {
        match self {
            Document::Menu(m) => m.url(),
            Document::Text(t) => t.url(),
        }
    }

    fn set_size(&mut self, cols: usize, rows: usize) {
        match self {
            Document::Menu(m) => m.set_size(cols, rows),
            Document::Text(t) => t.set_size(cols, rows),
        }
    }
}

} // verus!
