//! A keyboard-driven Gopher browser engine: menu parsing, the scrolling and
//! link-selection state machine of a menu view, and the history stack that
//! holds the views of a session.
//!
//! The engine does no input or output of its own. It takes responses as
//! text and keys as values, and answers with the text to paint and with
//! actions for its caller to carry out: to fetch and open an address, to
//! ask the user for a query, to copy to the clipboard.
//!
//! - `gopher`: item types, and addresses taken apart.
//! - `menu`: menus, with their keys (`menu::keys`), their movements
//!   (`menu::nav`) and their painting (`menu::render`).
//! - `text`: text views.
//! - `document`: the views that a session makes of a response.
//! - `ui`: keys, actions, the capabilities of a view, and the session.
//! - `args`: the command line.
//! - `page`: plain pages, drawn without layout.
//! - `chars`: the operations on text that the rest is built from.
//! - `term`: the control sequences of the terminal.

pub mod args;
pub mod chars;
pub mod document;
pub mod gopher;
pub mod menu;
pub mod page;
mod term;
pub mod text;
pub mod ui;
