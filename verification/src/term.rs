//! Terminal control sequences, as the `termion` crate writes them. What
//! each function says of its result is read off `termion`'s source and
//! taken on trust: the functions' bodies call into `termion` and are not
//! verified.

use vstd::prelude::*;
use crate::chars::decimal;

verus! {

/// The sequence that `termion::cursor::Goto(col, row)` formats to: the
/// escape character, `[`, the row in decimal, `;`, the column in decimal
/// and `H`. Both numbers count from one; `termion` rejects the position
/// (0, 0) in debug builds, so it is left out here.
#[verifier::external_body]
pub(crate) fn goto(col: u16, row: u16) -> (s: String)
    requires
        !(col == 0 && row == 0),
    ensures
        s@ == "\x1b["@ + decimal(row as nat) + ";"@ + decimal(col as nat) + "H"@,
{
    format!("{}", termion::cursor::Goto(col, row))
}

/// The sequence that `termion::clear::CurrentLine` formats to: the escape
/// character and `[2K`.
#[verifier::external_body]
pub(crate) fn clear_line() -> (s: String)
    ensures
        s@ == "\x1b[2K"@,
{
    format!("{}", termion::clear::CurrentLine)
}

/// The sequence that `termion::clear::All` formats to: the escape
/// character and `[2J`.
#[verifier::external_body]
pub(crate) fn clear_all() -> (s: String)
    ensures
        s@ == "\x1b[2J"@,
{
    format!("{}", termion::clear::All)
}

/// The sequence that `termion::cursor::Hide` formats to: the escape
/// character and `[?25l`.
#[verifier::external_body]
pub(crate) fn hide_cursor() -> (s: String)
    ensures
        s@ == "\x1b[?25l"@,
{
    format!("{}", termion::cursor::Hide)
}

} // verus!
