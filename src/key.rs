//! Key events as the screens read them.
use vstd::prelude::*;

verus! {

/// One key press, reduced to what the screens tell apart.
#[derive(Clone, Copy, Debug, PartialEq, Eq, Structural)]
pub enum Key {
    Char(char),
    Enter,
    Esc,
    Tab,
    BackTab,
    Backspace,
    Other,
}

} // verus!
