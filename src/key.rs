//! Key events as the widgets and state machines see them.
use vstd::prelude::*;

verus! {

/// A key press handed to the widgets.
///
/// A pasted text arrives as one event: the front end reads the clipboard when
/// the paste chord is pressed and hands its text over (an empty text where the
/// clipboard held none).
#[derive(Debug, Clone)]
pub enum Key {
    /// A character key without the control modifier.
    Char(char),
    /// A character key held together with the control modifier.
    Ctrl(char),
    /// Text taken from the clipboard.
    Paste(String),
    Enter,
    Esc,
    Backspace,
    Left,
    Right,
    Up,
    Down,
    Tab,
    /// Any other key, or a key release.
    Other,
}

} // verus!
