use vstd::prelude::*;

verus! {

/// A key press.
#[derive(Clone, Copy, Debug, PartialEq, Eq, Structural)]
pub enum Key {
    /// A character key. Tab arrives as `'\t'` and Enter as `'\n'`.
    Char(char),
    /// The escape key.
    Esc,
    /// The backspace key.
    Backspace,
    /// Any other key: arrows, function keys, modified characters.
    Other,
}

/// A mouse button, or a direction of the wheel.
#[derive(Clone, Copy, Debug, PartialEq, Eq, Structural)]
pub enum MouseButton {
    Left,
    Right,
    Middle,
    WheelUp,
    WheelDown,
    WheelLeft,
    WheelRight,
}

/// What the mouse did. All coordinates are one-based screen cells: first the
/// column, then the row.
#[derive(Clone, Copy, Debug, PartialEq, Eq, Structural)]
pub enum MouseEvent {
    /// A button went down, or the wheel turned.
    Press(MouseButton, u16, u16),
    /// A button came up.
    Release(u16, u16),
    /// The mouse moved with a button held.
    Hold(u16, u16),
}

/// One input event.
#[derive(Clone, Copy, Debug, PartialEq, Eq, Structural)]
pub enum Event {
    Key(Key),
    Mouse(MouseEvent),
    /// Input that the terminal layer could not decode.
    Unsupported,
}

} // verus!
