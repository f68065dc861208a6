//! The modal input core of a terminal text editor: a state machine that turns
//! key and mouse events into edits of a text buffer and changes of mode, and
//! paints the buffer and a status line onto a character grid.

pub mod buffer;
pub mod cursor;
pub mod draw;
pub mod event;
pub mod laws;
pub mod machine;
pub mod mode;
pub mod render;
pub mod strings;
pub mod term;
pub mod text;
