use vstd::prelude::*;
use crate::buffer::BufferView;
use crate::event::{Event, Key, MouseButton, MouseEvent};
use crate::mode::Context;

verus! {

/// The mathematical content of a [`Mode`].
pub enum ModeView {
    /// Normal mode with its message.
    Normal(Seq<char>),
    Prefix,
    Insert,
    Replace,
    Search,
    /// Save mode with the path typed so far.
    Save(Seq<char>),
}

/// The mathematical content of a [`Transition`].
pub enum TransitionView {
    Nothing,
    Trans(ModeView),
    Exit,
}

/// Normal mode with no message: the mode that every other mode returns to.
pub open spec fn fresh_normal() -> TransitionView {
    TransitionView::Trans(ModeView::Normal(Seq::empty()))
}

/// The message that reports how saving to `path` went.
pub open spec fn save_message(saved: bool, path: Seq<char>) -> Seq<char> {
    if saved {
        "Saved to "@ + path
    } else {
        "Failed to save "@ + path
    }
}

/// What handling one event comes to: the buffer afterwards and what is
/// asked of the driver.
pub struct Effect {
    pub buf: BufferView,
    pub transition: TransitionView,
}

/// What Normal mode does on `event`.
pub open spec fn normal_event(buf: BufferView, event: Event, height: int, width: int) -> Effect {
    match event {
        Event::Key(Key::Char(c)) => {
            if c == 'i' {
                Effect { buf, transition: TransitionView::Trans(ModeView::Insert) }
            } else if c == 'I' {
                Effect {
                    buf: buf.with_col(BufferView::first_non_space(buf.current_line())),
                    transition: TransitionView::Trans(ModeView::Insert),
                }
            } else if c == 'a' {
                Effect {
                    buf: buf.cursor_right(),
                    transition: TransitionView::Trans(ModeView::Insert),
                }
            } else if c == 'A' {
                Effect {
                    buf: buf.with_col(buf.current_line().len() as int),
                    transition: TransitionView::Trans(ModeView::Insert),
                }
            } else if c == 'r' {
                Effect { buf, transition: TransitionView::Trans(ModeView::Replace) }
            } else if c == 'o' {
                Effect {
                    buf: buf.insert_newline(),
                    transition: TransitionView::Trans(ModeView::Insert),
                }
            } else if c == 'O' {
                Effect {
                    buf: buf.cursor_up().insert_newline(),
                    transition: TransitionView::Trans(ModeView::Insert),
                }
            } else if c == 'h' {
                Effect { buf: buf.cursor_left(), transition: TransitionView::Nothing }
            } else if c == 'j' {
                Effect { buf: buf.cursor_down(), transition: TransitionView::Nothing }
            } else if c == 'k' {
                Effect { buf: buf.cursor_up(), transition: TransitionView::Nothing }
            } else if c == 'l' {
                Effect { buf: buf.cursor_right(), transition: TransitionView::Nothing }
            } else if c == '/' {
                Effect { buf, transition: TransitionView::Trans(ModeView::Search) }
            } else if c == ' ' {
                Effect { buf, transition: TransitionView::Trans(ModeView::Prefix) }
            } else {
                Effect { buf, transition: TransitionView::Nothing }
            }
        },
        Event::Mouse(MouseEvent::Press(MouseButton::Left, x, y)) => Effect {
            buf: buf.click(height, width, x as int, y as int),
            transition: TransitionView::Nothing,
        },
        Event::Mouse(MouseEvent::Press(MouseButton::WheelUp, _, _)) => Effect {
            buf: buf.scroll_up(),
            transition: TransitionView::Nothing,
        },
        Event::Mouse(MouseEvent::Press(MouseButton::WheelDown, _, _)) => Effect {
            buf: buf.scroll_down(),
            transition: TransitionView::Nothing,
        },
        _ => Effect { buf, transition: TransitionView::Nothing },
    }
}

/// What Insert mode does on `event`.
pub open spec fn insert_event(buf: BufferView, event: Event) -> Effect {
    match event {
        Event::Key(Key::Esc) => Effect { buf, transition: fresh_normal() },
        Event::Key(Key::Backspace) => Effect {
            buf: buf.backspace(),
            transition: TransitionView::Nothing,
        },
        Event::Key(Key::Char(c)) => Effect {
            buf: if c == '\t' {
                buf.insert_tab()
            } else {
                buf.insert(c)
            },
            transition: TransitionView::Nothing,
        },
        _ => Effect { buf, transition: TransitionView::Nothing },
    }
}

/// What Replace mode does on `event`.
pub open spec fn replace_event(buf: BufferView, event: Event) -> Effect {
    match event {
        Event::Key(Key::Esc) => Effect { buf, transition: fresh_normal() },
        Event::Key(Key::Char(c)) => Effect { buf: buf.replace(c), transition: fresh_normal() },
        _ => Effect { buf, transition: TransitionView::Nothing },
    }
}

/// What Search mode does on `event`.
pub open spec fn search_event(buf: BufferView, event: Event) -> Effect {
    match event {
        Event::Key(Key::Esc) => Effect { buf, transition: fresh_normal() },
        Event::Key(Key::Backspace) => Effect {
            buf: buf.with_search(
                if buf.search.len() > 0 {
                    buf.search.drop_last()
                } else {
                    buf.search
                },
            ),
            transition: TransitionView::Nothing,
        },
        Event::Key(Key::Char(c)) => {
            if c == '\n' {
                Effect { buf, transition: fresh_normal() }
            } else {
                Effect {
                    buf: buf.with_search(buf.search.push(c)),
                    transition: TransitionView::Nothing,
                }
            }
        },
        _ => Effect { buf, transition: TransitionView::Nothing },
    }
}

/// The path that Save mode holds after `event`.
pub open spec fn save_path_after(path: Seq<char>, event: Event) -> Seq<char> {
    match event {
        Event::Key(Key::Backspace) => if path.len() > 0 {
            path.drop_last()
        } else {
            path
        },
        Event::Key(Key::Char(c)) => if c == '\n' {
            path
        } else {
            path.push(c)
        },
        _ => path,
    }
}

/// What Save mode, holding `path`, does on `event`. `saved` tells whether
/// the text was written to `path`; it counts only for the line feed that
/// ends the mode.
pub open spec fn save_event(path: Seq<char>, buf: BufferView, event: Event, saved: bool) -> Effect {
    match event {
        Event::Key(Key::Esc) => Effect { buf, transition: fresh_normal() },
        Event::Key(Key::Char(c)) => {
            if c == '\n' {
                Effect {
                    buf: buf.with_path(Some(path)),
                    transition: TransitionView::Trans(ModeView::Normal(save_message(saved, path))),
                }
            } else {
                Effect { buf, transition: TransitionView::Nothing }
            }
        },
        _ => Effect { buf, transition: TransitionView::Nothing },
    }
}

/// What Prefix mode does on `event`. `saved` tells whether the text was
/// written to the file of the buffer; it counts only for `s` in a buffer
/// that has a file.
pub open spec fn prefix_event(buf: BufferView, event: Event, saved: bool) -> Effect {
    match event {
        Event::Key(Key::Esc) => Effect { buf, transition: fresh_normal() },
        Event::Key(Key::Char(c)) => {
            if c == 'q' {
                Effect { buf, transition: TransitionView::Exit }
            } else if c == 's' {
                match buf.path {
                    Some(path) => Effect {
                        buf,
                        transition: TransitionView::Trans(
                            ModeView::Normal(save_message(saved, path)),
                        ),
                    },
                    None => Effect {
                        buf,
                        transition: TransitionView::Trans(ModeView::Save(Seq::empty())),
                    },
                }
            } else {
                Effect { buf, transition: TransitionView::Nothing }
            }
        },
        _ => Effect { buf, transition: TransitionView::Nothing },
    }
}

/// The file that handling `event` in `mode` saves the text to: the typed
/// path when Save mode gets its line feed, the file of the buffer when
/// Prefix mode gets `s` and the buffer has one, and none otherwise.
pub open spec fn save_target(mode: ModeView, buf: BufferView, event: Event) -> Option<Seq<char>> {
    match (mode, event) {
        (ModeView::Save(path), Event::Key(Key::Char(c))) => if c == '\n' {
            Some(path)
        } else {
            None
        },
        (ModeView::Prefix, Event::Key(Key::Char(c))) => if c == 's' {
            buf.path
        } else {
            None
        },
        _ => None,
    }
}

/// One step of the machine: the mode and the buffer after `mode` has
/// handled `event`, and what it asks of the driver.
pub struct Step {
    pub mode: ModeView,
    pub buf: BufferView,
    pub transition: TransitionView,
}

/// What `mode` does on `event`.
pub open spec fn step(mode: ModeView, buf: BufferView, event: Event, ctx: Context) -> Step {
    let effect = match mode {
        ModeView::Normal(_) => normal_event(buf, event, ctx.height as int, ctx.width as int),
        ModeView::Prefix => prefix_event(buf, event, ctx.saved),
        ModeView::Insert => insert_event(buf, event),
        ModeView::Replace => replace_event(buf, event),
        ModeView::Search => search_event(buf, event),
        ModeView::Save(path) => save_event(path, buf, event, ctx.saved),
    };
    Step {
        mode: match mode {
            ModeView::Save(path) => ModeView::Save(save_path_after(path, event)),
            _ => mode,
        },
        buf: effect.buf,
        transition: effect.transition,
    }
}

/// Whether `mode` has a use for `event`. All other events it ignores.
pub open spec fn recognizes(mode: ModeView, event: Event) -> bool {
    match mode {
        ModeView::Normal(_) => match event {
            Event::Key(Key::Char(c)) => c == 'i' || c == 'I' || c == 'a' || c == 'A' || c == 'r'
                || c == 'o' || c == 'O' || c == 'h' || c == 'j' || c == 'k' || c == 'l' || c == '/'
                || c == ' ',
            Event::Mouse(MouseEvent::Press(button, _, _)) => button == MouseButton::Left || button
                == MouseButton::WheelUp || button == MouseButton::WheelDown,
            _ => false,
        },
        ModeView::Prefix => match event {
            Event::Key(Key::Esc) => true,
            Event::Key(Key::Char(c)) => c == 'q' || c == 's',
            _ => false,
        },
        ModeView::Replace => match event {
            Event::Key(Key::Esc) => true,
            Event::Key(Key::Char(_)) => true,
            _ => false,
        },
        _ => match event {
            Event::Key(Key::Esc) => true,
            Event::Key(Key::Backspace) => true,
            Event::Key(Key::Char(_)) => true,
            _ => false,
        },
    }
}

/// The mode that is current once the driver has followed `transition` out
/// of `mode`: `None` where the program ends.
pub open spec fn next_mode(mode: ModeView, transition: TransitionView) -> Option<ModeView> {
    match transition {
        TransitionView::Nothing => Some(mode),
        TransitionView::Trans(next) => Some(next),
        TransitionView::Exit => None,
    }
}

/// The editor between two events: the current mode and the buffer.
pub struct State {
    pub mode: ModeView,
    pub buf: BufferView,
}

/// The editor after the current mode has handled `event` and the driver
/// has followed the transition: `None` where the program ends.
pub open spec fn advance(state: State, event: Event, ctx: Context) -> Option<State> {
    let done = step(state.mode, state.buf, event, ctx);
    match next_mode(done.mode, done.transition) {
        Some(mode) => Some(State { mode, buf: done.buf }),
        None => None,
    }
}

/// The editor after `events` have been handled one after another: `None`
/// where the program ends on the way.
pub open spec fn run(state: State, events: Seq<Event>, ctx: Context) -> Option<State>
    decreases events.len(),
{
    if events.len() == 0 {
        Some(state)
    } else {
        match run(state, events.drop_last(), ctx) {
            Some(before) => advance(before, events.last(), ctx),
            None => None,
        }
    }
}

/// The press of the character key `c`.
pub open spec fn press(c: char) -> Event {
    Event::Key(Key::Char(c))
}

/// The key presses that type `text`.
pub open spec fn typed(text: Seq<char>) -> Seq<Event> {
    Seq::new(text.len(), |i: int| press(text[i]))
}

} // verus!
