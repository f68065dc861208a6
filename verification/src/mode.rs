use vstd::prelude::*;
use crate::buffer::{Buffer, BufferView, TAB_WIDTH};
use crate::cursor::Cursor;
use crate::event::{Event, Key, MouseButton, MouseEvent};
use crate::laws::lemma_unrecognized_is_ignored;
use crate::machine::{
    fresh_normal, insert_event, next_mode, normal_event, prefix_event, recognizes, replace_event,
    save_event, save_message, save_path_after, save_target, search_event, step, ModeView,
    TransitionView,
};
use crate::term::Term;

verus! {

/// The mode in which keys move the cursor and start the other modes. It
/// shows a message in its status line, which is empty unless the mode before
/// left one.
#[derive(Clone, Debug, PartialEq, Eq)]
pub struct Normal {
    message: String,
}

/// The mode that waits for a command key after the space bar.
#[derive(Clone, Copy, Debug, PartialEq, Eq)]
pub struct Prefix;

/// The mode in which typed characters go into the text.
#[derive(Clone, Copy, Debug, PartialEq, Eq)]
pub struct Insert;

/// The mode that overwrites one character and ends.
#[derive(Clone, Copy, Debug, PartialEq, Eq)]
pub struct R;

/// The mode in which the search query is typed.
#[derive(Clone, Copy, Debug, PartialEq, Eq)]
pub struct Search;

/// The mode in which the name of the file to save to is typed.
#[derive(Clone, Debug, PartialEq, Eq)]
pub struct Save {
    path: String,
}

/// The active interpretation of input: one of the six modes with the state
/// that it owns.
#[derive(Clone, Debug, PartialEq, Eq)]
pub enum Mode {
    Normal(Normal),
    Prefix(Prefix),
    Insert(Insert),
    Replace(R),
    Search(Search),
    Save(Save),
}

/// What handling one event asks of the driver.
#[derive(Clone, Debug, PartialEq, Eq)]
pub enum Transition {
    /// Stay in the mode.
    Nothing,
    /// Make this mode the current one.
    Trans(Mode),
    /// End the program.
    Exit,
}

/// What the handlers are told of the world outside: the size of the
/// terminal, and how the one action went that they cannot take themselves.
#[derive(Clone, Copy, Debug, PartialEq, Eq)]
pub struct Context {
    /// The number of rows of the terminal.
    pub height: usize,
    /// The number of columns of the terminal.
    pub width: usize,
    /// Whether the text was written to the file that [`Mode::save_target`]
    /// names for the event. Where it names none, this is not read.
    pub saved: bool,
}

impl View for Normal {
    type V = Seq<char>;

    closed spec fn view(&self) -> Seq<char> {
        self.message@
    }
}

impl View for Save {
    type V = Seq<char>;

    closed spec fn view(&self) -> Seq<char> {
        self.path@
    }
}

impl View for Mode {
    type V = ModeView;

    open spec fn view(&self) -> ModeView {
        match *self {
            Mode::Normal(normal) => ModeView::Normal(normal@),
            Mode::Prefix(_) => ModeView::Prefix,
            Mode::Insert(_) => ModeView::Insert,
            Mode::Replace(_) => ModeView::Replace,
            Mode::Search(_) => ModeView::Search,
            Mode::Save(save) => ModeView::Save(save@),
        }
    }
}

impl View for Transition {
    type V = TransitionView;

    open spec fn view(&self) -> TransitionView {
        match *self {
            Transition::Nothing => TransitionView::Nothing,
            Transition::Trans(mode) => TransitionView::Trans(mode@),
            Transition::Exit => TransitionView::Exit,
        }
    }
}

/// A line whose first `i` characters are spaces and that ends there or goes
/// on with another character has its first character that is no space at `i`.
proof fn lemma_first_non_space(line: Seq<char>, i: int)
    requires
        0 <= i <= line.len(),
        forall|k: int| 0 <= k < i ==> line[k] == ' ',
        i == line.len() || line[i] != ' ',
    ensures
        BufferView::first_non_space(line) == i,
    decreases i,
{
    if i > 0 {
        let rest = line.drop_first();
        assert forall|k: int| 0 <= k < i - 1 implies rest[k] == ' ' by {
            assert(rest[k] == line[k + 1]);
        }
        lemma_first_non_space(rest, i - 1);
    }
}

impl Normal {
    /// Normal mode with no message.
    pub fn new() -> (normal: Normal)
        ensures
            normal@ == Seq::<char>::empty(),
    {
        Normal { message: String::new() }
    }

    /// Normal mode that shows `message` in its status line.
    pub fn with_message(message: String) -> (normal: Normal)
        ensures
            normal@ == message@,
    {
        Normal { message }
    }

    /// The message in the status line.
    pub fn message(&self) -> (message: &String)
        ensures
            message@ == self@,
    {
        &self.message
    }

    /// Handles `event` in Normal mode: keys move the cursor, open lines and
    /// start the other modes; a click of the left button moves the cursor to
    /// the character under it on a terminal of `height` rows and `width`
    /// columns; the wheel scrolls. Anything else is ignored.
    pub fn event(&mut self, buf: &mut Buffer, event: Event, height: usize, width: usize) -> (t:
        Transition)
        requires
            old(buf).wf(),
        ensures
            final(buf).wf(),
            final(self)@ == old(self)@,
            final(buf)@ == normal_event(old(buf)@, event, height as int, width as int).buf,
            t@ == normal_event(old(buf)@, event, height as int, width as int).transition,
    {
        match event {
            Event::Key(Key::Char('i')) => return Transition::Trans(Mode::Insert(Insert)),
            Event::Key(Key::Char('I')) => {
                let mut i: usize = 0;
                let line = buf.current_line();
                while i < line.len() && line[i] == ' '
                    invariant
                        i <= line.len(),
                        forall|k: int| 0 <= k < i ==> line@[k] == ' ',
                    decreases line.len() - i,
                {
                    i = i + 1;
                }
                proof {
                    lemma_first_non_space(line@, i as int);
                }
                let row = buf.cursor().row;
                buf.set_cursor(Cursor { row, col: i });
                return Transition::Trans(Mode::Insert(Insert));
            },
            Event::Key(Key::Char('a')) => {
                buf.cursor_right();
                return Transition::Trans(Mode::Insert(Insert));
            },
            Event::Key(Key::Char('A')) => {
                let col = buf.current_line().len();
                let row = buf.cursor().row;
                buf.set_cursor(Cursor { row, col });
                return Transition::Trans(Mode::Insert(Insert));
            },
            Event::Key(Key::Char('r')) => return Transition::Trans(Mode::Replace(R)),
            Event::Key(Key::Char('o')) => {
                buf.insert_newline();
                return Transition::Trans(Mode::Insert(Insert));
            },
            Event::Key(Key::Char('O')) => {
                buf.cursor_up();
                buf.insert_newline();
                return Transition::Trans(Mode::Insert(Insert));
            },
            Event::Key(Key::Char('h')) => buf.cursor_left(),
            Event::Key(Key::Char('j')) => buf.cursor_down(),
            Event::Key(Key::Char('k')) => buf.cursor_up(),
            Event::Key(Key::Char('l')) => buf.cursor_right(),
            Event::Key(Key::Char('/')) => return Transition::Trans(Mode::Search(Search)),
            Event::Key(Key::Char(' ')) => return Transition::Trans(Mode::Prefix(Prefix)),
            Event::Mouse(MouseEvent::Press(MouseButton::Left, x, y)) => {
                if x >= 1 && y >= 1 {
                    let at = Cursor { row: y as usize - 1, col: x as usize - 1 };
                    let mut term = Term::new(height, width);
                    let area = term.viewport((0, 0), height, width);
                    buf.draw(&mut term, area);
                    if let Some(c) = term.pos(at) {
                        buf.set_cursor(c);
                    }
                }
            },
            Event::Mouse(MouseEvent::Press(MouseButton::WheelUp, _, _)) => buf.scroll_up(),
            Event::Mouse(MouseEvent::Press(MouseButton::WheelDown, _, _)) => buf.scroll_down(),
            _ => {},
        }
        Transition::Nothing
    }
}

impl Insert {
    /// Handles `event` in Insert mode: escape ends the mode, backspace takes
    /// out the character before the cursor, a tab puts in spaces up to the
    /// next tab stop, and every other character goes into the text.
    /// Anything else is ignored.
    pub fn event(&mut self, buf: &mut Buffer, event: Event) -> (t: Transition)
        requires
            old(buf).wf(),
        ensures
            final(buf).wf(),
            final(buf)@ == insert_event(old(buf)@, event).buf,
            t@ == insert_event(old(buf)@, event).transition,
    {
        match event {
            Event::Key(Key::Esc) => {
                return Transition::Trans(Mode::Normal(Normal::new()));
            },
            Event::Key(Key::Backspace) => {
                buf.backspace();
            },
            Event::Key(Key::Char('\t')) => {
                let ghost fill = BufferView::tab_fill(buf@.col);
                let ghost mut count: int = 1;
                proof {
                    old(buf)@.lemma_insert_space(0);
                }
                buf.insert(' ');
                while buf.cursor().col % TAB_WIDTH != 0
                    invariant
                        old(buf)@.wf(),
                        buf.wf(),
                        fill == BufferView::tab_fill(old(buf)@.col),
                        1 <= count <= fill,
                        buf@ == old(buf)@.insert_spaces(count),
                    decreases fill - count,
                {
                    proof {
                        old(buf)@.lemma_insert_space(count);
                        count = count + 1;
                    }
                    buf.insert(' ');
                }
            },
            Event::Key(Key::Char(c)) => {
                buf.insert(c);
            },
            _ => {},
        }
        Transition::Nothing
    }
}

impl R {
    /// Handles `event` in Replace mode: escape ends the mode; a character
    /// overwrites the one under the cursor and ends the mode too. Anything
    /// else is ignored.
    pub fn event(&mut self, buf: &mut Buffer, event: Event) -> (t: Transition)
        requires
            old(buf).wf(),
        ensures
            final(buf).wf(),
            final(buf)@ == replace_event(old(buf)@, event).buf,
            t@ == replace_event(old(buf)@, event).transition,
            event matches Event::Key(Key::Char(_)) ==> t@ == fresh_normal(),
    {
        match event {
            Event::Key(Key::Esc) => {
                return Transition::Trans(Mode::Normal(Normal::new()));
            },
            Event::Key(Key::Char(c)) => {
                buf.replace(c);
                return Transition::Trans(Mode::Normal(Normal::new()));
            },
            _ => {},
        }
        Transition::Nothing
    }
}

impl Search {
    /// Handles `event` in Search mode: escape and the line feed end the
    /// mode, backspace takes the last character off the query, and every
    /// other character goes to its end. Anything else is ignored.
    pub fn event(&mut self, buf: &mut Buffer, event: Event) -> (t: Transition)
        requires
            old(buf).wf(),
        ensures
            final(buf).wf(),
            final(buf)@ == search_event(old(buf)@, event).buf,
            t@ == search_event(old(buf)@, event).transition,
    {
        match event {
            Event::Key(Key::Esc) => {
                return Transition::Trans(Mode::Normal(Normal::new()));
            },
            Event::Key(Key::Backspace) => {
                buf.pop_search();
            },
            Event::Key(Key::Char(c)) => {
                if c == '\n' {
                    return Transition::Trans(Mode::Normal(Normal::new()));
                }
                buf.push_search(c);
            },
            _ => {},
        }
        Transition::Nothing
    }
}

/// The message that reports how saving to `path` went.
pub fn save_report(saved: bool, path: &str) -> (message: String)
    ensures
        message@ == save_message(saved, path@),
{
    let mut message = if saved {
        "Saved to ".to_owned()
    } else {
        "Failed to save ".to_owned()
    };
    message.append(path);
    message
}

impl Save {
    /// Save mode with nothing typed yet.
    pub fn new() -> (save: Save)
        ensures
            save@ == Seq::<char>::empty(),
    {
        Save { path: String::new() }
    }

    /// The path typed so far.
    pub fn path(&self) -> (path: &String)
        ensures
            path@ == self@,
    {
        &self.path
    }

    /// Handles `event` in Save mode: escape gives up, backspace takes the
    /// last character off the path, and every character but the line feed
    /// goes to its end. The line feed makes the typed path the file of the
    /// buffer and ends the mode with a message that says, according to
    /// `saved`, whether the text was written there. Anything else is ignored.
    pub fn event(&mut self, buf: &mut Buffer, event: Event, saved: bool) -> (t: Transition)
        requires
            old(buf).wf(),
        ensures
            final(buf).wf(),
            final(self)@ == save_path_after(old(self)@, event),
            final(buf)@ == save_event(old(self)@, old(buf)@, event, saved).buf,
            t@ == save_event(old(self)@, old(buf)@, event, saved).transition,
    {
        match event {
            Event::Key(Key::Esc) => {
                return Transition::Trans(Mode::Normal(Normal::new()));
            },
            Event::Key(Key::Backspace) => {
                self.path.pop();
            },
            Event::Key(Key::Char(c)) => {
                if c == '\n' {
                    buf.set_path(Some(self.path.clone()));
                    let message = save_report(saved, self.path.as_str());
                    return Transition::Trans(Mode::Normal(Normal::with_message(message)));
                }
                self.path.push(c);
            },
            _ => {},
        }
        Transition::Nothing
    }
}

impl Prefix {
    /// Handles `event` in Prefix mode: escape ends the mode and `q` ends the
    /// program. `s` in a buffer that has a file ends the mode with a message
    /// that says, according to `saved`, whether the text was written there;
    /// in a buffer that has none it starts Save mode. Anything else is
    /// ignored.
    pub fn event(&mut self, buf: &mut Buffer, event: Event, saved: bool) -> (t: Transition)
        requires
            old(buf).wf(),
        ensures
            final(buf).wf(),
            final(buf)@ == prefix_event(old(buf)@, event, saved).buf,
            t@ == prefix_event(old(buf)@, event, saved).transition,
    {
        match event {
            Event::Key(Key::Esc) => {
                return Transition::Trans(Mode::Normal(Normal::new()));
            },
            Event::Key(Key::Char('q')) => {
                return Transition::Exit;
            },
            Event::Key(Key::Char('s')) => {
                if let Some(path) = buf.path() {
                    let message = save_report(saved, path.as_str());
                    return Transition::Trans(Mode::Normal(Normal::with_message(message)));
                } else {
                    return Transition::Trans(Mode::Save(Save::new()));
                }
            },
            _ => {},
        }
        Transition::Nothing
    }
}

impl Mode {
    /// The file that handling `event` in this mode saves the text to, if it
    /// saves at all. The driver writes the text there before it hands the
    /// event to [`Mode::handle`], and tells it in `Context::saved` how that
    /// went.
    pub fn save_target(&self, buf: &Buffer, event: Event) -> (target: Option<String>)
        ensures
            match target {
                Some(path) => save_target(self@, buf@, event) == Some(path@),
                None => save_target(self@, buf@, event) is None,
            },
    {
        match (self, event) {
            (Mode::Save(save), Event::Key(Key::Char('\n'))) => Some(save.path().clone()),
            (Mode::Prefix(_), Event::Key(Key::Char('s'))) => match buf.path() {
                Some(path) => Some(path.clone()),
                None => None,
            },
            _ => None,
        }
    }

    /// Handles `event` in the current mode: it may edit the buffer, and
    /// says whether to stay, which mode comes next, or that the program
    /// ends. Events that the mode has no use for change nothing.
    pub fn handle(&mut self, buf: &mut Buffer, event: Event, ctx: &Context) -> (t: Transition)
        requires
            old(buf).wf(),
        ensures
            final(buf).wf(),
            final(self)@ == step(old(self)@, old(buf)@, event, *ctx).mode,
            final(buf)@ == step(old(self)@, old(buf)@, event, *ctx).buf,
            t@ == step(old(self)@, old(buf)@, event, *ctx).transition,
            !recognizes(old(self)@, event) ==> t@ == TransitionView::Nothing && final(buf)@ == old(
                buf,
            )@ && final(self)@ == old(self)@,
    {
        proof {
            if !recognizes(self@, event) {
                lemma_unrecognized_is_ignored(self@, buf@, event, *ctx);
            }
        }
        match self {
            Mode::Normal(normal) => normal.event(buf, event, ctx.height, ctx.width),
            Mode::Prefix(prefix) => prefix.event(buf, event, ctx.saved),
            Mode::Insert(insert) => insert.event(buf, event),
            Mode::Replace(replace) => replace.event(buf, event),
            Mode::Search(search) => search.event(buf, event),
            Mode::Save(save) => save.event(buf, event, ctx.saved),
        }
    }
}

impl Transition {
    /// Follows the transition: makes the mode that it names the current
    /// one, or leaves `mode` as it is where it names none. Returns whether
    /// the program goes on.
    pub fn apply(self, mode: &mut Mode) -> (running: bool)
        ensures
            running == (next_mode(old(mode)@, self@) is Some),
            running ==> next_mode(old(mode)@, self@) == Some(final(mode)@),
            !running ==> final(mode)@ == old(mode)@,
    {
        match self {
            Transition::Nothing => true,
            Transition::Trans(next) => {
                *mode = next;
                true
            },
            Transition::Exit => false,
        }
    }
}

} // verus!
