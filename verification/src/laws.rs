use vstd::prelude::*;
use crate::buffer::{BufferView, SCROLL_STEP, TAB_WIDTH};
use crate::event::{Event, Key, MouseButton, MouseEvent};
use crate::machine::{
    fresh_normal, insert_event, normal_event, recognizes, run, save_message, save_target, step,
    typed, ModeView, State, Step, TransitionView,
};
use crate::mode::Context;
use crate::render::cursor_shape;
use crate::term::{CursorState, TermView};

verus! {

/// An event that a mode has no use for changes nothing: the mode stays as
/// it is, the buffer stays as it is, and the driver is asked for nothing.
pub proof fn lemma_unrecognized_is_ignored(
    mode: ModeView,
    buf: BufferView,
    event: Event,
    ctx: Context,
)
    requires
        !recognizes(mode, event),
    ensures
        step(mode, buf, event, ctx) == (Step { mode, buf, transition: TransitionView::Nothing }),
{
}

/// The first character of a line that is no space stands within the line
/// or right behind it.
pub proof fn lemma_first_non_space_in_line(line: Seq<char>)
    ensures
        0 <= BufferView::first_non_space(line) <= line.len(),
    decreases line.len(),
{
    if line.len() > 0 && line[0] == ' ' {
        lemma_first_non_space_in_line(line.drop_first());
    }
}

/// Whatever Normal mode does on an event, the buffer stays in order.
proof fn lemma_normal_keeps_order(buf: BufferView, event: Event, height: int, width: int)
    requires
        buf.wf(),
    ensures
        normal_event(buf, event, height, width).buf.wf(),
{
    lemma_first_non_space_in_line(buf.current_line());
    assert(buf.cursor_up().wf());
    assert(buf.cursor_up().insert_newline().wf());
}

/// Whatever Insert mode does on an event, the buffer stays in order.
proof fn lemma_insert_keeps_order(buf: BufferView, event: Event)
    requires
        buf.wf(),
    ensures
        insert_event(buf, event).buf.wf(),
{
    buf.lemma_insert_space(BufferView::tab_fill(buf.col));
    assert(buf.backspace().wf());
    assert(buf.split_line().wf());
}

/// Whatever a mode does on an event, the buffer stays in order: it keeps
/// at least one line, the cursor stays on a line and at most one place
/// behind its end, and the first visible row stays a line.
pub proof fn lemma_step_keeps_order(mode: ModeView, buf: BufferView, event: Event, ctx: Context)
    requires
        buf.wf(),
    ensures
        step(mode, buf, event, ctx).buf.wf(),
{
    match mode {
        ModeView::Normal(_) => lemma_normal_keeps_order(
            buf,
            event,
            ctx.height as int,
            ctx.width as int,
        ),
        ModeView::Insert => lemma_insert_keeps_order(buf, event),
        _ => {},
    }
}

/// From Normal mode each of `i`, `I`, `a`, `A`, `o` and `O` leads to Insert
/// mode, and escape leads from there to Normal mode with no message,
/// whatever message there was before. Escape does not touch the buffer.
pub proof fn lemma_insert_keys_then_escape(
    message: Seq<char>,
    buf: BufferView,
    key: char,
    ctx: Context,
)
    requires
        key == 'i' || key == 'I' || key == 'a' || key == 'A' || key == 'o' || key == 'O',
    ensures
        step(ModeView::Normal(message), buf, Event::Key(Key::Char(key)), ctx).transition
            == TransitionView::Trans(ModeView::Insert),
        run(
            State { mode: ModeView::Normal(message), buf },
            seq![Event::Key(Key::Char(key)), Event::Key(Key::Esc)],
            ctx,
        ) == Some(
            State {
                mode: ModeView::Normal(Seq::empty()),
                buf: step(ModeView::Normal(message), buf, Event::Key(Key::Char(key)), ctx).buf,
            },
        ),
{
    let start = State { mode: ModeView::Normal(message), buf };
    let events = seq![Event::Key(Key::Char(key)), Event::Key(Key::Esc)];
    assert(events.drop_last() =~= seq![Event::Key(Key::Char(key))]);
    assert(events.drop_last().drop_last() =~= Seq::<Event>::empty());
    reveal_with_fuel(run, 3);
}

/// From Normal mode `r` leads to Replace mode. There any character is
/// written over the one under the cursor, and the next mode is Normal mode
/// with no message, whatever message there was before; an escape after that
/// changes nothing. Escape instead of the character leads to the same mode
/// and leaves the buffer alone.
pub proof fn lemma_replace_key_then_any(
    message: Seq<char>,
    buf: BufferView,
    c: char,
    ctx: Context,
)
    ensures
        step(ModeView::Normal(message), buf, Event::Key(Key::Char('r')), ctx).transition
            == TransitionView::Trans(ModeView::Replace),
        run(
            State { mode: ModeView::Normal(message), buf },
            seq![Event::Key(Key::Char('r')), Event::Key(Key::Char(c)), Event::Key(Key::Esc)],
            ctx,
        ) == Some(State { mode: ModeView::Normal(Seq::empty()), buf: buf.replace(c) }),
        run(
            State { mode: ModeView::Normal(message), buf },
            seq![Event::Key(Key::Char('r')), Event::Key(Key::Esc)],
            ctx,
        ) == Some(State { mode: ModeView::Normal(Seq::empty()), buf }),
{
    let r = Event::Key(Key::Char('r'));
    let esc = Event::Key(Key::Esc);
    let three = seq![r, Event::Key(Key::Char(c)), esc];
    assert(three.drop_last() =~= seq![r, Event::Key(Key::Char(c))]);
    assert(three.drop_last().drop_last() =~= seq![r]);
    assert(three.drop_last().drop_last().drop_last() =~= Seq::<Event>::empty());
    let two = seq![r, esc];
    assert(two.drop_last() =~= seq![r]);
    assert(two.drop_last().drop_last() =~= Seq::<Event>::empty());
    reveal_with_fuel(run, 4);
}

/// Replace mode ends with the first character: whatever the character, the
/// next mode is Normal mode with no message.
pub proof fn lemma_replace_is_one_shot(buf: BufferView, c: char, ctx: Context)
    ensures
        step(ModeView::Replace, buf, Event::Key(Key::Char(c)), ctx).transition == fresh_normal(),
        step(ModeView::Replace, buf, Event::Key(Key::Char(c)), ctx).buf == buf.replace(c),
{
}

/// Typing a text in Insert mode puts its characters in at the cursor one
/// after another and leaves the mode as it is, as long as the text holds no
/// tab.
pub proof fn lemma_typing_inserts(buf: BufferView, text: Seq<char>, ctx: Context)
    requires
        buf.wf(),
        forall|i: int| 0 <= i < text.len() ==> text[i] != '\t',
    ensures
        buf.insert_all(text).wf(),
        run(State { mode: ModeView::Insert, buf }, typed(text), ctx) == Some(
            State { mode: ModeView::Insert, buf: buf.insert_all(text) },
        ),
    decreases text.len(),
{
    buf.lemma_insert_all_splices(text);
    if text.len() > 0 {
        let head = text.drop_last();
        lemma_typing_inserts(buf, head, ctx);
        assert(typed(text).drop_last() =~= typed(head));
        assert(typed(text).last() == Event::Key(Key::Char(text.last())));
    }
}

/// Entering text and leaving: in Insert mode, typing a text that holds no
/// tab and then pressing escape leaves the text of the buffer as it was but
/// for the typed text, which stands where the cursor stood, with the cursor
/// behind it; and the mode is Normal mode with no message. The file, the
/// search query and the first visible row stay as they are.
pub proof fn lemma_insert_round_trip(buf: BufferView, text: Seq<char>, ctx: Context)
    requires
        buf.wf(),
        forall|i: int| 0 <= i < text.len() ==> text[i] != '\t',
    ensures
        ({
            let end = run(
                State { mode: ModeView::Insert, buf },
                typed(text).push(Event::Key(Key::Esc)),
                ctx,
            );
            &&& end matches Some(state)
            &&& state.mode == ModeView::Normal(Seq::empty())
            &&& state.buf.wf()
            &&& state.buf.text() == buf.text().take(buf.offset()) + text + buf.text().skip(
                buf.offset(),
            )
            &&& state.buf.offset() == buf.offset() + text.len()
            &&& state.buf.path == buf.path
            &&& state.buf.search == buf.search
            &&& state.buf.row_offset == buf.row_offset
        }),
{
    lemma_typing_inserts(buf, text, ctx);
    buf.lemma_insert_all_splices(text);
    let events = typed(text).push(Event::Key(Key::Esc));
    assert(events.drop_last() =~= typed(text));
}

/// Entering text within a line: in Insert mode, typing a text that holds
/// no tab and no line feed and then pressing escape changes the current
/// line only: the text stands in it where the cursor stood, with the cursor
/// behind it. The mode is Normal mode with no message.
pub proof fn lemma_insert_round_trip_in_line(buf: BufferView, text: Seq<char>, ctx: Context)
    requires
        buf.wf(),
        forall|i: int| 0 <= i < text.len() ==> text[i] != '\t' && text[i] != '\n',
    ensures
        run(State { mode: ModeView::Insert, buf }, typed(text).push(Event::Key(Key::Esc)), ctx)
            == Some(
            State {
                mode: ModeView::Normal(Seq::empty()),
                buf: (BufferView {
                    lines: buf.lines.update(
                        buf.row,
                        buf.current_line().take(buf.col) + text + buf.current_line().skip(buf.col),
                    ),
                    col: buf.col + text.len(),
                    ..buf
                }),
            },
        ),
{
    lemma_typing_inserts(buf, text, ctx);
    buf.lemma_insert_all_in_line(text);
    let events = typed(text).push(Event::Key(Key::Esc));
    assert(events.drop_last() =~= typed(text));
}

/// Scrolling stays within the text: one turn of the wheel up moves the
/// view up by the scroll step but not above the first line, one turn down
/// moves it down by the scroll step but not below the last line, and
/// neither touches anything else.
pub proof fn lemma_scroll_clamps(message: Seq<char>, buf: BufferView, x: u16, y: u16, ctx: Context)
    requires
        buf.wf(),
    ensures
        ({
            let up = step(
                ModeView::Normal(message),
                buf,
                Event::Mouse(MouseEvent::Press(MouseButton::WheelUp, x, y)),
                ctx,
            );
            &&& up.transition == TransitionView::Nothing
            &&& up.buf == buf.with_row_offset(up.buf.row_offset)
            &&& up.buf.row_offset == if buf.row_offset <= SCROLL_STEP {
                0
            } else {
                buf.row_offset - SCROLL_STEP
            }
        }),
        ({
            let down = step(
                ModeView::Normal(message),
                buf,
                Event::Mouse(MouseEvent::Press(MouseButton::WheelDown, x, y)),
                ctx,
            );
            &&& down.transition == TransitionView::Nothing
            &&& down.buf == buf.with_row_offset(down.buf.row_offset)
            &&& down.buf.row_offset == if buf.row_offset + SCROLL_STEP <= buf.lines.len() - 1 {
                buf.row_offset + SCROLL_STEP
            } else {
                buf.lines.len() - 1
            }
            &&& buf.row_offset == buf.lines.len() - 1 ==> down.buf == buf
        }),
{
}

/// A tab in Insert mode moves the cursor right to the next tab stop, by at
/// least one column, and what it puts into the line between the old and
/// the new place of the cursor is spaces only. Nothing else changes.
pub proof fn lemma_tab_reaches_stop(buf: BufferView, ctx: Context)
    requires
        buf.wf(),
    ensures
        ({
            let after = step(ModeView::Insert, buf, Event::Key(Key::Char('\t')), ctx).buf;
            let line = buf.current_line();
            let filled = after.current_line();
            &&& after.wf()
            &&& after.col > buf.col
            &&& after.col % (TAB_WIDTH as int) == 0
            &&& after.col - buf.col <= TAB_WIDTH
            &&& filled.len() == line.len() + (after.col - buf.col)
            &&& filled.take(buf.col) == line.take(buf.col)
            &&& filled.skip(after.col) == line.skip(buf.col)
            &&& forall|i: int| buf.col <= i < after.col ==> filled[i] == ' '
            &&& after == (BufferView { lines: buf.lines.update(buf.row, filled), col: after.col, ..buf })
        }),
{
    let after = step(ModeView::Insert, buf, Event::Key(Key::Char('\t')), ctx).buf;
    let line = buf.current_line();
    let filled = after.current_line();
    buf.lemma_insert_space(BufferView::tab_fill(buf.col));
    assert(filled.take(buf.col) =~= line.take(buf.col));
    assert(filled.skip(after.col) =~= line.skip(buf.col));
    assert(after.lines =~= buf.lines.update(buf.row, filled));
}

/// Quitting asks nothing: from Normal mode, the space bar and then `q` end
/// the program, whatever the buffer holds.
pub proof fn lemma_quit(message: Seq<char>, buf: BufferView, ctx: Context)
    ensures
        step(ModeView::Prefix, buf, Event::Key(Key::Char('q')), ctx).transition
            == TransitionView::Exit,
        run(
            State { mode: ModeView::Normal(message), buf },
            seq![Event::Key(Key::Char(' ')), Event::Key(Key::Char('q'))],
            ctx,
        ) is None,
{
    let events = seq![Event::Key(Key::Char(' ')), Event::Key(Key::Char('q'))];
    assert(events.drop_last() =~= seq![Event::Key(Key::Char(' '))]);
    assert(events.drop_last().drop_last() =~= Seq::<Event>::empty());
    reveal_with_fuel(run, 3);
}

/// How a save went counts only where something is saved: for an event that
/// names no file to save to, the step is the same whether `saved` is set or
/// not.
pub proof fn lemma_saved_counts_only_when_saving(
    mode: ModeView,
    buf: BufferView,
    event: Event,
    ctx: Context,
    other: Context,
)
    requires
        save_target(mode, buf, event) is None,
        other.height == ctx.height,
        other.width == ctx.width,
    ensures
        step(mode, buf, event, ctx) == step(mode, buf, event, other),
{
}

/// The size of the terminal counts only for a click: every other event is
/// handled the same on a terminal of any size.
pub proof fn lemma_size_counts_only_for_clicks(
    mode: ModeView,
    buf: BufferView,
    event: Event,
    ctx: Context,
    other: Context,
)
    requires
        !(mode is Normal && event matches Event::Mouse(MouseEvent::Press(MouseButton::Left, _, _))),
        other.saved == ctx.saved,
    ensures
        step(mode, buf, event, ctx) == step(mode, buf, event, other),
{
}

/// The cursor tells the mode: after rendering it is hidden, or shown as a
/// bar in Insert mode, as an underline in Replace mode and as a block in
/// every other mode. Rendering keeps the size of the screen.
pub proof fn lemma_cursor_tells_the_mode(
    term: TermView,
    mode: ModeView,
    buf: BufferView,
    cwd: Seq<char>,
)
    ensures
        ({
            let after = term.rendered(mode, buf, cwd);
            &&& after.height == term.height
            &&& after.width == term.width
            &&& match after.cursor {
                CursorState::Hide => true,
                CursorState::Show(_, shape) => shape == cursor_shape(mode),
            }
        }),
{
}

/// Handling one run of events after another is handling them all in a row.
pub proof fn lemma_run_in_parts(state: State, first: Seq<Event>, second: Seq<Event>, ctx: Context)
    ensures
        run(state, first + second, ctx) == match run(state, first, ctx) {
            Some(between) => run(between, second, ctx),
            None => None,
        },
    decreases second.len(),
{
    if second.len() == 0 {
        assert(first + second =~= first);
    } else {
        lemma_run_in_parts(state, first, second.drop_last(), ctx);
        assert((first + second).drop_last() =~= first + second.drop_last());
    }
}

/// Typing a path in Save mode puts it behind what was typed before and
/// touches nothing else, as long as the path holds no line feed.
pub proof fn lemma_typing_extends_path(
    typed_before: Seq<char>,
    buf: BufferView,
    path: Seq<char>,
    ctx: Context,
)
    requires
        forall|i: int| 0 <= i < path.len() ==> path[i] != '\n',
    ensures
        run(State { mode: ModeView::Save(typed_before), buf }, typed(path), ctx) == Some(
            State { mode: ModeView::Save(typed_before + path), buf },
        ),
    decreases path.len(),
{
    if path.len() == 0 {
        assert(typed_before + path =~= typed_before);
    } else {
        let head = path.drop_last();
        lemma_typing_extends_path(typed_before, buf, head, ctx);
        assert(typed(path).drop_last() =~= typed(head));
        assert(typed(path).last() == Event::Key(Key::Char(path.last())));
        assert((typed_before + head).push(path.last()) =~= typed_before + path);
    }
}

/// Saving under a new name: in a buffer that has no file, the space bar,
/// `s`, a path without a line feed and a line feed make the path the file
/// of the buffer and lead to Normal mode, whose message says whether the
/// text was saved to the path or saving failed. Nothing else changes in
/// the buffer.
pub proof fn lemma_save_as(message: Seq<char>, buf: BufferView, path: Seq<char>, ctx: Context)
    requires
        buf.path is None,
        forall|i: int| 0 <= i < path.len() ==> path[i] != '\n',
    ensures
        run(
            State { mode: ModeView::Normal(message), buf },
            seq![Event::Key(Key::Char(' ')), Event::Key(Key::Char('s'))] + typed(path)
                + seq![Event::Key(Key::Char('\n'))],
            ctx,
        ) == Some(
            State {
                mode: ModeView::Normal(save_message(ctx.saved, path)),
                buf: buf.with_path(Some(path)),
            },
        ),
        save_message(true, path) == "Saved to "@ + path,
        save_message(false, path) == "Failed to save "@ + path,
{
    let start = State { mode: ModeView::Normal(message), buf };
    let enter = seq![Event::Key(Key::Char(' ')), Event::Key(Key::Char('s'))];
    let commit = seq![Event::Key(Key::Char('\n'))];
    assert(enter.drop_last() =~= seq![Event::Key(Key::Char(' '))]);
    assert(enter.drop_last().drop_last() =~= Seq::<Event>::empty());
    assert(commit.drop_last() =~= Seq::<Event>::empty());
    reveal_with_fuel(run, 3);
    assert(run(start, enter, ctx) == Some(State { mode: ModeView::Save(Seq::empty()), buf }));
    lemma_typing_extends_path(Seq::empty(), buf, path, ctx);
    assert(Seq::<char>::empty() + path =~= path);
    lemma_run_in_parts(start, enter, typed(path), ctx);
    lemma_run_in_parts(start, enter + typed(path), commit, ctx);
}

} // verus!
