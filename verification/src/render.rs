use vstd::prelude::*;
use crate::buffer::{Buffer, BufferView};
use crate::cursor::Cursor;
use crate::machine::ModeView;
use crate::mode::{Insert, Mode, Normal, Prefix, Save, Search, R};
use crate::strings::{decimal, push_chars, push_decimal};
use crate::term::{CharStyle, CursorShape, CursorState, Term, TermView, Viewport};

verus! {

/// The cursor shown at `at` in `shape`, or hidden where `at` is `None`.
pub open spec fn cursor_state(at: Option<Cursor>, shape: CursorShape) -> CursorState {
    match at {
        Some(cell) => CursorState::Show(cell, shape),
        None => CursorState::Hide,
    }
}

/// The shape of the cursor in `mode`: a bar while inserting, an underline
/// while replacing, and a block otherwise.
pub open spec fn cursor_shape(mode: ModeView) -> CursorShape {
    match mode {
        ModeView::Insert => CursorShape::Bar,
        ModeView::Replace => CursorShape::Underline,
        _ => CursorShape::Block,
    }
}

/// The number of rows that `mode` keeps at the bottom of the screen for its
/// status lines.
pub open spec fn footer_rows(mode: ModeView) -> int {
    match mode {
        ModeView::Insert => 0,
        ModeView::Replace => 0,
        ModeView::Save(_) => 2,
        _ => 1,
    }
}

/// The status line of Normal mode: the place of the cursor counted from
/// one, the file of the buffer or `*` where it has none, and the message.
pub open spec fn normal_footer(buf: BufferView, message: Seq<char>) -> Seq<char> {
    "[Normal] ("@ + decimal((buf.row + 1) as nat) + " "@ + decimal((buf.col + 1) as nat) + ") ["@
        + (match buf.path {
        Some(path) => path,
        None => "*"@,
    }) + "] "@ + message
}

/// The status line of Prefix mode.
pub open spec fn prefix_footer() -> Seq<char> {
    "Prefix ... [q: Quit] [s: Save]"@
}

/// The status line of Search mode: a slash and the query.
pub open spec fn search_footer(buf: BufferView) -> Seq<char> {
    "/"@ + buf.search
}

/// The input line of Save mode: a prompt and the path typed so far.
pub open spec fn save_prompt(path: Seq<char>) -> Seq<char> {
    "> "@ + path
}

impl Viewport {
    /// The rectangle with the pen at the start of the row below, after
    /// `count` characters were written.
    pub open spec fn next_line_after(self, count: int) -> Viewport {
        self.after_text(count).spec_newline()
    }
}

impl TermView {
    /// The number of rows that are left for the text above `footer_rows`
    /// status lines.
    pub open spec fn body_rows(self, footer_rows: int) -> int {
        if footer_rows <= self.height {
            self.height - footer_rows
        } else {
            0
        }
    }

    /// The rectangle for the text: the whole width, from the top down to
    /// the status lines.
    pub open spec fn body_area(self, footer_rows: int) -> Viewport {
        self.clip(0, 0, self.body_rows(footer_rows), self.width)
    }

    /// The rectangle for the status lines: the whole width of the last
    /// `footer_rows` rows, or of all rows if there are fewer.
    pub open spec fn footer_area(self, footer_rows: int) -> Viewport {
        self.clip(self.body_rows(footer_rows), 0, footer_rows, self.width)
    }

    /// The screen with the buffer painted above `footer_rows` status lines
    /// and the cursor shown in `shape` where it falls on the text, or hidden
    /// where it is out of sight.
    pub open spec fn frame(self, buf: BufferView, footer_rows: int, shape: CursorShape) -> TermView {
        let body = self.body_area(footer_rows);
        self.paint(body, buf).with_cursor(cursor_state(buf.screen_cursor(self, body), shape))
    }

    /// The screen after `mode` has rendered `buf` onto it, with `cwd` as the
    /// working directory: the text, the cursor in the shape of the mode, and
    /// the status lines of the mode.
    pub open spec fn rendered(self, mode: ModeView, buf: BufferView, cwd: Seq<char>) -> TermView {
        let framed = self.frame(buf, footer_rows(mode), cursor_shape(mode));
        let footer = self.footer_area(footer_rows(mode));
        match mode {
            ModeView::Normal(message) => framed.write(
                footer,
                normal_footer(buf, message),
                CharStyle::Footer,
            ),
            ModeView::Prefix => framed.write(footer, prefix_footer(), CharStyle::Footer),
            ModeView::Insert => framed,
            ModeView::Replace => framed,
            ModeView::Search => framed.write(footer, search_footer(buf), CharStyle::Default),
            ModeView::Save(path) => framed.write(footer, cwd, CharStyle::UI).write(
                footer.next_line_after(cwd.len() as int),
                save_prompt(path),
                CharStyle::UI,
            ),
        }
    }
}

/// Paints the buffer above `footer_rows` status lines and sets the cursor.
/// Returns the rectangle of the status lines.
fn frame(buf: &Buffer, term: &mut Term, footer_rows: usize, shape: CursorShape) -> (footer: Viewport)
    requires
        buf.wf(),
        old(term).wf(),
    ensures
        final(term).wf(),
        final(term)@ == old(term)@.frame(buf@, footer_rows as int, shape),
        footer == old(term)@.footer_area(footer_rows as int),
{
    let height = term.height();
    let width = term.width();
    let body_rows = if footer_rows <= height {
        height - footer_rows
    } else {
        0
    };
    let body = term.viewport((0, 0), body_rows, width);
    let cursor = buf.draw(term, body);
    term.set_cursor(
        match cursor {
            Some(cell) => CursorState::Show(cell, shape),
            None => CursorState::Hide,
        },
    );
    term.viewport((body_rows, 0), footer_rows, width)
}

impl Normal {
    /// Renders the buffer in Normal mode: the text above one status line
    /// and a block cursor.
    pub fn draw(&self, buf: &Buffer, term: &mut Term)
        requires
            buf.wf(),
            old(term).wf(),
        ensures
            final(term).wf(),
            final(term)@ == old(term)@.rendered(ModeView::Normal(self@), buf@, Seq::empty()),
    {
        let mut footer = frame(buf, term, 1, CursorShape::Block);
        let cursor = buf.cursor();
        let mut text = "[Normal] (".to_owned();
        push_decimal(&mut text, cursor.row as u128 + 1);
        text.append(" ");
        push_decimal(&mut text, cursor.col as u128 + 1);
        text.append(") [");
        match buf.path() {
            Some(path) => text.append(path.as_str()),
            None => text.append("*"),
        }
        text.append("] ");
        text.append(self.message().as_str());
        term.puts(&mut footer, text.as_str(), CharStyle::Footer);
    }
}

impl Insert {
    /// Renders the buffer in Insert mode: the text on the whole screen and
    /// a bar cursor.
    pub fn draw(&self, buf: &Buffer, term: &mut Term)
        requires
            buf.wf(),
            old(term).wf(),
        ensures
            final(term).wf(),
            final(term)@ == old(term)@.rendered(ModeView::Insert, buf@, Seq::empty()),
    {
        frame(buf, term, 0, CursorShape::Bar);
    }
}

impl R {
    /// Renders the buffer in Replace mode: the text on the whole screen and
    /// an underline cursor.
    pub fn draw(&self, buf: &Buffer, term: &mut Term)
        requires
            buf.wf(),
            old(term).wf(),
        ensures
            final(term).wf(),
            final(term)@ == old(term)@.rendered(ModeView::Replace, buf@, Seq::empty()),
    {
        frame(buf, term, 0, CursorShape::Underline);
    }
}

impl Search {
    /// Renders the buffer in Search mode: the text above one line that
    /// shows a slash and the query, and a block cursor.
    pub fn draw(&self, buf: &Buffer, term: &mut Term)
        requires
            buf.wf(),
            old(term).wf(),
        ensures
            final(term).wf(),
            final(term)@ == old(term)@.rendered(ModeView::Search, buf@, Seq::empty()),
    {
        let mut footer = frame(buf, term, 1, CursorShape::Block);
        let mut text = "/".to_owned();
        push_chars(&mut text, buf.search());
        term.puts(&mut footer, text.as_str(), CharStyle::Default);
    }
}

impl Save {
    /// Renders the buffer in Save mode: the text above two lines, of which
    /// the first shows the working directory `cwd` and the second a prompt
    /// and the path typed so far, and a block cursor.
    pub fn draw(&self, buf: &Buffer, term: &mut Term, cwd: &str)
        requires
            buf.wf(),
            old(term).wf(),
        ensures
            final(term).wf(),
            final(term)@ == old(term)@.rendered(ModeView::Save(self@), buf@, cwd@),
    {
        let mut footer = frame(buf, term, 2, CursorShape::Block);
        term.puts(&mut footer, cwd, CharStyle::UI);
        footer.newline();
        let mut text = "> ".to_owned();
        text.append(self.path().as_str());
        term.puts(&mut footer, text.as_str(), CharStyle::UI);
    }
}

impl Prefix {
    /// Renders the buffer in Prefix mode: the text above one line that
    /// names the command keys, and a block cursor.
    pub fn draw(&self, buf: &Buffer, term: &mut Term)
        requires
            buf.wf(),
            old(term).wf(),
        ensures
            final(term).wf(),
            final(term)@ == old(term)@.rendered(ModeView::Prefix, buf@, Seq::empty()),
    {
        let mut footer = frame(buf, term, 1, CursorShape::Block);
        term.puts(&mut footer, "Prefix ... [q: Quit] [s: Save]", CharStyle::Footer);
    }
}

impl Mode {
    /// Renders the buffer as the current mode shows it. `cwd` is the working
    /// directory, which Save mode displays.
    pub fn render(&self, buf: &Buffer, term: &mut Term, cwd: &str)
        requires
            buf.wf(),
            old(term).wf(),
        ensures
            final(term).wf(),
            final(term)@ == old(term)@.rendered(self@, buf@, cwd@),
    {
        match self {
            Mode::Normal(normal) => normal.draw(buf, term),
            Mode::Prefix(prefix) => prefix.draw(buf, term),
            Mode::Insert(insert) => insert.draw(buf, term),
            Mode::Replace(replace) => replace.draw(buf, term),
            Mode::Search(search) => search.draw(buf, term),
            Mode::Save(save) => save.draw(buf, term, cwd),
        }
    }
}

} // verus!
