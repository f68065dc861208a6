use vstd::prelude::*;
use crate::cursor::Cursor;
use crate::strings::push_chars;
use crate::text::{join_lines, split_lines};

verus! {

/// The distance between two soft tab stops.
pub const TAB_WIDTH: usize = 4;

/// How many rows one turn of the mouse wheel scrolls.
pub const SCROLL_STEP: usize = 3;

/// The mathematical content of a [`Buffer`]: its lines, the place of the
/// cursor, the first visible row, the file it belongs to and the search query.
pub struct BufferView {
    pub lines: Seq<Seq<char>>,
    pub row: int,
    pub col: int,
    pub row_offset: int,
    pub path: Option<Seq<char>>,
    pub search: Seq<char>,
}

impl BufferView {
    /// There is at least one line, the cursor stands on a line and at most
    /// one place behind its end, and the first visible row is a line.
    pub open spec fn wf(self) -> bool {
        &&& self.lines.len() >= 1
        &&& 0 <= self.row < self.lines.len()
        &&& 0 <= self.col <= self.lines[self.row].len()
        &&& 0 <= self.row_offset < self.lines.len()
    }

    /// The line that the cursor stands on.
    pub open spec fn current_line(self) -> Seq<char> {
        self.lines[self.row]
    }

    /// The column of the first character of `line` that is no space, or the
    /// length of `line` if it holds nothing else.
    pub open spec fn first_non_space(line: Seq<char>) -> int
        decreases line.len(),
    {
        if line.len() == 0 || line[0] != ' ' {
            0
        } else {
            1 + Self::first_non_space(line.drop_first())
        }
    }

    /// The same buffer with the cursor at `col` of the same row.
    pub open spec fn with_col(self, col: int) -> BufferView {
        BufferView { col, ..self }
    }

    /// The same buffer with the cursor at `row` and `col`.
    pub open spec fn with_cursor(self, row: int, col: int) -> BufferView {
        BufferView { row, col, ..self }
    }

    /// The same buffer scrolled so that `row_offset` is the first visible row.
    pub open spec fn with_row_offset(self, row_offset: int) -> BufferView {
        BufferView { row_offset, ..self }
    }

    /// The same buffer belonging to the file `path`.
    pub open spec fn with_path(self, path: Option<Seq<char>>) -> BufferView {
        BufferView { path, ..self }
    }

    /// The same buffer with the search query `search`.
    pub open spec fn with_search(self, search: Seq<char>) -> BufferView {
        BufferView { search, ..self }
    }

    /// The same buffer with the cursor as near to `row` and `col` as the text
    /// allows: on the last line if `row` is below it, and behind the end of
    /// the line if `col` is beyond it.
    pub open spec fn move_to(self, row: int, col: int) -> BufferView {
        let r = if row < self.lines.len() {
            row
        } else {
            self.lines.len() - 1
        };
        self.with_cursor(r, self.clamp_col(r, col))
    }

    /// One column to the left, unless the cursor is at the start of its line.
    pub open spec fn cursor_left(self) -> BufferView {
        if self.col > 0 {
            self.with_col(self.col - 1)
        } else {
            self
        }
    }

    /// One column to the right, unless the cursor is behind the end of its line.
    pub open spec fn cursor_right(self) -> BufferView {
        if self.col < self.current_line().len() {
            self.with_col(self.col + 1)
        } else {
            self
        }
    }

    /// `col`, or the length of line `row` if that is less.
    pub open spec fn clamp_col(self, row: int, col: int) -> int {
        if col <= self.lines[row].len() {
            col
        } else {
            self.lines[row].len() as int
        }
    }

    /// One row up, unless the cursor is on the first line. The column stays
    /// as far as the line above reaches.
    pub open spec fn cursor_up(self) -> BufferView {
        if self.row > 0 {
            self.with_cursor(self.row - 1, self.clamp_col(self.row - 1, self.col))
        } else {
            self
        }
    }

    /// One row down, unless the cursor is on the last line. The column stays
    /// as far as the line below reaches.
    pub open spec fn cursor_down(self) -> BufferView {
        if self.row + 1 < self.lines.len() {
            self.with_cursor(self.row + 1, self.clamp_col(self.row + 1, self.col))
        } else {
            self
        }
    }

    /// The current line cut in two at the cursor, which moves to the start of
    /// the second part.
    pub open spec fn split_line(self) -> BufferView {
        let line = self.current_line();
        BufferView {
            lines: self.lines.update(self.row, line.take(self.col)).insert(
                self.row + 1,
                line.skip(self.col),
            ),
            row: self.row + 1,
            col: 0,
            ..self
        }
    }

    /// `c` put in at the cursor, which moves behind it. A line feed cuts the
    /// line in two instead.
    pub open spec fn insert(self, c: char) -> BufferView {
        if c == '\n' {
            self.split_line()
        } else {
            BufferView {
                lines: self.lines.update(self.row, self.current_line().insert(self.col, c)),
                col: self.col + 1,
                ..self
            }
        }
    }

    /// A new empty line below the current one, with the cursor on it.
    pub open spec fn insert_newline(self) -> BufferView {
        BufferView {
            lines: self.lines.insert(self.row + 1, Seq::empty()),
            row: self.row + 1,
            col: 0,
            ..self
        }
    }

    /// `row_offset`, or the last row of a buffer of `line_count` lines if
    /// that is less.
    pub open spec fn clamp_offset(row_offset: int, line_count: int) -> int {
        if row_offset < line_count {
            row_offset
        } else {
            line_count - 1
        }
    }

    /// The character before the cursor taken out. At the start of a line the
    /// line is joined to the one above, and the view follows if its first
    /// row was the last line. At the start of the text nothing happens.
    pub open spec fn backspace(self) -> BufferView {
        if self.col > 0 {
            BufferView {
                lines: self.lines.update(self.row, self.current_line().remove(self.col - 1)),
                col: self.col - 1,
                ..self
            }
        } else if self.row > 0 {
            let above = self.lines[self.row - 1];
            BufferView {
                lines: self.lines.update(self.row - 1, above + self.current_line()).remove(
                    self.row,
                ),
                row: self.row - 1,
                col: above.len() as int,
                row_offset: Self::clamp_offset(self.row_offset, self.lines.len() - 1),
                ..self
            }
        } else {
            self
        }
    }

    /// The character under the cursor overwritten with `c`. Behind the end
    /// of the line there is none, and nothing happens.
    pub open spec fn replace(self, c: char) -> BufferView {
        if self.col < self.current_line().len() {
            BufferView {
                lines: self.lines.update(self.row, self.current_line().update(self.col, c)),
                ..self
            }
        } else {
            self
        }
    }

    /// `text` put into the current line at the cursor, which moves behind it.
    pub open spec fn insert_text(self, text: Seq<char>) -> BufferView {
        let line = self.current_line();
        BufferView {
            lines: self.lines.update(self.row, line.take(self.col) + text + line.skip(self.col)),
            col: self.col + text.len(),
            ..self
        }
    }

    /// `count` spaces put in at the cursor, which moves behind them.
    pub open spec fn insert_spaces(self, count: int) -> BufferView {
        self.insert_text(Seq::new(count as nat, |i: int| ' '))
    }

    /// The number of spaces that a tab puts in at column `col`: as many as
    /// lead to the next tab stop, and so at least one.
    pub open spec fn tab_fill(col: int) -> int {
        TAB_WIDTH - col % (TAB_WIDTH as int)
    }

    /// A tab put in at the cursor: spaces up to the next tab stop.
    pub open spec fn insert_tab(self) -> BufferView {
        self.insert_spaces(Self::tab_fill(self.col))
    }

    /// Putting in the characters of a text one by one is putting in the
    /// text, as long as none of them is a line feed.
    pub proof fn lemma_insert_char(self, text: Seq<char>, c: char)
        requires
            self.wf(),
            c != '\n',
        ensures
            self.insert_text(text).wf(),
            self.insert_text(Seq::empty()) == self,
            self.insert_text(text).insert(c) == self.insert_text(text.push(c)),
    {
        let line = self.current_line();
        assert(line.take(self.col) + Seq::<char>::empty() + line.skip(self.col) =~= line);
        assert(self.insert_text(Seq::empty()).lines =~= self.lines);
        let before = self.insert_text(text);
        let after = self.insert_text(text.push(c));
        assert(before.insert(c).lines[self.row] =~= after.lines[self.row]);
        assert(before.insert(c).lines =~= after.lines);
    }

    /// Putting in spaces one by one is putting them in at once.
    pub proof fn lemma_insert_space(self, count: int)
        requires
            self.wf(),
            count >= 0,
        ensures
            self.insert_spaces(count).wf(),
            self.insert_spaces(0) == self,
            self.insert_spaces(count).insert(' ') == self.insert_spaces(count + 1),
    {
        let spaces = Seq::new(count as nat, |i: int| ' ');
        self.lemma_insert_char(spaces, ' ');
        assert(Seq::new(0, |i: int| ' ') =~= Seq::<char>::empty());
        assert(spaces.push(' ') =~= Seq::new((count + 1) as nat, |i: int| ' '));
    }

    /// The view moved up by [`SCROLL_STEP`] rows, but not above the first line.
    pub open spec fn scroll_up(self) -> BufferView {
        if self.row_offset < SCROLL_STEP {
            self.with_row_offset(0)
        } else {
            self.with_row_offset(self.row_offset - SCROLL_STEP)
        }
    }

    /// The view moved down by [`SCROLL_STEP`] rows, but not below the last line.
    pub open spec fn scroll_down(self) -> BufferView {
        if self.row_offset + SCROLL_STEP < self.lines.len() {
            self.with_row_offset(self.row_offset + SCROLL_STEP)
        } else {
            self.with_row_offset(self.lines.len() - 1)
        }
    }
}

/// The contents of `lines` as sequences.
pub open spec fn lines_view(lines: Seq<Vec<char>>) -> Seq<Seq<char>> {
    Seq::new(lines.len(), |i: int| lines[i]@)
}

/// The text being edited, with the cursor, the scroll position, the file it
/// belongs to and the search query.
#[derive(Clone, Debug, PartialEq, Eq)]
pub struct Buffer {
    lines: Vec<Vec<char>>,
    cursor: Cursor,
    row_offset: usize,
    path: Option<String>,
    search: Vec<char>,
}

impl View for Buffer {
    type V = BufferView;

    closed spec fn view(&self) -> BufferView {
        BufferView {
            lines: lines_view(self.lines@),
            row: self.cursor.row as int,
            col: self.cursor.col as int,
            row_offset: self.row_offset as int,
            path: match self.path {
                Some(p) => Some(p@),
                None => None,
            },
            search: self.search@,
        }
    }
}

impl Buffer {
    /// Whether the buffer is in order: see [`BufferView::wf`].
    pub open spec fn wf(&self) -> bool {
        self@.wf()
    }

    /// A buffer of one empty line, with no file and no search query.
    pub fn new() -> (buf: Buffer)
        ensures
            buf.wf(),
            buf@ == (BufferView {
                lines: seq![Seq::<char>::empty()],
                row: 0,
                col: 0,
                row_offset: 0,
                path: None,
                search: Seq::empty(),
            }),
    {
        let mut lines: Vec<Vec<char>> = Vec::new();
        lines.push(Vec::new());
        let buf = Buffer {
            lines,
            cursor: Cursor { row: 0, col: 0 },
            row_offset: 0,
            path: None,
            search: Vec::new(),
        };
        assert(buf@.lines =~= seq![Seq::<char>::empty()]);
        buf
    }

    /// The number of lines.
    pub fn line_count(&self) -> (n: usize)
        ensures
            n == self@.lines.len(),
    {
        self.lines.len()
    }

    /// The place of the cursor.
    pub fn cursor(&self) -> (c: Cursor)
        ensures
            c.row == self@.row,
            c.col == self@.col,
    {
        self.cursor
    }

    /// The first visible row.
    pub fn row_offset(&self) -> (r: usize)
        ensures
            r == self@.row_offset,
    {
        self.row_offset
    }

    /// The line that the cursor stands on.
    pub fn current_line(&self) -> (line: &Vec<char>)
        requires
            self.wf(),
        ensures
            line@ == self@.current_line(),
    {
        &self.lines[self.cursor.row]
    }

    /// Moves the cursor one column to the left, if it can.
    pub fn cursor_left(&mut self)
        requires
            old(self).wf(),
        ensures
            final(self).wf(),
            final(self)@ == old(self)@.cursor_left(),
    {
        if self.cursor.col > 0 {
            self.cursor.col = self.cursor.col - 1;
        }
    }

    /// Moves the cursor one column to the right, if it can.
    pub fn cursor_right(&mut self)
        requires
            old(self).wf(),
        ensures
            final(self).wf(),
            final(self)@ == old(self)@.cursor_right(),
    {
        if self.cursor.col < self.lines[self.cursor.row].len() {
            self.cursor.col = self.cursor.col + 1;
        }
    }

    /// Moves the cursor one row up, if it can.
    pub fn cursor_up(&mut self)
        requires
            old(self).wf(),
        ensures
            final(self).wf(),
            final(self)@ == old(self)@.cursor_up(),
    {
        if self.cursor.row > 0 {
            let row = self.cursor.row - 1;
            let len = self.lines[row].len();
            let col = if self.cursor.col <= len {
                self.cursor.col
            } else {
                len
            };
            self.cursor = Cursor { row, col };
        }
    }

    /// Moves the cursor one row down, if it can.
    pub fn cursor_down(&mut self)
        requires
            old(self).wf(),
        ensures
            final(self).wf(),
            final(self)@ == old(self)@.cursor_down(),
    {
        if self.cursor.row < self.lines.len() - 1 {
            let row = self.cursor.row + 1;
            let len = self.lines[row].len();
            let col = if self.cursor.col <= len {
                self.cursor.col
            } else {
                len
            };
            self.cursor = Cursor { row, col };
        }
    }

    /// Puts `c` in at the cursor and moves the cursor behind it. A line feed
    /// cuts the line in two at the cursor.
    pub fn insert(&mut self, c: char)
        requires
            old(self).wf(),
        ensures
            final(self).wf(),
            final(self)@ == old(self)@.insert(c),
    {
        let row = self.cursor.row;
        let col = self.cursor.col;
        assert(row < self.lines.len());
        if c == '\n' {
            let rest = self.lines[row].split_off(col);
            self.lines.insert(row + 1, rest);
            self.cursor = Cursor { row: row + 1, col: 0 };
            assert(self@.lines =~= old(self)@.split_line().lines);
        } else {
            self.lines[row].insert(col, c);
            assert(col < self.lines[row as int].len());
            self.cursor = Cursor { row, col: col + 1 };
            assert(self@.lines =~= old(self)@.insert(c).lines);
        }
    }

    /// Opens a new empty line below the current one and moves the cursor
    /// onto it.
    pub fn insert_newline(&mut self)
        requires
            old(self).wf(),
        ensures
            final(self).wf(),
            final(self)@ == old(self)@.insert_newline(),
    {
        let row = self.cursor.row;
        assert(row < self.lines.len());
        self.lines.insert(row + 1, Vec::new());
        self.cursor = Cursor { row: row + 1, col: 0 };
        assert(self@.lines =~= old(self)@.insert_newline().lines);
    }

    /// Takes out the character before the cursor. At the start of a line it
    /// joins the line to the one above; at the start of the text it does
    /// nothing.
    pub fn backspace(&mut self)
        requires
            old(self).wf(),
        ensures
            final(self).wf(),
            final(self)@ == old(self)@.backspace(),
    {
        let row = self.cursor.row;
        let col = self.cursor.col;
        if col > 0 {
            self.lines[row].remove(col - 1);
            self.cursor = Cursor { row, col: col - 1 };
            assert(self@.lines =~= old(self)@.backspace().lines);
        } else if row > 0 {
            let mut tail = self.lines.remove(row);
            let above = self.lines[row - 1].len();
            self.lines[row - 1].append(&mut tail);
            self.cursor = Cursor { row: row - 1, col: above };
            if self.row_offset >= self.lines.len() {
                self.row_offset = self.lines.len() - 1;
            }
            assert(self@.lines =~= old(self)@.backspace().lines);
        }
    }

    /// Overwrites the character under the cursor with `c`. Behind the end of
    /// the line there is none, and nothing happens.
    pub fn replace(&mut self, c: char)
        requires
            old(self).wf(),
        ensures
            final(self).wf(),
            final(self)@ == old(self)@.replace(c),
    {
        let row = self.cursor.row;
        let col = self.cursor.col;
        if col < self.lines[row].len() {
            self.lines[row][col] = c;
            assert(self@.lines =~= old(self)@.replace(c).lines);
        }
    }

    /// Scrolls the view up by [`SCROLL_STEP`] rows, stopping at the first line.
    pub fn scroll_up(&mut self)
        requires
            old(self).wf(),
        ensures
            final(self).wf(),
            final(self)@ == old(self)@.scroll_up(),
    {
        if self.row_offset < SCROLL_STEP {
            self.row_offset = 0;
        } else {
            self.row_offset = self.row_offset - SCROLL_STEP;
        }
    }

    /// Scrolls the view down by [`SCROLL_STEP`] rows, stopping at the last line.
    pub fn scroll_down(&mut self)
        requires
            old(self).wf(),
        ensures
            final(self).wf(),
            final(self)@ == old(self)@.scroll_down(),
    {
        let last = self.lines.len() - 1;
        if last - self.row_offset > SCROLL_STEP {
            self.row_offset = self.row_offset + SCROLL_STEP;
        } else {
            self.row_offset = last;
        }
    }

    /// Moves the cursor as near to `at` as the text allows.
    pub fn set_cursor(&mut self, at: Cursor)
        requires
            old(self).wf(),
        ensures
            final(self).wf(),
            final(self)@ == old(self)@.move_to(at.row as int, at.col as int),
    {
        let row = if at.row < self.lines.len() {
            at.row
        } else {
            self.lines.len() - 1
        };
        let len = self.lines[row].len();
        let col = if at.col <= len {
            at.col
        } else {
            len
        };
        self.cursor = Cursor { row, col };
    }

    /// Line `row`, if there is one.
    pub fn line(&self, row: usize) -> (line: Option<&Vec<char>>)
        ensures
            row < self@.lines.len() ==> line is Some && line->0@ == self@.lines[row as int],
            row >= self@.lines.len() ==> line is None,
    {
        if row < self.lines.len() {
            Some(&self.lines[row])
        } else {
            None
        }
    }

    /// The file that the buffer belongs to, if it has one.
    pub fn path(&self) -> (path: &Option<String>)
        ensures
            match *path {
                Some(p) => self@.path == Some(p@),
                None => self@.path is None,
            },
    {
        &self.path
    }

    /// Makes the buffer belong to the file `path`, or to none.
    pub fn set_path(&mut self, path: Option<String>)
        ensures
            final(self)@ == old(self)@.with_path(
                match path {
                    Some(p) => Some(p@),
                    None => None,
                },
            ),
    {
        self.path = path;
    }

    /// The search query.
    pub fn search(&self) -> (query: &Vec<char>)
        ensures
            query@ == self@.search,
    {
        &self.search
    }

    /// Puts `c` at the end of the search query.
    pub fn push_search(&mut self, c: char)
        ensures
            final(self)@ == old(self)@.with_search(old(self)@.search.push(c)),
    {
        self.search.push(c);
    }

    /// Takes the last character off the search query, if it has one.
    pub fn pop_search(&mut self)
        ensures
            final(self)@ == old(self)@.with_search(
                if old(self)@.search.len() > 0 {
                    old(self)@.search.drop_last()
                } else {
                    old(self)@.search
                },
            ),
    {
        self.search.pop();
    }

    /// A buffer that holds `text`, with the cursor at its start, no file and
    /// no search query.
    pub fn from_text(text: &str) -> (buf: Buffer)
        ensures
            buf.wf(),
            buf@ == (BufferView {
                lines: split_lines(text@),
                row: 0,
                col: 0,
                row_offset: 0,
                path: None,
                search: Seq::empty(),
            }),
    {
        let mut lines: Vec<Vec<char>> = Vec::new();
        lines.push(Vec::new());
        assert(lines_view(lines@) =~= split_lines(text@.take(0)));
        for ch in it: text.chars()
            invariant
                it.seq() == text@,
                lines@.len() >= 1,
                lines_view(lines@) == split_lines(text@.take(it.index() as int)),
        {
            let ghost done = text@.take(it.index() as int);
            let ghost next = text@.take(it.index() + 1);
            assert(next.drop_last() =~= done);
            assert(next.last() == ch);
            if ch == '\n' {
                lines.push(Vec::new());
            } else {
                let last = lines.len() - 1;
                lines[last].push(ch);
            }
            assert(lines_view(lines@) =~= split_lines(next));
        }
        assert(text@.take(text@.len() as int) == text@);
        Buffer {
            lines,
            cursor: Cursor { row: 0, col: 0 },
            row_offset: 0,
            path: None,
            search: Vec::new(),
        }
    }

    /// The whole text: the lines with a line feed between each two.
    pub fn text(&self) -> (text: String)
        requires
            self.wf(),
        ensures
            text@ == join_lines(self@.lines),
    {
        let mut text = String::new();
        push_chars(&mut text, &self.lines[0]);
        assert(self@.lines.take(1) =~= seq![self@.lines[0]]);
        let mut row: usize = 1;
        while row < self.lines.len()
            invariant
                1 <= row <= self.lines.len(),
                text@ == join_lines(self@.lines.take(row as int)),
            decreases self.lines.len() - row,
        {
            text.push('\n');
            push_chars(&mut text, &self.lines[row]);
            assert(self@.lines.take(row + 1).drop_last() =~= self@.lines.take(row as int));
            row = row + 1;
        }
        assert(self@.lines.take(self.lines.len() as int) =~= self@.lines);
        text
    }
}

} // verus!
