use vstd::prelude::*;
use crate::cursor::Cursor;

verus! {

/// How a cell is to be shown.
#[derive(Clone, Copy, Debug, PartialEq, Eq, Structural)]
pub enum CharStyle {
    /// Buffer text and plain input lines.
    Default,
    /// Prompts.
    UI,
    /// The status line.
    Footer,
}

/// The shape of the terminal's cursor. It tells the user which mode is active.
#[derive(Clone, Copy, Debug, PartialEq, Eq, Structural)]
pub enum CursorShape {
    Block,
    Bar,
    Underline,
}

/// Whether the terminal's cursor is shown, and if so where and in what shape.
#[derive(Clone, Copy, Debug, PartialEq, Eq)]
pub enum CursorState {
    Hide,
    Show(Cursor, CursorShape),
}

/// One cell of the screen: a character, its style, and the place in the
/// buffer that the character came from, if it came from there.
#[derive(Clone, Copy, Debug, PartialEq, Eq)]
pub struct Cell {
    pub ch: char,
    pub style: CharStyle,
    pub pos: Option<Cursor>,
}

impl Cell {
    /// The empty cell: a space in the default style that stands for no place
    /// in the buffer.
    pub open spec fn spec_blank() -> Cell {
        Cell { ch: ' ', style: CharStyle::Default, pos: None }
    }

    /// The cell that shows `ch` in `style` and stands for no place in the
    /// buffer.
    pub open spec fn glyph(ch: char, style: CharStyle) -> Cell {
        Cell { ch, style, pos: None }
    }

    /// The empty cell.
    #[verifier::when_used_as_spec(spec_blank)]
    pub fn blank() -> (cell: Cell)
        ensures
            cell == Cell::spec_blank(),
    {
        Cell { ch: ' ', style: CharStyle::Default, pos: None }
    }
}

/// A rectangle of the screen with a pen in it. `origin` is its top left
/// cell on the screen; `pen` is where the next character goes, counted from
/// `origin`.
#[derive(Clone, Copy, Debug, PartialEq, Eq)]
pub struct Viewport {
    pub origin: Cursor,
    pub height: usize,
    pub width: usize,
    pub pen: Cursor,
}

impl Viewport {
    /// Whether the screen cell at `row` and `col` lies in the rectangle.
    pub open spec fn covers(self, row: int, col: int) -> bool {
        &&& self.origin.row <= row < self.origin.row + self.height
        &&& self.origin.col <= col < self.origin.col + self.width
    }

    /// Whether the pen stands on a cell of the rectangle.
    pub open spec fn pen_inside(self) -> bool {
        self.pen.row < self.height && self.pen.col < self.width
    }

    /// The rectangle after `count` characters were written: the pen has
    /// moved right by `count`, but not past the right edge. Below the last
    /// row it does not move.
    pub open spec fn after_text(self, count: int) -> Viewport {
        if self.pen.row < self.height && self.pen.col < self.width {
            let col = if self.pen.col + count <= self.width {
                (self.pen.col + count) as usize
            } else {
                self.width
            };
            Viewport { pen: Cursor { row: self.pen.row, col }, ..self }
        } else {
            self
        }
    }

    /// The rectangle with the pen at the start of the next row. Below the
    /// last row the pen only returns to the first column.
    pub open spec fn spec_newline(self) -> Viewport {
        let row = if self.pen.row < self.height {
            (self.pen.row + 1) as usize
        } else {
            self.pen.row
        };
        Viewport { pen: Cursor { row, col: 0 }, ..self }
    }

    /// Moves the pen to the start of the next row.
    pub fn newline(&mut self)
        ensures
            *final(self) == old(self).spec_newline(),
    {
        if self.pen.row < self.height {
            self.pen.row = self.pen.row + 1;
        }
        self.pen.col = 0;
    }
}

/// The mathematical content of a [`Term`]: a grid of `height` rows of `width`
/// cells, and the state of the cursor.
pub struct TermView {
    pub height: int,
    pub width: int,
    pub cells: Seq<Seq<Cell>>,
    pub cursor: CursorState,
}

impl TermView {
    /// The grid has `height` rows of `width` cells each.
    pub open spec fn wf(self) -> bool {
        &&& 0 <= self.height
        &&& 0 <= self.width
        &&& self.cells.len() == self.height
        &&& forall|r: int| 0 <= r < self.height ==> (#[trigger] self.cells[r]).len() == self.width
    }

    /// Whether the grid has a cell at `row` and `col`.
    pub open spec fn in_grid(self, row: int, col: int) -> bool {
        0 <= row < self.height && 0 <= col < self.width
    }

    /// The grid with `cell` at `row` and `col`. Outside the grid nothing
    /// changes.
    pub open spec fn set(self, row: int, col: int, cell: Cell) -> TermView {
        if self.in_grid(row, col) {
            TermView { cells: self.cells.update(row, self.cells[row].update(col, cell)), ..self }
        } else {
            self
        }
    }

    /// The grid after `ch` was written at the pen of `vp`. A pen that stands
    /// outside the rectangle writes nothing.
    pub open spec fn put(self, vp: Viewport, ch: char, style: CharStyle, pos: Option<Cursor>) -> TermView {
        if vp.pen_inside() {
            self.set(
                vp.origin.row + vp.pen.row,
                vp.origin.col + vp.pen.col,
                Cell { ch, style, pos },
            )
        } else {
            self
        }
    }

    /// The grid after `text` was written from the pen of `vp` to the right:
    /// the characters that fit into the pen's row of the rectangle stand
    /// there, in `style` and standing for no place in the buffer. All other
    /// cells are as before.
    pub open spec fn write(self, vp: Viewport, text: Seq<char>, style: CharStyle) -> TermView {
        TermView {
            cells: Seq::new(
                self.cells.len(),
                |r: int|
                    Seq::new(
                        self.cells[r].len(),
                        |c: int|
                            {
                                let k = c - vp.origin.col - vp.pen.col;
                                if r == vp.origin.row + vp.pen.row && vp.pen.row < vp.height && 0 <= k
                                    < text.len() && vp.pen.col + k < vp.width {
                                    Cell::glyph(text[k], style)
                                } else {
                                    self.cells[r][c]
                                }
                            },
                    ),
            ),
            ..self
        }
    }

    /// The rectangle of at most `height` rows and `width` columns whose top
    /// left cell is at `row` and `col`, cut down to what lies on the grid,
    /// with the pen in its top left cell.
    pub open spec fn clip(self, row: int, col: int, height: int, width: int) -> Viewport {
        let top = if row <= self.height {
            row
        } else {
            self.height
        };
        let left = if col <= self.width {
            col
        } else {
            self.width
        };
        Viewport {
            origin: Cursor { row: top as usize, col: left as usize },
            height: (if height <= self.height - top {
                height
            } else {
                self.height - top
            }) as usize,
            width: (if width <= self.width - left {
                width
            } else {
                self.width - left
            }) as usize,
            pen: Cursor { row: 0, col: 0 },
        }
    }

    /// Writing a text and then one more character at the pen is writing the
    /// text with that character at its end.
    pub proof fn lemma_write_push(self, vp: Viewport, text: Seq<char>, ch: char, style: CharStyle)
        requires
            self.wf(),
        ensures
            self.write(vp, text, style).wf(),
            self.write(vp, text.push(ch), style) == self.write(vp, text, style).put(
                vp.after_text(text.len() as int),
                ch,
                style,
                None,
            ),
            vp.after_text(text.len() as int + 1) == vp.after_text(text.len() as int).after_text(1),
    {
        let longer = self.write(vp, text.push(ch), style);
        let step = self.write(vp, text, style).put(vp.after_text(text.len() as int), ch, style, None);
        assert(longer.cells.len() == step.cells.len());
        assert forall|r: int| 0 <= r < longer.cells.len() implies #[trigger] longer.cells[r]
            =~= step.cells[r] by {
            assert(self.cells[r].len() == self.width);
        }
        assert(longer.cells =~= step.cells);
    }

    /// The characters that row `row` shows, from left to right; nothing
    /// where the grid has no such row.
    pub open spec fn row_text(self, row: int) -> Seq<char> {
        if 0 <= row < self.height {
            Seq::new(self.width as nat, |c: int| self.cells[row][c].ch)
        } else {
            Seq::empty()
        }
    }

    /// The same grid with the cursor in `state`.
    pub open spec fn with_cursor(self, state: CursorState) -> TermView {
        TermView { cursor: state, ..self }
    }
}

/// The screen: a grid of cells and the state of the cursor.
#[derive(Clone, Debug, PartialEq, Eq)]
pub struct Term {
    height: usize,
    width: usize,
    cursor: CursorState,
    cells: Vec<Vec<Cell>>,
}

impl View for Term {
    type V = TermView;

    closed spec fn view(&self) -> TermView {
        TermView {
            height: self.height as int,
            width: self.width as int,
            cells: Seq::new(self.cells@.len(), |r: int| self.cells@[r]@),
            cursor: self.cursor,
        }
    }
}

impl Term {
    /// Whether the screen is in order: see [`TermView::wf`].
    pub open spec fn wf(&self) -> bool {
        self@.wf()
    }

    /// An empty screen of `height` rows and `width` columns with the cursor
    /// hidden.
    pub fn new(height: usize, width: usize) -> (term: Term)
        ensures
            term.wf(),
            term@.height == height,
            term@.width == width,
            term@.cursor == CursorState::Hide,
            forall|r: int, c: int| term@.in_grid(r, c) ==> term@.cells[r][c] == Cell::blank(),
    {
        let mut cells: Vec<Vec<Cell>> = Vec::new();
        let mut r: usize = 0;
        while r < height
            invariant
                r <= height,
                cells@.len() == r,
                forall|i: int| 0 <= i < r ==> (#[trigger] cells@[i])@.len() == width,
                forall|i: int, j: int|
                    0 <= i < r && 0 <= j < width ==> (#[trigger] cells@[i]@[j]) == Cell::blank(),
            decreases height - r,
        {
            let mut row: Vec<Cell> = Vec::new();
            let mut c: usize = 0;
            while c < width
                invariant
                    c <= width,
                    row@.len() == c,
                    forall|j: int| 0 <= j < c ==> (#[trigger] row@[j]) == Cell::blank(),
                decreases width - c,
            {
                row.push(Cell::blank());
                c = c + 1;
            }
            cells.push(row);
            r = r + 1;
        }
        Term { height, width, cursor: CursorState::Hide, cells }
    }

    /// The number of rows.
    pub fn height(&self) -> (h: usize)
        ensures
            h == self@.height,
    {
        self.height
    }

    /// The number of columns.
    pub fn width(&self) -> (w: usize)
        ensures
            w == self@.width,
    {
        self.width
    }

    /// The state of the cursor.
    pub fn cursor(&self) -> (state: CursorState)
        ensures
            state == self@.cursor,
    {
        self.cursor
    }

    /// Puts the cursor in `state`.
    pub fn set_cursor(&mut self, state: CursorState)
        ensures
            final(self)@ == old(self)@.with_cursor(state),
    {
        self.cursor = state;
    }

    /// The cell at `at`, if the grid has one there.
    pub fn cell(&self, at: Cursor) -> (cell: Option<Cell>)
        requires
            self.wf(),
        ensures
            cell == if self@.in_grid(at.row as int, at.col as int) {
                Some(self@.cells[at.row as int][at.col as int])
            } else {
                None
            },
    {
        if at.row < self.height && at.col < self.width {
            assert(self@.cells[at.row as int].len() == self.width);
            Some(self.cells[at.row][at.col])
        } else {
            None
        }
    }

    /// The place in the buffer that the cell at `at` stands for: `None` if
    /// the grid has no cell there or the cell holds no buffer text.
    pub fn pos(&self, at: Cursor) -> (pos: Option<Cursor>)
        requires
            self.wf(),
        ensures
            pos == if self@.in_grid(at.row as int, at.col as int) {
                self@.cells[at.row as int][at.col as int].pos
            } else {
                None
            },
    {
        match self.cell(at) {
            Some(cell) => cell.pos,
            None => None,
        }
    }

    /// Writes `cell` at `at`. Outside the grid nothing happens.
    pub fn set(&mut self, at: Cursor, cell: Cell)
        requires
            old(self).wf(),
        ensures
            final(self).wf(),
            final(self)@ == old(self)@.set(at.row as int, at.col as int, cell),
    {
        if at.row < self.height && at.col < self.width {
            assert(self@.cells[at.row as int].len() == self.width);
            self.cells[at.row][at.col] = cell;
            assert(self@.cells =~~= old(self)@.set(at.row as int, at.col as int, cell).cells);
        }
    }

    /// The rectangle of at most `height` rows and `width` columns whose top
    /// left cell is at row `origin.0` and column `origin.1`, cut down to
    /// what lies on the screen.
    pub fn viewport(&self, origin: (usize, usize), height: usize, width: usize) -> (vp: Viewport)
        ensures
            vp == self@.clip(origin.0 as int, origin.1 as int, height as int, width as int),
    {
        let top = if origin.0 <= self.height {
            origin.0
        } else {
            self.height
        };
        let left = if origin.1 <= self.width {
            origin.1
        } else {
            self.width
        };
        Viewport {
            origin: Cursor { row: top, col: left },
            height: if height <= self.height - top {
                height
            } else {
                self.height - top
            },
            width: if width <= self.width - left {
                width
            } else {
                self.width - left
            },
            pen: Cursor { row: 0, col: 0 },
        }
    }

    /// Writes `ch` at the pen of `vp` and moves the pen one cell to the
    /// right. `pos` is the place in the buffer that the character stands
    /// for. A pen that stands outside the rectangle writes nothing and stays.
    /// Returns the screen cell that was written.
    pub fn put(&mut self, vp: &mut Viewport, ch: char, style: CharStyle, pos: Option<Cursor>) -> (at:
        Option<Cursor>)
        requires
            old(self).wf(),
        ensures
            final(self).wf(),
            final(self)@ == old(self)@.put(*old(vp), ch, style, pos),
            *final(vp) == old(vp).after_text(1),
            at == if old(vp).pen_inside() && old(self)@.in_grid(
                old(vp).origin.row + old(vp).pen.row,
                old(vp).origin.col + old(vp).pen.col,
            ) {
                Some(
                    Cursor {
                        row: (old(vp).origin.row + old(vp).pen.row) as usize,
                        col: (old(vp).origin.col + old(vp).pen.col) as usize,
                    },
                )
            } else {
                None
            },
    {
        if vp.pen.row < vp.height && vp.pen.col < vp.width {
            let pen = vp.pen;
            vp.pen.col = pen.col + 1;
            if vp.origin.row < self.height && pen.row < self.height - vp.origin.row
                && vp.origin.col < self.width && pen.col < self.width - vp.origin.col {
                let at = Cursor { row: vp.origin.row + pen.row, col: vp.origin.col + pen.col };
                self.set(at, Cell { ch, style, pos });
                Some(at)
            } else {
                None
            }
        } else {
            None
        }
    }

    /// Writes `text` from the pen of `vp` to the right, in `style`. What
    /// does not fit into the row is left out. The pen ends behind the last
    /// character written.
    pub fn puts(&mut self, vp: &mut Viewport, text: &str, style: CharStyle)
        requires
            old(self).wf(),
        ensures
            final(self).wf(),
            final(self)@ == old(self)@.write(*old(vp), text@, style),
            *final(vp) == old(vp).after_text(text@.len() as int),
    {
        assert(self@.cells =~~= old(self)@.write(*old(vp), text@.take(0), style).cells);
        for ch in it: text.chars()
            invariant
                it.seq() == text@,
                old(self).wf(),
                self.wf(),
                self@ == old(self)@.write(*old(vp), text@.take(it.index() as int), style),
                *vp == old(vp).after_text(it.index() as int),
        {
            proof {
                let done = text@.take(it.index() as int);
                assert(text@.take(it.index() + 1) == done.push(ch));
                old(self)@.lemma_write_push(*old(vp), done, ch, style);
            }
            self.put(vp, ch, style, None);
        }
        assert(text@.take(text@.len() as int) == text@);
    }

    /// The characters that row `row` shows, from left to right; nothing
    /// where the screen has no such row.
    pub fn row_text(&self, row: usize) -> (text: String)
        requires
            self.wf(),
        ensures
            text@ == self@.row_text(row as int),
    {
        let mut text = String::new();
        if row < self.height {
            assert(self@.cells[row as int].len() == self.width);
            let mut col: usize = 0;
            while col < self.width
                invariant
                    self.wf(),
                    row < self.height,
                    col <= self.width,
                    self@.cells[row as int].len() == self.width,
                    text@ == self@.row_text(row as int).take(col as int),
                decreases self.width - col,
            {
                text.push(self.cells[row][col].ch);
                col = col + 1;
                assert(text@ =~= self@.row_text(row as int).take(col as int));
            }
            assert(self@.row_text(row as int).take(self.width as int) =~= self@.row_text(row as int));
        }
        text
    }
}

} // verus!
