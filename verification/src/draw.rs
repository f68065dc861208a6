use vstd::prelude::*;
use crate::buffer::{Buffer, BufferView};
use crate::cursor::Cursor;
use crate::term::{Cell, CharStyle, Term, TermView, Viewport};

verus! {

impl BufferView {
    /// What the screen shows `i` rows below the first visible row and `j`
    /// columns from the left: the character of the text that stands there,
    /// or the empty cell where the text has none.
    pub open spec fn cell_at(self, i: int, j: int) -> Cell {
        let row = self.row_offset + i;
        if 0 <= i && row < self.lines.len() && 0 <= j < self.lines[row].len() {
            Cell {
                ch: self.lines[row][j],
                style: CharStyle::Default,
                pos: Some(Cursor { row: row as usize, col: j as usize }),
            }
        } else {
            Cell::blank()
        }
    }

    /// The screen cell of `term` on which the cursor of the buffer falls
    /// when the buffer is painted into `vp`: `None` if the cursor is
    /// scrolled out of the rectangle or the rectangle does not reach it.
    pub open spec fn screen_cursor(self, term: TermView, vp: Viewport) -> Option<Cursor> {
        let i = self.row - self.row_offset;
        if 0 <= i < vp.height && self.col < vp.width && term.in_grid(
            vp.origin.row + i,
            vp.origin.col + self.col,
        ) {
            Some(
                Cursor {
                    row: (vp.origin.row + i) as usize,
                    col: (vp.origin.col + self.col) as usize,
                },
            )
        } else {
            None
        }
    }
}

impl BufferView {
    /// The place in the text that a click on the cell in column `x` and row
    /// `y`, both counted from one, points at when the buffer fills a screen
    /// of `height` rows and `width` columns: `None` where the cell is not on
    /// the screen or shows no character of the text.
    pub open spec fn click_target(self, height: int, width: int, x: int, y: int) -> Option<Cursor> {
        if 1 <= y <= height && 1 <= x <= width {
            self.cell_at(y - 1, x - 1).pos
        } else {
            None
        }
    }

    /// The cursor moved to where a click on column `x` and row `y` points,
    /// if it points at a place in the text.
    pub open spec fn click(self, height: int, width: int, x: int, y: int) -> BufferView {
        match self.click_target(height, width, x, y) {
            Some(at) => self.move_to(at.row as int, at.col as int),
            None => self,
        }
    }
}

impl TermView {
    /// The grid after the part of `buf` that is painted into `vp` has
    /// reached `row` and `col`: the cells of the rectangle above `row`, and
    /// those of `row` left of `col`, show the buffer, each line of the text
    /// in a row of its own, from the first visible row down and cut off at
    /// the right edge. All other cells are as before.
    pub open spec fn paint_upto(self, vp: Viewport, buf: BufferView, row: int, col: int) -> TermView {
        TermView {
            cells: Seq::new(
                self.cells.len(),
                |r: int|
                    Seq::new(
                        self.cells[r].len(),
                        |c: int|
                            if vp.covers(r, c) && (r < row || (r == row && c < col)) {
                                buf.cell_at(r - vp.origin.row, c - vp.origin.col)
                            } else {
                                self.cells[r][c]
                            },
                    ),
            ),
            ..self
        }
    }

    /// The grid after `buf` has been painted into `vp`: every cell of the
    /// rectangle shows the buffer, each line of the text in a row of its
    /// own, from the first visible row down and cut off at the right edge.
    /// All other cells are as before.
    pub open spec fn paint(self, vp: Viewport, buf: BufferView) -> TermView {
        TermView {
            cells: Seq::new(
                self.cells.len(),
                |r: int|
                    Seq::new(
                        self.cells[r].len(),
                        |c: int|
                            if vp.covers(r, c) {
                                buf.cell_at(r - vp.origin.row, c - vp.origin.col)
                            } else {
                                self.cells[r][c]
                            },
                    ),
            ),
            ..self
        }
    }

    /// Painting one more cell extends what has been painted by that cell.
    proof fn lemma_paint_cell(self, vp: Viewport, buf: BufferView, row: int, col: int)
        requires
            self.wf(),
            self.in_grid(row, col),
            vp.covers(row, col),
        ensures
            self.paint_upto(vp, buf, row, col).wf(),
            self.paint_upto(vp, buf, row, col).set(
                row,
                col,
                buf.cell_at(row - vp.origin.row, col - vp.origin.col),
            ) == self.paint_upto(vp, buf, row, col + 1),
    {
        let before = self.paint_upto(vp, buf, row, col);
        let step = before.set(row, col, buf.cell_at(row - vp.origin.row, col - vp.origin.col));
        let after = self.paint_upto(vp, buf, row, col + 1);
        assert forall|r: int| 0 <= r < after.cells.len() implies #[trigger] step.cells[r]
            =~= after.cells[r] by {
            assert(self.cells[r].len() == self.width);
        }
        assert(step.cells =~= after.cells);
    }

    /// A row that is painted to the right edge of what the rectangle covers
    /// of the grid is painted whole.
    proof fn lemma_paint_row(self, vp: Viewport, buf: BufferView, row: int, col: int)
        requires
            self.wf(),
            col >= self.width || col >= vp.origin.col + vp.width,
        ensures
            self.paint_upto(vp, buf, row, col) == self.paint_upto(vp, buf, row + 1, vp.origin.col as int),
    {
        let before = self.paint_upto(vp, buf, row, col);
        let after = self.paint_upto(vp, buf, row + 1, vp.origin.col as int);
        assert forall|r: int| 0 <= r < after.cells.len() implies #[trigger] before.cells[r]
            =~= after.cells[r] by {
            assert(self.cells[r].len() == self.width);
        }
        assert(before.cells =~= after.cells);
    }

    /// Nothing is painted before the first row of the rectangle, and all of
    /// it once the rows that the rectangle covers of the grid are done.
    proof fn lemma_paint_ends(self, vp: Viewport, buf: BufferView, row: int)
        requires
            self.wf(),
        ensures
            self.paint_upto(vp, buf, vp.origin.row as int, vp.origin.col as int) == self,
            row >= self.height || row >= vp.origin.row + vp.height ==> self.paint_upto(
                vp,
                buf,
                row,
                vp.origin.col as int,
            ) == self.paint(vp, buf),
    {
        let none = self.paint_upto(vp, buf, vp.origin.row as int, vp.origin.col as int);
        assert forall|r: int| 0 <= r < self.cells.len() implies #[trigger] none.cells[r]
            =~= self.cells[r] by {
            assert(self.cells[r].len() == self.width);
        }
        assert(none.cells =~= self.cells);
        if row >= self.height || row >= vp.origin.row + vp.height {
            let all = self.paint_upto(vp, buf, row, vp.origin.col as int);
            let whole = self.paint(vp, buf);
            assert forall|r: int| 0 <= r < self.cells.len() implies #[trigger] all.cells[r]
                =~= whole.cells[r] by {
                assert(self.cells[r].len() == self.width);
            }
            assert(all.cells =~= whole.cells);
        }
    }
}

impl Buffer {
    /// What the screen shows `i` rows below the first visible row and `j`
    /// columns from the left.
    fn cell_at(&self, i: usize, j: usize) -> (cell: Cell)
        requires
            self.wf(),
        ensures
            cell == self@.cell_at(i as int, j as int),
    {
        let offset = self.row_offset();
        if i < self.line_count() - offset {
            let row = offset + i;
            match self.line(row) {
                Some(line) => {
                    if j < line.len() {
                        Cell {
                            ch: line[j],
                            style: CharStyle::Default,
                            pos: Some(Cursor { row, col: j }),
                        }
                    } else {
                        Cell::blank()
                    }
                },
                None => Cell::blank(),
            }
        } else {
            Cell::blank()
        }
    }

    /// Paints the buffer into the rectangle `vp` of `term`: each line in a
    /// row of its own, from the first visible row down, cut off at the
    /// right edge, and empty cells where the text has no character. Every
    /// painted character remembers its place in the buffer. Returns the
    /// screen cell on which the cursor falls, if it falls into the rectangle.
    pub fn draw(&self, term: &mut Term, vp: Viewport) -> (at: Option<Cursor>)
        requires
            self.wf(),
            old(term).wf(),
        ensures
            final(term).wf(),
            final(term)@ == old(term)@.paint(vp, self@),
            at == self@.screen_cursor(old(term)@, vp),
    {
        let top = vp.origin.row;
        let left = vp.origin.col;
        let height = term.height();
        let width = term.width();
        if top >= height || left >= width {
            proof {
                let whole = old(term)@.paint(vp, self@);
                assert forall|r: int| 0 <= r < whole.cells.len() implies #[trigger] whole.cells[r]
                    =~= old(term)@.cells[r] by {
                    assert(old(term)@.cells[r].len() == old(term)@.width);
                }
                assert(whole.cells =~= old(term)@.cells);
            }
            return None;
        }
        let bottom = if vp.height <= height - top {
            top + vp.height
        } else {
            height
        };
        let right = if vp.width <= width - left {
            left + vp.width
        } else {
            width
        };
        proof {
            old(term)@.lemma_paint_ends(vp, self@, top as int);
        }
        let mut r = top;
        while r < bottom
            invariant
                self.wf(),
                old(term).wf(),
                term.wf(),
                top <= r <= bottom,
                top == vp.origin.row,
                left == vp.origin.col,
                left < width,
                left <= right <= width,
                bottom <= height,
                height == old(term)@.height,
                width == old(term)@.width,
                right >= width || right >= left + vp.width,
                bottom >= height || bottom >= top + vp.height,
                right <= left + vp.width,
                bottom <= top + vp.height,
                term@ == old(term)@.paint_upto(vp, self@, r as int, left as int),
            decreases bottom - r,
        {
            let mut c = left;
            while c < right
                invariant
                    self.wf(),
                    old(term).wf(),
                    term.wf(),
                    top <= r < bottom,
                    left <= c <= right,
                    top == vp.origin.row,
                    left == vp.origin.col,
                    right <= width,
                    bottom <= height,
                    height == old(term)@.height,
                    width == old(term)@.width,
                    right <= left + vp.width,
                    bottom <= top + vp.height,
                    term@ == old(term)@.paint_upto(vp, self@, r as int, c as int),
                decreases right - c,
            {
                let cell = self.cell_at(r - top, c - left);
                proof {
                    old(term)@.lemma_paint_cell(vp, self@, r as int, c as int);
                }
                term.set(Cursor { row: r, col: c }, cell);
                c = c + 1;
            }
            proof {
                old(term)@.lemma_paint_row(vp, self@, r as int, c as int);
            }
            r = r + 1;
        }
        proof {
            old(term)@.lemma_paint_ends(vp, self@, r as int);
        }
        let cursor = self.cursor();
        let offset = self.row_offset();
        if cursor.row >= offset && cursor.row - offset < bottom - top && cursor.col < right - left {
            Some(Cursor { row: top + (cursor.row - offset), col: left + cursor.col })
        } else {
            None
        }
    }
}

} // verus!
