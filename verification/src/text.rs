use vstd::prelude::*;
use crate::buffer::BufferView;

verus! {

/// The lines of `text`: it is cut at every line feed, so a text of `n` line
/// feeds has `n + 1` lines, of which the last may be empty.
pub open spec fn split_lines(text: Seq<char>) -> Seq<Seq<char>>
    decreases text.len(),
{
    if text.len() == 0 {
        seq![Seq::empty()]
    } else {
        let head = split_lines(text.drop_last());
        if text.last() == '\n' {
            head.push(Seq::empty())
        } else {
            head.update(head.len() - 1, head.last().push(text.last()))
        }
    }
}

/// The text of `lines`: the lines one after another with a line feed between
/// each two.
pub open spec fn join_lines(lines: Seq<Seq<char>>) -> Seq<char>
    decreases lines.len(),
{
    if lines.len() == 0 {
        Seq::empty()
    } else if lines.len() == 1 {
        lines[0]
    } else {
        join_lines(lines.drop_last()).push('\n') + lines.last()
    }
}

/// Cutting a text into lines and joining them again gives the text back.
pub proof fn lemma_join_split(text: Seq<char>)
    ensures
        split_lines(text).len() >= 1,
        join_lines(split_lines(text)) == text,
    decreases text.len(),
{
    if text.len() > 0 {
        let shorter = text.drop_last();
        lemma_join_split(shorter);
        let head = split_lines(shorter);
        if text.last() == '\n' {
            assert(head.push(Seq::empty()).drop_last() =~= head);
            assert(join_lines(head).push('\n') + Seq::<char>::empty() =~= text);
        } else {
            let lines = head.update(head.len() - 1, head.last().push(text.last()));
            if head.len() == 1 {
                assert(head[0].push(text.last()) =~= text);
            } else {
                assert(lines.drop_last() =~= head.drop_last());
                assert(join_lines(head.drop_last()).push('\n') + head.last().push(text.last())
                    =~= (join_lines(head.drop_last()).push('\n') + head.last()).push(
                    text.last(),
                ));
                assert(shorter.push(text.last()) =~= text);
            }
        }
    }
}

/// The text that stands before line `row` of `lines`: the lines above it,
/// each with its line feed.
pub open spec fn text_before(lines: Seq<Seq<char>>, row: int) -> Seq<char> {
    if row <= 0 {
        Seq::empty()
    } else {
        join_lines(lines.take(row)).push('\n')
    }
}

/// The text that stands behind line `row` of `lines`: the lines below it,
/// each with the line feed before it.
pub open spec fn text_after(lines: Seq<Seq<char>>, row: int) -> Seq<char>
    decreases lines.len(),
{
    if lines.len() == 0 || row + 1 >= lines.len() {
        Seq::empty()
    } else {
        text_after(lines.drop_last(), row).push('\n') + lines.last()
    }
}

/// A text is what stands before one of its lines, that line, and what
/// stands behind it.
pub proof fn lemma_text_around(lines: Seq<Seq<char>>, row: int)
    requires
        0 <= row < lines.len(),
    ensures
        join_lines(lines) == text_before(lines, row) + lines[row] + text_after(lines, row),
    decreases lines.len(),
{
    if row + 1 == lines.len() {
        assert(lines.take(row) =~= lines.drop_last());
        assert(join_lines(lines) =~= text_before(lines, row) + lines[row] + text_after(lines, row));
    } else {
        let head = lines.drop_last();
        lemma_text_around(head, row);
        assert(head.take(row) =~= lines.take(row));
        assert(join_lines(lines) =~= text_before(lines, row) + lines[row] + text_after(lines, row));
    }
}

/// Changing a line changes neither what stands before it nor what stands
/// behind it.
pub proof fn lemma_update_keeps_around(lines: Seq<Seq<char>>, row: int, line: Seq<char>)
    requires
        0 <= row < lines.len(),
    ensures
        text_before(lines.update(row, line), row) == text_before(lines, row),
        text_after(lines.update(row, line), row) == text_after(lines, row),
    decreases lines.len(),
{
    assert(lines.update(row, line).take(row) =~= lines.take(row));
    if row + 1 < lines.len() {
        lemma_update_keeps_around(lines.drop_last(), row, line);
        assert(lines.update(row, line).drop_last() =~= lines.drop_last().update(row, line));
    }
}

/// Putting a line in below line `row` leaves what stood behind line `row`
/// standing behind the new line.
pub proof fn lemma_insert_keeps_after(lines: Seq<Seq<char>>, row: int, line: Seq<char>)
    requires
        0 <= row < lines.len(),
    ensures
        text_after(lines.insert(row + 1, line), row + 1) == text_after(lines, row),
    decreases lines.len(),
{
    if row + 1 < lines.len() {
        lemma_insert_keeps_after(lines.drop_last(), row, line);
        assert(lines.insert(row + 1, line).drop_last() =~= lines.drop_last().insert(row + 1, line));
    }
}

impl BufferView {
    /// The whole text: the lines with a line feed between each two.
    pub open spec fn text(self) -> Seq<char> {
        join_lines(self.lines)
    }

    /// The number of characters of the text that stand before the cursor.
    pub open spec fn offset(self) -> int {
        text_before(self.lines, self.row).len() + self.col
    }

    /// The cursor stands in the text or right behind it.
    pub proof fn lemma_offset_in_text(self)
        requires
            self.wf(),
        ensures
            0 <= self.offset() <= self.text().len(),
    {
        lemma_text_around(self.lines, self.row);
    }

    /// Putting `text` into the current line puts it into the whole text
    /// where the cursor stands, and moves the cursor behind it.
    pub proof fn lemma_insert_text_splices(self, text: Seq<char>)
        requires
            self.wf(),
        ensures
            self.insert_text(text).text() == self.text().take(self.offset()) + text
                + self.text().skip(self.offset()),
            self.insert_text(text).offset() == self.offset() + text.len(),
    {
        let line = self.current_line();
        let longer = line.take(self.col) + text + line.skip(self.col);
        lemma_text_around(self.lines, self.row);
        lemma_text_around(self.lines.update(self.row, longer), self.row);
        lemma_update_keeps_around(self.lines, self.row, longer);
        let before = text_before(self.lines, self.row);
        let after = text_after(self.lines, self.row);
        assert(self.text().take(self.offset()) =~= before + line.take(self.col));
        assert(self.text().skip(self.offset()) =~= line.skip(self.col) + after);
        assert(self.insert_text(text).text() =~= self.text().take(self.offset()) + text
            + self.text().skip(self.offset()));
    }

    /// Putting in any character, a line feed too, puts it into the whole
    /// text where the cursor stands, and moves the cursor behind it.
    pub proof fn lemma_insert_splices(self, c: char)
        requires
            self.wf(),
        ensures
            self.insert(c).wf(),
            self.insert(c).text() == self.text().insert(self.offset(), c),
            self.insert(c).offset() == self.offset() + 1,
    {
        if c == '\n' {
            let line = self.current_line();
            let cut = self.lines.update(self.row, line.take(self.col));
            let lines = cut.insert(self.row + 1, line.skip(self.col));
            let before = text_before(self.lines, self.row);
            let after = text_after(self.lines, self.row);
            lemma_text_around(self.lines, self.row);
            lemma_text_around(lines, self.row + 1);
            lemma_update_keeps_around(self.lines, self.row, line.take(self.col));
            lemma_insert_keeps_after(cut, self.row, line.skip(self.col));
            assert(lines.take(self.row + 1) =~= cut.take(self.row + 1));
            lemma_text_around(cut.take(self.row + 1), self.row);
            assert(cut.take(self.row + 1).take(self.row) =~= cut.take(self.row));
            assert(text_before(lines, self.row + 1) =~= (before + line.take(self.col)).push('\n'));
            assert(self.insert(c).text() =~= self.text().insert(self.offset(), c));
        } else {
            self.lemma_insert_text_splices(seq![c]);
            assert(self.insert_text(seq![c]).lines =~= self.insert(c).lines) by {
                assert(self.current_line().take(self.col) + seq![c] + self.current_line().skip(
                    self.col,
                ) =~= self.current_line().insert(self.col, c));
            }
            assert(self.text().take(self.offset()) + seq![c] + self.text().skip(self.offset())
                =~= self.text().insert(self.offset(), c));
        }
    }

    /// The characters of `text` put in at the cursor one after another.
    pub open spec fn insert_all(self, text: Seq<char>) -> BufferView
        decreases text.len(),
    {
        if text.len() == 0 {
            self
        } else {
            self.insert_all(text.drop_last()).insert(text.last())
        }
    }

    /// Putting in the characters of `text` one after another, line feeds
    /// too, puts `text` into the whole text where the cursor stood, and
    /// moves the cursor behind it. The file, the search query and the first
    /// visible row stay as they are.
    pub proof fn lemma_insert_all_splices(self, text: Seq<char>)
        requires
            self.wf(),
        ensures
            self.insert_all(text).wf(),
            self.insert_all(text).text() == self.text().take(self.offset()) + text
                + self.text().skip(self.offset()),
            self.insert_all(text).offset() == self.offset() + text.len(),
            self.insert_all(text).path == self.path,
            self.insert_all(text).search == self.search,
            self.insert_all(text).row_offset == self.row_offset,
        decreases text.len(),
    {
        self.lemma_offset_in_text();
        if text.len() == 0 {
            assert(self.text().take(self.offset()) + text + self.text().skip(self.offset())
                =~= self.text());
        } else {
            let head = text.drop_last();
            self.lemma_insert_all_splices(head);
            self.insert_all(head).lemma_insert_splices(text.last());
            assert(self.insert_all(text).text() =~= self.text().take(self.offset()) + text
                + self.text().skip(self.offset()));
        }
    }

    /// As long as `text` holds no line feed, putting in its characters one
    /// after another puts `text` into the current line.
    pub proof fn lemma_insert_all_in_line(self, text: Seq<char>)
        requires
            self.wf(),
            forall|i: int| 0 <= i < text.len() ==> text[i] != '\n',
        ensures
            self.insert_all(text) == self.insert_text(text),
        decreases text.len(),
    {
        if text.len() == 0 {
            self.lemma_insert_char(text, ' ');
            assert(text =~= Seq::<char>::empty());
        } else {
            let head = text.drop_last();
            self.lemma_insert_all_in_line(head);
            self.lemma_insert_char(head, text.last());
            assert(head.push(text.last()) =~= text);
        }
    }
}

} // verus!
