use editor_modes::buffer::Buffer;
use editor_modes::cursor::Cursor;
use editor_modes::event::{Event, Key};
use editor_modes::mode::{Insert, Mode, Normal, Prefix, Save, Search, R};
use editor_modes::strings::{push_chars, push_decimal};
use editor_modes::term::{Cell, CharStyle, CursorShape, CursorState, Term, Viewport};

fn styles(term: &Term, row: usize) -> Vec<CharStyle> {
    (0..term.width()).map(|col| term.cell(Cursor::new(row, col)).unwrap().style).collect()
}

fn decimal(n: u128) -> String {
    let mut out = String::new();
    push_decimal(&mut out, n);
    out
}

#[test]
fn decimal_writes_base_ten() {
    assert_eq!(decimal(0), "0");
    assert_eq!(decimal(7), "7");
    assert_eq!(decimal(10), "10");
    assert_eq!(decimal(1234567890), "1234567890");
    assert_eq!(decimal(u128::MAX), "340282366920938463463374607431768211455");
    let mut out = String::from("n=");
    push_decimal(&mut out, 42);
    assert_eq!(out, "n=42");
}

#[test]
fn push_chars_appends() {
    let mut out = String::from("ab");
    push_chars(&mut out, &vec!['c', 'é']);
    assert_eq!(out, "abcé");
    push_chars(&mut out, &vec![]);
    assert_eq!(out, "abcé");
}

#[test]
fn new_term_is_blank_with_the_cursor_hidden() {
    let term = Term::new(2, 3);
    assert_eq!(term.height(), 2);
    assert_eq!(term.width(), 3);
    assert_eq!(term.cursor(), CursorState::Hide);
    for row in 0..2 {
        for col in 0..3 {
            assert_eq!(term.cell(Cursor::new(row, col)), Some(Cell::blank()));
        }
    }
    assert_eq!(term.cell(Cursor::new(2, 0)), None);
    assert_eq!(term.cell(Cursor::new(0, 3)), None);
    assert_eq!(term.row_text(0), "   ");
    assert_eq!(term.row_text(2), "");
    assert_eq!(Cell::blank(), Cell { ch: ' ', style: CharStyle::Default, pos: None });
    let empty = Term::new(0, 0);
    assert_eq!(empty.cell(Cursor::new(0, 0)), None);
    assert_eq!(empty.row_text(0), "");
}

#[test]
fn viewport_is_cut_down_to_the_screen() {
    let term = Term::new(10, 20);
    let whole = term.viewport((0, 0), 10, 20);
    assert_eq!(
        whole,
        Viewport { origin: Cursor::new(0, 0), height: 10, width: 20, pen: Cursor::new(0, 0) }
    );
    let part = term.viewport((8, 15), 5, 10);
    assert_eq!(
        part,
        Viewport { origin: Cursor::new(8, 15), height: 2, width: 5, pen: Cursor::new(0, 0) }
    );
    let outside = term.viewport((12, 30), 5, 10);
    assert_eq!(
        outside,
        Viewport { origin: Cursor::new(10, 20), height: 0, width: 0, pen: Cursor::new(0, 0) }
    );
    let huge = term.viewport((1, 2), usize::MAX, usize::MAX);
    assert_eq!(
        huge,
        Viewport { origin: Cursor::new(1, 2), height: 9, width: 18, pen: Cursor::new(0, 0) }
    );
}

#[test]
fn set_writes_one_cell() {
    let mut term = Term::new(2, 2);
    let cell = Cell { ch: 'x', style: CharStyle::UI, pos: Some(Cursor::new(5, 6)) };
    term.set(Cursor::new(1, 0), cell);
    assert_eq!(term.cell(Cursor::new(1, 0)), Some(cell));
    assert_eq!(term.pos(Cursor::new(1, 0)), Some(Cursor::new(5, 6)));
    assert_eq!(term.pos(Cursor::new(0, 0)), None);
    assert_eq!(term.pos(Cursor::new(2, 0)), None);
    assert_eq!(term.row_text(0), "  ");
    assert_eq!(term.row_text(1), "x ");
    let before = term.clone();
    term.set(Cursor::new(2, 0), cell);
    term.set(Cursor::new(0, 2), cell);
    assert_eq!(term, before);
}

#[test]
fn put_writes_at_the_pen_and_moves_it() {
    let mut term = Term::new(3, 4);
    let mut vp = term.viewport((1, 1), 2, 2);
    assert_eq!(
        term.put(&mut vp, 'a', CharStyle::Footer, Some(Cursor::new(9, 9))),
        Some(Cursor::new(1, 1))
    );
    assert_eq!(vp.pen, Cursor::new(0, 1));
    assert_eq!(term.put(&mut vp, 'b', CharStyle::UI, None), Some(Cursor::new(1, 2)));
    assert_eq!(vp.pen, Cursor::new(0, 2));
    assert_eq!(term.put(&mut vp, 'c', CharStyle::UI, None), None);
    assert_eq!(vp.pen, Cursor::new(0, 2));
    vp.newline();
    assert_eq!(vp.pen, Cursor::new(1, 0));
    assert_eq!(term.put(&mut vp, 'd', CharStyle::Default, None), Some(Cursor::new(2, 1)));
    vp.newline();
    assert_eq!(vp.pen, Cursor::new(2, 0));
    assert_eq!(term.put(&mut vp, 'e', CharStyle::Default, None), None);
    vp.newline();
    assert_eq!(vp.pen, Cursor::new(2, 0));
    assert_eq!(term.row_text(0), "    ");
    assert_eq!(term.row_text(1), " ab ");
    assert_eq!(term.row_text(2), " d  ");
    assert_eq!(
        term.cell(Cursor::new(1, 1)),
        Some(Cell { ch: 'a', style: CharStyle::Footer, pos: Some(Cursor::new(9, 9)) })
    );
    assert_eq!(
        term.cell(Cursor::new(1, 2)),
        Some(Cell { ch: 'b', style: CharStyle::UI, pos: None })
    );
}

#[test]
fn put_through_a_viewport_of_a_larger_screen_stays_on_the_grid() {
    let large = Term::new(10, 10);
    let mut vp = large.viewport((4, 4), 2, 2);
    let mut small = Term::new(3, 3);
    let before = small.clone();
    assert_eq!(small.put(&mut vp, 'x', CharStyle::Default, None), None);
    assert_eq!(vp.pen, Cursor::new(0, 1));
    assert_eq!(small, before);
}

#[test]
fn puts_cuts_the_text_off_at_the_right_edge() {
    let mut term = Term::new(2, 5);
    let mut vp = term.viewport((0, 1), 1, 3);
    term.puts(&mut vp, "ab", CharStyle::UI);
    assert_eq!(vp.pen, Cursor::new(0, 2));
    assert_eq!(term.row_text(0), " ab  ");
    term.puts(&mut vp, "cdef", CharStyle::Footer);
    assert_eq!(vp.pen, Cursor::new(0, 3));
    assert_eq!(term.row_text(0), " abc ");
    assert_eq!(term.row_text(1), "     ");
    assert_eq!(
        styles(&term, 0),
        vec![
            CharStyle::Default,
            CharStyle::UI,
            CharStyle::UI,
            CharStyle::Footer,
            CharStyle::Default
        ]
    );
    term.puts(&mut vp, "", CharStyle::Footer);
    assert_eq!(vp.pen, Cursor::new(0, 3));
    vp.newline();
    term.puts(&mut vp, "zz", CharStyle::Footer);
    assert_eq!(term.row_text(1), "     ");
}

#[test]
fn draw_paints_the_text_from_the_first_visible_row() {
    let mut buf = Buffer::from_text("abcdef\n\nxy\nlast");
    let mut term = Term::new(3, 4);
    let mut vp = term.viewport((0, 0), 3, 4);
    term.puts(&mut vp, "####", CharStyle::Footer);
    let area = term.viewport((0, 0), 3, 4);
    assert_eq!(buf.draw(&mut term, area), Some(Cursor::new(0, 0)));
    assert_eq!(term.row_text(0), "abcd");
    assert_eq!(term.row_text(1), "    ");
    assert_eq!(term.row_text(2), "xy  ");
    assert_eq!(
        term.cell(Cursor::new(2, 1)),
        Some(Cell { ch: 'y', style: CharStyle::Default, pos: Some(Cursor::new(2, 1)) })
    );
    assert_eq!(term.cell(Cursor::new(2, 2)), Some(Cell::blank()));
    assert_eq!(term.cell(Cursor::new(1, 0)), Some(Cell::blank()));

    buf.scroll_down();
    buf.set_cursor(Cursor::new(3, 2));
    assert_eq!(buf.draw(&mut term, area), Some(Cursor::new(0, 2)));
    assert_eq!(term.row_text(0), "last");
    assert_eq!(term.row_text(1), "    ");
    assert_eq!(term.row_text(2), "    ");
    assert_eq!(term.pos(Cursor::new(0, 3)), Some(Cursor::new(3, 3)));
    assert_eq!(term.pos(Cursor::new(1, 0)), None);
}

#[test]
fn draw_paints_only_its_rectangle() {
    let buf = Buffer::from_text("abcdef\nghijkl\nmnopqr");
    let mut term = Term::new(4, 6);
    for row in 0..4 {
        let mut vp = term.viewport((row, 0), 1, 6);
        term.puts(&mut vp, "######", CharStyle::UI);
    }
    let area = term.viewport((1, 2), 2, 3);
    assert_eq!(buf.draw(&mut term, area), Some(Cursor::new(1, 2)));
    assert_eq!(term.row_text(0), "######");
    assert_eq!(term.row_text(1), "##abc#");
    assert_eq!(term.row_text(2), "##ghi#");
    assert_eq!(term.row_text(3), "######");
    assert_eq!(term.pos(Cursor::new(2, 4)), Some(Cursor::new(1, 2)));
    assert_eq!(term.pos(Cursor::new(2, 5)), None);
}

#[test]
fn draw_reports_where_the_cursor_falls() {
    let mut buf = Buffer::from_text("abc\ndefgh\ni\nj\nk");
    let mut term = Term::new(3, 4);
    let area = term.viewport((0, 0), 3, 4);
    buf.set_cursor(Cursor::new(1, 3));
    assert_eq!(buf.draw(&mut term, area), Some(Cursor::new(1, 3)));
    buf.set_cursor(Cursor::new(1, 4));
    assert_eq!(buf.draw(&mut term, area), None);
    buf.set_cursor(Cursor::new(0, 3));
    assert_eq!(buf.draw(&mut term, area), Some(Cursor::new(0, 3)));
    buf.set_cursor(Cursor::new(3, 0));
    assert_eq!(buf.draw(&mut term, area), None);
    buf.scroll_down();
    assert_eq!(buf.draw(&mut term, area), Some(Cursor::new(0, 0)));
    buf.set_cursor(Cursor::new(2, 0));
    assert_eq!(buf.draw(&mut term, area), None);
    let nothing = term.viewport((0, 0), 0, 4);
    assert_eq!(buf.draw(&mut term, nothing), None);
}

#[test]
fn normal_mode_renders_the_text_and_a_status_line() {
    let mut buf = Buffer::from_text("hello\nworld");
    buf.set_cursor(Cursor::new(1, 2));
    let mut term = Term::new(4, 30);
    Normal::new().draw(&buf, &mut term);
    assert_eq!(term.row_text(0), format!("{:30}", "hello"));
    assert_eq!(term.row_text(1), format!("{:30}", "world"));
    assert_eq!(term.row_text(2), format!("{:30}", ""));
    assert_eq!(term.row_text(3), format!("{:30}", "[Normal] (2 3) [*] "));
    assert_eq!(term.cursor(), CursorState::Show(Cursor::new(1, 2), CursorShape::Block));
    let footer = styles(&term, 3);
    assert!(footer[..19].iter().all(|style| *style == CharStyle::Footer));
    assert!(footer[19..].iter().all(|style| *style == CharStyle::Default));
    assert!(styles(&term, 0).iter().all(|style| *style == CharStyle::Default));
}

#[test]
fn normal_mode_status_line_shows_path_and_message() {
    let mut buf = Buffer::from_text("0\n1\n2\n3\n4\n5\n6\n7\n8\n9\n10\n0123456789ab");
    buf.set_path(Some(String::from("out.txt")));
    buf.set_cursor(Cursor::new(11, 12));
    let mut term = Term::new(2, 50);
    Normal::with_message(String::from("Saved to out.txt")).draw(&buf, &mut term);
    assert_eq!(
        term.row_text(1),
        format!("{:50}", "[Normal] (12 13) [out.txt] Saved to out.txt")
    );
    assert_eq!(term.row_text(0), format!("{:50}", "0"));
    assert_eq!(term.cursor(), CursorState::Hide);
}

#[test]
fn normal_mode_status_line_is_cut_off_at_the_right_edge() {
    let buf = Buffer::from_text("hello");
    let mut term = Term::new(2, 6);
    Normal::new().draw(&buf, &mut term);
    assert_eq!(term.row_text(0), "hello ");
    assert_eq!(term.row_text(1), "[Norma");
}

#[test]
fn insert_mode_renders_the_whole_screen_with_a_bar() {
    let mut buf = Buffer::from_text("a\nb\nc");
    buf.set_cursor(Cursor::new(2, 1));
    let mut term = Term::new(3, 3);
    Insert.draw(&buf, &mut term);
    assert_eq!(term.row_text(0), "a  ");
    assert_eq!(term.row_text(1), "b  ");
    assert_eq!(term.row_text(2), "c  ");
    assert_eq!(term.cursor(), CursorState::Show(Cursor::new(2, 1), CursorShape::Bar));
}

#[test]
fn replace_mode_renders_the_whole_screen_with_an_underline() {
    let buf = Buffer::from_text("a\nb\nc");
    let mut term = Term::new(3, 3);
    R.draw(&buf, &mut term);
    assert_eq!(term.row_text(2), "c  ");
    assert_eq!(term.cursor(), CursorState::Show(Cursor::new(0, 0), CursorShape::Underline));
}

#[test]
fn search_mode_renders_the_query() {
    let mut buf = Buffer::from_text("a\nb\nc");
    let mut term = Term::new(3, 8);
    Search.draw(&buf, &mut term);
    assert_eq!(term.row_text(2), "/       ");
    for c in "needle".chars() {
        Search.event(&mut buf, Event::Key(Key::Char(c)));
    }
    Search.draw(&buf, &mut term);
    assert_eq!(term.row_text(0), "a       ");
    assert_eq!(term.row_text(1), "b       ");
    assert_eq!(term.row_text(2), "/needle ");
    assert!(styles(&term, 2).iter().all(|style| *style == CharStyle::Default));
    assert_eq!(term.pos(Cursor::new(2, 1)), None);
    assert_eq!(term.cursor(), CursorState::Show(Cursor::new(0, 0), CursorShape::Block));
}

#[test]
fn save_mode_renders_the_directory_and_the_prompt() {
    let mut buf = Buffer::from_text("a\nb\nc\nd");
    let mut mode = Save::new();
    for c in "out.txt".chars() {
        mode.event(&mut buf, Event::Key(Key::Char(c)), false);
    }
    let mut term = Term::new(4, 12);
    mode.draw(&buf, &mut term, "/home/me");
    assert_eq!(term.row_text(0), "a           ");
    assert_eq!(term.row_text(1), "b           ");
    assert_eq!(term.row_text(2), "/home/me    ");
    assert_eq!(term.row_text(3), "> out.txt   ");
    assert!(styles(&term, 2)[..8].iter().all(|style| *style == CharStyle::UI));
    assert!(styles(&term, 3)[..9].iter().all(|style| *style == CharStyle::UI));
    assert_eq!(term.cursor(), CursorState::Show(Cursor::new(0, 0), CursorShape::Block));

    let mut term = Term::new(4, 12);
    mode.draw(&buf, &mut term, "/a/very/long/directory");
    assert_eq!(term.row_text(2), "/a/very/long");
    assert_eq!(term.row_text(3), "> out.txt   ");
}

#[test]
fn prefix_mode_renders_the_command_keys() {
    let buf = Buffer::from_text("a\nb");
    let mut term = Term::new(2, 32);
    Prefix.draw(&buf, &mut term);
    assert_eq!(term.row_text(0), format!("{:32}", "a"));
    assert_eq!(term.row_text(1), "Prefix ... [q: Quit] [s: Save]  ");
    assert!(styles(&term, 1)[..30].iter().all(|style| *style == CharStyle::Footer));
    assert_eq!(term.cursor(), CursorState::Show(Cursor::new(0, 0), CursorShape::Block));
}

#[test]
fn rendering_copes_with_screens_too_small_for_the_status_lines() {
    let buf = Buffer::from_text("abc");
    let mut term = Term::new(0, 0);
    Mode::Normal(Normal::new()).render(&buf, &mut term, "/");
    assert_eq!(term.cursor(), CursorState::Hide);
    let mut term = Term::new(1, 4);
    Mode::Save(Save::new()).render(&buf, &mut term, "/cwd");
    assert_eq!(term.row_text(0), "/cwd");
    assert_eq!(term.cursor(), CursorState::Hide);
    let mut term = Term::new(1, 4);
    Mode::Prefix(Prefix).render(&buf, &mut term, "/cwd");
    assert_eq!(term.row_text(0), "Pref");
    let mut term = Term::new(1, 4);
    Mode::Insert(Insert).render(&buf, &mut term, "/cwd");
    assert_eq!(term.row_text(0), "abc ");
}

#[test]
fn render_dispatches_to_the_mode() {
    let buf = Buffer::from_text("abc");
    let cases = [
        (Mode::Normal(Normal::new()), "[Normal] (1 1) [*] ", CursorShape::Block),
        (Mode::Prefix(Prefix), "Prefix ... [q: Quit] [s: Save]", CursorShape::Block),
        (Mode::Insert(Insert), "", CursorShape::Bar),
        (Mode::Replace(R), "", CursorShape::Underline),
        (Mode::Search(Search), "/", CursorShape::Block),
        (Mode::Save(Save::new()), "> ", CursorShape::Block),
    ];
    for (mode, last_row, shape) in cases {
        let mut term = Term::new(3, 40);
        mode.render(&buf, &mut term, "/cwd");
        assert_eq!(term.row_text(0), format!("{:40}", "abc"));
        assert_eq!(term.row_text(2), format!("{:40}", last_row));
        assert_eq!(term.cursor(), CursorState::Show(Cursor::new(0, 0), shape));
    }
}

#[test]
fn rendering_leaves_the_buffer_alone() {
    let mut buf = Buffer::from_text("one\ntwo");
    buf.set_cursor(Cursor::new(1, 1));
    buf.set_path(Some(String::from("p")));
    let before = buf.clone();
    let mut term = Term::new(5, 20);
    for mode in [
        Mode::Normal(Normal::new()),
        Mode::Prefix(Prefix),
        Mode::Insert(Insert),
        Mode::Replace(R),
        Mode::Search(Search),
        Mode::Save(Save::new()),
    ] {
        mode.render(&buf, &mut term, "/cwd");
        assert_eq!(buf, before);
    }
}
