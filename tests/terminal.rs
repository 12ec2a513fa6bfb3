use rio::ansi::{ClearMode, CursorShape, LineClearMode, TabulationClearMode};
use rio::cell::{Cell, Color, Pen};
use rio::charset::{Charset, CharsetSlot};
use rio::mode::Mode;
use rio::term::Terminal;

fn term(rows: usize, cols: usize) -> Terminal {
    Terminal::new(rows, cols, 100, 8)
}

fn row_text(t: &Terminal, row: usize) -> String {
    (0..t.num_cols()).map(|c| t.cell(row, c).c).collect()
}

fn is_blank_except(t: &Terminal, keep: &[(usize, usize)]) -> bool {
    for r in 0..t.num_rows() {
        for c in 0..t.num_cols() {
            if !keep.contains(&(r, c)) && !t.cell(r, c).is_blank() {
                return false;
            }
        }
    }
    true
}

#[test]
fn clear_home_then_hello() {
    let mut t = term(24, 80);
    t.feed(b"garbage\r\nmore garbage");
    t.feed(b"\x1b[2J\x1b[1;1HHello");
    let keep: Vec<(usize, usize)> = (0..5).map(|c| (0, c)).collect();
    assert!(is_blank_except(&t, &keep));
    assert_eq!(&row_text(&t, 0)[..5], "Hello");
    for c in 0..5 {
        assert_eq!(t.cell(0, c).pen, Pen::plain());
    }
    assert_eq!(t.cursor_position(), (0, 5));
}

#[test]
fn cursor_left_clamps_at_origin() {
    let mut t = term(24, 80);
    t.feed(b"A\x1b[1D");
    assert_eq!(t.cursor_position(), (0, 0));
    t.feed(b"\x1b[5D");
    assert_eq!(t.cursor_position(), (0, 0));
    assert_eq!(t.cell(0, 0).c, 'A');
}

#[test]
fn movement_clamps_to_grid() {
    let mut t = term(5, 10);
    t.feed(b"\x1b[99;99H");
    assert_eq!(t.cursor_position(), (4, 9));
    t.feed(b"\x1b[3A");
    assert_eq!(t.cursor_position(), (1, 9));
    t.feed(b"\x1b[20A");
    assert_eq!(t.cursor_position(), (0, 9));
    t.feed(b"\x1b[4D\x1b[2B");
    assert_eq!(t.cursor_position(), (2, 5));
    t.feed(b"\x1b[G");
    assert_eq!(t.cursor_position(), (2, 0));
    t.feed(b"\x1b[7C");
    assert_eq!(t.cursor_position(), (2, 7));
    t.feed(b"\x1b[4d");
    assert_eq!(t.cursor_position(), (3, 7));
    t.feed(b"\x1b[F");
    assert_eq!(t.cursor_position(), (2, 0));
    t.feed(b"\x1b[2E");
    assert_eq!(t.cursor_position(), (4, 0));
}

#[test]
fn split_feed_matches_whole_feed() {
    let stream: &[u8] = b"ab\x1b[31mcd\x1b[2;3Hx\x1b]0;title\x07\x1b(0qx\x1b(B\r\nend\x1b[1K";
    let mut whole = term(6, 12);
    whole.feed(stream);
    for cut in 0..stream.len() {
        let mut parts = term(6, 12);
        parts.feed(&stream[..cut]);
        parts.feed(&stream[cut..]);
        for r in 0..6 {
            for c in 0..12 {
                assert_eq!(parts.cell(r, c), whole.cell(r, c));
            }
        }
        assert_eq!(parts.cursor_position(), whole.cursor_position());
        assert_eq!(parts.title, whole.title);
    }
    let mut bytes = term(6, 12);
    for b in stream {
        bytes.feed(&[*b]);
    }
    assert_eq!(bytes.cursor_position(), whole.cursor_position());
    assert_eq!(row_text(&bytes, 1), row_text(&whole, 1));
}

#[test]
fn clear_all_then_write_leaves_only_written_cell() {
    let mut t = term(4, 6);
    t.feed(b"abcdef\r\nghijkl\r\nmn\x1b[2;2H");
    t.clear_screen(ClearMode::All);
    assert_eq!(t.cursor_position(), (1, 1));
    t.feed(b"Z");
    assert!(is_blank_except(&t, &[(1, 1)]));
    assert_eq!(t.cell(1, 1).c, 'Z');
}

#[test]
fn clear_line_right_keeps_left_and_other_rows() {
    let mut t = term(3, 6);
    t.feed(b"abcdef\r\nghijkl\r\nmnopqr\x1b[2;3H");
    t.clear_line(LineClearMode::Right);
    assert_eq!(row_text(&t, 0), "abcdef");
    assert_eq!(row_text(&t, 1), "gh    ");
    assert_eq!(row_text(&t, 2), "mnopqr");
    assert_eq!(t.cursor_position(), (1, 2));
}

#[test]
fn clear_line_left_and_all() {
    let mut t = term(2, 6);
    t.feed(b"abcdef\x1b[1;3H\x1b[1K");
    assert_eq!(row_text(&t, 0), "   def");
    t.feed(b"\x1b[2K");
    assert_eq!(row_text(&t, 0), "      ");
    assert_eq!(t.cursor_position(), (0, 2));
}

#[test]
fn clear_screen_below_and_above() {
    let mut t = term(3, 4);
    t.feed(b"abcd\r\nefgh\r\nijkl\x1b[2;2H\x1b[J");
    assert_eq!(row_text(&t, 0), "abcd");
    assert_eq!(row_text(&t, 1), "e   ");
    assert_eq!(row_text(&t, 2), "    ");
    let mut u = term(3, 4);
    u.feed(b"abcd\r\nefgh\r\nijkl\x1b[2;2H\x1b[1J");
    assert_eq!(row_text(&u, 0), "    ");
    assert_eq!(row_text(&u, 1), "  gh");
    assert_eq!(row_text(&u, 2), "ijkl");
    assert_eq!(u.cursor_position(), (1, 1));
}

#[test]
fn clear_saved_drops_scrollback_only() {
    let mut t = term(2, 3);
    t.feed(b"a\r\nb\r\nc\r\nd");
    assert_eq!(t.scrollback_len(), 2);
    t.feed(b"\x1b[3J");
    assert_eq!(t.scrollback_len(), 0);
    assert_eq!(row_text(&t, 0), "c  ");
    assert_eq!(row_text(&t, 1), "d  ");
}

#[test]
fn autowrap_moves_extra_char_to_next_row() {
    let mut t = term(3, 5);
    t.feed(b"abcde");
    assert_eq!(t.cursor_position(), (0, 4));
    assert!(t.cursor.pending_wrap);
    t.feed(b"f");
    assert_eq!(row_text(&t, 0), "abcde");
    assert_eq!(t.cell(1, 0).c, 'f');
    assert_eq!(t.cursor_position(), (1, 1));
}

#[test]
fn without_autowrap_last_column_is_overwritten() {
    let mut t = term(2, 4);
    t.feed(b"\x1b[?7labcdef");
    assert_eq!(row_text(&t, 0), "abcf");
    assert_eq!(t.cursor_position(), (0, 3));
    assert_eq!(row_text(&t, 1), "    ");
}

#[test]
fn full_region_scroll_archives_rows_up_to_cap() {
    let mut t = Terminal::new(2, 3, 2, 8);
    t.feed(b"1\r\n2");
    assert_eq!(t.scrollback_len(), 0);
    t.feed(b"\r\n3");
    assert_eq!(t.scrollback_len(), 1);
    assert_eq!(t.scrollback[0][0].c, '1');
    assert_eq!(row_text(&t, 0), "2  ");
    assert_eq!(row_text(&t, 1), "3  ");
    t.feed(b"\r\n4");
    assert_eq!(t.scrollback_len(), 2);
    t.feed(b"\r\n5");
    assert_eq!(t.scrollback_len(), 2);
    assert_eq!(t.scrollback[0][0].c, '2');
    assert_eq!(t.scrollback[1][0].c, '3');
    assert_eq!(row_text(&t, 0), "4  ");
    assert_eq!(row_text(&t, 1), "5  ");
}

#[test]
fn zero_scrollback_cap_keeps_nothing() {
    let mut t = Terminal::new(1, 2, 0, 8);
    t.feed(b"a\nb\nc");
    assert_eq!(t.scrollback_len(), 0);
    assert_eq!(t.cell(0, 1).c, 'c');
}

#[test]
fn partial_region_scroll_discards_rows() {
    let mut t = term(4, 3);
    t.feed(b"a\r\nb\r\nc\r\nd");
    t.feed(b"\x1b[2;3r");
    assert_eq!(t.cursor_position(), (0, 0));
    t.feed(b"\x1b[3;1H\n");
    assert_eq!(t.scrollback_len(), 0);
    assert_eq!(row_text(&t, 0), "a  ");
    assert_eq!(row_text(&t, 1), "c  ");
    assert_eq!(row_text(&t, 2), "   ");
    assert_eq!(row_text(&t, 3), "d  ");
}

#[test]
fn reverse_index_scrolls_region_down() {
    let mut t = term(3, 2);
    t.feed(b"a\r\nb\r\nc\x1b[H\x1bM");
    assert_eq!(row_text(&t, 0), "  ");
    assert_eq!(row_text(&t, 1), "a ");
    assert_eq!(row_text(&t, 2), "b ");
}

#[test]
fn invalid_scroll_region_is_ignored() {
    let mut t = term(4, 3);
    t.feed(b"\x1b[2;2H\x1b[3;2r");
    assert_eq!((t.top, t.bottom), (0, 3));
    assert_eq!(t.cursor_position(), (1, 1));
}

#[test]
fn alt_screen_round_trip_restores_primary() {
    let mut t = term(3, 4);
    t.feed(b"abcd\r\nef");
    let before: Vec<String> = (0..3).map(|r| row_text(&t, r)).collect();
    let pos = t.cursor_position();
    t.feed(b"\x1b[?1049h");
    assert!(t.mode(Mode::AltScreen));
    assert!(is_blank_except(&t, &[]));
    t.feed(b"xyz\r\n\r\n\r\n\r\nqq");
    assert_eq!(t.scrollback_len(), 0);
    t.feed(b"\x1b[?1049l");
    let after: Vec<String> = (0..3).map(|r| row_text(&t, r)).collect();
    assert_eq!(before, after);
    assert_eq!(t.cursor_position(), pos);
    assert!(!t.mode(Mode::AltScreen));
}

#[test]
fn sgr_sets_and_resets_pen() {
    let mut t = term(1, 8);
    t.feed(b"\x1b[1;4;31;42mA\x1b[22;39mB\x1b[0mC\x1b[38;5;200;48;5;17mD\x1b[94;103;7mE");
    let a = t.cell(0, 0).pen;
    assert!(a.bold && a.underline && !a.italic);
    assert_eq!(a.fg, Color::Indexed(1));
    assert_eq!(a.bg, Color::Indexed(2));
    let b = t.cell(0, 1).pen;
    assert!(!b.bold && b.underline);
    assert_eq!(b.fg, Color::Default);
    assert_eq!(t.cell(0, 2).pen, Pen::plain());
    let d = t.cell(0, 3).pen;
    assert_eq!(d.fg, Color::Indexed(200));
    assert_eq!(d.bg, Color::Indexed(17));
    let e = t.cell(0, 4).pen;
    assert_eq!(e.fg, Color::Indexed(12));
    assert_eq!(e.bg, Color::Indexed(11));
    assert!(e.inverse);
    t.feed(b"\x1b[m");
    assert_eq!(t.cursor.pen, Pen::plain());
}

#[test]
fn line_drawing_charset_maps_letters() {
    let mut t = term(1, 6);
    t.feed(b"\x1b(0qxja\x1b(Bq");
    assert_eq!(t.cell(0, 0).c, '\u{2500}');
    assert_eq!(t.cell(0, 1).c, '\u{2502}');
    assert_eq!(t.cell(0, 2).c, '\u{2518}');
    assert_eq!(t.cell(0, 3).c, 'a');
    assert_eq!(t.cell(0, 4).c, 'q');
}

#[test]
fn shift_out_selects_g1() {
    let mut t = term(1, 4);
    t.feed(b"\x1b)0\x0eq\x0fq");
    assert_eq!(t.cell(0, 0).c, '\u{2500}');
    assert_eq!(t.cell(0, 1).c, 'q');
    t.select_charset(CharsetSlot::G1);
    t.designate(CharsetSlot::G1, Charset::Ascii);
    t.print(b'q');
    assert_eq!(t.cell(0, 2).c, 'q');
}

#[test]
fn tabs_default_set_and_clear() {
    let mut t = term(1, 20);
    t.feed(b"\tx");
    assert_eq!(t.cursor_position(), (0, 9));
    t.feed(b"\x1b[1;4H\x1bH\x1b[1;1H\t");
    assert_eq!(t.cursor_position(), (0, 3));
    t.feed(b"\x1b[g\x1b[1;1H\t");
    assert_eq!(t.cursor_position(), (0, 8));
    t.clear_tabs(TabulationClearMode::All);
    t.feed(b"\r\t");
    assert_eq!(t.cursor_position(), (0, 19));
    t.feed(b"\t");
    assert_eq!(t.cursor_position(), (0, 19));
}

#[test]
fn save_and_restore_cursor() {
    let mut t = term(5, 10);
    t.feed(b"\x1b[3;4H\x1b[1m\x1b7\x1b[H\x1b[0m");
    assert_eq!(t.cursor_position(), (0, 0));
    t.feed(b"\x1b8");
    assert_eq!(t.cursor_position(), (2, 3));
    assert!(t.cursor.pen.bold);
    t.feed(b"\x1b8");
    assert_eq!(t.cursor_position(), (0, 0));
    assert_eq!(t.cursor.pen, Pen::plain());
    t.feed(b"\x1b[2;2H\x1b[s\x1b[H\x1b[u");
    assert_eq!(t.cursor_position(), (1, 1));
}

#[test]
fn origin_mode_addresses_scroll_region() {
    let mut t = term(6, 5);
    t.feed(b"\x1b[3;5r\x1b[?6h");
    assert_eq!(t.cursor_position(), (2, 0));
    t.feed(b"\x1b[2;2H");
    assert_eq!(t.cursor_position(), (3, 1));
    t.feed(b"\x1b[9;1H");
    assert_eq!(t.cursor_position(), (4, 0));
    t.feed(b"\x1b[?6l");
    assert_eq!(t.cursor_position(), (0, 0));
}

#[test]
fn insert_mode_shifts_line_right() {
    let mut t = term(1, 5);
    t.feed(b"abcd\x1b[1;2H\x1b[4hX");
    assert_eq!(row_text(&t, 0), "aXbcd");
    t.feed(b"\x1b[4lY");
    assert_eq!(row_text(&t, 0), "aXYcd");
}

#[test]
fn cursor_visibility_and_shape() {
    let mut t = term(2, 2);
    assert_eq!(t.cursor_shape(), CursorShape::Block);
    t.feed(b"\x1b[?25l");
    assert_eq!(t.cursor_shape(), CursorShape::Hidden);
    assert!(!t.mode(Mode::CursorVisible));
    t.feed(b"\x1b[?25h\x1b[?2004h");
    assert_eq!(t.cursor_shape(), CursorShape::Block);
    assert!(t.mode(Mode::BracketedPaste));
}

#[test]
fn malformed_and_unknown_sequences_are_discarded() {
    let mut t = term(2, 10);
    t.feed(b"\x1b[1$zA\x1b[?99hB\x1b[5ZC\x1bzD");
    assert_eq!(&row_text(&t, 0)[..4], "ABCD");
    assert_eq!(t.cursor_position(), (0, 4));
}

#[test]
fn control_byte_interrupts_sequence() {
    let mut t = term(2, 10);
    t.feed(b"ab\x1b[3\rX");
    assert_eq!(&row_text(&t, 0)[..2], "Xb");
    t.feed(b"\x1b[\x18Y");
    assert_eq!(&row_text(&t, 0)[..3], "XY ");
}

#[test]
fn osc_sets_title_and_respects_cap() {
    let mut t = term(1, 4);
    t.feed(b"\x1b]2;hello\x1b\\A");
    assert_eq!(t.title, b"hello".to_vec());
    assert_eq!(t.cell(0, 0).c, 'A');
    t.feed(b"\x1b]0;wor");
    t.feed(b"ld\x07");
    assert_eq!(t.title, b"world".to_vec());
    let mut long = vec![0x1b, b']', b'0', b';'];
    long.extend(std::iter::repeat(b'x').take(2000));
    long.push(0x07);
    t.feed(&long);
    assert_eq!(t.title, b"world".to_vec());
}

#[test]
fn reset_restores_defaults_but_keeps_scrollback() {
    let mut t = term(2, 3);
    t.feed(b"a\r\nb\r\nc\x1b[1m\x1b[?7l\x1bc");
    assert_eq!(t.scrollback_len(), 1);
    assert!(is_blank_except(&t, &[]));
    assert_eq!(t.cursor_position(), (0, 0));
    assert!(t.mode(Mode::Autowrap));
    assert_eq!(t.cursor.pen, Pen::plain());
}

#[test]
fn backspace_and_carriage_return() {
    let mut t = term(1, 5);
    t.feed(b"abc\x08\x08X\rY");
    assert_eq!(row_text(&t, 0), "YXc  ");
    assert_eq!(t.cursor_position(), (0, 1));
}

#[test]
fn blank_cell_is_space_with_default_pen() {
    let c = Cell::blank();
    assert_eq!(c.c, ' ');
    assert_eq!(c.pen, Pen::plain());
    assert!(c.is_blank());
    assert!(!Cell { c: 'x', pen: Pen::plain() }.is_blank());
}

#[test]
fn single_cell_grid() {
    let mut t = Terminal::new(1, 1, 3, 8);
    t.feed(b"ab");
    assert_eq!(t.cell(0, 0).c, 'b');
    assert_eq!(t.scrollback_len(), 1);
    assert_eq!(t.scrollback[0][0].c, 'a');
}
