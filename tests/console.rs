use kfs::vga::{color_byte, Color, Writer, VGA_HEIGHT, VGA_WIDTH};

fn row_text(w: &Writer, row: usize) -> String {
    let mut s = String::new();
    for col in 0..VGA_WIDTH {
        s.push(w.char_at(row, col) as char);
    }
    s.trim_end().to_string()
}

#[test]
fn color_byte_packs_background_high() {
    assert_eq!(color_byte(Color::LightGreen, Color::Black), 0x0A);
    assert_eq!(color_byte(Color::White, Color::Blue), 0x1F);
    assert_eq!(color_byte(Color::White, Color::Red), 0x4F);
    assert_eq!(color_byte(Color::Black, Color::White), 0xF0);
}

#[test]
fn new_writer_is_blank() {
    let w = Writer::new();
    assert_eq!(w.get_cursor_position(), (0, 0));
    assert_eq!(w.hardware_cursor(), 0);
    assert!(!w.cursor_visible());
    assert_eq!(w.color(), 0x0F);
    for row in 0..VGA_HEIGHT {
        for col in 0..VGA_WIDTH {
            assert_eq!(w.char_at(row, col), b' ');
            assert_eq!(w.attr_at(row, col), 0x0F);
        }
    }
}

#[test]
fn write_string_places_text_and_syncs_cursor() {
    let mut w = Writer::new();
    w.set_color(Color::Yellow, Color::Blue);
    w.write_string("hi");
    assert_eq!(w.char_at(0, 0), b'h');
    assert_eq!(w.char_at(0, 1), b'i');
    assert_eq!(w.attr_at(0, 0), 0x1E);
    assert_eq!(w.get_cursor_position(), (0, 2));
    assert_eq!(w.hardware_cursor(), 2);
}

#[test]
fn newline_advances_row() {
    let mut w = Writer::new();
    w.write_string("ab\ncd");
    assert_eq!(row_text(&w, 0), "ab");
    assert_eq!(row_text(&w, 1), "cd");
    assert_eq!(w.get_cursor_position(), (1, 2));
    assert_eq!(w.hardware_cursor(), 82);
}

#[test]
fn nonprintable_bytes_drawn_as_replacement_glyph() {
    let mut w = Writer::new();
    w.write_string("a\tb\u{7f}");
    assert_eq!(w.char_at(0, 0), b'a');
    assert_eq!(w.char_at(0, 1), 0xfe);
    assert_eq!(w.char_at(0, 2), b'b');
    assert_eq!(w.char_at(0, 3), 0xfe);
    // a two-byte UTF-8 character gives two replacement glyphs
    let mut w2 = Writer::new();
    w2.write_string("é");
    assert_eq!(w2.char_at(0, 0), 0xfe);
    assert_eq!(w2.char_at(0, 1), 0xfe);
    assert_eq!(w2.get_cursor_position(), (0, 2));
}

#[test]
fn write_byte_draws_nonprintable_as_replacement_glyph() {
    let mut w = Writer::new();
    w.write_byte(0x01);
    w.write_byte(b'A');
    w.write_byte(0x80);
    w.write_byte(0xfe);
    assert_eq!(w.char_at(0, 0), 0xfe);
    assert_eq!(w.char_at(0, 1), b'A');
    assert_eq!(w.char_at(0, 2), 0xfe);
    assert_eq!(w.char_at(0, 3), 0xfe);
    assert_eq!(w.get_cursor_position(), (0, 4));
}

#[test]
fn long_line_wraps_after_column_80() {
    let mut w = Writer::new();
    let line: String = std::iter::repeat('x').take(81).collect();
    w.write_string(&line);
    assert_eq!(w.char_at(0, 79), b'x');
    assert_eq!(w.char_at(1, 0), b'x');
    assert_eq!(w.char_at(1, 1), b' ');
    assert_eq!(w.get_cursor_position(), (1, 1));
}

#[test]
fn full_row_keeps_position_until_next_byte() {
    let mut w = Writer::new();
    let line: String = std::iter::repeat('y').take(80).collect();
    w.write_string(&line);
    assert_eq!(w.get_cursor_position(), (0, 80));
    assert_eq!(w.char_at(1, 0), b' ');
}

#[test]
fn scrolling_drops_first_line_and_shifts_rest_up_by_one() {
    let mut w = Writer::new();
    for i in 0..VGA_HEIGHT {
        w.write_string(&format!("line {}\n", i));
    }
    // 25 lines and 25 newlines: the last newline scrolled once
    assert_eq!(row_text(&w, 0), "line 1");
    for r in 0..VGA_HEIGHT - 1 {
        assert_eq!(row_text(&w, r), format!("line {}", r + 1));
    }
    assert_eq!(row_text(&w, VGA_HEIGHT - 1), "");
    assert_eq!(w.get_cursor_position(), (VGA_HEIGHT - 1, 0));
}

#[test]
fn scrolling_clears_last_row_in_current_color() {
    let mut w = Writer::new();
    for _ in 0..VGA_HEIGHT - 1 {
        w.write_string("\n");
    }
    w.write_string("bottom");
    w.set_color(Color::White, Color::Green);
    w.write_string("\n");
    assert_eq!(row_text(&w, VGA_HEIGHT - 2), "bottom");
    assert_eq!(w.attr_at(VGA_HEIGHT - 2, 0), 0x0F);
    for col in 0..VGA_WIDTH {
        assert_eq!(w.char_at(VGA_HEIGHT - 1, col), b' ');
        assert_eq!(w.attr_at(VGA_HEIGHT - 1, col), 0x2F);
    }
    assert_eq!(w.get_cursor_position(), (VGA_HEIGHT - 1, 0));
}

#[test]
fn many_lines_keep_scrolling() {
    let mut w = Writer::new();
    for i in 0..60 {
        w.write_string(&format!("{}\n", i));
    }
    assert_eq!(row_text(&w, 0), "36");
    assert_eq!(row_text(&w, 23), "59");
    assert_eq!(row_text(&w, 24), "");
}

#[test]
fn backspace_erases_previous_cell() {
    let mut w = Writer::new();
    w.write_string("abc");
    w.backspace();
    assert_eq!(row_text(&w, 0), "ab");
    assert_eq!(w.get_cursor_position(), (0, 2));
    assert_eq!(w.hardware_cursor(), 2);
}

#[test]
fn backspace_at_row_start_does_nothing() {
    let mut w = Writer::new();
    w.write_string("ab\n");
    w.backspace();
    assert_eq!(w.get_cursor_position(), (1, 0));
    assert_eq!(row_text(&w, 0), "ab");
}

#[test]
fn clear_screen_blanks_in_current_color() {
    let mut w = Writer::new();
    w.write_string("text\nmore");
    w.set_color(Color::Red, Color::Red);
    w.clear_screen();
    assert_eq!(w.get_cursor_position(), (0, 0));
    assert_eq!(w.hardware_cursor(), 0);
    for row in 0..VGA_HEIGHT {
        for col in 0..VGA_WIDTH {
            assert_eq!(w.char_at(row, col), b' ');
            assert_eq!(w.attr_at(row, col), 0x44);
        }
    }
}

#[test]
fn set_cursor_position_in_range_moves_cursor() {
    let mut w = Writer::new();
    w.set_cursor_position(3, 7);
    assert_eq!(w.get_cursor_position(), (3, 7));
    assert_eq!(w.hardware_cursor(), 247);
    w.write_string("x");
    assert_eq!(w.char_at(3, 7), b'x');
}

#[test]
fn set_cursor_position_out_of_range_is_ignored() {
    let mut w = Writer::new();
    w.set_cursor_position(2, 2);
    w.set_cursor_position(25, 0);
    assert_eq!(w.get_cursor_position(), (2, 2));
    w.set_cursor_position(0, 80);
    assert_eq!(w.get_cursor_position(), (2, 2));
}

#[test]
fn cursor_visibility_toggles() {
    let mut w = Writer::new();
    w.set_cursor_visible(true);
    assert!(w.cursor_visible());
    w.set_cursor_visible(false);
    assert!(!w.cursor_visible());
}

#[test]
fn printc_restores_previous_color() {
    let mut w = Writer::new();
    w.printc("ok", Color::Green, Color::Black);
    assert_eq!(w.attr_at(0, 0), 0x02);
    assert_eq!(w.color(), 0x0F);
    w.write_string("!");
    assert_eq!(w.attr_at(0, 2), 0x0F);
}

#[test]
fn write_at_stores_text_without_moving_cursor() {
    let mut w = Writer::new();
    w.write_at(10, b"FAULT", 0x4F);
    assert_eq!(row_text(&w, 10), "FAULT");
    assert_eq!(w.attr_at(10, 4), 0x4F);
    assert_eq!(w.attr_at(10, 5), 0x0F);
    assert_eq!(w.get_cursor_position(), (0, 0));
    let long = vec![b'z'; 100];
    w.write_at(11, &long, 0x4F);
    assert_eq!(w.char_at(11, 79), b'z');
    assert_eq!(w.char_at(12, 0), b' ');
}
