use thompson_rust_os::vga_buffer::{
    Color, ColorCode, Writer, BUFFER_HEIGHT, BUFFER_WIDTH, FALLBACK_GLYPH,
};

fn test_writer() -> Writer {
    Writer::new(ColorCode::new(Color::Black, Color::White))
}

fn row_string(w: &Writer, row: usize) -> String {
    let mut s = String::new();
    for col in 0..BUFFER_WIDTH {
        s.push(w.buffer.chars[row * BUFFER_WIDTH + col].ascii_character as char);
    }
    s.trim_end().to_string()
}

#[test]
fn color_code_packs_background_over_foreground() {
    assert_eq!(ColorCode::new(Color::Black, Color::White).raw(), 0x0f);
    assert_eq!(ColorCode::new(Color::White, Color::Black).raw(), 0xf0);
    assert_eq!(ColorCode::new(Color::Black, Color::Black).raw(), 0x00);
}

#[test]
fn color_numbers_match_the_palette() {
    assert_eq!(Color::Black.as_u8(), 0);
    assert_eq!(Color::White.as_u8(), 15);
}

#[test]
fn a_fresh_writer_is_blank() {
    let w = test_writer();
    assert_eq!(w.column_position, 0);
    for row in 0..BUFFER_HEIGHT {
        assert_eq!(row_string(&w, row), "");
    }
}

#[test]
fn writing_lands_on_the_last_row() {
    let mut w = test_writer();
    w.write_string("Hello");
    assert_eq!(row_string(&w, BUFFER_HEIGHT - 1), "Hello");
    assert_eq!(w.column_position, 5);
}

#[test]
fn newline_shifts_rows_up() {
    let mut w = test_writer();
    w.write_string("first\nsecond");
    assert_eq!(row_string(&w, BUFFER_HEIGHT - 2), "first");
    assert_eq!(row_string(&w, BUFFER_HEIGHT - 1), "second");
    assert_eq!(w.column_position, 6);
}

#[test]
fn many_lines_scroll_off_the_top() {
    let mut w = test_writer();
    for _ in 0..100 {
        w.write_string("line\n");
    }
    w.write_string("last");
    assert_eq!(row_string(&w, BUFFER_HEIGHT - 1), "last");
    for row in 0..BUFFER_HEIGHT - 1 {
        assert_eq!(row_string(&w, row), "line");
    }
}

#[test]
fn long_lines_wrap_at_the_row_width() {
    let mut w = test_writer();
    let s = "Test a long string that should be wrapped at the row width characters..........80separate line!";
    w.write_string(s);
    w.write_string("\n");
    assert_eq!(row_string(&w, BUFFER_HEIGHT - 3), &s[..80]);
    assert_eq!(row_string(&w, BUFFER_HEIGHT - 2), &s[80..]);
}

#[test]
fn the_eighty_first_byte_wraps() {
    let mut w = test_writer();
    for _ in 0..BUFFER_WIDTH {
        w.write_byte(b'x');
    }
    assert_eq!(w.column_position, BUFFER_WIDTH);
    assert_eq!(row_string(&w, BUFFER_HEIGHT - 1).len(), BUFFER_WIDTH);
    w.write_byte(b'y');
    assert_eq!(w.column_position, 1);
    assert_eq!(row_string(&w, BUFFER_HEIGHT - 2).len(), BUFFER_WIDTH);
    assert_eq!(row_string(&w, BUFFER_HEIGHT - 1), "y");
}

#[test]
fn unprintable_bytes_show_the_fallback_square() {
    let mut w = test_writer();
    w.write_byte(0x07);
    assert_eq!(
        w.buffer.chars[(BUFFER_HEIGHT - 1) * BUFFER_WIDTH].ascii_character,
        0x07,
    );
    let mut w = test_writer();
    w.write_filtered_byte(0x07);
    assert_eq!(
        w.buffer.chars[(BUFFER_HEIGHT - 1) * BUFFER_WIDTH].ascii_character,
        FALLBACK_GLYPH,
    );
}

#[test]
fn non_ascii_text_paints_one_square_per_byte() {
    let mut w = test_writer();
    // Two characters of two bytes each: four squares on screen.
    w.write_string("äö");
    let base = (BUFFER_HEIGHT - 1) * BUFFER_WIDTH;
    for col in 0..4 {
        assert_eq!(w.buffer.chars[base + col].ascii_character, FALLBACK_GLYPH);
    }
    assert_eq!(w.column_position, 4);
}

#[test]
fn unicode_chars_match_their_text_form() {
    let mut by_char = test_writer();
    by_char.write_unicode_char('x');
    by_char.write_unicode_char('ä');
    by_char.write_unicode_char('√');
    let mut by_text = test_writer();
    by_text.write_string("xä√");
    let base = (BUFFER_HEIGHT - 1) * BUFFER_WIDTH;
    assert_eq!(by_char.column_position, by_text.column_position);
    assert_eq!(by_char.column_position, 6); // 1 + 2 + 3 bytes
    for col in 0..6 {
        assert_eq!(
            by_char.buffer.chars[base + col].ascii_character,
            by_text.buffer.chars[base + col].ascii_character,
        );
    }
}

#[test]
fn written_cells_carry_the_active_color() {
    let mut w = test_writer();
    w.write_string("A");
    let cell = w.buffer.chars[(BUFFER_HEIGHT - 1) * BUFFER_WIDTH];
    assert_eq!(cell.ascii_character, b'A');
    assert_eq!(cell.color_code.raw(), 0x0f);
}
