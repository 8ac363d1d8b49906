use rustos::vga_buffer::{
    Colour, ColourCode, Writer, BUF_HEIGHT, BUF_WIDTH, SUBSTITUTE_CHAR,
};

fn green_writer() -> Writer {
    Writer::new(ColourCode::new(Colour::Green, Colour::Black))
}

#[test]
fn colour_code_packs_background_high_foreground_low() {
    assert_eq!(ColourCode::new(Colour::Green, Colour::Black).code(), 2);
    assert_eq!(ColourCode::new(Colour::Red, Colour::Black).code(), 4);
    assert_eq!(ColourCode::new(Colour::White, Colour::Blue).code(), 0x1f);
    assert_eq!(ColourCode::new(Colour::Black, Colour::White).code(), 0xf0);
    assert_eq!(ColourCode::new(Colour::Yellow, Colour::Brown).code(), 0x6e);
}

#[test]
fn new_writer_starts_blank_at_column_zero() {
    let w = green_writer();
    for row in 0..BUF_HEIGHT {
        for col in 0..BUF_WIDTH {
            let c = w.cell_at(row, col);
            assert_eq!(c.ascii_char, 0x20);
            assert_eq!(c.colour_code, ColourCode::new(Colour::Green, Colour::Black));
        }
    }
    assert_eq!(w.get_column_pos(), 0);
}

#[test]
fn every_printable_byte_is_reproduced() {
    // Every byte in [0x20, 0x7e] written through write_string lands in the
    // bottom row unchanged.
    for b in 0x20u8..=0x7eu8 {
        let mut w = green_writer();
        let s = String::from_utf8(vec![b]).unwrap();
        w.write_string(&s);
        assert_eq!(w.cell_at(BUF_HEIGHT - 1, 0).ascii_char, b);
    }
}

#[test]
fn newline_byte_is_forwarded_not_substituted() {
    let mut w = green_writer();
    w.write_string("ab\ncd");
    // The newline scrolled "ab" up one row; "cd" begins the new bottom line.
    assert_eq!(w.cell_at(BUF_HEIGHT - 2, 0).ascii_char, b'a');
    assert_eq!(w.cell_at(BUF_HEIGHT - 2, 1).ascii_char, b'b');
    assert_eq!(w.cell_at(BUF_HEIGHT - 1, 0).ascii_char, b'c');
    assert_eq!(w.cell_at(BUF_HEIGHT - 1, 1).ascii_char, b'd');
}

#[test]
fn unprintable_bytes_store_the_substitute() {
    // Control characters are single unrenderable bytes.
    let mut w = green_writer();
    w.write_string("\t");
    assert_eq!(w.cell_at(BUF_HEIGHT - 1, 0).ascii_char, SUBSTITUTE_CHAR);

    let mut w = green_writer();
    w.write_string("\u{7f}");
    assert_eq!(w.cell_at(BUF_HEIGHT - 1, 0).ascii_char, SUBSTITUTE_CHAR);

    let mut w = green_writer();
    w.write_string("\0");
    assert_eq!(w.cell_at(BUF_HEIGHT - 1, 0).ascii_char, SUBSTITUTE_CHAR);

    let mut w = green_writer();
    w.write_string("\r");
    assert_eq!(w.cell_at(BUF_HEIGHT - 1, 0).ascii_char, SUBSTITUTE_CHAR);

    // A multi-byte character arrives as bytes above 0x7e: every one of them
    // is substituted.
    let mut w = green_writer();
    w.write_string("ä");
    assert_eq!("ä".len(), 2);
    assert_eq!(w.cell_at(BUF_HEIGHT - 1, 0).ascii_char, SUBSTITUTE_CHAR);
    assert_eq!(w.cell_at(BUF_HEIGHT - 1, 1).ascii_char, SUBSTITUTE_CHAR);
    assert_eq!(w.get_column_pos(), 2);
}

#[test]
fn empty_string_writes_nothing() {
    let mut w = green_writer();
    w.write_string("");
    for col in 0..BUF_WIDTH {
        assert_eq!(w.cell_at(BUF_HEIGHT - 1, col).ascii_char, 0x20);
    }
    assert_eq!(w.get_column_pos(), 0);
}

#[test]
fn overflowing_a_row_scrolls_exactly_once() {
    // BUF_WIDTH + 5 printable bytes, no newline: the 81st byte triggers the
    // one scroll.
    let k = 5;
    let mut bytes = Vec::new();
    for i in 0..BUF_WIDTH + k {
        bytes.push(b'0' + (i % 10) as u8);
    }
    let s = String::from_utf8(bytes.clone()).unwrap();
    let mut w = green_writer();
    w.write_string(&s);

    // The filled row moved up by exactly one row.
    for col in 0..BUF_WIDTH {
        assert_eq!(w.cell_at(BUF_HEIGHT - 2, col).ascii_char, bytes[col]);
    }
    // The overflow landed at the bottom-left; the rest of the row is blank.
    for col in 0..k {
        assert_eq!(w.cell_at(BUF_HEIGHT - 1, col).ascii_char, bytes[BUF_WIDTH + col]);
    }
    for col in k..BUF_WIDTH {
        assert_eq!(w.cell_at(BUF_HEIGHT - 1, col).ascii_char, 0x20);
    }
    // Rows above show no second scroll: still blank.
    for col in 0..BUF_WIDTH {
        assert_eq!(w.cell_at(BUF_HEIGHT - 3, col).ascii_char, 0x20);
    }
    // After the scroll the column restarted at zero and advanced by k.
    assert_eq!(w.get_column_pos(), k);
}

#[test]
fn exactly_width_bytes_do_not_scroll() {
    let mut bytes = Vec::new();
    for i in 0..BUF_WIDTH {
        bytes.push(b'a' + (i % 26) as u8);
    }
    let s = String::from_utf8(bytes.clone()).unwrap();
    let mut w = green_writer();
    w.write_string(&s);
    // Still on the bottom row: no scroll happened yet.
    for col in 0..BUF_WIDTH {
        assert_eq!(w.cell_at(BUF_HEIGHT - 1, col).ascii_char, bytes[col]);
        assert_eq!(w.cell_at(BUF_HEIGHT - 2, col).ascii_char, 0x20);
    }
    assert_eq!(w.get_column_pos(), BUF_WIDTH);
}

#[test]
fn set_column_pos_accepts_every_valid_column() {
    for col in 0..BUF_WIDTH {
        let mut w = green_writer();
        assert_eq!(w.set_column_pos(col), Ok(col));
        w.write_byte(b'x');
        assert_eq!(w.cell_at(BUF_HEIGHT - 1, col).ascii_char, b'x');
        assert_eq!(w.get_column_pos(), col + 1);
    }
}

#[test]
fn set_column_pos_rejects_out_of_range_and_mutates_nothing() {
    let mut w = green_writer();
    w.write_string("hi");
    assert_eq!(w.set_column_pos(BUF_WIDTH), Err(()));
    assert_eq!(w.set_column_pos(BUF_WIDTH + 1), Err(()));
    assert_eq!(w.set_column_pos(usize::MAX), Err(()));
    // Cursor and grid are untouched: the next byte lands where it would have.
    w.write_byte(b'!');
    assert_eq!(w.cell_at(BUF_HEIGHT - 1, 0).ascii_char, b'h');
    assert_eq!(w.cell_at(BUF_HEIGHT - 1, 1).ascii_char, b'i');
    assert_eq!(w.cell_at(BUF_HEIGHT - 1, 2).ascii_char, b'!');
    assert_eq!(w.get_column_pos(), 3);
}

#[test]
fn two_colours_share_one_screen() {
    // One writer over the one screen serves both colours: switching the
    // colour keeps every written cell and the cursor, so differently
    // coloured output lands side by side.
    let green = ColourCode::new(Colour::Green, Colour::Black);
    let red = ColourCode::new(Colour::Red, Colour::Black);
    let mut w = Writer::new(green);
    w.write_string("Hello");
    w.set_colour_code(red);
    w.write_string("!\n");
    w.write_string("Now writing in Red!");

    // The green greeting survived the switch, cell by cell and colour by
    // colour, beside the red exclamation mark.
    let hello = b"Hello";
    for (col, &b) in hello.iter().enumerate() {
        assert_eq!(w.cell_at(BUF_HEIGHT - 2, col).ascii_char, b);
        assert_eq!(w.cell_at(BUF_HEIGHT - 2, col).colour_code, green);
    }
    assert_eq!(w.cell_at(BUF_HEIGHT - 2, 5).ascii_char, b'!');
    assert_eq!(w.cell_at(BUF_HEIGHT - 2, 5).colour_code, red);
    // The red line fills the bottom row from column zero.
    let line = b"Now writing in Red!";
    for (col, &b) in line.iter().enumerate() {
        assert_eq!(w.cell_at(BUF_HEIGHT - 1, col).ascii_char, b);
        assert_eq!(w.cell_at(BUF_HEIGHT - 1, col).colour_code, red);
    }
    assert_eq!(w.colour_code(), red);
    assert_eq!(w.get_column_pos(), line.len());
}

#[test]
fn cursor_handoff_between_writers() {
    // A second, differently coloured writer takes over the cursor.
    let mut first = Writer::new(ColourCode::new(Colour::Green, Colour::Black));
    first.write_string("Hello");
    let col = first.get_column_pos();

    let mut second = Writer::new(ColourCode::new(Colour::Red, Colour::Black));
    assert_eq!(second.set_column_pos(col), Ok(5));
    second.write_byte(b'!');
    assert_eq!(second.cell_at(BUF_HEIGHT - 1, 5).ascii_char, b'!');
    assert_eq!(
        second.cell_at(BUF_HEIGHT - 1, 5).colour_code,
        ColourCode::new(Colour::Red, Colour::Black)
    );
}

#[test]
fn written_cells_carry_the_writer_colour() {
    let cc = ColourCode::new(Colour::Yellow, Colour::Blue);
    let mut w = Writer::new(cc);
    w.write_string("Z\n");
    // The written cell keeps its colour through the scroll, and the cleared
    // bottom row is blanked in the current colour.
    assert_eq!(w.cell_at(BUF_HEIGHT - 2, 0).ascii_char, b'Z');
    assert_eq!(w.cell_at(BUF_HEIGHT - 2, 0).colour_code, cc);
    assert_eq!(w.cell_at(BUF_HEIGHT - 1, 0).ascii_char, 0x20);
    assert_eq!(w.cell_at(BUF_HEIGHT - 1, 0).colour_code, cc);
}

#[test]
fn line_that_fits_ends_up_one_row_above() {
    // Write one full line to an empty console: afterwards the text sits on
    // the row above the (blank) bottom row, left-aligned from column zero.
    let s = "Test string that fits in a line";
    let mut w = green_writer();
    w.write_string(s);
    w.write_string("\n");

    let text = s.as_bytes();
    for (col, &b) in text.iter().enumerate() {
        assert_eq!(w.cell_at(BUF_HEIGHT - 2, col).ascii_char, b);
    }
    for col in text.len()..BUF_WIDTH {
        assert_eq!(w.cell_at(BUF_HEIGHT - 2, col).ascii_char, 0x20);
    }
    for col in 0..BUF_WIDTH {
        assert_eq!(w.cell_at(BUF_HEIGHT - 1, col).ascii_char, 0x20);
    }
    assert_eq!(w.get_column_pos(), 0);
}

#[test]
fn many_lines_scroll_without_losing_the_latest() {
    let mut w = green_writer();
    for i in 0..128 {
        let line = format!("{}: test line", i);
        w.write_string(&line);
        w.write_string("\n");
    }
    // The most recent full line sits just above the blank bottom row.
    let expected = b"127: test line";
    for (col, &b) in expected.iter().enumerate() {
        assert_eq!(w.cell_at(BUF_HEIGHT - 2, col).ascii_char, b);
    }
    for col in 0..BUF_WIDTH {
        assert_eq!(w.cell_at(BUF_HEIGHT - 1, col).ascii_char, 0x20);
    }
}
