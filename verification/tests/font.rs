use launchpad_emulator::font::{columns, glyph, GLYPH_BYTES, HEIGHT, SPACING, WIDTH};

/// Draws columns back out as rows of text, for eyeballing a glyph
fn art(columns: &[u8]) -> String {
    (0..HEIGHT)
        .map(|row| {
            columns
                .iter()
                .map(|bits| if (bits >> row) & 1 == 1 { '#' } else { '.' })
                .collect::<String>()
        })
        .collect::<Vec<_>>()
        .join("\n")
}

#[test]
fn a_glyph_is_five_columns_and_a_gap() {
    assert_eq!(columns(b"A").len(), WIDTH + SPACING);
    assert_eq!(columns(b"AB").len(), 2 * (WIDTH + SPACING));
}

#[test]
fn letters_render_the_shape_they_are_written_as() {
    assert_eq!(
        art(&columns(b"A")),
        ".###..\n\
         #...#.\n\
         #...#.\n\
         #####.\n\
         #...#.\n\
         #...#.\n\
         #...#.\n\
         ......"
    );
    assert_eq!(
        art(&columns(b"1")),
        "..#...\n\
         .##...\n\
         ..#...\n\
         ..#...\n\
         ..#...\n\
         ..#...\n\
         .###..\n\
         ......"
    );
}

#[test]
fn lowercase_uses_the_uppercase_glyph() {
    assert_eq!(columns(b"a"), columns(b"A"));
    assert_eq!(columns(b"hello"), columns(b"HELLO"));
}

#[test]
fn a_space_is_blank_and_unknown_characters_are_skipped() {
    assert!(columns(b" ").iter().all(|bits| *bits == 0));
    assert!(columns(&[0x01, 0x7F]).is_empty());
}

#[test]
fn every_glyph_fits_the_grid() {
    for byte in GLYPH_BYTES {
        let rows = glyph(byte).unwrap_or([0xFF; 7]);
        for row in rows {
            assert!(
                row < (1 << WIDTH),
                "{:?} has a row wider than {WIDTH}",
                byte as char
            );
        }
    }
}

#[test]
fn the_table_covers_letters_digits_and_a_space() {
    for byte in b'A'..=b'Z' {
        assert!(glyph(byte).is_some(), "missing {:?}", byte as char);
    }
    for byte in b'0'..=b'9' {
        assert!(glyph(byte).is_some(), "missing {:?}", byte as char);
    }
    assert!(glyph(b' ').is_some());
}

#[test]
fn unknown_characters_between_known_ones_leave_no_gap() {
    assert_eq!(columns(b"A\x01B"), columns(b"AB"));
    assert_eq!(columns(b"").len(), 0);
    let exclamation = columns(b"!");
    assert_eq!(exclamation, vec![0, 0, 0b0101_1111, 0, 0, 0]);
}

#[test]
fn text_renders_as_its_parts_one_after_another() {
    let whole = columns(b"AB?z");
    let mut parts = columns(b"AB");
    parts.extend(columns(b"?z"));
    assert_eq!(whole, parts);
    assert_eq!(columns(b"A").len(), 6);
    assert_eq!(columns(b"AB").len(), 12);
}

#[test]
fn every_column_fits_a_data_byte() {
    let text: Vec<u8> = (0u8..=255).collect();
    assert!(columns(&text).iter().all(|column| *column < 0x80));
}
