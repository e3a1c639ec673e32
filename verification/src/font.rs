//! The glyphs used to draw scrolling text.

use vstd::prelude::*;

verus! {

/// Rows in a glyph, matching the eight rows a scroll occupies.
pub const HEIGHT: usize = 8;

/// Columns in a glyph.
pub const WIDTH: usize = 5;

/// Blank columns left between glyphs.
pub const SPACING: usize = 1;

/// Rows stored per glyph, top first, each holding [`WIDTH`] pixels in its low bits.
pub const GLYPH_ROWS: usize = 7;

/// Characters the font can draw.
pub const GLYPH_COUNT: usize = 54;

/// The characters that have a glyph, as ASCII codes sorted for lookup by byte.
///
/// Lowercase is drawn with the uppercase glyph, and anything unknown is skipped.
pub const GLYPH_BYTES: [u8; 54] = [
    0x20, 0x21, 0x22, 0x23, 0x27, 0x28, 0x29, 0x2B, 0x2C, 0x2D, 0x2E, 0x2F,
    0x30, 0x31, 0x32, 0x33, 0x34, 0x35, 0x36, 0x37, 0x38, 0x39, 0x3A, 0x3C,
    0x3D, 0x3E, 0x3F, 0x41, 0x42, 0x43, 0x44, 0x45, 0x46, 0x47, 0x48, 0x49,
    0x4A, 0x4B, 0x4C, 0x4D, 0x4E, 0x4F, 0x50, 0x51, 0x52, 0x53, 0x54, 0x55,
    0x56, 0x57, 0x58, 0x59, 0x5A, 0x5F,
];

/// The rows of every glyph, [`GLYPH_ROWS`] per entry of [`GLYPH_BYTES`], in the same order.
pub const GLYPH_PIXELS: [u8; 378] = [
    0b00000, 0b00000, 0b00000, 0b00000, 0b00000, 0b00000, 0b00000,
    0b00100, 0b00100, 0b00100, 0b00100, 0b00100, 0b00000, 0b00100,
    0b01010, 0b01010, 0b00000, 0b00000, 0b00000, 0b00000, 0b00000,
    0b01010, 0b11111, 0b01010, 0b01010, 0b11111, 0b01010, 0b00000,
    0b00100, 0b00100, 0b00000, 0b00000, 0b00000, 0b00000, 0b00000,
    0b00010, 0b00100, 0b00100, 0b00100, 0b00100, 0b00100, 0b00010,
    0b01000, 0b00100, 0b00100, 0b00100, 0b00100, 0b00100, 0b01000,
    0b00000, 0b00100, 0b00100, 0b11111, 0b00100, 0b00100, 0b00000,
    0b00000, 0b00000, 0b00000, 0b00000, 0b00110, 0b00100, 0b01000,
    0b00000, 0b00000, 0b00000, 0b11111, 0b00000, 0b00000, 0b00000,
    0b00000, 0b00000, 0b00000, 0b00000, 0b00000, 0b00110, 0b00110,
    0b00001, 0b00010, 0b00010, 0b00100, 0b01000, 0b01000, 0b10000,
    0b01110, 0b10001, 0b10011, 0b10101, 0b11001, 0b10001, 0b01110,
    0b00100, 0b01100, 0b00100, 0b00100, 0b00100, 0b00100, 0b01110,
    0b01110, 0b10001, 0b00001, 0b00010, 0b00100, 0b01000, 0b11111,
    0b11111, 0b00010, 0b00100, 0b00010, 0b00001, 0b10001, 0b01110,
    0b00010, 0b00110, 0b01010, 0b10010, 0b11111, 0b00010, 0b00010,
    0b11111, 0b10000, 0b11110, 0b00001, 0b00001, 0b10001, 0b01110,
    0b00110, 0b01000, 0b10000, 0b11110, 0b10001, 0b10001, 0b01110,
    0b11111, 0b00001, 0b00010, 0b00100, 0b01000, 0b01000, 0b01000,
    0b01110, 0b10001, 0b10001, 0b01110, 0b10001, 0b10001, 0b01110,
    0b01110, 0b10001, 0b10001, 0b01111, 0b00001, 0b00010, 0b01100,
    0b00000, 0b00110, 0b00110, 0b00000, 0b00110, 0b00110, 0b00000,
    0b00010, 0b00100, 0b01000, 0b10000, 0b01000, 0b00100, 0b00010,
    0b00000, 0b00000, 0b11111, 0b00000, 0b11111, 0b00000, 0b00000,
    0b01000, 0b00100, 0b00010, 0b00001, 0b00010, 0b00100, 0b01000,
    0b01110, 0b10001, 0b00001, 0b00010, 0b00100, 0b00000, 0b00100,
    0b01110, 0b10001, 0b10001, 0b11111, 0b10001, 0b10001, 0b10001,
    0b11110, 0b10001, 0b10001, 0b11110, 0b10001, 0b10001, 0b11110,
    0b01110, 0b10001, 0b10000, 0b10000, 0b10000, 0b10001, 0b01110,
    0b11110, 0b10001, 0b10001, 0b10001, 0b10001, 0b10001, 0b11110,
    0b11111, 0b10000, 0b10000, 0b11110, 0b10000, 0b10000, 0b11111,
    0b11111, 0b10000, 0b10000, 0b11110, 0b10000, 0b10000, 0b10000,
    0b01110, 0b10001, 0b10000, 0b10111, 0b10001, 0b10001, 0b01110,
    0b10001, 0b10001, 0b10001, 0b11111, 0b10001, 0b10001, 0b10001,
    0b01110, 0b00100, 0b00100, 0b00100, 0b00100, 0b00100, 0b01110,
    0b00111, 0b00010, 0b00010, 0b00010, 0b00010, 0b10010, 0b01100,
    0b10001, 0b10010, 0b10100, 0b11000, 0b10100, 0b10010, 0b10001,
    0b10000, 0b10000, 0b10000, 0b10000, 0b10000, 0b10000, 0b11111,
    0b10001, 0b11011, 0b10101, 0b10101, 0b10001, 0b10001, 0b10001,
    0b10001, 0b11001, 0b10101, 0b10011, 0b10001, 0b10001, 0b10001,
    0b01110, 0b10001, 0b10001, 0b10001, 0b10001, 0b10001, 0b01110,
    0b11110, 0b10001, 0b10001, 0b11110, 0b10000, 0b10000, 0b10000,
    0b01110, 0b10001, 0b10001, 0b10001, 0b10101, 0b10010, 0b01101,
    0b11110, 0b10001, 0b10001, 0b11110, 0b10100, 0b10010, 0b10001,
    0b01111, 0b10000, 0b10000, 0b01110, 0b00001, 0b00001, 0b11110,
    0b11111, 0b00100, 0b00100, 0b00100, 0b00100, 0b00100, 0b00100,
    0b10001, 0b10001, 0b10001, 0b10001, 0b10001, 0b10001, 0b01110,
    0b10001, 0b10001, 0b10001, 0b10001, 0b10001, 0b01010, 0b00100,
    0b10001, 0b10001, 0b10001, 0b10101, 0b10101, 0b11011, 0b10001,
    0b10001, 0b10001, 0b01010, 0b00100, 0b01010, 0b10001, 0b10001,
    0b10001, 0b10001, 0b01010, 0b00100, 0b00100, 0b00100, 0b00100,
    0b11111, 0b00001, 0b00010, 0b00100, 0b01000, 0b10000, 0b11111,
    0b00000, 0b00000, 0b00000, 0b00000, 0b00000, 0b00000, 0b11111,
];

/// The byte with ASCII lowercase letters folded onto uppercase.
pub open spec fn ascii_upper(byte: u8) -> u8 {
    if 97 <= byte <= 122 {
        (byte - 32) as u8
    } else {
        byte
    }
}

/// The first glyph slot at or after `from` that draws `byte`.
pub open spec fn glyph_slot(byte: u8, from: int) -> Option<int>
    decreases 54 - from,
{
    if from < 0 || from >= 54 {
        None
    } else if GLYPH_BYTES@[from] == byte {
        Some(from)
    } else {
        glyph_slot(byte, from + 1)
    }
}

/// The rows drawing a byte, folding lowercase onto uppercase, or `None` when it has no glyph.
pub open spec fn glyph_of(byte: u8) -> Option<Seq<u8>> {
    match glyph_slot(ascii_upper(byte), 0) {
        Some(slot) => Some(GLYPH_PIXELS@.subrange(7 * slot, 7 * slot + 7)),
        None => None,
    }
}

/// Whether a glyph has a pixel at `column` of `row`; columns past the last read as the last.
pub open spec fn lit(glyph: Seq<u8>, column: usize, row: usize) -> bool {
    row < glyph.len() && ((glyph[row as int] >> ((4 - if column < 4 { column } else { 4 }) as usize)) & 1u8) == 1u8
}

/// One column of a glyph with the pixels of its first `rows` rows set, bit `r` for row `r`.
pub open spec fn column_bits(glyph: Seq<u8>, column: usize, rows: nat) -> u8
    decreases rows,
{
    if rows == 0 {
        0
    } else {
        let above = column_bits(glyph, column, (rows - 1) as nat);
        if lit(glyph, column, (rows - 1) as usize) {
            above | (1u8 << ((rows - 1) as usize))
        } else {
            above
        }
    }
}

/// The columns a glyph draws: [`WIDTH`] columns of [`HEIGHT`] rows, then the blank gap.
pub open spec fn glyph_columns(glyph: Seq<u8>) -> Seq<u8> {
    Seq::new(5, |c: int| column_bits(glyph, c as usize, 8)) + seq![0u8]
}

/// The columns `text` renders to, skipping bytes without a glyph.
pub open spec fn text_columns(text: Seq<u8>) -> Seq<u8>
    decreases text.len(),
{
    if text.len() == 0 {
        seq![]
    } else {
        let before = text_columns(text.drop_last());
        match glyph_of(text.last()) {
            Some(glyph) => before + glyph_columns(glyph),
            None => before,
        }
    }
}

/// The byte with ASCII lowercase letters folded onto uppercase.
fn to_ascii_upper(byte: u8) -> (upper: u8)
    ensures
        upper == ascii_upper(byte),
{
    if 0x61 <= byte && byte <= 0x7A {
        byte - 32
    } else {
        byte
    }
}

/// Whether a glyph has a pixel at `column` of `row`.
fn pixel(glyph: &[u8; 7], column: usize, row: usize) -> (on: bool)
    ensures
        on == lit(glyph@, column, row),
{
    if row >= glyph.len() {
        return false;
    }
    let bits = glyph[row];
    let shift = WIDTH - 1 - if column < WIDTH - 1 { column } else { WIDTH - 1 };
    (bits >> shift) & 1 == 1
}

/// The glyph for a byte, folding lowercase onto uppercase.
pub fn glyph(byte: u8) -> (rows: Option<[u8; 7]>)
    ensures
        match rows {
            Some(rows) => glyph_of(byte) == Some(rows@),
            None => glyph_of(byte) is None,
        },
{
    let upper = to_ascii_upper(byte);
    let mut slot: usize = 0;
    while slot < GLYPH_COUNT
        invariant
            slot <= 54,
            upper == ascii_upper(byte),
            glyph_slot(upper, 0) == glyph_slot(upper, slot as int),
        decreases 54 - slot,
    {
        if GLYPH_BYTES[slot] == upper {
            let base = 7 * slot;
            let rows = [
                GLYPH_PIXELS[base],
                GLYPH_PIXELS[base + 1],
                GLYPH_PIXELS[base + 2],
                GLYPH_PIXELS[base + 3],
                GLYPH_PIXELS[base + 4],
                GLYPH_PIXELS[base + 5],
                GLYPH_PIXELS[base + 6],
            ];
            assert(rows@ =~= GLYPH_PIXELS@.subrange(7 * slot, 7 * slot + 7));
            assert(GLYPH_BYTES@[slot as int] == upper);
            assert(glyph_slot(upper, slot as int) == Some(slot as int));
            return Some(rows);
        }
        slot += 1;
    }
    None
}

/// Renders `text` into columns of pixels, each column holding [`HEIGHT`] rows in its low bits.
///
/// Bit 0 of a column is the top row. Unknown characters are skipped.
pub fn columns(text: &[u8]) -> (out: Vec<u8>)
    ensures
        out@ == text_columns(text@),
{
    let mut out: Vec<u8> = Vec::new();
    let mut i: usize = 0;
    assert(text@.take(0) =~= Seq::<u8>::empty());
    while i < text.len()
        invariant
            i <= text.len(),
            out@ == text_columns(text@.take(i as int)),
        decreases text.len() - i,
    {
        let byte = text[i];
        assert(text@.take(i + 1).drop_last() =~= text@.take(i as int));
        if let Some(glyph) = glyph(byte) {
            let ghost before = out@;
            let mut column: usize = 0;
            while column < WIDTH
                invariant
                    column <= 5,
                    out@ =~= before + Seq::new(column as nat, |c: int| column_bits(glyph@, c as usize, 8)),
                decreases 5 - column,
            {
                let mut bits: u8 = 0;
                let mut row: usize = 0;
                while row < HEIGHT
                    invariant
                        row <= 8,
                        bits == column_bits(glyph@, column, row as nat),
                    decreases 8 - row,
                {
                    if pixel(&glyph, column, row) {
                        bits = bits | (1 << row);
                    }
                    row += 1;
                }
                out.push(bits);
                column += 1;
            }
            out.push(0);
        }
        i += 1;
    }
    assert(text@.take(text.len() as int) =~= text@);
    out
}

/// Lowercase is drawn with the uppercase glyph: folding a text onto uppercase renders the same.
pub proof fn lemma_case_blind(text: Seq<u8>)
    ensures
        text_columns(text.map_values(|b: u8| ascii_upper(b))) == text_columns(text),
    decreases text.len(),
{
    let upper = text.map_values(|b: u8| ascii_upper(b));
    if text.len() > 0 {
        assert(upper.drop_last() =~= text.drop_last().map_values(|b: u8| ascii_upper(b)));
        lemma_case_blind(text.drop_last());
        assert(ascii_upper(ascii_upper(text.last())) == ascii_upper(text.last()));
    }
}

/// Every character drawn takes five columns and a blank gap; anything else takes none.
pub proof fn lemma_glyph_width(text: Seq<u8>, byte: u8)
    ensures
        glyph_of(byte) is Some ==> text_columns(text.push(byte)) == text_columns(text) + glyph_columns(
            glyph_of(byte).unwrap(),
        ),
        glyph_of(byte) is None ==> text_columns(text.push(byte)) == text_columns(text),
        glyph_of(byte) matches Some(glyph) ==> glyph_columns(glyph).len() == WIDTH + SPACING
            && glyph_columns(glyph).last() == 0,
{
    assert(text.push(byte).drop_last() =~= text);
}

/// Rendering a text is rendering its parts one after the other.
pub proof fn lemma_columns_concatenate(first: Seq<u8>, second: Seq<u8>)
    ensures
        text_columns(first + second) == text_columns(first) + text_columns(second),
    decreases second.len(),
{
    if second.len() == 0 {
        assert(first + second =~= first);
        assert(text_columns(first) + text_columns(second) =~= text_columns(first));
    } else {
        let rest = second.drop_last();
        lemma_columns_concatenate(first, rest);
        assert((first + second).drop_last() =~= first + rest);
        assert((first + second).last() == second.last());
        match glyph_of(second.last()) {
            Some(glyph) => {
                assert(text_columns(first + second) =~= text_columns(first) + text_columns(rest)
                    + glyph_columns(glyph));
            },
            None => {},
        }
    }
}

/// Setting the next bit of a number that fits below it gives one that fits below the bit after.
proof fn lemma_set_bit_below(value: u8, bit: usize, next: usize)
    by (bit_vector)
    requires
        bit < 7,
        next == bit + 1,
        value < (1u8 << bit),
    ensures
        (value | (1u8 << bit)) < (1u8 << next),
        value < (1u8 << next),
{
}

/// The first `rows` rows of a column set only the lowest `rows` bits.
proof fn lemma_column_bits_below(glyph: Seq<u8>, column: usize, rows: nat)
    requires
        rows <= 7,
    ensures
        column_bits(glyph, column, rows) < (1u8 << (rows as usize)),
    decreases rows,
{
    if rows == 0 {
        assert((1u8 << 0usize) == 1u8) by (bit_vector);
    } else {
        lemma_column_bits_below(glyph, column, (rows - 1) as nat);
        lemma_set_bit_below(column_bits(glyph, column, (rows - 1) as nat), (rows - 1) as usize, rows as usize);
    }
}

/// Every column a glyph draws fits in the seven bits of a MIDI data byte.
proof fn lemma_glyph_columns_fit(glyph: Seq<u8>)
    requires
        glyph.len() == 7,
    ensures
        forall|i: int| 0 <= i < glyph_columns(glyph).len() ==> #[trigger] glyph_columns(glyph)[i] < 0x80,
{
    assert forall|i: int| 0 <= i < glyph_columns(glyph).len() implies #[trigger] glyph_columns(glyph)[i]
        < 0x80 by {
        if i < 5 {
            let column = i as usize;
            assert(!lit(glyph, column, 7));
            assert(column_bits(glyph, column, 8) == column_bits(glyph, column, 7));
            lemma_column_bits_below(glyph, column, 7);
            assert((1u8 << 7usize) == 0x80u8) by (bit_vector);
        }
    }
}

/// Every column of rendered text fits in the seven bits of a MIDI data byte: the eighth row is
/// always blank.
pub proof fn lemma_columns_fit_a_data_byte(text: Seq<u8>)
    ensures
        forall|i: int| 0 <= i < text_columns(text).len() ==> #[trigger] text_columns(text)[i] < 0x80,
    decreases text.len(),
{
    if text.len() > 0 {
        let rest = text.drop_last();
        lemma_columns_fit_a_data_byte(rest);
        if let Some(glyph) = glyph_of(text.last()) {
            lemma_slot_in_range(ascii_upper(text.last()), 0);
            assert(glyph.len() == 7);
            lemma_glyph_columns_fit(glyph);
            let before = text_columns(rest);
            assert forall|i: int| 0 <= i < text_columns(text).len() implies #[trigger] text_columns(text)[i]
                < 0x80 by {
                if i >= before.len() {
                    assert(text_columns(text)[i] == glyph_columns(glyph)[i - before.len()]);
                } else {
                    assert(text_columns(text)[i] == before[i]);
                }
            }
        } else {
            assert(text_columns(text) == text_columns(rest));
        }
    }
}

/// A glyph slot that is found lies among the glyphs.
proof fn lemma_slot_in_range(byte: u8, from: int)
    ensures
        glyph_slot(byte, from) matches Some(slot) ==> 0 <= slot < 54,
    decreases 54 - from,
{
    if 0 <= from < 54 && GLYPH_BYTES@[from] != byte {
        lemma_slot_in_range(byte, from + 1);
    }
}

/// Setting a bit above a number's bits sets that bit and leaves the others as they were.
proof fn lemma_bit_of_set(value: u8, bit: usize, row: u8)
    by (bit_vector)
    requires
        bit < 8,
        row < 8,
        value < (1u8 << bit),
    ensures
        (((value | (1u8 << bit)) >> row) & 1u8 == 1u8) == (row as usize == bit || ((value >> row) & 1u8) == 1u8),
        row as usize >= bit ==> ((value >> row) & 1u8) == 0u8,
{
}

/// Bit `row` of a column built from its first `rows` rows is set exactly when that row is among
/// them and the glyph has a pixel there.
proof fn lemma_column_bit_is_pixel(glyph: Seq<u8>, column: usize, rows: nat, row: u8)
    requires
        rows <= 8,
        row < 8,
    ensures
        ((column_bits(glyph, column, rows) >> row) & 1u8 == 1u8) == (row < rows && lit(glyph, column, row as usize)),
    decreases rows,
{
    if rows == 0 {
        assert((0u8 >> row) & 1u8 == 0u8) by (bit_vector);
    } else {
        let below = (rows - 1) as nat;
        lemma_column_bit_is_pixel(glyph, column, below, row);
        lemma_column_bits_below(glyph, column, below);
        lemma_bit_of_set(column_bits(glyph, column, below), below as usize, row);
    }
}

/// Each column is read top down: bit 0 is the glyph's top row and bit `r` its row `r`, so a set
/// bit is exactly a pixel of the glyph, and the eighth bit, below the glyph, is never set.
pub proof fn lemma_columns_are_read_top_down(byte: u8, column: usize, row: u8)
    requires
        glyph_of(byte) is Some,
        column < 5,
        row < 8,
    ensures
        ((glyph_columns(glyph_of(byte).unwrap())[column as int] >> row) & 1u8 == 1u8) == lit(
            glyph_of(byte).unwrap(),
            column,
            row as usize,
        ),
        !lit(glyph_of(byte).unwrap(), column, 7),
{
    let glyph = glyph_of(byte).unwrap();
    lemma_slot_in_range(ascii_upper(byte), 0);
    assert(glyph.len() == 7);
    assert(glyph_columns(glyph)[column as int] == column_bits(glyph, column, 8));
    lemma_column_bit_is_pixel(glyph, column, 8, row);
}

/// The columns of a character inside a text are its glyph's, placed after the columns of the text
/// before it.
pub proof fn lemma_character_columns(before: Seq<u8>, byte: u8, after: Seq<u8>, column: int)
    requires
        glyph_of(byte) is Some,
        0 <= column < 6,
    ensures
        text_columns(before + seq![byte] + after).len() > text_columns(before).len() + column,
        text_columns(before + seq![byte] + after)[text_columns(before).len() + column] == glyph_columns(
            glyph_of(byte).unwrap(),
        )[column],
{
    lemma_columns_concatenate(before + seq![byte], after);
    lemma_columns_concatenate(before, seq![byte]);
    assert(seq![byte].drop_last() =~= Seq::<u8>::empty());
    assert(text_columns(Seq::<u8>::empty()) == Seq::<u8>::empty());
    assert(seq![byte].last() == byte);
    assert(text_columns(seq![byte]) == text_columns(Seq::<u8>::empty()) + glyph_columns(glyph_of(byte).unwrap()));
    assert(text_columns(seq![byte]) =~= glyph_columns(glyph_of(byte).unwrap()));
}

} // verus!
