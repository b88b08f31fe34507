use crate::error::FontError;
use crate::glyph::{viewed, Character, Font};
use vstd::prelude::*;

verus! {

/// Width in pixels of the image that holds a font.
pub const IMAGE_WIDTH: u32 = 16;

/// Height in pixels of the image that holds a font.
pub const IMAGE_HEIGHT: u32 = 20;

/// Length in bytes of the RGBA8 pixel buffer of such an image.
pub const IMAGE_BYTES: usize = 1280;

/// A pixel is ink when its red channel is below this value.
pub const INK_THRESHOLD: u8 = 128;

/// The red channel of pixel `(x, y)` in a row-major RGBA8 buffer that is
/// sixteen pixels wide.
pub open spec fn red_at(pixels: Seq<u8>, x: int, y: int) -> u8 {
    pixels[(y * IMAGE_WIDTH + x) * 4]
}

/// A pixel is ink when it is dark: its red channel is below the threshold.
/// The green, blue and alpha channels play no part.
pub open spec fn is_ink(pixels: Seq<u8>, x: int, y: int) -> bool {
    red_at(pixels, x, y) < INK_THRESHOLD
}

/// What an ink pixel in column `col` of a glyph adds to its row byte:
/// column 0 is bit 3, column 3 is bit 0.
pub open spec fn column_weight(col: int) -> int {
    if col == 0 {
        8
    } else if col == 1 {
        4
    } else if col == 2 {
        2
    } else if col == 3 {
        1
    } else {
        0
    }
}

/// What the pixel in column `col` of the row that starts at `(x, y)` adds
/// to the row byte.
pub open spec fn ink_weight(pixels: Seq<u8>, x: int, y: int, col: int) -> int {
    if is_ink(pixels, x + col, y) {
        column_weight(col)
    } else {
        0
    }
}

/// The byte that packs the four pixels starting at `(x, y)`.
pub open spec fn row_byte(pixels: Seq<u8>, x: int, y: int) -> int {
    ink_weight(pixels, x, y, 0) + ink_weight(pixels, x, y, 1) + ink_weight(pixels, x, y, 2)
        + ink_weight(pixels, x, y, 3)
}

/// Left edge of the cell of glyph `index`: the cells lie in a 4×4 grid,
/// row-major.
pub open spec fn cell_x(index: int) -> int {
    (index % 4) * 4
}

/// Top edge of the cell of glyph `index`.
pub open spec fn cell_y(index: int) -> int {
    (index / 4) * 5
}

/// The five row bytes of glyph `index`.
pub open spec fn glyph_of(pixels: Seq<u8>, index: int) -> Seq<u8> {
    Seq::new(5, |row: int| row_byte(pixels, cell_x(index), cell_y(index) + row) as u8)
}

/// The sixteen glyphs of a pixel buffer.
pub open spec fn glyphs_of(pixels: Seq<u8>) -> Seq<Seq<u8>> {
    Seq::new(16, |index: int| glyph_of(pixels, index))
}

/// The buffer holds a 16×20 RGBA8 image.
pub open spec fn holds_font(pixels: Seq<u8>, width: u32, height: u32) -> bool {
    width == IMAGE_WIDTH && height == IMAGE_HEIGHT && pixels.len() == IMAGE_BYTES
}

/// What [`Font::extract`] returns: the glyphs, or the reason for none.
pub open spec fn extracted(pixels: Seq<u8>, width: u32, height: u32) -> Result<
    Seq<Seq<u8>>,
    FontError,
> {
    if holds_font(pixels, width, height) {
        Ok(glyphs_of(pixels))
    } else {
        Err(FontError::InvalidSize)
    }
}

/// A row byte keeps its upper four bits clear, and its bit `3 - col` is set
/// exactly when the pixel in column `col` is ink.
pub proof fn lemma_row_byte_bits(pixels: Seq<u8>, x: int, y: int, col: u8)
    requires
        col < 4,
    ensures
        0 <= row_byte(pixels, x, y) <= 0x0F,
        ((row_byte(pixels, x, y) as u8) >> ((3 - col) as u8)) & 1 == 1 <==> is_ink(
            pixels,
            x + col,
            y,
        ),
{
    let w0 = ink_weight(pixels, x, y, 0) as u8;
    let w1 = ink_weight(pixels, x, y, 1) as u8;
    let w2 = ink_weight(pixels, x, y, 2) as u8;
    let w3 = ink_weight(pixels, x, y, 3) as u8;
    assert((w0 == 0 || w0 == 8) && (w1 == 0 || w1 == 4) && (w2 == 0 || w2 == 2) && (w3 == 0 || w3
        == 1) ==> {
        let byte = (w0 + w1 + w2 + w3) as u8;
        &&& ((byte >> 3u8) & 1 == 1 <==> w0 == 8)
        &&& ((byte >> 2u8) & 1 == 1 <==> w1 == 4)
        &&& ((byte >> 1u8) & 1 == 1 <==> w2 == 2)
        &&& ((byte >> 0u8) & 1 == 1 <==> w3 == 1)
    }) by (bit_vector);
}

/// Bit `3 - col` of row `row` of glyph `index` is set exactly when the
/// pixel in that column and row of the glyph's cell is ink, and the upper
/// four bits of every row byte are clear.
pub proof fn lemma_glyph_bits(pixels: Seq<u8>, index: int, row: int, col: u8)
    requires
        0 <= index < 16,
        0 <= row < 5,
        col < 4,
    ensures
        glyphs_of(pixels)[index][row] <= 0x0F,
        (glyphs_of(pixels)[index][row] >> ((3 - col) as u8)) & 1 == 1 <==> is_ink(
            pixels,
            cell_x(index) + col,
            cell_y(index) + row,
        ),
{
    lemma_row_byte_bits(pixels, cell_x(index), cell_y(index) + row, col);
}

/// The cell in column `col` and row `row` of the 4×4 grid belongs to glyph
/// `row * 4 + col`, and starts `col * 4` pixels from the left and
/// `row * 5` pixels from the top.
pub proof fn lemma_grid_cell(col: int, row: int)
    requires
        0 <= col < 4,
        0 <= row < 4,
    ensures
        0 <= row * 4 + col < 16,
        cell_x(row * 4 + col) == col * 4,
        cell_y(row * 4 + col) == row * 5,
{
}

/// The contribution of the first `cols` columns to a row byte.
spec fn row_prefix(pixels: Seq<u8>, x: int, y: int, cols: int) -> int
    decreases cols,
{
    if cols <= 0 {
        0
    } else {
        row_prefix(pixels, x, y, cols - 1) + ink_weight(pixels, x, y, cols - 1)
    }
}

proof fn lemma_row_prefix_full(pixels: Seq<u8>, x: int, y: int)
    ensures
        row_prefix(pixels, x, y, 4) == row_byte(pixels, x, y),
{
    reveal_with_fuel(row_prefix, 5);
}

/// Every row byte that holds only bits of the first `cols` columns is a
/// multiple of this.
spec fn prefix_unit(cols: int) -> int {
    if cols <= 0 {
        16
    } else {
        column_weight(cols - 1)
    }
}

/// Setting the bit of column `col` in a byte that holds only bits of
/// earlier columns adds the weight of that column.
proof fn lemma_set_column_bit(byte: u8, col: u8)
    requires
        col < 4,
        byte < 16,
        byte as int % prefix_unit(col as int) == 0,
    ensures
        (byte | (1u8 << ((3 - col) as u8))) as int == byte + column_weight(col as int),
        byte + column_weight(col as int) < 16,
        (byte + column_weight(col as int)) % prefix_unit(col + 1) == 0,
        byte as int % prefix_unit(col + 1) == 0,
{
    if col == 0 {
        assert(byte % 16 == 0 && byte < 16 ==> byte | (1u8 << 3u8) == byte + 8) by (bit_vector);
        assert((byte + 8) % 8 == 0);
    } else if col == 1 {
        assert(byte % 8 == 0 && byte < 16 ==> byte | (1u8 << 2u8) == byte + 4) by (bit_vector);
        assert((byte + 4) % 4 == 0);
    } else if col == 2 {
        assert(byte % 4 == 0 && byte < 16 ==> byte | (1u8 << 1u8) == byte + 2) by (bit_vector);
        assert((byte + 2) % 2 == 0);
    } else {
        assert(byte % 2 == 0 && byte < 16 ==> byte | (1u8 << 0u8) == byte + 1) by (bit_vector);
    }
}

/// Packs the four pixels that start at `(x, y)` into one byte.
fn pack_row(pixels: &[u8], x: usize, y: usize) -> (byte: u8)
    requires
        pixels@.len() == 1280,
        x + 4 <= 16,
        y < 20,
    ensures
        byte == row_byte(pixels@, x as int, y as int),
        byte <= 0x0F,
{
    let mut byte: u8 = 0;
    let mut col: u8 = 0;
    while col < 4
        invariant
            pixels@.len() == 1280,
            x + 4 <= 16,
            y < 20,
            col <= 4,
            byte as int == row_prefix(pixels@, x as int, y as int, col as int),
            byte as int % prefix_unit(col as int) == 0,
            byte < 16,
        decreases 4 - col,
    {
        let pixel_x: usize = x + col as usize;
        let pixel_index: usize = (y * 16 + pixel_x) * 4;
        proof {
            lemma_set_column_bit(byte, col);
        }
        if pixels[pixel_index] < INK_THRESHOLD {
            byte = byte | (1u8 << (3 - col));
        }
        col = col + 1;
    }
    proof {
        lemma_row_prefix_full(pixels@, x as int, y as int);
    }
    byte
}

/// Reads glyph `index` out of its cell.
fn glyph_at(pixels: &[u8], index: usize) -> (glyph: Character)
    requires
        pixels@.len() == 1280,
        index < 16,
    ensures
        glyph@ == glyph_of(pixels@, index as int),
        glyph.is_packed(),
{
    let char_x: usize = (index % 4) * 4;
    let char_y: usize = (index / 4) * 5;
    let mut char_data: [u8; 5] = [0u8; 5];
    let mut row: usize = 0;
    while row < 5
        invariant
            pixels@.len() == 1280,
            index < 16,
            char_x == cell_x(index as int),
            char_y == cell_y(index as int),
            row <= 5,
            forall|r: int|
                0 <= r < row ==> #[trigger] char_data@[r] == row_byte(
                    pixels@,
                    char_x as int,
                    char_y + r,
                ) && char_data@[r] <= 0x0F,
        decreases 5 - row,
    {
        let byte = pack_row(pixels, char_x, char_y + row);
        char_data[row] = byte;
        row = row + 1;
    }
    let glyph = Character(char_data);
    assert(glyph@ =~= glyph_of(pixels@, index as int));
    glyph
}

impl Font {
    /// Reads the sixteen glyphs out of a decoded image.
    ///
    /// `pixels` is the image as row-major RGBA8, top row first. The image
    /// must be 16 pixels wide and 20 tall, so that `pixels` holds 1280
    /// bytes: anything else is refused with `InvalidSize`. The glyphs lie
    /// in a 4×4 grid of 4×5-pixel cells, and glyph `i` is the cell in grid
    /// row `i / 4` and grid column `i % 4`. A pixel is ink when its red
    /// channel is below 128.
    pub fn extract(pixels: &[u8], width: u32, height: u32) -> (r: Result<Font, FontError>)
        ensures
            viewed(r) == extracted(pixels@, width, height),
            r matches Ok(font) ==> font.is_packed(),
    {
        if width != IMAGE_WIDTH || height != IMAGE_HEIGHT || pixels.len() != IMAGE_BYTES {
            return Err(FontError::InvalidSize);
        }
        let mut characters: [Character; 16] = [Character([0u8; 5]); 16];
        let mut char_index: usize = 0;
        while char_index < 16
            invariant
                pixels@.len() == 1280,
                char_index <= 16,
                forall|i: int|
                    0 <= i < char_index ==> (#[trigger] characters@[i])@ == glyph_of(pixels@, i)
                        && characters@[i].is_packed(),
            decreases 16 - char_index,
        {
            let glyph = glyph_at(pixels, char_index);
            characters[char_index] = glyph;
            char_index = char_index + 1;
        }
        let font = Font { characters };
        assert(font@ =~= glyphs_of(pixels@));
        Ok(font)
    }
}

} // verus!
