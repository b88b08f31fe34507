use bitmap_font::{Font, FontError};

/// The RGBA8 buffer of a 16×20 image. `pixel(x, y)` gives the four
/// channels of each pixel.
fn image(pixel: impl Fn(usize, usize) -> [u8; 4]) -> Vec<u8> {
    let mut pixels: Vec<u8> = Vec::new();
    for y in 0..20 {
        for x in 0..16 {
            pixels.extend_from_slice(&pixel(x, y));
        }
    }
    pixels
}

fn rows_of(font: &Font) -> Vec<[u8; 5]> {
    font.characters.iter().map(|character| character.0).collect()
}

#[test]
fn white_image_gives_empty_glyphs() {
    let pixels = image(|_, _| [255, 255, 255, 255]);
    let font = Font::extract(&pixels, 16, 20).unwrap();
    assert_eq!(font.characters.len(), 16);
    assert_eq!(rows_of(&font), vec![[0u8; 5]; 16]);
}

#[test]
fn image_without_red_gives_full_glyphs() {
    let pixels = image(|_, _| [0, 255, 255, 255]);
    let font = Font::extract(&pixels, 16, 20).unwrap();
    assert_eq!(rows_of(&font), vec![[0x0Fu8; 5]; 16]);
}

#[test]
fn dark_top_left_pixel_sets_the_high_bit_of_the_first_row() {
    let pixels = image(|x, y| if x == 0 && y == 0 { [0, 255, 255, 255] } else { [255; 4] });
    let font = Font::extract(&pixels, 16, 20).unwrap();
    let mut expected: Vec<[u8; 5]> = vec![[0u8; 5]; 16];
    expected[0] = [0x08, 0x00, 0x00, 0x00, 0x00];
    assert_eq!(rows_of(&font), expected);
}

#[test]
fn each_pixel_lands_in_its_glyph_row_and_bit() {
    for y in 0..20usize {
        for x in 0..16usize {
            let pixels = image(|px, py| if px == x && py == y { [0; 4] } else { [255; 4] });
            let font = Font::extract(&pixels, 16, 20).unwrap();
            let mut expected: Vec<[u8; 5]> = vec![[0u8; 5]; 16];
            expected[(y / 5) * 4 + x / 4][y % 5] = 1 << (3 - x % 4);
            assert_eq!(rows_of(&font), expected);
        }
    }
}

#[test]
fn a_pixel_in_the_middle_of_the_grid() {
    let pixels = image(|x, y| if x == 6 && y == 7 { [0; 4] } else { [255; 4] });
    let font = Font::extract(&pixels, 16, 20).unwrap();
    assert_eq!(font.characters[5].0, [0x00, 0x00, 0x02, 0x00, 0x00]);
}

#[test]
fn the_last_pixel_is_the_low_bit_of_the_last_row_of_the_last_glyph() {
    let pixels = image(|x, y| if x == 15 && y == 19 { [0; 4] } else { [255; 4] });
    let font = Font::extract(&pixels, 16, 20).unwrap();
    assert_eq!(font.characters[15].0, [0x00, 0x00, 0x00, 0x00, 0x01]);
}

#[test]
fn red_below_128_is_ink() {
    let pixels = image(|_, _| [127, 0, 0, 0]);
    let font = Font::extract(&pixels, 16, 20).unwrap();
    assert_eq!(rows_of(&font), vec![[0x0Fu8; 5]; 16]);
}

#[test]
fn red_of_128_is_no_ink() {
    let pixels = image(|_, _| [128, 0, 0, 0]);
    let font = Font::extract(&pixels, 16, 20).unwrap();
    assert_eq!(rows_of(&font), vec![[0u8; 5]; 16]);
}

#[test]
fn green_blue_and_alpha_play_no_part() {
    let dark = image(|x, _| if x % 2 == 0 { [0, 255, 255, 0] } else { [255, 0, 0, 255] });
    let font = Font::extract(&dark, 16, 20).unwrap();
    assert_eq!(rows_of(&font), vec![[0x0Au8; 5]; 16]);
}

#[test]
fn every_row_byte_keeps_its_high_bits_clear() {
    let pixels = image(|x, y| [((x * 37 + y * 101 + x * y * 7) % 256) as u8, 1, 2, 3]);
    let font = Font::extract(&pixels, 16, 20).unwrap();
    assert_eq!(font.characters.len(), 16);
    for character in &font.characters {
        for row in &character.0 {
            assert!(*row <= 0x0F);
        }
    }
}

#[test]
fn columns_pack_from_the_high_bit_down() {
    let pixels = image(|x, _| if x % 4 == 1 || x % 4 == 3 { [0; 4] } else { [255; 4] });
    let font = Font::extract(&pixels, 16, 20).unwrap();
    assert_eq!(rows_of(&font), vec![[0x05u8; 5]; 16]);
}

#[test]
fn rows_are_kept_in_order() {
    let pixels = image(|_, y| if y % 5 == 0 || y % 5 == 3 { [0; 4] } else { [255; 4] });
    let font = Font::extract(&pixels, 16, 20).unwrap();
    assert_eq!(rows_of(&font), vec![[0x0F, 0x00, 0x00, 0x0F, 0x00]; 16]);
}

#[test]
fn wrong_width_is_an_invalid_size() {
    let pixels = image(|_, _| [255; 4]);
    assert_eq!(Font::extract(&pixels, 15, 20), Err(FontError::InvalidSize));
    assert_eq!(Font::extract(&pixels, 17, 20), Err(FontError::InvalidSize));
}

#[test]
fn wrong_height_is_an_invalid_size() {
    let pixels = image(|_, _| [255; 4]);
    assert_eq!(Font::extract(&pixels, 16, 19), Err(FontError::InvalidSize));
    assert_eq!(Font::extract(&pixels, 16, 21), Err(FontError::InvalidSize));
}

#[test]
fn swapped_width_and_height_are_an_invalid_size() {
    let pixels = image(|_, _| [255; 4]);
    assert_eq!(Font::extract(&pixels, 20, 16), Err(FontError::InvalidSize));
}

#[test]
fn buffer_of_another_length_is_an_invalid_size() {
    let pixels = image(|_, _| [255; 4]);
    assert_eq!(Font::extract(&pixels[..1279], 16, 20), Err(FontError::InvalidSize));
    assert_eq!(Font::extract(&[], 16, 20), Err(FontError::InvalidSize));
    let mut longer: Vec<u8> = pixels.clone();
    longer.push(0);
    assert_eq!(Font::extract(&longer, 16, 20), Err(FontError::InvalidSize));
}
