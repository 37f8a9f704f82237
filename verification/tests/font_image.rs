use n64_systemtest::graphics::color::{Color, ARGB8888};
use n64_systemtest::graphics::font::Font;
use n64_systemtest::graphics::image::Image;

// baseline 1, one byte per row, height 2, x offsets at 8, bitmap at 14;
// ' ' covers columns 0..2 and '!' columns 2..5.
const FONT_DATA: [u8; 16] = [1, 1, 0, 2, 8, 0, 14, 0, 0, 0, 2, 0, 5, 0, 0b0011_1000, 0b0010_0000];

fn black_image(width: u32, height: u32, padding_right: u32) -> Image<ARGB8888> {
    Image::new(width, height, padding_right, vec![ARGB8888::BLACK(); (width * height) as usize])
}

fn white_pixels(image: &mut Image<ARGB8888>) -> Vec<usize> {
    let white = ARGB8888::WHITE().raw_value();
    image.pixels_mut().iter().enumerate().filter(|(_, p)| p.raw_value() == white).map(|(i, _)| i).collect()
}

#[test]
fn font_header_is_decoded() {
    let font = Font::from_data(&FONT_DATA).unwrap();
    assert_eq!(font.height, 2);
    assert_eq!(font.baseline, 1);
}

#[test]
fn font_checks_reject_bad_data() {
    let mut data = FONT_DATA;
    data[0] = 2; // baseline not within the characters
    assert!(Font::from_data(&data).is_none());
    let mut data = FONT_DATA;
    data[6] = 11; // x offset table shorter than two entries
    assert!(Font::from_data(&data).is_none());
    let mut data = FONT_DATA;
    data[6] = 16; // empty bitmap
    assert!(Font::from_data(&data).is_none());
    let mut data = FONT_DATA;
    data[6] = 12; // two entries exactly
    assert!(Font::from_data(&data).is_some());
}

#[test]
fn draw_char_paints_set_bits() {
    let font = Font::from_data(&FONT_DATA).unwrap();
    let mut image = black_image(8, 5, 0);
    assert_eq!(font.draw_char(&mut image, 1, 2, ARGB8888::WHITE(), '!'), Some(3));
    assert_eq!(white_pixels(&mut image), vec![9, 10, 11, 17]);
}

#[test]
fn draw_char_of_blank_glyph_paints_nothing() {
    let font = Font::from_data(&FONT_DATA).unwrap();
    let mut image = black_image(8, 5, 0);
    assert_eq!(font.draw_char(&mut image, 0, 2, ARGB8888::WHITE(), ' '), Some(2));
    assert!(white_pixels(&mut image).is_empty());
}

#[test]
fn draw_char_outside_the_font_is_zero_wide() {
    let font = Font::from_data(&FONT_DATA).unwrap();
    let mut image = black_image(8, 5, 0);
    assert_eq!(font.draw_char(&mut image, 1, 2, ARGB8888::WHITE(), 'A'), Some(0));
    assert_eq!(font.draw_char(&mut image, 1, 2, ARGB8888::WHITE(), '\n'), Some(0));
    assert!(white_pixels(&mut image).is_empty());
}

#[test]
fn draw_char_too_far_right_fails() {
    let font = Font::from_data(&FONT_DATA).unwrap();
    let mut image = black_image(8, 5, 0);
    assert_eq!(font.draw_char(&mut image, 6, 2, ARGB8888::WHITE(), '!'), None);
    let mut padded = black_image(8, 5, 3);
    assert_eq!(font.draw_char(&mut padded, 3, 2, ARGB8888::WHITE(), '!'), None);
    assert_eq!(font.draw_char(&mut padded, 2, 2, ARGB8888::WHITE(), '!'), Some(3));
    assert!(white_pixels(&mut image).is_empty());
}

#[test]
fn draw_char_below_the_bottom_is_skipped() {
    let font = Font::from_data(&FONT_DATA).unwrap();
    let mut image = black_image(8, 5, 0);
    assert_eq!(font.draw_char(&mut image, 1, 3, ARGB8888::WHITE(), '!'), Some(3));
    assert!(white_pixels(&mut image).is_empty());
}

#[test]
fn image_clear_and_set_pixel() {
    let mut image = Image::new(3, 2, 1, vec![ARGB8888::BLACK(); 7]);
    assert_eq!(image.padded_width(), 2);
    assert_eq!(image.height(), 2);
    image.clear_with_color(ARGB8888::RED());
    let raw: Vec<u32> = image.pixels_mut().iter().map(|p| p.raw_value()).collect();
    assert_eq!(raw, vec![0xFF_0000, 0xFF_0000, 0xFF_0000, 0xFF_0000, 0xFF_0000, 0xFF_0000, 0]);
    image.set_pixel(2, 1, ARGB8888::BLUE());
    assert_eq!(image.pixels_mut()[5].raw_value(), 0xFF);
    image.set_pixel(0, 1, ARGB8888::GREEN());
    assert_eq!(image.pixels_mut()[3].raw_value(), 0xFF00);
}

#[test]
fn draw_char_rows_above_the_image_are_skipped() {
    let font = Font::from_data(&FONT_DATA).unwrap();
    let mut image = black_image(8, 5, 0);
    // the top row of '!' would be row -1; only its second row lands on row 0
    assert_eq!(font.draw_char(&mut image, 1, 0, ARGB8888::WHITE(), '!'), Some(3));
    assert_eq!(white_pixels(&mut image), vec![1]);
}

#[test]
fn draw_char_far_right_is_none_without_overflow() {
    let font = Font::from_data(&FONT_DATA).unwrap();
    let mut image = black_image(8, 5, 0);
    assert_eq!(font.draw_char(&mut image, 0xFFFF, 2, ARGB8888::WHITE(), '!'), None);
    assert_eq!(font.draw_char(&mut image, 0xFFFE, 0xFFFF, ARGB8888::WHITE(), '!'), None);
    assert!(white_pixels(&mut image).is_empty());
}

#[test]
fn draw_char_with_decreasing_offsets_is_empty() {
    // '!' starts at column 5 but the next character at column 2
    let data: [u8; 16] = [1, 1, 0, 2, 8, 0, 14, 0, 0, 0, 5, 0, 2, 0, 0xFF, 0xFF];
    let font = Font::from_data(&data).unwrap();
    let mut image = black_image(8, 5, 0);
    assert_eq!(font.draw_char(&mut image, 1, 2, ARGB8888::WHITE(), '!'), Some(0));
    assert!(white_pixels(&mut image).is_empty());
}

#[test]
fn draw_char_past_the_table_is_empty() {
    let font = Font::from_data(&FONT_DATA).unwrap();
    let mut image = black_image(8, 5, 0);
    // U+0121 is printable by its low byte ('!') but its entry, 0x202, lies past the table
    assert_eq!(font.draw_char(&mut image, 1, 2, ARGB8888::WHITE(), '\u{121}'), Some(0));
    assert_eq!(font.draw_char(&mut image, 1, 2, ARGB8888::WHITE(), '\u{141}'), Some(0));
    assert!(white_pixels(&mut image).is_empty());
}

#[test]
fn draw_char_looks_wide_characters_up_by_16_bits() {
    // a table long enough to hold the entry of U+0121 at 0x202; one bitmap row, one byte wide
    let table_len = 0x206usize;
    let start = 8 + table_len;
    let mut data = vec![0u8, 1, 0, 1, 8, 0, (start & 0xFF) as u8, (start >> 8) as u8];
    let mut table = vec![0u8; table_len];
    table[2] = 6; // '!' spans columns 6..6: empty
    table[4] = 6;
    table[0x204] = 3; // U+0121 spans columns 0..3
    data.extend_from_slice(&table);
    data.push(0b1010_0000);
    let font = Font::from_data(&data).unwrap();
    let mut image = black_image(8, 3, 0);
    assert_eq!(font.draw_char(&mut image, 0, 1, ARGB8888::WHITE(), '!'), Some(0));
    assert_eq!(font.draw_char(&mut image, 0, 1, ARGB8888::WHITE(), '\u{121}'), Some(3));
    assert_eq!(white_pixels(&mut image), vec![0, 2]);
}

#[test]
fn draw_char_at_the_bottom_edge_with_large_bytes_per_row() {
    // 0xFFFF bytes per row: the second row of the bitmap lies far past its end
    let data: [u8; 16] = [1, 0xFF, 0xFF, 2, 8, 0, 14, 0, 0, 0, 2, 0, 5, 0, 0b0011_1000, 0b0010_0000];
    let font = Font::from_data(&data).unwrap();
    let mut image = black_image(8, 5, 0);
    assert_eq!(font.draw_char(&mut image, 1, 2, ARGB8888::WHITE(), '!'), Some(3));
    assert_eq!(white_pixels(&mut image), vec![9, 10, 11]);
}
