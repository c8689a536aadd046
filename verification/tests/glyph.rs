use ascii_webcam::glyph::{
    get_ascii_char, glyph_index, palette_glyph, process_frame, sample_frame, text_placements,
    to_glyph_block,
    GlyphBlock, GrayImage, TextPlacement, LINE_PITCH, PALETTE_LEN,
};

#[test]
fn index_of_black_and_white() {
    assert_eq!(glyph_index(0), 0);
    assert_eq!(glyph_index(255), 9);
}

#[test]
fn index_rounds_towards_darker_glyph() {
    assert_eq!(glyph_index(28), 0);
    assert_eq!(glyph_index(29), 1);
    assert_eq!(glyph_index(56), 1);
    assert_eq!(glyph_index(57), 2);
    assert_eq!(glyph_index(128), 4);
    assert_eq!(glyph_index(200), 7);
    assert_eq!(glyph_index(254), 8);
}

#[test]
fn index_is_monotone_and_in_range() {
    let mut last: usize = 0;
    for value in 0..=255u8 {
        let index = glyph_index(value);
        assert!(index < PALETTE_LEN);
        assert!(index >= last);
        last = index;
    }
    assert_eq!(last, PALETTE_LEN - 1);
}

#[test]
fn palette_in_order() {
    let glyphs: Vec<char> = (0..PALETTE_LEN).map(palette_glyph).collect();
    assert_eq!(glyphs, vec![' ', '.', ':', '-', '=', '+', '*', '#', '%', '@']);
}

#[test]
fn glyph_of_samples() {
    assert_eq!(get_ascii_char(0), ' ');
    assert_eq!(get_ascii_char(29), '.');
    assert_eq!(get_ascii_char(128), '=');
    assert_eq!(get_ascii_char(200), '#');
    assert_eq!(get_ascii_char(254), '%');
    assert_eq!(get_ascii_char(255), '@');
}

#[test]
fn text_of_small_image() {
    let image = GrayImage { rows: 2, cols: 3, pixels: vec![0, 29, 57, 255, 128, 200] };
    assert_eq!(process_frame(&image), " .:\n@=#");
    let block = to_glyph_block(&image);
    assert_eq!(block.lines, vec![" .:".to_string(), "@=#".to_string()]);
    assert_eq!(block.text(), " .:\n@=#");
}

#[test]
fn black_image_gives_darkest_glyph_everywhere() {
    let image = GrayImage { rows: 3, cols: 4, pixels: vec![0; 12] };
    let block = to_glyph_block(&image);
    assert_eq!(block.lines.len(), 3);
    for line in &block.lines {
        assert_eq!(line.chars().count(), 4);
        assert!(line.chars().all(|glyph| glyph == ' '));
    }
    assert_eq!(process_frame(&image), "    \n    \n    ");
}

#[test]
fn image_without_rows_is_empty() {
    let image = GrayImage { rows: 0, cols: 5, pixels: vec![] };
    assert_eq!(process_frame(&image), "");
    assert!(to_glyph_block(&image).lines.is_empty());
}

#[test]
fn image_without_columns_is_empty() {
    let image = GrayImage { rows: 5, cols: 0, pixels: vec![] };
    assert_eq!(process_frame(&image), "");
    assert!(to_glyph_block(&image).lines.is_empty());
}

#[test]
fn missing_samples_read_as_black() {
    let image = GrayImage { rows: 2, cols: 2, pixels: vec![255, 255, 255] };
    assert_eq!(image.pixel_at(1, 0), 255);
    assert_eq!(image.pixel_at(1, 1), 0);
    assert_eq!(process_frame(&image), "@@\n@ ");
}

#[test]
fn single_row_has_no_line_feed() {
    let image = GrayImage { rows: 1, cols: 2, pixels: vec![255, 0] };
    assert_eq!(process_frame(&image), "@ ");
    assert_eq!(image.row_text(0), "@ ");
}

#[test]
fn lines_are_placed_one_pitch_apart() {
    let block = GlyphBlock { lines: vec!["ab".to_string(), "cd".to_string(), "ef".to_string()] };
    let places = text_placements(&block);
    assert_eq!(LINE_PITCH, 10);
    assert_eq!(
        places,
        vec![
            TextPlacement { line: 0, x: 0, y: 10 },
            TextPlacement { line: 1, x: 0, y: 20 },
            TextPlacement { line: 2, x: 0, y: 30 },
        ]
    );
}

#[test]
fn empty_block_has_no_placement() {
    let block = GlyphBlock { lines: vec![] };
    assert!(text_placements(&block).is_empty());
    assert_eq!(block.text(), "");
}

#[test]
fn every_sixth_sample_is_taken() {
    let mut pixels = vec![0u8; 7 * 13];
    pixels[6] = 255;
    pixels[13 + 1] = 255;
    pixels[6 * 13 + 12] = 128;
    let image = GrayImage { rows: 7, cols: 13, pixels };
    assert_eq!(sample_frame(&image, 6), " @ \n  =\n");
    assert_eq!(image.sampled_row_text(6, 6), "  =");
}

#[test]
fn sampling_with_step_one_closes_every_line() {
    let image = GrayImage { rows: 2, cols: 3, pixels: vec![0, 29, 57, 255, 128, 200] };
    assert_eq!(sample_frame(&image, 1), " .:\n@=#\n");
}

#[test]
fn sampling_with_a_step_beyond_the_image_takes_the_corner() {
    let image = GrayImage { rows: 2, cols: 3, pixels: vec![255, 29, 57, 0, 128, 200] };
    assert_eq!(sample_frame(&image, 100), "@\n");
    assert_eq!(sample_frame(&image, usize::MAX), "@\n");
}

#[test]
fn sampling_an_image_without_rows_is_empty() {
    let image = GrayImage { rows: 0, cols: 3, pixels: vec![] };
    assert_eq!(sample_frame(&image, 6), "");
}

#[test]
fn sampling_an_image_without_columns_gives_empty_lines() {
    let image = GrayImage { rows: 7, cols: 0, pixels: vec![] };
    assert_eq!(sample_frame(&image, 6), "\n\n");
}
