use device_kit::color::RGB8;
use device_kit::led2d::{
    convert_frame, frame_from_rows, frame_rows, serpentine_column_major_mapping, text_glyph_placements, text_layout_fits, Frame,
    GlyphPlacement, Led2dFont, Point, Size,
};

const RED: RGB8 = RGB8 { r: 255, g: 0, b: 0 };
const GREEN: RGB8 = RGB8 { r: 0, g: 255, b: 0 };
const BLACK: RGB8 = RGB8 { r: 0, g: 0, b: 0 };
const BLUE: RGB8 = RGB8 { r: 0, g: 0, b: 255 };
const WHITE: RGB8 = RGB8 { r: 255, g: 255, b: 255 };

fn at(ch: char, x: i32, y: i32, color: RGB8) -> GlyphPlacement {
    GlyphPlacement { ch, x, y, color }
}

#[test]
fn frame_geometry() {
    assert_eq!(Frame::<4, 12>::size(), Size { width: 12, height: 4 });
    assert_eq!(Frame::<4, 12>::top_left(), Point { x: 0, y: 0 });
    assert_eq!(Frame::<4, 12>::top_right(), Point { x: 11, y: 0 });
    assert_eq!(Frame::<4, 12>::bottom_left(), Point { x: 0, y: 3 });
    assert_eq!(Frame::<4, 12>::bottom_right(), Point { x: 11, y: 3 });
}

#[test]
fn draw_pixel_clips() {
    let mut frame: Frame<2, 3> = Frame::new();
    frame.draw_pixel(1, 0, RED);
    frame.draw_pixel(-1, 0, GREEN);
    frame.draw_pixel(3, 0, GREEN);
    frame.draw_pixel(0, 2, GREEN);
    assert_eq!(frame.0, [[BLACK, RED, BLACK], [BLACK, BLACK, BLACK]]);
    let rows = frame_rows(frame);
    let back = frame_from_rows(rows);
    assert_eq!(back.0, frame.0);
    let filled: Frame<2, 2> = Frame::filled(WHITE);
    assert_eq!(filled.0, [[WHITE; 2]; 2]);
}

#[test]
fn serpentine_mapping_and_conversion() {
    let mapping: [u16; 6] = serpentine_column_major_mapping::<6, 2, 3>();
    assert_eq!(mapping, [0, 3, 4, 1, 2, 5]);
    let mut frame: Frame<2, 3> = Frame::new();
    frame.draw_pixel(1, 0, RED);
    frame.draw_pixel(2, 1, GREEN);
    let pixels: [RGB8; 6] = convert_frame(&mapping, 3, &frame);
    assert_eq!(pixels, [BLACK, BLACK, BLACK, RED, BLACK, GREEN]);
    let padded: [u16; 8] = serpentine_column_major_mapping::<8, 2, 3>();
    assert_eq!(padded, [0, 3, 4, 1, 2, 5, 0, 0]);
}

#[test]
fn font_spacing() {
    assert_eq!(Led2dFont::Font3x4Trim.spacing_reduction(), (0, 0));
    assert_eq!(Led2dFont::Font4x6.spacing_reduction(), (0, 0));
    assert_eq!(Led2dFont::Font3x5Trim.spacing_reduction(), (1, 1));
    assert_eq!(Led2dFont::Font9x19Trim.spacing_reduction(), (1, 1));
    assert_eq!(Led2dFont::Font10x20.spacing_reduction(), (0, 0));
}

#[test]
fn text_layout_clips_and_wraps() {
    let placements = text_glyph_placements::<12, 10>("ABC\nDE", 4, 6, 5, &[RED, GREEN], (0, 0));
    assert_eq!(
        placements,
        vec![at('A', 0, 5, RED), at('B', 4, 5, GREEN), at('D', 0, 11, RED), at('E', 4, 11, GREEN)]
    );
}

#[test]
fn text_layout_stops_at_bottom() {
    let placements = text_glyph_placements::<12, 10>("A\nB\nC", 4, 6, 5, &[], (0, 0));
    assert_eq!(placements, vec![at('A', 0, 5, WHITE), at('B', 0, 11, WHITE)]);
}

#[test]
fn text_layout_with_trimmed_font() {
    let reduction = Led2dFont::Font4x6Trim.spacing_reduction();
    let placements = text_glyph_placements::<10, 12>("ABCD", 4, 6, 5, &[RED], reduction);
    assert_eq!(
        placements,
        vec![at('A', 0, 5, RED), at('B', 3, 5, RED), at('C', 6, 5, RED), at('D', 9, 5, RED)]
    );
    assert!(text_glyph_placements::<0, 12>("A", 4, 6, 5, &[RED], reduction).is_empty());
}

#[test]
fn single_line_draws_first_glyphs_that_fit_in_cycling_colors() {
    // 12 columns, advance 3: the first four of six characters fit; the last two are
    // clipped and take no color.
    let placements = text_glyph_placements::<4, 12>("ABCDEF", 3, 4, 3, &[RED, GREEN, BLUE], (0, 0));
    assert_eq!(
        placements,
        vec![at('A', 0, 3, RED), at('B', 3, 3, GREEN), at('C', 6, 3, BLUE), at('D', 9, 3, RED)]
    );
}

#[test]
fn text_layout_fits_only_within_i32() {
    assert!(text_layout_fits::<12, 10>("ABC\nDE", 4, 6, 5, (0, 0)));
    // The horizontal advance itself overflows.
    assert!(!text_layout_fits::<12, 10>("A", i32::MAX, 6, 5, (-1, 0)));
    // A line break moves the pen past i32.
    assert!(!text_layout_fits::<12, 10>("A\nB", 4, i32::MAX, 5, (0, 0)));
    // Without rows nothing is laid out, so only the advances count.
    assert!(text_layout_fits::<0, 10>("A\nB", 4, i32::MAX, 5, (0, 0)));
}
