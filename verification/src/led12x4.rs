//! A 4-character LED matrix display of 12×4 pixels, wired as a serpentine
//! column-major strip of 48 LEDs.
//!
//! The frames shown on the display are built here; sending them to the strip
//! is done by the device task around the library.

use vstd::prelude::*;

use crate::bit_matrix3x4::{glyph_rows, glyph_spec};
use crate::animation::LoopState;
use crate::color::{black, RGB8};
use crate::grid::{
    lemma_cell_index_bounds, lemma_cell_index_injective, lemma_cell_index_onto,
    lemma_serpentine_column_major_injective, serpentine_column_major_index, snake,
};

verus! {

/// Display width in pixels.
pub const COLS: usize = 12;

/// Display height in pixels.
pub const ROWS: usize = 4;

/// Number of LEDs.
pub const N: usize = 48;

/// Number of LEDs along the outer perimeter of the display.
pub const PERIMETER_LENGTH: usize = 28;

/// Maximum frames supported by an animation.
pub const ANIMATION_MAX_FRAMES: usize = 32;

/// A full frame in row-major order: `frame[row][col]`.
pub type Frame2d = [[RGB8; COLS]; ROWS];

/// One frame of an animation and how long it stays up, in µs.
#[derive(Clone, Copy, Debug)]
pub struct Frame {
    pub frame: Frame2d,
    pub duration: u64,
}

/// LED index of pixel `(c, r)`: the strip snakes down even columns and up odd ones.
pub open spec fn led_index(c: int, r: int) -> int {
    serpentine_column_major_index(c, r, ROWS as int)
}

/// LED index that `xy_to_index` gives for `(c, r)`: the pixel at row-major position
/// `r * COLS + c`.
pub open spec fn xy_led(c: int, r: int) -> int {
    led_index((r * COLS + c) % COLS as int, (r * COLS + c) / COLS as int)
}

/// The serpentine LED index is a bijection from the 12×4 pixels onto `0..48`.
pub proof fn lemma_led_index(c: int, r: int)
    requires
        0 <= c < COLS,
        0 <= r < ROWS,
    ensures
        0 <= led_index(c, r) < N,
        xy_led(c, r) == led_index(c, r),
{
    lemma_cell_index_bounds(snake(r, c, ROWS as int), c, ROWS as int, COLS as int);
    lemma_cell_index_onto(r * COLS + c, COLS as int, ROWS as int);
    lemma_cell_index_bounds(c, r, COLS as int, ROWS as int);
    lemma_cell_index_injective(
        (r * COLS + c) % COLS as int,
        (r * COLS + c) / COLS as int,
        c,
        r,
        COLS as int,
    );
}

/// Distinct pixels have distinct LEDs.
pub proof fn lemma_led_index_injective(c1: int, r1: int, c2: int, r2: int)
    requires
        0 <= c1 < COLS,
        0 <= r1 < ROWS,
        0 <= c2 < COLS,
        0 <= r2 < ROWS,
        led_index(c1, r1) == led_index(c2, r2),
    ensures
        c1 == c2,
        r1 == r2,
{
    lemma_serpentine_column_major_injective(c1, r1, c2, r2, COLS as int, ROWS as int);
}

/// Converts a column/row pair into the serpentine LED index for this display.
///
/// The pair is read as the pixel at row-major position `row_index * COLS + column_index`.
pub fn xy_to_index(column_index: usize, row_index: usize) -> (index: usize)
    requires
        row_index * COLS + column_index < N,
    ensures
        index == xy_led(column_index as int, row_index as int),
        index < N,
{
    let position = row_index * COLS + column_index;
    let column = position % COLS;
    let row = position / COLS;
    proof {
        lemma_cell_index_onto(position as int, COLS as int, ROWS as int);
        lemma_led_index(column as int, row as int);
    }
    if column % 2 == 0 {
        column * ROWS + row
    } else {
        column * ROWS + (ROWS - 1 - row)
    }
}

/// The pixel at position `k` of a clockwise walk around the border from the top-left corner.
pub open spec fn perimeter_cell(k: int) -> (int, int) {
    if k < 12 {
        (k, 0)
    } else if k < 15 {
        (11, k - 11)
    } else if k < 26 {
        (25 - k, 3)
    } else {
        (0, 28 - k)
    }
}

/// LED at position `k` of the walk around the border, clockwise or counter-clockwise;
/// both walks start at the top-left corner.
pub open spec fn perimeter_led(k: int, clockwise: bool) -> int {
    let j = if clockwise {
        k
    } else {
        (PERIMETER_LENGTH - k) % (PERIMETER_LENGTH as int)
    };
    led_index(perimeter_cell(j).0, perimeter_cell(j).1)
}

/// The pixel lies on the outer border of the display.
pub open spec fn on_border(c: int, r: int) -> bool {
    0 <= c < COLS && 0 <= r < ROWS && (r == 0 || r == ROWS - 1 || c == 0 || c == COLS - 1)
}

/// The walk around the border visits every border pixel once.
pub proof fn lemma_perimeter_cells(k: int, l: int)
    requires
        0 <= k < PERIMETER_LENGTH,
        0 <= l < PERIMETER_LENGTH,
    ensures
        on_border(perimeter_cell(k).0, perimeter_cell(k).1),
        k != l ==> perimeter_cell(k) != perimeter_cell(l),
{
}

/// Returns the LED indexes around the perimeter, starting at the top-left corner.
pub fn perimeter_indices(clockwise: bool) -> (indices: [usize; PERIMETER_LENGTH])
    ensures
        forall|k: int| 0 <= k < PERIMETER_LENGTH ==> #[trigger] indices@[k] == perimeter_led(k, clockwise),
{
    let mut indices = [0usize; PERIMETER_LENGTH];
    let mut write_index: usize = 0;
    let mut column_index: usize = 0;
    while column_index < COLS
        invariant
            write_index == column_index,
            column_index <= COLS,
            indices@.len() == PERIMETER_LENGTH,
            forall|k: int| 0 <= k < write_index ==> #[trigger] indices@[k] == perimeter_led(k, true),
        decreases COLS - column_index,
    {
        proof {
            lemma_led_index(column_index as int, 0);
        }
        indices[write_index] = xy_to_index(column_index, 0);
        write_index += 1;
        column_index += 1;
    }
    let mut row_index: usize = 1;
    while row_index < ROWS
        invariant
            write_index == COLS + row_index - 1,
            1 <= row_index <= ROWS,
            indices@.len() == PERIMETER_LENGTH,
            forall|k: int| 0 <= k < write_index ==> #[trigger] indices@[k] == perimeter_led(k, true),
        decreases ROWS - row_index,
    {
        proof {
            lemma_led_index(COLS - 1, row_index as int);
        }
        indices[write_index] = xy_to_index(COLS - 1, row_index);
        write_index += 1;
        row_index += 1;
    }
    let mut step: usize = 0;
    while step < COLS - 1
        invariant
            write_index == COLS + ROWS - 1 + step,
            step <= COLS - 1,
            indices@.len() == PERIMETER_LENGTH,
            forall|k: int| 0 <= k < write_index ==> #[trigger] indices@[k] == perimeter_led(k, true),
        decreases COLS - 1 - step,
    {
        let column_index = COLS - 2 - step;
        proof {
            lemma_led_index(column_index as int, ROWS - 1);
        }
        indices[write_index] = xy_to_index(column_index, ROWS - 1);
        write_index += 1;
        step += 1;
    }
    let mut step: usize = 0;
    while step < ROWS - 2
        invariant
            write_index == COLS + ROWS - 1 + COLS - 1 + step,
            step <= ROWS - 2,
            indices@.len() == PERIMETER_LENGTH,
            forall|k: int| 0 <= k < write_index ==> #[trigger] indices@[k] == perimeter_led(k, true),
        decreases ROWS - 2 - step,
    {
        let row_index = ROWS - 2 - step;
        proof {
            lemma_led_index(0, row_index as int);
        }
        indices[write_index] = xy_to_index(0, row_index);
        write_index += 1;
        step += 1;
    }
    if clockwise {
        indices
    } else {
        let mut reversed = [0usize; PERIMETER_LENGTH];
        let mut reverse_index: usize = 0;
        while reverse_index < PERIMETER_LENGTH
            invariant
                reverse_index <= PERIMETER_LENGTH,
                reversed@.len() == PERIMETER_LENGTH,
                forall|k: int| 0 <= k < PERIMETER_LENGTH ==> #[trigger] indices@[k] == perimeter_led(k, true),
                forall|k: int| 0 <= k < reverse_index ==> #[trigger] reversed@[k] == perimeter_led(k, false),
            decreases PERIMETER_LENGTH - reverse_index,
        {
            let source = if reverse_index == 0 { 0 } else { PERIMETER_LENGTH - reverse_index };
            reversed[reverse_index] = indices[source];
            reverse_index += 1;
        }
        reversed
    }
}

/// The characters that text on this display supports: the space, the digits, and the
/// letters A, B, C, D, E, F, I, L, N, O, R, S, T and U in either case.
pub open spec fn supported_char(ch: char) -> bool {
    ||| ch == ' '
    ||| '0' <= ch <= '9'
    ||| ch == 'A' || ch == 'B' || ch == 'C' || ch == 'D' || ch == 'E' || ch == 'F'
    ||| ch == 'I' || ch == 'L' || ch == 'N' || ch == 'O' || ch == 'R' || ch == 'S'
    ||| ch == 'T' || ch == 'U'
    ||| ch == 'a' || ch == 'b' || ch == 'c' || ch == 'd' || ch == 'e' || ch == 'f'
    ||| ch == 'i' || ch == 'l' || ch == 'n' || ch == 'o' || ch == 'r' || ch == 's'
    ||| ch == 't' || ch == 'u'
}

/// The glyph drawn for a character: its glyph in the built-in 3×4 font when it is
/// supported (the space is blank), a solid 3×4 block for any other character.
pub open spec fn char_glyph(ch: char) -> Seq<u8> {
    if supported_char(ch) {
        glyph_spec(ch as u8)
    } else {
        seq![0b111u8, 0b111u8, 0b111u8, 0b111u8]
    }
}

/// Whether `ch` is supported; see [`supported_char`].
fn is_supported_char(ch: char) -> (supported: bool)
    ensures
        supported == supported_char(ch),
{
    match ch {
        ' ' | '0'..='9' => true,
        'A' | 'B' | 'C' | 'D' | 'E' | 'F' | 'I' | 'L' | 'N' | 'O' | 'R' | 'S' | 'T' | 'U' => true,
        'a' | 'b' | 'c' | 'd' | 'e' | 'f' | 'i' | 'l' | 'n' | 'o' | 'r' | 's' | 't' | 'u' => true,
        _ => false,
    }
}

/// The rows drawn for `ch`; see [`char_glyph`].
fn text_glyph(ch: char) -> (rows: [u8; 4])
    ensures
        rows@ == char_glyph(ch),
{
    if is_supported_char(ch) {
        glyph_rows(ch)
    } else {
        let rows = [0b111u8; 4];
        assert(rows@ =~= seq![0b111u8, 0b111u8, 0b111u8, 0b111u8]);
        rows
    }
}

/// LED of column `o` and row `r` of the glyph whose leftmost column is `base`.
pub open spec fn glyph_led(base: int, o: int, r: int) -> int {
    led_index(base + o, r)
}

/// Pixel `(o, r)` of a glyph is lit; `o = 0` is the leftmost column.
pub open spec fn glyph_pixel(rows: Seq<u8>, r: int, o: int) -> bool {
    (rows[r] >> ((2 - o) as u8)) & 1 != 0
}

/// Color of pixel `(c, r)` when four characters are shown, each in a 3-column cell.
pub open spec fn text_pixel(chars: Seq<char>, colors: Seq<RGB8>, c: int, r: int) -> RGB8 {
    if glyph_pixel(char_glyph(chars[c / 3]), r, c % 3) {
        colors[c / 3]
    } else {
        RGB8 { r: 0, g: 0, b: 0 }
    }
}

/// Draws a glyph whose leftmost column is `base_column_index` into a strip frame.
pub fn render_glyph(
    rows: [u8; 4],
    glyph_color: RGB8,
    base_column_index: usize,
    frame: &mut [RGB8; N],
    background_color: RGB8,
)
    requires
        base_column_index + 3 <= COLS,
    ensures
        forall|r: int, o: int|
            0 <= r < ROWS && 0 <= o < 3 ==> #[trigger] final(frame)@[glyph_led(base_column_index as int, o, r)] == if glyph_pixel(rows@, r, o) {
                glyph_color
            } else {
                background_color
            },
        forall|k: int|
            0 <= k < N && (forall|r: int, o: int|
                0 <= r < ROWS && 0 <= o < 3 ==> glyph_led(base_column_index as int, o, r) != k)
                ==> #[trigger] final(frame)@[k] == old(frame)@[k],
{
    let mut row_index: usize = 0;
    while row_index < ROWS
        invariant
            row_index <= ROWS,
            base_column_index + 3 <= COLS,
            frame@.len() == N,
            forall|r: int, o: int|
                0 <= r < row_index && 0 <= o < 3 ==> #[trigger] frame@[glyph_led(base_column_index as int, o, r)] == if glyph_pixel(rows@, r, o) {
                    glyph_color
                } else {
                    background_color
                },
            forall|k: int|
                0 <= k < N && (forall|r: int, o: int|
                    0 <= r < row_index && 0 <= o < 3 ==> glyph_led(base_column_index as int, o, r) != k)
                    ==> #[trigger] frame@[k] == old(frame)@[k],
        decreases ROWS - row_index,
    {
        let row_bits = rows[row_index];
        let mut column_offset: usize = 0;
        while column_offset < 3
            invariant
                row_index < ROWS,
                column_offset <= 3,
                base_column_index + 3 <= COLS,
                frame@.len() == N,
                row_bits == rows@[row_index as int],
                forall|r: int, o: int|
                    ((0 <= r < row_index && 0 <= o < 3) || (r == row_index && 0 <= o
                        < column_offset)) ==> #[trigger] frame@[glyph_led(base_column_index as int, o, r)]
                        == if glyph_pixel(rows@, r, o) {
                        glyph_color
                    } else {
                        background_color
                    },
                forall|k: int|
                    0 <= k < N && (forall|r: int, o: int|
                        ((0 <= r < row_index && 0 <= o < 3) || (r == row_index && 0 <= o
                            < column_offset)) ==> glyph_led(base_column_index as int, o, r) != k)
                        ==> #[trigger] frame@[k] == old(frame)@[k],
            decreases 3 - column_offset,
        {
            let bit = (row_bits >> (2 - column_offset) as u8) & 1;
            proof {
                lemma_led_index((base_column_index + column_offset) as int, row_index as int);
            }
            let pixel_index = xy_to_index(base_column_index + column_offset, row_index);
            let pixel_color = if bit != 0 {
                glyph_color
            } else {
                background_color
            };
            let ghost before = frame@;
            frame[pixel_index] = pixel_color;
            proof {
                assert forall|r: int, o: int|
                    ((0 <= r < row_index && 0 <= o < 3) || (r == row_index && 0 <= o
                        < column_offset + 1)) implies #[trigger] frame@[glyph_led(base_column_index as int, o, r)] == if glyph_pixel(rows@, r, o) {
                    glyph_color
                } else {
                    background_color
                } by {
                    lemma_led_index(base_column_index + o, r);
                    if r != row_index || o != column_offset {
                        if glyph_led(base_column_index as int, o, r) == pixel_index {
                            lemma_led_index_injective(
                                base_column_index + o,
                                r,
                                (base_column_index + column_offset) as int,
                                row_index as int,
                            );
                        }
                        assert(frame@[glyph_led(base_column_index as int, o, r)] == before[glyph_led(base_column_index as int, o, r)]);
                    }
                }
            }
            proof {
                assert forall|k: int|
                    0 <= k < N && (forall|r: int, o: int|
                        ((0 <= r < row_index && 0 <= o < 3) || (r == row_index && 0 <= o
                            < column_offset + 1)) ==> #[trigger] glyph_led(base_column_index as int, o, r) != k)
                    implies #[trigger] frame@[k] == old(frame)@[k] by {
                    assert(glyph_led(base_column_index as int, column_offset as int, row_index as int) != k);
                    assert(before[k] == old(frame)@[k]);
                }
            }
            column_offset += 1;
        }
        row_index += 1;
    }
}

/// A 2D frame laid out on the strip: LED `led_index(c, r)` gets `frame[r][c]`.
pub fn frame_to_pixels(frame: &Frame2d) -> (pixels: [RGB8; N])
    ensures
        forall|c: int, r: int|
            0 <= c < COLS && 0 <= r < ROWS ==> #[trigger] pixels@[led_index(c, r)] == frame@[r]@[c],
{
    let mut frame_1d = [black(); N];
    let mut row_index: usize = 0;
    while row_index < ROWS
        invariant
            row_index <= ROWS,
            frame_1d@.len() == N,
            forall|c: int, r: int|
                0 <= c < COLS && 0 <= r < row_index ==> #[trigger] frame_1d@[led_index(c, r)]
                    == frame@[r]@[c],
        decreases ROWS - row_index,
    {
        let mut column_index: usize = 0;
        while column_index < COLS
            invariant
                row_index < ROWS,
                column_index <= COLS,
                frame_1d@.len() == N,
                forall|c: int, r: int|
                    (0 <= c < COLS && 0 <= r < row_index) || (0 <= c < column_index && r
                        == row_index) ==> #[trigger] frame_1d@[led_index(c, r)] == frame@[r]@[c],
            decreases COLS - column_index,
        {
            proof {
                lemma_led_index(column_index as int, row_index as int);
            }
            let led = xy_to_index(column_index, row_index);
            let ghost before = frame_1d@;
            frame_1d[led] = frame[row_index][column_index];
            proof {
                assert forall|c: int, r: int|
                    (0 <= c < COLS && 0 <= r < row_index) || (0 <= c < column_index + 1 && r
                        == row_index) implies #[trigger] frame_1d@[led_index(c, r)]
                    == frame@[r]@[c] by {
                    lemma_led_index(c, r);
                    if c != column_index || r != row_index {
                        if led_index(c, r) == led {
                            lemma_led_index_injective(c, r, column_index as int, row_index as int);
                        }
                        assert(frame_1d@[led_index(c, r)] == before[led_index(c, r)]);
                    }
                }
            }
            column_index += 1;
        }
        row_index += 1;
    }
    frame_1d
}

/// A strip frame read back as a 2D frame: `frame[r][c]` is LED `led_index(c, r)`.
pub fn pixels_to_frame(pixels: &[RGB8; N]) -> (frame: Frame2d)
    ensures
        forall|c: int, r: int|
            0 <= c < COLS && 0 <= r < ROWS ==> #[trigger] frame@[r]@[c] == pixels@[led_index(c, r)],
{
    let mut frame_2d = [[black(); COLS]; ROWS];
    let mut row_index: usize = 0;
    while row_index < ROWS
        invariant
            row_index <= ROWS,
            frame_2d@.len() == ROWS,
            forall|r: int| 0 <= r < ROWS ==> (#[trigger] frame_2d@[r])@.len() == COLS,
            forall|c: int, r: int|
                0 <= c < COLS && 0 <= r < row_index ==> #[trigger] frame_2d@[r]@[c]
                    == pixels@[led_index(c, r)],
        decreases ROWS - row_index,
    {
        let mut row = [black(); COLS];
        let mut column_index: usize = 0;
        while column_index < COLS
            invariant
                row_index < ROWS,
                column_index <= COLS,
                row@.len() == COLS,
                forall|c: int|
                    0 <= c < column_index ==> #[trigger] row@[c] == pixels@[led_index(
                        c,
                        row_index as int,
                    )],
            decreases COLS - column_index,
        {
            proof {
                lemma_led_index(column_index as int, row_index as int);
            }
            row[column_index] = pixels[xy_to_index(column_index, row_index)];
            column_index += 1;
        }
        frame_2d[row_index] = row;
        row_index += 1;
    }
    frame_2d
}

/// Build a full display frame for the provided 4-character text and colors.
pub fn text_frame(chars: [char; 4], colors: [RGB8; 4]) -> (frame: Frame2d)
    ensures
        forall|c: int, r: int|
            0 <= c < COLS && 0 <= r < ROWS ==> #[trigger] frame@[r]@[c] == text_pixel(
                chars@,
                colors@,
                c,
                r,
            ),
{
    let black_color = black();
    let mut frame_1d = [black_color; N];
    let mut character_index: usize = 0;
    while character_index < 4
        invariant
            character_index <= 4,
            frame_1d@.len() == N,
            black_color == (RGB8 { r: 0, g: 0, b: 0 }),
            forall|c: int, r: int|
                0 <= c < 3 * character_index && 0 <= r < ROWS ==> #[trigger] frame_1d@[led_index(
                    c,
                    r,
                )] == text_pixel(chars@, colors@, c, r),
        decreases 4 - character_index,
    {
        let color = colors[character_index];
        let base_column_index = character_index * 3;
        let rows = text_glyph(chars[character_index]);
        let ghost before = frame_1d@;
        render_glyph(rows, color, base_column_index, &mut frame_1d, black_color);
        proof {
            assert forall|c: int, r: int|
                0 <= c < 3 * (character_index + 1) && 0 <= r < ROWS implies #[trigger] frame_1d@[led_index(
                c,
                r,
            )] == text_pixel(chars@, colors@, c, r) by {
                lemma_led_index(c, r);
                if c < base_column_index {
                    assert forall|rr: int, o: int|
                        0 <= rr < ROWS && 0 <= o < 3 implies glyph_led(base_column_index as int, o, rr)
                        != led_index(c, r) by {
                        lemma_led_index(base_column_index + o, rr);
                        if glyph_led(base_column_index as int, o, rr) == led_index(c, r) {
                            lemma_led_index_injective(base_column_index + o, rr, c, r);
                        }
                    }
                    assert(frame_1d@[led_index(c, r)] == before[led_index(c, r)]);
                } else {
                    let o = c - base_column_index;
                    assert(c / 3 == character_index && c % 3 == o);
                    assert(frame_1d@[glyph_led(base_column_index as int, o, r)] == if glyph_pixel(
                        rows@,
                        r,
                        o,
                    ) {
                        color
                    } else {
                        black_color
                    });
                }
            }
        }
        character_index += 1;
    }
    let frame = pixels_to_frame(&frame_1d);
    proof {
        assert forall|c: int, r: int| 0 <= c < COLS && 0 <= r < ROWS implies #[trigger] frame@[r]@[c]
            == text_pixel(chars@, colors@, c, r) by {
            assert(frame@[r]@[c] == frame_1d@[led_index(c, r)]);
        }
    }
    frame
}

/// Creates a single-dot perimeter chase animation around the display edges: frame `k`
/// lights only the `k`-th LED of the walk around the border.
#[verifier::spinoff_prover]
pub fn perimeter_chase_animation(clockwise: bool, color: RGB8, duration: u64) -> (frames: [Frame; PERIMETER_LENGTH])
    requires
        duration > 0,
    ensures
        forall|k: int, c: int, r: int|
            0 <= k < PERIMETER_LENGTH && 0 <= c < COLS && 0 <= r < ROWS ==> #[trigger] frames@[k].frame@[r]@[c]
                == if led_index(c, r) == perimeter_led(k, clockwise) {
                color
            } else {
                RGB8 { r: 0, g: 0, b: 0 }
            },
        forall|k: int| 0 <= k < PERIMETER_LENGTH ==> #[trigger] frames@[k].duration == duration,
{
    let perimeter = perimeter_indices(clockwise);
    let black_color = black();
    let blank = Frame { frame: [[black_color; COLS]; ROWS], duration };
    let mut frames = [blank; PERIMETER_LENGTH];
    let mut frame_index: usize = 0;
    while frame_index < PERIMETER_LENGTH
        invariant
            frame_index <= PERIMETER_LENGTH,
            frames@.len() == PERIMETER_LENGTH,
            black_color == (RGB8 { r: 0, g: 0, b: 0 }),
            forall|k: int| 0 <= k < PERIMETER_LENGTH ==> #[trigger] perimeter@[k] == perimeter_led(k, clockwise),
            forall|k: int| 0 <= k < PERIMETER_LENGTH ==> #[trigger] frames@[k].duration == duration,
            forall|k: int, c: int, r: int|
                0 <= k < frame_index && 0 <= c < COLS && 0 <= r < ROWS ==> #[trigger] frames@[k].frame@[r]@[c]
                    == if led_index(c, r) == perimeter_led(k, clockwise) {
                    color
                } else {
                    black_color
                },
        decreases PERIMETER_LENGTH - frame_index,
    {
        let led_index_to_light = perimeter[frame_index];
        let mut pixels = [black_color; N];
        proof {
            let j = if clockwise {
                frame_index as int
            } else {
                (PERIMETER_LENGTH - frame_index) % (PERIMETER_LENGTH as int)
            };
            lemma_perimeter_cells(j, j);
            lemma_led_index(perimeter_cell(j).0, perimeter_cell(j).1);
        }
        pixels[led_index_to_light] = color;
        let frame = pixels_to_frame(&pixels);
        let ghost before = frames@;
        frames[frame_index] = Frame { frame, duration };
        proof {
            assert forall|k: int, c: int, r: int|
                0 <= k < frame_index + 1 && 0 <= c < COLS && 0 <= r < ROWS implies #[trigger] frames@[k].frame@[r]@[c]
                == if led_index(c, r) == perimeter_led(k, clockwise) {
                color
            } else {
                black_color
            } by {
                if k < frame_index {
                    assert(frames@[k] == before[k]);
                } else {
                    lemma_led_index(c, r);
                    assert(frames@[k] == Frame { frame, duration });
                    assert(frame@[r]@[c] == pixels@[led_index(c, r)]);
                    assert(pixels@[led_index(c, r)] == if led_index(c, r) == led_index_to_light {
                        color
                    } else {
                        black_color
                    });
                }
            }
        }
        frame_index += 1;
    }
    frames
}

/// What woke the 12×4 device loop.
#[derive(Clone, Copy, Debug, PartialEq, Eq, Structural)]
pub enum Led12x4Event {
    /// A command to show a full frame of pixels.
    ShowPixels,
    /// A command to show four characters.
    ShowChars,
    /// A command to loop an animation of `frame_count` frames.
    Animate { frame_count: usize },
    /// The current animation frame's duration has passed.
    FrameElapsed,
}

/// What the 12×4 device loop does next.
#[derive(Clone, Copy, Debug, PartialEq, Eq, Structural)]
pub enum Led12x4Action {
    /// Write the pixels (or the characters' frame), then signal completion.
    ShowThenSignal,
    /// Write animation frame `index`, then signal completion when `signal` is set.
    ShowFrame { index: usize, signal: bool },
}

/// The 12×4 loop's next state and action: commands are never dropped, an animation
/// starts at its first frame, a frame timer moves to the next frame (wrapping around),
/// and completion is signalled each time the first frame is shown.
pub open spec fn led12x4_step(state: LoopState, event: Led12x4Event) -> (LoopState, Led12x4Action) {
    match event {
        Led12x4Event::ShowPixels | Led12x4Event::ShowChars => (LoopState::Idle, Led12x4Action::ShowThenSignal),
        Led12x4Event::Animate { frame_count } => (
            LoopState::Animating { frame_count, index: 0, restarts: 0 },
            Led12x4Action::ShowFrame { index: 0, signal: true },
        ),
        Led12x4Event::FrameElapsed => match state {
            LoopState::Animating { frame_count, index, restarts } => {
                let next = ((index + 1) % (frame_count as int)) as usize;
                (
                    LoopState::Animating { frame_count, index: next, restarts },
                    Led12x4Action::ShowFrame { index: next, signal: next == 0 },
                )
            },
            LoopState::Idle => (LoopState::Idle, Led12x4Action::ShowThenSignal),
        },
    }
}

/// One round of the 12×4 device loop; see [`led12x4_step`].
pub fn led12x4_loop_step(state: LoopState, event: Led12x4Event) -> (next: (LoopState, Led12x4Action))
    requires
        crate::animation::loop_state_wf(state),
        event matches Led12x4Event::Animate { frame_count } ==> frame_count > 0,
        event is FrameElapsed ==> state is Animating,
    ensures
        next == led12x4_step(state, event),
        crate::animation::loop_state_wf(next.0),
{
    match event {
        Led12x4Event::ShowPixels | Led12x4Event::ShowChars => (LoopState::Idle, Led12x4Action::ShowThenSignal),
        Led12x4Event::Animate { frame_count } => (
            LoopState::Animating { frame_count, index: 0, restarts: 0 },
            Led12x4Action::ShowFrame { index: 0, signal: true },
        ),
        Led12x4Event::FrameElapsed => match state {
            LoopState::Animating { frame_count, index, restarts } => {
                let next = (index + 1) % frame_count;
                (
                    LoopState::Animating { frame_count, index: next, restarts },
                    Led12x4Action::ShowFrame { index: next, signal: next == 0 },
                )
            },
            LoopState::Idle => (LoopState::Idle, Led12x4Action::ShowThenSignal),
        },
    }
}

} // verus!
