//! A 12×4 LED panel showing four characters, each in a 3×4 cell: digits in a small
//! built-in font, a space blank, anything else a solid block.

use vstd::prelude::*;

use crate::color::{black, RGB8};
use crate::led12x4::{glyph_led, glyph_pixel, led_index, lemma_led_index, lemma_led_index_injective, render_glyph};
use crate::led12x4::{COLS, N, ROWS};

verus! {

/// Digits `0` to `9`, four rows of three bits each, most significant bit leftmost.
pub const FONT: [[u8; 4]; 10] = [
    [0b111, 0b101, 0b101, 0b111],
    [0b010, 0b110, 0b010, 0b111],
    [0b110, 0b001, 0b010, 0b111],
    [0b111, 0b001, 0b011, 0b111],
    [0b101, 0b101, 0b111, 0b001],
    [0b111, 0b100, 0b011, 0b111],
    [0b100, 0b111, 0b101, 0b111],
    [0b111, 0b001, 0b010, 0b100],
    [0b111, 0b101, 0b010, 0b111],
    [0b111, 0b101, 0b111, 0b001],
];

/// The rows drawn for `ch`: its digit in the font, nothing for a space, a full block
/// otherwise.
pub open spec fn char_rows(ch: char) -> Seq<u8> {
    if '0' <= ch <= '9' {
        FONT@[(ch as u32 - 48) as int]@
    } else if ch == ' ' {
        seq![0u8, 0u8, 0u8, 0u8]
    } else {
        seq![0b111u8, 0b111u8, 0b111u8, 0b111u8]
    }
}

/// Color of pixel `(c, r)` when four characters are shown.
pub open spec fn panel_pixel(chars: Seq<char>, colors: Seq<RGB8>, c: int, r: int) -> RGB8 {
    if glyph_pixel(char_rows(chars[c / 3]), r, c % 3) {
        colors[c / 3]
    } else {
        RGB8 { r: 0, g: 0, b: 0 }
    }
}

/// The rows drawn for `ch`; see [`char_rows`].
pub fn rows_for(ch: char) -> (rows: [u8; 4])
    ensures
        rows@ == char_rows(ch),
{
    if '0' <= ch && ch <= '9' {
        let digit = (ch as u32 - 48) as usize;
        FONT[digit]
    } else if ch == ' ' {
        [0, 0, 0, 0]
    } else {
        [0b111, 0b111, 0b111, 0b111]
    }
}

/// LED index of column `x`, row `y`: down even columns, up odd ones.
pub fn xy_to_index(x: usize, y: usize) -> (index: usize)
    requires
        x < COLS,
        y < ROWS,
    ensures
        index == led_index(x as int, y as int),
        index < N,
{
    proof {
        lemma_led_index(x as int, y as int);
    }
    if x % 2 == 0 {
        x * ROWS + y
    } else {
        x * ROWS + (ROWS - 1 - y)
    }
}

/// The strip colors that show four characters, each in its color.
pub fn display_frame(chars: [char; 4], colors: [RGB8; 4]) -> (frame: [RGB8; N])
    ensures
        forall|c: int, r: int|
            0 <= c < COLS && 0 <= r < ROWS ==> #[trigger] frame@[led_index(c, r)] == panel_pixel(
                chars@,
                colors@,
                c,
                r,
            ),
{
    let black_color = black();
    let mut frame = [black_color; N];
    let mut character_index: usize = 0;
    while character_index < 4
        invariant
            character_index <= 4,
            frame@.len() == N,
            black_color == (RGB8 { r: 0, g: 0, b: 0 }),
            forall|c: int, r: int|
                0 <= c < 3 * character_index && 0 <= r < ROWS ==> #[trigger] frame@[led_index(c, r)]
                    == panel_pixel(chars@, colors@, c, r),
        decreases 4 - character_index,
    {
        let color = colors[character_index];
        let base_column_index = character_index * 3;
        let rows = rows_for(chars[character_index]);
        let ghost before = frame@;
        render_glyph(rows, color, base_column_index, &mut frame, black_color);
        proof {
            assert forall|c: int, r: int|
                0 <= c < 3 * (character_index + 1) && 0 <= r < ROWS implies #[trigger] frame@[led_index(c, r)]
                == panel_pixel(chars@, colors@, c, r) by {
                lemma_led_index(c, r);
                if c < base_column_index {
                    assert forall|rr: int, o: int|
                        0 <= rr < ROWS && 0 <= o < 3 implies glyph_led(base_column_index as int, o, rr)
                        != led_index(c, r) by {
                        lemma_led_index(base_column_index + o, rr);
                        if glyph_led(base_column_index as int, o, rr) == led_index(c, r) {
                            lemma_led_index_injective(base_column_index + o, rr, c, r);
                        }
                    }
                    assert(frame@[led_index(c, r)] == before[led_index(c, r)]);
                } else {
                    let o = c - base_column_index;
                    assert(c / 3 == character_index && c % 3 == o);
                    assert(frame@[glyph_led(base_column_index as int, o, r)] == if glyph_pixel(rows@, r, o) {
                        color
                    } else {
                        black_color
                    });
                }
            }
        }
        character_index += 1;
    }
    frame
}

/// The demonstration text "1234" in dim red, green, blue and yellow.
pub fn demo_1234() -> (shown: ([char; 4], [RGB8; 4]))
    ensures
        shown.0@ == seq!['1', '2', '3', '4'],
        shown.1@ == seq![
            RGB8 { r: 32, g: 0, b: 0 },
            RGB8 { r: 0, g: 32, b: 0 },
            RGB8 { r: 0, g: 0, b: 32 },
            RGB8 { r: 32, g: 32, b: 0 },
        ],
{
    let red = RGB8::new(32, 0, 0);
    let green = RGB8::new(0, 32, 0);
    let blue = RGB8::new(0, 0, 32);
    let yellow = RGB8::new(32, 32, 0);
    let shown = (['1', '2', '3', '4'], [red, green, blue, yellow]);
    assert(shown.0@ =~= seq!['1', '2', '3', '4']);
    assert(shown.1@ =~= seq![red, green, blue, yellow]);
    shown
}

} // verus!
