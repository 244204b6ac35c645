//! 2D frames for LED matrices built from strips: frames, pixel clipping, the
//! conversion of a frame to strip order through a mapping, font spacing, and
//! the placement of text glyphs in a frame.
//!
//! Glyphs themselves are drawn by the graphics library around the library,
//! at the positions computed here.

use vstd::prelude::*;

use crate::color::{black, white, RGB8};
use vstd::string::StrSliceExecFns;
use crate::grid::{lemma_cell_index_bounds, serpentine_column_major_index, snake};

verus! {

/// A point in frame coordinates: `x` is the column, `y` the row.
#[derive(Clone, Copy, Debug, PartialEq, Eq, Structural)]
pub struct Point {
    pub x: i32,
    pub y: i32,
}

/// A size in pixels.
#[derive(Clone, Copy, Debug, PartialEq, Eq, Structural)]
pub struct Size {
    pub width: u32,
    pub height: u32,
}

/// A full frame in row-major order: `frame.0[row][col]`.
#[derive(Clone, Copy, Debug)]
pub struct Frame<const ROWS: usize, const COLS: usize>(pub [[RGB8; COLS]; ROWS]);

/// Pixel `(c, r)` of a frame.
pub open spec fn pixel<const ROWS: usize, const COLS: usize>(frame: Frame<ROWS, COLS>, c: int, r: int) -> RGB8 {
    frame.0@[r]@[c]
}

/// Every pixel of `frame` has color `color`.
pub open spec fn all_pixels<const ROWS: usize, const COLS: usize>(frame: Frame<ROWS, COLS>, color: RGB8) -> bool {
    forall|c: int, r: int| 0 <= c < COLS && 0 <= r < ROWS ==> #[trigger] pixel(frame, c, r) == color
}

impl<const ROWS: usize, const COLS: usize> Frame<ROWS, COLS> {
    /// An all-black frame.
    pub fn new() -> (frame: Self)
        ensures
            all_pixels(frame, RGB8 { r: 0, g: 0, b: 0 }),
    {
        Self::filled(black())
    }

    /// A frame with every pixel set to `color`.
    pub fn filled(color: RGB8) -> (frame: Self)
        ensures
            all_pixels(frame, color),
    {
        let frame = Self([[color; COLS]; ROWS]);
        assert forall|c: int, r: int| 0 <= c < COLS && 0 <= r < ROWS implies #[trigger] pixel(
            frame,
            c,
            r,
        ) == color by {
            assert(frame.0@[r] == [color; COLS]);
        }
        frame
    }

    /// The size of the frame: `COLS` wide, `ROWS` high.
    pub fn size() -> (size: Size)
        ensures
            size == (Size { width: COLS as u32, height: ROWS as u32 }),
    {
        Size { width: COLS as u32, height: ROWS as u32 }
    }

    /// The top-left corner.
    pub fn top_left() -> (point: Point)
        ensures
            point == (Point { x: 0, y: 0 }),
    {
        Point { x: 0, y: 0 }
    }

    /// The top-right corner.
    pub fn top_right() -> (point: Point)
        requires
            COLS >= 1,
        ensures
            point == (Point { x: (COLS - 1) as i32, y: 0 }),
    {
        Point { x: (COLS - 1) as i32, y: 0 }
    }

    /// The bottom-left corner.
    pub fn bottom_left() -> (point: Point)
        requires
            ROWS >= 1,
        ensures
            point == (Point { x: 0, y: (ROWS - 1) as i32 }),
    {
        Point { x: 0, y: (ROWS - 1) as i32 }
    }

    /// The bottom-right corner.
    pub fn bottom_right() -> (point: Point)
        requires
            COLS >= 1,
            ROWS >= 1,
        ensures
            point == (Point { x: (COLS - 1) as i32, y: (ROWS - 1) as i32 }),
    {
        Point { x: (COLS - 1) as i32, y: (ROWS - 1) as i32 }
    }

    /// Sets pixel `(x, y)` to `color`; points outside the frame are ignored.
    pub fn draw_pixel(&mut self, x: i32, y: i32, color: RGB8)
        ensures
            forall|c: int, r: int|
                0 <= c < COLS && 0 <= r < ROWS ==> #[trigger] pixel(*final(self), c, r) == if c == x
                    && r == y {
                    color
                } else {
                    pixel(*old(self), c, r)
                },
    {
        if x >= 0 && (x as usize) < COLS && y >= 0 && (y as usize) < ROWS {
            let mut row = self.0[y as usize];
            row[x as usize] = color;
            self.0[y as usize] = row;
        }
    }
}

/// Reads a frame as its rows.
pub fn frame_rows<const ROWS: usize, const COLS: usize>(frame: Frame<ROWS, COLS>) -> (rows: [[RGB8; COLS]; ROWS])
    ensures
        rows == frame.0,
{
    frame.0
}

/// Builds a frame from its rows.
pub fn frame_from_rows<const ROWS: usize, const COLS: usize>(rows: [[RGB8; COLS]; ROWS]) -> (frame: Frame<ROWS, COLS>)
    ensures
        frame.0 == rows,
{
    Frame(rows)
}

/// Entry `row * COLS + col` is the serpentine column-major LED index of `(col, row)`.
pub open spec fn serpentine_mapping_entry(rows: int, cols: int, k: int) -> u16 {
    if 0 <= k < rows * cols {
        serpentine_column_major_index(k % cols, k / cols, rows) as u16
    } else {
        0u16
    }
}

/// The serpentine column-major mapping from row-major pixel positions to LED indexes.
pub fn serpentine_column_major_mapping<const N: usize, const ROWS: usize, const COLS: usize>() -> (mapping: [u16; N])
    requires
        ROWS * COLS <= N,
    ensures
        forall|c: int, r: int|
            0 <= c < COLS && 0 <= r < ROWS ==> #[trigger] mapping@[r * COLS + c]
                == serpentine_column_major_index(c, r, ROWS as int) as u16,
        forall|k: int| ROWS * COLS <= k < N ==> #[trigger] mapping@[k] == 0u16,
{
    let mut mapping = [0u16; N];
    let mut row_index: usize = 0;
    while row_index < ROWS
        invariant
            row_index <= ROWS,
            ROWS * COLS <= N,
            mapping@.len() == N,
            forall|c: int, r: int|
                0 <= c < COLS && 0 <= r < row_index ==> #[trigger] mapping@[r * COLS + c]
                    == serpentine_column_major_index(c, r, ROWS as int) as u16,
            forall|k: int| row_index * COLS <= k < N ==> #[trigger] mapping@[k] == 0u16,
        decreases ROWS - row_index,
    {
        let mut column_index: usize = 0;
        while column_index < COLS
            invariant
                row_index < ROWS,
                column_index <= COLS,
                ROWS * COLS <= N,
                mapping@.len() == N,
                forall|c: int, r: int|
                    (0 <= c < COLS && 0 <= r < row_index) || (0 <= c < column_index && r
                        == row_index) ==> #[trigger] mapping@[r * COLS + c]
                        == serpentine_column_major_index(c, r, ROWS as int) as u16,
                forall|k: int| row_index * COLS + column_index <= k < N ==> #[trigger] mapping@[k] == 0u16,
            decreases COLS - column_index,
        {
            proof {
                lemma_cell_index_bounds(column_index as int, row_index as int, COLS as int, ROWS as int);
                lemma_cell_index_bounds(
                    snake(row_index as int, column_index as int, ROWS as int),
                    column_index as int,
                    ROWS as int,
                    COLS as int,
                );
                assert(ROWS as int * COLS as int == COLS as int * ROWS as int) by (nonlinear_arith);
            }
            let led_index = if column_index % 2 == 0 {
                column_index * ROWS + row_index
            } else {
                column_index * ROWS + (ROWS - 1 - row_index)
            };
            let position = row_index * COLS + column_index;
            let ghost before = mapping@;
            mapping[position] = led_index as u16;
            proof {
                assert forall|c: int, r: int|
                    (0 <= c < COLS && 0 <= r < row_index) || (0 <= c < column_index + 1 && r
                        == row_index) implies #[trigger] mapping@[r * COLS + c]
                    == serpentine_column_major_index(c, r, ROWS as int) as u16 by {
                    if c != column_index || r != row_index {
                        lemma_cell_index_bounds(c, r, COLS as int, ROWS as int);
                        if r * COLS + c == position {
                            crate::grid::lemma_cell_index_injective(
                                c,
                                r,
                                column_index as int,
                                row_index as int,
                                COLS as int,
                            );
                        }
                        assert(mapping@[r * COLS + c] == before[r * COLS + c]);
                    }
                }
            }
            column_index += 1;
        }
        assert((row_index + 1) * COLS == row_index * COLS + COLS) by (nonlinear_arith);
        row_index += 1;
    }
    mapping
}

/// Row-major position of the last pixel (in row-major order) that the mapping sends
/// to LED `k`, if any.
pub open spec fn last_writer(mapping: Seq<u16>, cells: int, k: int) -> Option<int>
    decreases cells,
{
    if cells <= 0 {
        None
    } else if mapping[cells - 1] == k {
        Some(cells - 1)
    } else {
        last_writer(mapping, cells - 1, k)
    }
}

/// Strip order of a frame: LED `k` takes the pixel that the mapping sends to it (the last
/// one in row-major order if several are sent there), and stays black otherwise.
pub open spec fn converted_pixel<const ROWS: usize, const COLS: usize>(
    mapping: Seq<u16>,
    cols: int,
    frame: Frame<ROWS, COLS>,
    k: int,
) -> RGB8 {
    match last_writer(mapping, ROWS * cols, k) {
        Some(j) => pixel(frame, j % cols, j / cols),
        None => RGB8 { r: 0, g: 0, b: 0 },
    }
}

/// Converts a 2D frame into strip order: pixel `(col, row)` goes to LED
/// `mapping[row * cols + col]`.
pub fn convert_frame<const N: usize, const ROWS: usize, const COLS: usize>(
    mapping: &[u16],
    cols: usize,
    frame: &Frame<ROWS, COLS>,
) -> (pixels: [RGB8; N])
    requires
        cols == COLS,
        ROWS * COLS <= mapping@.len(),
        forall|j: int| 0 <= j < ROWS * COLS ==> (#[trigger] mapping@[j]) < N,
    ensures
        forall|k: int| 0 <= k < N ==> #[trigger] pixels@[k] == converted_pixel(mapping@, cols as int, *frame, k),
{
    let mapping_len = mapping.len();
    let mut frame_1d = [black(); N];
    let mut row_index: usize = 0;
    while row_index < ROWS
        invariant
            row_index <= ROWS,
            cols == COLS,
            ROWS * COLS <= mapping_len == mapping@.len(),
            forall|j: int| 0 <= j < ROWS * COLS ==> (#[trigger] mapping@[j]) < N,
            frame_1d@.len() == N,
            forall|k: int| 0 <= k < N ==> #[trigger] frame_1d@[k] == converted_pixel_upto(
                mapping@,
                cols as int,
                *frame,
                row_index * cols,
                k,
            ),
        decreases ROWS - row_index,
    {
        let mut column_index: usize = 0;
        while column_index < COLS
            invariant
                row_index < ROWS,
                column_index <= COLS,
                cols == COLS,
                ROWS * COLS <= mapping_len == mapping@.len(),
                forall|j: int| 0 <= j < ROWS * COLS ==> (#[trigger] mapping@[j]) < N,
                frame_1d@.len() == N,
                forall|k: int| 0 <= k < N ==> #[trigger] frame_1d@[k] == converted_pixel_upto(
                    mapping@,
                    cols as int,
                    *frame,
                    row_index * cols + column_index,
                    k,
                ),
            decreases COLS - column_index,
        {
            proof {
                lemma_cell_index_bounds(column_index as int, row_index as int, COLS as int, ROWS as int);
                assert(ROWS as int * COLS as int == COLS as int * ROWS as int) by (nonlinear_arith);
            }
            let position = row_index * cols + column_index;
            let led_index = mapping[position] as usize;
            let ghost before = frame_1d@;
            frame_1d[led_index] = frame.0[row_index][column_index];
            proof {
                assert forall|k: int| 0 <= k < N implies #[trigger] frame_1d@[k] == converted_pixel_upto(
                    mapping@,
                    cols as int,
                    *frame,
                    position + 1,
                    k,
                ) by {
                    crate::grid::lemma_cell_index_onto(position as int, COLS as int, ROWS as int);
                    crate::grid::lemma_cell_index_injective(
                        position as int % COLS as int,
                        position as int / COLS as int,
                        column_index as int,
                        row_index as int,
                        COLS as int,
                    );
                    if k != led_index {
                        assert(frame_1d@[k] == before[k]);
                    }
                }
            }
            column_index += 1;
        }
        assert((row_index + 1) * cols == row_index * cols + cols) by (nonlinear_arith);
        row_index += 1;
    }
    frame_1d
}

/// Strip order after the first `cells` pixels in row-major order have been written.
pub open spec fn converted_pixel_upto<const ROWS: usize, const COLS: usize>(
    mapping: Seq<u16>,
    cols: int,
    frame: Frame<ROWS, COLS>,
    cells: int,
    k: int,
) -> RGB8 {
    match last_writer(mapping, cells, k) {
        Some(j) => pixel(frame, j % cols, j / cols),
        None => RGB8 { r: 0, g: 0, b: 0 },
    }
}

/// Font choices for text on a 2D display. Variants whose name ends in `Trim` draw
/// with one column and one row of the glyph cell removed, packing text more tightly.
#[derive(Clone, Copy, Debug, PartialEq, Eq, Structural)]
pub enum Led2dFont {
    Font3x4Trim,
    Font4x6,
    Font3x5Trim,
    Font5x7,
    Font4x6Trim,
    Font5x8,
    Font4x7Trim,
    Font6x9,
    Font5x8Trim,
    Font6x10,
    Font5x9Trim,
    Font6x12,
    Font5x11Trim,
    Font6x13,
    Font5x12Trim,
    Font6x13Bold,
    Font5x12TrimBold,
    Font6x13Italic,
    Font5x12TrimItalic,
    Font7x13,
    Font6x12Trim,
    Font7x13Bold,
    Font6x12TrimBold,
    Font7x13Italic,
    Font6x12TrimItalic,
    Font7x14,
    Font6x13Trim,
    Font7x14Bold,
    Font6x13TrimBold,
    Font8x13,
    Font7x12Trim,
    Font8x13Bold,
    Font7x12TrimBold,
    Font8x13Italic,
    Font7x12TrimItalic,
    Font9x15,
    Font8x14Trim,
    Font9x15Bold,
    Font8x14TrimBold,
    Font9x18,
    Font8x17Trim,
    Font9x18Bold,
    Font8x17TrimBold,
    Font10x20,
    Font9x19Trim,
}

/// The trimmed font variants. `Font3x4Trim` is not one of them: its glyph cell is
/// already exactly three by four.
pub open spec fn is_trimmed(font: Led2dFont) -> bool {
    match font {
        Led2dFont::Font3x5Trim | Led2dFont::Font4x6Trim | Led2dFont::Font4x7Trim
        | Led2dFont::Font5x8Trim | Led2dFont::Font5x9Trim | Led2dFont::Font5x11Trim
        | Led2dFont::Font5x12Trim | Led2dFont::Font5x12TrimBold
        | Led2dFont::Font5x12TrimItalic | Led2dFont::Font6x12Trim
        | Led2dFont::Font6x12TrimBold | Led2dFont::Font6x12TrimItalic
        | Led2dFont::Font6x13Trim | Led2dFont::Font6x13TrimBold | Led2dFont::Font7x12Trim
        | Led2dFont::Font7x12TrimBold | Led2dFont::Font7x12TrimItalic
        | Led2dFont::Font8x14Trim | Led2dFont::Font8x14TrimBold | Led2dFont::Font8x17Trim
        | Led2dFont::Font8x17TrimBold | Led2dFont::Font9x19Trim => true,
        _ => false,
    }
}

impl Led2dFont {
    /// Columns and rows removed from each glyph cell: `(1, 1)` for trimmed variants,
    /// `(0, 0)` otherwise.
    pub fn spacing_reduction(self) -> (reduction: (i32, i32))
        ensures
            reduction == (if is_trimmed(self) { (1i32, 1i32) } else { (0i32, 0i32) }),
    {
        match self {
            Led2dFont::Font3x5Trim | Led2dFont::Font4x6Trim | Led2dFont::Font4x7Trim
            | Led2dFont::Font5x8Trim | Led2dFont::Font5x9Trim | Led2dFont::Font5x11Trim
            | Led2dFont::Font5x12Trim | Led2dFont::Font5x12TrimBold
            | Led2dFont::Font5x12TrimItalic | Led2dFont::Font6x12Trim
            | Led2dFont::Font6x12TrimBold | Led2dFont::Font6x12TrimItalic
            | Led2dFont::Font6x13Trim | Led2dFont::Font6x13TrimBold | Led2dFont::Font7x12Trim
            | Led2dFont::Font7x12TrimBold | Led2dFont::Font7x12TrimItalic
            | Led2dFont::Font8x14Trim | Led2dFont::Font8x14TrimBold | Led2dFont::Font8x17Trim
            | Led2dFont::Font8x17TrimBold | Led2dFont::Font9x19Trim => (1, 1),
            _ => (0, 0),
        }
    }
}

/// One glyph to draw: character `ch` with the left end of its baseline at `(x, y)`.
#[derive(Clone, Copy, Debug, PartialEq, Eq, Structural)]
pub struct GlyphPlacement {
    pub ch: char,
    pub x: i32,
    pub y: i32,
    pub color: RGB8,
}

/// Geometry of a text layout: horizontal and vertical advance, baseline, and the
/// frame's width and height.
pub struct TextGeometry {
    pub advance_x: int,
    pub advance_y: int,
    pub baseline: int,
    pub width: int,
    pub height: int,
}

/// The pen while laying out text: position, glyphs drawn so far, and whether the
/// text has run past the bottom of the frame.
pub struct Pen {
    pub x: int,
    pub y: int,
    pub drawn: int,
    pub done: bool,
}

/// The pen before the first character.
pub open spec fn start_pen(g: TextGeometry) -> Pen {
    Pen { x: 0, y: g.baseline, drawn: 0, done: false }
}

/// Character `ch` is drawn at the pen: the layout is still going, `ch` is not a line
/// break, and the glyph fits in the width (wider glyphs are clipped, not wrapped).
pub open spec fn draws_glyph(g: TextGeometry, pen: Pen, ch: char) -> bool {
    !pen.done && ch != '\n' && pen.x + g.advance_x <= g.width
}

/// The pen after character `ch`. A line break returns to column 0 one line lower and
/// ends the layout once the line's top would be at or below the frame's bottom.
pub open spec fn pen_step(g: TextGeometry, pen: Pen, ch: char) -> Pen {
    if pen.done {
        pen
    } else if ch == '\n' {
        let y = pen.y + g.advance_y;
        Pen { x: 0, y, drawn: pen.drawn, done: y - g.baseline >= g.height }
    } else if pen.x + g.advance_x > g.width {
        pen
    } else {
        Pen { x: pen.x + g.advance_x, y: pen.y, drawn: pen.drawn + 1, done: false }
    }
}

/// The pen after the first `n` characters of `text`.
pub open spec fn pen_after(g: TextGeometry, text: Seq<char>, n: int) -> Pen
    decreases n,
{
    if n <= 0 {
        start_pen(g)
    } else {
        pen_step(g, pen_after(g, text, n - 1), text[n - 1])
    }
}

/// Color of the `drawn`-th glyph: the colors in turn, or white when none are given.
pub open spec fn glyph_color(colors: Seq<RGB8>, drawn: int) -> RGB8 {
    if colors.len() == 0 {
        RGB8 { r: 255, g: 255, b: 255 }
    } else {
        colors[drawn % (colors.len() as int)]
    }
}

/// The glyphs drawn for the first `n` characters of `text`, in order.
pub open spec fn placements_after(g: TextGeometry, colors: Seq<RGB8>, text: Seq<char>, n: int) -> Seq<
    GlyphPlacement,
>
    decreases n,
{
    if n <= 0 {
        Seq::empty()
    } else {
        let pen = pen_after(g, text, n - 1);
        let before = placements_after(g, colors, text, n - 1);
        if draws_glyph(g, pen, text[n - 1]) {
            before.push(
                GlyphPlacement {
                    ch: text[n - 1],
                    x: pen.x as i32,
                    y: pen.y as i32,
                    color: glyph_color(colors, pen.drawn),
                },
            )
        } else {
            before
        }
    }
}

/// A value of type `i32`.
pub open spec fn fits_i32(v: int) -> bool {
    i32::MIN <= v <= i32::MAX
}

/// Laying out character `ch` at `pen` stays within `i32` arithmetic.
pub open spec fn step_fits(g: TextGeometry, pen: Pen, ch: char) -> bool {
    pen.done || if ch == '\n' {
        fits_i32(pen.y + g.advance_y) && fits_i32(pen.y + g.advance_y - g.baseline)
    } else {
        fits_i32(pen.x + g.advance_x)
    }
}

/// Laying out all of `text` stays within `i32` arithmetic.
pub open spec fn layout_fits(g: TextGeometry, text: Seq<char>) -> bool {
    forall|i: int| 0 <= i < text.len() ==> #[trigger] step_fits(g, pen_after(g, text, i), text[i])
}

/// Geometry for glyphs `glyph_width` by `glyph_height` with `baseline`, less
/// `spacing_reduction`, in a frame `COLS` wide and `ROWS` high.
pub open spec fn text_geometry(
    rows: usize,
    cols: usize,
    glyph_width: i32,
    glyph_height: i32,
    baseline: i32,
    spacing_reduction: (i32, i32),
) -> TextGeometry {
    TextGeometry {
        advance_x: glyph_width - spacing_reduction.0,
        advance_y: glyph_height - spacing_reduction.1,
        baseline: baseline as int,
        width: (cols as i32) as int,
        height: (rows as i32) as int,
    }
}

/// Once the layout has ended, later characters change neither the pen nor the glyphs.
proof fn lemma_layout_done(g: TextGeometry, colors: Seq<RGB8>, text: Seq<char>, i: int, n: int)
    requires
        0 <= i <= n,
        pen_after(g, text, i).done,
    ensures
        pen_after(g, text, n) == pen_after(g, text, i),
        placements_after(g, colors, text, n) == placements_after(g, colors, text, i),
    decreases n - i,
{
    if n > i {
        lemma_layout_done(g, colors, text, i, n - 1);
    }
}

/// How many glyphs of advance `g.advance_x` fit side by side in the width.
pub open spec fn glyphs_per_line(g: TextGeometry) -> int {
    if g.width < 0 {
        0
    } else {
        g.width / g.advance_x
    }
}

/// The glyphs of one line drawn for the first `n` characters: as many as fit.
pub open spec fn line_glyphs(g: TextGeometry, n: int) -> int {
    if n < glyphs_per_line(g) {
        n
    } else {
        glyphs_per_line(g)
    }
}

/// The `j`-th glyph of a line: character `j`, `j` advances from the left edge on the
/// baseline, in the `j`-th color.
pub open spec fn line_placement(g: TextGeometry, colors: Seq<RGB8>, text: Seq<char>, j: int) -> GlyphPlacement {
    GlyphPlacement {
        ch: text[j],
        x: (j * g.advance_x) as i32,
        y: g.baseline as i32,
        color: glyph_color(colors, j),
    }
}

/// A glyph after `m` others still fits exactly when fewer than `glyphs_per_line` are drawn.
proof fn lemma_next_fits(g: TextGeometry, m: int)
    requires
        g.advance_x > 0,
        m >= 0,
    ensures
        (m * g.advance_x + g.advance_x <= g.width) == (m < glyphs_per_line(g)),
{
    let a = g.advance_x;
    let w = g.width;
    if w >= 0 {
        let q = w / a;
        let r = w % a;
        vstd::arithmetic::div_mod::lemma_fundamental_div_mod(w, a);
        vstd::arithmetic::div_mod::lemma_mod_bound(w, a);
        assert((m * a + a <= w) == (m < q)) by (nonlinear_arith)
            requires
                a > 0,
                m >= 0,
                w == a * q + r,
                0 <= r < a,
        ;
    } else {
        assert(m * a >= 0) by (nonlinear_arith)
            requires
                a > 0,
                m >= 0,
        ;
    }
}

/// A character that is drawn adds its glyph at the pen to the glyphs before it.
proof fn lemma_placement_drawn(g: TextGeometry, colors: Seq<RGB8>, text: Seq<char>, i: int, ch: char)
    requires
        0 < i <= text.len(),
        text[i - 1] == ch,
        draws_glyph(g, pen_after(g, text, i - 1), ch),
    ensures
        ({
            let pen = pen_after(g, text, i - 1);
            let before = placements_after(g, colors, text, i - 1);
            let after = placements_after(g, colors, text, i);
            &&& after.len() == before.len() + 1
            &&& after[before.len() as int] == (GlyphPlacement {
                ch,
                x: pen.x as i32,
                y: pen.y as i32,
                color: glyph_color(colors, pen.drawn),
            })
            &&& forall|j: int| 0 <= j < before.len() ==> #[trigger] after[j] == before[j]
        }),
{
}

/// The pen and glyphs along one line: the first `line_glyphs` characters are drawn one
/// advance apart, the later ones are clipped and leave the pen where it is.
proof fn lemma_line_layout(g: TextGeometry, colors: Seq<RGB8>, text: Seq<char>, i: int)
    requires
        g.advance_x > 0,
        0 <= i <= text.len(),
        forall|j: int| 0 <= j < text.len() ==> text[j] != '\n',
    ensures
        pen_after(g, text, i) == (Pen {
            x: line_glyphs(g, i) * g.advance_x,
            y: g.baseline,
            drawn: line_glyphs(g, i),
            done: false,
        }),
        placements_after(g, colors, text, i).len() == line_glyphs(g, i),
        forall|j: int|
            0 <= j < line_glyphs(g, i) ==> #[trigger] placements_after(g, colors, text, i)[j]
                == line_placement(g, colors, text, j),
    decreases i,
{
    if g.width >= 0 {
        vstd::arithmetic::div_mod::lemma_div_pos_is_pos(g.width, g.advance_x);
    }
    assert(glyphs_per_line(g) >= 0);
    if i == 0 {
        assert(line_glyphs(g, 0) == 0);
        assert(0 * g.advance_x == 0);
    } else {
        lemma_line_layout(g, colors, text, i - 1);
        let m = line_glyphs(g, i - 1);
        let pen = pen_after(g, text, i - 1);
        let ch = text[i - 1];
        lemma_next_fits(g, m);
        assert(ch != '\n');
        let before = placements_after(g, colors, text, i - 1);
        reveal_with_fuel(placements_after, 2);
        reveal_with_fuel(pen_after, 2);
        assert(pen_after(g, text, i) == pen_step(g, pen, ch));
        if m < glyphs_per_line(g) {
            assert(draws_glyph(g, pen, ch));
            assert(line_glyphs(g, i) == m + 1);
            assert(m * g.advance_x + g.advance_x == (m + 1) * g.advance_x) by (nonlinear_arith);
            lemma_placement_drawn(g, colors, text, i, ch);
            assert(m == i - 1);
            assert forall|j: int| 0 <= j < m + 1 implies #[trigger] placements_after(g, colors, text, i)[j]
                == line_placement(g, colors, text, j) by {
                if j < m {
                    assert(placements_after(g, colors, text, i)[j] == before[j]);
                }
            }
        } else {
            assert(!draws_glyph(g, pen, ch));
            assert(line_glyphs(g, i) == m);
            assert(placements_after(g, colors, text, i) == before);
        }
    }
}

/// One line of text (no line break) is drawn from the left edge: exactly its first
/// `min(n, glyphs_per_line)` characters, the `j`-th `j` advances from the edge on the
/// baseline in the `j`-th color (white when no colors are given); later characters are
/// clipped and take no color.
pub proof fn single_line_layout(g: TextGeometry, colors: Seq<RGB8>, text: Seq<char>)
    requires
        g.advance_x > 0,
        forall|j: int| 0 <= j < text.len() ==> text[j] != '\n',
    ensures
        placements_after(g, colors, text, text.len() as int).len() == line_glyphs(g, text.len() as int),
        forall|j: int|
            0 <= j < line_glyphs(g, text.len() as int) ==> #[trigger] placements_after(
                g,
                colors,
                text,
                text.len() as int,
            )[j] == line_placement(g, colors, text, j),
{
    lemma_line_layout(g, colors, text, text.len() as int);
}

/// The pen counts exactly the glyphs drawn so far, and the `k`-th of them has color
/// `glyph_color(colors, k)`.
proof fn lemma_drawn_counts_glyphs(g: TextGeometry, colors: Seq<RGB8>, text: Seq<char>, n: int)
    requires
        0 <= n <= text.len(),
    ensures
        pen_after(g, text, n).drawn == placements_after(g, colors, text, n).len(),
        forall|k: int|
            0 <= k < placements_after(g, colors, text, n).len() ==> #[trigger] placements_after(
                g,
                colors,
                text,
                n,
            )[k].color == glyph_color(colors, k),
    decreases n,
{
    if n > 0 {
        lemma_drawn_counts_glyphs(g, colors, text, n - 1);
        let pen = pen_after(g, text, n - 1);
        let ch = text[n - 1];
        let before = placements_after(g, colors, text, n - 1);
        assert(pen_after(g, text, n) == pen_step(g, pen, ch));
        if draws_glyph(g, pen, ch) {
            lemma_placement_drawn(g, colors, text, n, ch);
            let after = placements_after(g, colors, text, n);
            assert forall|k: int| 0 <= k < after.len() implies #[trigger] after[k].color == glyph_color(
                colors,
                k,
            ) by {
                if k < before.len() {
                    assert(after[k] == before[k]);
                }
            }
        } else {
            assert(placements_after(g, colors, text, n) == before);
        }
    }
}

/// Colors cycle over all the glyphs drawn, across line breaks: the `k`-th glyph drawn in
/// the whole text has color `colors[k % colors.len()]`, or white when no colors are
/// given; a clipped character or a line break takes no color.
pub proof fn glyph_colors_cycle(g: TextGeometry, colors: Seq<RGB8>, text: Seq<char>)
    ensures
        forall|k: int|
            0 <= k < placements_after(g, colors, text, text.len() as int).len() ==> #[trigger] placements_after(
                g,
                colors,
                text,
                text.len() as int,
            )[k].color == if colors.len() == 0 {
                RGB8 { r: 255, g: 255, b: 255 }
            } else {
                colors[k % (colors.len() as int)]
            },
{
    lemma_drawn_counts_glyphs(g, colors, text, text.len() as int);
}

/// A line break keeps the count of glyphs drawn (so the color cycle goes on), moves the
/// pen to the left edge one line lower, and ends the layout once that line would start
/// at or below the bottom.
pub proof fn line_break_keeps_color_count(g: TextGeometry, pen: Pen)
    requires
        !pen.done,
    ensures
        pen_step(g, pen, '\n').drawn == pen.drawn,
        pen_step(g, pen, '\n').x == 0,
        pen_step(g, pen, '\n').y == pen.y + g.advance_y,
        pen_step(g, pen, '\n').done == (pen.y + g.advance_y - g.baseline >= g.height),
{
}

/// Lays out `text` in a frame `COLS` wide and `ROWS` high, one glyph cell per
/// character: each glyph advances the pen by the glyph width less the spacing
/// reduction, glyphs that would cross the right edge are clipped, and a line break
/// moves to the next line, ending the text once a line would start at or below the
/// bottom. The `k`-th glyph drawn takes the `k`-th color in turn, or white when
/// `colors` is empty. Positions are baseline-left corners.
pub fn text_glyph_placements<const ROWS: usize, const COLS: usize>(
    text: &str,
    glyph_width: i32,
    glyph_height: i32,
    baseline: i32,
    colors: &[RGB8],
    spacing_reduction: (i32, i32),
) -> (placements: Vec<GlyphPlacement>)
    requires
        fits_i32(glyph_width - spacing_reduction.0),
        fits_i32(glyph_height - spacing_reduction.1),
        (ROWS as i32) > 0 ==> layout_fits(
            text_geometry(ROWS, COLS, glyph_width, glyph_height, baseline, spacing_reduction),
            text@,
        ),
    ensures
        placements@ == if (ROWS as i32) <= 0 {
            Seq::<GlyphPlacement>::empty()
        } else {
            placements_after(
                text_geometry(ROWS, COLS, glyph_width, glyph_height, baseline, spacing_reduction),
                colors@,
                text@,
                text@.len() as int,
            )
        },
{
    let ghost g = text_geometry(ROWS, COLS, glyph_width, glyph_height, baseline, spacing_reduction);
    let advance_x = glyph_width - spacing_reduction.0;
    let advance_y = glyph_height - spacing_reduction.1;
    let height_limit = ROWS as i32;
    let mut placements: Vec<GlyphPlacement> = Vec::new();
    if height_limit <= 0 {
        return placements;
    }
    let width_limit = COLS as i32;
    let char_count = text.unicode_len();
    let mut x: i32 = 0;
    let mut y: i32 = baseline;
    let mut drawn: usize = 0;
    let mut i: usize = 0;
    while i < char_count
        invariant_except_break
            i <= char_count,
            char_count == text@.len(),
            g == text_geometry(ROWS, COLS, glyph_width, glyph_height, baseline, spacing_reduction),
            advance_x == g.advance_x,
            advance_y == g.advance_y,
            width_limit == g.width,
            height_limit == g.height,
            baseline == g.baseline,
            layout_fits(g, text@),
            drawn <= i,
            pen_after(g, text@, i as int) == (Pen { x: x as int, y: y as int, drawn: drawn as int, done: false }),
            placements@ == placements_after(g, colors@, text@, i as int),
        ensures
            placements@ == placements_after(g, colors@, text@, text@.len() as int),
        decreases char_count - i,
    {
        let ch = text.get_char(i);
        assert(step_fits(g, pen_after(g, text@, i as int), text@[i as int]));
        if ch == '\n' {
            x = 0;
            y = y + advance_y;
            if y - baseline >= height_limit {
                proof {
                    assert(pen_after(g, text@, i + 1).done);
                    lemma_layout_done(g, colors@, text@, i + 1, text@.len() as int);
                }
                break;
            }
        } else if x + advance_x > width_limit {
        } else {
            let color = if colors.len() == 0 {
                white()
            } else {
                colors[drawn % colors.len()]
            };
            placements.push(GlyphPlacement { ch, x, y, color });
            x = x + advance_x;
            drawn = drawn + 1;
        }
        i = i + 1;
    }
    placements
}

/// Whether laying out `text` as `text_glyph_placements` does stays within `i32`
/// arithmetic: the advances fit, and (for a frame with rows) so does every pen move.
pub fn text_layout_fits<const ROWS: usize, const COLS: usize>(
    text: &str,
    glyph_width: i32,
    glyph_height: i32,
    baseline: i32,
    spacing_reduction: (i32, i32),
) -> (fits: bool)
    ensures
        fits == (fits_i32(glyph_width - spacing_reduction.0) && fits_i32(
            glyph_height - spacing_reduction.1,
        ) && ((ROWS as i32) > 0 ==> layout_fits(
            text_geometry(ROWS, COLS, glyph_width, glyph_height, baseline, spacing_reduction),
            text@,
        ))),
{
    let ghost g = text_geometry(ROWS, COLS, glyph_width, glyph_height, baseline, spacing_reduction);
    let advance_x = glyph_width as i64 - spacing_reduction.0 as i64;
    let advance_y = glyph_height as i64 - spacing_reduction.1 as i64;
    if advance_x < i32::MIN as i64 || advance_x > i32::MAX as i64 || advance_y < i32::MIN as i64
        || advance_y > i32::MAX as i64 {
        return false;
    }
    let height_limit = ROWS as i32;
    if height_limit <= 0 {
        return true;
    }
    let width_limit = COLS as i32;
    let char_count = text.unicode_len();
    let mut x: i64 = 0;
    let mut y: i64 = baseline as i64;
    let mut drawn: usize = 0;
    let mut i: usize = 0;
    while i < char_count
        invariant_except_break
            i <= char_count,
            char_count == text@.len(),
            g == text_geometry(ROWS, COLS, glyph_width, glyph_height, baseline, spacing_reduction),
            advance_x == g.advance_x,
            advance_y == g.advance_y,
            fits_i32(advance_x as int),
            fits_i32(advance_y as int),
            width_limit == g.width,
            height_limit == g.height,
            height_limit > 0,
            baseline == g.baseline,
            fits_i32(x as int),
            fits_i32(y as int),
            drawn <= i,
            pen_after(g, text@, i as int) == (Pen { x: x as int, y: y as int, drawn: drawn as int, done: false }),
            forall|j: int| 0 <= j < i ==> #[trigger] step_fits(g, pen_after(g, text@, j), text@[j]),
        ensures
            layout_fits(g, text@),
        decreases char_count - i,
    {
        let ch = text.get_char(i);
        if ch == '\n' {
            let next_y = y + advance_y;
            if next_y < i32::MIN as i64 || next_y > i32::MAX as i64 || next_y - (baseline as i64)
                < i32::MIN as i64 || next_y - (baseline as i64) > i32::MAX as i64 {
                assert(!step_fits(g, pen_after(g, text@, i as int), text@[i as int]));
                return false;
            }
            x = 0;
            y = next_y;
            if y - (baseline as i64) >= height_limit as i64 {
                proof {
                    assert(pen_after(g, text@, i + 1).done);
                    assert forall|j: int| 0 <= j < text@.len() implies #[trigger] step_fits(
                        g,
                        pen_after(g, text@, j),
                        text@[j],
                    ) by {
                        if j > i {
                            lemma_layout_done(g, Seq::<RGB8>::empty(), text@, i + 1, j);
                        }
                    }
                }
                break;
            }
        } else {
            if x + advance_x < i32::MIN as i64 || x + advance_x > i32::MAX as i64 {
                assert(!step_fits(g, pen_after(g, text@, i as int), text@[i as int]));
                return false;
            }
            if x + advance_x <= width_limit as i64 {
                x = x + advance_x;
                drawn = drawn + 1;
            }
        }
        i = i + 1;
    }
    true
}

} // verus!
