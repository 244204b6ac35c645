//! Shared definitions for 4-digit 7-segment displays: the segment bit patterns of
//! digits and ASCII characters, and the conversions of text and numbers into the
//! four cells of a display.

use vstd::prelude::*;

verus! {

/// Number of digits (cells) in the display, as a `u8`.
pub const CELL_COUNT_U8: u8 = 4;

/// Number of digits (cells) in the display.
pub const CELL_COUNT: usize = 4;

/// Number of segments per digit, decimal point included.
pub const SEGMENT_COUNT: usize = 8;

/// Time each digit group stays lit while multiplexing, in µs.
pub const MULTIPLEX_SLEEP: u64 = 3_000;

/// Time a blinking display stays dark, in µs.
pub const BLINK_OFF_DELAY: u64 = 50_000;

/// Time a blinking display stays lit, in µs.
pub const BLINK_ON_DELAY: u64 = 150_000;

/// Four characters, one per cell.
pub type Text = [char; CELL_COUNT];

/// Segment bit patterns of a 7-segment display (bit 0 = segment A, bit 7 = decimal point).
pub struct Leds;

impl Leds {
    /// Segment A of the 7-segment display.
    pub const SEG_A: u8 = 0b_0000_0001;
    /// Segment B of the 7-segment display.
    pub const SEG_B: u8 = 0b_0000_0010;
    /// Segment C of the 7-segment display.
    pub const SEG_C: u8 = 0b_0000_0100;
    /// Segment D of the 7-segment display.
    pub const SEG_D: u8 = 0b_0000_1000;
    /// Segment E of the 7-segment display.
    pub const SEG_E: u8 = 0b_0001_0000;
    /// Segment F of the 7-segment display.
    pub const SEG_F: u8 = 0b_0010_0000;
    /// Segments of the digits 0 to 9.
    pub const DIGITS: [u8; 10] = [
        0b_0011_1111, // Digit 0
        0b_0000_0110, // Digit 1
        0b_0101_1011, // Digit 2
        0b_0100_1111, // Digit 3
        0b_0110_0110, // Digit 4
        0b_0110_1101, // Digit 5
        0b_0111_1101, // Digit 6
        0b_0000_0111, // Digit 7
        0b_0111_1111, // Digit 8
        0b_0110_1111, // Digit 9
    ];
    /// Decimal point of the 7-segment display.
    pub const DECIMAL: u8 = 0b_1000_0000;
    /// Segments of each ASCII character.
    pub const ASCII_TABLE: [u8; 128] = [
        // Control characters (0-31) + space (32)
        0b_0000_0000,
        0b_0000_0000,
        0b_0000_0000,
        0b_0000_0000,
        0b_0000_0000,
        0b_0000_0000,
        0b_0000_0000,
        0b_0000_0000,
        0b_0000_0000,
        0b_0000_0000,
        0b_0000_0000,
        0b_0000_0000,
        0b_0000_0000,
        0b_0000_0000,
        0b_0000_0000,
        0b_0000_0000,
        0b_0000_0000,
        0b_0000_0000,
        0b_0000_0000,
        0b_0000_0000,
        0b_0000_0000,
        0b_0000_0000,
        0b_0000_0000,
        0b_0000_0000,
        0b_0000_0000,
        0b_0000_0000,
        0b_0000_0000,
        0b_0000_0000,
        0b_0000_0000,
        0b_0000_0000,
        0b_0000_0000,
        0b_0000_0000,
        0b_0000_0000,
        // Symbols (33-47)
        0b_1000_0110,              // !
        Self::SEG_A | Self::SEG_B, // "
        0b_0000_0000,              // #
        0b_0000_0000,              // $
        0b_0000_0000,              // %
        0b_0000_0000,              // &
        Self::SEG_A,               // '
        Self::SEG_A | Self::SEG_F, // (
        Self::SEG_C | Self::SEG_D, // )
        Self::SEG_D | Self::SEG_E, // *
        0b_0000_0000,              // +
        0b_0000_0000,              // ,
        0b_0100_0000,              // -
        0b_1000_0000,              // .
        0b_0000_0000,              // /
        // Numbers (48-57)
        0b_0011_1111, // 0
        0b_0000_0110, // 1
        0b_0101_1011, // 2
        0b_0100_1111, // 3
        0b_0110_0110, // 4
        0b_0110_1101, // 5
        0b_0111_1101, // 6
        0b_0000_0111, // 7
        0b_0111_1111, // 8
        0b_0110_1111, // 9
        // Symbols (58-64)
        0b_0000_0000,              // :
        0b_0000_0000,              // ;
        Self::SEG_E | Self::SEG_F, // <
        0b_0000_0000,              // =
        Self::SEG_B | Self::SEG_C, // >
        0b_0000_0000,              // ?
        0b_0000_0000,              // @
        // Uppercase letters (65-90)
        0b_0111_0111, // A
        0b_0111_1100, // B
        0b_0011_1001, // C
        0b_0101_1110, // D
        0b_0111_1001, // E
        0b_0111_0001, // F
        0b_0011_1101, // G
        0b_0111_0110, // H
        0b_0000_0110, // I
        0b_0001_1110, // J
        0b_0111_0110, // K
        0b_0011_1000, // L
        0b_0001_0101, // M
        0b_0101_0100, // N
        0b_0011_1111, // O
        0b_0111_0011, // P
        0b_0110_0111, // Q
        0b_0101_0000, // R
        0b_0110_1101, // S
        0b_0111_1000, // T
        0b_0011_1110, // U
        0b_0010_1010, // V
        0b_0001_1101, // W
        0b_0111_0110, // X
        0b_0110_1110, // Y
        0b_0101_1011, // Z
        // Symbols (91-96)
        0b_0011_1001, // [
        0b_0000_0000, // \
        0b_0000_1111, // ]
        0b_0000_0000, // ^
        0b_0000_1000, // _
        0b_0000_0000, // `
        // Lowercase letters (97-122)
        0b_0111_0111, // a
        0b_0111_1100, // b
        0b_0011_1001, // c
        0b_0101_1110, // d
        0b_0111_1001, // e
        0b_0111_0001, // f
        0b_0011_1101, // g
        0b_0111_0100, // h
        0b_0000_0110, // i
        0b_0001_1110, // j
        0b_0111_0110, // k
        0b_0011_1000, // l
        0b_0001_0101, // m
        0b_0101_0100, // n
        0b_0011_1111, // o
        0b_0111_0011, // p
        0b_0110_0111, // q
        0b_0101_0000, // r
        0b_0110_1101, // s
        0b_0111_1000, // t
        0b_0011_1110, // u
        0b_0010_1010, // v
        0b_0001_1101, // w
        0b_0111_0110, // x
        0b_0110_1110, // y
        0b_0101_1011, // z
        // Symbols (123-127)
        0b_0011_1001, // {
        0b_0000_0110, // |
        0b_0000_1111, // }
        0b_0100_0000, // ~
        0b_0000_0000, // delete
    ];
}

/// Segments of the ASCII character `c` in `table`; characters outside ASCII are blank.
pub open spec fn char_segments(table: Seq<u8>, c: char) -> u8 {
    if (c as int) < 128 {
        table[c as int]
    } else {
        0
    }
}

/// `10^k` for `k` in `0..=4`.
pub open spec fn pow10(k: int) -> int {
    if k <= 0 {
        1
    } else if k == 1 {
        10
    } else if k == 2 {
        100
    } else if k == 3 {
        1000
    } else {
        10000
    }
}

/// Cell `i` (0 = leftmost) of `number` written right-aligned over `padding`: the digit
/// of weight `10^(3 - i)` when the number has that many digits, the padding otherwise;
/// every cell gets the decimal point when the number has more than four digits.
pub open spec fn number_cell(number: u16, padding: u8, i: int) -> u8 {
    let k = 3 - i;
    let base: u8 = if k == 0 || number >= pow10(k) {
        Leds::DIGITS@[(number as int / pow10(k)) % 10]
    } else {
        padding
    };
    if number > 9999 {
        base | Leds::DECIMAL
    } else {
        base
    }
}

/// The four cells of `number` written right-aligned over `padding`.
pub open spec fn number_cells(number: u16, padding: u8) -> Seq<u8> {
    Seq::new(4, |i: int| number_cell(number, padding, i))
}

/// The four cells of `text`, one character per cell.
pub open spec fn text_cells(table: Seq<u8>, text: Seq<char>) -> Seq<u8> {
    Seq::new(4, |i: int| char_segments(table, text[i]))
}

/// Segments of `c` in `table`, blank outside ASCII.
pub fn char_to_segments(table: &[u8; 128], c: char) -> (bits: u8)
    ensures
        bits == char_segments(table@, c),
{
    let code = c as u32;
    if code < 128 {
        table[code as usize]
    } else {
        0
    }
}

/// One cell per character of `text`.
pub fn text_to_cells(table: &[u8; 128], text: &[char; 4]) -> (cells: [u8; 4])
    ensures
        cells@ == text_cells(table@, text@),
{
    let cells = [
        char_to_segments(table, text[0]),
        char_to_segments(table, text[1]),
        char_to_segments(table, text[2]),
        char_to_segments(table, text[3]),
    ];
    assert(cells@ =~= text_cells(table@, text@));
    cells
}

/// `number` written right-aligned over `padding`; all decimal points lit when it has more
/// than four digits.
pub fn number_to_cells(number: u16, padding: u8) -> (cells: [u8; 4])
    ensures
        cells@ == number_cells(number, padding),
{
    let mut cells = [padding; 4];
    let mut rest = number;
    let mut written: usize = 0;
    while written < 4 && (written == 0 || rest > 0)
        invariant
            0 <= written <= 4,
            cells@.len() == 4,
            rest == number as int / pow10(written as int),
            forall|i: int|
                4 - written <= i < 4 ==> #[trigger] cells@[i] == Leds::DIGITS@[(number as int / pow10(
                    3 - i,
                )) % 10],
            forall|i: int| 0 <= i < 4 - written ==> #[trigger] cells@[i] == padding,
            forall|i: int|
                4 - written <= i < 4 ==> 3 - i == 0 || number >= #[trigger] pow10(3 - i),
        decreases 4 - written,
    {
        let index = 3 - written;
        proof {
            if written > 0 {
                let p = pow10(written as int);
                assert(number >= p) by (nonlinear_arith)
                    requires
                        p > 0,
                        number as int / p > 0,
                        number >= 0,
                ;
            }
        }
        cells[index] = Leds::DIGITS[(rest % 10) as usize];
        proof {
            vstd::arithmetic::div_mod::lemma_div_denominator(
                number as int,
                pow10(written as int),
                10,
            );
        }
        rest = rest / 10;
        written += 1;
    }
    let ghost before = cells@;
    if rest > 0 {
        let mut i: usize = 0;
        while i < 4
            invariant
                0 <= i <= 4,
                cells@.len() == 4,
                before.len() == 4,
                forall|j: int| 0 <= j < i ==> #[trigger] cells@[j] == before[j] | Leds::DECIMAL,
                forall|j: int| i <= j < 4 ==> #[trigger] cells@[j] == before[j],
            decreases 4 - i,
        {
            cells[i] = cells[i] | Leds::DECIMAL;
            i += 1;
        }
    }
    proof {
        assert(rest > 0 <==> number > 9999);
        assert forall|i: int| 0 <= i < 4 implies #[trigger] cells@[i] == number_cell(
            number,
            padding,
            i,
        ) by {
            if 4 - written <= i {
                assert(3 - i == 0 || number >= pow10(3 - i));
            } else {
                let p = pow10(written as int);
                assert(number < p) by (nonlinear_arith)
                    requires
                        p > 0,
                        number as int / p == 0,
                        number >= 0,
                ;
                assert(p <= pow10(3 - i));
            }
        }
        assert(cells@ =~= number_cells(number, padding));
    }
    cells
}

/// What one round of the display loop shows for `text` in blink state `blink_state`,
/// and for how long: solid text until the next command (the loop then waits for one
/// more), the lit half of a blink for 150 ms, the dark half (all cells blank) for 50 ms.
pub fn led_4seg_round(
    blink_state: crate::blinker_4led::BlinkState4Led,
    text: [char; CELL_COUNT],
) -> (round: (crate::bit_matrix_4led::BitMatrix4Led, Option<u64>))
    ensures
        round.0@ == match blink_state {
            crate::blinker_4led::BlinkState4Led::BlinkingButOff => seq![0u8, 0u8, 0u8, 0u8],
            _ => text_cells(Leds::ASCII_TABLE@, text@),
        },
        round.1 == match blink_state {
            crate::blinker_4led::BlinkState4Led::Solid => None::<u64>,
            crate::blinker_4led::BlinkState4Led::BlinkingAndOn => Some(BLINK_ON_DELAY),
            crate::blinker_4led::BlinkState4Led::BlinkingButOff => Some(BLINK_OFF_DELAY),
        },
{
    match blink_state {
        crate::blinker_4led::BlinkState4Led::Solid => (
            crate::bit_matrix_4led::BitMatrix4Led::from_text(&text),
            None,
        ),
        crate::blinker_4led::BlinkState4Led::BlinkingAndOn => (
            crate::bit_matrix_4led::BitMatrix4Led::from_text(&text),
            Some(BLINK_ON_DELAY),
        ),
        crate::blinker_4led::BlinkState4Led::BlinkingButOff => (
            crate::bit_matrix_4led::BitMatrix4Led::new([0u8, 0u8, 0u8, 0u8]),
            Some(BLINK_OFF_DELAY),
        ),
    }
}

} // verus!
