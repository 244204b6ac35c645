//! Internal 3×4 pixel font for LED matrix displays.
//!
//! Each glyph is four rows of three bits; bit 2 is the leftmost column.

use vstd::prelude::*;

verus! {

/// Four rows of three pixels, top row first; bit 2 is the leftmost column.
pub type GlyphRows = [u8; 4];

/// The glyphs of the printable ASCII characters `' '..='~'`, by code point minus 32.
/// Lowercase letters share the glyphs of the uppercase ones.
pub const PRINTABLE_GLYPHS: [[u8; 4]; 95] = [
        [0b000, 0b000, 0b000, 0b000], //  
        [0b010, 0b010, 0b010, 0b010], // !
        [0b101, 0b101, 0b000, 0b000], // "
        [0b101, 0b111, 0b111, 0b101], // #
        [0b010, 0b111, 0b010, 0b111], // $
        [0b100, 0b001, 0b010, 0b001], // %
        [0b010, 0b101, 0b010, 0b101], // &
        [0b010, 0b010, 0b000, 0b000], // '
        [0b010, 0b100, 0b100, 0b010], // (
        [0b010, 0b001, 0b001, 0b010], // )
        [0b101, 0b010, 0b101, 0b000], // *
        [0b010, 0b111, 0b010, 0b000], // +
        [0b000, 0b000, 0b010, 0b100], // ,
        [0b000, 0b000, 0b111, 0b000], // -
        [0b000, 0b000, 0b000, 0b010], // .
        [0b001, 0b010, 0b100, 0b000], // /
        [0b111, 0b101, 0b101, 0b111], // 0
        [0b010, 0b110, 0b010, 0b111], // 1
        [0b110, 0b001, 0b010, 0b111], // 2
        [0b111, 0b001, 0b011, 0b111], // 3
        [0b101, 0b101, 0b111, 0b001], // 4
        [0b111, 0b100, 0b011, 0b111], // 5
        [0b100, 0b111, 0b101, 0b111], // 6
        [0b111, 0b001, 0b010, 0b100], // 7
        [0b111, 0b101, 0b010, 0b111], // 8
        [0b111, 0b101, 0b111, 0b001], // 9
        [0b010, 0b000, 0b010, 0b000], // :
        [0b010, 0b000, 0b010, 0b100], // ;
        [0b001, 0b010, 0b100, 0b010], // <
        [0b000, 0b111, 0b000, 0b111], // =
        [0b100, 0b010, 0b001, 0b010], // >
        [0b111, 0b001, 0b010, 0b010], // ?
        [0b111, 0b101, 0b111, 0b100], // @
        [0b111, 0b101, 0b111, 0b101], // A
        [0b110, 0b111, 0b101, 0b110], // B
        [0b111, 0b100, 0b100, 0b111], // C
        [0b110, 0b101, 0b101, 0b110], // D
        [0b111, 0b110, 0b100, 0b111], // E
        [0b111, 0b110, 0b100, 0b100], // F
        [0b111, 0b100, 0b101, 0b111], // G
        [0b101, 0b111, 0b101, 0b101], // H
        [0b111, 0b010, 0b010, 0b111], // I
        [0b001, 0b001, 0b101, 0b111], // J
        [0b101, 0b110, 0b101, 0b101], // K
        [0b100, 0b100, 0b100, 0b111], // L
        [0b111, 0b111, 0b101, 0b101], // M
        [0b111, 0b111, 0b111, 0b101], // N
        [0b111, 0b101, 0b101, 0b111], // O
        [0b110, 0b111, 0b110, 0b100], // P
        [0b111, 0b101, 0b111, 0b001], // Q
        [0b110, 0b111, 0b110, 0b101], // R
        [0b111, 0b110, 0b011, 0b111], // S
        [0b111, 0b010, 0b010, 0b010], // T
        [0b101, 0b101, 0b101, 0b111], // U
        [0b101, 0b101, 0b101, 0b010], // V
        [0b101, 0b101, 0b111, 0b111], // W
        [0b101, 0b010, 0b010, 0b101], // X
        [0b101, 0b010, 0b010, 0b010], // Y
        [0b111, 0b001, 0b010, 0b111], // Z
        [0b110, 0b100, 0b100, 0b110], // [
        [0b100, 0b010, 0b001, 0b000], // backslash
        [0b011, 0b001, 0b001, 0b011], // ]
        [0b010, 0b101, 0b000, 0b000], // ^
        [0b000, 0b000, 0b000, 0b111], // _
        [0b010, 0b001, 0b000, 0b000], // `
        [0b111, 0b101, 0b111, 0b101], // a
        [0b110, 0b111, 0b101, 0b110], // b
        [0b111, 0b100, 0b100, 0b111], // c
        [0b110, 0b101, 0b101, 0b110], // d
        [0b111, 0b110, 0b100, 0b111], // e
        [0b111, 0b110, 0b100, 0b100], // f
        [0b111, 0b100, 0b101, 0b111], // g
        [0b101, 0b111, 0b101, 0b101], // h
        [0b111, 0b010, 0b010, 0b111], // i
        [0b001, 0b001, 0b101, 0b111], // j
        [0b101, 0b110, 0b101, 0b101], // k
        [0b100, 0b100, 0b100, 0b111], // l
        [0b111, 0b111, 0b101, 0b101], // m
        [0b111, 0b111, 0b111, 0b101], // n
        [0b111, 0b101, 0b101, 0b111], // o
        [0b110, 0b111, 0b110, 0b100], // p
        [0b111, 0b101, 0b111, 0b001], // q
        [0b110, 0b111, 0b110, 0b101], // r
        [0b111, 0b110, 0b011, 0b111], // s
        [0b111, 0b010, 0b010, 0b010], // t
        [0b101, 0b101, 0b101, 0b111], // u
        [0b101, 0b101, 0b101, 0b010], // v
        [0b101, 0b101, 0b111, 0b111], // w
        [0b101, 0b010, 0b010, 0b101], // x
        [0b101, 0b010, 0b010, 0b010], // y
        [0b111, 0b001, 0b010, 0b111], // z
        [0b011, 0b010, 0b010, 0b011], // {
        [0b010, 0b010, 0b010, 0b010], // |
        [0b110, 0b010, 0b010, 0b110], // }
        [0b000, 0b101, 0b010, 0b000], // ~
];

/// The glyph of an ASCII byte: the printable characters have their own glyph, the rest is blank.
pub open spec fn glyph_spec(byte: u8) -> Seq<u8> {
    if 32 <= byte <= 126 {
        PRINTABLE_GLYPHS@[byte - 32]@
    } else {
        seq![0u8, 0u8, 0u8, 0u8]
    }
}

/// Look up the 3×4 rows for an ASCII character; characters outside ASCII are blank.
pub fn glyph_rows(character: char) -> (rows: GlyphRows)
    ensures
        (character as u32) <= 0x7F ==> rows@ == glyph_spec(character as u8),
        (character as u32) > 0x7F ==> rows@ == seq![0u8, 0u8, 0u8, 0u8],
{
    let code_point = character as u32;
    if code_point <= 0x7F {
        glyph_for(code_point as u8)
    } else {
        let rows = Glyphs::BLANK;
        assert(rows@ =~= seq![0u8, 0u8, 0u8, 0u8]);
        rows
    }
}

/// The rows of an ASCII byte.
pub fn glyph_for(byte: u8) -> (rows: GlyphRows)
    ensures
        rows@ == glyph_spec(byte),
        97 <= byte <= 122 ==> rows@ == glyph_spec((byte - 32) as u8),
{
    let rows = match byte {
        32 => Glyphs::BLANK,  // b' '
        33 => Glyphs::EXCLAMATION,  // b'!'
        34 => Glyphs::DOUBLE_QUOTE,  // b'"'
        35 => Glyphs::HASH,  // b'#'
        36 => Glyphs::DOLLAR,  // b'$'
        37 => Glyphs::PERCENT,  // b'%'
        38 => Glyphs::AMPERSAND,  // b'&'
        39 => Glyphs::APOSTROPHE,  // b'\''
        40 => Glyphs::LEFT_PAREN,  // b'('
        41 => Glyphs::RIGHT_PAREN,  // b')'
        42 => Glyphs::ASTERISK,  // b'*'
        43 => Glyphs::PLUS,  // b'+'
        44 => Glyphs::COMMA,  // b','
        45 => Glyphs::DASH,  // b'-'
        46 => Glyphs::DOT,  // b'.'
        47 => Glyphs::SLASH,  // b'/'
        48 => Glyphs::DIGIT_0,  // b'0'
        49 => Glyphs::DIGIT_1,  // b'1'
        50 => Glyphs::DIGIT_2,  // b'2'
        51 => Glyphs::DIGIT_3,  // b'3'
        52 => Glyphs::DIGIT_4,  // b'4'
        53 => Glyphs::DIGIT_5,  // b'5'
        54 => Glyphs::DIGIT_6,  // b'6'
        55 => Glyphs::DIGIT_7,  // b'7'
        56 => Glyphs::DIGIT_8,  // b'8'
        57 => Glyphs::DIGIT_9,  // b'9'
        58 => Glyphs::COLON,  // b':'
        59 => Glyphs::SEMICOLON,  // b';'
        60 => Glyphs::LESS_THAN,  // b'<'
        61 => Glyphs::EQUALS,  // b'='
        62 => Glyphs::GREATER_THAN,  // b'>'
        63 => Glyphs::QUESTION,  // b'?'
        64 => Glyphs::AT,  // b'@'
        65 | 97 => Glyphs::A,  // b'A' | b'a'
        66 | 98 => Glyphs::B,  // b'B' | b'b'
        67 | 99 => Glyphs::C,  // b'C' | b'c'
        68 | 100 => Glyphs::D,  // b'D' | b'd'
        69 | 101 => Glyphs::E,  // b'E' | b'e'
        70 | 102 => Glyphs::F,  // b'F' | b'f'
        71 | 103 => Glyphs::G,  // b'G' | b'g'
        72 | 104 => Glyphs::H,  // b'H' | b'h'
        73 | 105 => Glyphs::I,  // b'I' | b'i'
        74 | 106 => Glyphs::J,  // b'J' | b'j'
        75 | 107 => Glyphs::K,  // b'K' | b'k'
        76 | 108 => Glyphs::L,  // b'L' | b'l'
        77 | 109 => Glyphs::M,  // b'M' | b'm'
        78 | 110 => Glyphs::N,  // b'N' | b'n'
        79 | 111 => Glyphs::O,  // b'O' | b'o'
        80 | 112 => Glyphs::P,  // b'P' | b'p'
        81 | 113 => Glyphs::Q,  // b'Q' | b'q'
        82 | 114 => Glyphs::R,  // b'R' | b'r'
        83 | 115 => Glyphs::S,  // b'S' | b's'
        84 | 116 => Glyphs::T,  // b'T' | b't'
        85 | 117 => Glyphs::U,  // b'U' | b'u'
        86 | 118 => Glyphs::V,  // b'V' | b'v'
        87 | 119 => Glyphs::W,  // b'W' | b'w'
        88 | 120 => Glyphs::X,  // b'X' | b'x'
        89 | 121 => Glyphs::Y,  // b'Y' | b'y'
        90 | 122 => Glyphs::Z,  // b'Z' | b'z'
        91 => Glyphs::LEFT_BRACKET,  // b'['
        92 => Glyphs::BACKSLASH,  // b'backslash'
        93 => Glyphs::RIGHT_BRACKET,  // b']'
        94 => Glyphs::CARET,  // b'^'
        95 => Glyphs::UNDERSCORE,  // b'_'
        96 => Glyphs::GRAVE,  // b'`'
        123 => Glyphs::LEFT_BRACE,  // b'{'
        124 => Glyphs::BAR,  // b'|'
        125 => Glyphs::RIGHT_BRACE,  // b'}'
        126 => Glyphs::TILDE,  // b'~'
        _ => Glyphs::BLANK,
    };
    assert(rows@ =~= glyph_spec(byte));
    rows
}

/// Named glyphs of the font.
pub struct Glyphs;

impl Glyphs {
    pub const BLANK: GlyphRows = [0, 0, 0, 0];
    pub const EXCLAMATION: GlyphRows = [0b010, 0b010, 0b010, 0b010];
    pub const DOUBLE_QUOTE: GlyphRows = [0b101, 0b101, 0b000, 0b000];
    pub const HASH: GlyphRows = [0b101, 0b111, 0b111, 0b101];
    pub const DOLLAR: GlyphRows = [0b010, 0b111, 0b010, 0b111];
    pub const PERCENT: GlyphRows = [0b100, 0b001, 0b010, 0b001];
    pub const AMPERSAND: GlyphRows = [0b010, 0b101, 0b010, 0b101];
    pub const APOSTROPHE: GlyphRows = [0b010, 0b010, 0b000, 0b000];
    pub const LEFT_PAREN: GlyphRows = [0b010, 0b100, 0b100, 0b010];
    pub const RIGHT_PAREN: GlyphRows = [0b010, 0b001, 0b001, 0b010];
    pub const ASTERISK: GlyphRows = [0b101, 0b010, 0b101, 0b000];
    pub const PLUS: GlyphRows = [0b010, 0b111, 0b010, 0b000];
    pub const COMMA: GlyphRows = [0b000, 0b000, 0b010, 0b100];
    pub const DASH: GlyphRows = [0b000, 0b000, 0b111, 0b000];
    pub const DOT: GlyphRows = [0b000, 0b000, 0b000, 0b010];
    pub const SLASH: GlyphRows = [0b001, 0b010, 0b100, 0b000];
    pub const DIGIT_0: GlyphRows = [0b111, 0b101, 0b101, 0b111];
    pub const DIGIT_1: GlyphRows = [0b010, 0b110, 0b010, 0b111];
    pub const DIGIT_2: GlyphRows = [0b110, 0b001, 0b010, 0b111];
    pub const DIGIT_3: GlyphRows = [0b111, 0b001, 0b011, 0b111];
    pub const DIGIT_4: GlyphRows = [0b101, 0b101, 0b111, 0b001];
    pub const DIGIT_5: GlyphRows = [0b111, 0b100, 0b011, 0b111];
    pub const DIGIT_6: GlyphRows = [0b100, 0b111, 0b101, 0b111];
    pub const DIGIT_7: GlyphRows = [0b111, 0b001, 0b010, 0b100];
    pub const DIGIT_8: GlyphRows = [0b111, 0b101, 0b010, 0b111];
    pub const DIGIT_9: GlyphRows = [0b111, 0b101, 0b111, 0b001];
    pub const COLON: GlyphRows = [0b010, 0b000, 0b010, 0b000];
    pub const SEMICOLON: GlyphRows = [0b010, 0b000, 0b010, 0b100];
    pub const LESS_THAN: GlyphRows = [0b001, 0b010, 0b100, 0b010];
    pub const EQUALS: GlyphRows = [0b000, 0b111, 0b000, 0b111];
    pub const GREATER_THAN: GlyphRows = [0b100, 0b010, 0b001, 0b010];
    pub const QUESTION: GlyphRows = [0b111, 0b001, 0b010, 0b010];
    pub const AT: GlyphRows = [0b111, 0b101, 0b111, 0b100];
    pub const A: GlyphRows = [0b111, 0b101, 0b111, 0b101];
    pub const B: GlyphRows = [0b110, 0b111, 0b101, 0b110];
    pub const C: GlyphRows = [0b111, 0b100, 0b100, 0b111];
    pub const D: GlyphRows = [0b110, 0b101, 0b101, 0b110];
    pub const E: GlyphRows = [0b111, 0b110, 0b100, 0b111];
    pub const F: GlyphRows = [0b111, 0b110, 0b100, 0b100];
    pub const G: GlyphRows = [0b111, 0b100, 0b101, 0b111];
    pub const H: GlyphRows = [0b101, 0b111, 0b101, 0b101];
    pub const I: GlyphRows = [0b111, 0b010, 0b010, 0b111];
    pub const J: GlyphRows = [0b001, 0b001, 0b101, 0b111];
    pub const K: GlyphRows = [0b101, 0b110, 0b101, 0b101];
    pub const L: GlyphRows = [0b100, 0b100, 0b100, 0b111];
    pub const M: GlyphRows = [0b111, 0b111, 0b101, 0b101];
    pub const N: GlyphRows = [0b111, 0b111, 0b111, 0b101];
    pub const O: GlyphRows = [0b111, 0b101, 0b101, 0b111];
    pub const P: GlyphRows = [0b110, 0b111, 0b110, 0b100];
    pub const Q: GlyphRows = [0b111, 0b101, 0b111, 0b001];
    pub const R: GlyphRows = [0b110, 0b111, 0b110, 0b101];
    pub const S: GlyphRows = [0b111, 0b110, 0b011, 0b111];
    pub const T: GlyphRows = [0b111, 0b010, 0b010, 0b010];
    pub const U: GlyphRows = [0b101, 0b101, 0b101, 0b111];
    pub const V: GlyphRows = [0b101, 0b101, 0b101, 0b010];
    pub const W: GlyphRows = [0b101, 0b101, 0b111, 0b111];
    pub const X: GlyphRows = [0b101, 0b010, 0b010, 0b101];
    pub const Y: GlyphRows = [0b101, 0b010, 0b010, 0b010];
    pub const Z: GlyphRows = [0b111, 0b001, 0b010, 0b111];
    pub const LEFT_BRACKET: GlyphRows = [0b110, 0b100, 0b100, 0b110];
    pub const BACKSLASH: GlyphRows = [0b100, 0b010, 0b001, 0b000];
    pub const RIGHT_BRACKET: GlyphRows = [0b011, 0b001, 0b001, 0b011];
    pub const CARET: GlyphRows = [0b010, 0b101, 0b000, 0b000];
    pub const UNDERSCORE: GlyphRows = [0b000, 0b000, 0b000, 0b111];
    pub const GRAVE: GlyphRows = [0b010, 0b001, 0b000, 0b000];
    pub const LEFT_BRACE: GlyphRows = [0b011, 0b010, 0b010, 0b011];
    pub const BAR: GlyphRows = [0b010, 0b010, 0b010, 0b010];
    pub const RIGHT_BRACE: GlyphRows = [0b110, 0b010, 0b010, 0b110];
    pub const TILDE: GlyphRows = [0b000, 0b101, 0b010, 0b000];
}

} // verus!
