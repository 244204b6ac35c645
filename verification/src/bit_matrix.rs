//! LED segment state for a 4-digit 7-segment display.

use vstd::prelude::*;
use vstd::std_specs::iter::IteratorSpec;

use crate::bits_to_indexes::{group_cells, groups_cells, BitsToIndexes};
use crate::error::Error;
use vstd::string::StrSliceExecFns;

use crate::led_4seg::{number_cells, number_to_cells, text_cells, text_to_cells, Leds, CELL_COUNT};

verus! {

/// Segment bits of the four cells of a 7-segment display, leftmost cell first.
#[derive(Debug, Clone, Copy)]
pub struct BitMatrix([u8; CELL_COUNT]);

impl View for BitMatrix {
    type V = Seq<u8>;

    closed spec fn view(&self) -> Seq<u8> {
        self.0@
    }
}

impl BitMatrix {
    /// The cells grouped by the segments they light. Four cells always fit, so this never
    /// fails.
    pub fn bits_to_indexes(&self) -> (result: Result<BitsToIndexes, Error>)
        ensures
            result matches Ok(grouped) && groups_cells(grouped@, self@, 4),
    {
        Ok(group_cells(&self.0))
    }

    /// The cells given bit by bit.
    pub fn new(bits: [u8; CELL_COUNT]) -> (matrix: Self)
        ensures
            matrix@ == bits@,
    {
        Self(bits)
    }

    /// The same bits in every cell.
    pub fn from_bits(bits: u8) -> (matrix: Self)
        ensures
            matrix@ == seq![bits, bits, bits, bits],
    {
        let matrix = Self([bits; CELL_COUNT]);
        assert(matrix@ =~= seq![bits, bits, bits, bits]);
        matrix
    }

    /// The cells, leftmost first.
    pub fn iter(&self) -> (cells: core::slice::Iter<'_, u8>)
        ensures
            IteratorSpec::remaining(&cells) == self@.as_ref(),
    {
        self.0.iter()
    }

    /// The cells, leftmost first, for changing in place.
    pub fn iter_mut(&mut self) -> (cells: core::slice::IterMut<'_, u8>) {
        self.0.iter_mut()
    }

    /// The bits of cell `index`.
    pub fn cell(&self, index: usize) -> (bits: u8)
        requires
            index < CELL_COUNT,
        ensures
            bits == self@[index as int],
    {
        self.0[index]
    }

    /// One character per cell; characters outside ASCII are blank.
    pub fn from_chars(chars: &[char; CELL_COUNT]) -> (matrix: Self)
        ensures
            matrix@ == text_cells(Leds::ASCII_TABLE@, chars@),
    {
        Self::new(text_to_cells(&Leds::ASCII_TABLE, chars))
    }

    /// `number` written right-aligned over `padding`. If it has more than four digits,
    /// only the last four are shown and every decimal point is lit.
    pub fn from_number(number: u16, padding: u8) -> (matrix: Self)
        ensures
            matrix@ == number_cells(number, padding),
    {
        Self::new(number_to_cells(number, padding))
    }

    /// Adds `rhs` to the bits of every cell.
    pub fn bitor_assign(&mut self, rhs: u8)
        ensures
            final(self)@ == old(self)@.map_values(|bits: u8| bits | rhs),
    {
        let mut i: usize = 0;
        while i < CELL_COUNT
            invariant
                0 <= i <= CELL_COUNT,
                self.0@.len() == CELL_COUNT,
                old(self).0@.len() == CELL_COUNT,
                forall|j: int| 0 <= j < i ==> #[trigger] self.0@[j] == old(self).0@[j] | rhs,
                forall|j: int| i <= j < CELL_COUNT ==> #[trigger] self.0@[j] == old(self).0@[j],
            decreases CELL_COUNT - i,
        {
            self.0[i] = self.0[i] | rhs;
            i += 1;
        }
        assert(self@ =~= old(self)@.map_values(|bits: u8| bits | rhs));
    }
}

impl Default for BitMatrix {
    fn default() -> (matrix: Self)
        ensures
            matrix@ == seq![0u8, 0u8, 0u8, 0u8],
    {
        let matrix = Self([0; CELL_COUNT]);
        assert(matrix@ =~= seq![0u8, 0u8, 0u8, 0u8]);
        matrix
    }
}

impl core::ops::Index<usize> for BitMatrix {
    type Output = u8;

    fn index(&self, index: usize) -> (bits: &u8)
        ensures
            *bits == self@[index as int],
    {
        &self.0[index as usize]
    }
}

impl vstd::std_specs::core::IndexSpecImpl<usize> for BitMatrix {
    open spec fn index_req(&self, index: &usize) -> bool {
        (*index as int) < 4
    }
}

/// Cells parsed from text: one ASCII character per cell, blank cells after the end of the
/// text, and every decimal point lit when the text is longer than four bytes.
pub open spec fn parsed_cells(input: Seq<char>, byte_len: nat) -> Seq<u8> {
    Seq::new(
        4,
        |i: int|
            (if i < input.len() {
                Leds::ASCII_TABLE@[input[i] as int]
            } else {
                0u8
            }) | (if byte_len > 4 {
                Leds::DECIMAL
            } else {
                0u8
            }),
    )
}

/// One of the first four characters lies outside ASCII.
pub open spec fn has_non_ascii_prefix(input: Seq<char>) -> bool {
    exists|i: int| 0 <= i < 4 && i < input.len() && (input[i] as int) >= 128
}

impl BitMatrix {
    /// Parses up to four characters into the cells. If the text is longer than four bytes,
    /// the decimal points are turned on. Fails when one of the first four characters is
    /// outside ASCII.
    pub fn from_str(input: &str) -> (parsed: Result<Self, ()>)
        ensures
            parsed is Err <==> has_non_ascii_prefix(input@),
            parsed matches Ok(matrix) ==> matrix@ == parsed_cells(
                input@,
                input.len() as nat,
            ),
    {
        let char_count = input.unicode_len();
        let mut cells = [0u8; CELL_COUNT];
        let mut i: usize = 0;
        while i < CELL_COUNT && i < char_count
            invariant
                0 <= i <= CELL_COUNT,
                char_count == input@.len(),
                i <= char_count,
                cells@.len() == CELL_COUNT,
                forall|j: int| 0 <= j < i ==> (input@[j] as int) < 128,
                forall|j: int|
                    0 <= j < i ==> #[trigger] cells@[j] == Leds::ASCII_TABLE@[input@[j] as int],
                forall|j: int| i <= j < CELL_COUNT ==> #[trigger] cells@[j] == 0u8,
            decreases CELL_COUNT - i,
        {
            let code = input.get_char(i) as u32;
            if code >= 128 {
                return Err(());
            }
            cells[i] = Leds::ASCII_TABLE[code as usize];
            i += 1;
        }
        let long = input.len() > CELL_COUNT;
        let mut matrix = Self(cells);
        if long {
            matrix.bitor_assign(Leds::DECIMAL);
        }
        proof {
            let expected = parsed_cells(input@, input.len() as nat);
            assert forall|j: int| 0 <= j < 4 implies #[trigger] matrix@[j] == expected[j] by {
                let b = cells@[j];
                assert(b | 0u8 == b) by (bit_vector);
                if long {
                    assert(matrix@[j] == b | Leds::DECIMAL);
                } else {
                    assert(matrix@[j] == b);
                }
                let part: u8 = if j < input@.len() {
                    Leds::ASCII_TABLE@[input@[j] as int]
                } else {
                    0u8
                };
                if j < i {
                    assert(b == Leds::ASCII_TABLE@[input@[j] as int]);
                    assert(j < input@.len());
                } else {
                    assert(b == 0u8);
                    assert(j >= input@.len());
                }
                assert(b == part);
            }
            assert(matrix@ =~= expected);
        }
        Ok(matrix)
    }
}

} // verus!
