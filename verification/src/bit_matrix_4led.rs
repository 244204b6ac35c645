//! LED segment state for a 4-digit 7-segment display.

use vstd::prelude::*;
use vstd::std_specs::iter::IteratorSpec;

use crate::bits_to_indexes::{group_cells, groups_cells, BitsToIndexes};
use crate::error::Error;

use crate::led_4seg::{number_cells, number_to_cells, text_cells, text_to_cells, Leds, CELL_COUNT};

verus! {

/// Segment bits of the four cells of a 7-segment display, leftmost cell first.
#[derive(Debug, Clone, Copy)]
pub struct BitMatrix4Led([u8; CELL_COUNT]);

impl View for BitMatrix4Led {
    type V = Seq<u8>;

    closed spec fn view(&self) -> Seq<u8> {
        self.0@
    }
}

impl BitMatrix4Led {
    /// Groups the cells by the segments they light, replacing what `bits_to_index` held.
    /// Four cells always fit, so this never fails.
    pub fn bits_to_indexes(&self, bits_to_index: &mut BitsToIndexes) -> (result: Result<(), Error>)
        ensures
            result is Ok,
            groups_cells(final(bits_to_index)@, self@, 4),
    {
        *bits_to_index = group_cells(&self.0);
        Ok(())
    }

    /// The cells given bit by bit.
    pub fn new(bits: [u8; CELL_COUNT]) -> (matrix: Self)
        ensures
            matrix@ == bits@,
    {
        Self(bits)
    }

    /// The same bits in every cell.
    pub fn from_bits(bits: u8) -> (matrix: Self)
        ensures
            matrix@ == seq![bits, bits, bits, bits],
    {
        let matrix = Self([bits; CELL_COUNT]);
        assert(matrix@ =~= seq![bits, bits, bits, bits]);
        matrix
    }

    /// The cells, leftmost first.
    pub fn iter(&self) -> (cells: core::slice::Iter<'_, u8>)
        ensures
            IteratorSpec::remaining(&cells) == self@.as_ref(),
    {
        self.0.iter()
    }

    /// The cells, leftmost first, for changing in place.
    pub fn iter_mut(&mut self) -> (cells: core::slice::IterMut<'_, u8>) {
        self.0.iter_mut()
    }

    /// The bits of cell `index`.
    pub fn cell(&self, index: usize) -> (bits: u8)
        requires
            index < CELL_COUNT,
        ensures
            bits == self@[index as int],
    {
        self.0[index]
    }

    /// One character per cell; characters outside ASCII are blank.
    pub fn from_text(text: &[char; CELL_COUNT]) -> (matrix: Self)
        ensures
            matrix@ == text_cells(Leds::ASCII_TABLE@, text@),
    {
        Self::new(text_to_cells(&Leds::ASCII_TABLE, text))
    }

    /// `number` written right-aligned over `padding`. If it has more than four digits,
    /// only the last four are shown and every decimal point is lit.
    pub fn from_number(number: u16, padding: u8) -> (matrix: Self)
        ensures
            matrix@ == number_cells(number, padding),
    {
        Self::new(number_to_cells(number, padding))
    }

    /// Adds `rhs` to the bits of every cell.
    pub fn bitor_assign(&mut self, rhs: u8)
        ensures
            final(self)@ == old(self)@.map_values(|bits: u8| bits | rhs),
    {
        let mut i: usize = 0;
        while i < CELL_COUNT
            invariant
                0 <= i <= CELL_COUNT,
                self.0@.len() == CELL_COUNT,
                old(self).0@.len() == CELL_COUNT,
                forall|j: int| 0 <= j < i ==> #[trigger] self.0@[j] == old(self).0@[j] | rhs,
                forall|j: int| i <= j < CELL_COUNT ==> #[trigger] self.0@[j] == old(self).0@[j],
            decreases CELL_COUNT - i,
        {
            self.0[i] = self.0[i] | rhs;
            i += 1;
        }
        assert(self@ =~= old(self)@.map_values(|bits: u8| bits | rhs));
    }
}

impl Default for BitMatrix4Led {
    fn default() -> (matrix: Self)
        ensures
            matrix@ == seq![0u8, 0u8, 0u8, 0u8],
    {
        let matrix = Self([0; CELL_COUNT]);
        assert(matrix@ =~= seq![0u8, 0u8, 0u8, 0u8]);
        matrix
    }
}

impl core::ops::Index<usize> for BitMatrix4Led {
    type Output = u8;

    fn index(&self, index: usize) -> (bits: &u8)
        ensures
            *bits == self@[index as int],
    {
        &self.0[index as usize]
    }
}

impl vstd::std_specs::core::IndexSpecImpl<usize> for BitMatrix4Led {
    open spec fn index_req(&self, index: &usize) -> bool {
        (*index as int) < 4
    }
}

} // verus!
