//! Arrays of output pins: which pin levels a segment pattern sets, and which pins of a
//! list of indexes exist.

use vstd::prelude::*;

use crate::error::Error;

verus! {

/// Pin `i` of an 8-pin array goes high exactly when bit `i` of `bits` is set.
pub open spec fn segment_level(bits: u8, i: int) -> bool {
    (bits >> (i as u8)) & 1 == 1
}

/// The levels (high = `true`) of the eight segment pins for the pattern `bits`: pin `i`
/// follows bit `i`, segment A on pin 0.
pub fn segment_levels(bits: u8) -> (levels: [bool; 8])
    ensures
        forall|i: int| 0 <= i < 8 ==> #[trigger] levels@[i] == segment_level(bits, i),
{
    let mut levels = [false; 8];
    let mut remaining = bits;
    let mut i: usize = 0;
    assert(bits >> 0u8 == bits) by (bit_vector);
    while i < 8
        invariant
            i <= 8,
            levels@.len() == 8,
            remaining == bits >> (i as u8),
            forall|j: int| 0 <= j < i ==> #[trigger] levels@[j] == segment_level(bits, j),
        decreases 8 - i,
    {
        levels[i] = (remaining & 1) == 1;
        assert(levels@[i as int] == segment_level(bits, i as int));
        let ghost shift = i as u8;
        assert((bits >> shift) >> 1u8 == bits >> ((shift + 1) as u8)) by (bit_vector)
            requires
                shift < 8,
        ;
        remaining = remaining >> 1u8;
        i += 1;
    }
    levels
}

/// The pins set for `indexes` in an array of `n` pins: the indexes in order up to the
/// first one outside the array, and `IndexOutOfBounds` if there is one.
pub open spec fn first_missing(indexes: Seq<u8>, n: int) -> int
    decreases indexes.len(),
{
    if indexes.len() == 0 {
        0
    } else if indexes[0] >= n {
        0
    } else {
        1 + first_missing(indexes.drop_first(), n)
    }
}

/// The pins to set for `indexes` in an array of `n` pins, in order, stopping at the first
/// index outside the array; the error tells whether one was met.
pub fn pins_to_set(indexes: &[u8], n: usize) -> (plan: (Vec<usize>, Result<(), Error>))
    ensures
        plan.0@.len() <= indexes@.len(),
        forall|j: int| 0 <= j < plan.0@.len() ==> #[trigger] plan.0@[j] == indexes@[j] && plan.0@[j] < n,
        plan.1 is Ok <==> plan.0@.len() == indexes@.len(),
        plan.1 is Err ==> plan.1 == Err::<(), Error>(Error::IndexOutOfBounds) && indexes@[plan.0@.len() as int]
            >= n,
{
    let mut pins: Vec<usize> = Vec::new();
    let mut j: usize = 0;
    while j < indexes.len()
        invariant
            j <= indexes@.len(),
            pins@.len() == j,
            forall|k: int| 0 <= k < j ==> #[trigger] pins@[k] == indexes@[k] && pins@[k] < n,
        decreases indexes@.len() - j,
    {
        let index = indexes[j] as usize;
        if index >= n {
            return (pins, Err(Error::IndexOutOfBounds));
        }
        pins.push(index);
        j += 1;
    }
    (pins, Ok(()))
}

} // verus!
