//! Cells of a seven-segment display grouped by the segments they light, so that cells
//! showing the same pattern can be lit together while multiplexing.

use vstd::prelude::*;

use core::num::NonZeroU8;
use heapless::LinearMap;

verus! {

/// Number of groups the map holds: one per cell at most.
pub const GROUP_CAPACITY: usize = 4;

/// Groups of cells by their segment pattern, held in heapless's `LinearMap` from each
/// nonzero pattern to the cells (leftmost 0) that show it. Blank cells belong to no
/// group.
#[verifier::external_body]
#[derive(Debug)]
pub struct BitsToIndexes {
    map: LinearMap<NonZeroU8, heapless::Vec<u8, 4>, 4>,
}

/// What the map holds: its (pattern, cells) pairs in the map's order. The map keeps its
/// pairs in a buffer: a new pattern is appended and a known pattern is replaced in place.
pub uninterp spec fn bits_to_indexes_entries(groups: BitsToIndexes) -> Seq<(u8, Seq<u8>)>;

impl View for BitsToIndexes {
    type V = Seq<(u8, Seq<u8>)>;

    open spec fn view(&self) -> Seq<(u8, Seq<u8>)> {
        bits_to_indexes_entries(*self)
    }
}

/// Pattern `bits` is the key of pair `k` of `entries` and of no pair before it.
pub open spec fn first_key_at(entries: Seq<(u8, Seq<u8>)>, bits: u8, k: int) -> bool {
    &&& 0 <= k < entries.len()
    &&& entries[k].0 == bits
    &&& forall|j: int| 0 <= j < k ==> entries[j].0 != bits
}

/// Some pair of `entries` has key `bits`.
pub open spec fn has_key(entries: Seq<(u8, Seq<u8>)>, bits: u8) -> bool {
    exists|k: int| 0 <= k < entries.len() && entries[k].0 == bits
}

/// An empty map.
///
/// Calls `LinearMap::new`, which starts with an empty buffer.
#[verifier::external_body]
fn map_new() -> (groups: BitsToIndexes)
    ensures
        bits_to_indexes_entries(groups) == Seq::<(u8, Seq<u8>)>::empty(),
{
    BitsToIndexes { map: LinearMap::new() }
}

/// The number of pairs.
///
/// Calls `LinearMap::len`, the length of its buffer.
#[verifier::external_body]
fn map_len(groups: &BitsToIndexes) -> (n: usize)
    ensures
        n == bits_to_indexes_entries(*groups).len(),
{
    groups.map.len()
}

/// Pair `k` in the map's order.
///
/// Calls `LinearMap::iter`, which walks its buffer in order, and takes the `k`-th pair.
#[verifier::external_body]
fn map_entry(groups: &BitsToIndexes, k: usize) -> (entry: (u8, Vec<u8>))
    requires
        k < bits_to_indexes_entries(*groups).len(),
    ensures
        entry.0 == bits_to_indexes_entries(*groups)[k as int].0,
        entry.1@ == bits_to_indexes_entries(*groups)[k as int].1,
{
    let (bits, indexes) = groups.map.iter().nth(k).unwrap();
    (bits.get(), indexes.to_vec())
}

/// The cells stored for pattern `bits`.
///
/// Calls `LinearMap::get`, which returns the value of the first pair with that key, or
/// `None` when no pair has it.
#[verifier::external_body]
fn map_get(groups: &BitsToIndexes, bits: u8) -> (indexes: Option<Vec<u8>>)
    requires
        bits != 0,
    ensures
        indexes is None <==> !has_key(bits_to_indexes_entries(*groups), bits),
        indexes matches Some(found) ==> exists|k: int|
            first_key_at(bits_to_indexes_entries(*groups), bits, k) && found@ == bits_to_indexes_entries(
                *groups,
            )[k].1,
{
    groups.map.get(&NonZeroU8::new(bits).unwrap()).map(|found| found.to_vec())
}

/// Stores `indexes` for pattern `bits`; `false` when the map is full and `bits` is new.
///
/// Calls `LinearMap::insert`: the first pair with key `bits` gets the new value in place;
/// otherwise the pair is appended, unless the buffer already holds `GROUP_CAPACITY`
/// pairs, in which case the map is left as it was and the pair is handed back.
#[verifier::external_body]
fn map_insert(groups: &mut BitsToIndexes, bits: u8, indexes: &Vec<u8>) -> (inserted: bool)
    requires
        bits != 0,
        indexes.len() <= 4,
    ensures
        has_key(bits_to_indexes_entries(*old(groups)), bits) ==> inserted && exists|k: int|
            first_key_at(bits_to_indexes_entries(*old(groups)), bits, k) && bits_to_indexes_entries(
                *final(groups),
            ) == bits_to_indexes_entries(*old(groups)).update(k, (bits, indexes@)),
        !has_key(bits_to_indexes_entries(*old(groups)), bits) && bits_to_indexes_entries(
            *old(groups),
        ).len() < GROUP_CAPACITY ==> inserted && bits_to_indexes_entries(*final(groups))
            == bits_to_indexes_entries(*old(groups)).push((bits, indexes@)),
        !has_key(bits_to_indexes_entries(*old(groups)), bits) && bits_to_indexes_entries(
            *old(groups),
        ).len() >= GROUP_CAPACITY ==> !inserted && bits_to_indexes_entries(*final(groups))
            == bits_to_indexes_entries(*old(groups)),
{
    let value = heapless::Vec::from_slice(indexes).unwrap();
    groups.map.insert(NonZeroU8::new(bits).unwrap(), value).is_ok()
}

/// The cells among the first `n` of `cells` that show `bits`, in increasing order.
pub open spec fn indexes_upto(cells: Seq<u8>, bits: u8, n: int) -> Seq<u8>
    decreases n,
{
    if n <= 0 {
        Seq::empty()
    } else if cells[n - 1] == bits {
        indexes_upto(cells, bits, n - 1).push((n - 1) as u8)
    } else {
        indexes_upto(cells, bits, n - 1)
    }
}

/// `groups` groups the first `n` of `cells`: one group per pattern that a non-blank cell
/// shows, holding exactly the cells that show it, in the order patterns first appear.
pub open spec fn groups_cells(groups: Seq<(u8, Seq<u8>)>, cells: Seq<u8>, n: int) -> bool {
    &&& forall|k: int|
        0 <= k < groups.len() ==> #[trigger] groups[k].0 != 0 && groups[k].1 == indexes_upto(
            cells,
            groups[k].0,
            n,
        ) && groups[k].1.len() > 0
    &&& forall|k1: int, k2: int|
        0 <= k1 < k2 < groups.len() ==> #[trigger] groups[k1].0 != #[trigger] groups[k2].0
            && groups[k1].1[0] < groups[k2].1[0]
    &&& forall|i: int|
        0 <= i < n && #[trigger] cells[i] != 0 ==> exists|k: int| 0 <= k < groups.len() && groups[k].0 == cells[i]
}

/// A pattern shown by none of the first `n` cells has no cells.
proof fn lemma_indexes_absent(cells: Seq<u8>, bits: u8, n: int)
    requires
        0 <= n <= cells.len(),
        forall|i: int| 0 <= i < n ==> cells[i] != bits,
    ensures
        indexes_upto(cells, bits, n) == Seq::<u8>::empty(),
    decreases n,
{
    if n > 0 {
        lemma_indexes_absent(cells, bits, n - 1);
    }
}

/// Cells listed for a pattern lie below `n`.
proof fn lemma_indexes_below(cells: Seq<u8>, bits: u8, n: int)
    requires
        0 <= n <= 255,
    ensures
        forall|j: int| 0 <= j < indexes_upto(cells, bits, n).len() ==> #[trigger] indexes_upto(cells, bits, n)[j] < n,
    decreases n,
{
    if n > 0 {
        lemma_indexes_below(cells, bits, n - 1);
        let previous = indexes_upto(cells, bits, n - 1);
        let current = indexes_upto(cells, bits, n);
        assert forall|j: int| 0 <= j < current.len() implies #[trigger] current[j] < n by {
            if j < previous.len() {
                assert(current[j] == previous[j]);
            } else {
                assert(current[j] == (n - 1) as u8);
            }
        }
    }
}

impl BitsToIndexes {
    /// No groups.
    pub fn new() -> (groups: Self)
        ensures
            groups@ == Seq::<(u8, Seq<u8>)>::empty(),
    {
        map_new()
    }

    /// The number of groups.
    pub fn len(&self) -> (n: usize)
        ensures
            n == self@.len(),
    {
        map_len(self)
    }

    /// The pattern of group `k`.
    pub fn bits(&self, k: usize) -> (bits: u8)
        requires
            k < self@.len(),
        ensures
            bits == self@[k as int].0,
    {
        map_entry(self, k).0
    }

    /// The cells of group `k`.
    pub fn indexes(&self, k: usize) -> (indexes: Vec<u8>)
        requires
            k < self@.len(),
        ensures
            indexes@ == self@[k as int].1,
    {
        map_entry(self, k).1
    }

    /// The cells showing pattern `bits`, if some group has it; never any for the blank
    /// pattern 0, which no group has.
    pub fn get(&self, bits: u8) -> (indexes: Option<Vec<u8>>)
        ensures
            indexes is Some <==> bits != 0 && has_key(self@, bits),
            indexes matches Some(found) ==> exists|k: int|
                first_key_at(self@, bits, k) && found@ == self@[k].1,
    {
        if bits == 0 {
            return None;
        }
        let indexes = map_get(self, bits);
        proof {
            if let Some(found) = &indexes {
                let k = choose|k: int|
                    first_key_at(bits_to_indexes_entries(*self), bits, k) && found@ == bits_to_indexes_entries(
                        *self,
                    )[k].1;
                assert(first_key_at(self@, bits, k) && found@ == self@[k].1);
            }
        }
        indexes
    }
}

/// A pattern has at most as many of the first `n` cells as there are.
proof fn lemma_indexes_len(cells: Seq<u8>, bits: u8, n: int)
    requires
        0 <= n,
    ensures
        indexes_upto(cells, bits, n).len() <= n,
    decreases n,
{
    if n > 0 {
        lemma_indexes_len(cells, bits, n - 1);
    }
}

/// Groups four cells by the segments they light.
pub fn group_cells(cells: &[u8; 4]) -> (grouped: BitsToIndexes)
    ensures
        groups_cells(grouped@, cells@, 4),
        grouped@.len() <= 4,
{
    let mut grouped = BitsToIndexes::new();
    let mut n: usize = 0;
    while n < 4
        invariant
            n <= 4,
            groups_cells(grouped@, cells@, n as int),
            grouped@.len() <= n,
        decreases 4 - n,
    {
        let bits = cells[n];
        if bits != 0 {
            let ghost before = grouped@;
            proof {
                lemma_indexes_below(cells@, bits, n as int);
                lemma_indexes_len(cells@, bits, n as int);
            }
            let existing = grouped.get(bits);
            if let Some(mut indexes) = existing {
                let ghost k = choose|k: int| first_key_at(before, bits, k) && indexes@ == before[k].1;
                assert(before[k].1 == indexes_upto(cells@, bits, n as int));
                indexes.push(n as u8);
                let inserted = map_insert(&mut grouped, bits, &indexes);
                proof {
                    assert(inserted);
                    let k2 = choose|k2: int|
                        first_key_at(before, bits, k2) && grouped@ == before.update(k2, (bits, indexes@));
                    assert(k2 == k) by {
                        if k2 < k {
                            assert(before[k2].0 == bits);
                        } else if k < k2 {
                            assert(before[k].0 == bits);
                        }
                    }
                    let after = grouped@;
                    assert(after =~= before.update(k, (bits, before[k].1.push(n as u8))));
                    assert forall|j: int| 0 <= j < after.len() implies #[trigger] after[j].0 != 0 && after[j].1
                        == indexes_upto(cells@, after[j].0, n + 1) && after[j].1.len() > 0 by {
                        if j != k {
                            assert(before[j].0 != bits) by {
                                if before[j].0 == bits {
                                    if j < k {
                                    } else {
                                        assert(before[k].0 != before[j].0);
                                    }
                                }
                            }
                        }
                    }
                    assert forall|k1: int, k3: int|
                        0 <= k1 < k3 < after.len() implies #[trigger] after[k1].0 != #[trigger] after[k3].0
                        && after[k1].1[0] < after[k3].1[0] by {
                        assert(before[k1].0 != before[k3].0);
                        assert(before[k1].1[0] < before[k3].1[0]);
                        assert(after[k1].1[0] == before[k1].1[0]);
                        assert(after[k3].1[0] == before[k3].1[0]);
                    }
                    assert forall|i: int| 0 <= i < n + 1 && #[trigger] cells@[i] != 0 implies exists|j: int|
                        0 <= j < after.len() && after[j].0 == cells@[i] by {
                        if i == n {
                            assert(after[k].0 == cells@[i]);
                        } else {
                            let j = choose|j: int| 0 <= j < before.len() && before[j].0 == cells@[i];
                            assert(after[j].0 == cells@[i]);
                        }
                    }
                }
            } else {
                let mut indexes: Vec<u8> = Vec::new();
                indexes.push(n as u8);
                let inserted = map_insert(&mut grouped, bits, &indexes);
                proof {
                    assert(inserted);
                    let after = grouped@;
                    assert(after =~= before.push((bits, seq![n as u8])));
                    assert forall|i: int| 0 <= i < n implies cells@[i] != bits by {
                        if cells@[i] == bits {
                            assert(cells@[i] != 0);
                            let j = choose|j: int| 0 <= j < before.len() && before[j].0 == cells@[i];
                            assert(before[j].0 == bits);
                        }
                    }
                    lemma_indexes_absent(cells@, bits, n as int);
                    assert(indexes_upto(cells@, bits, n + 1) =~= seq![n as u8]);
                    assert forall|j: int| 0 <= j < after.len() implies #[trigger] after[j].0 != 0 && after[j].1
                        == indexes_upto(cells@, after[j].0, n + 1) && after[j].1.len() > 0 by {
                        if j < before.len() {
                            assert(before[j].0 != bits);
                        }
                    }
                    assert forall|k1: int, k2: int|
                        0 <= k1 < k2 < after.len() implies #[trigger] after[k1].0 != #[trigger] after[k2].0
                        && after[k1].1[0] < after[k2].1[0] by {
                        if k2 < before.len() {
                            assert(before[k1].0 != before[k2].0 && before[k1].1[0] < before[k2].1[0]);
                        } else {
                            assert(before[k1].0 != bits);
                            assert(before[k1].1 == indexes_upto(cells@, before[k1].0, n as int));
                            lemma_indexes_below(cells@, before[k1].0, n as int);
                            assert(before[k1].1[0] < n);
                        }
                    }
                    assert forall|i: int| 0 <= i < n + 1 && #[trigger] cells@[i] != 0 implies exists|j: int|
                        0 <= j < after.len() && after[j].0 == cells@[i] by {
                        if i == n {
                            assert(after[before.len() as int].0 == cells@[i]);
                        } else {
                            let j = choose|j: int| 0 <= j < before.len() && before[j].0 == cells@[i];
                            assert(after[j].0 == cells@[i]);
                        }
                    }
                }
            }
        } else {
            proof {
                let g = grouped@;
                assert forall|j: int| 0 <= j < g.len() implies #[trigger] g[j].0 != 0 && g[j].1
                    == indexes_upto(cells@, g[j].0, n + 1) && g[j].1.len() > 0 by {
                }
            }
        }
        n += 1;
    }
    grouped
}

} // verus!
