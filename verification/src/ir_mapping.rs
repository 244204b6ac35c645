//! Mapping decoded IR remote codes (address and command) to the buttons of a remote.

use vstd::prelude::*;

verus! {

/// The codes a remote's buttons send and the button each code means, in the order the
/// pairs were given.
pub struct ButtonMap<B, const N: usize> {
    entries: Vec<((u16, u8), B)>,
}

/// The map built from the first `n` pairs of `pairs` into a map holding at most `capacity`
/// codes: a code already present takes the later button, a new code is added while there
/// is room and dropped once the map is full.
pub open spec fn map_after<B>(pairs: Seq<(u16, u8, B)>, n: int, capacity: int) -> Map<(u16, u8), B>
    decreases n,
{
    if n <= 0 {
        Map::empty()
    } else {
        let map = map_after(pairs, n - 1, capacity);
        let (addr, cmd, button) = pairs[n - 1];
        if map.dom().contains((addr, cmd)) || map.dom().len() < capacity {
            map.insert((addr, cmd), button)
        } else {
            map
        }
    }
}

/// The map that a list of (code, button) entries stands for.
pub open spec fn entries_map<B>(entries: Seq<((u16, u8), B)>) -> Map<(u16, u8), B>
    decreases entries.len(),
{
    if entries.len() == 0 {
        Map::empty()
    } else {
        entries_map(entries.drop_last()).insert(entries.last().0, entries.last().1)
    }
}

/// No code occurs twice.
pub open spec fn distinct_codes<B>(entries: Seq<((u16, u8), B)>) -> bool {
    forall|i: int, j: int| 0 <= i < j < entries.len() ==> #[trigger] entries[i].0 != #[trigger] entries[j].0
}

/// With distinct codes, the map holds exactly the listed codes, each with its button.
proof fn lemma_entries_map<B>(entries: Seq<((u16, u8), B)>)
    requires
        distinct_codes(entries),
    ensures
        forall|j: int| 0 <= j < entries.len() ==> #[trigger] entries_map(entries).dom().contains(entries[j].0)
            && entries_map(entries)[entries[j].0] == entries[j].1,
        forall|key: (u16, u8)| #[trigger] entries_map(entries).dom().contains(key) ==> exists|j: int|
            0 <= j < entries.len() && entries[j].0 == key,
        entries_map(entries).dom().finite(),
        entries_map(entries).dom().len() == entries.len(),
    decreases entries.len(),
{
    if entries.len() > 0 {
        let rest = entries.drop_last();
        lemma_entries_map(rest);
        let last = entries.last();
        assert forall|j: int| 0 <= j < rest.len() implies rest[j].0 != last.0 by {
            assert(entries[j].0 != entries[entries.len() - 1].0);
        }
        assert(!entries_map(rest).dom().contains(last.0)) by {
            if entries_map(rest).dom().contains(last.0) {
                let j = choose|j: int| 0 <= j < rest.len() && rest[j].0 == last.0;
            }
        }
        assert forall|j: int| 0 <= j < entries.len() implies #[trigger] entries_map(entries).dom().contains(
            entries[j].0,
        ) && entries_map(entries)[entries[j].0] == entries[j].1 by {
            if j < rest.len() {
                assert(entries[j] == rest[j]);
            }
        }
        assert forall|key: (u16, u8)| #[trigger] entries_map(entries).dom().contains(key) implies exists|j: int|
            0 <= j < entries.len() && entries[j].0 == key by {
            if key != last.0 {
                let j = choose|j: int| 0 <= j < rest.len() && rest[j].0 == key;
                assert(entries[j] == rest[j]);
            } else {
                assert(entries[entries.len() - 1].0 == key);
            }
        }
    }
}

impl<B: Copy, const N: usize> ButtonMap<B, N> {
    /// The code-to-button map.
    pub closed spec fn view_map(&self) -> Map<(u16, u8), B> {
        entries_map(self.entries@)
    }

    /// The stored codes are distinct.
    pub closed spec fn wf(&self) -> bool {
        distinct_codes(self.entries@)
    }

    /// The map of `pairs` (address, command, button), as [`map_after`] describes for a map
    /// of `N` codes.
    pub fn new(pairs: &[(u16, u8, B)]) -> (map: Self)
        ensures
            map.wf(),
            map.view_map() == map_after(pairs@, pairs@.len() as int, N as int),
    {
        let mut map = ButtonMap::<B, N> { entries: Vec::new() };
        let mut n: usize = 0;
        while n < pairs.len()
            invariant
                n <= pairs@.len(),
                distinct_codes(map.entries@),
                map.entries@.len() <= N,
                entries_map(map.entries@) == map_after(pairs@, n as int, N as int),
            decreases pairs@.len() - n,
        {
            let (addr, cmd, button) = pairs[n];
            let ghost before = map.entries@;
            proof {
                lemma_entries_map(before);
            }
            let mut i: usize = 0;
            let mut found = false;
            while i < map.entries.len()
                invariant_except_break
                    !found,
                    forall|j: int| 0 <= j < i ==> map.entries@[j].0 != (addr, cmd),
                invariant
                    i <= map.entries@.len(),
                    map.entries@ == before,
                ensures
                    found ==> i < map.entries@.len() && map.entries@[i as int].0 == (addr, cmd),
                    !found ==> forall|j: int| 0 <= j < map.entries@.len() ==> map.entries@[j].0 != (addr, cmd),
                decreases map.entries@.len() - i,
            {
                if map.entries[i].0.0 == addr && map.entries[i].0.1 == cmd {
                    assert(map.entries@[i as int].0 == (addr, cmd));
                    found = true;
                    break;
                }
                i += 1;
            }
            if found {
                map.entries.set(i, ((addr, cmd), button));
                proof {
                    let after = map.entries@;
                    assert(distinct_codes(after)) by {
                        assert forall|a: int, b: int| 0 <= a < b < after.len() implies #[trigger] after[a].0
                            != #[trigger] after[b].0 by {
                            assert(before[a].0 != before[b].0);
                        }
                    }
                    lemma_entries_map(after);
                    let expected = entries_map(before).insert((addr, cmd), button);
                    assert(entries_map(after).dom() =~= expected.dom()) by {
                        assert forall|key: (u16, u8)| entries_map(after).dom().contains(key) implies expected.dom().contains(key) by {
                            let j = choose|j: int| 0 <= j < after.len() && after[j].0 == key;
                            if j != i {
                                assert(before[j].0 == key);
                            }
                        }
                        assert forall|key: (u16, u8)| expected.dom().contains(key) implies entries_map(after).dom().contains(key) by {
                            if key != (addr, cmd) {
                                let j = choose|j: int| 0 <= j < before.len() && before[j].0 == key;
                                assert(after[j].0 == key);
                            } else {
                                assert(after[i as int].0 == key);
                            }
                        }
                    }
                    assert forall|key: (u16, u8)| #[trigger] entries_map(after).dom().contains(key) implies entries_map(after)[key]
                        == expected[key] by {
                        let j = choose|j: int| 0 <= j < after.len() && after[j].0 == key;
                        if j != i {
                            assert(before[j].0 == key);
                        }
                    }
                    assert(entries_map(after) =~= expected);
                    assert(entries_map(before).dom().contains((addr, cmd))) by {
                        assert(before[i as int].0 == (addr, cmd));
                    }
                }
            } else if map.entries.len() < N {
                map.entries.push(((addr, cmd), button));
                proof {
                    let after = map.entries@;
                    assert(after.drop_last() =~= before);
                    assert(distinct_codes(after)) by {
                        assert forall|a: int, b: int| 0 <= a < b < after.len() implies #[trigger] after[a].0
                            != #[trigger] after[b].0 by {
                            if b < before.len() {
                                assert(before[a].0 != before[b].0);
                            } else {
                                assert(before[a].0 != (addr, cmd));
                            }
                        }
                    }
                    assert(!entries_map(before).dom().contains((addr, cmd))) by {
                        if entries_map(before).dom().contains((addr, cmd)) {
                            let j = choose|j: int| 0 <= j < before.len() && before[j].0 == (addr, cmd);
                        }
                    }
                }
            } else {
                proof {
                    assert(!entries_map(before).dom().contains((addr, cmd))) by {
                        if entries_map(before).dom().contains((addr, cmd)) {
                            let j = choose|j: int| 0 <= j < before.len() && before[j].0 == (addr, cmd);
                        }
                    }
                }
            }
            n += 1;
        }
        map
    }

    /// The button that code `(addr, cmd)` means, if any.
    pub fn get(&self, addr: u16, cmd: u8) -> (button: Option<B>)
        requires
            self.wf(),
        ensures
            button == if self.view_map().dom().contains((addr, cmd)) {
                Some(self.view_map()[(addr, cmd)])
            } else {
                None
            },
    {
        proof {
            lemma_entries_map(self.entries@);
        }
        let mut i: usize = 0;
        while i < self.entries.len()
            invariant
                i <= self.entries@.len(),
                distinct_codes(self.entries@),
                forall|j: int| 0 <= j < i ==> self.entries@[j].0 != (addr, cmd),
            decreases self.entries@.len() - i,
        {
            if self.entries[i].0.0 == addr && self.entries[i].0.1 == cmd {
                proof {
                    lemma_entries_map(self.entries@);
                }
                assert(self.entries@[i as int].0 == (addr, cmd));
                return Some(self.entries[i].1);
            }
            i += 1;
        }
        proof {
            if self.view_map().dom().contains((addr, cmd)) {
                let j = choose|j: int| 0 <= j < self.entries@.len() && self.entries@[j].0 == (addr, cmd);
            }
        }
        None
    }
}

/// Static resources of an IR mapping device (those of its IR receiver).
pub struct IrMappingStatic {
    _priv: (),
}

impl IrMappingStatic {
    /// The resources.
    pub fn new() -> (resources: Self) {
        IrMappingStatic { _priv: () }
    }
}

} // verus!
