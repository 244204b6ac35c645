//! The card registry of the RFID demo: each new card gets the next letter, `A` to `D`,
//! until the registry is full; the letter decides where the servo points.

use vstd::prelude::*;

use heapless::index_map::FnvIndexMap;

verus! {

#[verifier::external_type_specification]
#[verifier::external_body]
pub struct ExFnvHasher(hash32::FnvHasher);

#[verifier::external_type_specification]
#[verifier::external_body]
#[verifier::reject_recursive_types(H)]
pub struct ExBuildHasherDefault<H>(hash32::BuildHasherDefault<H>);

#[verifier::external_type_specification]
#[verifier::external_body]
#[verifier::reject_recursive_types(K)]
#[verifier::reject_recursive_types(V)]
#[verifier::reject_recursive_types(S)]
pub struct ExIndexMap<K, V, S, const SIZE: usize>(heapless::IndexMap<K, V, S, SIZE>);

/// Length of a card's UID as the reader reports it.
pub const UID_LEN: usize = 10;

/// A card's UID.
pub type Uid = [u8; 10];

/// The map from card UIDs to letters.
pub type CardMap = FnvIndexMap<Uid, u8, 4>;

/// Number of cards the registry holds.
pub const CARD_CAPACITY: usize = 4;

/// What the registry's map holds: the letter assigned to each card UID.
pub uninterp spec fn card_map_entries(map: CardMap) -> Map<Uid, u8>;

/// No cards.
pub open spec fn no_cards() -> Map<Uid, u8> {
    Map::empty()
}

/// What `insert` returns: the value it replaced (or `None` for a new key), or the pair
/// it could not store.
pub open spec fn inserted(replaced: Option<u8>) -> Result<Option<u8>, (Uid, u8)> {
    Ok(replaced)
}

/// What `insert` returns when the map is full.
pub open spec fn refused(uid: Uid, name: u8) -> Result<Option<u8>, (Uid, u8)> {
    Err((uid, name))
}

/// An empty map.
///
/// Calls `IndexMap::new`; the map it returns holds nothing.
#[verifier::external_body]
fn card_map_new() -> (cards: CardMap)
    ensures
        card_map_entries(cards) == no_cards(),
{
    FnvIndexMap::new()
}

/// The letter stored for `uid`, if any.
///
/// Calls `IndexMap::get` and copies the value out: `Some` exactly when the key is in the
/// map, with its value.
#[verifier::external_body]
fn card_map_get(cards: &CardMap, uid: &Uid) -> (name: Option<u8>)
    ensures
        name == if card_map_entries(*cards).dom().contains(*uid) {
            Some(card_map_entries(*cards)[*uid])
        } else {
            None
        },
{
    cards.get(uid).copied()
}

/// The number of cards in the map.
///
/// Calls `IndexMap::len`: the number of key-value pairs, which never exceeds the
/// capacity of 4.
#[verifier::external_body]
fn card_map_len(cards: &CardMap) -> (len: usize)
    ensures
        len == card_map_entries(*cards).dom().len(),
        len <= 4,
{
    cards.len()
}

/// Inserts `name` for `uid`.
///
/// Calls `IndexMap::insert`: a key already present keeps its place and gets the new value
/// (the old one is returned in `Ok(Some(_))`); a new key is added when the map holds fewer
/// than 4 pairs (`Ok(None)`), and otherwise the pair is handed back in `Err` with the map
/// unchanged.
#[verifier::external_body]
fn card_map_insert(cards: &mut CardMap, uid: Uid, name: u8) -> (result: Result<Option<u8>, (Uid, u8)>)
    ensures
        card_map_entries(*old(cards)).dom().contains(uid) ==> result == inserted(
            Some(card_map_entries(*old(cards))[uid]),
        ) && card_map_entries(*final(cards)) == card_map_entries(*old(cards)).insert(uid, name),
        !card_map_entries(*old(cards)).dom().contains(uid) && card_map_entries(*old(cards)).dom().len() < 4
            ==> result == inserted(None) && card_map_entries(*final(cards))
            == card_map_entries(*old(cards)).insert(uid, name),
        !card_map_entries(*old(cards)).dom().contains(uid) && card_map_entries(*old(cards)).dom().len() >= 4
            ==> result == refused(uid, name) && card_map_entries(*final(cards))
            == card_map_entries(*old(cards)),
        card_map_entries(*final(cards)).dom().finite(),
{
    cards.insert(uid, name)
}

/// Removes every pair.
///
/// Calls `IndexMap::clear`, which leaves the map empty.
#[verifier::external_body]
fn card_map_clear(cards: &mut CardMap)
    ensures
        card_map_entries(*final(cards)) == no_cards(),
{
    cards.clear()
}

/// The letter of the `k`-th card registered: `A`, `B`, ...
pub open spec fn card_letter(k: int) -> u8 {
    (65 + k) as u8
}

/// Cards seen so far and their letters.
pub struct CardRegistry {
    card_map: CardMap,
}

impl CardRegistry {
    /// The registered cards and their letters.
    pub closed spec fn cards(&self) -> Map<Uid, u8> {
        card_map_entries(self.card_map)
    }

    /// At most four cards, the `k`-th with the `k`-th letter, no two alike.
    pub closed spec fn wf(&self) -> bool {
        let cards = self.cards();
        &&& cards.dom().finite()
        &&& cards.dom().len() <= 4
        &&& forall|uid: Uid| #[trigger] cards.dom().contains(uid) ==> 65 <= cards[uid] < 65 + cards.dom().len()
        &&& forall|u1: Uid, u2: Uid|
            #[trigger] cards.dom().contains(u1) && #[trigger] cards.dom().contains(u2) && u1 != u2
                ==> cards[u1] != cards[u2]
    }

    /// An empty registry.
    pub fn new() -> (registry: Self)
        ensures
            registry.wf(),
            registry.cards() == no_cards(),
    {
        let registry = CardRegistry { card_map: card_map_new() };
        assert(registry.cards().dom() =~= Set::empty());
        registry
    }

    /// The letter of card `uid`: the one it already has, or, when fewer than four cards are
    /// registered, the next letter, which it keeps from now on; `None` when the registry is
    /// full and the card is new.
    pub fn card_seen(&mut self, uid: Uid) -> (name: Option<u8>)
        requires
            old(self).wf(),
        ensures
            final(self).wf(),
            old(self).cards().dom().contains(uid) ==> name == Some(old(self).cards()[uid]) && final(self).cards() == old(self).cards(),
            !old(self).cards().dom().contains(uid) && old(self).cards().dom().len() < 4 ==> name == Some(
                card_letter(old(self).cards().dom().len() as int),
            ) && final(self).cards() == old(self).cards().insert(
                uid,
                card_letter(old(self).cards().dom().len() as int),
            ),
            !old(self).cards().dom().contains(uid) && old(self).cards().dom().len() >= 4 ==> name
                is None && final(self).cards() == old(self).cards(),
    {
        match card_map_get(&self.card_map, &uid) {
            Some(name) => Some(name),
            None => {
                let count = card_map_len(&self.card_map);
                let name = 65u8 + count as u8;
                let ghost before = self.cards();
                match card_map_insert(&mut self.card_map, uid, name) {
                    Ok(_) => {
                        proof {
                            let after = self.cards();
                            assert(after.dom() =~= before.dom().insert(uid));
                            assert(after.dom().len() == before.dom().len() + 1);
                            assert forall|u: Uid| #[trigger] after.dom().contains(u) implies 65 <= after[u] < 65
                                + after.dom().len() by {
                                if u != uid {
                                    assert(before.dom().contains(u));
                                }
                            }
                            assert forall|u1: Uid, u2: Uid|
                                #[trigger] after.dom().contains(u1) && #[trigger] after.dom().contains(u2) && u1
                                    != u2 implies after[u1] != after[u2] by {
                                if u1 != uid && u2 != uid {
                                    assert(before.dom().contains(u1) && before.dom().contains(u2));
                                } else if u1 == uid {
                                    assert(before.dom().contains(u2));
                                } else {
                                    assert(before.dom().contains(u1));
                                }
                            }
                        }
                        Some(name)
                    },
                    Err(_) => None,
                }
            },
        }
    }

    /// Forgets every card.
    pub fn reset(&mut self)
        ensures
            final(self).wf(),
            final(self).cards() == no_cards(),
    {
        card_map_clear(&mut self.card_map);
        assert(self.cards().dom() =~= Set::empty());
    }
}

/// Where the servo points for a card's letter, in degrees: `A` 180, `B` 135, `C` 90, `D`
/// 45, anything else (or no letter) 0.
pub fn servo_degrees(name: Option<u8>) -> (degrees: u16)
    ensures
        degrees == match name {
            Some(65u8) => 180u16,
            Some(66u8) => 135u16,
            Some(67u8) => 90u16,
            Some(68u8) => 45u16,
            _ => 0u16,
        },
{
    match name {
        Some(65) => 180,
        Some(66) => 135,
        Some(67) => 90,
        Some(68) => 45,
        _ => 0,
    }
}

/// Every registered card has one of the letters `A` to `D`, the ones the servo points at.
pub proof fn registered_letters_are_a_to_d(registry: CardRegistry, uid: Uid)
    requires
        registry.wf(),
        registry.cards().dom().contains(uid),
    ensures
        65 <= registry.cards()[uid] <= 68,
{
}

} // verus!
