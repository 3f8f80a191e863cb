//! Seeded Fisher-Yates deck shuffling.  The two decks of a game are
//! shuffled from one shared 32-byte seed at disjoint byte offsets, so
//! they diverge while staying reproducible.

use vstd::prelude::*;

verus! {

/// The identity deck 0..15, the state of both decks before shuffling.
pub open spec fn spec_identity_deck() -> Seq<u8> {
    seq![0u8, 1u8, 2u8, 3u8, 4u8, 5u8, 6u8, 7u8, 8u8, 9u8, 10u8, 11u8, 12u8, 13u8, 14u8, 15u8]
}

/// One deck with the Fisher-Yates passes for positions `i` down to 1
/// applied: position `i` is swapped with `seed[(offset + i) % 32] % (i + 1)`.
pub open spec fn spec_fisher_yates_from(deck: Seq<u8>, seed: Seq<u8>, offset: int, i: int) -> Seq<u8>
    recommends
        deck.len() == 16,
        seed.len() == 32,
    decreases i,
{
    if i <= 0 {
        deck
    } else {
        let j = (seed[(offset + i) % 32] as int) % (i + 1);
        let swapped = deck.update(i, deck[j]).update(j, deck[i]);
        spec_fisher_yates_from(swapped, seed, offset, i - 1)
    }
}

/// The deck produced by shuffling the identity deck with the given seed
/// bytes, starting at the given byte offset.
pub open spec fn spec_shuffled_deck(seed: Seq<u8>, offset: int) -> Seq<u8> {
    spec_fisher_yates_from(spec_identity_deck(), seed, offset, 15)
}

/// Shuffle a 16-entry deck in place with seed bytes taken cyclically
/// from `seed` starting at `seed_offset`.
pub fn fisher_yates_shuffle(deck: &mut Vec<u8>, seed: &Vec<u8>, seed_offset: usize)
    requires
        old(deck)@.len() == 16,
        seed@.len() == 32,
        seed_offset <= 16,
        forall|k: int| 0 <= k < 16 ==> #[trigger] old(deck)@[k] < 16,
        forall|p: int, q: int| 0 <= p < q < 16 ==> old(deck)@[p] != old(deck)@[q],
    ensures
        final(deck)@ == spec_fisher_yates_from(old(deck)@, seed@, seed_offset as int, 15),
        final(deck)@.len() == 16,
        forall|k: int| 0 <= k < 16 ==> #[trigger] final(deck)@[k] < 16,
        forall|p: int, q: int| 0 <= p < q < 16 ==> final(deck)@[p] != final(deck)@[q],
{
    let mut i: usize = 15;
    while i >= 1
        invariant
            deck@.len() == 16,
            seed@.len() == 32,
            seed_offset <= 16,
            i <= 15,
            forall|k: int| 0 <= k < 16 ==> #[trigger] deck@[k] < 16,
            forall|p: int, q: int| 0 <= p < q < 16 ==> deck@[p] != deck@[q],
            spec_fisher_yates_from(old(deck)@, seed@, seed_offset as int, 15)
                == spec_fisher_yates_from(deck@, seed@, seed_offset as int, i as int),
        decreases i,
    {
        let seed_byte = seed[(seed_offset + i) % 32] as usize;
        let j = seed_byte % (i + 1);
        let ghost before = deck@;
        let a = deck[i];
        let b = deck[j];
        deck.set(i, b);
        deck.set(j, a);
        proof {
            assert(deck@ == before.update(i as int, before[j as int]).update(
                j as int, before[i as int]));
            let after = deck@;
            assert forall|p: int, q: int|
                0 <= p < q < 16 implies after[p] != after[q] by {
                assert(after[p] == before[if p == j { i as int } else if p == i { j as int } else { p }]);
                assert(after[q] == before[if q == j { i as int } else if q == i { j as int } else { q }]);
            }
        }
        i = i - 1;
    }
}

} // verus!
