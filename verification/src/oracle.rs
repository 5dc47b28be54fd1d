//! The draw from the verified randomness.
//!
//! The 32 bytes delivered by the oracle seed a deterministic pseudo-random
//! generator; the winner is the depositor at the position it selects. The
//! position is a pure function of the randomness and the number of entries,
//! named `pick_index` and left uninterpreted: the contracts above it speak
//! of "the entry at the selected position" and never of the position's value.

use vstd::prelude::*;

verus! {

/// The position drawn from a list of `len` entries by 32 bytes of
/// randomness. A pure function of its arguments: the same randomness over
/// the same number of entries always selects the same position.
pub uninterp spec fn pick_index(randomness: Seq<u8>, len: int) -> int;

/// `w` is the depositor at the position the randomness selects: the
/// position is within the list, and `w` reads off the entry there.
pub open spec fn picked_from(w: Seq<char>, randomness: Seq<u8>, depositors: Seq<String>) -> bool {
    let idx = pick_index(randomness, depositors.len() as int);
    &&& 0 <= idx < depositors.len()
    &&& w == depositors[idx]@
}

/// Relies on nois::pick, seeded through nois::prng::make_prng by the
/// randomness alone: asked for one element it swaps a single position,
/// drawn from the generator, into the tail and splits it off, so it
/// returns exactly one element of the list, at a position that depends
/// only on the randomness and the list's length. It panics only when
/// asked for more elements than the list holds, which the precondition
/// rules out.
#[verifier::external_body]
pub(crate) fn pick_winner(randomness: &Vec<u8>, depositors: &Vec<String>) -> (r: String)
    requires
        randomness@.len() == 32,
        depositors@.len() >= 1,
    ensures
        picked_from(r@, randomness@, depositors@),
        r@ == depositors@[pick_index(randomness@, depositors@.len() as int)]@,
{
    let mut seed = [0u8; 32];
    seed.copy_from_slice(randomness.as_slice());
    let mut picked = nois::pick(seed, 1, depositors.clone());
    picked.pop().unwrap()
}

} // verus!
