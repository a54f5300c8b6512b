//! The random source: the thread's generator of the `rand` crate. What the
//! library knows of a draw is stated here and believed, not proved.

use vstd::prelude::*;
use rand::seq::{IndexedRandom, SliceRandom};

verus! {

/// `rand::rngs::ThreadRng`, carried through as an opaque value.
#[verifier::external_type_specification]
#[verifier::external_body]
pub struct ExThreadRng(rand::rngs::ThreadRng);

/// `rand::rng`: a handle to the generator of the current thread. Nothing is
/// claimed of it.
#[verifier::external_body]
pub(crate) fn thread_rng() -> rand::rngs::ThreadRng {
    rand::rng()
}

/// `IndexedRandom::choose` on a byte slice. Claimed: the draw fails exactly
/// on an empty slice, and a byte that is drawn stands somewhere in the slice.
/// Which byte comes is left open.
#[verifier::external_body]
pub(crate) fn choose_byte(pool: &[u8], rng: &mut rand::rngs::ThreadRng) -> (r: Option<u8>)
    ensures
        r is Some <==> pool@.len() > 0,
        r matches Some(b) ==> pool@.contains(b),
{
    pool.choose(rng).copied()
}

/// `SliceRandom::shuffle` on the bytes of a vector. Claimed: the bytes are
/// rearranged in place, so each byte occurs as often after the call as
/// before. Which arrangement comes is left open.
#[verifier::external_body]
pub(crate) fn shuffle_bytes(bytes: &mut Vec<u8>, rng: &mut rand::rngs::ThreadRng)
    ensures
        final(bytes)@.to_multiset() == old(bytes)@.to_multiset(),
{
    bytes.shuffle(rng);
}

} // verus!
