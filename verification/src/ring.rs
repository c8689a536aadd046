//! The bounded sample queue of the `ringbuf` crate, as the rest of the
//! library sees it: what it holds, in order, and the limit it was made with.
//!
//! Nothing in this file is proved. Each function states what the crate's
//! source shows of the call it makes, for a ring that has a single owner.

use ringbuf::traits::{Consumer, Observer, Producer};
use vstd::prelude::*;

verus! {

/// A `ringbuf::HeapRb` of samples. Its inside is hidden from the verifier:
/// all that is known of a value is what the functions below state.
#[verifier::external_body]
pub struct RingStore {
    ring: ringbuf::HeapRb<u32>,
}

/// The samples that a ring holds, oldest first.
pub uninterp spec fn ring_items(ring: RingStore) -> Seq<u32>;

/// The number of samples that a ring was made to hold.
pub uninterp spec fn ring_capacity(ring: RingStore) -> nat;

/// `ringbuf::HeapRb::new`: an empty ring of the given capacity. The call
/// panics on a capacity of zero or above `usize::MAX / 2`, which `requires`
/// leaves out; like every allocation it also ends the program where memory
/// runs out.
#[verifier::external_body]
pub(crate) fn ring_new(capacity: usize) -> (ring: RingStore)
    requires
        0 < capacity <= usize::MAX / 2,
    ensures
        ring_items(ring) == Seq::<u32>::empty(),
        ring_capacity(ring) == capacity as nat,
{
    RingStore { ring: ringbuf::HeapRb::<u32>::new(capacity) }
}

/// `Observer::occupied_len`: the number of samples held, which never exceeds
/// the capacity.
#[verifier::external_body]
pub(crate) fn ring_occupied_len(ring: &RingStore) -> (held: usize)
    ensures
        held as nat == ring_items(*ring).len(),
        held as nat <= ring_capacity(*ring),
{
    ring.ring.occupied_len()
}

/// `Producer::push_slice`: appends as many of `samples`, from the front, as
/// there is room for, and returns how many that was. The rest is left out.
#[verifier::external_body]
pub(crate) fn ring_push_slice(ring: &mut RingStore, samples: &[u32]) -> (pushed: usize)
    ensures
        pushed as int <= samples@.len(),
        pushed as int + ring_items(*old(ring)).len() <= ring_capacity(*old(ring)),
        pushed as int == samples@.len() || pushed as int + ring_items(*old(ring)).len()
            == ring_capacity(*old(ring)),
        ring_items(*final(ring)) == ring_items(*old(ring)) + samples@.subrange(0, pushed as int),
        ring_capacity(*final(ring)) == ring_capacity(*old(ring)),
{
    ring.ring.push_slice(samples)
}

/// `Consumer::pop_slice`: moves the oldest samples into the front of `out`,
/// as many as the ring holds and `out` has places for, and returns how many
/// that was. The places of `out` behind them keep what they held.
#[verifier::external_body]
pub(crate) fn ring_pop_slice(ring: &mut RingStore, out: &mut Vec<u32>) -> (popped: usize)
    ensures
        popped as int <= old(out)@.len(),
        popped as int <= ring_items(*old(ring)).len(),
        popped as int == old(out)@.len() || popped as int == ring_items(*old(ring)).len(),
        final(out)@ == ring_items(*old(ring)).subrange(0, popped as int) + old(out)@.subrange(
            popped as int,
            old(out)@.len() as int,
        ),
        ring_items(*final(ring)) == ring_items(*old(ring)).subrange(
            popped as int,
            ring_items(*old(ring)).len() as int,
        ),
        ring_capacity(*final(ring)) == ring_capacity(*old(ring)),
{
    ring.ring.pop_slice(out.as_mut_slice())
}

} // verus!
