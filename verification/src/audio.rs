//! The audio capture channel: a bounded queue of samples between the input
//! callback, which must never wait, and the stage that encodes them frame by
//! frame.
//!
//! A sample is held as the 32 bits of its encoding; the queue never looks
//! inside one.

use crate::ring::{
    ring_capacity, ring_items, ring_new, ring_occupied_len, ring_pop_slice, ring_push_slice, RingStore,
};
use vstd::prelude::*;

verus! {

/// Samples per second of the one audio profile.
pub const SAMPLE_RATE: u32 = 48000;

/// Channels of the one audio profile: mono.
pub const CHANNELS: u16 = 1;

/// Frames of audio per second: one frame lasts 20 ms.
pub const FRAMES_PER_SECOND: u32 = 50;

/// The largest packet that the codec returns for one frame, in bytes.
pub const MAX_PACKET_LEN: usize = 1275;

/// The number of samples in one frame of 20 ms.
pub fn frame_len(sample_rate: u32) -> (len: usize)
    ensures
        len as int == sample_rate as int / FRAMES_PER_SECOND as int,
{
    (sample_rate / FRAMES_PER_SECOND) as usize
}

/// The number of samples in one second of audio.
pub fn one_second_capacity(sample_rate: u32, channels: u16) -> (capacity: usize)
    requires
        sample_rate as int * channels as int <= usize::MAX as int,
    ensures
        capacity as int == sample_rate as int * channels as int,
{
    sample_rate as usize * channels as usize
}

/// The frame at position `index` where `samples` is cut into frames of
/// `frame_len` samples.
pub open spec fn frame_at(samples: Seq<u32>, frame_len: int, index: int) -> Seq<u32> {
    samples.subrange(index * frame_len, (index + 1) * frame_len)
}

/// How many of `offered` a queue that holds `held` takes: all of them, or
/// as many as there is room for.
pub open spec fn pushed_count(held: Seq<u32>, capacity: nat, offered: Seq<u32>) -> nat {
    if held.len() + offered.len() <= capacity {
        offered.len()
    } else {
        (capacity - held.len()) as nat
    }
}

/// What a queue that holds `held` holds after `offered` was pushed.
pub open spec fn after_push(held: Seq<u32>, capacity: nat, offered: Seq<u32>) -> Seq<u32> {
    held + offered.subrange(0, pushed_count(held, capacity, offered) as int)
}

/// Appends one packet to the audio sink: the first `encoded` bytes of the
/// codec's output buffer, as they are. The sink is the packets one after
/// another, with nothing between them.
pub fn append_packet(sink: &mut Vec<u8>, buffer: &[u8], encoded: usize)
    requires
        encoded <= buffer@.len(),
    ensures
        final(sink)@ == old(sink)@ + buffer@.subrange(0, encoded as int),
{
    let mut i: usize = 0;
    while i < encoded
        invariant
            i <= encoded <= buffer@.len(),
            sink@ == old(sink)@ + buffer@.subrange(0, i as int),
        decreases encoded - i,
    {
        sink.push(buffer[i]);
        i = i + 1;
        assert(sink@ =~= old(sink)@ + buffer@.subrange(0, i as int));
    }
}

/// The bounded queue of samples.
pub struct SampleRing {
    ring: RingStore,
}

impl View for SampleRing {
    type V = Seq<u32>;

    /// The samples held, oldest first.
    closed spec fn view(&self) -> Seq<u32> {
        ring_items(self.ring)
    }
}

impl SampleRing {
    /// The number of samples that the queue can hold.
    pub closed spec fn capacity(&self) -> nat {
        ring_capacity(self.ring)
    }

    /// An empty queue for `capacity` samples.
    pub fn new(capacity: usize) -> (ring: SampleRing)
        requires
            0 < capacity <= usize::MAX / 2,
        ensures
            ring@ == Seq::<u32>::empty(),
            ring.capacity() == capacity as nat,
    {
        SampleRing { ring: ring_new(capacity) }
    }

    /// An empty queue for one second of audio, where a queue of that size
    /// can be had: it must hold at least one sample and no more than half of
    /// what the machine can address.
    pub fn for_one_second(sample_rate: u32, channels: u16) -> (ring: Option<SampleRing>)
        ensures
            ring.is_some() <==> 0 < sample_rate as int * channels as int <= usize::MAX as int / 2,
            ring.is_some() ==> ring.unwrap()@ == Seq::<u32>::empty() && ring.unwrap().capacity()
                == sample_rate as int * channels as int,
    {
        assert(sample_rate as int * channels as int <= 0xffff_ffff * 0xffff) by (nonlinear_arith)
            requires
                sample_rate <= 0xffff_ffff,
                channels <= 0xffff,
        ;
        let wanted: u64 = sample_rate as u64 * channels as u64;
        if wanted == 0 || wanted > (usize::MAX / 2) as u64 {
            None
        } else {
            Some(SampleRing::new(wanted as usize))
        }
    }

    /// The number of samples held.
    pub fn len(&self) -> (held: usize)
        ensures
            held as nat == self@.len(),
            held as nat <= self.capacity(),
    {
        ring_occupied_len(&self.ring)
    }

    /// The producer's step: takes as many of `samples`, from the front, as
    /// there is room for and drops the rest. Returns how many were taken.
    pub fn push_samples(&mut self, samples: &[u32]) -> (taken: usize)
        ensures
            taken as nat == pushed_count(old(self)@, old(self).capacity(), samples@),
            final(self)@ == after_push(old(self)@, old(self).capacity(), samples@),
            final(self).capacity() == old(self).capacity(),
            final(self)@.len() <= final(self).capacity(),
    {
        ring_push_slice(&mut self.ring, samples)
    }

    /// The consumer's step: the oldest `frame_len` samples where that many
    /// are held, and nothing, with the queue untouched, where they are not.
    pub fn pop_frame(&mut self, frame_len: usize) -> (frame: Option<Vec<u32>>)
        ensures
            frame.is_some() <==> old(self)@.len() >= frame_len,
            frame.is_some() ==> frame.unwrap()@ == old(self)@.subrange(0, frame_len as int)
                && final(self)@ == old(self)@.subrange(frame_len as int, old(self)@.len() as int),
            frame.is_none() ==> final(self)@ == old(self)@,
            final(self).capacity() == old(self).capacity(),
    {
        let held: usize = ring_occupied_len(&self.ring);
        if held < frame_len {
            return None;
        }
        let mut out: Vec<u32> = vec![0u32; frame_len];
        let popped: usize = ring_pop_slice(&mut self.ring, &mut out);
        assert(popped == frame_len);
        assert(out@ =~= old(self)@.subrange(0, frame_len as int));
        Some(out)
    }

    /// The consumer's drain: every full frame that the queue holds, oldest
    /// first. What is left is less than one frame and stays for the next call.
    pub fn drain_frames(&mut self, frame_len: usize) -> (frames: Vec<Vec<u32>>)
        requires
            frame_len > 0,
        ensures
            frames@.len() == old(self)@.len() / frame_len as nat,
            forall|i: int|
                0 <= i < frames@.len() ==> (#[trigger] frames@[i])@ == frame_at(
                    old(self)@,
                    frame_len as int,
                    i,
                ),
            final(self)@ == old(self)@.subrange(
                frames@.len() * frame_len,
                old(self)@.len() as int,
            ),
            final(self)@.len() == old(self)@.len() % frame_len as nat,
            final(self).capacity() == old(self).capacity(),
    {
        let ghost start: Seq<u32> = self@;
        let ghost limit: nat = self.capacity();
        let ghost width: int = frame_len as int;
        let mut frames: Vec<Vec<u32>> = Vec::new();
        let ghost mut consumed: int = 0;
        assert(0 * width == 0) by (nonlinear_arith);
        assert(self@ =~= start.subrange(0, start.len() as int));
        loop
            invariant
                width == frame_len as int,
                width > 0,
                self.capacity() == limit,
                consumed == frames@.len() * width,
                0 <= consumed <= start.len(),
                self@ == start.subrange(consumed, start.len() as int),
                forall|i: int|
                    0 <= i < frames@.len() ==> (#[trigger] frames@[i])@ == frame_at(start, width, i),
            ensures
                self.capacity() == limit,
                consumed == frames@.len() * width,
                0 <= consumed <= start.len(),
                start.len() - consumed < width,
                self@ == start.subrange(consumed, start.len() as int),
                forall|i: int|
                    0 <= i < frames@.len() ==> (#[trigger] frames@[i])@ == frame_at(start, width, i),
            decreases self@.len(),
        {
            match self.pop_frame(frame_len) {
                None => {
                    break ;
                },
                Some(frame) => {
                    proof {
                        let n: int = frames@.len() as int;
                        assert((n + 1) * width == n * width + width) by (nonlinear_arith);
                        assert(frame@ =~= frame_at(start, width, n));
                        assert(self@ =~= start.subrange(consumed + width, start.len() as int));
                        consumed = consumed + width;
                    }
                    frames.push(frame);
                },
            }
        }
        proof {
            vstd::arithmetic::div_mod::lemma_fundamental_div_mod_converse(
                start.len() as int,
                width,
                frames@.len() as int,
                start.len() - consumed,
            );
        }
        frames
    }
}

/// However many samples the producer offers, the queue takes what fits,
/// drops the rest and never holds more than its capacity: what it took and
/// what it dropped together are what was offered.
pub proof fn push_never_overfills(held: Seq<u32>, capacity: nat, offered: Seq<u32>)
    requires
        held.len() <= capacity,
    ensures
        pushed_count(held, capacity, offered) <= offered.len(),
        held.len() + pushed_count(held, capacity, offered) <= capacity,
        pushed_count(held, capacity, offered) < offered.len() ==> held.len() + pushed_count(
            held,
            capacity,
            offered,
        ) == capacity,
        after_push(held, capacity, offered).len() <= capacity,
        held.is_prefix_of(after_push(held, capacity, offered)),
{
    let taken = pushed_count(held, capacity, offered);
    assert(held =~= after_push(held, capacity, offered).subrange(0, held.len() as int));
}

} // verus!
