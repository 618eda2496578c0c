use vstd::prelude::*;

use crate::loudness::{is_finite_nonneg, is_publishable, publication, SEED_LOUDNESS_BITS};

verus! {

/// A "latest value wins" register of loudness, holding the bit pattern of
/// the most recently published value.
pub struct LoudnessRegister {
    bits: u32,
}

impl View for LoudnessRegister {
    type V = u32;

    closed spec fn view(&self) -> u32 {
        self.bits
    }
}

/// The register's value after a buffer of `sample_count` samples with scaled
/// RMS `loudness` was delivered to it while it held `current`.
pub open spec fn after_publish(current: u32, sample_count: nat, loudness: u32) -> u32 {
    match publication(sample_count, loudness) {
        Some(v) => v,
        None => current,
    }
}

/// The register's value after the buffers `events` (sample count and scaled
/// RMS of each) were delivered in order, starting from `start`.
pub open spec fn after_publishes(start: u32, events: Seq<(nat, u32)>) -> u32
    decreases events.len(),
{
    if events.len() == 0 {
        start
    } else {
        after_publish(
            after_publishes(start, events.drop_last()),
            events.last().0,
            events.last().1,
        )
    }
}

impl LoudnessRegister {
    /// The register never holds NaN, an infinity or a negative number.
    pub open spec fn wf(&self) -> bool {
        is_finite_nonneg(self@)
    }

    /// A register seeded with the default loudness.
    pub fn new() -> (r: Self)
        ensures
            r@ == SEED_LOUDNESS_BITS,
            r.wf(),
    {
        assert(is_finite_nonneg(0x402C_CCCDu32)) by (bit_vector);
        LoudnessRegister { bits: SEED_LOUDNESS_BITS }
    }

    /// The most recently written value, or the seed if none was written.
    pub fn read(&self) -> (r: u32)
        ensures
            r == self@,
    {
        self.bits
    }

    /// Replaces the stored value.
    pub fn write(&mut self, bits: u32)
        requires
            is_finite_nonneg(bits),
        ensures
            final(self)@ == bits,
            final(self).wf(),
    {
        self.bits = bits;
    }

    /// Delivers one buffer: stores `loudness_bits` when the buffer held at
    /// least one sample and the value is finite and non-negative, and leaves
    /// the register as it was otherwise. Returns whether it stored.
    pub fn publish(&mut self, sample_count: usize, loudness_bits: u32) -> (r: bool)
        requires
            old(self).wf(),
        ensures
            r == publication(sample_count as nat, loudness_bits) is Some,
            final(self)@ == after_publish(old(self)@, sample_count as nat, loudness_bits),
            final(self).wf(),
    {
        if sample_count > 0 && is_publishable(loudness_bits) {
            self.write(loudness_bits);
            true
        } else {
            false
        }
    }
}

/// Whatever buffers are delivered, and in whatever order concurrent
/// deliveries are serialised, the register afterwards holds either its
/// starting value or a value that one of the non-empty buffers published,
/// and never NaN, an infinity or a negative number.
pub proof fn lemma_publishes_keep_a_written_value(start: u32, events: Seq<(nat, u32)>)
    requires
        is_finite_nonneg(start),
    ensures
        is_finite_nonneg(after_publishes(start, events)),
        after_publishes(start, events) == start || exists|i: int|
            0 <= i < events.len() && events[i].0 > 0 && events[i].1 == after_publishes(
                start,
                events,
            ),
    decreases events.len(),
{
    if events.len() > 0 {
        let prefix = events.drop_last();
        lemma_publishes_keep_a_written_value(start, prefix);
        let v = after_publishes(start, events);
        if v != start && v != after_publishes(start, prefix) {
            assert(events[events.len() - 1].1 == v);
        } else if v != start {
            let i = choose|i: int|
                0 <= i < prefix.len() && prefix[i].0 > 0 && prefix[i].1 == after_publishes(
                    start,
                    prefix,
                );
            assert(events[i] == prefix[i]);
        }
    }
}

/// Delivering an empty buffer leaves the register unchanged.
pub proof fn lemma_empty_buffer_publishes_nothing(current: u32, loudness: u32)
    ensures
        publication(0, loudness) is None,
        after_publish(current, 0, loudness) == current,
{
}

} // verus!
