use vstd::prelude::*;
use vstd::rwlock::{RwLock, RwLockPredicate};

use crate::loudness::{is_finite_nonneg, publication};
use crate::register::LoudnessRegister;

verus! {

/// The lock's invariant: the register it guards is well formed.
pub struct WellFormedRegister;

impl RwLockPredicate<LoudnessRegister> for WellFormedRegister {
    open spec fn inv(self, v: LoudnessRegister) -> bool {
        v.wf()
    }
}

/// The loudness cell shared by the capture callback and the UI loop: a
/// register behind a reader-writer lock, so that a read never sees a
/// partly written value.
pub struct SharedLoudness {
    lock: RwLock<LoudnessRegister, WellFormedRegister>,
}

impl SharedLoudness {
    /// The invariant that every value in the lock satisfies.
    pub closed spec fn wf(&self) -> bool {
        self.lock.pred() == WellFormedRegister
    }

    /// A cell seeded with the default loudness.
    pub fn new() -> (r: Self)
        ensures
            r.wf(),
    {
        SharedLoudness { lock: RwLock::new(LoudnessRegister::new(), Ghost(WellFormedRegister)) }
    }

    /// The value most recently published by any thread, or the seed; always
    /// finite and non-negative.
    pub fn read(&self) -> (r: u32)
        requires
            self.wf(),
        ensures
            is_finite_nonneg(r),
    {
        let handle = self.lock.acquire_read();
        let v = handle.borrow().read();
        handle.release_read();
        v
    }

    /// Replaces the stored value.
    pub fn write(&self, bits: u32)
        requires
            self.wf(),
            is_finite_nonneg(bits),
    {
        let (mut reg, handle) = self.lock.acquire_write();
        reg.write(bits);
        handle.release_write(reg);
    }

    /// Delivers one buffer to the cell, as `LoudnessRegister::publish` does,
    /// under the lock. Returns whether a value was stored.
    pub fn publish(&self, sample_count: usize, loudness_bits: u32) -> (r: bool)
        requires
            self.wf(),
        ensures
            r == publication(sample_count as nat, loudness_bits) is Some,
    {
        let (mut reg, handle) = self.lock.acquire_write();
        let stored = reg.publish(sample_count, loudness_bits);
        handle.release_write(reg);
        stored
    }
}

} // verus!
