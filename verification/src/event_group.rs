//! The shared event-group bitset: the rendezvous point between the event
//! dispatcher and a waiting task.
//!
//! On the device the bitset is a process-wide kernel object whose set,
//! clear and wait operations are individually atomic; this model fixes
//! what each operation does to the bits and what a waiter observes. The
//! dispatcher may interleave arbitrarily between a set and a wait, so a
//! waiter must tolerate waking with only a subset of the awaited bits and
//! poll again until its condition holds.

use vstd::prelude::*;

verus! {

/// Bit flagging that the station is connected and has an address.
pub const CONNECTED_BIT: u32 = 1;

/// Bit flagging that the provisioning protocol acknowledged completion.
pub const ESPTOUCH_DONE_BIT: u32 = 2;

/// A shared 32-bit bitset guarded by the kernel's atomic bit primitives.
/// Created once before the event dispatcher starts and never destroyed.
#[derive(Debug, Copy, Clone, PartialEq, Eq, Structural)]
pub struct EventGroupState {
    bits: u32,
}

/// Whether a wait over `mask` is satisfied by `bits`: all the mask's bits
/// when waiting for all, any one of them otherwise.
pub open spec fn wait_satisfied(bits: u32, mask: u32, wait_for_all: bool) -> bool {
    if wait_for_all {
        bits & mask == mask
    } else {
        bits & mask != 0
    }
}

impl EventGroupState {
    /// The current bits.
    pub closed spec fn spec_bits(self) -> u32 {
        self.bits
    }

    /// A fresh group: all bits clear.
    pub fn new() -> (r: Self)
        ensures
            r.spec_bits() == 0,
    {
        EventGroupState { bits: 0 }
    }

    /// Read the bits as they currently stand.
    pub fn get_bits(&self) -> (r: u32)
        ensures
            r == self.spec_bits(),
    {
        self.bits
    }

    /// Atomically set the bits of `mask`; returns the bits as they stand
    /// when the call returns.
    pub fn set_bits(&mut self, mask: u32) -> (r: u32)
        ensures
            final(self).spec_bits() == (old(self).spec_bits() | mask),
            r == final(self).spec_bits(),
    {
        self.bits = self.bits | mask;
        self.bits
    }

    /// Atomically clear the bits of `mask`; returns the bits as they
    /// stood before the clear.
    pub fn clear_bits(&mut self, mask: u32) -> (r: u32)
        ensures
            final(self).spec_bits() == (old(self).spec_bits() & !mask),
            r == old(self).spec_bits(),
    {
        let before = self.bits;
        self.bits = self.bits & !mask;
        before
    }

    /// One poll of the wait primitive. If the awaited condition holds,
    /// the bits are returned as observed — so the caller can still read
    /// every awaited bit — and, when `clear_on_wake` is set, the mask's
    /// bits are cleared from the group in the same atomic step. Otherwise
    /// the group is untouched and the caller blocks (`None`), to poll
    /// again after a set or give up on timeout.
    pub fn try_wait_bits(&mut self, mask: u32, clear_on_wake: bool, wait_for_all: bool) -> (r:
        Option<u32>)
        ensures
            ({
                let pre = *old(self);
                let post = *final(self);
                if wait_satisfied(pre.spec_bits(), mask, wait_for_all) {
                    &&& r == Some(pre.spec_bits())
                    &&& post.spec_bits() == (if clear_on_wake {
                        pre.spec_bits() & !mask
                    } else {
                        pre.spec_bits()
                    })
                } else {
                    &&& r is None
                    &&& post == pre
                }
            }),
    {
        let ready = if wait_for_all {
            self.bits & mask == mask
        } else {
            self.bits & mask != 0
        };
        if ready {
            let observed = self.bits;
            if clear_on_wake {
                self.bits = self.bits & !mask;
            }
            Some(observed)
        } else {
            None
        }
    }
}

} // verus!
