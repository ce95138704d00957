//! The per-task notification slot: one 32-bit word and a pending flag, no
//! queue. A send merges with or replaces whatever is already stored,
//! according to the variant's rule; a receive consumes the pending flag.
//!
//! On the device the slot lives inside the kernel's task control block and
//! is driven through the notify and wait primitives; this model fixes the
//! exact merge semantics those primitives follow.

use crate::errors::Error;
use crate::freertos_task::TaskNotification;
use vstd::prelude::*;

verus! {

/// A task's notification slot: the stored word and whether a notification
/// is outstanding. At most one notification is ever outstanding; a second
/// send before consumption is lossy-or-merged, never queued.
#[derive(Debug, Copy, Clone, PartialEq, Eq, Structural)]
pub struct NotificationSlot {
    word: u32,
    pending: bool,
}

impl NotificationSlot {
    /// The stored notification word.
    pub closed spec fn spec_word(self) -> u32 {
        self.word
    }

    /// Whether a notification is outstanding.
    pub closed spec fn spec_pending(self) -> bool {
        self.pending
    }

    /// A fresh slot: word zero, nothing pending.
    pub fn new() -> (r: Self)
        ensures
            r.spec_word() == 0,
            !r.spec_pending(),
    {
        NotificationSlot { word: 0, pending: false }
    }

    /// Read the stored word without consuming anything.
    pub fn value(&self) -> (r: u32)
        ensures
            r == self.spec_word(),
    {
        self.word
    }

    /// Whether a notification is outstanding.
    pub fn has_pending(&self) -> (r: bool)
        ensures
            r == self.spec_pending(),
    {
        self.pending
    }

    /// Apply one send to the slot. Every variant marks a notification
    /// pending and unblocks a waiter; the stored word changes by the
    /// variant's rule:
    ///
    /// - `NoAction`: word unchanged;
    /// - `SetBits(v)`: word or-ed with `v`;
    /// - `Increment`: word plus one, wrapping at the 32-bit boundary;
    /// - `OverwriteValue(v)`: word becomes `v` unconditionally;
    /// - `SetValue(v)`: word becomes `v` only if nothing is pending,
    ///   otherwise the send fails and the slot is left untouched.
    pub fn send(&mut self, notification: TaskNotification) -> (r: Result<(), Error>)
        ensures
            ({
                let pre = *old(self);
                let post = *final(self);
                match notification {
                    TaskNotification::NoAction => {
                        &&& r is Ok
                        &&& post.spec_word() == pre.spec_word()
                        &&& post.spec_pending()
                    },
                    TaskNotification::SetBits(v) => {
                        &&& r is Ok
                        &&& post.spec_word() == (pre.spec_word() | v)
                        &&& post.spec_pending()
                    },
                    TaskNotification::Increment => {
                        &&& r is Ok
                        &&& post.spec_word() == (if pre.spec_word() == u32::MAX {
                            0u32
                        } else {
                            (pre.spec_word() + 1) as u32
                        })
                        &&& post.spec_pending()
                    },
                    TaskNotification::OverwriteValue(v) => {
                        &&& r is Ok
                        &&& post.spec_word() == v
                        &&& post.spec_pending()
                    },
                    TaskNotification::SetValue(v) => {
                        if pre.spec_pending() {
                            &&& r == Err::<(), Error>(Error::NotificationPending)
                            &&& post == pre
                        } else {
                            &&& r is Ok
                            &&& post.spec_word() == v
                            &&& post.spec_pending()
                        }
                    },
                }
            }),
    {
        match notification {
            TaskNotification::NoAction => {
                self.pending = true;
                Ok(())
            },
            TaskNotification::SetBits(v) => {
                self.word = self.word | v;
                self.pending = true;
                Ok(())
            },
            TaskNotification::Increment => {
                self.word = if self.word == u32::MAX {
                    0
                } else {
                    self.word + 1
                };
                self.pending = true;
                Ok(())
            },
            TaskNotification::OverwriteValue(v) => {
                self.word = v;
                self.pending = true;
                Ok(())
            },
            TaskNotification::SetValue(v) => {
                if self.pending {
                    Err(Error::NotificationPending)
                } else {
                    self.word = v;
                    self.pending = true;
                    Ok(())
                }
            },
        }
    }

    /// One poll of the wait primitive. If a notification is pending it is
    /// consumed: the stored word is returned as it stood, and the
    /// exit-mask bits are cleared from the slot. Otherwise the entry-mask
    /// bits are cleared and the caller blocks (`None`), to poll again
    /// after a send or give up on timeout.
    pub fn receive(&mut self, clear_on_entry: u32, clear_on_exit: u32) -> (r: Option<u32>)
        ensures
            ({
                let pre = *old(self);
                let post = *final(self);
                if pre.spec_pending() {
                    &&& r == Some(pre.spec_word())
                    &&& post.spec_word() == (pre.spec_word() & !clear_on_exit)
                    &&& !post.spec_pending()
                } else {
                    &&& r is None
                    &&& post.spec_word() == (pre.spec_word() & !clear_on_entry)
                    &&& !post.spec_pending()
                }
            }),
    {
        if self.pending {
            let value = self.word;
            self.word = self.word & !clear_on_exit;
            self.pending = false;
            Some(value)
        } else {
            self.word = self.word & !clear_on_entry;
            None
        }
    }
}

} // verus!
