//! The result slot: the single-slot mailbox between the synchronous native
//! callback and the asynchronous consumer.
//!
//! The slot is pending until the callback, fired during one process-result
//! invocation, writes a value or an error. The consumer must read strictly
//! after that write — [`ResultSlot::take`] demands a written value — and the
//! read empties the slot, so a repeating operation starts every cycle with a
//! pending slot and an intervening event can never be lost unread.

use vstd::prelude::*;

use crate::errors::ServiceError;

verus! {

/// The hand-off cell for one discovery operation's results.
pub struct ResultSlot<T> {
    value: Option<Result<T, ServiceError>>,
}

impl<T> ResultSlot<T> {
    /// What the slot holds: `None` while pending, `Some` once the callback
    /// has written.
    pub closed spec fn contents(self) -> Option<Result<T, ServiceError>> {
        self.value
    }

    /// Whether the slot awaits its next write.
    pub open spec fn is_pending(self) -> bool {
        self.contents() is None
    }

    /// A pending slot, made together with its discovery session.
    pub fn new() -> (s: ResultSlot<T>)
        ensures
            s.is_pending(),
    {
        ResultSlot { value: None }
    }

    /// The callback's write: stores the cycle's result, replacing whatever
    /// the slot held.
    pub fn write(&mut self, v: Result<T, ServiceError>)
        ensures
            final(self).contents() == Some(v),
    {
        self.value = Some(v);
    }

    /// The consumer's read: empties the slot and yields the written value.
    /// Reading demands a written value, so it can only happen after the
    /// callback has fired.
    pub fn take(&mut self) -> (r: Result<T, ServiceError>)
        requires
            old(self).contents() is Some,
        ensures
            final(self).is_pending(),
            old(self).contents() == Some(r),
    {
        let mut v: Option<Result<T, ServiceError>> = None;
        core::mem::swap(&mut v, &mut self.value);
        match v {
            Some(r) => r,
            None => unreached(),
        }
    }
}

} // verus!
