//! The readiness adapter's decision: what one poll of the session's
//! descriptor means for the operation driving it.
//!
//! The reactor polls the descriptor for readability. A readable descriptor
//! means the provider has a pending callback to deliver, so the cycle
//! proceeds to process-result. A poll that reports no readiness yet — a
//! spurious wake-up included — only re-suspends the operation; it is never an
//! error and never completes the cycle. A failed poll terminates the
//! operation with an IO error.

use vstd::prelude::*;

use crate::errors::Error;

verus! {

/// What one poll of the descriptor reported.
#[derive(Clone, Copy, Debug, PartialEq, Eq, Structural)]
pub enum PollStatus {
    /// The descriptor is readable: a result awaits processing.
    Readable,
    /// Not readable yet, a spurious wake-up included.
    NotReady,
    /// The poll itself failed: descriptor closed or reactor error.
    Failed,
}

/// What the operation does next.
#[derive(Clone, Copy, Debug, PartialEq, Eq, Structural)]
pub enum ReadinessStep {
    /// Invoke process-result and read the slot.
    Proceed,
    /// Suspend again until the descriptor becomes readable.
    Suspend,
    /// Terminate the operation with an IO error.
    Abort,
}

/// The adapter's decision for one poll outcome.
pub open spec fn readiness_step_of(s: PollStatus) -> ReadinessStep {
    match s {
        PollStatus::Readable => ReadinessStep::Proceed,
        PollStatus::NotReady => ReadinessStep::Suspend,
        PollStatus::Failed => ReadinessStep::Abort,
    }
}

/// Decides the next step from one poll of the descriptor: proceed only on
/// readability, re-suspend on a spurious wake-up, abort on a poll failure.
pub fn readiness_action(s: PollStatus) -> (a: ReadinessStep)
    ensures
        a == readiness_step_of(s),
{
    match s {
        PollStatus::Readable => ReadinessStep::Proceed,
        PollStatus::NotReady => ReadinessStep::Suspend,
        PollStatus::Failed => ReadinessStep::Abort,
    }
}

/// What one "became readable" wait resolves to, given the successive poll
/// outcomes the reactor reports: the wait re-suspends through every spurious
/// wake-up, resolves at the first readable poll, and fails at the first poll
/// error. While every poll so far said not ready, the wait is still
/// suspended.
pub fn resolve_wait(polls: &Vec<PollStatus>) -> (r: Option<Result<usize, Error>>)
    ensures
        r is None ==> (forall|k: int| 0 <= k < polls@.len() ==> polls@[k] is NotReady),
        r matches Some(Ok(i)) ==> (i < polls@.len() && polls@[i as int] is Readable && (forall|
            k: int,
        | 0 <= k < i ==> polls@[k] is NotReady)),
        r matches Some(Err(e)) ==> (e == Error::IoError && (exists|i: int|
            0 <= i < polls@.len() && polls@[i] is Failed && (forall|k: int|
                0 <= k < i ==> polls@[k] is NotReady))),
{
    let mut k: usize = 0;
    while k < polls.len()
        invariant
            k <= polls@.len(),
            forall|j: int| 0 <= j < k ==> polls@[j] is NotReady,
        decreases polls@.len() - k,
    {
        match readiness_action(polls[k]) {
            ReadinessStep::Proceed => {
                return Some(Ok(k));
            },
            ReadinessStep::Suspend => {
                k = k + 1;
            },
            ReadinessStep::Abort => {
                proof {
                    assert(polls@[k as int] is Failed);
                }
                return Some(Err(Error::IoError));
            },
        }
    }
    None
}

} // verus!
