//! The lifecycle of one discovery session.
//!
//! A session is one open interaction with the native provider: an opaque
//! native handle and the OS descriptor attached to it. Its life is a strict
//! cycle — arm a wait on the descriptor, run process-result (during which the
//! native callback fires and writes the result slot), read, and either arm
//! again (a repeating operation) or deallocate. Every terminal transition —
//! completion, a terminal error, or cancellation — deallocates the native
//! handle, and nothing may touch the session afterwards.
//!
//! The lifecycle is modelled twice: as a transition relation over event
//! traces, about which the laws at the bottom are proved, and as the
//! executable [`DiscoverySession`] whose methods keep their trace valid.

use vstd::prelude::*;

verus! {

/// The lifecycle phase of one discovery session.
#[derive(Clone, Copy, Debug, PartialEq, Eq, Structural)]
pub enum Phase {
    /// The discovery call succeeded and the descriptor was obtained.
    Created,
    /// A wait on the descriptor is armed.
    AwaitingReadiness,
    /// Process-result ran; the callback has written the result slot.
    Processing,
    /// Terminal: the native handle has been deallocated.
    Completed,
}

/// One observable step of a session's lifecycle.
#[derive(Clone, Copy, Debug, PartialEq, Eq, Structural)]
pub enum SessionEvent {
    /// Arm a wait on the session's descriptor.
    Arm,
    /// Run process-result: the native callback fires and writes the slot.
    Process,
    /// Deallocate the native handle, on completion, error or cancellation.
    Deallocate,
}

/// The phase a session moves to when an event happens, or `None` where the
/// lifecycle forbids the event. No event is permitted after `Completed`.
pub open spec fn phase_after(p: Phase, e: SessionEvent) -> Option<Phase> {
    match (p, e) {
        (Phase::Created, SessionEvent::Arm) => Some(Phase::AwaitingReadiness),
        (Phase::Processing, SessionEvent::Arm) => Some(Phase::AwaitingReadiness),
        (Phase::AwaitingReadiness, SessionEvent::Process) => Some(Phase::Processing),
        (Phase::Created, SessionEvent::Deallocate) => Some(Phase::Completed),
        (Phase::AwaitingReadiness, SessionEvent::Deallocate) => Some(Phase::Completed),
        (Phase::Processing, SessionEvent::Deallocate) => Some(Phase::Completed),
        _ => None,
    }
}

/// Whether every event of the trace is permitted, starting from phase `p`.
pub open spec fn valid_trace_from(p: Phase, t: Seq<SessionEvent>) -> bool
    decreases t.len(),
{
    t.len() == 0 || {
        &&& phase_after(p, t[0]) is Some
        &&& valid_trace_from(phase_after(p, t[0])->Some_0, t.drop_first())
    }
}

/// The phase a valid trace ends in, starting from phase `p`.
pub open spec fn run_trace(p: Phase, t: Seq<SessionEvent>) -> Phase
    recommends
        valid_trace_from(p, t),
    decreases t.len(),
{
    if t.len() == 0 {
        p
    } else {
        run_trace(phase_after(p, t[0])->Some_0, t.drop_first())
    }
}

/// Whether the trace is a valid lifecycle of a freshly created session.
pub open spec fn valid_trace(t: Seq<SessionEvent>) -> bool {
    valid_trace_from(Phase::Created, t)
}

/// Nothing can happen to a completed session: the only trace from the
/// terminal phase is the empty one.
pub proof fn lemma_completed_absorbs(t: Seq<SessionEvent>)
    requires
        valid_trace_from(Phase::Completed, t),
    ensures
        t.len() == 0,
{
    if t.len() > 0 {
        assert(phase_after(Phase::Completed, t[0]) is None);
    }
}

/// A deallocation can only be the last event of a valid trace.
pub proof fn lemma_deallocate_is_last(p: Phase, t: Seq<SessionEvent>, i: int)
    requires
        valid_trace_from(p, t),
        0 <= i < t.len(),
        t[i] == SessionEvent::Deallocate,
    ensures
        i == t.len() - 1,
    decreases t.len(),
{
    let p1 = phase_after(p, t[0])->Some_0;
    if i == 0 {
        assert(p1 == Phase::Completed);
        lemma_completed_absorbs(t.drop_first());
    } else {
        assert(t.drop_first()[i - 1] == t[i]);
        lemma_deallocate_is_last(p1, t.drop_first(), i - 1);
    }
}

/// A valid trace that ends in the terminal phase ends with a deallocation.
pub proof fn lemma_terminal_ends_with_deallocate(p: Phase, t: Seq<SessionEvent>)
    requires
        valid_trace_from(p, t),
        p != Phase::Completed,
        run_trace(p, t) == Phase::Completed,
    ensures
        t.len() > 0,
        t[t.len() - 1] == SessionEvent::Deallocate,
    decreases t.len(),
{
    let p1 = phase_after(p, t[0])->Some_0;
    if t.len() == 1 {
        assert(run_trace(p1, t.drop_first()) == p1);
    } else {
        if p1 == Phase::Completed {
            lemma_completed_absorbs(t.drop_first());
        }
        lemma_terminal_ends_with_deallocate(p1, t.drop_first());
        assert(t.drop_first()[t.len() - 2] == t[t.len() - 1]);
    }
}

/// Law: a session that reaches its terminal phase is deallocated exactly
/// once — the deallocation is the final event of its lifecycle, and no
/// earlier event is a deallocation.
pub proof fn lemma_deallocate_exactly_once(t: Seq<SessionEvent>)
    requires
        valid_trace(t),
        run_trace(Phase::Created, t) == Phase::Completed,
    ensures
        t.len() > 0,
        t[t.len() - 1] == SessionEvent::Deallocate,
        forall|i: int| 0 <= i < t.len() - 1 ==> t[i] != SessionEvent::Deallocate,
{
    lemma_terminal_ends_with_deallocate(Phase::Created, t);
    assert forall|i: int| 0 <= i < t.len() - 1 implies t[i] != SessionEvent::Deallocate by {
        if t[i] == SessionEvent::Deallocate {
            lemma_deallocate_is_last(Phase::Created, t, i);
        }
    }
}

/// Law: no callback can fire after deallocation — a valid lifecycle never
/// has a processing event after a deallocation event.
pub proof fn lemma_no_processing_after_deallocate(t: Seq<SessionEvent>, i: int, j: int)
    requires
        valid_trace(t),
        0 <= i < j < t.len(),
        t[i] == SessionEvent::Deallocate,
    ensures
        t[j] != SessionEvent::Process,
{
    lemma_deallocate_is_last(Phase::Created, t, i);
}

/// One discovery session: its OS descriptor, its lifecycle phase, and the
/// history of lifecycle events it has gone through. The native handle itself
/// lives with the caller, who must mirror every step taken here on it —
/// in particular, deallocate it exactly when [`Self::deallocate`] runs.
pub struct DiscoverySession {
    descriptor: i32,
    phase: Phase,
    trace: Ghost<Seq<SessionEvent>>,
}

impl DiscoverySession {
    /// The session's lifecycle phase.
    pub closed spec fn phase(self) -> Phase {
        self.phase
    }

    /// The lifecycle events the session has gone through, in order.
    pub closed spec fn trace(self) -> Seq<SessionEvent> {
        self.trace@
    }

    /// The OS descriptor attached to the session.
    pub closed spec fn spec_descriptor(self) -> int {
        self.descriptor as int
    }

    /// The session's history is a valid lifecycle ending in its phase.
    pub closed spec fn wf(self) -> bool {
        &&& valid_trace(self.trace@)
        &&& run_trace(Phase::Created, self.trace@) == self.phase
    }

    /// Opens a session around the descriptor of a discovery call that just
    /// succeeded.
    pub fn new(descriptor: i32) -> (s: DiscoverySession)
        ensures
            s.wf(),
            s.phase() == Phase::Created,
            s.trace() == Seq::<SessionEvent>::empty(),
            s.spec_descriptor() == descriptor,
    {
        DiscoverySession { descriptor, phase: Phase::Created, trace: Ghost(Seq::empty()) }
    }

    /// Reads the descriptor, to hand to the readiness reactor.
    pub fn descriptor(&self) -> (d: i32)
        ensures
            d == self.spec_descriptor(),
    {
        self.descriptor
    }

    /// Reads the phase.
    pub fn current_phase(&self) -> (p: Phase)
        ensures
            p == self.phase(),
    {
        self.phase
    }

    /// Arms a wait on the descriptor: allowed when the session is fresh or
    /// has just processed a result, never after deallocation.
    pub fn arm(&mut self)
        requires
            old(self).wf(),
            old(self).phase() == Phase::Created || old(self).phase() == Phase::Processing,
        ensures
            final(self).wf(),
            final(self).phase() == Phase::AwaitingReadiness,
            final(self).trace() == old(self).trace().push(SessionEvent::Arm),
            final(self).spec_descriptor() == old(self).spec_descriptor(),
    {
        proof {
            lemma_run_trace_push(Phase::Created, self.trace@, SessionEvent::Arm);
        }
        self.phase = Phase::AwaitingReadiness;
        self.trace = Ghost(self.trace@.push(SessionEvent::Arm));
    }

    /// Records that readiness was observed and process-result ran, during
    /// which the callback wrote the result slot.
    pub fn process(&mut self)
        requires
            old(self).wf(),
            old(self).phase() == Phase::AwaitingReadiness,
        ensures
            final(self).wf(),
            final(self).phase() == Phase::Processing,
            final(self).trace() == old(self).trace().push(SessionEvent::Process),
            final(self).spec_descriptor() == old(self).spec_descriptor(),
    {
        proof {
            lemma_run_trace_push(Phase::Created, self.trace@, SessionEvent::Process);
        }
        self.phase = Phase::Processing;
        self.trace = Ghost(self.trace@.push(SessionEvent::Process));
    }

    /// Moves the session to its terminal phase. The caller deallocates the
    /// native handle at this point and at no other; the precondition makes a
    /// second deallocation impossible.
    pub fn deallocate(&mut self)
        requires
            old(self).wf(),
            old(self).phase() != Phase::Completed,
        ensures
            final(self).wf(),
            final(self).phase() == Phase::Completed,
            final(self).trace() == old(self).trace().push(SessionEvent::Deallocate),
            final(self).spec_descriptor() == old(self).spec_descriptor(),
    {
        proof {
            lemma_run_trace_push(Phase::Created, self.trace@, SessionEvent::Deallocate);
        }
        self.phase = Phase::Completed;
        self.trace = Ghost(self.trace@.push(SessionEvent::Deallocate));
    }
}

/// Appending a permitted event keeps a trace valid and runs it one step
/// further.
pub proof fn lemma_run_trace_push(p: Phase, t: Seq<SessionEvent>, e: SessionEvent)
    requires
        valid_trace_from(p, t),
        phase_after(run_trace(p, t), e) is Some,
    ensures
        valid_trace_from(p, t.push(e)),
        run_trace(p, t.push(e)) == phase_after(run_trace(p, t), e)->Some_0,
    decreases t.len(),
{
    if t.len() == 0 {
        let q = phase_after(p, e)->Some_0;
        assert(run_trace(p, t) == p);
        assert(t.push(e)[0] == e);
        assert(t.push(e).drop_first() =~= Seq::<SessionEvent>::empty());
        assert(valid_trace_from(q, Seq::<SessionEvent>::empty()));
        assert(run_trace(q, Seq::<SessionEvent>::empty()) == q);
    } else {
        let p1 = phase_after(p, t[0])->Some_0;
        assert(run_trace(p, t) == run_trace(p1, t.drop_first()));
        assert(t.push(e)[0] == t[0]);
        assert(t.push(e).drop_first() =~= t.drop_first().push(e));
        lemma_run_trace_push(p1, t.drop_first(), e);
    }
}

} // verus!
