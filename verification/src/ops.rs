//! The skeleton shared by the four discovery operations — register, browse,
//! resolve, get-address — and the cycle that drives it.
//!
//! Every operation runs the same cycle over its session: wait for the
//! descriptor to become readable, invoke process-result (during which the
//! native callback writes the result slot), read the slot, and yield the
//! value. A one-shot operation then deallocates; browse arms the next wait
//! and repeats until an error or cancellation ends it. The functions here
//! are that skeleton with the native work abstracted to the values it hands
//! over: the status codes the provider returns and the value its callback
//! writes.

use vstd::prelude::*;

use crate::dnssd::{browse_event_of, browse_outcome, check_status, code_ok, descriptor_outcome};
use crate::dnssd::{BrowseEvent, BrowseEventView, ServiceView};
use crate::errors::{error_from_code, Error, ServiceError};
use crate::session::{DiscoverySession, Phase, SessionEvent};
use crate::slot::ResultSlot;

verus! {

/// Opens a session from a discovery call's status code and the descriptor
/// the provider reports for it: the call must have succeeded and the
/// descriptor must not be the failure sentinel.
pub fn start_session(start_code: i32, fd: i32) -> (r: Result<DiscoverySession, ServiceError>)
    ensures
        code_ok(start_code as int) && fd != -1 ==> (r matches Ok(s) && s.wf() && s.phase()
            == Phase::Created && s.trace() == Seq::<SessionEvent>::empty() && s.spec_descriptor()
            == fd),
        !code_ok(start_code as int) ==> (r matches Err(e) && e == error_from_code(
            start_code as int,
        )),
        code_ok(start_code as int) && fd == -1 ==> (r matches Err(e) && e is Unknown),
{
    match check_status(start_code) {
        Ok(_) => match descriptor_outcome(fd) {
            Ok(d) => Ok(DiscoverySession::new(d)),
            Err(e) => Err(e),
        },
        Err(e) => Err(e),
    }
}

/// Completes a one-shot operation whose wait has been armed: processes the
/// pending result, reads the slot, and deallocates the session in every
/// outcome. `process_code` is the status process-result returned and
/// `callback_value` the value the callback wrote during it; the slot is only
/// read after a successful process-result, and the value comes through
/// unchanged.
pub fn complete_one_shot<T>(
    session: &mut DiscoverySession,
    slot: &mut ResultSlot<T>,
    process_code: i32,
    callback_value: Result<T, ServiceError>,
) -> (r: Result<T, Error>)
    requires
        old(session).wf(),
        old(session).phase() == Phase::AwaitingReadiness,
        old(slot).is_pending(),
    ensures
        final(session).wf(),
        final(session).phase() == Phase::Completed,
        final(session).trace() == old(session).trace().push(SessionEvent::Process).push(
            SessionEvent::Deallocate,
        ),
        final(slot).is_pending(),
        !code_ok(process_code as int) ==> (r matches Err(e) && e == Error::ServiceError(
            error_from_code(process_code as int),
        )),
        code_ok(process_code as int) ==> (callback_value matches Ok(v) ==> (r matches Ok(w) && w
            == v)),
        code_ok(process_code as int) ==> (callback_value matches Err(k) ==> (r matches Err(e) && e
            == Error::ServiceError(k))),
{
    session.process();
    let result = match check_status(process_code) {
        Ok(_) => {
            slot.write(callback_value);
            match slot.take() {
                Ok(t) => Ok(t),
                Err(k) => Err(Error::ServiceError(k)),
            }
        },
        Err(e) => Err(Error::ServiceError(e)),
    };
    session.deallocate();
    result
}

/// Everything the provider hands a browse callback in one cycle: the status
/// of that cycle's result, the event flags, and the announced service
/// identity.
#[derive(Debug)]
pub struct BrowseSignal {
    pub code: i32,
    pub flags: u32,
    pub name: String,
    pub regtype: String,
    pub domain: String,
}

/// The mathematical value of a [`BrowseSignal`].
pub ghost struct BrowseSignalView {
    pub code: int,
    pub flags: u32,
    pub name: Seq<char>,
    pub regtype: Seq<char>,
    pub domain: Seq<char>,
}

impl View for BrowseSignal {
    type V = BrowseSignalView;

    open spec fn view(&self) -> BrowseSignalView {
        BrowseSignalView {
            code: self.code as int,
            flags: self.flags,
            name: self.name@,
            regtype: self.regtype@,
            domain: self.domain@,
        }
    }
}

/// The browse event a successful signal announces.
pub open spec fn signal_event(s: BrowseSignalView) -> BrowseEventView {
    browse_event_of(s.flags, ServiceView { name: s.name, regtype: s.regtype, domain: s.domain })
}

/// Runs a browse session over a sequence of readiness signals, reading the
/// slot between every cycle and the next, and returns the events in arrival
/// order together with the error, if one ended the sequence.
///
/// Every signal up to the first failing one yields exactly its event, in
/// order and without loss; a failing signal ends the run with its error and
/// no further event; and the session is deallocated exactly once, whichever
/// way the run ends.
pub fn run_browse_cycles(descriptor: i32, signals: Vec<BrowseSignal>) -> (r: (
    Vec<BrowseEvent>,
    Option<ServiceError>,
))
    ensures
        r.0@.len() <= signals@.len(),
        forall|k: int|
            0 <= k < r.0@.len() ==> code_ok((#[trigger] signals@[k])@.code) && r.0@[k]@
                == signal_event(signals@[k]@),
        r.1 is None ==> r.0@.len() == signals@.len(),
        r.1 matches Some(e) ==> (r.0@.len() < signals@.len() && !code_ok(
            signals@[r.0@.len() as int]@.code,
        ) && e == error_from_code(signals@[r.0@.len() as int]@.code)),
        (forall|k: int| 0 <= k < signals@.len() ==> code_ok((#[trigger] signals@[k])@.code))
            ==> r.1 is None,
{
    let mut session = DiscoverySession::new(descriptor);
    let mut slot = ResultSlot::<BrowseEvent>::new();
    let mut events: Vec<BrowseEvent> = Vec::new();
    let mut failure: Option<ServiceError> = None;
    let mut i: usize = 0;
    let mut done = false;
    while i < signals.len() && !done
        invariant
            i <= signals@.len(),
            events@.len() == i,
            session.wf(),
            session.phase() != Phase::Completed,
            session.phase() == (if i == 0 && !done {
                Phase::Created
            } else {
                Phase::Processing
            }),
            slot.is_pending(),
            forall|k: int|
                0 <= k < i ==> code_ok((#[trigger] signals@[k])@.code) && events@[k]@
                    == signal_event(signals@[k]@),
            !done ==> failure is None,
            done ==> (i < signals@.len() && !code_ok(signals@[i as int]@.code) && (
            failure matches Some(e) && e == error_from_code(signals@[i as int]@.code))),
        decreases signals@.len() - i, (if done {
            0int
        } else {
            1int
        }),
    {
        session.arm();
        session.process();
        let s = &signals[i];
        let outcome = browse_outcome(
            s.code,
            s.flags,
            s.name.clone(),
            s.regtype.clone(),
            s.domain.clone(),
        );
        slot.write(outcome);
        match slot.take() {
            Ok(ev) => {
                events.push(ev);
                i = i + 1;
            },
            Err(e) => {
                failure = Some(e);
                done = true;
            },
        }
    }
    session.deallocate();
    (events, failure)
}

} // verus!
