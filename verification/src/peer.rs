//! Peers and the pipeline that discovers them.
//!
//! The pipeline consumes the browse sequence; for each browse event it
//! resolves the service to a host record, then the host to an address, and
//! emits a peer event carrying the combined endpoint, tagged as the browse
//! event was. A failure of any stage — the browse sequence itself, a
//! resolution, or an address lookup — aborts the whole pipeline; this
//! mirrors the strict policy of propagating every resolution failure rather
//! than skipping the one event.
//!
//! The pipeline is a state machine: [`pipeline_step`] maps the current state
//! and one completed operation to the next state and the action the driver
//! must take. The driver outside the crate performs the action — start a
//! resolve, start an address lookup, emit, abort — and feeds the completion
//! back in.

use vstd::prelude::*;

use crate::dnssd::{BrowseEvent, BrowseEventView, Host, HostView, Service, ServiceView};
use crate::errors::Error;
use crate::wire::{IpAddress, SocketAddress};
use crate::NetworkEvent;

verus! {

/// A fully resolved remote endpoint.
#[derive(Clone, Debug)]
pub struct Peer {
    pub servicename: String,
    pub hostname: String,
    pub socket_addr: SocketAddress,
}

/// The mathematical value of a [`Peer`].
pub ghost struct PeerView {
    pub servicename: Seq<char>,
    pub hostname: Seq<char>,
    pub socket_addr: SocketAddress,
}

impl View for Peer {
    type V = PeerView;

    open spec fn view(&self) -> PeerView {
        PeerView {
            servicename: self.servicename@,
            hostname: self.hostname@,
            socket_addr: self.socket_addr,
        }
    }
}

impl PartialEq for Peer {
    fn eq(&self, other: &Peer) -> bool {
        self.servicename == other.servicename && self.hostname == other.hostname
            && self.socket_addr == other.socket_addr
    }
}

impl vstd::std_specs::cmp::PartialEqSpecImpl for Peer {
    open spec fn obeys_eq_spec() -> bool {
        true
    }

    open spec fn eq_spec(&self, other: &Peer) -> bool {
        self@ == other@
    }
}

/// A peer joining or leaving the network.
#[derive(Clone, Debug)]
pub struct PeerEvent {
    pub peer: Peer,
    pub event: NetworkEvent,
}

/// The mathematical value of a [`PeerEvent`].
pub ghost struct PeerEventView {
    pub peer: PeerView,
    pub event: NetworkEvent,
}

impl View for PeerEvent {
    type V = PeerEventView;

    open spec fn view(&self) -> PeerEventView {
        PeerEventView { peer: self.peer@, event: self.event }
    }
}

/// The peer a completed resolution chain denotes: the service's name, the
/// resolved hostname, and the address with the host record's port.
pub open spec fn peer_of(s: ServiceView, h: HostView, a: IpAddress) -> PeerView {
    PeerView {
        servicename: s.name,
        hostname: h.name,
        socket_addr: SocketAddress { ip: a, port: h.port as u16 },
    }
}

/// Combines a browse event's service, its host record and its address into
/// the peer the pipeline emits.
pub fn make_peer(service: &Service, host: Host, addr: IpAddress) -> (p: Peer)
    ensures
        p@ == peer_of(service@, host@, addr),
{
    let servicename = service.name.clone();
    Peer {
        servicename,
        hostname: host.name,
        socket_addr: SocketAddress { ip: addr, port: host.port },
    }
}

/// Where the pipeline stands: what it awaits, and for which event.
#[derive(Debug)]
pub enum PipelineState {
    /// Awaiting the next browse event.
    Browsing,
    /// A browse event arrived; awaiting its service's host record.
    Resolving(NetworkEvent, Service),
    /// The host record arrived; awaiting its address.
    Addressing(NetworkEvent, Service, Host),
    /// Terminal: a stage failed and the pipeline aborted.
    Failed,
}

/// The mathematical value of a [`PipelineState`].
pub ghost enum PipelineStateView {
    Browsing,
    Resolving(NetworkEvent, ServiceView),
    Addressing(NetworkEvent, ServiceView, HostView),
    Failed,
}

impl View for PipelineState {
    type V = PipelineStateView;

    open spec fn view(&self) -> PipelineStateView {
        match self {
            PipelineState::Browsing => PipelineStateView::Browsing,
            PipelineState::Resolving(k, s) => PipelineStateView::Resolving(*k, s@),
            PipelineState::Addressing(k, s, h) => PipelineStateView::Addressing(*k, s@, h@),
            PipelineState::Failed => PipelineStateView::Failed,
        }
    }
}

/// One completed operation fed into the pipeline: the outcome of the stage
/// the pipeline was awaiting.
#[derive(Debug)]
pub enum PipelineInput {
    Browsed(Result<BrowseEvent, Error>),
    Resolved(Result<Host, Error>),
    Addressed(Result<IpAddress, Error>),
}

/// The mathematical value of a [`PipelineInput`].
pub ghost enum PipelineInputView {
    Browsed(Result<BrowseEventView, Error>),
    Resolved(Result<HostView, Error>),
    Addressed(Result<IpAddress, Error>),
}

impl View for PipelineInput {
    type V = PipelineInputView;

    open spec fn view(&self) -> PipelineInputView {
        match self {
            PipelineInput::Browsed(Ok(ev)) => PipelineInputView::Browsed(Ok(ev@)),
            PipelineInput::Browsed(Err(e)) => PipelineInputView::Browsed(Err(*e)),
            PipelineInput::Resolved(Ok(h)) => PipelineInputView::Resolved(Ok(h@)),
            PipelineInput::Resolved(Err(e)) => PipelineInputView::Resolved(Err(*e)),
            PipelineInput::Addressed(Ok(a)) => PipelineInputView::Addressed(Ok(*a)),
            PipelineInput::Addressed(Err(e)) => PipelineInputView::Addressed(Err(*e)),
        }
    }
}

/// What the driver must do after one step.
#[derive(Debug)]
pub enum PipelineAction {
    /// Launch a resolve of the service.
    StartResolve(Service),
    /// Launch an address lookup of the host.
    StartAddress(Host),
    /// Emit the peer event and await the next browse event.
    Emit(PeerEvent),
    /// Abort the pipeline with the error.
    Abort(Error),
}

/// The mathematical value of a [`PipelineAction`].
pub ghost enum PipelineActionView {
    StartResolve(ServiceView),
    StartAddress(HostView),
    Emit(PeerEventView),
    Abort(Error),
}

impl View for PipelineAction {
    type V = PipelineActionView;

    open spec fn view(&self) -> PipelineActionView {
        match self {
            PipelineAction::StartResolve(s) => PipelineActionView::StartResolve(s@),
            PipelineAction::StartAddress(h) => PipelineActionView::StartAddress(h@),
            PipelineAction::Emit(ev) => PipelineActionView::Emit(ev@),
            PipelineAction::Abort(e) => PipelineActionView::Abort(*e),
        }
    }
}

/// The pipeline's transition relation: the next state and action for one
/// state and completed operation, or `None` where the input is not the one
/// the state awaits. A joined or dropped service starts a resolve tagged
/// with its event kind; a host record starts an address lookup; an address
/// completes the chain and emits the peer, tagged as the browse event was;
/// any error aborts the whole pipeline with that error.
pub open spec fn spec_pipeline_step(state: PipelineStateView, input: PipelineInputView) -> Option<
    (PipelineStateView, PipelineActionView),
> {
    match (state, input) {
        (PipelineStateView::Browsing, PipelineInputView::Browsed(res)) => match res {
            Ok(BrowseEventView::Joined(s)) => Some(
                (
                    PipelineStateView::Resolving(NetworkEvent::Joined, s),
                    PipelineActionView::StartResolve(s),
                ),
            ),
            Ok(BrowseEventView::Dropped(s)) => Some(
                (
                    PipelineStateView::Resolving(NetworkEvent::Dropped, s),
                    PipelineActionView::StartResolve(s),
                ),
            ),
            Err(e) => Some((PipelineStateView::Failed, PipelineActionView::Abort(e))),
        },
        (PipelineStateView::Resolving(k, s), PipelineInputView::Resolved(res)) => match res {
            Ok(h) => Some(
                (PipelineStateView::Addressing(k, s, h), PipelineActionView::StartAddress(h)),
            ),
            Err(e) => Some((PipelineStateView::Failed, PipelineActionView::Abort(e))),
        },
        (PipelineStateView::Addressing(k, s, h), PipelineInputView::Addressed(res)) => match res {
            Ok(a) => Some(
                (
                    PipelineStateView::Browsing,
                    PipelineActionView::Emit(PeerEventView { peer: peer_of(s, h, a), event: k }),
                ),
            ),
            Err(e) => Some((PipelineStateView::Failed, PipelineActionView::Abort(e))),
        },
        _ => None,
    }
}

/// Advances the pipeline by one completed operation. The input must be the
/// completion of the stage the state awaits, and the pipeline must not have
/// aborted: nothing follows a failure.
pub fn pipeline_step(state: PipelineState, input: PipelineInput) -> (r: (
    PipelineState,
    PipelineAction,
))
    requires
        spec_pipeline_step(state@, input@) is Some,
    ensures
        r.0@ == spec_pipeline_step(state@, input@)->Some_0.0,
        r.1@ == spec_pipeline_step(state@, input@)->Some_0.1,
{
    match (state, input) {
        (PipelineState::Browsing, PipelineInput::Browsed(res)) => match res {
            Ok(BrowseEvent::Joined(s)) => {
                let action = PipelineAction::StartResolve(s.clone());
                (PipelineState::Resolving(NetworkEvent::Joined, s), action)
            },
            Ok(BrowseEvent::Dropped(s)) => {
                let action = PipelineAction::StartResolve(s.clone());
                (PipelineState::Resolving(NetworkEvent::Dropped, s), action)
            },
            Err(e) => (PipelineState::Failed, PipelineAction::Abort(e)),
        },
        (PipelineState::Resolving(k, s), PipelineInput::Resolved(res)) => match res {
            Ok(h) => {
                let action = PipelineAction::StartAddress(h.clone());
                (PipelineState::Addressing(k, s, h), action)
            },
            Err(e) => (PipelineState::Failed, PipelineAction::Abort(e)),
        },
        (PipelineState::Addressing(k, s, h), PipelineInput::Addressed(res)) => match res {
            Ok(a) => {
                let peer = make_peer(&s, h, a);
                (PipelineState::Browsing, PipelineAction::Emit(PeerEvent { peer, event: k }))
            },
            Err(e) => (PipelineState::Failed, PipelineAction::Abort(e)),
        },
        _ => unreached(),
    }
}

} // verus!
