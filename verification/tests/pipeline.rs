use localchat::dnssd::{BrowseEvent, Host, Service};
use localchat::errors::{Error, ServiceError};
use localchat::peer::{
    make_peer, pipeline_step, Peer, PipelineAction, PipelineInput, PipelineState,
};
use localchat::wire::{IpAddress, SocketAddress};
use localchat::NetworkEvent;

fn alice_service() -> Service {
    Service {
        name: "alice".to_string(),
        regtype: "_chat._tcp.".to_string(),
        domain: "local.".to_string(),
    }
}

#[test]
fn make_peer_combines_the_chain() {
    let host = Host { name: "alice.local.".to_string(), port: 1337 };
    let peer = make_peer(&alice_service(), host, IpAddress::V4(127, 0, 0, 1));
    assert_eq!(peer.servicename, "alice");
    assert_eq!(peer.hostname, "alice.local.");
    assert_eq!(
        peer.socket_addr,
        SocketAddress { ip: IpAddress::V4(127, 0, 0, 1), port: 1337 }
    );
}

#[test]
fn browse_to_peer_end_to_end() {
    // A joined service starts a resolve.
    let (state, action) = pipeline_step(
        PipelineState::Browsing,
        PipelineInput::Browsed(Ok(BrowseEvent::Joined(alice_service()))),
    );
    match &action {
        PipelineAction::StartResolve(s) => assert_eq!(*s, alice_service()),
        other => panic!("expected a resolve to start, got {:?}", other),
    }

    // The host record starts an address lookup.
    let host = Host { name: "alice.local.".to_string(), port: 1337 };
    let (state, action) = pipeline_step(state, PipelineInput::Resolved(Ok(host.clone())));
    match &action {
        PipelineAction::StartAddress(h) => assert_eq!(*h, host),
        other => panic!("expected an address lookup to start, got {:?}", other),
    }

    // The address completes the chain and emits the joined peer.
    let (state, action) =
        pipeline_step(state, PipelineInput::Addressed(Ok(IpAddress::V4(127, 0, 0, 1))));
    match action {
        PipelineAction::Emit(ev) => {
            assert!(matches!(ev.event, NetworkEvent::Joined));
            assert_eq!(ev.peer.servicename, "alice");
            assert_eq!(ev.peer.hostname, "alice.local.");
            assert_eq!(
                ev.peer.socket_addr,
                SocketAddress { ip: IpAddress::V4(127, 0, 0, 1), port: 1337 }
            );
        },
        other => panic!("expected the peer to be emitted, got {:?}", other),
    }
    assert!(matches!(state, PipelineState::Browsing));
}

#[test]
fn dropped_service_keeps_its_tag() {
    let (state, _) = pipeline_step(
        PipelineState::Browsing,
        PipelineInput::Browsed(Ok(BrowseEvent::Dropped(alice_service()))),
    );
    let host = Host { name: "alice.local.".to_string(), port: 1337 };
    let (state, _) = pipeline_step(state, PipelineInput::Resolved(Ok(host)));
    let (_, action) =
        pipeline_step(state, PipelineInput::Addressed(Ok(IpAddress::V4(127, 0, 0, 1))));
    match action {
        PipelineAction::Emit(ev) => assert!(matches!(ev.event, NetworkEvent::Dropped)),
        other => panic!("expected the peer to be emitted, got {:?}", other),
    }
}

#[test]
fn browse_error_aborts_the_pipeline() {
    let (state, action) = pipeline_step(
        PipelineState::Browsing,
        PipelineInput::Browsed(Err(Error::ServiceError(ServiceError::Timeout))),
    );
    assert!(matches!(state, PipelineState::Failed));
    match action {
        PipelineAction::Abort(e) => {
            assert_eq!(e, Error::ServiceError(ServiceError::Timeout))
        },
        other => panic!("expected an abort, got {:?}", other),
    }
}

#[test]
fn resolve_error_aborts_the_pipeline() {
    let (state, _) = pipeline_step(
        PipelineState::Browsing,
        PipelineInput::Browsed(Ok(BrowseEvent::Joined(alice_service()))),
    );
    let (state, action) =
        pipeline_step(state, PipelineInput::Resolved(Err(Error::IoError)));
    assert!(matches!(state, PipelineState::Failed));
    assert!(matches!(action, PipelineAction::Abort(Error::IoError)));
}

#[test]
fn address_error_aborts_the_pipeline() {
    let (state, _) = pipeline_step(
        PipelineState::Browsing,
        PipelineInput::Browsed(Ok(BrowseEvent::Joined(alice_service()))),
    );
    let host = Host { name: "alice.local.".to_string(), port: 1337 };
    let (state, _) = pipeline_step(state, PipelineInput::Resolved(Ok(host)));
    let (state, action) = pipeline_step(
        state,
        PipelineInput::Addressed(Err(Error::ServiceError(ServiceError::NoSuchRecord))),
    );
    assert!(matches!(state, PipelineState::Failed));
    assert!(matches!(action, PipelineAction::Abort(_)));
}

#[test]
fn peer_equality_is_by_value() {
    let a = Peer {
        servicename: "alice".to_string(),
        hostname: "alice.local.".to_string(),
        socket_addr: SocketAddress { ip: IpAddress::V4(127, 0, 0, 1), port: 1337 },
    };
    let b = Peer {
        servicename: "alice".to_string(),
        hostname: "alice.local.".to_string(),
        socket_addr: SocketAddress { ip: IpAddress::V4(127, 0, 0, 1), port: 1337 },
    };
    let c = Peer {
        servicename: "bob".to_string(),
        hostname: "alice.local.".to_string(),
        socket_addr: SocketAddress { ip: IpAddress::V4(127, 0, 0, 1), port: 1337 },
    };
    assert_eq!(a, b);
    assert_ne!(a, c);
}
