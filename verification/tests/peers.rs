use localchat::peer::{Peer, PeerEvent};
use localchat::state::PeerSet;
use localchat::wire::{IpAddress, SocketAddress};
use localchat::NetworkEvent;

fn peer(name: &str, last_octet: u8) -> Peer {
    Peer {
        servicename: name.to_string(),
        hostname: format!("{}.local.", name),
        socket_addr: SocketAddress { ip: IpAddress::V4(127, 0, 0, last_octet), port: 1337 },
    }
}

#[test]
fn add_and_drop_report_changes() {
    let mut set = PeerSet::new();
    assert_eq!(set.len(), 0);
    assert!(set.add_peer(peer("alice", 1)));
    assert!(set.add_peer(peer("bob", 2)));
    assert_eq!(set.len(), 2);
    assert!(set.contains(&peer("alice", 1)));

    // A peer already present is not added again.
    assert!(!set.add_peer(peer("alice", 1)));
    assert_eq!(set.len(), 2);

    assert!(set.drop_peer(&peer("alice", 1)));
    assert!(!set.contains(&peer("alice", 1)));
    assert_eq!(set.len(), 1);

    // Dropping an absent peer changes nothing.
    assert!(!set.drop_peer(&peer("carol", 3)));
    assert_eq!(set.len(), 1);
}

#[test]
fn events_drive_the_aggregate() {
    let mut set = PeerSet::new();
    let joined = PeerEvent { peer: peer("alice", 1), event: NetworkEvent::Joined };
    assert!(set.apply_event(joined));
    assert_eq!(set.len(), 1);

    let dropped = PeerEvent { peer: peer("alice", 1), event: NetworkEvent::Dropped };
    assert!(set.apply_event(dropped));
    assert_eq!(set.len(), 0);

    let dropped_again = PeerEvent { peer: peer("alice", 1), event: NetworkEvent::Dropped };
    assert!(!set.apply_event(dropped_again));
}

#[test]
fn peers_with_different_addresses_are_distinct() {
    let mut set = PeerSet::new();
    assert!(set.add_peer(peer("alice", 1)));
    assert!(set.add_peer(peer("alice", 2)));
    assert_eq!(set.len(), 2);
}
