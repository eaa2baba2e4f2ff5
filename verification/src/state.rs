//! The aggregate of peers currently on the network, kept by applying the
//! pipeline's peer events: a joined peer is added unless already present, a
//! dropped peer is removed.

use vstd::prelude::*;

use crate::peer::{Peer, PeerEvent, PeerView};
use crate::NetworkEvent;

verus! {

/// The peers currently known, each at most once.
#[derive(Debug)]
pub struct PeerSet {
    peers: Vec<Peer>,
}

impl View for PeerSet {
    type V = Seq<PeerView>;

    closed spec fn view(&self) -> Seq<PeerView> {
        self.peers@.map_values(|p: Peer| p@)
    }
}

impl PeerSet {
    /// No peer stands in the set twice.
    pub open spec fn wf(self) -> bool {
        forall|i: int, j: int| 0 <= i < j < self@.len() ==> (#[trigger] self@[i]) != (#[trigger] self@[j])
    }

    /// The empty aggregate.
    pub fn new() -> (s: PeerSet)
        ensures
            s.wf(),
            s@ == Seq::<PeerView>::empty(),
    {
        let s = PeerSet { peers: Vec::new() };
        proof {
            assert(s@ =~= Seq::<PeerView>::empty());
        }
        s
    }

    /// How many peers are known.
    pub fn len(&self) -> (n: usize)
        ensures
            n == self@.len(),
    {
        self.peers.len()
    }

    /// Whether the peer is known.
    pub fn contains(&self, p: &Peer) -> (r: bool)
        ensures
            r == self@.contains(p@),
    {
        let mut j: usize = 0;
        while j < self.peers.len()
            invariant
                j <= self.peers@.len(),
                forall|k: int| 0 <= k < j ==> (#[trigger] self.peers@[k])@ != p@,
            decreases self.peers@.len() - j,
        {
            if self.peers[j] == *p {
                proof {
                    assert(self@[j as int] == self.peers@[j as int]@);
                }
                return true;
            }
            j = j + 1;
        }
        proof {
            assert forall|i: int| 0 <= i < self@.len() implies self@[i] != p@ by {
                assert(self@[i] == self.peers@[i]@);
            }
        }
        false
    }

    /// Adds a peer unless it is already known; reports whether the set
    /// changed.
    pub fn add_peer(&mut self, peer: Peer) -> (added: bool)
        requires
            old(self).wf(),
        ensures
            final(self).wf(),
            added == !old(self)@.contains(peer@),
            old(self)@.contains(peer@) ==> final(self)@ == old(self)@,
            !old(self)@.contains(peer@) ==> final(self)@ == old(self)@.push(peer@),
    {
        if self.contains(&peer) {
            false
        } else {
            let ghost oldv = self@;
            self.peers.push(peer);
            proof {
                assert(self@ =~= oldv.push(peer@));
                assert forall|i: int, j: int| 0 <= i < j < self@.len() implies self@[i]
                    != self@[j] by {
                    if j == oldv.len() {
                        assert(self@[i] == oldv[i]);
                        assert(!oldv.contains(self@[j]));
                    }
                }
            }
            true
        }
    }

    /// Removes a peer if it is known; reports whether the set changed. A
    /// known peer occurs once, so removing it leaves no occurrence.
    pub fn drop_peer(&mut self, p: &Peer) -> (removed: bool)
        requires
            old(self).wf(),
        ensures
            final(self).wf(),
            removed == old(self)@.contains(p@),
            !final(self)@.contains(p@),
            !old(self)@.contains(p@) ==> final(self)@ == old(self)@,
            old(self)@.contains(p@) ==> (exists|i: int|
                0 <= i < old(self)@.len() && old(self)@[i] == p@
                    && final(self)@ == old(self)@.remove(i)),
    {
        let mut j: usize = 0;
        while j < self.peers.len()
            invariant
                old(self).wf(),
                self.peers@ == old(self).peers@,
                j <= self.peers@.len(),
                forall|k: int| 0 <= k < j ==> (#[trigger] self.peers@[k])@ != p@,
            decreases self.peers@.len() - j,
        {
            if self.peers[j] == *p {
                let ghost oldv = self@;
                let ghost jj = j as int;
                proof {
                    assert(oldv == old(self)@);
                    assert(oldv[jj] == self.peers@[jj]@);
                    assert(oldv[jj] == p@);
                    assert forall|k: int| 0 <= k < oldv.len() && k != jj implies oldv[k]
                        != p@ by {
                        if k < jj {
                            assert(self.peers@[k]@ != p@);
                            assert(oldv[k] == self.peers@[k]@);
                        } else {
                            assert(old(self)@[jj] != old(self)@[k]);
                        }
                    }
                }
                self.peers.remove(j);
                proof {
                    assert(self@ =~= oldv.remove(jj));
                    assert forall|k: int| 0 <= k < self@.len() implies self@[k] != p@ by {
                        if k < jj {
                            assert(self@[k] == oldv[k]);
                        } else {
                            assert(self@[k] == oldv[k + 1]);
                        }
                    }
                    assert(!self@.contains(p@));
                    assert forall|a: int, b: int| 0 <= a < b < self@.len() implies self@[a]
                        != self@[b] by {
                        let a0 = if a < jj {
                            a
                        } else {
                            a + 1
                        };
                        let b0 = if b < jj {
                            b
                        } else {
                            b + 1
                        };
                        assert(self@[a] == oldv[a0]);
                        assert(self@[b] == oldv[b0]);
                        assert(old(self)@[a0] != old(self)@[b0]);
                    }
                }
                return true;
            }
            j = j + 1;
        }
        proof {
            assert forall|i: int| 0 <= i < self@.len() implies self@[i] != p@ by {
                assert(self@[i] == self.peers@[i]@);
            }
            assert forall|a: int, b: int| 0 <= a < b < self@.len() implies (#[trigger] self@[a])
                != (#[trigger] self@[b]) by {
                assert(self@[a] == old(self)@[a]);
                assert(self@[b] == old(self)@[b]);
            }
        }
        false
    }

    /// Applies one pipeline event: a joined peer is added, a dropped peer
    /// removed; reports whether the set changed.
    pub fn apply_event(&mut self, ev: PeerEvent) -> (changed: bool)
        requires
            old(self).wf(),
        ensures
            final(self).wf(),
            ev.event == NetworkEvent::Joined ==> {
                &&& changed == !old(self)@.contains(ev.peer@)
                &&& old(self)@.contains(ev.peer@) ==> final(self)@ == old(self)@
                &&& !old(self)@.contains(ev.peer@) ==> final(self)@ == old(self)@.push(ev.peer@)
            },
            ev.event == NetworkEvent::Dropped ==> {
                &&& changed == old(self)@.contains(ev.peer@)
                &&& !final(self)@.contains(ev.peer@)
                &&& !old(self)@.contains(ev.peer@) ==> final(self)@ == old(self)@
                &&& old(self)@.contains(ev.peer@) ==> (exists|i: int|
                    0 <= i < old(self)@.len() && old(self)@[i] == ev.peer@
                        && final(self)@ == old(self)@.remove(i))
            },
    {
        match ev.event {
            NetworkEvent::Joined => self.add_peer(ev.peer),
            NetworkEvent::Dropped => self.drop_peer(&ev.peer),
        }
    }
}

} // verus!
