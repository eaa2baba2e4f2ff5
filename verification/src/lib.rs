//! Local-network peer discovery over a callback-driven native
//! service-discovery provider.
//!
//! The crate models the decision logic of the discovery client: mapping the
//! provider's integer status codes to symbolic errors, decoding the values its
//! callbacks deliver (service identities, host records, raw socket addresses),
//! the lifecycle of one discovery session, the wait-process-read cycle that
//! turns descriptor readiness into discovery events, and the pipeline that
//! chains browse events through name and address resolution into peer events.
//! The native provider itself, the socket reactor and all I/O live outside the
//! crate and hand plain values in.

use vstd::prelude::*;

pub mod dnssd;
pub mod errors;
pub mod framing;
pub mod ops;
pub mod peer;
pub mod readiness;
pub mod session;
pub mod slot;
pub mod state;
pub mod wire;

verus! {

/// Whether a peer appeared on or vanished from the local network.
#[derive(Clone, Copy, Debug, PartialEq, Eq, Structural)]
pub enum NetworkEvent {
    Joined,
    Dropped,
}

} // verus!
