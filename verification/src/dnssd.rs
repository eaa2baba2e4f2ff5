//! The discovery client's value types and the decoding its native callbacks
//! perform.
//!
//! The native provider invokes a callback per processed result, handing it a
//! status code and the raw reply: service identity strings, a hostname with a
//! network-order port, or a tagged socket address. The functions here state
//! exactly which value each callback stores for every status and payload; the
//! unverified callback shells outside the crate only convert C pointers to
//! plain values and call them.

use vstd::prelude::*;

use crate::errors::{error_from_code, ServiceError};
use crate::wire::{decode_address, decoded_address, port_from_network, IpAddress};

verus! {

/// The flag bit by which a browse callback announces that a service appeared;
/// without it the service vanished.
pub const BROWSE_ADD_FLAG: u32 = 0x2;

/// The identity of a service instance on the network.
#[derive(Debug, PartialEq, Eq, Hash)]
pub struct Service {
    pub name: String,
    pub regtype: String,
    pub domain: String,
}

/// The mathematical value of a [`Service`]: its three identity strings.
pub ghost struct ServiceView {
    pub name: Seq<char>,
    pub regtype: Seq<char>,
    pub domain: Seq<char>,
}

impl View for Service {
    type V = ServiceView;

    open spec fn view(&self) -> ServiceView {
        ServiceView { name: self.name@, regtype: self.regtype@, domain: self.domain@ }
    }
}

impl Clone for Service {
    /// An identical service identity.
    fn clone(&self) -> (s: Service)
        ensures
            s@ == self@,
    {
        Service {
            name: self.name.clone(),
            regtype: self.regtype.clone(),
            domain: self.domain.clone(),
        }
    }
}

impl Default for Service {
    /// The empty service identity.
    fn default() -> (s: Service)
        ensures
            s@.name == Seq::<char>::empty(),
            s@.regtype == Seq::<char>::empty(),
            s@.domain == Seq::<char>::empty(),
    {
        Service { name: String::new(), regtype: String::new(), domain: String::new() }
    }
}

/// The resolved network name of a service: hostname and port in host byte
/// order.
#[derive(Debug, PartialEq, Eq)]
pub struct Host {
    pub name: String,
    pub port: u16,
}

impl Clone for Host {
    /// An identical host record.
    fn clone(&self) -> (h: Host)
        ensures
            h@ == self@,
    {
        Host { name: self.name.clone(), port: self.port }
    }
}

/// The mathematical value of a [`Host`].
pub ghost struct HostView {
    pub name: Seq<char>,
    pub port: int,
}

impl View for Host {
    type V = HostView;

    open spec fn view(&self) -> HostView {
        HostView { name: self.name@, port: self.port as int }
    }
}

/// A service appearing on or disappearing from the network.
#[derive(Clone, Debug, PartialEq, Eq)]
pub enum BrowseEvent {
    Joined(Service),
    Dropped(Service),
}

/// The mathematical value of a [`BrowseEvent`].
pub ghost enum BrowseEventView {
    Joined(ServiceView),
    Dropped(ServiceView),
}

impl View for BrowseEvent {
    type V = BrowseEventView;

    open spec fn view(&self) -> BrowseEventView {
        match self {
            BrowseEvent::Joined(s) => BrowseEventView::Joined(s@),
            BrowseEvent::Dropped(s) => BrowseEventView::Dropped(s@),
        }
    }
}

/// A successfully registered presence: the service identity the provider
/// actually recorded, which may differ from the requested name on conflict.
#[derive(Clone, Debug, PartialEq, Eq)]
pub struct Registration {
    pub service: Service,
}

/// Whether a native status code reports success.
pub open spec fn code_ok(code: int) -> bool {
    error_from_code(code) is NoError
}

/// The browse event a callback with the given flags and service identity
/// announces: the add bit set means the service joined, clear means it
/// dropped.
pub open spec fn browse_event_of(flags: u32, s: ServiceView) -> BrowseEventView {
    if flags & BROWSE_ADD_FLAG != 0 {
        BrowseEventView::Joined(s)
    } else {
        BrowseEventView::Dropped(s)
    }
}

/// Turns the status code a provider operation returns into a result: success
/// exactly on a code that means no error, else that code's symbolic error.
pub fn check_status(code: i32) -> (r: Result<(), ServiceError>)
    ensures
        r is Ok <==> code_ok(code as int),
        r matches Err(e) ==> e == error_from_code(code as int),
{
    let err = ServiceError::from_code(code);
    if err == ServiceError::NoError {
        Ok(())
    } else {
        Err(err)
    }
}

/// Accepts the descriptor the provider reports for a session; the provider
/// signals failure with a negative-one sentinel, mapped to an unknown error.
pub fn descriptor_outcome(fd: i32) -> (r: Result<i32, ServiceError>)
    ensures
        fd == -1 ==> (r matches Err(e) && e is Unknown),
        fd != -1 ==> (r matches Ok(d) && d == fd),
{
    if fd == -1 {
        Err(ServiceError::Unknown)
    } else {
        Ok(fd)
    }
}

/// The value a register callback stores: on success the service identity the
/// provider recorded, else the reported error.
pub fn register_outcome(code: i32, name: String, regtype: String, domain: String) -> (r: Result<
    Service,
    ServiceError,
>)
    ensures
        code_ok(code as int) ==> (r matches Ok(s) && s@ == (ServiceView {
            name: name@,
            regtype: regtype@,
            domain: domain@,
        })),
        !code_ok(code as int) ==> (r matches Err(e) && e == error_from_code(code as int)),
{
    match check_status(code) {
        Ok(_) => Ok(Service { name, regtype, domain }),
        Err(e) => Err(e),
    }
}

/// The value a browse callback stores: on success a joined or dropped event
/// for the announced service, decided by the add flag bit, else the reported
/// error.
pub fn browse_outcome(
    code: i32,
    flags: u32,
    name: String,
    regtype: String,
    domain: String,
) -> (r: Result<BrowseEvent, ServiceError>)
    ensures
        code_ok(code as int) ==> (r matches Ok(ev) && ev@ == browse_event_of(
            flags,
            ServiceView { name: name@, regtype: regtype@, domain: domain@ },
        )),
        !code_ok(code as int) ==> (r matches Err(e) && e == error_from_code(code as int)),
{
    match check_status(code) {
        Ok(_) => {
            let service = Service { name, regtype, domain };
            if flags & BROWSE_ADD_FLAG != 0 {
                Ok(BrowseEvent::Joined(service))
            } else {
                Ok(BrowseEvent::Dropped(service))
            }
        },
        Err(e) => Err(e),
    }
}

/// The value a resolve callback stores: on success the host record, with the
/// port converted from the two network-order bytes the wire carries to host
/// byte order, else the reported error.
pub fn resolve_outcome(code: i32, hostname: String, port_hi: u8, port_lo: u8) -> (r: Result<
    Host,
    ServiceError,
>)
    ensures
        code_ok(code as int) ==> (r matches Ok(h) && h@ == (HostView {
            name: hostname@,
            port: port_hi * 256 + port_lo,
        })),
        !code_ok(code as int) ==> (r matches Err(e) && e == error_from_code(code as int)),
{
    match check_status(code) {
        Ok(_) => Ok(Host { name: hostname, port: port_from_network(port_hi, port_lo) }),
        Err(e) => Err(e),
    }
}

/// The value an address callback stores: on success the socket address
/// decoded from its family tag and raw bytes, else the reported error. The
/// bytes are only read on success.
pub fn address_outcome(code: i32, is_ipv4: bool, bytes: &[u8]) -> (r: Result<
    IpAddress,
    ServiceError,
>)
    requires
        bytes@.len() == (if is_ipv4 {
            4int
        } else {
            16int
        }),
    ensures
        code_ok(code as int) ==> (r matches Ok(a) && a == decoded_address(is_ipv4, bytes@)),
        !code_ok(code as int) ==> (r matches Err(e) && e == error_from_code(code as int)),
{
    match check_status(code) {
        Ok(_) => Ok(decode_address(is_ipv4, bytes)),
        Err(e) => Err(e),
    }
}

} // verus!
