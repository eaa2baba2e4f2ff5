//! Decoding of the raw values the native provider hands its callbacks: ports
//! in network byte order and socket addresses as tagged byte arrays.

use vstd::prelude::*;

verus! {

/// An IP address as plain values: four octets, or eight sixteen-bit groups.
#[derive(Clone, Copy, Debug, PartialEq, Eq, Structural)]
pub enum IpAddress {
    V4(u8, u8, u8, u8),
    V6(u16, u16, u16, u16, u16, u16, u16, u16),
}

/// A connectable endpoint: an IP address and a port in host byte order.
#[derive(Clone, Copy, Debug, PartialEq, Eq, Structural)]
pub struct SocketAddress {
    pub ip: IpAddress,
    pub port: u16,
}

/// The sixteen-bit group starting at byte `2 * i` of a big-endian byte
/// sequence.
pub open spec fn group_be(s: Seq<u8>, i: int) -> int {
    s[2 * i] * 256 + s[2 * i + 1]
}

/// The address encoded by a native socket address: four octets in order when
/// the family tag says IPv4, else eight big-endian sixteen-bit groups.
pub open spec fn decoded_address(is_ipv4: bool, s: Seq<u8>) -> IpAddress {
    if is_ipv4 {
        IpAddress::V4(s[0], s[1], s[2], s[3])
    } else {
        IpAddress::V6(
            group_be(s, 0) as u16,
            group_be(s, 1) as u16,
            group_be(s, 2) as u16,
            group_be(s, 3) as u16,
            group_be(s, 4) as u16,
            group_be(s, 5) as u16,
            group_be(s, 6) as u16,
            group_be(s, 7) as u16,
        )
    }
}

/// Converts a port delivered as its two network-order (big-endian) bytes to
/// host byte order.
pub fn port_from_network(hi: u8, lo: u8) -> (p: u16)
    ensures
        p == hi * 256 + lo,
{
    hi as u16 * 256 + lo as u16
}

/// Reads the big-endian sixteen-bit group starting at byte `2 * i`.
pub fn group_from_network(b: &[u8], i: usize) -> (g: u16)
    requires
        i < 8,
        2 * i + 1 < b@.len(),
    ensures
        g == group_be(b@, i as int),
{
    port_from_network(b[2 * i], b[2 * i + 1])
}

/// Decodes the four octets of a native IPv4 address.
pub fn decode_ipv4(b: &[u8]) -> (a: IpAddress)
    requires
        b@.len() == 4,
    ensures
        a == decoded_address(true, b@),
{
    IpAddress::V4(b[0], b[1], b[2], b[3])
}

/// Decodes the sixteen bytes of a native IPv6 address into its eight
/// sixteen-bit groups.
pub fn decode_ipv6(b: &[u8]) -> (a: IpAddress)
    requires
        b@.len() == 16,
    ensures
        a == decoded_address(false, b@),
{
    IpAddress::V6(
        group_from_network(b, 0),
        group_from_network(b, 1),
        group_from_network(b, 2),
        group_from_network(b, 3),
        group_from_network(b, 4),
        group_from_network(b, 5),
        group_from_network(b, 6),
        group_from_network(b, 7),
    )
}

/// Decodes a native socket address from its address-family tag and its raw
/// address bytes: four for IPv4, sixteen for IPv6.
pub fn decode_address(is_ipv4: bool, b: &[u8]) -> (a: IpAddress)
    requires
        b@.len() == (if is_ipv4 { 4int } else { 16int }),
    ensures
        a == decoded_address(is_ipv4, b@),
{
    if is_ipv4 {
        decode_ipv4(b)
    } else {
        decode_ipv6(b)
    }
}

} // verus!
