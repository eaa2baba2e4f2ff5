use localchat::wire::{
    decode_address, decode_ipv4, decode_ipv6, port_from_network, IpAddress, SocketAddress,
};

#[test]
fn network_order_port_converts_to_host_order() {
    // 0x1F90 on the wire is the bytes 0x1F then 0x90, and reads back as 8080.
    assert_eq!(port_from_network(0x1F, 0x90), 8080);
    assert_eq!(port_from_network(0x05, 0x39), 1337);
    assert_eq!(port_from_network(0, 0), 0);
    assert_eq!(port_from_network(0xFF, 0xFF), 0xFFFF);
}

#[test]
fn ipv4_bytes_decode_to_octets() {
    let a = decode_ipv4(&[127, 0, 0, 1]);
    assert_eq!(a, IpAddress::V4(127, 0, 0, 1));
}

#[test]
fn ipv6_bytes_decode_to_eight_groups() {
    let bytes = [
        0xfe, 0x80, 0x00, 0x00, 0x00, 0x00, 0x00, 0x00, 0x02, 0x1c, 0xb3, 0xff, 0xfe, 0x12,
        0x34, 0x56,
    ];
    let a = decode_ipv6(&bytes);
    assert_eq!(
        a,
        IpAddress::V6(0xfe80, 0, 0, 0, 0x021c, 0xb3ff, 0xfe12, 0x3456)
    );
}

#[test]
fn tagged_address_decodes_by_family() {
    assert_eq!(decode_address(true, &[10, 0, 0, 7]), IpAddress::V4(10, 0, 0, 7));
    let v6 = [0u8, 0, 0, 0, 0, 0, 0, 0, 0, 0, 0, 0, 0, 0, 0, 1];
    assert_eq!(decode_address(false, &v6), IpAddress::V6(0, 0, 0, 0, 0, 0, 0, 1));
}

#[test]
fn socket_address_carries_ip_and_port() {
    let s = SocketAddress { ip: IpAddress::V4(127, 0, 0, 1), port: 1337 };
    assert_eq!(s.ip, IpAddress::V4(127, 0, 0, 1));
    assert_eq!(s.port, 1337);
}
