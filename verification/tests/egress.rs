use limes::runtime::egress::EgressPolicy;
use limes::runtime::egress::Ipv4Addr;
use limes::runtime::egress::SocketAddr;
use limes::runtime::egress::SocketAddrUse;
use limes::runtime::egress::SocketAddrV4;
use limes::runtime::egress::SocketAddrV6;

fn localhost() -> EgressPolicy {
    EgressPolicy { tap_ip: Ipv4Addr::new(127, 0, 0, 1) }
}

fn v4(a: u8, b: u8, c: u8, d: u8, port: u16) -> SocketAddr {
    SocketAddr::V4(SocketAddrV4 { ip: Ipv4Addr::new(a, b, c, d), port })
}

#[test]
fn ipv4_addr_keeps_its_octets() {
    let ip = Ipv4Addr::new(192, 168, 2, 3);
    assert_eq!(ip.octets(), [192, 168, 2, 3]);
    assert_eq!(ip, Ipv4Addr { a: 192, b: 168, c: 2, d: 3 });
}

#[test]
fn tcp_bind_on_permitted_ip_is_allowed() {
    assert!(localhost().check(v4(127, 0, 0, 1, 50400), SocketAddrUse::TcpBind));
}

#[test]
fn udp_bind_on_permitted_ip_is_allowed() {
    assert!(localhost().check(v4(127, 0, 0, 1, 50400), SocketAddrUse::UdpBind));
}

#[test]
fn bind_on_permitted_ip_is_allowed_at_any_port() {
    assert!(localhost().check(v4(127, 0, 0, 1, 0), SocketAddrUse::TcpBind));
    assert!(localhost().check(v4(127, 0, 0, 1, 65535), SocketAddrUse::UdpBind));
}

#[test]
fn tcp_bind_on_other_ip_is_denied() {
    assert!(!localhost().check(v4(192, 168, 2, 3, 50300), SocketAddrUse::TcpBind));
}

#[test]
fn udp_bind_on_other_ip_is_denied() {
    assert!(!localhost().check(v4(192, 168, 2, 3, 50300), SocketAddrUse::UdpBind));
}

#[test]
fn bind_on_ip_that_differs_in_one_octet_is_denied() {
    assert!(!localhost().check(v4(127, 0, 0, 2, 50400), SocketAddrUse::TcpBind));
    assert!(!localhost().check(v4(126, 0, 0, 1, 50400), SocketAddrUse::TcpBind));
    assert!(!localhost().check(v4(127, 1, 0, 1, 50400), SocketAddrUse::UdpBind));
    assert!(!localhost().check(v4(127, 0, 1, 1, 50400), SocketAddrUse::UdpBind));
}

#[test]
fn bind_on_ipv6_is_denied() {
    let loopback = SocketAddr::V6(SocketAddrV6 { ip: 1, port: 50400 });
    assert!(!localhost().check(loopback, SocketAddrUse::TcpBind));
    assert!(!localhost().check(loopback, SocketAddrUse::UdpBind));
    // ::ffff:127.0.0.1, the permitted address mapped into IPv6
    let mapped = SocketAddr::V6(SocketAddrV6 { ip: 0xffff_7f00_0001, port: 50400 });
    assert!(!localhost().check(mapped, SocketAddrUse::TcpBind));
    assert!(!localhost().check(mapped, SocketAddrUse::UdpBind));
}

#[test]
fn other_uses_are_allowed_everywhere() {
    let uses = [
        SocketAddrUse::TcpConnect,
        SocketAddrUse::UdpConnect,
        SocketAddrUse::UdpOutgoingDatagram,
        SocketAddrUse::NameLookup,
    ];
    for purpose in uses {
        assert!(localhost().check(v4(192, 168, 2, 3, 50300), purpose));
        assert!(localhost().check(v4(127, 0, 0, 1, 80), purpose));
        assert!(localhost().check(SocketAddr::V6(SocketAddrV6 { ip: 1, port: 443 }), purpose));
    }
}

#[test]
fn policy_follows_the_permitted_ip() {
    let policy = EgressPolicy { tap_ip: Ipv4Addr::new(10, 0, 0, 7) };
    assert!(policy.check(v4(10, 0, 0, 7, 8080), SocketAddrUse::TcpBind));
    assert!(!policy.check(v4(127, 0, 0, 1, 8080), SocketAddrUse::TcpBind));
}
