use safe_types::ipv6::SIpv6Addr;
use safe_types::socket::SSocketAddrV6;
use std::cmp::Ordering;

fn doc_ip() -> SIpv6Addr {
    SIpv6Addr::from_octets([0x20, 0x01, 0x0d, 0xb8, 0, 0, 0, 0, 0, 0, 0, 0, 0, 0, 0, 1])
}

fn loopback() -> SIpv6Addr {
    SIpv6Addr::from_octets([0, 0, 0, 0, 0, 0, 0, 0, 0, 0, 0, 0, 0, 0, 0, 1])
}

#[test]
fn octets_round_trip() {
    let octets = [0x20, 0x01, 0x0d, 0xb8, 0, 0, 0, 0, 0, 0, 0, 0, 0, 0, 0, 1];
    assert_eq!(SIpv6Addr::from_octets(octets).octets(), octets);
}

#[test]
fn ipv6_order_follows_octets() {
    assert!(loopback() < doc_ip());
    assert_eq!(doc_ip().partial_cmp(&doc_ip()), Some(Ordering::Equal));
    assert_eq!(doc_ip(), doc_ip());
    assert_ne!(doc_ip(), loopback());
    let low_last = SIpv6Addr::from_octets([0x20, 0x01, 0x0d, 0xb8, 0, 0, 0, 0, 0, 0, 0, 0, 0, 0, 0, 0]);
    assert!(low_last < doc_ip());
}

#[test]
fn new_keeps_each_field() {
    let a = SSocketAddrV6::new(doc_ip(), 8080, 5, 7);
    assert_eq!(*a.ip(), doc_ip());
    assert_eq!(a.port(), 8080);
    assert_eq!(a.flowinfo(), 5);
    assert_eq!(a.scope_id(), 7);
}

#[test]
fn setters_replace_one_field() {
    let mut a = SSocketAddrV6::new(doc_ip(), 8080, 0, 0);
    a.set_port(443);
    assert_eq!(a, SSocketAddrV6::new(doc_ip(), 443, 0, 0));
    a.set_flowinfo(9);
    assert_eq!(a, SSocketAddrV6::new(doc_ip(), 443, 9, 0));
    a.set_scope_id(3);
    assert_eq!(a, SSocketAddrV6::new(doc_ip(), 443, 9, 3));
    a.set_ip(loopback());
    assert_eq!(a, SSocketAddrV6::new(loopback(), 443, 9, 3));
}

#[test]
fn parts_rebuild_the_same_address() {
    let a = SSocketAddrV6::new(doc_ip(), 8080, 12, 34);
    let b = SSocketAddrV6::new(*a.ip(), a.port(), a.flowinfo(), a.scope_id());
    assert_eq!(a, b);
}

#[test]
fn equality_is_fieldwise() {
    let a = SSocketAddrV6::new(doc_ip(), 8080, 0, 0);
    assert_eq!(a, SSocketAddrV6::new(doc_ip(), 8080, 0, 0));
    assert_ne!(a, SSocketAddrV6::new(doc_ip(), 8081, 0, 0));
    assert_ne!(a, SSocketAddrV6::new(doc_ip(), 8080, 1, 0));
    assert_ne!(a, SSocketAddrV6::new(doc_ip(), 8080, 0, 1));
    assert_ne!(a, SSocketAddrV6::new(loopback(), 8080, 0, 0));
}

#[test]
fn order_goes_by_fields_in_declared_order() {
    // the ip decides before everything else
    let a = SSocketAddrV6::new(loopback(), 65535, 9, 9);
    let b = SSocketAddrV6::new(doc_ip(), 1, 0, 0);
    assert!(a < b);
    // then the flow information, before scope id and port
    let c = SSocketAddrV6::new(doc_ip(), 9, 1, 9);
    let d = SSocketAddrV6::new(doc_ip(), 1, 2, 0);
    assert!(c < d);
    // then the scope id, before the port
    let e = SSocketAddrV6::new(doc_ip(), 9, 1, 1);
    let f = SSocketAddrV6::new(doc_ip(), 1, 1, 2);
    assert!(e < f);
    // the port last
    let g = SSocketAddrV6::new(doc_ip(), 1, 1, 1);
    let h = SSocketAddrV6::new(doc_ip(), 2, 1, 1);
    assert_eq!(g.partial_cmp(&h), Some(Ordering::Less));
    assert_eq!(h.partial_cmp(&g), Some(Ordering::Greater));
    assert_eq!(g.partial_cmp(&g), Some(Ordering::Equal));
    // the derived total order agrees
    assert_eq!(g.cmp(&h), Ordering::Less);
    assert_eq!(a.cmp(&b), Ordering::Less);
    assert_eq!(c.cmp(&d), Ordering::Less);
}
