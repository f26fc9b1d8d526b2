use mdns_relay::address::{
    is_same_network_addr, is_same_network_v4, is_same_network_v6, same_address, IpAddress,
    Ipv4Address, Ipv6Address,
};
use mdns_relay::registry::{is_same_network, Interface, InterfaceConfig, Registry, MAX_DATAGRAM};
use mdns_relay::startup::{
    build_registry, mdns_group, membership_addresses, Outcome, Startup, Step, MDNS_PORT,
};

fn v4(a: u8, b: u8, c: u8, d: u8) -> IpAddress {
    IpAddress::V4(Ipv4Address { octets: [a, b, c, d] })
}

fn v6(last: u8) -> IpAddress {
    let mut octets = [0u8; 16];
    octets[0] = 0xfe;
    octets[1] = 0x80;
    octets[15] = last;
    IpAddress::V6(Ipv6Address { octets })
}

fn v6_mask(prefix_octets: usize) -> IpAddress {
    let mut octets = [0u8; 16];
    for o in octets.iter_mut().take(prefix_octets) {
        *o = 255;
    }
    IpAddress::V6(Ipv6Address { octets })
}

fn config(name: &str, address: IpAddress, netmask: IpAddress) -> InterfaceConfig {
    InterfaceConfig { name: name.to_string(), address, netmask }
}

fn three_subnets() -> Registry {
    let mask = v4(255, 255, 255, 0);
    let configs = vec![
        config("a", v4(10, 0, 0, 1), mask),
        config("b", v4(10, 0, 1, 1), mask),
        config("c", v4(10, 0, 2, 1), mask),
    ];
    build_registry(&configs, &vec![3, 4, 5])
}

#[test]
fn same_subnet_v4() {
    let mask = Ipv4Address { octets: [255, 255, 255, 0] };
    let a = Ipv4Address { octets: [192, 168, 1, 20] };
    let b = Ipv4Address { octets: [192, 168, 1, 1] };
    let c = Ipv4Address { octets: [192, 168, 2, 1] };
    assert!(is_same_network_v4(a, b, mask));
    assert!(!is_same_network_v4(a, c, mask));
}

#[test]
fn last_octet_is_compared_v4() {
    let full = Ipv4Address { octets: [255, 255, 255, 255] };
    let a = Ipv4Address { octets: [10, 0, 0, 5] };
    let b = Ipv4Address { octets: [10, 0, 0, 6] };
    assert!(!is_same_network_v4(a, b, full));
    assert!(is_same_network_v4(a, a, full));
    let narrow = Ipv4Address { octets: [255, 255, 255, 252] };
    assert!(is_same_network_v4(a, b, narrow));
    let c = Ipv4Address { octets: [10, 0, 0, 9] };
    assert!(!is_same_network_v4(a, c, narrow));
}

#[test]
fn last_octet_is_compared_v6() {
    let (IpAddress::V6(a), IpAddress::V6(b), IpAddress::V6(full)) = (v6(1), v6(2), v6_mask(16))
    else {
        panic!("expected IPv6 values");
    };
    assert!(!is_same_network_v6(a, b, full));
    assert!(is_same_network_v6(a, a, full));
    let IpAddress::V6(m64) = v6_mask(8) else {
        panic!("expected IPv6 value");
    };
    assert!(is_same_network_v6(a, b, m64));
}

#[test]
fn subnet_test_is_symmetric() {
    let m = v4(255, 255, 0, 0);
    let pairs = [
        (v4(172, 16, 3, 4), v4(172, 16, 200, 1)),
        (v4(172, 16, 3, 4), v4(172, 17, 3, 4)),
        (v4(1, 2, 3, 4), v6(4)),
    ];
    for (a, b) in pairs {
        assert_eq!(is_same_network_addr(a, b, m), is_same_network_addr(b, a, m));
    }
    assert!(is_same_network_addr(pairs[0].0, pairs[0].1, m));
    assert!(!is_same_network_addr(pairs[1].0, pairs[1].1, m));
}

#[test]
fn families_never_mix() {
    assert!(!is_same_network_addr(v6(1), v4(10, 0, 0, 1), v4(0, 0, 0, 0)));
    assert!(!is_same_network_addr(v4(10, 0, 0, 1), v4(10, 0, 0, 1), v6_mask(0)));
    assert!(is_same_network_addr(v4(10, 0, 0, 1), v4(99, 0, 0, 1), v4(0, 0, 0, 0)));
}

#[test]
fn address_equality() {
    assert!(same_address(&v4(10, 0, 0, 1), &v4(10, 0, 0, 1)));
    assert!(!same_address(&v4(10, 0, 0, 1), &v4(10, 0, 0, 2)));
    assert!(same_address(&v6(7), &v6(7)));
    assert!(!same_address(&v6(7), &v6(8)));
    assert!(!same_address(&v4(0, 0, 0, 0), &v6_mask(0)));
}

#[test]
fn interface_keeps_its_configuration() {
    let c = config("eth0", v4(10, 0, 0, 1), v4(255, 255, 255, 0));
    let i = Interface::new(&c, 9);
    assert_eq!(i.name, "eth0");
    assert_eq!(i.sockfd, 9);
    assert!(i.has(v4(10, 0, 0, 1)));
    assert!(!i.has(v4(10, 0, 0, 2)));
    assert!(is_same_network(&i, v4(10, 0, 0, 77)));
    assert!(!is_same_network(&i, v4(10, 0, 1, 77)));
}

#[test]
fn own_address_is_suppressed() {
    let reg = three_subnets();
    assert!(reg.belongs_to_interface(v4(10, 0, 1, 1)));
    assert!(!reg.belongs_to_interface(v4(10, 0, 1, 2)));
    for own in [v4(10, 0, 0, 1), v4(10, 0, 1, 1), v4(10, 0, 2, 1)] {
        assert!(reg.forward_targets(own).is_empty());
    }
}

#[test]
fn fan_out_skips_the_sender_subnet() {
    let reg = three_subnets();
    assert_eq!(reg.forward_targets(v4(10, 0, 0, 5)), vec![1, 2]);
    assert_eq!(reg.forward_targets(v4(10, 0, 2, 9)), vec![0, 1]);
    assert_eq!(reg.forward_targets(v4(192, 168, 0, 1)), vec![0, 1, 2]);
    assert_eq!(reg.forward_targets(v6(1)), vec![0, 1, 2]);
}

#[test]
fn retransmissions_are_not_relayed_again() {
    let reg = three_subnets();
    let first = reg.forward_targets(v4(10, 0, 0, 5));
    assert_eq!(first.len(), 2);
    for j in first {
        let echoed = reg.interfaces[j].address;
        assert!(reg.forward_targets(echoed).is_empty());
    }
}

#[test]
fn payload_is_unchanged() {
    let reg = three_subnets();
    let mut buf = [0u8; MAX_DATAGRAM];
    let data: Vec<u8> = (0..300u32).map(|i| (i * 7 % 256) as u8).collect();
    buf[..data.len()].copy_from_slice(&data);
    let r = reg.relay(&buf, data.len(), Some(v4(10, 0, 1, 40)));
    assert_eq!(r.payload, data);
    assert_eq!(r.targets, vec![0, 2]);

    let full = reg.relay(&buf, MAX_DATAGRAM, Some(v4(10, 0, 1, 40)));
    assert_eq!(full.payload.len(), MAX_DATAGRAM);
    assert_eq!(&full.payload[..], &buf[..]);
}

#[test]
fn datagram_without_ip_sender_goes_nowhere() {
    let reg = three_subnets();
    let buf = [1u8, 2, 3];
    let r = reg.relay(&buf, 3, None);
    assert_eq!(r.payload, vec![1, 2, 3]);
    assert!(r.targets.is_empty());
    let empty = reg.relay(&buf, 0, Some(v4(8, 8, 8, 8)));
    assert!(empty.payload.is_empty());
    assert_eq!(empty.targets, vec![0, 1, 2]);
}

#[test]
fn startup_runs_after_every_socket() {
    let (mut s, step) = Startup::new(2);
    assert!(matches!(step, Step::OpenSendSocket(0)));
    assert!(matches!(s.step(Outcome::Opened(10)), Step::OpenSendSocket(1)));
    assert!(matches!(s.step(Outcome::Opened(11)), Step::OpenReceiveSocket));
    assert!(matches!(s.step(Outcome::Opened(12)), Step::Run));
    assert_eq!(s.send_sockets, vec![10, 11]);
    assert_eq!(s.receive_socket, Some(12));
    assert!(!s.aborted);
}

#[test]
fn startup_without_interfaces_opens_receive_socket() {
    let (mut s, step) = Startup::new(0);
    assert!(matches!(step, Step::OpenReceiveSocket));
    assert!(matches!(s.step(Outcome::Opened(3)), Step::Run));
}

#[test]
fn failed_entry_closes_earlier_sockets() {
    let (mut s, _) = Startup::new(3);
    s.step(Outcome::Opened(20));
    s.step(Outcome::Opened(21));
    match s.step(Outcome::Failed) {
        Step::Abort(fds) => assert_eq!(fds, vec![20, 21]),
        _ => panic!("expected an abort"),
    }
    assert!(s.aborted);
    assert!(s.send_sockets.is_empty());
    assert_eq!(s.receive_socket, None);
}

#[test]
fn failed_receive_socket_closes_send_sockets() {
    let (mut s, _) = Startup::new(1);
    assert!(matches!(s.step(Outcome::Opened(5)), Step::OpenReceiveSocket));
    match s.step(Outcome::Failed) {
        Step::Abort(fds) => assert_eq!(fds, vec![5]),
        _ => panic!("expected an abort"),
    }
}

#[test]
fn failed_first_entry_closes_nothing() {
    let (mut s, _) = Startup::new(2);
    match s.step(Outcome::Failed) {
        Step::Abort(fds) => assert!(fds.is_empty()),
        _ => panic!("expected an abort"),
    }
}

#[test]
fn memberships_need_ipv4() {
    let mask = v4(255, 255, 255, 0);
    let ok = vec![config("a", v4(10, 0, 0, 1), mask), config("b", v4(10, 0, 1, 1), mask)];
    let addrs = membership_addresses(&ok).unwrap();
    assert_eq!(addrs.len(), 2);
    assert_eq!(addrs[1].octets, [10, 0, 1, 1]);
    let mixed = vec![
        config("a", v4(10, 0, 0, 1), mask),
        config("b", v6(1), v6_mask(8)),
        config("c", v6(2), v6_mask(8)),
    ];
    assert_eq!(membership_addresses(&mixed).unwrap_err(), 1);
}

#[test]
fn mdns_endpoint() {
    assert_eq!(mdns_group().octets, [224, 0, 0, 251]);
    assert_eq!(MDNS_PORT, 5353);
}

#[test]
fn registry_keeps_order_and_sockets() {
    let reg = three_subnets();
    let names: Vec<&str> = reg.interfaces.iter().map(|i| i.name.as_str()).collect();
    assert_eq!(names, vec!["a", "b", "c"]);
    let fds: Vec<i32> = reg.interfaces.iter().map(|i| i.sockfd).collect();
    assert_eq!(fds, vec![3, 4, 5]);
    let direct = Registry::new(Vec::new());
    assert!(direct.forward_targets(v4(1, 1, 1, 1)).is_empty());
}
