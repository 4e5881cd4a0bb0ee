use node_discovery::address::Ipv4;
use node_discovery::api::{get_node, BadRequest};
use node_discovery::data_store::DataStore;
use node_discovery::device_info::MachineUsage;
use node_discovery::tools::{get_ip, search_networks, AddressError, InterfaceAddress};

#[test]
fn octets_and_bits_agree() {
    let ip = Ipv4::from_octets(192, 168, 1, 20);
    assert_eq!(ip.octets(), [192, 168, 1, 20]);
    assert_eq!(ip.to_bits(), 0xC0A8_0114);
    assert_eq!(Ipv4::from_bits(0xC0A8_0114), ip);
    assert_eq!(Ipv4::from_bits(0).octets(), [0, 0, 0, 0]);
    assert_eq!(Ipv4::from_bits(u32::MAX), Ipv4::from_octets(255, 255, 255, 255));
    assert_eq!(Ipv4::from_octets(10, 0, 0, 5).to_bits(), 167_772_165);
    assert_eq!(Ipv4::from_bits(167_772_165), Ipv4 { a: 10, b: 0, c: 0, d: 5 });
}

#[test]
fn text_is_dotted_decimal() {
    assert_eq!(Ipv4::from_octets(192, 168, 1, 20).to_text(), "192.168.1.20");
    assert_eq!(Ipv4::from_octets(0, 0, 0, 0).to_text(), "0.0.0.0");
    assert_eq!(Ipv4::from_octets(255, 255, 255, 255).to_text(), "255.255.255.255");
    assert_eq!(Ipv4::from_octets(10, 0, 100, 9).to_text(), "10.0.100.9");
    assert_eq!(Ipv4::from_octets(1, 20, 99, 101).to_text(), "1.20.99.101");
}

#[test]
fn parse_reads_dotted_decimal_only() {
    assert_eq!(Ipv4::parse("192.168.1.20"), Some(Ipv4::from_octets(192, 168, 1, 20)));
    assert_eq!(Ipv4::parse("0.0.0.0"), Some(Ipv4::from_octets(0, 0, 0, 0)));
    assert_eq!(Ipv4::parse("255.255.255.255"), Some(Ipv4::from_octets(255, 255, 255, 255)));
    assert_eq!(Ipv4::parse("10.0.0.5"), Some(Ipv4::from_octets(10, 0, 0, 5)));
    let refused = [
        "", ".", "...", "1.2.3", "1.2.3.4.5", "1.2.3.", ".1.2.3", "1..2.3", "256.1.1.1",
        "1.1.1.256", "1.1.1.999", "1.1.1.1000", "01.1.1.1", "1.1.1.01", "1.1.1.00", "a.b.c.d",
        "1.2.3.4 ", " 1.2.3.4", "1.2.3.-4", "+1.2.3.4", "1,2,3,4", "localhost", "::1",
        "１.2.3.4", "1.2.3.4\n", "1234.1.1.1", "255.255.255.2555", "0x10.1.1.1",
        "1111111111111111111111111111111111.1.1.1",
    ];
    for text in refused {
        assert_eq!(Ipv4::parse(text), None, "{:?}", text);
    }
}

#[test]
fn every_octet_reads_back() {
    for n in 0..=255u8 {
        let ip = Ipv4::from_octets(n, 255 - n, n, 0);
        assert_eq!(Ipv4::parse(&ip.to_text()), Some(ip));
        assert_eq!(Ipv4::from_bits(ip.to_bits()), ip);
    }
}

#[test]
fn address_classes_are_told_apart() {
    assert!(Ipv4::from_octets(10, 1, 2, 3).is_private());
    assert!(Ipv4::from_octets(172, 16, 0, 1).is_private());
    assert!(Ipv4::from_octets(172, 31, 255, 255).is_private());
    assert!(!Ipv4::from_octets(172, 15, 0, 1).is_private());
    assert!(!Ipv4::from_octets(172, 32, 0, 1).is_private());
    assert!(Ipv4::from_octets(192, 168, 0, 1).is_private());
    assert!(!Ipv4::from_octets(192, 169, 0, 1).is_private());
    assert!(!Ipv4::from_octets(8, 8, 8, 8).is_private());
    assert!(Ipv4::from_octets(127, 0, 0, 1).is_loopback());
    assert!(Ipv4::from_octets(127, 255, 0, 9).is_loopback());
    assert!(!Ipv4::from_octets(128, 0, 0, 1).is_loopback());
    assert!(Ipv4::from_octets(0, 0, 0, 0).is_unspecified());
    assert!(!Ipv4::from_octets(0, 0, 0, 1).is_unspecified());
}

#[test]
fn search_takes_the_first_private_address() {
    let addresses = vec![
        InterfaceAddress::V4(Ipv4::from_octets(127, 0, 0, 1)),
        InterfaceAddress::V6 { loopback: true },
        InterfaceAddress::V6 { loopback: false },
        InterfaceAddress::V4(Ipv4::from_octets(0, 0, 0, 0)),
        InterfaceAddress::V4(Ipv4::from_octets(8, 8, 8, 8)),
        InterfaceAddress::V4(Ipv4::from_octets(192, 168, 1, 7)),
        InterfaceAddress::V4(Ipv4::from_octets(10, 0, 0, 7)),
    ];
    assert_eq!(search_networks(&addresses), Some(Ipv4::from_octets(192, 168, 1, 7)));
    assert_eq!(search_networks(&addresses[..5].to_vec()), None);
    assert_eq!(search_networks(&Vec::new()), None);
}

#[test]
fn named_address_comes_before_the_interfaces() {
    let addresses = vec![InterfaceAddress::V4(Ipv4::from_octets(192, 168, 1, 7))];
    let program = "observer".to_string();
    assert_eq!(get_ip(&vec![program.clone()], &addresses), Ok(Ipv4::from_octets(192, 168, 1, 7)));
    assert_eq!(get_ip(&Vec::new(), &addresses), Ok(Ipv4::from_octets(192, 168, 1, 7)));
    assert_eq!(get_ip(&vec![program.clone()], &Vec::new()), Err(AddressError::NoAddressFound));
    assert_eq!(
        get_ip(&vec![program.clone(), "10.9.8.7".to_string()], &addresses),
        Ok(Ipv4::from_octets(10, 9, 8, 7))
    );
    assert_eq!(
        get_ip(&vec![program.clone(), "10.9.8.7".to_string(), "ignored".to_string()], &Vec::new()),
        Ok(Ipv4::from_octets(10, 9, 8, 7))
    );
    assert_eq!(
        get_ip(&vec![program, "10.9.8".to_string()], &addresses),
        Err(AddressError::InvalidAddress)
    );
}

#[test]
fn node_question_tells_malformed_from_unknown() {
    let mut store = DataStore::new();
    let usage = MachineUsage {
        total_memory: 1,
        used_memory: 1,
        total_swap: 0,
        used_swap: 0,
        cpu_usage: Vec::new(),
        cpu_frequency: Vec::new(),
        network_down: 0,
        network_up: 0,
    };
    store.update_usage_at(Ipv4::from_octets(10, 0, 0, 5), usage, 77);
    match get_node(&store, "10.0.0.5") {
        Ok(Some(node)) => {
            assert_eq!(node.ip, Ipv4::from_octets(10, 0, 0, 5));
            assert_eq!(node.last_updated, 77);
        }
        other => panic!("unexpected: {:?}", other),
    }
    assert!(matches!(get_node(&store, "10.0.0.6"), Ok(None)));
    assert!(matches!(get_node(&store, "10.0.0"), Err(BadRequest::InvalidAddress)));
    assert!(matches!(get_node(&store, "node-a"), Err(BadRequest::InvalidAddress)));
}
