use node_discovery::address::Ipv4;
use node_discovery::data_store::{DataStore, HISTORY_LIMIT};
use node_discovery::device_info::{MachineInfo, MachineUsage};

fn usage(tag: u64) -> MachineUsage {
    MachineUsage {
        total_memory: 16_000,
        used_memory: tag,
        total_swap: 2_000,
        used_swap: 0,
        cpu_usage: vec!["12.5".to_string(), "3.0".to_string()],
        cpu_frequency: vec![2400, 2400],
        network_down: 10,
        network_up: 20,
    }
}

fn info(host: &str) -> MachineInfo {
    MachineInfo {
        os: "Linux".to_string(),
        os_version: "6.1".to_string(),
        host_name: host.to_string(),
        kernel_version: "6.1.0".to_string(),
        number_of_cpu: 2,
        arch: "x86_64".to_string(),
        brand: "Example CPU".to_string(),
    }
}

#[test]
fn new_store_is_empty() {
    let store = DataStore::new();
    assert!(store.get_node_overview().is_empty());
    assert!(store.get_node_status().is_empty());
    assert!(store.get_nodes().is_empty());
    assert!(store.get_node(Ipv4::from_octets(10, 0, 0, 5)).is_none());
}

#[test]
fn first_usage_creates_the_node() {
    let mut store = DataStore::new();
    let ip = Ipv4::from_octets(10, 0, 0, 5);
    assert!(store.update_usage_at(ip, usage(1), 100));
    let node = store.get_node(ip).expect("the node is known");
    assert_eq!(node.ip, ip);
    assert!(node.machine_info.is_none());
    assert_eq!(node.usage.len(), 1);
    assert_eq!(node.usage[0].timestamp, 100);
    assert_eq!(node.usage[0].machine_usage.used_memory, 1);
    assert_eq!(node.usage[0].machine_usage.cpu_usage, vec!["12.5".to_string(), "3.0".to_string()]);
    assert_eq!(node.last_updated, 100);
}

#[test]
fn later_usage_is_not_new_and_comes_first() {
    let mut store = DataStore::new();
    let ip = Ipv4::from_octets(10, 0, 0, 5);
    assert!(store.update_usage_at(ip, usage(1), 100));
    assert!(!store.update_usage_at(ip, usage(2), 105));
    assert!(!store.update_usage_at(ip, usage(3), 110));
    let node = store.get_node(ip).unwrap();
    assert_eq!(node.usage.len(), 3);
    let seen: Vec<u64> = node.usage.iter().map(|r| r.machine_usage.used_memory).collect();
    assert_eq!(seen, vec![3, 2, 1]);
    let times: Vec<u64> = node.usage.iter().map(|r| r.timestamp).collect();
    assert_eq!(times, vec![110, 105, 100]);
    assert_eq!(node.last_updated, 110);
}

#[test]
fn first_seen_is_reported_once() {
    let mut store = DataStore::new();
    let ip = Ipv4::from_octets(192, 168, 1, 20);
    let mut news = 0;
    for call in 0..8u64 {
        if store.update_usage_at(ip, usage(call), 50 + call) {
            news += 1;
        }
    }
    assert_eq!(news, 1);
}

#[test]
fn history_is_bounded_to_the_newest_records() {
    let mut store = DataStore::new();
    let ip = Ipv4::from_octets(10, 0, 0, 7);
    for call in 0..(HISTORY_LIMIT as u64) {
        store.update_usage_at(ip, usage(call), 1_000 + call);
    }
    assert_eq!(store.get_node(ip).unwrap().usage.len(), 500);
    store.update_usage_at(ip, usage(500), 1_500);
    let node = store.get_node(ip).unwrap();
    assert_eq!(node.usage.len(), 500);
    assert_eq!(node.usage[0].machine_usage.used_memory, 500);
    assert_eq!(node.usage[499].machine_usage.used_memory, 1);
    for call in 501..620u64 {
        store.update_usage_at(ip, usage(call), 1_000 + call);
    }
    let node = store.get_node(ip).unwrap();
    assert_eq!(node.usage.len(), 500);
    for (at, record) in node.usage.iter().enumerate() {
        assert_eq!(record.machine_usage.used_memory, 619 - at as u64);
        assert_eq!(record.timestamp, 1_619 - at as u64);
    }
}

#[test]
fn history_keeps_the_order_of_arrival_when_the_clock_steps_back() {
    let mut store = DataStore::new();
    let ip = Ipv4::from_octets(10, 0, 0, 7);
    store.update_usage_at(ip, usage(1), 100);
    store.update_usage_at(ip, usage(2), 90);
    store.update_usage_at(ip, usage(3), 95);
    let node = store.get_node(ip).unwrap();
    let seen: Vec<u64> = node.usage.iter().map(|r| r.machine_usage.used_memory).collect();
    assert_eq!(seen, vec![3, 2, 1]);
    let times: Vec<u64> = node.usage.iter().map(|r| r.timestamp).collect();
    assert_eq!(times, vec![95, 90, 100]);
    assert_eq!(node.last_updated, 95);
}

#[test]
fn history_below_the_limit_keeps_everything() {
    let mut store = DataStore::new();
    let ip = Ipv4::from_octets(10, 0, 0, 7);
    for call in 0..499u64 {
        store.update_usage_at(ip, usage(call), call);
    }
    let node = store.get_node(ip).unwrap();
    assert_eq!(node.usage.len(), 499);
    assert_eq!(node.usage[498].machine_usage.used_memory, 0);
}

#[test]
fn descriptor_for_unknown_address_is_dropped() {
    let mut store = DataStore::new();
    let ip = Ipv4::from_octets(10, 0, 0, 9);
    store.update_node_information_at(ip, info("alpha"), 10);
    assert!(store.get_node(ip).is_none());
    assert!(store.get_node_overview().is_empty());
    assert!(store.update_usage_at(ip, usage(1), 11));
    assert!(store.get_node(ip).unwrap().machine_info.is_none());
}

#[test]
fn first_descriptor_keeps_the_history() {
    let mut store = DataStore::new();
    let ip = Ipv4::from_octets(10, 0, 0, 9);
    store.update_usage_at(ip, usage(1), 10);
    store.update_usage_at(ip, usage(2), 15);
    store.update_node_information_at(ip, info("alpha"), 20);
    let node = store.get_node(ip).unwrap();
    assert_eq!(node.machine_info, Some(info("alpha")));
    assert_eq!(node.usage.len(), 2);
    assert_eq!(node.last_updated, 20);
}

#[test]
fn changed_descriptor_empties_the_history_and_the_same_again_does_not() {
    let mut store = DataStore::new();
    let ip = Ipv4::from_octets(10, 0, 0, 9);
    store.update_usage_at(ip, usage(1), 10);
    store.update_node_information_at(ip, info("alpha"), 11);
    store.update_usage_at(ip, usage(2), 12);
    assert_eq!(store.get_node(ip).unwrap().usage.len(), 2);

    store.update_node_information_at(ip, info("beta"), 13);
    let node = store.get_node(ip).unwrap();
    assert_eq!(node.machine_info, Some(info("beta")));
    assert!(node.usage.is_empty());
    let overview = store.get_node_overview();
    assert_eq!(overview.len(), 1);
    assert!(overview[0].usage.is_none());

    store.update_usage_at(ip, usage(3), 14);
    store.update_usage_at(ip, usage(4), 15);
    store.update_node_information_at(ip, info("beta"), 16);
    let node = store.get_node(ip).unwrap();
    assert_eq!(node.usage.len(), 2);
    assert_eq!(node.usage[0].machine_usage.used_memory, 4);
    assert_eq!(node.last_updated, 16);
}

#[test]
fn overview_shows_each_node_once_with_its_newest_sample() {
    let mut store = DataStore::new();
    let first = Ipv4::from_octets(10, 0, 0, 1);
    let second = Ipv4::from_octets(10, 0, 0, 2);
    store.update_usage_at(first, usage(1), 10);
    store.update_usage_at(second, usage(2), 11);
    store.update_usage_at(first, usage(3), 12);
    store.update_node_information_at(second, info("two"), 13);
    let mut overview = store.get_node_overview();
    overview.sort_by_key(|o| o.ip.to_bits());
    assert_eq!(overview.len(), 2);
    assert_eq!(overview[0].ip, first);
    assert_eq!(overview[0].usage.as_ref().unwrap().used_memory, 3);
    assert_eq!(overview[0].last_updated, 12);
    assert!(overview[0].machine_info.is_none());
    assert_eq!(overview[1].ip, second);
    assert_eq!(overview[1].usage.as_ref().unwrap().used_memory, 2);
    assert_eq!(overview[1].machine_info, Some(info("two")));
    assert_eq!(overview[1].last_updated, 13);
    assert_eq!(store.get_node_status().len(), 2);
    let mut nodes = store.get_nodes();
    nodes.sort_by_key(|n| n.ip.to_bits());
    assert_eq!(nodes.len(), 2);
    assert_eq!(nodes[0].usage.len(), 2);
    assert_eq!(nodes[1].usage.len(), 1);
}

#[test]
fn snapshots_are_copies() {
    let mut store = DataStore::new();
    let ip = Ipv4::from_octets(10, 0, 0, 1);
    store.update_usage_at(ip, usage(1), 10);
    let before = store.get_node(ip).unwrap();
    store.update_usage_at(ip, usage(2), 11);
    assert_eq!(before.usage.len(), 1);
    assert_eq!(before.last_updated, 10);
    assert_eq!(store.get_node(ip).unwrap().usage.len(), 2);
}

#[test]
fn removed_node_comes_back_without_its_past() {
    let mut store = DataStore::new();
    let ip = Ipv4::from_octets(10, 0, 0, 1);
    let other = Ipv4::from_octets(10, 0, 0, 2);
    store.update_usage_at(ip, usage(1), 10);
    store.update_usage_at(ip, usage(2), 11);
    store.update_node_information_at(ip, info("one"), 12);
    store.update_usage_at(other, usage(9), 12);
    store.remove_node(&ip);
    assert!(store.get_node(ip).is_none());
    assert!(store.get_node(other).is_some());
    store.remove_node(&ip);
    assert_eq!(store.get_node_overview().len(), 1);
    assert!(store.update_usage_at(ip, usage(3), 20));
    let node = store.get_node(ip).unwrap();
    assert_eq!(node.usage.len(), 1);
    assert!(node.machine_info.is_none());
}

#[test]
fn clock_stamps_the_writes() {
    let mut store = DataStore::new();
    let ip = Ipv4::from_octets(10, 0, 0, 1);
    assert!(store.update_usage(ip, usage(1)));
    let node = store.get_node(ip).unwrap();
    // Any reading of a clock that is set later than the year 2001.
    assert!(node.last_updated > 1_000_000_000);
    assert_eq!(node.usage[0].timestamp, node.last_updated);
    store.update_node_information(ip, info("one"));
    let node = store.get_node(ip).unwrap();
    assert!(node.last_updated > 1_000_000_000);
    assert_eq!(node.machine_info, Some(info("one")));
}

#[test]
fn descriptors_compare_by_all_their_parts() {
    assert_eq!(info("alpha"), info("alpha"));
    assert_ne!(info("alpha"), info("beta"));
    let mut more = info("alpha");
    more.number_of_cpu = 4;
    assert_ne!(info("alpha"), more);
    assert_eq!(info("alpha").clone(), info("alpha"));
    assert_eq!(usage(3).clone(), usage(3));
    assert_ne!(usage(3), usage(4));
    let mut other = usage(3);
    other.cpu_usage[1] = "3".to_string();
    assert_ne!(usage(3), other);
    let mut other = usage(3);
    other.cpu_frequency.push(2400);
    assert_ne!(usage(3), other);
    let mut other = usage(3);
    other.cpu_usage.pop();
    assert_ne!(usage(3), other);
}
