use node_discovery::address::Ipv4;
use node_discovery::clock::seconds_or_epoch;
use node_discovery::commands::DiscoveryCommand;
use node_discovery::data_store::DataStore;
use node_discovery::data_store_service::{DataStoreService, CHECK_FREQUENCY, THRESHOLD};
use node_discovery::device_info::{MachineInfo, MachineUsage};
use node_discovery::target_messages::{SpecResponse, UsageOverviewResponse};

fn sample(tag: u64) -> MachineUsage {
    MachineUsage {
        total_memory: 8_000,
        used_memory: tag,
        total_swap: 0,
        used_swap: 0,
        cpu_usage: vec!["50.0".to_string()],
        cpu_frequency: vec![3000],
        network_down: 1,
        network_up: 2,
    }
}

fn descriptor() -> MachineInfo {
    MachineInfo {
        os: "Linux".to_string(),
        os_version: "6.1".to_string(),
        host_name: "node-a".to_string(),
        kernel_version: "6.1.0".to_string(),
        number_of_cpu: 1,
        arch: "aarch64".to_string(),
        brand: "Example".to_string(),
    }
}

#[test]
fn intervals_are_as_fixed() {
    assert_eq!(THRESHOLD, 30);
    assert_eq!(CHECK_FREQUENCY, 10);
}

#[test]
fn first_usage_asks_for_the_descriptor() {
    let mut service = DataStoreService::new(DataStore::new());
    let ip = Ipv4::from_octets(10, 0, 0, 5);
    let command = service
        .watch_response_at(UsageOverviewResponse::usage_overview_response(ip, sample(1)), 100);
    assert_eq!(command, Some(DiscoveryCommand::DeviceInformation(ip)));
    let command = service
        .watch_response_at(UsageOverviewResponse::usage_overview_response(ip, sample(2)), 105);
    assert_eq!(command, None);
    assert_eq!(service.data_store().get_node(ip).unwrap().usage.len(), 2);
}

#[test]
fn descriptor_response_asks_for_nothing() {
    let mut service = DataStoreService::new(DataStore::new());
    let ip = Ipv4::from_octets(10, 0, 0, 5);
    let command = service.watch_response_at(SpecResponse::spec_response(ip, descriptor()), 100);
    assert_eq!(command, None);
    assert!(service.data_store().get_node(ip).is_none());
    service.watch_response_at(UsageOverviewResponse::usage_overview_response(ip, sample(1)), 101);
    let command = service.watch_response_at(SpecResponse::spec_response(ip, descriptor()), 102);
    assert_eq!(command, None);
    let node = service.data_store().get_node(ip).unwrap();
    assert_eq!(node.machine_info, Some(descriptor()));
    assert_eq!(node.last_updated, 102);
}

#[test]
fn search_removes_exactly_the_silent_nodes() {
    let mut service = DataStoreService::new(DataStore::new());
    let silent = Ipv4::from_octets(10, 0, 0, 1);
    let edge = Ipv4::from_octets(10, 0, 0, 2);
    let live = Ipv4::from_octets(10, 0, 0, 3);
    service.watch_response_at(UsageOverviewResponse::usage_overview_response(silent, sample(1)), 69);
    service.watch_response_at(UsageOverviewResponse::usage_overview_response(edge, sample(2)), 70);
    service.watch_response_at(UsageOverviewResponse::usage_overview_response(live, sample(3)), 95);
    let removed = service.check_lost_connection_at(100);
    assert_eq!(removed.len(), 1);
    assert_eq!(removed[0].ip, silent);
    assert_eq!(removed[0].last_updated, 69);
    assert_eq!(removed[0].usage.as_ref().unwrap().used_memory, 1);
    assert!(service.data_store().get_node(silent).is_none());
    assert!(service.data_store().get_node(edge).is_some());
    assert!(service.data_store().get_node(live).is_some());
    assert_eq!(service.data_store().get_node_overview().len(), 2);
}

#[test]
fn search_before_the_threshold_has_passed_removes_nothing() {
    let mut service = DataStoreService::new(DataStore::new());
    let ip = Ipv4::from_octets(10, 0, 0, 1);
    service.watch_response_at(UsageOverviewResponse::usage_overview_response(ip, sample(1)), 0);
    assert!(service.check_lost_connection_at(0).is_empty());
    assert!(service.check_lost_connection_at(29).is_empty());
    assert!(service.check_lost_connection_at(30).is_empty());
    assert_eq!(service.check_lost_connection_at(31).len(), 1);
    assert!(service.check_lost_connection_at(31).is_empty());
}

#[test]
fn silent_node_is_gone_after_the_searches_that_follow() {
    let mut service = DataStoreService::new(DataStore::new());
    let quiet = Ipv4::from_octets(10, 0, 0, 5);
    let busy = Ipv4::from_octets(10, 0, 0, 6);
    service.watch_response_at(UsageOverviewResponse::usage_overview_response(quiet, sample(1)), 1_000);
    service.watch_response_at(UsageOverviewResponse::usage_overview_response(busy, sample(1)), 1_000);
    let mut now = 1_000;
    let mut searches = 0;
    while service.data_store().get_node(quiet).is_some() {
        now += CHECK_FREQUENCY;
        service
            .watch_response_at(UsageOverviewResponse::usage_overview_response(busy, sample(now)), now);
        service.check_lost_connection_at(now);
        searches += 1;
        assert!(searches <= 4);
    }
    // Gone between 30 and 40 seconds after its last sample.
    assert_eq!(now, 1_040);
    let left = service.data_store().get_node_overview();
    assert_eq!(left.len(), 1);
    assert_eq!(left[0].ip, busy);
}

#[test]
fn descriptor_keeps_a_node_alive() {
    let mut service = DataStoreService::new(DataStore::new());
    let ip = Ipv4::from_octets(10, 0, 0, 5);
    service.watch_response_at(UsageOverviewResponse::usage_overview_response(ip, sample(1)), 100);
    service.watch_response_at(SpecResponse::spec_response(ip, descriptor()), 125);
    assert!(service.check_lost_connection_at(140).is_empty());
    assert_eq!(service.check_lost_connection_at(156).len(), 1);
}

#[test]
fn evicted_node_is_new_again() {
    let mut service = DataStoreService::new(DataStore::new());
    let ip = Ipv4::from_octets(10, 0, 0, 5);
    service.watch_response_at(UsageOverviewResponse::usage_overview_response(ip, sample(1)), 100);
    service.watch_response_at(SpecResponse::spec_response(ip, descriptor()), 101);
    assert_eq!(service.check_lost_connection_at(200).len(), 1);
    let command = service
        .watch_response_at(UsageOverviewResponse::usage_overview_response(ip, sample(2)), 300);
    assert_eq!(command, Some(DiscoveryCommand::DeviceInformation(ip)));
    let node = service.data_store().get_node(ip).unwrap();
    assert_eq!(node.usage.len(), 1);
    assert!(node.machine_info.is_none());
}

#[test]
fn clock_driven_steps_work_on_the_present() {
    let mut service = DataStoreService::new(DataStore::new());
    let ip = Ipv4::from_octets(10, 0, 0, 5);
    let command = service.watch_response(UsageOverviewResponse::usage_overview_response(ip, sample(1)));
    assert_eq!(command, Some(DiscoveryCommand::DeviceInformation(ip)));
    assert!(service.check_lost_connection().is_empty());
    assert!(service.data_store().get_node(ip).is_some());
    let stale = Ipv4::from_octets(10, 0, 0, 6);
    service.watch_response_at(UsageOverviewResponse::usage_overview_response(stale, sample(1)), 5);
    let removed = service.check_lost_connection();
    assert_eq!(removed.len(), 1);
    assert_eq!(removed[0].ip, stale);
}

#[test]
fn reading_before_the_epoch_stands_for_the_epoch() {
    assert_eq!(seconds_or_epoch(None), 0);
    assert_eq!(seconds_or_epoch(Some(0)), 0);
    assert_eq!(seconds_or_epoch(Some(1_700_000_000)), 1_700_000_000);
    assert_eq!(seconds_or_epoch(Some(u64::MAX)), u64::MAX);
}
