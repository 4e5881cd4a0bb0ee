use node_discovery::address::Ipv4;
use node_discovery::commands::DiscoveryCommand;
use node_discovery::constants::{BROADCAST_INTERVAL, HOST_PORT, RECEIVE_BUFFER, TARGET_PORT};
use node_discovery::data_store::DataStore;
use node_discovery::data_store_service::DataStoreService;
use node_discovery::discovery_server::{read_of, DiscoveryServer, Endpoint};
use node_discovery::manager_messages::ManagerRequestSchema;
use node_discovery::scan::scan;
use node_discovery::shared_data::{DataEvent, SharedData};
use node_discovery::target_messages::ResponseSchema;
use node_discovery::target_server::{ReplyKind, TargetServer};
use node_discovery::usage::{
    totals_fit, CpuReading, NetworkReading, SystemInfo, SystemReport, UsageReading,
};

fn report() -> SystemReport {
    SystemReport {
        name: Some("Ubuntu".to_string()),
        os_version: None,
        host_name: Some("node-a".to_string()),
        kernel_version: None,
        physical_core_count: Some(4),
        cpu_arch: "x86_64".to_string(),
        cpu_brands: vec!["First CPU".to_string(), "Second CPU".to_string()],
    }
}

fn reading() -> UsageReading {
    UsageReading {
        total_memory: 1_000,
        used_memory: 400,
        total_swap: 50,
        used_swap: 5,
        cpus: vec![
            CpuReading { usage: "12.5".to_string(), frequency: 2400 },
            CpuReading { usage: "99.0".to_string(), frequency: 2600 },
        ],
        networks: vec![
            NetworkReading { received: 10, transmitted: 1 },
            NetworkReading { received: 20, transmitted: 2 },
            NetworkReading { received: 30, transmitted: 3 },
        ],
    }
}

#[test]
fn ports_and_intervals_are_as_fixed() {
    assert_ne!(TARGET_PORT, HOST_PORT);
    assert_eq!(BROADCAST_INTERVAL, 5);
    assert_eq!(RECEIVE_BUFFER, 1024);
}

#[test]
fn descriptor_fills_in_what_the_system_does_not_know() {
    let system = SystemInfo::new(report());
    let info = system.get_machine_info();
    assert_eq!(info.os, "Ubuntu");
    assert_eq!(info.os_version, "OS version not found");
    assert_eq!(info.host_name, "node-a");
    assert_eq!(info.kernel_version, "Kernel version not found");
    assert_eq!(info.number_of_cpu, 4);
    assert_eq!(info.arch, "x86_64");
    assert_eq!(info.brand, "First CPU");
    let bare = SystemInfo::new(SystemReport {
        name: None,
        os_version: Some("1".to_string()),
        host_name: None,
        kernel_version: Some("2".to_string()),
        physical_core_count: None,
        cpu_arch: String::new(),
        cpu_brands: vec![String::new()],
    });
    assert_eq!(bare.get_machine_info().os, "OS  name not found");
    assert_eq!(bare.get_machine_info().host_name, "Host name not found");
    assert_eq!(bare.get_machine_info().number_of_cpu, 0);
    assert_eq!(bare.get_machine_info().os_version, "1");
    assert_eq!(bare.get_machine_info().kernel_version, "2");
}

#[test]
fn sample_adds_up_the_traffic() {
    let system = SystemInfo::new(report());
    let usage = system.get_usage(&reading());
    assert_eq!(usage.total_memory, 1_000);
    assert_eq!(usage.used_memory, 400);
    assert_eq!(usage.total_swap, 50);
    assert_eq!(usage.used_swap, 5);
    assert_eq!(usage.cpu_usage, vec!["12.5", "99.0"]);
    assert_eq!(usage.cpu_frequency, vec![2400, 2600]);
    assert_eq!(usage.network_down, 60);
    assert_eq!(usage.network_up, 6);
    let idle = system.get_usage(&UsageReading {
        total_memory: 0,
        used_memory: 0,
        total_swap: 0,
        used_swap: 0,
        cpus: Vec::new(),
        networks: vec![NetworkReading { received: u64::MAX, transmitted: 0 }],
    });
    assert!(idle.cpu_usage.is_empty());
    assert_eq!(idle.network_down, u64::MAX);
    assert_eq!(idle.network_up, 0);
}

#[test]
fn observer_sends_each_request_to_its_endpoint() {
    let ip = Ipv4::from_octets(192, 168, 1, 10);
    let server = DiscoveryServer::new(ip);
    assert_eq!(server.local_endpoint(), Endpoint { ip, port: HOST_PORT });
    let target = Ipv4::from_octets(192, 168, 1, 77);
    let targeted = server.targeted_request(DiscoveryCommand::DeviceInformation(target));
    assert_eq!(targeted.to, Endpoint { ip: target, port: TARGET_PORT });
    assert_eq!(targeted.payload, r#"{"request":"spec","senderIp":"192.168.1.10"}"#);
    let broadcast = server.broadcast_request();
    assert_eq!(
        broadcast.to,
        Endpoint { ip: Ipv4::from_octets(255, 255, 255, 255), port: TARGET_PORT }
    );
    assert_eq!(broadcast.payload, r#"{"request":"usageOverview","senderIp":"192.168.1.10"}"#);
}

#[test]
fn long_datagram_is_cut_at_the_buffer() {
    let short = vec![b'x'; 10];
    assert_eq!(read_of(&short).len(), 10);
    let full = vec![b'x'; 1024];
    assert_eq!(read_of(&full).len(), 1024);
    let mut long = vec![b'x'; 1500];
    long[1023] = b'y';
    long[1024] = b'z';
    assert_eq!(read_of(&long).len(), 1024);
    assert_eq!(read_of(&long)[1023], b'y');

    let mut padded = br#"{"request":"spec","senderIp":"10.0.0.1"}"#.to_vec();
    assert_eq!(TargetServer::receive(&padded), Some(ReplyKind::Spec));
    padded.resize(1024, b' ');
    assert_eq!(TargetServer::receive(&padded), Some(ReplyKind::Spec));
    padded.extend_from_slice(b"garbage");
    assert_eq!(TargetServer::receive(&padded), Some(ReplyKind::Spec));
    let mut pushed = vec![b' '; 1000];
    pushed.extend_from_slice(br#"{"request":"spec","senderIp":"10.0.0.1"}"#);
    assert_eq!(TargetServer::receive(&pushed), None);
    assert!(DiscoveryServer::receive(&pushed).is_none());
}

#[test]
fn peer_answers_in_kind() {
    assert_eq!(
        TargetServer::receive(br#"{"request":"usageOverview","senderIp":"10.0.0.1"}"#),
        Some(ReplyKind::UsageOverview)
    );
    assert_eq!(TargetServer::receive(b"ping"), None);
    let request = ManagerRequestSchema::from_json(br#"{"request":"spec","senderIp":"x"}"#).unwrap();
    assert_eq!(TargetServer::reply_kind(&request), ReplyKind::Spec);
    assert_eq!(
        TargetServer::local_endpoint(),
        Endpoint { ip: Ipv4::from_octets(0, 0, 0, 0), port: TARGET_PORT }
    );
    let server = TargetServer::new(Ipv4::from_octets(10, 0, 0, 5), SystemInfo::new(report()));
    match ResponseSchema::from_json(server.spec_reply().as_bytes()) {
        Some(ResponseSchema::Spec(r)) => {
            assert_eq!(r.ip, Ipv4::from_octets(10, 0, 0, 5));
            assert_eq!(r.spec.brand, "First CPU");
            assert_eq!(r.spec.os_version, "OS version not found");
        }
        other => panic!("unexpected: {:?}", other),
    }
    match ResponseSchema::from_json(server.usage_reply(&reading()).as_bytes()) {
        Some(ResponseSchema::UsageOverview(r)) => {
            assert_eq!(r.ip, Ipv4::from_octets(10, 0, 0, 5));
            assert_eq!(r.usage.network_down, 60);
            assert_eq!(r.usage.cpu_usage, vec!["12.5", "99.0"]);
        }
        other => panic!("unexpected: {:?}", other),
    }
}

#[test]
fn new_peer_is_found_and_described() {
    let observer = DiscoveryServer::new(Ipv4::from_octets(10, 0, 0, 1));
    let peer_ip = Ipv4::from_octets(10, 0, 0, 5);
    let peer = TargetServer::new(peer_ip, SystemInfo::new(report()));
    let mut service = DataStoreService::new(DataStore::new());

    // The observer asks the whole network for usage; the peer answers.
    let broadcast = observer.broadcast_request();
    assert_eq!(TargetServer::receive(broadcast.payload.as_bytes()), Some(ReplyKind::UsageOverview));
    let reply = peer.usage_reply(&reading());
    assert!(reply.starts_with(r#"{"ip":"10.0.0.5","response":"usageOverview","usage":{"#));

    // The response makes a new node and asks for its descriptor.
    let response = DiscoveryServer::receive(reply.as_bytes()).expect("a response");
    let command = service.watch_response_at(response, 500).expect("a command");
    assert_eq!(command, DiscoveryCommand::DeviceInformation(peer_ip));

    // The descriptor request goes to the peer alone; the peer answers.
    let targeted = observer.targeted_request(command);
    assert_eq!(targeted.to, Endpoint { ip: peer_ip, port: TARGET_PORT });
    assert_eq!(TargetServer::receive(targeted.payload.as_bytes()), Some(ReplyKind::Spec));
    let response = DiscoveryServer::receive(peer.spec_reply().as_bytes()).expect("a response");
    assert_eq!(service.watch_response_at(response, 501), None);

    let node = service.data_store().get_node(peer_ip).expect("the node");
    assert_eq!(node.machine_info.as_ref(), Some(peer_machine().get_machine_info()));
    assert_eq!(node.usage.len(), 1);
    assert_eq!(node.usage[0].timestamp, 500);
    assert_eq!(node.usage[0].machine_usage.network_down, 60);
    assert_eq!(node.last_updated, 501);
}

fn peer_machine() -> SystemInfo {
    SystemInfo::new(report())
}

#[test]
fn events_carry_unsigned_milliseconds() {
    let event = DataEvent::at("started".to_string(), 1_444);
    assert_eq!(event.message, "started");
    assert_eq!(event.timestamp, 1_444);
    assert_eq!(DataEvent::at(String::new(), 0).timestamp, 0);
    assert_eq!(DataEvent::at(String::new(), -1).timestamp, u64::MAX);
    assert_eq!(DataEvent::at(String::new(), i64::MIN).timestamp, 1u64 << 63);
    assert_eq!(DataEvent::at(String::new(), i64::MAX).timestamp, i64::MAX as u64);
    assert_eq!(DataEvent::at_reading("a".to_string(), Some(1), Some(444_000_000)).timestamp, 1_444);
    assert_eq!(DataEvent::at_reading("a".to_string(), Some(1), Some(444_999_999)).message, "a");
    assert_eq!(
        DataEvent::at_reading(String::new(), Some(1_000_000_000), Some(555_000_000)).timestamp,
        1_000_000_000_555
    );
    assert_eq!(DataEvent::at_reading(String::new(), Some(0), Some(0)).timestamp, 0);
    assert_eq!(DataEvent::at_reading(String::new(), Some(59), Some(1_500_000_000)).timestamp, 60_500);
    // Before the epoch, beyond the dates that can be counted, or no reading at all.
    assert_eq!(DataEvent::at_reading(String::new(), None, None).timestamp, 0);
    assert_eq!(DataEvent::at_reading(String::new(), Some(5), None).timestamp, 0);
    assert_eq!(DataEvent::at_reading(String::new(), None, Some(5)).timestamp, 0);
    assert_eq!(DataEvent::at_reading(String::new(), Some(u64::MAX), Some(0)).timestamp, 0);
    assert_eq!(DataEvent::at_reading(String::new(), Some(i64::MAX as u64), Some(0)).timestamp, 0);
    assert_eq!(DataEvent::at_reading(String::new(), Some(5), Some(2_000_000_000)).timestamp, 0);
    assert_eq!(DataEvent::at_reading(String::new(), Some(5), Some(1_000_000_000)).timestamp, 0);
    let now = DataEvent::new("now".to_string());
    assert_eq!(now.message, "now");
    // Any reading of a clock that is set later than the year 2001.
    assert!(now.timestamp > 1_000_000_000_000);
    assert!(now.timestamp < 1u64 << 62);
    let shared = SharedData { events: vec!["a".to_string()] };
    assert_eq!(shared.events.len(), 1);
}

#[test]
fn scan_finds_its_two_placeholders() {
    let machines = scan();
    assert_eq!(machines.len(), 2);
    assert_eq!(machines[0].name, "Machine1");
    assert_eq!(machines[0].ip, "");
    assert_eq!(machines[1].name, "Machine2");
    assert_eq!(machines[1].ip, "");
}

#[test]
fn traffic_that_does_not_add_up_is_told() {
    assert!(totals_fit(&reading()));
    let mut heavy = reading();
    heavy.networks.push(NetworkReading { received: u64::MAX - 60, transmitted: u64::MAX - 6 });
    assert!(totals_fit(&heavy));
    heavy.networks.push(NetworkReading { received: 0, transmitted: 1 });
    assert!(!totals_fit(&heavy));
    let mut heavy = reading();
    heavy.networks.push(NetworkReading { received: u64::MAX - 59, transmitted: 0 });
    assert!(!totals_fit(&heavy));
    heavy.networks.clear();
    assert!(totals_fit(&heavy));
}
