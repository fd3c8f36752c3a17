use airwin::network::address::IpAddress;
use airwin::network::interface::NetworkManager;
use airwin::protocols::airdrop::AirDropStatus;
use airwin::protocols::awdl::{AwdlManagerConfig, AwdlPeer};
use airwin::protocols::txt_records::TxtRecords;
use airwin::services::{service_kind_for, ServiceKind, Transport, TransportState};
use airwin::network::discovery::ServiceType;
use airwin::utils::error::AirWinError;
use airwin::AirWinServices;

fn services() -> AirWinServices {
    AirWinServices::new(NetworkManager::new().unwrap(), AwdlManagerConfig::default())
}

fn resolve(services: &mut AirWinServices, name: &str) {
    let mut records = TxtRecords::new();
    records.insert("model".to_string(), "iPhone".to_string());
    assert!(services.device_discovery.service_resolved(
        "_airdrop._tcp.local.",
        name.to_string(),
        &vec![0xC0A80114],
        8771,
        records,
    ));
}

fn sight(services: &mut AirWinServices, id: &str, now: u64) -> bool {
    services.ble.peripheral_seen(
        id.to_string(),
        None,
        Some(-50),
        [(0x004Cu16, vec![0u8, 0, 5])].into_iter().collect(),
        std::collections::HashMap::new(),
        &vec![],
        now,
    )
}

#[test]
fn new_services_are_stopped_and_empty() {
    let services = services();
    assert!(!services.device_discovery.running());
    assert_eq!(services.ble_state, TransportState::Stopped);
    assert_eq!(services.airdrop.get_status(), AirDropStatus::Idle);
    assert!(services.snapshot(0).is_empty());
}

#[test]
fn start_without_ble_adapter_still_succeeds() {
    let mut services = services();
    let plan = services.initialize(Ok(()), &vec![]).unwrap();
    assert_eq!(plan.browse.len(), 6);
    assert_eq!(plan.ble_adapter, None);
    assert_eq!(services.ble_state, TransportState::Error);
    assert!(services.device_discovery.running());
    resolve(&mut services, "iPhone._airdrop._tcp.local.");
    resolve(&mut services, "iPad._airdrop._tcp.local.");
    assert!(!sight(&mut services, "ble-1", 10));
    let peers = services.snapshot(10);
    assert_eq!(peers.len(), 2);
    assert_eq!(peers[0].id, "iPhone._airdrop._tcp.local.");
    assert_eq!(peers[0].display_name, "iPhone._airdrop._tcp.local.");
    assert_eq!(peers[0].transport, Transport::Mdns);
    assert_eq!(peers[0].service_kind, ServiceKind::AirDrop);
    assert_eq!(peers[0].address, Some(IpAddress::v4(192, 168, 1, 20)));
    assert_eq!(peers[0].port, 8771);
    assert_eq!(peers[0].attributes.get("model"), Some("iPhone".to_string()));
    assert_eq!(peers[0].last_seen, 10);
    assert_eq!(peers[1].id, "iPad._airdrop._tcp.local.");
}

#[test]
fn start_without_mdns_fails() {
    let mut services = services();
    match services.initialize(Err("no responder".to_string()), &vec!["hci0".to_string()]) {
        Err(AirWinError::DiscoveryError(m)) => assert_eq!(m, "no responder"),
        other => panic!("unexpected: {:?}", other.map(|p| p.browse)),
    }
    assert!(!services.device_discovery.running());
    assert_eq!(services.ble_state, TransportState::Stopped);
    assert_eq!(services.initialize(Ok(()), &vec!["hci0".to_string()]).unwrap().browse.len(), 6);
}

#[test]
fn second_start_changes_nothing() {
    let mut services = services();
    let plan = services.initialize(Ok(()), &vec!["hci0".to_string()]).unwrap();
    assert_eq!(plan.ble_adapter, Some("hci0".to_string()));
    assert_eq!(services.ble_state, TransportState::Starting);
    services.ble_scan_started(Ok(()));
    assert_eq!(services.ble_state, TransportState::Running);
    resolve(&mut services, "a");
    assert!(sight(&mut services, "b", 5));
    let before = services.snapshot(5).len();
    for mdns in [Ok(()), Err("late failure".to_string())] {
        let again = services.initialize(mdns, &vec![]).unwrap();
        assert!(again.browse.is_empty());
        assert_eq!(again.ble_adapter, None);
    }
    assert_eq!(services.ble_state, TransportState::Running);
    assert!(services.ble.is_scanning());
    resolve(&mut services, "a");
    assert!(sight(&mut services, "b", 6));
    assert_eq!(services.snapshot(6).len(), before);
    assert_eq!(before, 2);
}

#[test]
fn failed_scan_disables_ble_only() {
    let mut services = services();
    services.initialize(Ok(()), &vec!["hci0".to_string()]).unwrap();
    services.ble_scan_started(Err("radio off".to_string()));
    assert_eq!(services.ble_state, TransportState::Error);
    assert!(services.device_discovery.running());
    resolve(&mut services, "a");
    assert_eq!(services.snapshot(0).len(), 1);
}

#[test]
fn snapshot_fuses_the_three_transports() {
    let mut services = services();
    services.initialize(Ok(()), &vec!["hci0".to_string()]).unwrap();
    services.ble_scan_started(Ok(()));
    resolve(&mut services, "m");
    assert!(sight(&mut services, "old", 1_000));
    assert!(sight(&mut services, "new", 20_000));
    services.awdl.peer_reported(AwdlPeer { address: [1, 2, 3, 4, 5, 6], name: None });
    services
        .awdl
        .peer_reported(AwdlPeer { address: [0xaa; 6], name: Some("Mac".to_string()) });
    let peers = services.snapshot(31_000);
    let seen: Vec<(String, Transport)> = peers.iter().map(|p| (p.id.clone(), p.transport)).collect();
    assert_eq!(
        seen,
        vec![
            ("m".to_string(), Transport::Mdns),
            ("new".to_string(), Transport::Ble),
            ("01:02:03:04:05:06".to_string(), Transport::Awdl),
            ("aa:aa:aa:aa:aa:aa".to_string(), Transport::Awdl),
        ]
    );
    assert_eq!(peers[1].display_name, "Unknown AirDrop Device");
    assert_eq!(peers[1].service_kind, ServiceKind::AirDrop);
    assert_eq!(peers[1].address, None);
    assert_eq!(peers[1].last_seen, 20_000);
    assert_eq!(peers[2].display_name, "Unknown");
    assert_eq!(peers[3].display_name, "Mac");
    assert_eq!(peers[3].service_kind, ServiceKind::Other);
    assert_eq!(peers[3].last_seen, 31_000);
    assert_eq!(services.snapshot(30_999).len(), 5);
    assert_eq!(services.snapshot(50_000).len(), 3);
}

#[test]
fn stop_clears_the_catalog() {
    let mut services = services();
    services.initialize(Ok(()), &vec!["hci0".to_string()]).unwrap();
    services.ble_scan_started(Ok(()));
    resolve(&mut services, "m");
    sight(&mut services, "b", 1);
    services.awdl.peer_reported(AwdlPeer { address: [1; 6], name: None });
    assert_eq!(services.snapshot(1).len(), 3);
    services.stop();
    assert!(services.snapshot(1).is_empty());
    assert!(!services.device_discovery.running());
    assert!(!services.ble.is_scanning());
    assert_eq!(services.ble_state, TransportState::Stopped);
}

#[test]
fn service_kinds_follow_the_service_types() {
    assert_eq!(service_kind_for(ServiceType::AirDrop), ServiceKind::AirDrop);
    assert_eq!(service_kind_for(ServiceType::AirPlay), ServiceKind::AirPlay);
    assert_eq!(service_kind_for(ServiceType::Companion), ServiceKind::Companion);
    assert_eq!(service_kind_for(ServiceType::DeviceInfo), ServiceKind::DeviceInfo);
    assert_eq!(service_kind_for(ServiceType::Raop), ServiceKind::Raop);
    assert_eq!(service_kind_for(ServiceType::Homekit), ServiceKind::Other);
    assert_eq!(service_kind_for(ServiceType::Presence), ServiceKind::Other);
}
