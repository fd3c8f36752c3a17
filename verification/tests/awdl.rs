use airwin::protocols::awdl::{
    port_conflict, AwdlManager, AwdlManagerConfig, AwdlManagerState, AwdlPeer, AwdlUtils,
    DaemonStep, ETHER_TYPE_IP,
};
use airwin::utils::error::AirWinError;

#[test]
fn test_awdl_manager_config_default() {
    let config = AwdlManagerConfig::default();
    assert!(config.enabled);
    assert!(config.auto_start);
    assert_eq!(config.device_name, "AirWin-Device");
    assert_eq!(config.service_name, "_airwin._tcp");
}

#[test]
fn test_awdl_utils_mac_validation() {
    assert!(!AwdlUtils::validate_mac_address(&[0; 6]));
    assert!(!AwdlUtils::validate_mac_address(&[0xff; 6]));
    assert!(AwdlUtils::validate_mac_address(&[0x00, 0x11, 0x22, 0x33, 0x44, 0x55]));
}

#[test]
fn test_awdl_utils_mac_formatting() {
    let mac = [0x00, 0x11, 0x22, 0x33, 0x44, 0x55];
    let formatted = AwdlUtils::format_mac_address(&mac);
    assert_eq!(formatted, "00:11:22:33:44:55");
}

#[test]
fn test_awdl_manager_creation() {
    let config = AwdlManagerConfig::default();
    let manager = AwdlManager::new(config);
    assert_eq!(manager.get_state(), AwdlManagerState::Stopped);
}

#[test]
fn config_default_has_every_documented_value() {
    let config = AwdlManagerConfig::default();
    assert_eq!(config.interface, None);
    assert_eq!(config.discovery_interval, 30);
    assert_eq!(config.max_peers, 50);
}

#[test]
fn mac_formatting_uses_lower_case_digits() {
    let formatted = AwdlUtils::format_mac_address(&[0xAB, 0xCD, 0xEF, 0x01, 0x9A, 0xFF]);
    assert_eq!(formatted, "ab:cd:ef:01:9a:ff");
}

#[test]
fn mac_with_one_nonzero_byte_is_valid() {
    assert!(AwdlUtils::validate_mac_address(&[0, 0, 0, 0, 0, 1]));
    assert!(AwdlUtils::validate_mac_address(&[0xff, 0xff, 0xff, 0xff, 0xff, 0xfe]));
}

#[test]
fn awdl_is_supported_and_lists_no_interface() {
    assert!(AwdlUtils::is_supported());
    assert!(AwdlUtils::get_available_interfaces().is_empty());
}

#[test]
fn port_conflicts_are_told_by_their_message() {
    assert!(port_conflict("os error 10048"));
    assert!(port_conflict("Address already in use"));
    assert!(port_conflict("failed to bind socket"));
    assert!(!port_conflict("permission denied"));
    assert!(!port_conflict(""));
}

#[test]
fn full_life_cycle_reaches_running_and_stops() {
    let mut manager = AwdlManager::new(AwdlManagerConfig::default());
    assert_eq!(manager.initialize().unwrap(), DaemonStep::Build);
    assert_eq!(manager.get_state(), AwdlManagerState::Initializing);
    assert_eq!(manager.daemon_built(Ok(())).unwrap(), DaemonStep::Initialize);
    assert_eq!(manager.daemon_initialized(Ok(())).unwrap(), DaemonStep::Start);
    assert_eq!(manager.get_state(), AwdlManagerState::Starting);
    assert_eq!(manager.daemon_started(Ok(())).unwrap(), DaemonStep::Sweep);
    assert_eq!(manager.get_state(), AwdlManagerState::Running);
    assert_eq!(manager.stop().unwrap(), DaemonStep::Stop);
    assert_eq!(manager.get_state(), AwdlManagerState::Stopping);
    manager.daemon_stopped(Ok(())).unwrap();
    assert_eq!(manager.get_state(), AwdlManagerState::Stopped);
}

#[test]
fn disabled_manager_does_nothing() {
    let mut config = AwdlManagerConfig::default();
    config.enabled = false;
    let mut manager = AwdlManager::new(config);
    assert_eq!(manager.initialize().unwrap(), DaemonStep::Nothing);
    assert_eq!(manager.get_state(), AwdlManagerState::Stopped);
    assert_eq!(manager.start().unwrap(), DaemonStep::Nothing);
    assert_eq!(manager.get_state(), AwdlManagerState::Stopped);
}

#[test]
fn port_conflict_disables_awdl_without_error() {
    let mut manager = AwdlManager::new(AwdlManagerConfig::default());
    manager.initialize().unwrap();
    let step = manager.daemon_built(Err("port already in use".to_string())).unwrap();
    assert_eq!(step, DaemonStep::Nothing);
    assert_eq!(manager.get_state(), AwdlManagerState::Stopped);
    assert!(!manager.config().enabled);
}

#[test]
fn other_build_failure_is_a_network_error() {
    let mut manager = AwdlManager::new(AwdlManagerConfig::default());
    manager.initialize().unwrap();
    match manager.daemon_built(Err("no such device".to_string())) {
        Err(AirWinError::NetworkError(m)) => {
            assert_eq!(m, "AWDL daemon build failed: no such device")
        }
        other => panic!("unexpected: {:?}", other),
    }
    assert_eq!(manager.get_state(), AwdlManagerState::Error);
    assert!(manager.config().enabled);
}

#[test]
fn start_without_daemon_is_an_error() {
    let mut manager = AwdlManager::new(AwdlManagerConfig::default());
    match manager.start() {
        Err(AirWinError::NetworkError(m)) => assert_eq!(m, "AWDL daemon not initialized"),
        other => panic!("unexpected: {:?}", other),
    }
    assert_eq!(manager.get_state(), AwdlManagerState::Error);
}

#[test]
fn stop_failure_leaves_the_manager_in_error() {
    let mut manager = AwdlManager::new(AwdlManagerConfig::default());
    manager.initialize().unwrap();
    manager.daemon_built(Ok(())).unwrap();
    manager.daemon_initialized(Ok(())).unwrap();
    manager.daemon_started(Ok(())).unwrap();
    manager.stop().unwrap();
    match manager.daemon_stopped(Err("busy".to_string())) {
        Err(AirWinError::NetworkError(m)) => assert_eq!(m, "AWDL stop failed: busy"),
        other => panic!("unexpected: {:?}", other),
    }
    assert_eq!(manager.get_state(), AwdlManagerState::Error);
}

#[test]
fn stop_without_daemon_is_stopped_at_once() {
    let mut manager = AwdlManager::new(AwdlManagerConfig::default());
    assert_eq!(manager.stop().unwrap(), DaemonStep::Nothing);
    assert_eq!(manager.get_state(), AwdlManagerState::Stopped);
}

#[test]
fn sweep_keeps_at_most_max_peers() {
    let mut config = AwdlManagerConfig::default();
    config.max_peers = 2;
    let mut manager = AwdlManager::new(config);
    for i in 0..5u8 {
        manager.peer_reported(AwdlPeer { address: [i, 1, 2, 3, 4, 5], name: None });
    }
    manager.sweep_peers();
    let peers = manager.get_peers(1_700_000_000);
    assert_eq!(peers.len(), 2);
    assert_eq!(peers[0].mac_address, [0, 1, 2, 3, 4, 5]);
    assert_eq!(peers[1].mac_address, [1, 1, 2, 3, 4, 5]);
}

#[test]
fn peers_are_listed_with_defaults() {
    let mut manager = AwdlManager::new(AwdlManagerConfig::default());
    manager.peer_reported(AwdlPeer { address: [1, 2, 3, 4, 5, 6], name: None });
    manager.peer_reported(AwdlPeer {
        address: [6, 5, 4, 3, 2, 1],
        name: Some("iPhone".to_string()),
    });
    let peers = manager.get_peers(42);
    assert_eq!(peers.len(), 2);
    assert_eq!(peers[0].device_name, "Unknown");
    assert_eq!(peers[0].service_name, "_airwin._tcp");
    assert_eq!(peers[0].last_seen, 42);
    assert_eq!(peers[0].signal_strength, None);
    assert!(peers[0].capabilities.is_empty());
    assert_eq!(peers[1].device_name, "iPhone");
}

#[test]
fn send_data_needs_a_daemon() {
    let manager = AwdlManager::new(AwdlManagerConfig::default());
    match manager.send_data([1, 2, 3, 4, 5, 6], b"hello") {
        Err(AirWinError::NetworkError(m)) => assert_eq!(m, "AWDL daemon not available"),
        other => panic!("unexpected: {:?}", other),
    }
    assert!(manager.broadcast_data(b"hello").unwrap().is_empty());
}

#[test]
fn frames_carry_the_data_to_each_peer() {
    let mut config = AwdlManagerConfig::default();
    config.auto_start = false;
    let mut manager = AwdlManager::new(config);
    manager.initialize().unwrap();
    manager.daemon_built(Ok(())).unwrap();
    assert_eq!(manager.daemon_initialized(Ok(())).unwrap(), DaemonStep::Nothing);
    manager.peer_reported(AwdlPeer { address: [1, 2, 3, 4, 5, 6], name: None });
    let frame = manager.send_data([9, 9, 9, 9, 9, 9], b"abc").unwrap();
    assert_eq!(frame.destination, [9, 9, 9, 9, 9, 9]);
    assert_eq!(frame.source, [0; 6]);
    assert_eq!(frame.ether_type, ETHER_TYPE_IP);
    assert_eq!(frame.payload, b"abc".to_vec());
    let frames = manager.broadcast_data(b"xyz").unwrap();
    assert_eq!(frames.len(), 1);
    assert_eq!(frames[0].destination, [1, 2, 3, 4, 5, 6]);
    assert_eq!(frames[0].payload, b"xyz".to_vec());
}

#[test]
fn update_config_reports_whether_it_ran() {
    let mut manager = AwdlManager::new(AwdlManagerConfig::default());
    let idle = manager.update_config(AwdlManagerConfig::default());
    assert!(!idle.stop && !idle.initialize);
    manager.initialize().unwrap();
    manager.daemon_built(Ok(())).unwrap();
    manager.daemon_initialized(Ok(())).unwrap();
    manager.daemon_started(Ok(())).unwrap();
    let mut next = AwdlManagerConfig::default();
    next.max_peers = 7;
    let restart = manager.update_config(next);
    assert!(restart.stop && restart.initialize);
    assert_eq!(manager.config().max_peers, 7);
    let mut off = AwdlManagerConfig::default();
    off.enabled = false;
    let restart = manager.update_config(off);
    assert!(restart.stop && !restart.initialize);
}

#[test]
fn a_peer_is_listed_once_by_its_address() {
    let mut manager = AwdlManager::new(AwdlManagerConfig::default());
    manager.peer_reported(AwdlPeer { address: [1, 2, 3, 4, 5, 6], name: None });
    manager.peer_reported(AwdlPeer { address: [1, 2, 3, 4, 5, 7], name: None });
    manager.peer_reported(AwdlPeer {
        address: [1, 2, 3, 4, 5, 6],
        name: Some("named".to_string()),
    });
    let peers = manager.get_peers(0);
    assert_eq!(peers.len(), 2);
    assert_eq!(peers[0].mac_address, [1, 2, 3, 4, 5, 6]);
    assert_eq!(peers[0].device_name, "named");
    assert_eq!(peers[1].mac_address, [1, 2, 3, 4, 5, 7]);
    manager.clear_peers();
    assert!(manager.get_peers(0).is_empty());
}
