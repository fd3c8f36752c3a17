use airwin::protocols::airdrop::{
    AirDrop, AirDropStatus, Listeners, AIRDROP_PORT, COMPANION_PORT, DEVICE_INFO_PORT,
    LEGACY_PORT, SETUP_TIMEOUT_SECS,
};
use airwin::protocols::apple_records::{AppleRecords, RecordSeed};
use airwin::protocols::status::{Progress, TransferEvent};
use airwin::utils::error::AirWinError;

fn transferring(transferred: u64, total: u64) -> AirDropStatus {
    AirDropStatus::Transferring(Progress { transferred, total })
}

fn all_states() -> Vec<AirDropStatus> {
    vec![
        AirDropStatus::Idle,
        AirDropStatus::Connecting,
        AirDropStatus::Connected,
        AirDropStatus::Failed("earlier".to_string()),
        transferring(10, 100),
    ]
}

#[test]
fn successful_send_walks_the_legal_path() {
    let mut status = AirDropStatus::Idle;
    status = status.apply(TransferEvent::StartServer);
    assert_eq!(status, AirDropStatus::Connecting);
    status = status.apply(TransferEvent::ListenerBound);
    assert_eq!(status, AirDropStatus::Connected);
    status = status.apply(TransferEvent::SendRequested);
    assert_eq!(status, AirDropStatus::Connecting);
    status = status.apply(TransferEvent::TransferStarted { total: 20_000 });
    assert_eq!(status, transferring(0, 20_000));
    let mut last = 0u128;
    for chunk in [8192u64, 8192, 3616] {
        status = status.apply(TransferEvent::ChunkMoved { bytes: chunk });
        let pct = status.progress_percent().unwrap();
        assert!(pct >= last);
        last = pct;
    }
    assert_eq!(last, 100);
    assert_eq!(status, transferring(20_000, 20_000));
    status = status.apply(TransferEvent::EndOfFile);
    assert_eq!(status, AirDropStatus::Connected);
}

#[test]
fn fault_leads_to_failed_from_every_state() {
    for state in all_states() {
        let next = state.apply(TransferEvent::Fault("disk full".to_string()));
        assert_eq!(next, AirDropStatus::Failed("disk full".to_string()));
    }
    for state in all_states() {
        assert_eq!(state.apply(TransferEvent::Timeout), AirDropStatus::Failed("timeout".to_string()));
    }
}

#[test]
fn no_event_reverts_to_idle() {
    let events = || {
        vec![
            TransferEvent::StartServer,
            TransferEvent::ListenerBound,
            TransferEvent::SendRequested,
            TransferEvent::TransferStarted { total: 5 },
            TransferEvent::ChunkMoved { bytes: 1 },
            TransferEvent::EndOfFile,
            TransferEvent::Fault("x".to_string()),
            TransferEvent::Timeout,
        ]
    };
    for state in all_states() {
        if state == AirDropStatus::Idle {
            continue;
        }
        for event in events() {
            assert_ne!(state.clone().apply(event), AirDropStatus::Idle);
        }
    }
}

#[test]
fn events_out_of_place_are_ignored() {
    assert_eq!(AirDropStatus::Idle.apply(TransferEvent::ListenerBound), AirDropStatus::Idle);
    assert_eq!(AirDropStatus::Idle.apply(TransferEvent::EndOfFile), AirDropStatus::Idle);
    assert_eq!(
        AirDropStatus::Connected.apply(TransferEvent::ChunkMoved { bytes: 9 }),
        AirDropStatus::Connected
    );
    assert_eq!(
        AirDropStatus::Idle.apply(TransferEvent::TransferStarted { total: 9 }),
        AirDropStatus::Idle
    );
    assert_eq!(
        AirDropStatus::Failed("x".to_string()).apply(TransferEvent::TransferStarted { total: 9 }),
        AirDropStatus::Failed("x".to_string())
    );
}

#[test]
fn inbound_transfer_starts_from_connected() {
    let status = AirDropStatus::Connected.apply(TransferEvent::TransferStarted { total: 4 });
    assert_eq!(status, transferring(0, 4));
    let status = status.apply(TransferEvent::ChunkMoved { bytes: 4 });
    assert_eq!(status.progress_percent(), Some(100));
    assert_eq!(status.apply(TransferEvent::EndOfFile), AirDropStatus::Connected);
}

#[test]
fn failed_is_recoverable_by_starting_again() {
    let failed = AirDropStatus::Failed("x".to_string());
    assert_eq!(failed.clone().apply(TransferEvent::StartServer), AirDropStatus::Connecting);
    assert_eq!(failed.apply(TransferEvent::SendRequested), AirDropStatus::Connecting);
}

#[test]
fn percent_rounds_down() {
    assert_eq!(Progress { transferred: 1, total: 3 }.percent_floor(), 33);
    assert_eq!(Progress { transferred: 2, total: 3 }.percent_floor(), 66);
    assert_eq!(Progress { transferred: 3, total: 3 }.percent_floor(), 100);
    assert_eq!(Progress { transferred: 0, total: 0 }.percent_floor(), 0);
    assert_eq!(Progress { transferred: 5, total: 0 }.percent_floor(), 0);
    assert_eq!(Progress { transferred: 6, total: 3 }.percent_floor(), 200);
    assert_eq!(Progress { transferred: u64::MAX, total: 1 }.percent_floor(), u64::MAX as u128 * 100);
    assert_eq!(Progress::start(9), Progress { transferred: 0, total: 9 });
}

#[test]
fn progress_counter_saturates() {
    let p = Progress { transferred: u64::MAX - 1, total: 10 }.advance(5);
    assert_eq!(p.transferred, u64::MAX);
    assert_eq!(p.total, 10);
    assert_eq!(Progress { transferred: 3, total: 10 }.advance(4).transferred, 7);
}

#[test]
fn status_without_transfer_has_no_percent() {
    assert_eq!(AirDropStatus::Idle.progress_percent(), None);
    assert_eq!(AirDropStatus::Connected.progress_percent(), None);
    assert_eq!(transferring(1, 4).progress_percent(), Some(25));
}

#[test]
fn ports_and_timeout_are_the_documented_ones() {
    assert_eq!(AIRDROP_PORT, 8771);
    assert_eq!(LEGACY_PORT, 7000);
    assert_eq!(COMPANION_PORT, 7001);
    assert_eq!(DEVICE_INFO_PORT, 7002);
    assert_eq!(SETUP_TIMEOUT_SECS, 15);
}

#[test]
fn endpoint_starts_idle_and_serves() {
    let mut endpoint = AirDrop::new();
    assert_eq!(endpoint.get_status(), AirDropStatus::Idle);
    assert_eq!(endpoint.current_file(), None);
    endpoint.start_server();
    assert_eq!(endpoint.get_status(), AirDropStatus::Connecting);
    assert_eq!(
        endpoint.listeners(),
        Listeners { https: false, legacy_v4: false, legacy_v6: false }
    );
    endpoint.listeners_bound(Ok(()), true, false).unwrap();
    assert_eq!(endpoint.get_status(), AirDropStatus::Connected);
    assert_eq!(endpoint.listeners(), Listeners { https: true, legacy_v4: true, legacy_v6: false });
}

#[test]
fn primary_bind_failure_is_fatal() {
    let mut endpoint = AirDrop::new();
    endpoint.start_server();
    match endpoint.listeners_bound(Err("port taken".to_string()), true, true) {
        Err(AirWinError::NetworkError(m)) => assert_eq!(m, "port taken"),
        other => panic!("unexpected: {:?}", other),
    }
    assert_eq!(endpoint.get_status(), AirDropStatus::Failed("port taken".to_string()));
    assert_eq!(
        endpoint.listeners(),
        Listeners { https: false, legacy_v4: false, legacy_v6: false }
    );
    endpoint.start_server();
    assert_eq!(endpoint.get_status(), AirDropStatus::Connecting);
}

#[test]
fn send_file_without_connection_fails() {
    let mut endpoint = AirDrop::new();
    match endpoint.send_file("a.txt", 3) {
        Err(AirWinError::Other(m)) => assert_eq!(m, "No active connection available"),
        other => panic!("unexpected: {:?}", other),
    }
    assert_eq!(
        endpoint.get_status(),
        AirDropStatus::Failed("No active connection available".to_string())
    );
}

#[test]
fn send_file_takes_the_connection() {
    let mut endpoint = AirDrop::new();
    endpoint.connection_established();
    let handshake = endpoint.send_file("photo.png", 1234).unwrap();
    assert_eq!(endpoint.get_status(), AirDropStatus::Connecting);
    assert_eq!(handshake.sender, "AirWin");
    assert_eq!(handshake.receiver, "AirDrop");
    assert_eq!(handshake.files.len(), 1);
    assert_eq!(handshake.files[0].name, "photo.png");
    assert_eq!(handshake.files[0].size, 1234);
    assert_eq!(handshake.files[0].mime_type, "image/png");
    assert_eq!(handshake.files[0].id.len(), 36);
    assert!(endpoint.send_file("photo.png", 1234).is_err());
}

#[test]
fn send_file_to_reports_progress_and_settles() {
    let mut endpoint = AirDrop::new();
    endpoint.start_server();
    endpoint.listeners_bound(Ok(()), true, false).unwrap();
    let handshake = endpoint.send_file_to("notes.txt", 10_000);
    assert_eq!(handshake.receiver, "AirWin");
    assert_eq!(handshake.files[0].mime_type, "text/plain");
    assert_eq!(endpoint.get_status(), AirDropStatus::Connecting);
    endpoint.transfer_started(10_000);
    assert_eq!(endpoint.get_status(), transferring(0, 10_000));
    endpoint.chunk_moved(8192);
    assert_eq!(endpoint.get_status(), transferring(8192, 10_000));
    assert_eq!(endpoint.transfer_progress().percent_floor(), 81);
    endpoint.chunk_moved(1808);
    assert_eq!(endpoint.transfer_progress().percent_floor(), 100);
    endpoint.transfer_finished("/tmp/notes.txt".to_string());
    assert_eq!(endpoint.get_status(), AirDropStatus::Connected);
    assert_eq!(endpoint.current_file(), Some("/tmp/notes.txt".to_string()));
}

#[test]
fn endpoint_fails_and_times_out() {
    let mut endpoint = AirDrop::new();
    endpoint.fail("broken pipe".to_string());
    assert_eq!(endpoint.get_status(), AirDropStatus::Failed("broken pipe".to_string()));
    endpoint.timed_out();
    assert_eq!(endpoint.get_status(), AirDropStatus::Failed("timeout".to_string()));
}

#[test]
fn four_services_are_registered() {
    let seed = RecordSeed {
        service_id: "0123456789ab".to_string(),
        computer_id: "0123456789ABCDEF0123456789ABCDEF".to_string(),
        system_id: "FEDCBA9876543210FEDCBA9876543210".to_string(),
        machine_id: "00112233445566778899AABBCCDDEEFF".to_string(),
        device_hash: "a1b2c3d4e5f6".to_string(),
        session_id: "0011223344556677".to_string(),
        timestamp: 1,
    };
    let airdrop = AppleRecords::airdrop_txt_records_from("host", &seed);
    let companion = AppleRecords::companion_txt_records_from(
        "host",
        "A".to_string(),
        "b".to_string(),
        "c".to_string(),
        "D".to_string(),
    );
    let device_info = AppleRecords::device_info_txt_records_from("k".to_string());
    let services = AirDrop::mdns_services("host", airdrop, companion, device_info);
    let expected = [
        ("_airdrop._tcp.local.", 8771u16, 27usize),
        ("_airdrop._udp.local.", 8771, 27),
        ("_companion-link._tcp.local.", 7001, 8),
        ("_device-info._tcp.local.", 7002, 7),
    ];
    assert_eq!(services.len(), 4);
    for (service, (service_type, port, entries)) in services.iter().zip(expected) {
        assert_eq!(service.service_type, service_type);
        assert_eq!(service.instance_name, "host");
        assert_eq!(service.domain, "local.");
        assert_eq!(service.port, port);
        assert_eq!(service.properties.len(), entries);
    }
    let fresh = AirDrop::register_mdns_services().unwrap();
    assert_eq!(fresh.len(), 4);
    assert!(AppleRecords::validate_apple_compatibility(&fresh[0].properties));
    assert_eq!(fresh[0].properties.get("service_id"), fresh[1].properties.get("service_id"));
}

#[test]
fn services_need_the_host_name() {
    let seed = RecordSeed {
        service_id: String::new(),
        computer_id: String::new(),
        system_id: String::new(),
        machine_id: String::new(),
        device_hash: String::new(),
        session_id: String::new(),
        timestamp: 0,
    };
    let result = AirDrop::mdns_services_for(
        Err("unreadable".to_string()),
        AppleRecords::airdrop_txt_records_from("h", &seed),
        AppleRecords::device_info_txt_records_from("k".to_string()),
        AppleRecords::device_info_txt_records_from("k".to_string()),
    );
    match result {
        Err(AirWinError::Other(m)) => assert_eq!(m, "unreadable"),
        other => panic!("unexpected: {:?}", other.map(|v| v.len())),
    }
}

#[test]
fn inbound_transfer_leaves_the_last_sent_file_alone() {
    let mut endpoint = AirDrop::new();
    endpoint.start_server();
    endpoint.listeners_bound(Ok(()), true, false).unwrap();
    endpoint.transfer_started(10);
    endpoint.chunk_moved(10);
    endpoint.inbound_finished();
    assert_eq!(endpoint.get_status(), AirDropStatus::Connected);
    assert_eq!(endpoint.current_file(), None);
}
