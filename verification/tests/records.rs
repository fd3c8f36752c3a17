use airwin::protocols::apple_records::{AppleRecords, RecordSeed};
use airwin::protocols::txt_records::TxtRecords;
use sha2::Digest;

fn is_upper_hex(s: &str) -> bool {
    s.chars().all(|c| c.is_ascii_digit() || ('A'..='F').contains(&c))
}

fn is_lower_hex(s: &str) -> bool {
    s.chars().all(|c| c.is_ascii_digit() || ('a'..='f').contains(&c))
}

fn seed() -> RecordSeed {
    RecordSeed {
        service_id: "0123456789ab".to_string(),
        computer_id: "0123456789ABCDEF0123456789ABCDEF".to_string(),
        system_id: "FEDCBA9876543210FEDCBA9876543210".to_string(),
        machine_id: "00112233445566778899AABBCCDDEEFF".to_string(),
        device_hash: "a1b2c3d4e5f60718".to_string(),
        session_id: "0011223344556677".to_string(),
        timestamp: 1_700_000_000,
    }
}

#[test]
fn txt_records_insert_get_and_replace() {
    let mut records = TxtRecords::new();
    assert_eq!(records.len(), 0);
    assert!(!records.contains_key("a"));
    records.insert("a".to_string(), "1".to_string());
    records.insert("b".to_string(), "2".to_string());
    assert_eq!(records.len(), 2);
    assert_eq!(records.get("a"), Some("1".to_string()));
    records.insert("a".to_string(), "3".to_string());
    assert_eq!(records.len(), 2);
    assert_eq!(records.get("a"), Some("3".to_string()));
    assert_eq!(records.get("b"), Some("2".to_string()));
    assert_eq!(records.get("c"), None);
    assert_eq!(
        records.to_pairs(),
        vec![("a".to_string(), "3".to_string()), ("b".to_string(), "2".to_string())]
    );
    let copy = records.clone();
    assert_eq!(copy.get("a"), Some("3".to_string()));
    assert_eq!(copy.len(), 2);
}

#[test]
fn generated_airdrop_records_are_complete() {
    let records = AppleRecords::create_airdrop_txt_records().unwrap();
    assert!(AppleRecords::validate_apple_compatibility(&records));
    for key in ["computerid", "systemid", "machine_id"] {
        let id = records.get(key).unwrap();
        assert_eq!(id.len(), 32);
        assert!(is_upper_hex(&id));
    }
    let service_id = records.get("service_id").unwrap();
    assert_eq!(service_id.len(), 12);
    assert!(is_lower_hex(&service_id));
    let session_id = records.get("session_id").unwrap();
    assert_eq!(session_id.len(), 16);
    assert!(is_upper_hex(&session_id));
    let phash = records.get("phash").unwrap();
    assert_eq!(phash.len(), 16);
    assert!(records.get("timestamp").unwrap().chars().all(|c| c.is_ascii_digit()));
    assert!(is_lower_hex(&phash));
    assert_eq!(records.len(), 27);
}

#[test]
fn airdrop_records_hold_the_fixed_entries() {
    let records = AppleRecords::airdrop_txt_records_from("my-host", &seed());
    assert_eq!(records.get("flags"), Some("1019".to_string()));
    assert_eq!(records.get("protocol_version"), Some("2".to_string()));
    assert_eq!(records.get("service_type"), Some("1".to_string()));
    assert_eq!(records.get("model"), Some("Windows,1".to_string()));
    assert_eq!(records.get("system_version"), Some("10.0".to_string()));
    assert_eq!(records.get("status_flags"), Some("0x1".to_string()));
    assert_eq!(records.get("discoverable"), Some("1".to_string()));
    for key in [
        "supports_url",
        "supports_dvzip",
        "supports_dv",
        "supports_pipelining",
        "supports_mixed_types",
        "supports_contacts",
        "supports_discover",
        "supports_airdrop",
        "supports_sharing",
        "supports_awdl",
        "supports_ble",
        "supports_wifi_direct",
    ] {
        assert_eq!(records.get(key), Some("1".to_string()), "{}", key);
    }
}

#[test]
fn airdrop_records_hold_the_seed() {
    let records = AppleRecords::airdrop_txt_records_from("my-host", &seed());
    assert_eq!(records.get("name"), Some("my-host".to_string()));
    assert_eq!(records.get("timestamp"), Some("1700000000".to_string()));
    assert_eq!(records.get("service_id"), Some("0123456789ab".to_string()));
    assert_eq!(records.get("computerid"), Some("0123456789ABCDEF0123456789ABCDEF".to_string()));
    assert_eq!(records.get("systemid"), Some("FEDCBA9876543210FEDCBA9876543210".to_string()));
    assert_eq!(records.get("machine_id"), Some("00112233445566778899AABBCCDDEEFF".to_string()));
    assert_eq!(records.get("phash"), Some("a1b2c3d4e5f60718".to_string()));
    assert_eq!(records.get("session_id"), Some("0011223344556677".to_string()));
    assert!(AppleRecords::validate_apple_compatibility(&records));
}

#[test]
fn unknown_host_name_fails_the_records() {
    let result = AppleRecords::airdrop_txt_records_for(Err("no name".to_string()), &seed());
    match result {
        Err(e) => assert_eq!(e.message(), "no name"),
        Ok(_) => panic!("records without a host name"),
    }
    let ok = AppleRecords::airdrop_txt_records_for(Ok("h".to_string()), &seed()).unwrap();
    assert_eq!(ok.get("name"), Some("h".to_string()));
}

#[test]
fn validation_needs_every_required_key() {
    let required =
        ["flags", "protocol_version", "computerid", "systemid", "model", "supports_airdrop", "phash"];
    for missing in required {
        let mut records = TxtRecords::new();
        for key in required {
            if key != missing {
                records.insert(key.to_string(), "x".to_string());
            }
        }
        assert!(!AppleRecords::validate_apple_compatibility(&records), "{}", missing);
        records.insert(missing.to_string(), "x".to_string());
        assert!(AppleRecords::validate_apple_compatibility(&records));
    }
    assert!(!AppleRecords::validate_apple_compatibility(&TxtRecords::new()));
}

#[test]
fn device_hash_is_the_digest_head_in_hex() {
    let random = [7u8; 16];
    let secs = 1_700_000_000u64;
    let mut hasher = sha2::Sha256::new();
    hasher.update(random);
    hasher.update(b"AirWin");
    hasher.update(secs.to_le_bytes());
    let digest = hasher.finalize();
    let expected = hex::encode(&digest[..8]);
    assert_eq!(expected.len(), 16);
    assert_eq!(AppleRecords::device_hash_from(&random, secs), expected);
    assert_ne!(AppleRecords::device_hash_from(&random, secs + 1), expected);
}

#[test]
fn session_hash_is_upper_hex_of_the_bytes() {
    let hash = AppleRecords::session_hash_from(&[0x00, 0x1a, 0x2b, 0x3c, 0x4d, 0x5e, 0x6f, 0xff]);
    assert_eq!(hash, "001A2B3C4D5E6FFF");
}

#[test]
fn service_id_is_lower_hex_of_the_bytes() {
    let id = AppleRecords::service_id_from(&[0xAB, 0xCD, 0xEF, 0x01, 0x23, 0x45]);
    assert_eq!(id, "abcdef012345");
}

#[test]
fn generated_identifiers_have_their_shapes() {
    let computer = AppleRecords::generate_computer_id();
    assert_eq!(computer.len(), 32);
    assert!(is_upper_hex(&computer));
    let system = AppleRecords::generate_system_id();
    assert_eq!(system.len(), 32);
    assert!(is_upper_hex(&system));
    assert_ne!(computer, system);
    let session = AppleRecords::generate_session_hash();
    assert_eq!(session.len(), 16);
    assert!(is_upper_hex(&session));
    let service = AppleRecords::generate_service_id();
    assert_eq!(service.len(), 12);
    assert!(is_lower_hex(&service));
    let hash = AppleRecords::generate_device_hash();
    assert_eq!(hash.len(), 16);
    assert!(is_lower_hex(&hash));
}

#[test]
fn companion_records_hold_their_entries() {
    let records = AppleRecords::companion_txt_records_from(
        "host",
        "PAIR".to_string(),
        "addr".to_string(),
        "home".to_string(),
        "HOME".to_string(),
    );
    assert_eq!(records.len(), 8);
    assert_eq!(records.get("rpMRtID"), Some("PAIR".to_string()));
    assert_eq!(records.get("rpAD"), Some("addr".to_string()));
    assert_eq!(records.get("rpVr"), Some("350.92.4".to_string()));
    assert_eq!(records.get("rpFl"), Some("0x20000".to_string()));
    assert_eq!(records.get("rpHA"), Some("home".to_string()));
    assert_eq!(records.get("rpHI"), Some("HOME".to_string()));
    assert_eq!(records.get("rpMd"), Some("Windows,1".to_string()));
    assert_eq!(records.get("rpNm"), Some("host".to_string()));
    let fresh = AppleRecords::create_companion_txt_records().unwrap();
    assert_eq!(fresh.len(), 8);
    assert_eq!(fresh.get("rpMRtID").unwrap().len(), 32);
    assert_eq!(fresh.get("rpAD").unwrap().len(), 16);
    assert_eq!(fresh.get("rpHA").unwrap().len(), 16);
}

#[test]
fn device_info_records_hold_their_entries() {
    let records = AppleRecords::device_info_txt_records_from("abc".to_string());
    assert_eq!(records.len(), 7);
    assert_eq!(records.get("model"), Some("Windows,1".to_string()));
    assert_eq!(records.get("osxvers"), Some("10".to_string()));
    assert_eq!(records.get("srcvers"), Some("350.92.4".to_string()));
    assert_eq!(records.get("features"), Some("0x445F8A00,0x1C340".to_string()));
    assert_eq!(records.get("flags"), Some("0x4".to_string()));
    assert_eq!(records.get("vv"), Some("2".to_string()));
    assert_eq!(records.get("pk"), Some("abc".to_string()));
    let fresh = AppleRecords::create_device_info_txt_records().unwrap();
    assert_eq!(fresh.get("pk").unwrap().len(), 16);
}

#[test]
fn session_update_replaces_three_entries_only() {
    let mut records = AppleRecords::airdrop_txt_records_from("host", &seed());
    AppleRecords::update_session_records_with(
        &mut records,
        "FFFFFFFFFFFFFFFF".to_string(),
        5,
        "000000000000".to_string(),
    );
    assert_eq!(records.get("session_id"), Some("FFFFFFFFFFFFFFFF".to_string()));
    assert_eq!(records.get("timestamp"), Some("5".to_string()));
    assert_eq!(records.get("phash"), Some("000000000000".to_string()));
    assert_eq!(records.get("name"), Some("host".to_string()));
    assert_eq!(records.get("computerid"), Some("0123456789ABCDEF0123456789ABCDEF".to_string()));
    assert_eq!(records.len(), 27);
    AppleRecords::update_session_records_with(
        &mut records,
        "FFFFFFFFFFFFFFFF".to_string(),
        5,
        "000000000000".to_string(),
    );
    assert_eq!(records.len(), 27);
    assert_eq!(records.get("timestamp"), Some("5".to_string()));
}

#[test]
fn fresh_session_update_keeps_the_record_valid() {
    let mut records = AppleRecords::airdrop_txt_records_from("host", &seed());
    AppleRecords::update_session_records(&mut records);
    assert!(AppleRecords::validate_apple_compatibility(&records));
    assert_eq!(records.len(), 27);
    assert_eq!(records.get("session_id").unwrap().len(), 16);
    assert_eq!(records.get("phash").unwrap().len(), 16);
    let mut empty = TxtRecords::new();
    AppleRecords::update_session_records(&mut empty);
    assert_eq!(empty.len(), 3);
}

#[test]
fn length_counts_the_distinct_keys() {
    let fresh = AppleRecords::create_device_info_txt_records().unwrap();
    assert_eq!(fresh.len(), 7);
    assert_eq!(fresh.to_pairs().len(), 7);
    let mut records = TxtRecords::new();
    records.insert("a".to_string(), "1".to_string());
    records.insert("b".to_string(), "2".to_string());
    records.insert("a".to_string(), "3".to_string());
    assert_eq!(records.len(), 2);
    assert_eq!(records.get("a"), Some("3".to_string()));
}
