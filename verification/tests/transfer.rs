use airwin::protocols::legacy::{
    accept_response, accept_wire, encode_session, file_extension, frame_payload, handshake_complete,
    media_type_for, split_at_marker, AirDropHandshake, FileTransfer,
};
use airwin::network::address::IpAddress;
use airwin::protocols::session::{Dialect, Direction, TransferSession};
use airwin::protocols::status::{AirDropStatus, Progress, TransferEvent};
use airwin::protocols::transfer::{
    is_truncated, next_chunk_len, receive_files, split_chunks, CHUNK_SIZE,
};

fn pseudo_random(len: usize, mut state: u64) -> Vec<u8> {
    let mut out = Vec::with_capacity(len);
    for _ in 0..len {
        state = state.wrapping_mul(6364136223846793005).wrapping_add(1442695040888963407);
        out.push((state >> 33) as u8);
    }
    out
}

#[test]
fn chunk_size_is_eight_kibibytes() {
    assert_eq!(CHUNK_SIZE, 8192);
    assert_eq!(next_chunk_len(0), 0);
    assert_eq!(next_chunk_len(100), 100);
    assert_eq!(next_chunk_len(8191), 8191);
    assert_eq!(next_chunk_len(8192), 8192);
    assert_eq!(next_chunk_len(u64::MAX), 8192);
}

#[test]
fn chunks_cover_the_data_in_order() {
    let data: Vec<u8> = (0..10u8).collect();
    let chunks = split_chunks(&data, 4);
    assert_eq!(chunks, vec![vec![0, 1, 2, 3], vec![4, 5, 6, 7], vec![8, 9]]);
    assert_eq!(split_chunks(&data, 10), vec![data.clone()]);
    assert_eq!(split_chunks(&data, 5).len(), 2);
    assert_eq!(split_chunks(&data, 100), vec![data.clone()]);
    assert!(split_chunks(&[], 4).is_empty());
    assert_eq!(split_chunks(&data, 1).len(), 10);
}

#[test]
fn ten_mebibytes_survive_the_legacy_dialect() {
    let file = pseudo_random(10 * 1024 * 1024, 42);
    let handshake = AirDropHandshake {
        sender: "AirWin".to_string(),
        receiver: "AirWin".to_string(),
        files: vec![FileTransfer {
            id: "id-1".to_string(),
            name: "blob.bin".to_string(),
            size: file.len() as u64,
            mime_type: "application/octet-stream".to_string(),
        }],
    };
    let payload = handshake.to_json().unwrap().into_bytes();
    let wire = encode_session(&payload, &vec![file.clone()]);
    let chunks = split_chunks(&wire, CHUNK_SIZE);
    assert_eq!(chunks.len(), (wire.len() + CHUNK_SIZE - 1) / CHUNK_SIZE);
    let mut received: Vec<u8> = Vec::new();
    for chunk in &chunks {
        assert!(chunk.len() <= CHUNK_SIZE);
        received.extend_from_slice(chunk);
    }
    assert!(handshake_complete(&received));
    let (head, rest) = split_at_marker(&received).unwrap();
    assert_eq!(head, payload);
    let files = receive_files(&rest, &handshake.sizes());
    assert_eq!(files.len(), 1);
    assert!(files[0] == file);
    assert!(!is_truncated(&files[0], file.len() as u64));
}

#[test]
fn several_files_come_back_in_manifest_order() {
    let a = pseudo_random(5000, 1);
    let b: Vec<u8> = Vec::new();
    let c = pseudo_random(9000, 3);
    let wire = encode_session(b"{}", &vec![a.clone(), b.clone(), c.clone()]);
    let (payload, rest) = split_at_marker(&wire).unwrap();
    assert_eq!(payload, b"{}".to_vec());
    let files = receive_files(&rest, &vec![5000, 0, 9000]);
    assert_eq!(files, vec![a, b, c]);
}

#[test]
fn short_stream_truncates_the_last_files() {
    let files = receive_files(&[1, 2, 3, 4, 5], &vec![3, 4, 2]);
    assert_eq!(files, vec![vec![1, 2, 3], vec![4, 5], vec![]]);
    assert!(!is_truncated(&files[0], 3));
    assert!(is_truncated(&files[1], 4));
    assert!(is_truncated(&files[2], 2));
    assert!(receive_files(&[1, 2, 3], &vec![]).is_empty());
    assert_eq!(receive_files(&[1, 2, 3, 4], &vec![2]), vec![vec![1, 2]]);
}

#[test]
fn marker_frames_the_handshake() {
    assert_eq!(frame_payload(b"{}"), b"{}\n\n".to_vec());
    assert_eq!(frame_payload(b""), b"\n\n".to_vec());
    assert!(!handshake_complete(b""));
    assert!(!handshake_complete(b"{\"a\":1}\n"));
    assert!(handshake_complete(b"{\"a\":1}\n\n"));
    assert!(handshake_complete(b"{\"a\":1}\n\nrest"));
    assert!(!handshake_complete(b"a\nb\nc"));
    assert_eq!(split_at_marker(b"abc"), None);
    assert_eq!(split_at_marker(b"abc\n\n"), Some((b"abc".to_vec(), b"".to_vec())));
    assert_eq!(split_at_marker(b"abc\n\n\n\nxyz"), Some((b"abc".to_vec(), b"\n\nxyz".to_vec())));
    assert_eq!(split_at_marker(b"\n\nxyz"), Some((b"".to_vec(), b"xyz".to_vec())));
}

#[test]
fn handshake_json_is_what_a_json_reader_expects() {
    let handshake = AirDropHandshake {
        sender: "AirWin".to_string(),
        receiver: "Air\"Drop\n".to_string(),
        files: vec![
            FileTransfer {
                id: "1".to_string(),
                name: "a b.txt".to_string(),
                size: 12,
                mime_type: "text/plain".to_string(),
            },
            FileTransfer {
                id: "2".to_string(),
                name: "é.png".to_string(),
                size: u64::MAX,
                mime_type: "image/png".to_string(),
            },
        ],
    };
    let text = handshake.to_json().unwrap();
    assert!(!text.contains('\n'));
    let value: serde_json::Value = serde_json::from_str(&text).unwrap();
    assert_eq!(value["sender"], "AirWin");
    assert_eq!(value["receiver"], "Air\"Drop\n");
    assert_eq!(value["files"].as_array().unwrap().len(), 2);
    assert_eq!(value["files"][0]["id"], "1");
    assert_eq!(value["files"][0]["name"], "a b.txt");
    assert_eq!(value["files"][0]["size"], 12);
    assert_eq!(value["files"][0]["mime_type"], "text/plain");
    assert_eq!(value["files"][1]["name"], "é.png");
    assert_eq!(value["files"][1]["size"], u64::MAX);
    assert_eq!(handshake.sizes(), vec![12, u64::MAX]);
}

#[test]
fn handshake_json_has_the_exact_text() {
    let handshake = AirDropHandshake {
        sender: "AirWin".to_string(),
        receiver: "AirDrop".to_string(),
        files: vec![FileTransfer {
            id: "x".to_string(),
            name: "f.txt".to_string(),
            size: 3,
            mime_type: "text/plain".to_string(),
        }],
    };
    assert_eq!(
        handshake.to_json().unwrap(),
        "{\"sender\":\"AirWin\",\"receiver\":\"AirDrop\",\"files\":[{\"id\":\"x\",\"name\":\"f.txt\",\"size\":3,\"mime_type\":\"text/plain\"}]}"
    );
    let empty = AirDropHandshake { sender: "a".to_string(), receiver: "b".to_string(), files: vec![] };
    assert_eq!(empty.to_json().unwrap(), "{\"sender\":\"a\",\"receiver\":\"b\",\"files\":[]}");
    assert!(empty.sizes().is_empty());
}

#[test]
fn accept_response_names_the_receiver() {
    let text = accept_response("AirDrop").unwrap();
    assert_eq!(text, "{\"receiver\":\"AirDrop\",\"status\":\"accept\"}");
    let value: serde_json::Value = serde_json::from_str(&accept_response("a\\b").unwrap()).unwrap();
    assert_eq!(value["status"], "accept");
    assert_eq!(value["receiver"], "a\\b");
}

#[test]
fn extension_follows_the_last_full_stop() {
    assert_eq!(file_extension("photo.png"), Some("png".to_string()));
    assert_eq!(file_extension("archive.tar.gz"), Some("gz".to_string()));
    assert_eq!(file_extension("README"), None);
    assert_eq!(file_extension(".bashrc"), None);
    assert_eq!(file_extension(".a.b"), Some("b".to_string()));
    assert_eq!(file_extension("name."), Some("".to_string()));
    assert_eq!(file_extension(""), None);
    assert_eq!(file_extension("é.ü"), Some("ü".to_string()));
}

#[test]
fn media_type_goes_by_the_extension() {
    assert_eq!(media_type_for("notes.txt"), "text/plain");
    assert_eq!(media_type_for("photo.PNG"), "image/png");
    assert_eq!(media_type_for("data.json"), "application/json");
    assert_eq!(media_type_for("unknown"), "application/octet-stream");
    assert_eq!(media_type_for("file.zzzzzz"), "application/octet-stream");
    assert_eq!(media_type_for("name."), "application/octet-stream");
    assert_eq!(media_type_for(".hidden"), "application/octet-stream");
}

#[test]
fn described_file_has_a_fresh_identifier() {
    let a = FileTransfer::describe("movie.mp4", 77);
    let b = FileTransfer::describe("movie.mp4", 77);
    assert_eq!(a.name, "movie.mp4");
    assert_eq!(a.size, 77);
    assert_eq!(a.mime_type, "video/mp4");
    assert_eq!(a.id.len(), 36);
    for (i, c) in a.id.chars().enumerate() {
        if i == 8 || i == 13 || i == 18 || i == 23 {
            assert_eq!(c, '-');
        } else {
            assert!(c.is_ascii_digit() || ('a'..='f').contains(&c));
        }
    }
    assert_ne!(a.id, b.id);
    let value: serde_json::Value = serde_json::from_str(&a.to_json().unwrap()).unwrap();
    assert_eq!(value["size"], 77);
}

fn manifest(sizes: &[u64]) -> AirDropHandshake {
    AirDropHandshake {
        sender: "s".to_string(),
        receiver: "r".to_string(),
        files: sizes
            .iter()
            .enumerate()
            .map(|(i, size)| FileTransfer {
                id: format!("{}", i),
                name: format!("f{}", i),
                size: *size,
                mime_type: "application/octet-stream".to_string(),
            })
            .collect(),
    }
}

fn session(sizes: &[u64]) -> TransferSession {
    TransferSession::begin(
        (IpAddress::v4(10, 0, 0, 2), 7000),
        Direction::Inbound,
        Dialect::LegacyJson,
        manifest(sizes),
    )
}

#[test]
fn session_starts_connecting_with_a_fresh_identifier() {
    let a = session(&[3]);
    let b = session(&[3]);
    assert_eq!(a.session_id().len(), 36);
    assert_ne!(a.session_id(), b.session_id());
    assert_eq!(a.peer_addr(), (IpAddress::v4(10, 0, 0, 2), 7000));
    assert_eq!(a.direction(), Direction::Inbound);
    assert_eq!(a.negotiated_dialect(), Dialect::LegacyJson);
    assert_eq!(a.status(), AirDropStatus::Connecting);
    assert_eq!(a.files().len(), 1);
    assert!(!a.complete());
    assert!(session(&[]).complete());
    assert!(session(&[0, 0]).complete());
}

#[test]
fn dialects_go_by_the_port() {
    assert_eq!(Dialect::for_port(8771), Some(Dialect::HttpsJson));
    assert_eq!(Dialect::for_port(7000), Some(Dialect::LegacyJson));
    assert_eq!(Dialect::for_port(7100), None);
    assert_eq!(Dialect::for_port(0), None);
}

#[test]
fn bytes_fall_to_the_files_in_manifest_order() {
    let mut s = session(&[5, 0, 3, 4]);
    assert_eq!(s.bytes_received(2), vec![(0, 2)]);
    assert_eq!(s.received(0), 2);
    assert_eq!(s.truncated_files(), vec![0, 2, 3]);
    assert_eq!(s.bytes_received(0), Vec::<(usize, u64)>::new());
    assert_eq!(s.bytes_received(5), vec![(0, 3), (2, 2)]);
    assert_eq!((s.received(0), s.received(1), s.received(2), s.received(3)), (5, 0, 2, 0));
    assert_eq!(s.truncated_files(), vec![2, 3]);
    assert_eq!(s.bytes_received(100), vec![(2, 1), (3, 4)]);
    assert!(s.complete());
    assert!(s.truncated_files().is_empty());
    assert_eq!(s.bytes_received(7), Vec::<(usize, u64)>::new());
    assert_eq!((s.received(0), s.received(1), s.received(2), s.received(3)), (5, 0, 3, 4));
}

#[test]
fn chunking_makes_no_difference_to_the_counters() {
    let sizes = [1000u64, 0, 1, 8192, 20_000, 7];
    let total: u64 = sizes.iter().sum();
    for chunk in [1u64, 7, 1024, 8192, 100_000] {
        let mut s = session(&sizes);
        let mut sent = 0u64;
        let mut per_file = vec![0u64; sizes.len()];
        while sent < total {
            let n = chunk.min(total - sent);
            for (file, count) in s.bytes_received(n) {
                assert!(count > 0);
                per_file[file] += count;
            }
            sent += n;
        }
        assert!(s.complete());
        assert_eq!(per_file, sizes.to_vec());
        for (i, size) in sizes.iter().enumerate() {
            assert_eq!(s.received(i), *size);
        }
    }
}

#[test]
fn counters_are_the_lengths_of_the_split_files() {
    let sizes = vec![3u64, 0, 4, 2];
    for len in 0..12usize {
        let stream: Vec<u8> = (0..len as u8).collect();
        let files = receive_files(&stream, &sizes);
        let mut s = session(&sizes);
        s.bytes_received(len as u64);
        for (i, file) in files.iter().enumerate() {
            assert_eq!(s.received(i), file.len() as u64, "len {} file {}", len, i);
        }
    }
}

#[test]
fn session_status_follows_the_events() {
    let mut s = session(&[10]);
    s.apply(TransferEvent::TransferStarted { total: 10 });
    assert_eq!(s.status(), AirDropStatus::Transferring(Progress { transferred: 0, total: 10 }));
    s.bytes_received(4);
    assert_eq!(s.status(), AirDropStatus::Transferring(Progress { transferred: 4, total: 10 }));
    s.apply(TransferEvent::Fault("reset".to_string()));
    assert_eq!(s.status(), AirDropStatus::Failed("reset".to_string()));
    assert_eq!(s.received(0), 4);
    assert_eq!(s.truncated_files(), vec![0]);
}

#[test]
fn manifest_totals_saturate() {
    assert_eq!(manifest(&[]).declared_total(), 0);
    assert_eq!(manifest(&[1, 2, 3]).declared_total(), 6);
    assert_eq!(manifest(&[u64::MAX, 1]).declared_total(), u64::MAX);
    assert_eq!(manifest(&[u64::MAX - 1, 1, 5]).declared_total(), u64::MAX);
}

#[test]
fn handshake_and_reply_go_over_the_wire_with_their_marker() {
    let handshake = manifest(&[3]);
    let mut expected = handshake.to_json().unwrap().into_bytes();
    expected.extend_from_slice(b"\n\n");
    assert_eq!(handshake.to_wire(), expected);
    assert_eq!(
        accept_wire("AirDrop"),
        b"{\"receiver\":\"AirDrop\",\"status\":\"accept\"}\n\n".to_vec()
    );
    let (payload, rest) = split_at_marker(&accept_wire("line\nbreak")).unwrap();
    assert!(rest.is_empty());
    let value: serde_json::Value = serde_json::from_slice(&payload).unwrap();
    assert_eq!(value["receiver"], "line\nbreak");
}
