//! TXT records that Apple devices expect of an AirDrop peer: the AirDrop
//! record itself, the Companion-Link record and the Device-Info record.

use vstd::prelude::*;
use vstd::array::array_as_slice;
use vstd::bytes::{spec_u64_to_le_bytes, u64_to_le_bytes};
use crate::protocols::txt_records::{key_mark, TxtRecords};
use crate::utils::bytes::{append_bytes, copy_range};
use crate::utils::error::AirWinError;
use crate::utils::hex::{
    encode_hex, hex_lower, is_lower_hex, is_upper_hex, lemma_hex_lower_shape, to_upper_hex,
};
use crate::utils::system::{
    random_bytes_16, random_bytes_6, random_bytes_8, sha256, sha256_digest, system_hostname,
    unix_time_secs, uuid_v4_simple,
};
use crate::utils::text::{ascii_upper, decimal_text, u64_to_decimal};

verus! {

/// The bytes of the tag that is hashed into every device hash: the ASCII
/// letters of the project's name.
pub open spec fn device_tag() -> Seq<u8> {
    seq![0x41u8, 0x69u8, 0x72u8, 0x57u8, 0x69u8, 0x6eu8]
}

/// The device hash for given random bytes and clock reading: the first
/// eight bytes of the SHA-256 digest of the random bytes, the tag and the
/// seconds in little-endian order, as lower-case hexadecimal text.
pub open spec fn device_hash_text(random: Seq<u8>, secs: u64) -> Seq<char> {
    hex_lower(sha256_digest(random + device_tag() + spec_u64_to_le_bytes(secs)).subrange(0, 8))
}

/// The identifiers and the clock reading that distinguish one set of
/// AirDrop records from the next.
pub struct RecordSeed {
    pub service_id: String,
    pub computer_id: String,
    pub system_id: String,
    pub machine_id: String,
    pub device_hash: String,
    pub session_id: String,
    pub timestamp: u64,
}

/// The entries of an AirDrop record that are the same for every host.
pub open spec fn airdrop_fixed_map() -> Map<Seq<char>, Seq<char>> {
    Map::<Seq<char>, Seq<char>>::empty().insert("flags"@, "1019"@).insert(
        "protocol_version"@,
        "2"@,
    ).insert("service_type"@, "1"@).insert("model"@, "Windows,1"@).insert(
        "system_version"@,
        "10.0"@,
    ).insert("supports_url"@, "1"@).insert("supports_dvzip"@, "1"@).insert(
        "supports_dv"@,
        "1"@,
    ).insert("supports_pipelining"@, "1"@).insert("supports_mixed_types"@, "1"@).insert(
        "supports_contacts"@,
        "1"@,
    ).insert("supports_discover"@, "1"@).insert("supports_airdrop"@, "1"@).insert(
        "supports_sharing"@,
        "1"@,
    ).insert("supports_awdl"@, "1"@).insert("supports_ble"@, "1"@).insert(
        "supports_wifi_direct"@,
        "1"@,
    ).insert("discoverable"@, "1"@).insert("status_flags"@, "0x1"@)
}

/// The AirDrop record of a host with the given name and seed.
pub open spec fn airdrop_records_map(host: Seq<char>, seed: RecordSeed) -> Map<
    Seq<char>,
    Seq<char>,
> {
    airdrop_fixed_map().insert("name"@, host).insert(
        "timestamp"@,
        decimal_text(seed.timestamp as nat),
    ).insert("session_id"@, seed.session_id@).insert("phash"@, seed.device_hash@).insert(
        "machine_id"@,
        seed.machine_id@,
    ).insert("systemid"@, seed.system_id@).insert("computerid"@, seed.computer_id@).insert(
        "service_id"@,
        seed.service_id@,
    )
}

/// The Companion-Link record for the given identifiers and host name.
pub open spec fn companion_records_map(
    host: Seq<char>,
    pairing_id: Seq<char>,
    address_hash: Seq<char>,
    home_hash: Seq<char>,
    home_id: Seq<char>,
) -> Map<Seq<char>, Seq<char>> {
    Map::<Seq<char>, Seq<char>>::empty().insert("rpMRtID"@, pairing_id).insert(
        "rpAD"@,
        address_hash,
    ).insert("rpVr"@, "350.92.4"@).insert("rpFl"@, "0x20000"@).insert("rpHA"@, home_hash).insert(
        "rpHI"@,
        home_id,
    ).insert("rpMd"@, "Windows,1"@).insert("rpNm"@, host)
}

/// The Device-Info record with the given public-key hash.
pub open spec fn device_info_records_map(key_hash: Seq<char>) -> Map<Seq<char>, Seq<char>> {
    Map::<Seq<char>, Seq<char>>::empty().insert("model"@, "Windows,1"@).insert(
        "osxvers"@,
        "10"@,
    ).insert("srcvers"@, "350.92.4"@).insert("features"@, "0x445F8A00,0x1C340"@).insert(
        "flags"@,
        "0x4"@,
    ).insert("vv"@, "2"@).insert("pk"@, key_hash)
}

/// A record after its session-scoped entries were replaced.
pub open spec fn session_updated_map(
    records: Map<Seq<char>, Seq<char>>,
    session_id: Seq<char>,
    timestamp: u64,
    device_hash: Seq<char>,
) -> Map<Seq<char>, Seq<char>> {
    records.insert("session_id"@, session_id).insert(
        "timestamp"@,
        decimal_text(timestamp as nat),
    ).insert("phash"@, device_hash)
}

/// A record holds the keys without which an Apple device ignores it.
pub open spec fn is_apple_compatible(records: Map<Seq<char>, Seq<char>>) -> bool {
    &&& records.contains_key("flags"@)
    &&& records.contains_key("protocol_version"@)
    &&& records.contains_key("computerid"@)
    &&& records.contains_key("systemid"@)
    &&& records.contains_key("model"@)
    &&& records.contains_key("supports_airdrop"@)
    &&& records.contains_key("phash"@)
}

/// The identifiers of a seed have the shapes that the generators give
/// them.
pub open spec fn seed_shaped(seed: RecordSeed) -> bool {
    &&& seed.service_id@.len() == 12 && is_lower_hex(seed.service_id@)
    &&& seed.computer_id@.len() == 32 && is_upper_hex(seed.computer_id@)
    &&& seed.system_id@.len() == 32 && is_upper_hex(seed.system_id@)
    &&& seed.machine_id@.len() == 32 && is_upper_hex(seed.machine_id@)
    &&& seed.device_hash@.len() == 16 && is_lower_hex(seed.device_hash@)
    &&& seed.session_id@.len() == 16 && is_upper_hex(seed.session_id@)
}

/// The identifier keys of an AirDrop record, the key of the device hash
/// and the key of the session are different keys.
pub proof fn lemma_identifier_keys_differ()
    ensures
        "computerid"@ != "service_id"@,
        "systemid"@ != "computerid"@,
        "systemid"@ != "service_id"@,
        "machine_id"@ != "systemid"@,
        "machine_id"@ != "computerid"@,
        "machine_id"@ != "service_id"@,
        "phash"@ != "machine_id"@ && "phash"@ != "systemid"@ && "phash"@ != "computerid"@
            && "phash"@ != "service_id"@,
        "session_id"@ != "phash"@ && "session_id"@ != "machine_id"@ && "session_id"@
            != "systemid"@ && "session_id"@ != "computerid"@ && "session_id"@ != "service_id"@,
{
    reveal_strlit("phash");
    reveal_strlit("session_id");
    assert("phash"@.len() == 5 && "session_id"@.len() == 10);
    assert("session_id"@[0] == 's' && "session_id"@[2] == 's');
    reveal_strlit("computerid");
    reveal_strlit("service_id");
    reveal_strlit("systemid");
    reveal_strlit("machine_id");
    assert("systemid"@.len() == 8);
    assert("computerid"@.len() == 10 && "service_id"@.len() == 10 && "machine_id"@.len() == 10);
    assert("computerid"@[0] == 'c');
    assert("service_id"@[0] == 's' && "service_id"@[2] == 'r');
    assert("machine_id"@[0] == 'm');
}

/// The marks of the keys of an AirDrop record: no two are the same.
pub proof fn lemma_airdrop_keys()
    ensures
        key_mark("flags"@) == (5nat, 'f', 'a', 'g', ' '),
        key_mark("protocol_version"@) == (16nat, 'p', 'o', 't', 'v'),
        key_mark("service_type"@) == (12nat, 's', 'r', 'v', 'y'),
        key_mark("model"@) == (5nat, 'm', 'd', 'e', ' '),
        key_mark("system_version"@) == (14nat, 's', 's', 't', 'r'),
        key_mark("supports_url"@) == (12nat, 's', 'p', 'p', 'u'),
        key_mark("supports_dvzip"@) == (14nat, 's', 'p', 'p', 'd'),
        key_mark("supports_dv"@) == (11nat, 's', 'p', 'p', 'd'),
        key_mark("supports_pipelining"@) == (19nat, 's', 'p', 'p', 'p'),
        key_mark("supports_mixed_types"@) == (20nat, 's', 'p', 'p', 'm'),
        key_mark("supports_contacts"@) == (17nat, 's', 'p', 'p', 'c'),
        key_mark("supports_discover"@) == (17nat, 's', 'p', 'p', 'd'),
        key_mark("supports_airdrop"@) == (16nat, 's', 'p', 'p', 'a'),
        key_mark("supports_sharing"@) == (16nat, 's', 'p', 'p', 's'),
        key_mark("supports_awdl"@) == (13nat, 's', 'p', 'p', 'a'),
        key_mark("supports_ble"@) == (12nat, 's', 'p', 'p', 'b'),
        key_mark("supports_wifi_direct"@) == (20nat, 's', 'p', 'p', 'w'),
        key_mark("discoverable"@) == (12nat, 'd', 's', 'c', 'b'),
        key_mark("status_flags"@) == (12nat, 's', 'a', 't', 'a'),
        key_mark("name"@) == (4nat, 'n', 'm', 'e', ' '),
        key_mark("timestamp"@) == (9nat, 't', 'm', 'e', ' '),
        key_mark("session_id"@) == (10nat, 's', 's', 's', 'd'),
        key_mark("phash"@) == (5nat, 'p', 'a', 's', ' '),
        key_mark("machine_id"@) == (10nat, 'm', 'c', 'h', 'd'),
        key_mark("systemid"@) == (8nat, 's', 's', 't', ' '),
        key_mark("computerid"@) == (10nat, 'c', 'm', 'p', 'd'),
        key_mark("service_id"@) == (10nat, 's', 'r', 'v', 'd'),
{
    reveal_strlit("flags");
    reveal_strlit("protocol_version");
    reveal_strlit("service_type");
    reveal_strlit("model");
    reveal_strlit("system_version");
    reveal_strlit("supports_url");
    reveal_strlit("supports_dvzip");
    reveal_strlit("supports_dv");
    reveal_strlit("supports_pipelining");
    reveal_strlit("supports_mixed_types");
    reveal_strlit("supports_contacts");
    reveal_strlit("supports_discover");
    reveal_strlit("supports_airdrop");
    reveal_strlit("supports_sharing");
    reveal_strlit("supports_awdl");
    reveal_strlit("supports_ble");
    reveal_strlit("supports_wifi_direct");
    reveal_strlit("discoverable");
    reveal_strlit("status_flags");
    reveal_strlit("name");
    reveal_strlit("timestamp");
    reveal_strlit("session_id");
    reveal_strlit("phash");
    reveal_strlit("machine_id");
    reveal_strlit("systemid");
    reveal_strlit("computerid");
    reveal_strlit("service_id");
}

/// The marks of the keys of a Companion-Link record: no two are the same.
pub proof fn lemma_companion_keys()
    ensures
        key_mark("rpMRtID"@) == (7nat, 'r', 'M', 'R', ' '),
        key_mark("rpAD"@) == (4nat, 'r', 'A', 'D', ' '),
        key_mark("rpVr"@) == (4nat, 'r', 'V', 'r', ' '),
        key_mark("rpFl"@) == (4nat, 'r', 'F', 'l', ' '),
        key_mark("rpHA"@) == (4nat, 'r', 'H', 'A', ' '),
        key_mark("rpHI"@) == (4nat, 'r', 'H', 'I', ' '),
        key_mark("rpMd"@) == (4nat, 'r', 'M', 'd', ' '),
        key_mark("rpNm"@) == (4nat, 'r', 'N', 'm', ' '),
{
    reveal_strlit("rpMRtID");
    reveal_strlit("rpAD");
    reveal_strlit("rpVr");
    reveal_strlit("rpFl");
    reveal_strlit("rpHA");
    reveal_strlit("rpHI");
    reveal_strlit("rpMd");
    reveal_strlit("rpNm");
}

/// The marks of the keys of a Device-Info record: no two are the same.
pub proof fn lemma_device_info_keys()
    ensures
        key_mark("model"@) == (5nat, 'm', 'd', 'e', ' '),
        key_mark("osxvers"@) == (7nat, 'o', 'x', 'v', ' '),
        key_mark("srcvers"@) == (7nat, 's', 'c', 'v', ' '),
        key_mark("features"@) == (8nat, 'f', 'a', 't', ' '),
        key_mark("flags"@) == (5nat, 'f', 'a', 'g', ' '),
        key_mark("vv"@) == (2nat, 'v', ' ', ' ', ' '),
        key_mark("pk"@) == (2nat, 'p', ' ', ' ', ' '),
{
    reveal_strlit("model");
    reveal_strlit("osxvers");
    reveal_strlit("srcvers");
    reveal_strlit("features");
    reveal_strlit("flags");
    reveal_strlit("vv");
    reveal_strlit("pk");
}

/// Every AirDrop record is Apple-compatible, carries the seed's
/// identifiers, device hash and session under their keys, and has a
/// timestamp.
pub proof fn lemma_airdrop_records_complete(host: Seq<char>, seed: RecordSeed)
    ensures
        is_apple_compatible(airdrop_records_map(host, seed)),
        airdrop_records_map(host, seed)["service_id"@] == seed.service_id@,
        airdrop_records_map(host, seed)["computerid"@] == seed.computer_id@,
        airdrop_records_map(host, seed)["systemid"@] == seed.system_id@,
        airdrop_records_map(host, seed)["machine_id"@] == seed.machine_id@,
        airdrop_records_map(host, seed)["phash"@] == seed.device_hash@,
        airdrop_records_map(host, seed)["session_id"@] == seed.session_id@,
        airdrop_records_map(host, seed).contains_key("timestamp"@),
{
    lemma_identifier_keys_differ();
}

/// Replacing the session-scoped entries twice with the same values is the
/// same as replacing them once, and no other entry changes.
pub proof fn lemma_session_update_idempotent(
    records: Map<Seq<char>, Seq<char>>,
    session_id: Seq<char>,
    timestamp: u64,
    device_hash: Seq<char>,
)
    ensures
        session_updated_map(
            session_updated_map(records, session_id, timestamp, device_hash),
            session_id,
            timestamp,
            device_hash,
        ) == session_updated_map(records, session_id, timestamp, device_hash),
        forall|k: Seq<char>|
            k != "session_id"@ && k != "timestamp"@ && k != "phash"@ ==> (session_updated_map(
                records,
                session_id,
                timestamp,
                device_hash,
            ).contains_key(k) == records.contains_key(k) && session_updated_map(
                records,
                session_id,
                timestamp,
                device_hash,
            )[k] == records[k]),
{
    let once = session_updated_map(records, session_id, timestamp, device_hash);
    let twice = session_updated_map(once, session_id, timestamp, device_hash);
    reveal_strlit("session_id");
    reveal_strlit("timestamp");
    reveal_strlit("phash");
    assert(twice =~= once);
}

/// Generator of the TXT records of the advertised services.
pub struct AppleRecords;

impl AppleRecords {
    /// The device hash for given random bytes and clock reading.
    pub fn device_hash_from(random: &[u8; 16], secs: u64) -> (hash: String)
        ensures
            hash@ == device_hash_text(random@, secs),
            hash@.len() == 16,
            is_lower_hex(hash@),
    {
        let mut input: Vec<u8> = Vec::new();
        append_bytes(&mut input, array_as_slice(random));
        let tag: [u8; 6] = [0x41, 0x69, 0x72, 0x57, 0x69, 0x6e];
        assert(tag@ =~= device_tag());
        append_bytes(&mut input, array_as_slice(&tag));
        let secs_bytes = u64_to_le_bytes(secs);
        append_bytes(&mut input, secs_bytes.as_slice());
        let digest = sha256(input.as_slice());
        let head = copy_range(array_as_slice(&digest), 0, 8);
        proof {
            lemma_hex_lower_shape(head@);
        }
        encode_hex(head.as_slice())
    }

    /// A fresh device hash: sixteen lower-case hexadecimal digits derived
    /// from random bytes and the clock.
    pub fn generate_device_hash() -> (hash: String)
        ensures
            hash@.len() == 16,
            is_lower_hex(hash@),
            exists|random: Seq<u8>, secs: u64|
                random.len() == 16 && hash@ == #[trigger] device_hash_text(random, secs),
    {
        let random = random_bytes_16();
        let secs = unix_time_secs();
        let hash = Self::device_hash_from(&random, secs);
        assert(hash@ == device_hash_text(random@, secs));
        hash
    }

    /// A fresh computer identifier: 32 upper-case hexadecimal digits.
    pub fn generate_computer_id() -> (id: String)
        ensures
            id@.len() == 32,
            is_upper_hex(id@),
    {
        let simple = uuid_v4_simple();
        to_upper_hex(simple.as_str())
    }

    /// A fresh system identifier: 32 upper-case hexadecimal digits.
    pub fn generate_system_id() -> (id: String)
        ensures
            id@.len() == 32,
            is_upper_hex(id@),
    {
        Self::generate_computer_id()
    }

    /// The session hash for given random bytes: their upper-case
    /// hexadecimal text.
    pub fn session_hash_from(random: &[u8; 8]) -> (hash: String)
        ensures
            hash@ == ascii_upper(hex_lower(random@)),
            hash@.len() == 16,
            is_upper_hex(hash@),
    {
        let lower = encode_hex(array_as_slice(random));
        proof {
            lemma_hex_lower_shape(random@);
        }
        to_upper_hex(lower.as_str())
    }

    /// A fresh session hash: sixteen upper-case hexadecimal digits.
    pub fn generate_session_hash() -> (hash: String)
        ensures
            hash@.len() == 16,
            is_upper_hex(hash@),
    {
        let random = random_bytes_8();
        Self::session_hash_from(&random)
    }

    /// The service identifier for given random bytes: their lower-case
    /// hexadecimal text.
    pub fn service_id_from(random: &[u8; 6]) -> (id: String)
        ensures
            id@ == hex_lower(random@),
            id@.len() == 12,
            is_lower_hex(id@),
    {
        proof {
            lemma_hex_lower_shape(random@);
        }
        encode_hex(array_as_slice(random))
    }

    /// A fresh service identifier: twelve lower-case hexadecimal digits.
    pub fn generate_service_id() -> (id: String)
        ensures
            id@.len() == 12,
            is_lower_hex(id@),
    {
        let random = random_bytes_6();
        Self::service_id_from(&random)
    }

    /// A seed of fresh identifiers, stamped with the clock's reading.
    pub fn generate_seed() -> (seed: RecordSeed)
        ensures
            seed_shaped(seed),
    {
        let service_id = Self::generate_service_id();
        let computer_id = Self::generate_computer_id();
        let system_id = Self::generate_system_id();
        let machine_id = Self::generate_computer_id();
        let device_hash = Self::generate_device_hash();
        let session_id = Self::generate_session_hash();
        let timestamp = unix_time_secs();
        RecordSeed {
            service_id,
            computer_id,
            system_id,
            machine_id,
            device_hash,
            session_id,
            timestamp,
        }
    }

    /// The AirDrop record for a host name and a seed.
    pub fn airdrop_txt_records_from(host: &str, seed: &RecordSeed) -> (records: TxtRecords)
        ensures
            records.wf(),
            records@ == airdrop_records_map(host@, *seed),
            records.pairs().len() == 27,
            is_apple_compatible(records@),
    {
        proof {
            lemma_airdrop_keys();
        }
        let mut p = TxtRecords::new();
        p.insert("flags".to_string(), "1019".to_string());
        p.insert("protocol_version".to_string(), "2".to_string());
        p.insert("service_type".to_string(), "1".to_string());
        p.insert("model".to_string(), "Windows,1".to_string());
        p.insert("system_version".to_string(), "10.0".to_string());
        p.insert("supports_url".to_string(), "1".to_string());
        p.insert("supports_dvzip".to_string(), "1".to_string());
        p.insert("supports_dv".to_string(), "1".to_string());
        p.insert("supports_pipelining".to_string(), "1".to_string());
        p.insert("supports_mixed_types".to_string(), "1".to_string());
        p.insert("supports_contacts".to_string(), "1".to_string());
        p.insert("supports_discover".to_string(), "1".to_string());
        p.insert("supports_airdrop".to_string(), "1".to_string());
        p.insert("supports_sharing".to_string(), "1".to_string());
        p.insert("supports_awdl".to_string(), "1".to_string());
        p.insert("supports_ble".to_string(), "1".to_string());
        p.insert("supports_wifi_direct".to_string(), "1".to_string());
        p.insert("discoverable".to_string(), "1".to_string());
        p.insert("status_flags".to_string(), "0x1".to_string());
        assert(p@ == airdrop_fixed_map());
        p.insert("name".to_string(), host.to_string());
        p.insert("timestamp".to_string(), u64_to_decimal(seed.timestamp));
        p.insert("session_id".to_string(), seed.session_id.clone());
        p.insert("phash".to_string(), seed.device_hash.clone());
        p.insert("machine_id".to_string(), seed.machine_id.clone());
        p.insert("systemid".to_string(), seed.system_id.clone());
        p.insert("computerid".to_string(), seed.computer_id.clone());
        p.insert("service_id".to_string(), seed.service_id.clone());
        proof {
            lemma_airdrop_records_complete(host@, *seed);
        }
        p
    }

    /// The AirDrop record for the outcome of asking the host's name: the
    /// record when the name is known, the failure's message otherwise.
    pub fn airdrop_txt_records_for(host: Result<String, String>, seed: &RecordSeed) -> (result:
        Result<TxtRecords, AirWinError>)
        ensures
            match host {
                Ok(name) => result matches Ok(records) && records.wf() && records@
                    == airdrop_records_map(name@, *seed) && records.pairs().len() == 27,
                Err(why) => result matches Err(AirWinError::Other(message)) && message@ == why@,
            },
    {
        match host {
            Ok(name) => Ok(Self::airdrop_txt_records_from(name.as_str(), seed)),
            Err(why) => Err(AirWinError::Other(why)),
        }
    }

    /// A fresh AirDrop record for this host. It fails only when the
    /// host's name cannot be read.
    pub fn create_airdrop_txt_records() -> (result: Result<TxtRecords, AirWinError>)
        ensures
            result matches Ok(records) ==> {
                &&& records.wf()
                &&& records.pairs().len() == 27
                &&& is_apple_compatible(records@)
                &&& records@["service_id"@].len() == 12 && is_lower_hex(records@["service_id"@])
                &&& records@["computerid"@].len() == 32 && is_upper_hex(records@["computerid"@])
                &&& records@["systemid"@].len() == 32 && is_upper_hex(records@["systemid"@])
                &&& records@["machine_id"@].len() == 32 && is_upper_hex(records@["machine_id"@])
                &&& records@["phash"@].len() == 16 && is_lower_hex(records@["phash"@])
                &&& records@["session_id"@].len() == 16 && is_upper_hex(records@["session_id"@])
                &&& records@.contains_key("timestamp"@)
                &&& exists|host: Seq<char>, seed: RecordSeed|
                    seed_shaped(seed) && records@ == #[trigger] airdrop_records_map(host, seed)
            },
            result matches Err(e) ==> e is Other,
    {
        let seed = Self::generate_seed();
        let host = system_hostname();
        let ghost name = if host is Ok { host->Ok_0@ } else { Seq::<char>::empty() };
        let result = Self::airdrop_txt_records_for(host, &seed);
        proof {
            if result is Ok {
                lemma_airdrop_records_complete(name, seed);
                assert(result->Ok_0@ == airdrop_records_map(name, seed));
            }
        }
        result
    }

    /// The Companion-Link record for a host name and identifiers.
    pub fn companion_txt_records_from(
        host: &str,
        pairing_id: String,
        address_hash: String,
        home_hash: String,
        home_id: String,
    ) -> (records: TxtRecords)
        ensures
            records.wf(),
            records@ == companion_records_map(
                host@,
                pairing_id@,
                address_hash@,
                home_hash@,
                home_id@,
            ),
            records.pairs().len() == 8,
    {
        proof {
            lemma_companion_keys();
        }
        let mut p = TxtRecords::new();
        p.insert("rpMRtID".to_string(), pairing_id);
        p.insert("rpAD".to_string(), address_hash);
        p.insert("rpVr".to_string(), "350.92.4".to_string());
        p.insert("rpFl".to_string(), "0x20000".to_string());
        p.insert("rpHA".to_string(), home_hash);
        p.insert("rpHI".to_string(), home_id);
        p.insert("rpMd".to_string(), "Windows,1".to_string());
        p.insert("rpNm".to_string(), host.to_string());
        p
    }

    /// A fresh Companion-Link record for this host. It fails only when
    /// the host's name cannot be read.
    pub fn create_companion_txt_records() -> (result: Result<TxtRecords, AirWinError>)
        ensures
            result matches Ok(records) ==> {
                &&& records.wf()
                &&& records.pairs().len() == 8
                &&& exists|host: Seq<char>, a: Seq<char>, b: Seq<char>, c: Seq<char>, d: Seq<char>|
                    a.len() == 32 && is_upper_hex(a) && b.len() == 16 && is_lower_hex(b) && c.len()
                        == 16 && is_lower_hex(c) && d.len() == 32 && is_upper_hex(d) && records@
                        == #[trigger] companion_records_map(host, a, b, c, d)
            },
            result matches Err(e) ==> e is Other,
    {
        let pairing_id = Self::generate_computer_id();
        let address_hash = Self::generate_device_hash();
        let home_hash = Self::generate_device_hash();
        let home_id = Self::generate_computer_id();
        match system_hostname() {
            Ok(name) => {
                let ghost ids = (pairing_id@, address_hash@, home_hash@, home_id@);
                let records = Self::companion_txt_records_from(
                    name.as_str(),
                    pairing_id,
                    address_hash,
                    home_hash,
                    home_id,
                );
                assert(records@ == companion_records_map(name@, ids.0, ids.1, ids.2, ids.3));
                Ok(records)
            },
            Err(why) => Err(AirWinError::Other(why)),
        }
    }

    /// The Device-Info record with the given public-key hash.
    pub fn device_info_txt_records_from(key_hash: String) -> (records: TxtRecords)
        ensures
            records.wf(),
            records@ == device_info_records_map(key_hash@),
            records.pairs().len() == 7,
    {
        proof {
            lemma_device_info_keys();
        }
        let mut p = TxtRecords::new();
        p.insert("model".to_string(), "Windows,1".to_string());
        p.insert("osxvers".to_string(), "10".to_string());
        p.insert("srcvers".to_string(), "350.92.4".to_string());
        p.insert("features".to_string(), "0x445F8A00,0x1C340".to_string());
        p.insert("flags".to_string(), "0x4".to_string());
        p.insert("vv".to_string(), "2".to_string());
        p.insert("pk".to_string(), key_hash);
        p
    }

    /// A fresh Device-Info record. It always succeeds.
    pub fn create_device_info_txt_records() -> (result: Result<TxtRecords, AirWinError>)
        ensures
            result matches Ok(records) && records.wf() && records.pairs().len() == 7
                && exists|key_hash: Seq<char>|
                key_hash.len() == 16 && is_lower_hex(key_hash) && records@
                    == #[trigger] device_info_records_map(key_hash),
    {
        let key_hash = Self::generate_device_hash();
        let ghost k = key_hash@;
        let records = Self::device_info_txt_records_from(key_hash);
        assert(records@ == device_info_records_map(k));
        Ok(records)
    }

    /// Replaces the session-scoped entries of a record by the given
    /// values; every other entry is kept.
    pub fn update_session_records_with(
        properties: &mut TxtRecords,
        session_id: String,
        timestamp: u64,
        device_hash: String,
    )
        requires
            old(properties).wf(),
        ensures
            final(properties).wf(),
            final(properties)@ == session_updated_map(
                old(properties)@,
                session_id@,
                timestamp,
                device_hash@,
            ),
    {
        properties.insert("session_id".to_string(), session_id);
        properties.insert("timestamp".to_string(), u64_to_decimal(timestamp));
        properties.insert("phash".to_string(), device_hash);
    }

    /// Replaces the session-scoped entries of a record by fresh ones.
    pub fn update_session_records(properties: &mut TxtRecords)
        requires
            old(properties).wf(),
        ensures
            final(properties).wf(),
            exists|session_id: Seq<char>, timestamp: u64, device_hash: Seq<char>|
                session_id.len() == 16 && is_upper_hex(session_id) && device_hash.len() == 16
                    && is_lower_hex(device_hash) && final(properties)@
                    == #[trigger] session_updated_map(
                    old(properties)@,
                    session_id,
                    timestamp,
                    device_hash,
                ),
    {
        let session_id = Self::generate_session_hash();
        let timestamp = unix_time_secs();
        let device_hash = Self::generate_device_hash();
        let ghost s = session_id@;
        let ghost h = device_hash@;
        Self::update_session_records_with(properties, session_id, timestamp, device_hash);
        assert(properties@ == session_updated_map(old(properties)@, s, timestamp, h));
    }

    /// Whether a record holds every key that an Apple device requires.
    pub fn validate_apple_compatibility(properties: &TxtRecords) -> (valid: bool)
        ensures
            valid == is_apple_compatible(properties@),
    {
        properties.contains_key("flags") && properties.contains_key("protocol_version")
            && properties.contains_key("computerid") && properties.contains_key("systemid")
            && properties.contains_key("model") && properties.contains_key("supports_airdrop")
            && properties.contains_key("phash")
    }
}

} // verus!
