//! The BLE catalog: which advertisements count as AirDrop, how long a
//! sighting stays fresh, and what this endpoint would advertise itself.

use vstd::prelude::*;
use std::collections::HashMap;
use vstd::array::array_as_slice;
use crate::protocols::apple_records::device_tag;
use crate::utils::bytes::{append_bytes, copy_range};
use crate::utils::error::AirWinError;
use crate::utils::hex::{
    decode_hex, encode_hex, hex_bytes, hex_lower, is_hex_text, is_lower_hex, lemma_hex_lower_shape,
    lemma_hex_round_trip,
};
use crate::utils::system::{random_bytes_6, sha256, sha256_digest};
use crate::utils::text::same_text;

verus! {

/// Apple's Bluetooth company identifier.
pub const APPLE_COMPANY_ID: u16 = 0x004C;

/// The advertisement type of AirDrop in Apple's manufacturer data.
pub const AIRDROP_ADVERTISEMENT: u8 = 0x05;

/// The AirDrop service, 7ba94d80-ca9b-4d8d-b1db-21e8a4e6b256.
pub const AIRDROP_SERVICE_UUID: u128 = 0x7ba94d80_ca9b_4d8d_b1db_21e8a4e6b256;

/// The Continuity service, d0611e78-bbb4-4591-a5f8-487910ae4366.
pub const CONTINUITY_SERVICE_UUID: u128 = 0xd0611e78_bbb4_4591_a5f8_487910ae4366;

/// Milliseconds after which a sighting that was not refreshed is stale.
pub const STALE_AFTER_MS: u64 = 30_000;

/// Milliseconds between two polls of the adapter.
pub const POLL_INTERVAL_MS: u64 = 2_000;

/// A device seen by the BLE scan. Times are milliseconds on a clock that
/// never runs backwards.
#[derive(Debug)]
pub struct BleDevice {
    pub id: String,
    pub name: String,
    pub rssi: i16,
    pub manufacturer_data: HashMap<u16, Vec<u8>>,
    pub service_data: HashMap<u128, Vec<u8>>,
    pub last_seen: u64,
}

/// A BLE device as a plain value.
pub struct BleView {
    pub id: Seq<char>,
    pub name: Seq<char>,
    pub rssi: i16,
    pub manufacturer_data: Map<u16, Seq<u8>>,
    pub service_data: Map<u128, Seq<u8>>,
    pub last_seen: u64,
}

/// Manufacturer data as plain values: the payload of each company.
pub open spec fn manufacturer_view(data: Map<u16, Vec<u8>>) -> Map<u16, Seq<u8>> {
    data.map_values(|payload: Vec<u8>| payload@)
}

/// Service data as plain values: the data of each service.
pub open spec fn service_view(data: Map<u128, Vec<u8>>) -> Map<u128, Seq<u8>> {
    data.map_values(|payload: Vec<u8>| payload@)
}

impl View for BleDevice {
    type V = BleView;

    open spec fn view(&self) -> BleView {
        BleView {
            id: self.id@,
            name: self.name@,
            rssi: self.rssi,
            manufacturer_data: manufacturer_view(self.manufacturer_data@),
            service_data: service_view(self.service_data@),
            last_seen: self.last_seen,
        }
    }
}

impl Clone for BleDevice {
    fn clone(&self) -> (copy: Self)
        ensures
            copy@ == self@,
    {
        BleDevice {
            id: self.id.clone(),
            name: self.name.clone(),
            rssi: self.rssi,
            manufacturer_data: self.manufacturer_data.clone(),
            service_data: self.service_data.clone(),
            last_seen: self.last_seen,
        }
    }
}

/// A payload of Apple that carries the AirDrop type: at least three
/// bytes, the third being the type.
pub open spec fn is_airdrop_payload(payload: Seq<u8>) -> bool {
    payload.len() >= 3 && payload[2] == AIRDROP_ADVERTISEMENT
}

/// A service that marks an AirDrop peer: the AirDrop service or the
/// Continuity service.
pub open spec fn is_airdrop_service(service: u128) -> bool {
    service == AIRDROP_SERVICE_UUID || service == CONTINUITY_SERVICE_UUID
}

/// An advertisement counts as AirDrop when its manufacturer data holds
/// an AirDrop payload under Apple's company identifier, or when it names
/// the AirDrop service or the Continuity service.
pub open spec fn is_airdrop_advertisement(
    manufacturer_data: Map<u16, Seq<u8>>,
    services: Seq<u128>,
) -> bool {
    ||| manufacturer_data.contains_key(APPLE_COMPANY_ID) && is_airdrop_payload(
        manufacturer_data[APPLE_COMPANY_ID],
    )
    ||| exists|i: int| 0 <= i < services.len() && is_airdrop_service(#[trigger] services[i])
}

/// A sighting is fresh while less than thirty seconds have passed since
/// it. A sighting stamped later than `now` counts as just seen.
pub open spec fn is_fresh(last_seen: u64, now: u64) -> bool {
    now <= last_seen || now - last_seen < STALE_AFTER_MS
}

/// The devices of a list as plain values.
pub open spec fn ble_views(devices: Seq<BleDevice>) -> Seq<BleView> {
    Seq::new(devices.len(), |i: int| devices[i]@)
}

/// The fresh entries of a catalog, in order.
pub open spec fn fresh_entries(catalog: Seq<BleView>, now: u64) -> Seq<BleView> {
    catalog.filter(|d: BleView| is_fresh(d.last_seen, now))
}

/// Entry `i` of the catalog has the given identifier.
pub open spec fn id_at(catalog: Seq<BleView>, i: int, id: Seq<char>) -> bool {
    0 <= i < catalog.len() && catalog[i].id == id
}

/// No two entries of the catalog have the same identifier.
pub open spec fn distinct_ids(catalog: Seq<BleView>) -> bool {
    forall|i: int, j: int, id: Seq<char>|
        #[trigger] id_at(catalog, i, id) && #[trigger] id_at(catalog, j, id) ==> i == j
}

/// The catalog holds an entry of the given identifier.
pub open spec fn has_id(catalog: Seq<BleView>, id: Seq<char>) -> bool {
    exists|i: int| id_at(catalog, i, id)
}

/// The catalog after a sighting: the entry of the device's identifier is
/// replaced in place, or the device is appended when it is new.
pub open spec fn sighted(catalog: Seq<BleView>, device: BleView) -> Seq<BleView> {
    if has_id(catalog, device.id) {
        catalog.update(choose|i: int| id_at(catalog, i, device.id), device)
    } else {
        catalog.push(device)
    }
}

/// The name a device without a local name is listed under.
pub open spec fn unnamed_device() -> Seq<char> {
    "Unknown AirDrop Device"@
}

/// The BLE device hash for given random bytes: the first six bytes of
/// the SHA-256 digest of the random bytes and the tag, as lower-case
/// hexadecimal text.
pub open spec fn ble_hash_text(random: Seq<u8>) -> Seq<char> {
    hex_lower(sha256_digest(random + device_tag()).subrange(0, 6))
}

/// The manufacturer data this endpoint would advertise for six hash
/// bytes: Apple's company identifier in little-endian order, the AirDrop
/// type, the flags for discoverable and available, the hash, and four
/// reserved zero bytes.
pub open spec fn airdrop_manufacturer_data(hash: Seq<u8>) -> Seq<u8> {
    seq![0x4Cu8, 0x00u8, 0x05u8, 0x01u8] + hash.take(6) + seq![0u8, 0u8, 0u8, 0u8]
}

/// The bytes that a device hash stands for, or six zero bytes where it
/// is no hexadecimal text.
pub open spec fn hash_bytes_or_zero(hash: Seq<char>) -> Seq<u8> {
    if is_hex_text(hash) {
        hex_bytes(hash)
    } else {
        seq![0u8, 0u8, 0u8, 0u8, 0u8, 0u8]
    }
}

/// What starting to advertise came to.
#[derive(Clone, Copy, Debug, PartialEq, Eq, Structural)]
pub enum AdvertisingOutcome {
    /// The endpoint is marked as advertising, but this platform has no
    /// way to put the advertisement on air.
    Unsupported,
    /// The endpoint was marked as advertising before.
    AlreadyAdvertising,
}

/// Whether an advertisement counts as AirDrop.
pub fn is_airdrop_device(manufacturer_data: &HashMap<u16, Vec<u8>>, services: &Vec<u128>) -> (yes:
    bool)
    ensures
        yes == is_airdrop_advertisement(manufacturer_view(manufacturer_data@), services@),
{
    let ghost md = manufacturer_view(manufacturer_data@);
    let company: u16 = APPLE_COMPANY_ID;
    match manufacturer_data.get(&company) {
        Some(payload) => {
            assert(md.contains_key(APPLE_COMPANY_ID) && md[APPLE_COMPANY_ID] == payload@);
            if payload.len() >= 3 && payload[2] == AIRDROP_ADVERTISEMENT {
                return true;
            }
        },
        None => {
            assert(!md.contains_key(APPLE_COMPANY_ID));
        },
    }
    let mut k: usize = 0;
    while k < services.len()
        invariant
            k <= services@.len(),
            !(md.contains_key(APPLE_COMPANY_ID) && is_airdrop_payload(md[APPLE_COMPANY_ID])),
            forall|j: int| 0 <= j < k ==> !is_airdrop_service(#[trigger] services@[j]),
        decreases services@.len() - k,
    {
        if services[k] == AIRDROP_SERVICE_UUID || services[k] == CONTINUITY_SERVICE_UUID {
            assert(is_airdrop_service(services@[k as int]));
            return true;
        }
        k += 1;
    }
    false
}

/// Whether a sighting at `last_seen` is fresh at `now`.
pub fn fresh_at(last_seen: u64, now: u64) -> (fresh: bool)
    ensures
        fresh == is_fresh(last_seen, now),
{
    now <= last_seen || now - last_seen < STALE_AFTER_MS
}

/// Entering a sighting keeps the identifiers distinct; it keeps the
/// catalog's size when the device was known and adds one entry when it
/// was new.
pub proof fn lemma_sighted(catalog: Seq<BleView>, device: BleView)
    requires
        distinct_ids(catalog),
    ensures
        distinct_ids(sighted(catalog, device)),
        has_id(sighted(catalog, device), device.id),
        sighted(catalog, device).len() == if has_id(catalog, device.id) {
            catalog.len()
        } else {
            catalog.len() + 1
        },
{
    let after = sighted(catalog, device);
    if has_id(catalog, device.id) {
        let at = choose|i: int| id_at(catalog, i, device.id);
        assert(id_at(catalog, at, device.id));
        assert forall|i: int, id: Seq<char>| id_at(after, i, id) == id_at(catalog, i, id) by {}
        assert(id_at(after, at, device.id));
    } else {
        let n = catalog.len() as int;
        assert(id_at(after, n, device.id));
        assert forall|i: int, id: Seq<char>| i < n implies id_at(after, i, id) == id_at(
            catalog,
            i,
            id,
        ) by {}
        assert forall|i: int, j: int, id: Seq<char>| #[trigger]
            id_at(after, i, id) && #[trigger] id_at(after, j, id) implies i == j by {
            if i < n {
                assert(id_at(catalog, i, id));
            }
            if j < n {
                assert(id_at(catalog, j, id));
            }
        }
    }
}

/// A device that was not sighted again for thirty seconds or more is in
/// no list of fresh entries, and every listed entry is fresh.
pub proof fn lemma_stale_entries_are_dropped(catalog: Seq<BleView>, now: u64)
    ensures
        forall|i: int|
            0 <= i < fresh_entries(catalog, now).len() ==> is_fresh(
                (#[trigger] fresh_entries(catalog, now)[i]).last_seen,
                now,
            ),
        forall|i: int|
            0 <= i < catalog.len() && !is_fresh((#[trigger] catalog[i]).last_seen, now)
                ==> !fresh_entries(catalog, now).contains(catalog[i]),
        forall|i: int|
            0 <= i < catalog.len() && is_fresh((#[trigger] catalog[i]).last_seen, now)
                ==> fresh_entries(catalog, now).contains(catalog[i]),
        fresh_entries(catalog, now).len() <= catalog.len(),
{
    let keep = |d: BleView| is_fresh(d.last_seen, now);
    let fresh = fresh_entries(catalog, now);
    catalog.lemma_filter_len(keep);
    assert forall|i: int| 0 <= i < fresh.len() implies is_fresh(
        (#[trigger] fresh[i]).last_seen,
        now,
    ) by {
        catalog.lemma_filter_pred(keep, i);
    }
    assert forall|i: int|
        0 <= i < catalog.len() && !is_fresh(
            (#[trigger] catalog[i]).last_seen,
            now,
        ) implies !fresh.contains(catalog[i]) by {
        if fresh.contains(catalog[i]) {
            let k = choose|k: int| 0 <= k < fresh.len() && fresh[k] == catalog[i];
            catalog.lemma_filter_pred(keep, k);
        }
    }
    assert forall|i: int|
        0 <= i < catalog.len() && is_fresh(
            (#[trigger] catalog[i]).last_seen,
            now,
        ) implies fresh.contains(catalog[i]) by {
        catalog.lemma_filter_contains(keep, i);
    }
}

/// The BLE side of discovery.
#[derive(Debug)]
pub struct BleManager {
    adapter_ready: bool,
    scanning: bool,
    advertising: bool,
    devices: Vec<BleDevice>,
}

impl BleManager {
    /// Whether an adapter was chosen.
    pub closed spec fn has_adapter(&self) -> bool {
        self.adapter_ready
    }

    pub closed spec fn spec_is_scanning(&self) -> bool {
        self.scanning
    }

    pub closed spec fn spec_is_advertising(&self) -> bool {
        self.advertising
    }

    /// Every device that was sighted and not forgotten, stale ones
    /// included, in the order they were first seen.
    pub closed spec fn catalog(&self) -> Seq<BleView> {
        ble_views(self.devices@)
    }

    /// Identifiers are distinct.
    pub open spec fn wf(&self) -> bool {
        distinct_ids(self.catalog())
    }

    pub fn new() -> (manager: Self)
        ensures
            manager.wf(),
            !manager.has_adapter(),
            !manager.spec_is_scanning(),
            !manager.spec_is_advertising(),
            manager.catalog().len() == 0,
    {
        BleManager { adapter_ready: false, scanning: false, advertising: false, devices: Vec::new() }
    }

    /// Takes the adapters that the platform lists and chooses the first.
    /// Without any adapter it fails and nothing changes.
    pub fn initialize(&mut self, adapters: &Vec<String>) -> (result: Result<String, AirWinError>)
        ensures
            final(self).catalog() == old(self).catalog(),
            final(self).wf() == old(self).wf(),
            final(self).spec_is_scanning() == old(self).spec_is_scanning(),
            final(self).spec_is_advertising() == old(self).spec_is_advertising(),
            adapters@.len() > 0 ==> (result matches Ok(chosen) && chosen@ == adapters@[0]@)
                && final(self).has_adapter(),
            adapters@.len() == 0 ==> (result matches Err(AirWinError::DiscoveryError(m)) && m@
                == "No BLE adapters found"@) && final(self).has_adapter() == old(self).has_adapter(),
    {
        if adapters.len() == 0 {
            return Err(AirWinError::DiscoveryError("No BLE adapters found".to_string()));
        }
        self.adapter_ready = true;
        Ok(adapters[0].clone())
    }

    /// Asks to scan. Without an adapter it fails. While a scan runs the
    /// answer is `None`: there is nothing to start. Otherwise the answer
    /// is the services to filter the scan by. The state is not changed;
    /// `scan_started` records that the adapter took up the scan.
    pub fn start_scanning(&self) -> (result: Result<Option<Vec<u128>>, AirWinError>)
        ensures
            !self.has_adapter() ==> (result matches Err(AirWinError::DiscoveryError(m)) && m@
                == "BLE adapter not initialized"@),
            self.has_adapter() && self.spec_is_scanning() ==> result matches Ok(None),
            self.has_adapter() && !self.spec_is_scanning() ==> (result matches Ok(Some(filter))
                && filter@ == seq![AIRDROP_SERVICE_UUID, CONTINUITY_SERVICE_UUID]),
    {
        if !self.adapter_ready {
            return Err(AirWinError::DiscoveryError("BLE adapter not initialized".to_string()));
        }
        if self.scanning {
            return Ok(None);
        }
        let mut filter: Vec<u128> = Vec::new();
        filter.push(AIRDROP_SERVICE_UUID);
        filter.push(CONTINUITY_SERVICE_UUID);
        assert(filter@ =~= seq![AIRDROP_SERVICE_UUID, CONTINUITY_SERVICE_UUID]);
        Ok(Some(filter))
    }

    /// Takes the outcome of starting the adapter's scan: on success the
    /// manager scans, on failure it is as before and the failure is
    /// passed on.
    pub fn scan_started(&mut self, outcome: Result<(), String>) -> (result: Result<
        (),
        AirWinError,
    >)
        ensures
            final(self).catalog() == old(self).catalog(),
            final(self).wf() == old(self).wf(),
            final(self).has_adapter() == old(self).has_adapter(),
            final(self).spec_is_advertising() == old(self).spec_is_advertising(),
            match outcome {
                Ok(_) => result is Ok && final(self).spec_is_scanning(),
                Err(why) => result matches Err(AirWinError::DiscoveryError(m)) && m@ == why@
                    && final(self).spec_is_scanning() == old(self).spec_is_scanning(),
            },
    {
        match outcome {
            Ok(_) => {
                self.scanning = true;
                Ok(())
            },
            Err(why) => Err(AirWinError::DiscoveryError(why)),
        }
    }

    /// The storage index of the device of the given identifier.
    fn find(&self, id: &str) -> (found: Option<usize>)
        ensures
            match found {
                Some(i) => id_at(self.catalog(), i as int, id@),
                None => !has_id(self.catalog(), id@),
            },
    {
        let mut i: usize = 0;
        while i < self.devices.len()
            invariant
                i <= self.devices@.len(),
                forall|j: int| 0 <= j < i ==> !id_at(self.catalog(), j, id@),
            decreases self.devices@.len() - i,
        {
            if same_text(self.devices[i].id.as_str(), id) {
                return Some(i);
            }
            i += 1;
        }
        None
    }

    /// Takes one peripheral of a poll. While the scan runs, a peripheral
    /// whose advertisement counts as AirDrop is entered or refreshed with
    /// `now` as the time of its sighting; any other is ignored. It
    /// returns whether the peripheral was entered.
    pub fn peripheral_seen(
        &mut self,
        id: String,
        local_name: Option<String>,
        rssi: Option<i16>,
        manufacturer_data: HashMap<u16, Vec<u8>>,
        service_data: HashMap<u128, Vec<u8>>,
        services: &Vec<u128>,
        now: u64,
    ) -> (entered: bool)
        requires
            old(self).wf(),
        ensures
            final(self).wf(),
            final(self).has_adapter() == old(self).has_adapter(),
            final(self).spec_is_scanning() == old(self).spec_is_scanning(),
            final(self).spec_is_advertising() == old(self).spec_is_advertising(),
            entered == (old(self).spec_is_scanning() && is_airdrop_advertisement(
                manufacturer_view(manufacturer_data@),
                services@,
            )),
            entered ==> final(self).catalog() == sighted(
                old(self).catalog(),
                BleView {
                    id: id@,
                    name: match local_name {
                        Some(n) => n@,
                        None => unnamed_device(),
                    },
                    rssi: match rssi {
                        Some(r) => r,
                        None => 0i16,
                    },
                    manufacturer_data: manufacturer_view(manufacturer_data@),
                    service_data: service_view(service_data@),
                    last_seen: now,
                },
            ),
            !entered ==> final(self).catalog() == old(self).catalog(),
    {
        if !self.scanning || !is_airdrop_device(&manufacturer_data, services) {
            return false;
        }
        let name = match local_name {
            Some(n) => n,
            None => "Unknown AirDrop Device".to_string(),
        };
        let strength: i16 = match rssi {
            Some(r) => r,
            None => 0,
        };
        let device = BleDevice {
            id,
            name,
            rssi: strength,
            manufacturer_data,
            service_data,
            last_seen: now,
        };
        let ghost before = self.catalog();
        let ghost view = device@;
        proof {
            lemma_sighted(before, view);
        }
        match self.find(device.id.as_str()) {
            Some(i) => {
                proof {
                    let at = choose|k: int| id_at(before, k, view.id);
                    assert(id_at(before, at, view.id));
                    assert(id_at(before, i as int, view.id));
                    assert(at == i);
                }
                self.devices.set(i, device);
                assert(self.catalog() =~= before.update(i as int, view));
            },
            None => {
                self.devices.push(device);
                assert(self.catalog() =~= before.push(view));
            },
        }
        true
    }

    /// Asks to stop the scan. Without an adapter it fails. It returns
    /// whether a scan ran, that is, whether the adapter's scan is to be
    /// stopped; afterwards the manager does not scan.
    pub fn stop_scanning(&mut self) -> (result: Result<bool, AirWinError>)
        ensures
            final(self).catalog() == old(self).catalog(),
            final(self).wf() == old(self).wf(),
            final(self).has_adapter() == old(self).has_adapter(),
            final(self).spec_is_advertising() == old(self).spec_is_advertising(),
            !old(self).has_adapter() ==> (result matches Err(AirWinError::DiscoveryError(m)) && m@
                == "BLE adapter not initialized"@) && final(self).spec_is_scanning() == old(self).spec_is_scanning(),
            old(self).has_adapter() ==> result == Ok::<bool, AirWinError>(
                old(self).spec_is_scanning(),
            ) && !final(self).spec_is_scanning(),
    {
        if !self.adapter_ready {
            return Err(AirWinError::DiscoveryError("BLE adapter not initialized".to_string()));
        }
        let was_scanning = self.scanning;
        self.scanning = false;
        Ok(was_scanning)
    }

    /// Marks the endpoint as advertising. The platform has no way to put
    /// the advertisement on air, which the outcome says.
    pub fn start_advertising(&mut self) -> (result: Result<AdvertisingOutcome, AirWinError>)
        ensures
            final(self).spec_is_advertising(),
            final(self).catalog() == old(self).catalog(),
            final(self).wf() == old(self).wf(),
            final(self).has_adapter() == old(self).has_adapter(),
            final(self).spec_is_scanning() == old(self).spec_is_scanning(),
            result == Ok::<AdvertisingOutcome, AirWinError>(
                if old(self).spec_is_advertising() {
                    AdvertisingOutcome::AlreadyAdvertising
                } else {
                    AdvertisingOutcome::Unsupported
                },
            ),
    {
        if self.advertising {
            return Ok(AdvertisingOutcome::AlreadyAdvertising);
        }
        self.advertising = true;
        Ok(AdvertisingOutcome::Unsupported)
    }

    /// Marks the endpoint as not advertising.
    pub fn stop_advertising(&mut self) -> (result: Result<(), AirWinError>)
        ensures
            result is Ok,
            !final(self).spec_is_advertising(),
            final(self).catalog() == old(self).catalog(),
            final(self).wf() == old(self).wf(),
            final(self).has_adapter() == old(self).has_adapter(),
            final(self).spec_is_scanning() == old(self).spec_is_scanning(),
    {
        self.advertising = false;
        Ok(())
    }

    /// The devices sighted less than thirty seconds before `now`, in the
    /// order they were first seen. Stale devices stay in the catalog and
    /// are only left out of the answer.
    pub fn get_discovered_devices(&self, now: u64) -> (fresh: Vec<BleDevice>)
        ensures
            ble_views(fresh@) == fresh_entries(self.catalog(), now),
            forall|i: int|
                0 <= i < fresh@.len() ==> is_fresh((#[trigger] fresh@[i]).last_seen, now),
    {
        let ghost keep = |d: BleView| is_fresh(d.last_seen, now);
        let ghost catalog = self.catalog();
        let mut fresh: Vec<BleDevice> = Vec::new();
        let mut i: usize = 0;
        assert(catalog.take(0) =~= Seq::<BleView>::empty());
        assert(ble_views(fresh@) =~= catalog.take(0).filter(keep));
        while i < self.devices.len()
            invariant
                i <= self.devices@.len(),
                catalog == self.catalog(),
                keep == |d: BleView| is_fresh(d.last_seen, now),
                ble_views(fresh@) == catalog.take(i as int).filter(keep),
                forall|j: int|
                    0 <= j < fresh@.len() ==> is_fresh((#[trigger] fresh@[j]).last_seen, now),
            decreases self.devices@.len() - i,
        {
            let ghost before = ble_views(fresh@);
            proof {
                let next = catalog.take(i + 1);
                assert(next.drop_last() =~= catalog.take(i as int));
                assert(next.last() == catalog[i as int]);
                assert(catalog[i as int] == self.devices@[i as int]@);
                reveal(Seq::filter);
            }
            if fresh_at(self.devices[i].last_seen, now) {
                fresh.push(self.devices[i].clone());
                assert(ble_views(fresh@) =~= before.push(catalog[i as int]));
            }
            i += 1;
        }
        assert(catalog.take(i as int) =~= catalog);
        fresh
    }

    pub fn is_scanning(&self) -> (scanning: bool)
        ensures
            scanning == self.spec_is_scanning(),
    {
        self.scanning
    }

    pub fn is_advertising(&self) -> (advertising: bool)
        ensures
            advertising == self.spec_is_advertising(),
    {
        self.advertising
    }

    /// The BLE device hash for given random bytes.
    pub fn device_hash_from(random: &[u8; 6]) -> (hash: String)
        ensures
            hash@ == ble_hash_text(random@),
            hash@.len() == 12,
            is_lower_hex(hash@),
    {
        let mut input: Vec<u8> = Vec::new();
        append_bytes(&mut input, array_as_slice(random));
        let tag: [u8; 6] = [0x41, 0x69, 0x72, 0x57, 0x69, 0x6e];
        assert(tag@ =~= device_tag());
        append_bytes(&mut input, array_as_slice(&tag));
        let digest = sha256(input.as_slice());
        let head = copy_range(array_as_slice(&digest), 0, 6);
        proof {
            lemma_hex_lower_shape(head@);
        }
        encode_hex(head.as_slice())
    }

    /// A fresh BLE device hash: twelve lower-case hexadecimal digits.
    pub fn generate_device_hash() -> (hash: String)
        ensures
            hash@.len() == 12,
            is_lower_hex(hash@),
            exists|random: Seq<u8>| random.len() == 6 && hash@ == #[trigger] ble_hash_text(random),
    {
        let random = random_bytes_6();
        let hash = Self::device_hash_from(&random);
        assert(hash@ == ble_hash_text(random@));
        hash
    }

    /// The bytes that a device hash stands for, or six zero bytes where
    /// it is no hexadecimal text.
    fn hash_bytes(hash: &str) -> (bytes: Vec<u8>)
        ensures
            bytes@ == hash_bytes_or_zero(hash@),
    {
        match decode_hex(hash) {
            Some(bytes) => bytes,
            None => {
                let mut zero: Vec<u8> = Vec::new();
                let mut i: usize = 0;
                while i < 6
                    invariant
                        i <= 6,
                        zero@.len() == i,
                        forall|j: int| 0 <= j < i ==> zero@[j] == 0u8,
                    decreases 6 - i,
                {
                    zero.push(0u8);
                    i += 1;
                }
                assert(zero@ =~= seq![0u8, 0u8, 0u8, 0u8, 0u8, 0u8]);
                zero
            },
        }
    }

    /// The manufacturer data around the first six of the given bytes.
    fn manufacturer_data_around(hash: &Vec<u8>) -> (data: Vec<u8>)
        requires
            hash@.len() >= 6,
        ensures
            data@ == airdrop_manufacturer_data(hash@),
            data@.len() == 14,
    {
        let mut data: Vec<u8> = Vec::new();
        data.push(0x4Cu8);
        data.push(0x00u8);
        data.push(0x05u8);
        data.push(0x01u8);
        let head = copy_range(hash.as_slice(), 0, 6);
        append_bytes(&mut data, head.as_slice());
        data.push(0u8);
        data.push(0u8);
        data.push(0u8);
        data.push(0u8);
        assert(data@ =~= airdrop_manufacturer_data(hash@));
        data
    }

    /// The manufacturer data to advertise for a device hash. A hash that
    /// is no hexadecimal text counts as six zero bytes. There is no data
    /// for a hash of fewer than six bytes.
    pub fn manufacturer_data_for(hash: &str) -> (data: Option<Vec<u8>>)
        ensures
            hash_bytes_or_zero(hash@).len() >= 6 ==> (data matches Some(d) && d@
                == airdrop_manufacturer_data(hash_bytes_or_zero(hash@))),
            hash_bytes_or_zero(hash@).len() < 6 ==> data is None,
    {
        let bytes = Self::hash_bytes(hash);
        if bytes.len() < 6 {
            None
        } else {
            Some(Self::manufacturer_data_around(&bytes))
        }
    }

    /// The manufacturer data to advertise, over a fresh device hash:
    /// fourteen bytes that count as an AirDrop payload of Apple.
    pub fn create_airdrop_manufacturer_data() -> (data: Vec<u8>)
        ensures
            data@.len() == 14,
            data@[0] == 0x4C && data@[1] == 0x00 && data@[2] == AIRDROP_ADVERTISEMENT && data@[3]
                == 0x01,
            exists|random: Seq<u8>|
                random.len() == 6 && data@ == #[trigger] airdrop_manufacturer_data(
                    sha256_digest(random + device_tag()).subrange(0, 6),
                ),
    {
        let random = random_bytes_6();
        let hash = Self::device_hash_from(&random);
        let ghost head = sha256_digest(random@ + device_tag()).subrange(0, 6);
        proof {
            lemma_hex_round_trip(head);
            lemma_hex_lower_shape(head);
        }
        let bytes = Self::hash_bytes(hash.as_str());
        assert(bytes@ == head);
        Self::manufacturer_data_around(&bytes)
    }
}

} // verus!
