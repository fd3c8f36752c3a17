//! The services of one endpoint side by side, and the one catalog that
//! fuses what mDNS, BLE and AWDL have found.

use vstd::prelude::*;
use crate::network::address::IpAddress;
use crate::network::ble::{ble_views, fresh_entries, BleDevice, BleManager, BleView};
use crate::network::discovery::{
    browsed_types, device_views, DeviceDiscovery, DeviceView, DiscoveredDevice, ServiceType,
};
use crate::network::interface::NetworkManager;
use crate::protocols::airdrop::AirDrop;
use crate::protocols::airplay::{AirPlay, AirPlayView};
use crate::protocols::awdl::{
    mac_text, AwdlManager, AwdlManagerConfig, AwdlManagerState, AwdlPeer, AwdlPeerInfo, AwdlUtils,
};
use crate::protocols::status::StatusView;
use crate::protocols::txt_records::TxtRecords;
use crate::utils::error::AirWinError;

verus! {

/// The transport a peer was discovered by.
#[derive(Debug, Clone, Copy, PartialEq, Eq, Structural)]
pub enum Transport {
    Mdns,
    Ble,
    Awdl,
}

/// The kind of service a peer offers.
#[derive(Debug, Clone, Copy, PartialEq, Eq, Structural)]
pub enum ServiceKind {
    AirDrop,
    AirPlay,
    Companion,
    DeviceInfo,
    Raop,
    Other,
}

/// Where one transport stands in its life cycle.
#[derive(Debug, Clone, Copy, PartialEq, Eq, Structural)]
pub enum TransportState {
    Stopped,
    Starting,
    Running,
    Stopping,
    Error,
}

/// A peer of the fused catalog. Times are milliseconds on a clock that
/// never runs backwards. A peer found by BLE or AWDL has no IP address
/// and no port.
#[derive(Debug)]
pub struct DiscoveredPeer {
    pub id: String,
    pub display_name: String,
    pub address: Option<IpAddress>,
    pub port: u16,
    pub transport: Transport,
    pub service_kind: ServiceKind,
    pub attributes: TxtRecords,
    pub last_seen: u64,
}

/// A peer as a plain value.
pub struct PeerView {
    pub id: Seq<char>,
    pub display_name: Seq<char>,
    pub address: Option<IpAddress>,
    pub port: u16,
    pub transport: Transport,
    pub service_kind: ServiceKind,
    pub attributes: Map<Seq<char>, Seq<char>>,
    pub last_seen: u64,
}

impl View for DiscoveredPeer {
    type V = PeerView;

    open spec fn view(&self) -> PeerView {
        PeerView {
            id: self.id@,
            display_name: self.display_name@,
            address: self.address,
            port: self.port,
            transport: self.transport,
            service_kind: self.service_kind,
            attributes: self.attributes@,
            last_seen: self.last_seen,
        }
    }
}

/// The kind of service behind a browsed service type.
pub open spec fn kind_of(service_type: ServiceType) -> ServiceKind {
    match service_type {
        ServiceType::AirDrop => ServiceKind::AirDrop,
        ServiceType::AirPlay => ServiceKind::AirPlay,
        ServiceType::Companion => ServiceKind::Companion,
        ServiceType::DeviceInfo => ServiceKind::DeviceInfo,
        ServiceType::Raop => ServiceKind::Raop,
        _ => ServiceKind::Other,
    }
}

/// The peer that a device found by mDNS is listed as at the time `now`:
/// under its full name, with its address, port and records. mDNS entries
/// do not age, so the peer counts as seen at `now`.
pub open spec fn peer_of_device(device: DeviceView, now: u64) -> PeerView {
    PeerView {
        id: device.name,
        display_name: device.name,
        address: Some(device.address),
        port: device.port,
        transport: Transport::Mdns,
        service_kind: kind_of(device.service_type),
        attributes: device.txt_records,
        last_seen: now,
    }
}

/// The peer that a device found by BLE is listed as: an AirDrop peer
/// under the device's identifier, last seen when the device was.
pub open spec fn peer_of_ble(device: BleView) -> PeerView {
    PeerView {
        id: device.id,
        display_name: device.name,
        address: None,
        port: 0,
        transport: Transport::Ble,
        service_kind: ServiceKind::AirDrop,
        attributes: Map::empty(),
        last_seen: device.last_seen,
    }
}

/// The peer that an AWDL peer is listed as at the time `now`: under the
/// text of its hardware address and the name it goes by, or as `Unknown`
/// where it has no name.
pub open spec fn peer_of_awdl(peer: AwdlPeer, now: u64) -> PeerView {
    PeerView {
        id: mac_text(peer.address@),
        display_name: match peer.name {
            Some(name) => name@,
            None => "Unknown"@,
        },
        address: None,
        port: 0,
        transport: Transport::Awdl,
        service_kind: ServiceKind::Other,
        attributes: Map::empty(),
        last_seen: now,
    }
}

/// The state of the AWDL transport for the state of its manager.
pub open spec fn transport_state_of(state: AwdlManagerState) -> TransportState {
    match state {
        AwdlManagerState::Stopped => TransportState::Stopped,
        AwdlManagerState::Initializing => TransportState::Starting,
        AwdlManagerState::Starting => TransportState::Starting,
        AwdlManagerState::Running => TransportState::Running,
        AwdlManagerState::Stopping => TransportState::Stopping,
        AwdlManagerState::Error => TransportState::Error,
    }
}

/// What the caller is to set going after `initialize`.
#[derive(Debug)]
pub struct StartPlan {
    /// The service types to open an mDNS browser for.
    pub browse: Vec<String>,
    /// The adapter to scan with, where BLE is available.
    pub ble_adapter: Option<String>,
}

/// The services of one endpoint.
#[derive(Debug)]
pub struct AirWinServices {
    pub device_discovery: DeviceDiscovery,
    pub airdrop: AirDrop,
    pub airplay: AirPlay,
    pub ble: BleManager,
    pub awdl: AwdlManager,
    pub ble_state: TransportState,
}

impl AirWinServices {
    /// The catalogs are well-formed.
    pub open spec fn wf(&self) -> bool {
        self.device_discovery.wf() && self.ble.wf() && self.awdl.wf()
    }

    /// The state of the mDNS transport.
    pub open spec fn mdns_state(&self) -> TransportState {
        if self.device_discovery.is_running() {
            TransportState::Running
        } else {
            TransportState::Stopped
        }
    }

    /// The state of the AWDL transport.
    pub open spec fn awdl_state(&self) -> TransportState {
        transport_state_of(self.awdl.spec_state())
    }

    /// The peers that a snapshot at `now` lists: every device found by
    /// mDNS, then the fresh devices found by BLE, then the peers of AWDL.
    pub open spec fn is_snapshot(&self, peers: Seq<PeerView>, now: u64) -> bool {
        let mdns = self.device_discovery.catalog();
        let ble = fresh_entries(self.ble.catalog(), now);
        let infos = self.awdl.spec_peers();
        &&& peers.len() == mdns.len() + ble.len() + infos.len()
        &&& forall|i: int| 0 <= i < mdns.len() ==> #[trigger] peers[i] == peer_of_device(mdns[i], now)
        &&& forall|i: int|
            0 <= i < ble.len() ==> #[trigger] peers[mdns.len() + i] == peer_of_ble(ble[i])
        &&& forall|i: int|
            0 <= i < infos.len() ==> #[trigger] peers[mdns.len() + ble.len() + i] == peer_of_awdl(
                infos[i],
                now,
            )
    }

    /// Services that are all stopped and have found nothing.
    pub fn new(network_manager: NetworkManager, awdl_config: AwdlManagerConfig) -> (services: Self)
        ensures
            services.wf(),
            services.mdns_state() == TransportState::Stopped,
            services.ble_state == TransportState::Stopped,
            services.awdl_state() == TransportState::Stopped,
            services.device_discovery.catalog().len() == 0,
            services.ble.catalog().len() == 0,
            services.awdl.spec_peers().len() == 0,
            services.airdrop.state() == StatusView::Idle,
            services.airplay.state() == AirPlayView::Idle,
    {
        AirWinServices {
            device_discovery: DeviceDiscovery::new(network_manager),
            airdrop: AirDrop::new(),
            airplay: AirPlay::new(),
            ble: BleManager::new(),
            awdl: AwdlManager::new(awdl_config),
            ble_state: TransportState::Stopped,
        }
    }

    /// Starts the services' discovery, given the outcome of making the
    /// mDNS responder and the BLE adapters that the platform lists. mDNS is the
    /// baseline: without it nothing is started and the start fails. BLE
    /// is best effort: without an adapter only BLE is disabled. Starting
    /// while discovery runs changes nothing and asks for nothing to be
    /// set going.
    pub fn initialize(&mut self, mdns: Result<(), String>, ble_adapters: &Vec<String>) -> (result: Result<
        StartPlan,
        AirWinError,
    >)
        requires
            old(self).wf(),
        ensures
            final(self).wf(),
            final(self).device_discovery.catalog() == old(self).device_discovery.catalog(),
            final(self).ble.catalog() == old(self).ble.catalog(),
            final(self).awdl == old(self).awdl,
            final(self).airdrop == old(self).airdrop,
            final(self).airplay == old(self).airplay,
            old(self).mdns_state() == TransportState::Running ==> {
                &&& result matches Ok(plan)
                &&& plan.browse@.len() == 0
                &&& plan.ble_adapter is None
                &&& final(self).mdns_state() == TransportState::Running
                &&& final(self).ble_state == old(self).ble_state
                &&& final(self).ble.has_adapter() == old(self).ble.has_adapter()
                &&& final(self).ble.spec_is_scanning() == old(self).ble.spec_is_scanning()
            },
            old(self).mdns_state() != TransportState::Running ==> match mdns {
                Err(why) => {
                    &&& result matches Err(AirWinError::DiscoveryError(m))
                    &&& m@ == why@
                    &&& final(self).mdns_state() == TransportState::Stopped
                    &&& final(self).ble_state == old(self).ble_state
                },
                Ok(_) => {
                    &&& result matches Ok(plan)
                    &&& final(self).mdns_state() == TransportState::Running
                    &&& plan.browse@.len() == browsed_types().len()
                    &&& forall|i: int|
                        0 <= i < plan.browse@.len() ==> (#[trigger] plan.browse@[i])@
                            == browsed_types()[i]
                    &&& if ble_adapters@.len() > 0 {
                        (plan.ble_adapter matches Some(a) && a@ == ble_adapters@[0]@) && final(self).ble_state == TransportState::Starting
                    } else {
                        plan.ble_adapter is None && final(self).ble_state == TransportState::Error
                    }
                },
            },
    {
        if self.device_discovery.running() {
            return Ok(StartPlan { browse: Vec::new(), ble_adapter: None });
        }
        match mdns {
            Err(why) => Err(AirWinError::DiscoveryError(why)),
            Ok(_) => {
                let browse = self.device_discovery.start_discovery();
                let ble_adapter = match self.ble.initialize(ble_adapters) {
                    Ok(adapter) => {
                        self.ble_state = TransportState::Starting;
                        Some(adapter)
                    },
                    Err(_) => {
                        self.ble_state = TransportState::Error;
                        None
                    },
                };
                Ok(StartPlan { browse, ble_adapter })
            },
        }
    }

    /// Takes the outcome of starting the BLE scan: the transport runs
    /// when the scan does, and is disabled otherwise. Nothing else
    /// changes.
    pub fn ble_scan_started(&mut self, outcome: Result<(), String>)
        requires
            old(self).wf(),
        ensures
            final(self).wf(),
            final(self).device_discovery == old(self).device_discovery,
            final(self).awdl == old(self).awdl,
            final(self).airdrop == old(self).airdrop,
            final(self).airplay == old(self).airplay,
            final(self).ble.catalog() == old(self).ble.catalog(),
            final(self).ble_state == if outcome is Ok {
                TransportState::Running
            } else {
                TransportState::Error
            },
            outcome is Ok ==> final(self).ble.spec_is_scanning(),
    {
        match self.ble.scan_started(outcome) {
            Ok(_) => {
                self.ble_state = TransportState::Running;
            },
            Err(_) => {
                self.ble_state = TransportState::Error;
            },
        }
    }

    /// Stops discovery on every transport and clears what each has
    /// found, so that the next snapshot is empty. The AWDL daemon is
    /// stopped through its manager's own steps.
    pub fn stop(&mut self)
        ensures
            final(self).wf(),
            final(self).mdns_state() == TransportState::Stopped,
            final(self).ble_state == TransportState::Stopped,
            !final(self).ble.spec_is_scanning(),
            final(self).device_discovery.catalog().len() == 0,
            final(self).ble.catalog().len() == 0,
            final(self).awdl.spec_peers().len() == 0,
            final(self).awdl.spec_state() == old(self).awdl.spec_state(),
            final(self).awdl.spec_config() == old(self).awdl.spec_config(),
            final(self).awdl.has_daemon() == old(self).awdl.has_daemon(),
            final(self).airdrop == old(self).airdrop,
            final(self).airplay == old(self).airplay,
    {
        self.device_discovery.stop_discovery();
        self.ble = BleManager::new();
        self.awdl.clear_peers();
        self.ble_state = TransportState::Stopped;
    }

    /// The fused catalog at the time `now`: every device found by mDNS,
    /// then the devices found by BLE that were seen less than thirty
    /// seconds ago, then the peers of AWDL, each in its catalog's order.
    /// Nothing is changed: stale devices are left out, not removed.
    pub fn snapshot(&self, now: u64) -> (peers: Vec<DiscoveredPeer>)
        requires
            self.wf(),
        ensures
            self.is_snapshot(peer_views(peers@), now),
            forall|i: int|
                0 <= i < peers@.len() && (#[trigger] peers@[i]).transport == Transport::Ble
                    ==> crate::network::ble::is_fresh(peers@[i].last_seen, now),
    {
        let mut peers: Vec<DiscoveredPeer> = Vec::new();
        let devices: Vec<DiscoveredDevice> = match self.device_discovery.get_devices() {
            Ok(list) => list,
            Err(_) => Vec::new(),
        };
        let ghost mdns = self.device_discovery.catalog();
        let mut i: usize = 0;
        while i < devices.len()
            invariant
                i <= devices@.len(),
                device_views(devices@) == mdns,
                peers@.len() == i,
                forall|j: int| 0 <= j < i ==> (#[trigger] peers@[j])@ == peer_of_device(mdns[j], now),
            decreases devices@.len() - i,
        {
            let device = &devices[i];
            assert(mdns[i as int] == devices@[i as int]@);
            peers.push(
                DiscoveredPeer {
                    id: device.name.clone(),
                    display_name: device.name.clone(),
                    address: Some(device.address),
                    port: device.port,
                    transport: Transport::Mdns,
                    service_kind: service_kind_for(device.service_type),
                    attributes: device.txt_records.clone(),
                    last_seen: now,
                },
            );
            i += 1;
        }
        let fresh: Vec<BleDevice> = self.ble.get_discovered_devices(now);
        let ghost ble = fresh_entries(self.ble.catalog(), now);
        let ghost m = mdns.len();
        let mut k: usize = 0;
        while k < fresh.len()
            invariant
                k <= fresh@.len(),
                ble_views(fresh@) == ble,
                m == mdns.len(),
                peers@.len() == m + k,
                forall|j: int| 0 <= j < m ==> (#[trigger] peers@[j])@ == peer_of_device(mdns[j], now),
                forall|j: int| 0 <= j < k ==> (#[trigger] peers@[m + j])@ == peer_of_ble(ble[j]),
                forall|j: int|
                    0 <= j < fresh@.len() ==> crate::network::ble::is_fresh(
                        (#[trigger] fresh@[j]).last_seen,
                        now,
                    ),
            decreases fresh@.len() - k,
        {
            let device = &fresh[k];
            assert(ble[k as int] == fresh@[k as int]@);
            peers.push(
                DiscoveredPeer {
                    id: device.id.clone(),
                    display_name: device.name.clone(),
                    address: None,
                    port: 0,
                    transport: Transport::Ble,
                    service_kind: ServiceKind::AirDrop,
                    attributes: TxtRecords::new(),
                    last_seen: device.last_seen,
                },
            );
            k += 1;
        }
        let listed: Vec<AwdlPeerInfo> = self.awdl.get_peers(0);
        let ghost b = ble.len();
        let ghost reported = self.awdl.spec_peers();
        let mut a: usize = 0;
        while a < listed.len()
            invariant
                a <= listed@.len(),
                listed@.len() == reported.len(),
                forall|j: int|
                    0 <= j < listed@.len() ==> crate::protocols::awdl::is_listing_of(
                        #[trigger] listed@[j],
                        reported[j],
                        self.awdl.spec_config().service_name@,
                        0,
                    ),
                m == mdns.len(),
                b == ble.len(),
                ble_views(fresh@) == ble,
                peers@.len() == m + b + a,
                forall|j: int| 0 <= j < m ==> (#[trigger] peers@[j])@ == peer_of_device(mdns[j], now),
                forall|j: int| 0 <= j < b ==> (#[trigger] peers@[m + j])@ == peer_of_ble(ble[j]),
                forall|j: int|
                    0 <= j < a ==> (#[trigger] peers@[m + b + j])@ == peer_of_awdl(reported[j], now),
                forall|j: int|
                    0 <= j < fresh@.len() ==> crate::network::ble::is_fresh(
                        (#[trigger] fresh@[j]).last_seen,
                        now,
                    ),
            decreases listed@.len() - a,
        {
            let info = &listed[a];
            peers.push(
                DiscoveredPeer {
                    id: AwdlUtils::format_mac_address(&info.mac_address),
                    display_name: info.device_name.clone(),
                    address: None,
                    port: 0,
                    transport: Transport::Awdl,
                    service_kind: ServiceKind::Other,
                    attributes: TxtRecords::new(),
                    last_seen: now,
                },
            );
            a += 1;
        }
        proof {
            let views = peer_views(peers@);
            assert forall|j: int| 0 <= j < m implies #[trigger] views[j] == peer_of_device(
                mdns[j],
                now,
            ) by {
                assert(views[j] == peers@[j]@);
            }
            assert forall|j: int| 0 <= j < b implies #[trigger] views[m + j] == peer_of_ble(
                ble[j],
            ) by {
                assert(views[m + j] == peers@[m + j]@);
            }
            assert forall|j: int| 0 <= j < reported.len() implies #[trigger] views[m + b + j]
                == peer_of_awdl(reported[j], now) by {
                assert(views[m + b + j] == peers@[m + b + j]@);
            }
            assert(self.is_snapshot(views, now));
            assert forall|j: int|
                0 <= j < peers@.len() && (#[trigger] peers@[j]).transport
                    == Transport::Ble implies crate::network::ble::is_fresh(
                peers@[j].last_seen,
                now,
            ) by {
                if j < m {
                    assert(peers@[j]@ == peer_of_device(mdns[j], now));
                } else if j < m + b {
                    assert(peers@[m + (j - m)]@ == peer_of_ble(ble[j - m]));
                    assert(ble[j - m] == fresh@[j - m]@);
                } else {
                    assert(peers@[m + b + (j - m - b)]@ == peer_of_awdl(reported[j - m - b], now));
                }
            }
        }
        peers
    }
}

/// The peers of a list as plain values.
pub open spec fn peer_views(peers: Seq<DiscoveredPeer>) -> Seq<PeerView> {
    Seq::new(peers.len(), |i: int| peers[i]@)
}

/// The kind of service behind a browsed service type.
pub fn service_kind_for(service_type: ServiceType) -> (kind: ServiceKind)
    ensures
        kind == kind_of(service_type),
{
    match service_type {
        ServiceType::AirDrop => ServiceKind::AirDrop,
        ServiceType::AirPlay => ServiceKind::AirPlay,
        ServiceType::Companion => ServiceKind::Companion,
        ServiceType::DeviceInfo => ServiceKind::DeviceInfo,
        ServiceType::Raop => ServiceKind::Raop,
        _ => ServiceKind::Other,
    }
}

/// Whatever BLE has found or failed to find, a snapshot lists every
/// device that mDNS has found, in mDNS's order and before any other
/// peer.
pub proof fn lemma_snapshot_keeps_mdns(services: AirWinServices, peers: Seq<PeerView>, now: u64)
    requires
        services.is_snapshot(peers, now),
    ensures
        peers.len() >= services.device_discovery.catalog().len(),
        forall|i: int|
            0 <= i < services.device_discovery.catalog().len() ==> (#[trigger] peers[i]).transport
                == Transport::Mdns && peers[i].id == services.device_discovery.catalog()[i].name,
        services.ble.catalog().len() == 0 ==> forall|i: int|
            0 <= i < peers.len() ==> (#[trigger] peers[i]).transport != Transport::Ble,
{
    let mdns = services.device_discovery.catalog();
    let ble = fresh_entries(services.ble.catalog(), now);
    assert forall|i: int| 0 <= i < mdns.len() implies (#[trigger] peers[i]).transport
        == Transport::Mdns && peers[i].id == mdns[i].name by {
        assert(peers[i] == peer_of_device(mdns[i], now));
    }
    if services.ble.catalog().len() == 0 {
        services.ble.catalog().lemma_filter_len(
            |d: BleView| crate::network::ble::is_fresh(d.last_seen, now),
        );
        assert(ble.len() == 0);
        assert forall|i: int| 0 <= i < peers.len() implies (#[trigger] peers[i]).transport
            != Transport::Ble by {
            if i < mdns.len() {
                assert(peers[i] == peer_of_device(mdns[i], now));
            } else {
                let j = i - mdns.len() - ble.len();
                assert(peers[mdns.len() + ble.len() + j] == peer_of_awdl(
                    services.awdl.spec_peers()[j],
                    now,
                ));
            }
        }
    }
}

} // verus!
