//! The AWDL side of discovery: the manager's life cycle around an outside
//! daemon, and the table of peers that the daemon reports.

use vstd::prelude::*;
use vstd::array::array_as_slice;
use vstd::string::StringExecFns;
use crate::utils::error::{AirWinError, AirWinResult};
use crate::utils::hex::{encode_hex, hex_lower};
use crate::utils::text::{contains_subseq, str_contains};

verus! {

/// The manager's configuration.
#[derive(Debug)]
pub struct AwdlManagerConfig {
    /// Whether AWDL is used at all.
    pub enabled: bool,
    /// The interface to use; `None` lets the daemon choose.
    pub interface: Option<String>,
    /// The name this device goes by.
    pub device_name: String,
    /// The service that peers are listed under.
    pub service_name: String,
    /// Whether the daemon is started as soon as it is initialized.
    pub auto_start: bool,
    /// Seconds between two sweeps of the peer table.
    pub discovery_interval: u64,
    /// The largest number of peers that is kept.
    pub max_peers: usize,
}

impl Default for AwdlManagerConfig {
    fn default() -> (config: Self)
        ensures
            config.enabled,
            config.interface is None,
            config.device_name@ == "AirWin-Device"@,
            config.service_name@ == "_airwin._tcp"@,
            config.auto_start,
            config.discovery_interval == 30,
            config.max_peers == 50,
    {
        AwdlManagerConfig {
            enabled: true,
            interface: None,
            device_name: "AirWin-Device".to_string(),
            service_name: "_airwin._tcp".to_string(),
            auto_start: true,
            discovery_interval: 30,
            max_peers: 50,
        }
    }
}

impl Clone for AwdlManagerConfig {
    fn clone(&self) -> (copy: Self)
        ensures
            copy == *self,
    {
        AwdlManagerConfig {
            enabled: self.enabled,
            interface: match &self.interface {
                Some(name) => Some(name.clone()),
                None => None,
            },
            device_name: self.device_name.clone(),
            service_name: self.service_name.clone(),
            auto_start: self.auto_start,
            discovery_interval: self.discovery_interval,
            max_peers: self.max_peers,
        }
    }
}

/// Where the manager stands in its life cycle.
#[derive(Debug, Clone, Copy, PartialEq, Eq, Structural)]
pub enum AwdlManagerState {
    Stopped,
    Initializing,
    Starting,
    Running,
    Stopping,
    Error,
}

/// A peer as the daemon reports it.
#[derive(Debug)]
pub struct AwdlPeer {
    pub address: [u8; 6],
    pub name: Option<String>,
}

/// A peer as this library lists it. The time is in seconds since the
/// Unix epoch.
#[derive(Debug)]
pub struct AwdlPeerInfo {
    pub mac_address: [u8; 6],
    pub device_name: String,
    pub service_name: String,
    pub last_seen: i64,
    pub signal_strength: Option<i32>,
    pub capabilities: Vec<String>,
}

/// A data frame for the daemon to send.
#[derive(Debug)]
pub struct AwdlFrame {
    pub destination: [u8; 6],
    pub source: [u8; 6],
    pub ether_type: u16,
    pub payload: Vec<u8>,
}

/// The EtherType of IPv4.
pub const ETHER_TYPE_IP: u16 = 0x0800;

/// What the manager asks of the daemon next.
#[derive(Debug, Clone, Copy, PartialEq, Eq, Structural)]
pub enum DaemonStep {
    /// Nothing: AWDL is disabled, or the manager is done.
    Nothing,
    /// Build the daemon.
    Build,
    /// Initialize the daemon that was built.
    Initialize,
    /// Start the daemon.
    Start,
    /// Stop the daemon.
    Stop,
    /// Run the periodic sweep of the peer table.
    Sweep,
}

/// What is to be done about the daemon after a change of settings.
#[derive(Debug, Clone, Copy, PartialEq, Eq, Structural)]
pub struct Restart {
    /// Stop the daemon first.
    pub stop: bool,
    /// Then initialize the manager again.
    pub initialize: bool,
}

/// A failure's message speaks of a port that is taken: it holds the
/// Windows error number 10048, or `already in use`, or `bind`.
pub open spec fn is_port_conflict(message: Seq<char>) -> bool {
    contains_subseq(message, "10048"@) || contains_subseq(message, "already in use"@)
        || contains_subseq(message, "bind"@)
}

/// The peer listed for a reported peer: under the peer's name, or as
/// `Unknown` where it has none, with the manager's service name, the
/// given time, no signal strength and no capabilities.
pub open spec fn is_listing_of(
    info: AwdlPeerInfo,
    peer: AwdlPeer,
    service_name: Seq<char>,
    now: i64,
) -> bool {
    &&& info.mac_address@ == peer.address@
    &&& info.device_name@ == match peer.name {
        Some(name) => name@,
        None => "Unknown"@,
    }
    &&& info.service_name@ == service_name
    &&& info.last_seen == now
    &&& info.signal_strength is None
    &&& info.capabilities@.len() == 0
}

/// The text of a hardware address: the lower-case hexadecimal digits of
/// its six bytes, separated by colons.
pub open spec fn mac_text(mac: Seq<u8>) -> Seq<char> {
    hex_lower(mac.subrange(0, 1)) + ":"@ + hex_lower(mac.subrange(1, 2)) + ":"@ + hex_lower(
        mac.subrange(2, 3),
    ) + ":"@ + hex_lower(mac.subrange(3, 4)) + ":"@ + hex_lower(mac.subrange(4, 5)) + ":"@
        + hex_lower(mac.subrange(5, 6))
}

/// A usable hardware address: not all zero and not the broadcast
/// address.
pub open spec fn is_valid_mac(mac: Seq<u8>) -> bool {
    (exists|i: int| 0 <= i < 6 && mac[i] != 0u8) && (exists|i: int| 0 <= i < 6 && mac[i] != 0xffu8)
}

/// Peer `i` has the given address.
pub open spec fn address_at(peers: Seq<AwdlPeer>, i: int, address: Seq<u8>) -> bool {
    0 <= i < peers.len() && peers[i].address@ == address
}

/// No two peers have the same address.
pub open spec fn distinct_addresses(peers: Seq<AwdlPeer>) -> bool {
    forall|i: int, j: int, address: Seq<u8>|
        #[trigger] address_at(peers, i, address) && #[trigger] address_at(peers, j, address) ==> i
            == j
}

/// Some peer has the given address.
pub open spec fn has_address(peers: Seq<AwdlPeer>, address: Seq<u8>) -> bool {
    exists|i: int| address_at(peers, i, address)
}

/// The peers after one was reported: it replaces the peer of its
/// address in place, or is appended when its address is new.
pub open spec fn reported(peers: Seq<AwdlPeer>, peer: AwdlPeer) -> Seq<AwdlPeer> {
    if has_address(peers, peer.address@) {
        peers.update(choose|i: int| address_at(peers, i, peer.address@), peer)
    } else {
        peers.push(peer)
    }
}

/// Reporting a peer keeps the addresses distinct.
pub proof fn lemma_reported(peers: Seq<AwdlPeer>, peer: AwdlPeer)
    requires
        distinct_addresses(peers),
    ensures
        distinct_addresses(reported(peers, peer)),
        reported(peers, peer).len() == if has_address(peers, peer.address@) {
            peers.len()
        } else {
            peers.len() + 1
        },
{
    let after = reported(peers, peer);
    if has_address(peers, peer.address@) {
        let at = choose|i: int| address_at(peers, i, peer.address@);
        assert(address_at(peers, at, peer.address@));
        assert forall|i: int, a: Seq<u8>| address_at(after, i, a) == address_at(peers, i, a) by {}
    } else {
        let n = peers.len() as int;
        assert forall|i: int, a: Seq<u8>| i < n implies address_at(after, i, a) == address_at(
            peers,
            i,
            a,
        ) by {}
        assert forall|i: int, j: int, a: Seq<u8>| #[trigger]
            address_at(after, i, a) && #[trigger] address_at(after, j, a) implies i == j by {
            if i < n {
                assert(address_at(peers, i, a));
            }
            if j < n {
                assert(address_at(peers, j, a));
            }
        }
    }
}

/// Whether a failure's message speaks of a port that is taken.
pub fn port_conflict(message: &str) -> (conflict: bool)
    ensures
        conflict == is_port_conflict(message@),
{
    str_contains(message, "10048") || str_contains(message, "already in use") || str_contains(
        message,
        "bind",
    )
}

/// The manager of the AWDL daemon.
#[derive(Debug)]
pub struct AwdlManager {
    daemon_ready: bool,
    config: AwdlManagerConfig,
    state: AwdlManagerState,
    peers: Vec<AwdlPeer>,
}

impl AwdlManager {
    /// Whether a daemon was built and initialized.
    pub closed spec fn has_daemon(&self) -> bool {
        self.daemon_ready
    }

    pub closed spec fn spec_config(&self) -> AwdlManagerConfig {
        self.config
    }

    pub closed spec fn spec_state(&self) -> AwdlManagerState {
        self.state
    }

    /// The peers that the daemon reported, in the order they were first
    /// reported.
    pub closed spec fn spec_peers(&self) -> Seq<AwdlPeer> {
        self.peers@
    }

    /// No two peers have the same address.
    pub open spec fn wf(&self) -> bool {
        distinct_addresses(self.spec_peers())
    }

    /// Everything but the state and the enabled flag is as in `before`.
    pub open spec fn same_but_state(&self, before: &AwdlManager) -> bool {
        &&& self.has_daemon() == before.has_daemon()
        &&& self.spec_peers() == before.spec_peers()
        &&& self.spec_config().interface == before.spec_config().interface
        &&& self.spec_config().device_name == before.spec_config().device_name
        &&& self.spec_config().service_name == before.spec_config().service_name
        &&& self.spec_config().auto_start == before.spec_config().auto_start
        &&& self.spec_config().discovery_interval == before.spec_config().discovery_interval
        &&& self.spec_config().max_peers == before.spec_config().max_peers
    }

    pub fn new(config: AwdlManagerConfig) -> (manager: Self)
        ensures
            manager.spec_config() == config,
            manager.wf(),
            manager.spec_state() == AwdlManagerState::Stopped,
            !manager.has_daemon(),
            manager.spec_peers().len() == 0,
    {
        AwdlManager {
            daemon_ready: false,
            config,
            state: AwdlManagerState::Stopped,
            peers: Vec::new(),
        }
    }

    pub fn get_state(&self) -> (state: AwdlManagerState)
        ensures
            state == self.spec_state(),
    {
        self.state
    }

    pub fn config(&self) -> (config: &AwdlManagerConfig)
        ensures
            *config == self.spec_config(),
    {
        &self.config
    }

    fn set_state(&mut self, state: AwdlManagerState)
        ensures
            final(self).spec_state() == state,
            final(self).spec_config() == old(self).spec_config(),
            final(self).same_but_state(old(self)),
    {
        self.state = state;
    }

    /// Takes a failure of the daemon at the given stage. A port conflict
    /// is no error: AWDL is disabled and the manager stops. Any other
    /// failure is a network error and leaves the manager in `Error`.
    fn daemon_failed(&mut self, stage: &str, why: String) -> (result: AirWinResult<DaemonStep>)
        ensures
            final(self).same_but_state(old(self)),
            is_port_conflict(why@) ==> result == Ok::<DaemonStep, AirWinError>(DaemonStep::Nothing)
                && final(self).spec_state() == AwdlManagerState::Stopped && !final(self).spec_config().enabled,
            !is_port_conflict(why@) ==> (result matches Err(AirWinError::NetworkError(m)) && m@
                == stage@ + why@) && final(self).spec_state() == AwdlManagerState::Error && final(self).spec_config().enabled == old(self).spec_config().enabled,
    {
        if port_conflict(why.as_str()) {
            self.config.enabled = false;
            self.state = AwdlManagerState::Stopped;
            Ok(DaemonStep::Nothing)
        } else {
            self.state = AwdlManagerState::Error;
            Err(AirWinError::NetworkError(stage.to_string().concat(why.as_str())))
        }
    }

    /// Begins initializing. A disabled manager has nothing to do;
    /// otherwise the manager is `Initializing` and the daemon is to be
    /// built.
    pub fn initialize(&mut self) -> (result: AirWinResult<DaemonStep>)
        ensures
            final(self).same_but_state(old(self)),
            final(self).spec_config() == old(self).spec_config(),
            !old(self).spec_config().enabled ==> result == Ok::<DaemonStep, AirWinError>(
                DaemonStep::Nothing,
            ) && final(self).spec_state() == old(self).spec_state(),
            old(self).spec_config().enabled ==> result == Ok::<DaemonStep, AirWinError>(
                DaemonStep::Build,
            ) && final(self).spec_state() == AwdlManagerState::Initializing,
    {
        if !self.config.enabled {
            return Ok(DaemonStep::Nothing);
        }
        self.set_state(AwdlManagerState::Initializing);
        Ok(DaemonStep::Build)
    }

    /// Takes the outcome of building the daemon: once built it is to be
    /// initialized.
    pub fn daemon_built(&mut self, outcome: Result<(), String>) -> (result: AirWinResult<
        DaemonStep,
    >)
        ensures
            final(self).same_but_state(old(self)),
            match outcome {
                Ok(_) => result == Ok::<DaemonStep, AirWinError>(DaemonStep::Initialize) && final(self).spec_state() == old(self).spec_state() && final(self).spec_config() == old(self).spec_config(),
                Err(why) => if is_port_conflict(why@) {
                    result == Ok::<DaemonStep, AirWinError>(DaemonStep::Nothing) && final(self).spec_state() == AwdlManagerState::Stopped && !final(self).spec_config().enabled
                } else {
                    (result matches Err(AirWinError::NetworkError(m)) && m@
                        == "AWDL daemon build failed: "@ + why@) && final(self).spec_state()
                        == AwdlManagerState::Error
                },
            },
    {
        match outcome {
            Ok(_) => Ok(DaemonStep::Initialize),
            Err(why) => self.daemon_failed("AWDL daemon build failed: ", why),
        }
    }

    /// Takes the outcome of initializing the daemon. With the daemon
    /// ready, the manager goes on to start it when the configuration
    /// asks for that, and has nothing more to do otherwise.
    pub fn daemon_initialized(&mut self, outcome: Result<(), String>) -> (result: AirWinResult<
        DaemonStep,
    >)
        ensures
            final(self).spec_peers() == old(self).spec_peers(),
            match outcome {
                Ok(_) => final(self).has_daemon() && final(self).spec_config() == old(self).spec_config() && if old(self).spec_config().auto_start && old(self).spec_config().enabled {
                    result == Ok::<DaemonStep, AirWinError>(DaemonStep::Start) && final(self).spec_state() == AwdlManagerState::Starting
                } else {
                    result == Ok::<DaemonStep, AirWinError>(DaemonStep::Nothing) && final(self).spec_state() == old(self).spec_state()
                },
                Err(why) => final(self).has_daemon() == old(self).has_daemon()
                    && if is_port_conflict(why@) {
                    result == Ok::<DaemonStep, AirWinError>(DaemonStep::Nothing) && final(self).spec_state() == AwdlManagerState::Stopped && !final(self).spec_config().enabled
                } else {
                    (result matches Err(AirWinError::NetworkError(m)) && m@
                        == "AWDL initialization failed: "@ + why@) && final(self).spec_state()
                        == AwdlManagerState::Error
                },
            },
    {
        match outcome {
            Ok(_) => {
                self.daemon_ready = true;
                if self.config.auto_start {
                    self.start()
                } else {
                    Ok(DaemonStep::Nothing)
                }
            },
            Err(why) => self.daemon_failed("AWDL initialization failed: ", why),
        }
    }

    /// Begins starting. A disabled manager has nothing to do. Otherwise
    /// the manager is `Starting` and the daemon is to be started; without
    /// a daemon that is an error.
    pub fn start(&mut self) -> (result: AirWinResult<DaemonStep>)
        ensures
            final(self).same_but_state(old(self)),
            final(self).spec_config() == old(self).spec_config(),
            !old(self).spec_config().enabled ==> result == Ok::<DaemonStep, AirWinError>(
                DaemonStep::Nothing,
            ) && final(self).spec_state() == old(self).spec_state(),
            old(self).spec_config().enabled && old(self).has_daemon() ==> result == Ok::<
                DaemonStep,
                AirWinError,
            >(DaemonStep::Start) && final(self).spec_state() == AwdlManagerState::Starting,
            old(self).spec_config().enabled && !old(self).has_daemon() ==> (result matches Err(
                AirWinError::NetworkError(m),
            ) && m@ == "AWDL daemon not initialized"@) && final(self).spec_state()
                == AwdlManagerState::Error,
    {
        if !self.config.enabled {
            return Ok(DaemonStep::Nothing);
        }
        if self.daemon_ready {
            self.set_state(AwdlManagerState::Starting);
            Ok(DaemonStep::Start)
        } else {
            self.set_state(AwdlManagerState::Error);
            Err(AirWinError::NetworkError("AWDL daemon not initialized".to_string()))
        }
    }

    /// Takes the outcome of starting the daemon: once started the
    /// manager is `Running` and the peer table is to be swept
    /// periodically.
    pub fn daemon_started(&mut self, outcome: Result<(), String>) -> (result: AirWinResult<
        DaemonStep,
    >)
        ensures
            final(self).same_but_state(old(self)),
            match outcome {
                Ok(_) => result == Ok::<DaemonStep, AirWinError>(DaemonStep::Sweep) && final(self).spec_state() == AwdlManagerState::Running && final(self).spec_config() == old(self).spec_config(),
                Err(why) => if is_port_conflict(why@) {
                    result == Ok::<DaemonStep, AirWinError>(DaemonStep::Nothing) && final(self).spec_state() == AwdlManagerState::Stopped && !final(self).spec_config().enabled
                } else {
                    (result matches Err(AirWinError::NetworkError(m)) && m@
                        == "AWDL start failed: "@ + why@) && final(self).spec_state()
                        == AwdlManagerState::Error
                },
            },
    {
        match outcome {
            Ok(_) => {
                self.set_state(AwdlManagerState::Running);
                Ok(DaemonStep::Sweep)
            },
            Err(why) => self.daemon_failed("AWDL start failed: ", why),
        }
    }

    /// Begins stopping. With a daemon the manager is `Stopping` and the
    /// daemon is to be stopped; without one the manager is `Stopped` at
    /// once.
    pub fn stop(&mut self) -> (result: AirWinResult<DaemonStep>)
        ensures
            final(self).same_but_state(old(self)),
            final(self).spec_config() == old(self).spec_config(),
            old(self).has_daemon() ==> result == Ok::<DaemonStep, AirWinError>(DaemonStep::Stop)
                && final(self).spec_state() == AwdlManagerState::Stopping,
            !old(self).has_daemon() ==> result == Ok::<DaemonStep, AirWinError>(
                DaemonStep::Nothing,
            ) && final(self).spec_state() == AwdlManagerState::Stopped,
    {
        if self.daemon_ready {
            self.set_state(AwdlManagerState::Stopping);
            Ok(DaemonStep::Stop)
        } else {
            self.set_state(AwdlManagerState::Stopped);
            Ok(DaemonStep::Nothing)
        }
    }

    /// Takes the outcome of stopping the daemon.
    pub fn daemon_stopped(&mut self, outcome: Result<(), String>) -> (result: AirWinResult<()>)
        ensures
            final(self).same_but_state(old(self)),
            final(self).spec_config() == old(self).spec_config(),
            match outcome {
                Ok(_) => result is Ok && final(self).spec_state() == AwdlManagerState::Stopped,
                Err(why) => (result matches Err(AirWinError::NetworkError(m)) && m@
                    == "AWDL stop failed: "@ + why@) && final(self).spec_state()
                    == AwdlManagerState::Error,
            },
    {
        match outcome {
            Ok(_) => {
                self.set_state(AwdlManagerState::Stopped);
                Ok(())
            },
            Err(why) => {
                self.set_state(AwdlManagerState::Error);
                Err(
                    AirWinError::NetworkError(
                        "AWDL stop failed: ".to_string().concat(why.as_str()),
                    ),
                )
            },
        }
    }

    /// Replaces the configuration. A manager that runs is to be stopped,
    /// and to be initialized again when the new configuration enables
    /// it; the answer says so. A manager that does not run is left alone.
    pub fn update_config(&mut self, config: AwdlManagerConfig) -> (restart: Restart)
        ensures
            restart.stop == (old(self).spec_state() == AwdlManagerState::Running),
            restart.initialize == (old(self).spec_state() == AwdlManagerState::Running
                && config.enabled),
            final(self).spec_config() == config,
            final(self).spec_state() == old(self).spec_state(),
            final(self).has_daemon() == old(self).has_daemon(),
            final(self).spec_peers() == old(self).spec_peers(),
    {
        let was_running = self.state == AwdlManagerState::Running;
        let restart = Restart { stop: was_running, initialize: was_running && config.enabled };
        self.config = config;
        restart
    }

    /// The storage index of the peer of the given address.
    fn find_peer(&self, address: &[u8; 6]) -> (found: Option<usize>)
        ensures
            match found {
                Some(i) => address_at(self.spec_peers(), i as int, address@),
                None => !has_address(self.spec_peers(), address@),
            },
    {
        let mut i: usize = 0;
        while i < self.peers.len()
            invariant
                i <= self.peers@.len(),
                forall|j: int| 0 <= j < i ==> !address_at(self.peers@, j, address@),
            decreases self.peers@.len() - i,
        {
            let other = &self.peers[i].address;
            if other[0] == address[0] && other[1] == address[1] && other[2] == address[2]
                && other[3] == address[3] && other[4] == address[4] && other[5] == address[5] {
                assert(other@ =~= address@);
                return Some(i);
            }
            i += 1;
        }
        None
    }

    /// Takes a peer that the daemon reported: it replaces the peer of the
    /// same address in place, or is appended when its address is new.
    pub fn peer_reported(&mut self, peer: AwdlPeer)
        requires
            old(self).wf(),
        ensures
            final(self).wf(),
            final(self).spec_peers() == reported(old(self).spec_peers(), peer),
            final(self).spec_state() == old(self).spec_state(),
            final(self).spec_config() == old(self).spec_config(),
            final(self).has_daemon() == old(self).has_daemon(),
    {
        let ghost before = self.peers@;
        proof {
            lemma_reported(before, peer);
        }
        match self.find_peer(&peer.address) {
            Some(i) => {
                proof {
                    let at = choose|k: int| address_at(before, k, peer.address@);
                    assert(address_at(before, at, peer.address@));
                    assert(address_at(before, i as int, peer.address@));
                }
                self.peers.set(i, peer);
            },
            None => {
                self.peers.push(peer);
            },
        }
    }

    /// Forgets every reported peer.
    pub fn clear_peers(&mut self)
        ensures
            final(self).wf(),
            final(self).spec_peers().len() == 0,
            final(self).spec_state() == old(self).spec_state(),
            final(self).spec_config() == old(self).spec_config(),
            final(self).has_daemon() == old(self).has_daemon(),
    {
        self.peers.clear();
    }

    /// The periodic sweep: no peer is dropped for its age, and of more
    /// peers than the configuration allows, the first ones are kept.
    pub fn sweep_peers(&mut self)
        requires
            old(self).wf(),
        ensures
            final(self).wf(),
            final(self).spec_peers() == if old(self).spec_peers().len() > old(self).spec_config().max_peers {
                old(self).spec_peers().take(old(self).spec_config().max_peers as int)
            } else {
                old(self).spec_peers()
            },
            final(self).spec_peers().len() <= final(self).spec_config().max_peers,
            final(self).spec_state() == old(self).spec_state(),
            final(self).spec_config() == old(self).spec_config(),
            final(self).has_daemon() == old(self).has_daemon(),
    {
        if self.peers.len() > self.config.max_peers {
            self.peers.truncate(self.config.max_peers);
            assert(self.peers@ =~= old(self).peers@.take(self.config.max_peers as int));
            assert forall|i: int, a: Seq<u8>| address_at(self.peers@, i, a) implies address_at(
                old(self).peers@,
                i,
                a,
            ) by {}
        }
    }

    /// The peer listed for a reported peer.
    pub fn convert_peer_info(&self, peer: &AwdlPeer, now: i64) -> (info: AwdlPeerInfo)
        ensures
            is_listing_of(info, *peer, self.spec_config().service_name@, now),
    {
        AwdlPeerInfo {
            mac_address: peer.address,
            device_name: match &peer.name {
                Some(name) => name.clone(),
                None => "Unknown".to_string(),
            },
            service_name: self.config.service_name.clone(),
            last_seen: now,
            signal_strength: None,
            capabilities: Vec::new(),
        }
    }

    /// The reported peers as listed at the time `now`, in order.
    pub fn get_peers(&self, now: i64) -> (listed: Vec<AwdlPeerInfo>)
        ensures
            listed@.len() == self.spec_peers().len(),
            forall|i: int|
                0 <= i < listed@.len() ==> is_listing_of(
                    #[trigger] listed@[i],
                    self.spec_peers()[i],
                    self.spec_config().service_name@,
                    now,
                ),
    {
        let mut listed: Vec<AwdlPeerInfo> = Vec::new();
        let mut i: usize = 0;
        while i < self.peers.len()
            invariant
                i <= self.peers@.len(),
                listed@.len() == i,
                forall|j: int|
                    0 <= j < i ==> is_listing_of(
                        #[trigger] listed@[j],
                        self.peers@[j],
                        self.config.service_name@,
                        now,
                    ),
            decreases self.peers@.len() - i,
        {
            listed.push(self.convert_peer_info(&self.peers[i], now));
            i += 1;
        }
        listed
    }

    /// The frame that carries `data` to a peer: an IPv4 frame from the
    /// unset source address. Without a daemon there is nothing to send
    /// with.
    pub fn send_data(&self, peer_mac: [u8; 6], data: &[u8]) -> (result: AirWinResult<AwdlFrame>)
        ensures
            self.has_daemon() ==> (result matches Ok(frame) && frame.destination@ == peer_mac@
                && frame.source@ == seq![0u8, 0u8, 0u8, 0u8, 0u8, 0u8] && frame.ether_type
                == ETHER_TYPE_IP && frame.payload@ == data@),
            !self.has_daemon() ==> (result matches Err(AirWinError::NetworkError(m)) && m@
                == "AWDL daemon not available"@),
    {
        if !self.daemon_ready {
            return Err(AirWinError::NetworkError("AWDL daemon not available".to_string()));
        }
        let source: [u8; 6] = [0, 0, 0, 0, 0, 0];
        assert(source@ =~= seq![0u8, 0u8, 0u8, 0u8, 0u8, 0u8]);
        let len: usize = data.len();
        let payload = crate::utils::bytes::copy_range(data, 0, len);
        assert(payload@ =~= data@);
        Ok(AwdlFrame { destination: peer_mac, source, ether_type: ETHER_TYPE_IP, payload })
    }

    /// One frame with `data` for each reported peer, in order. A peer
    /// that cannot be sent to is skipped, so that without a daemon there
    /// is no frame at all; broadcasting itself never fails.
    pub fn broadcast_data(&self, data: &[u8]) -> (result: AirWinResult<Vec<AwdlFrame>>)
        ensures
            result matches Ok(frames) && if self.has_daemon() {
                frames@.len() == self.spec_peers().len() && forall|i: int|
                    0 <= i < frames@.len() ==> (#[trigger] frames@[i]).destination@
                        == self.spec_peers()[i].address@ && frames@[i].payload@ == data@
                        && frames@[i].ether_type == ETHER_TYPE_IP
            } else {
                frames@.len() == 0
            },
    {
        let mut frames: Vec<AwdlFrame> = Vec::new();
        let mut i: usize = 0;
        while i < self.peers.len()
            invariant
                i <= self.peers@.len(),
                if self.has_daemon() {
                    frames@.len() == i && forall|j: int|
                        0 <= j < i ==> (#[trigger] frames@[j]).destination@
                            == self.peers@[j].address@ && frames@[j].payload@ == data@
                            && frames@[j].ether_type == ETHER_TYPE_IP
                } else {
                    frames@.len() == 0
                },
            decreases self.peers@.len() - i,
        {
            match self.send_data(self.peers[i].address, data) {
                Ok(frame) => {
                    frames.push(frame);
                },
                Err(_) => {},
            }
            i += 1;
        }
        Ok(frames)
    }
}

/// Helpers around hardware addresses and platform support.
pub struct AwdlUtils;

impl AwdlUtils {
    /// Whether AWDL is supported on this system. No platform is ruled
    /// out.
    pub fn is_supported() -> (supported: bool)
        ensures
            supported,
    {
        true
    }

    /// The interfaces that AWDL could use. None is enumerated.
    pub fn get_available_interfaces() -> (interfaces: Vec<String>)
        ensures
            interfaces@.len() == 0,
    {
        Vec::new()
    }

    /// Whether a hardware address is usable.
    pub fn validate_mac_address(mac: &[u8; 6]) -> (valid: bool)
        ensures
            valid == is_valid_mac(mac@),
    {
        let mut all_zero = true;
        let mut all_ones = true;
        let mut i: usize = 0;
        while i < 6
            invariant
                i <= 6,
                all_zero == (forall|j: int| 0 <= j < i ==> mac@[j] == 0u8),
                all_ones == (forall|j: int| 0 <= j < i ==> mac@[j] == 0xffu8),
            decreases 6 - i,
        {
            if mac[i] != 0 {
                all_zero = false;
            }
            if mac[i] != 0xff {
                all_ones = false;
            }
            i += 1;
        }
        !all_zero && !all_ones
    }

    /// The text of a hardware address.
    pub fn format_mac_address(mac: &[u8; 6]) -> (text: String)
        ensures
            text@ == mac_text(mac@),
            text@.len() == 17,
    {
        let bytes = array_as_slice(mac);
        let mut text = encode_hex(vstd::slice::slice_subrange(bytes, 0, 1));
        text.append(":");
        text.append(encode_hex(vstd::slice::slice_subrange(bytes, 1, 2)).as_str());
        text.append(":");
        text.append(encode_hex(vstd::slice::slice_subrange(bytes, 2, 3)).as_str());
        text.append(":");
        text.append(encode_hex(vstd::slice::slice_subrange(bytes, 3, 4)).as_str());
        text.append(":");
        text.append(encode_hex(vstd::slice::slice_subrange(bytes, 4, 5)).as_str());
        text.append(":");
        text.append(encode_hex(vstd::slice::slice_subrange(bytes, 5, 6)).as_str());
        proof {
            reveal_strlit(":");
        }
        text
    }
}

} // verus!
