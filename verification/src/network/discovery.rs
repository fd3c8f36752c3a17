//! The mDNS catalog: which services are browsed, and how resolved
//! services enter the table of discovered devices.

use vstd::prelude::*;
use crate::network::address::IpAddress;
use crate::network::interface::{joined_addresses, select_addresses, JoinPolicy, NetworkManager};
use crate::protocols::txt_records::TxtRecords;
use crate::utils::error::AirWinError;
use crate::utils::text::same_text;

verus! {

/// The kind of service a device was discovered by.
#[derive(Clone, Copy, Debug, PartialEq, Eq, Structural)]
pub enum ServiceType {
    AirPlay,
    AirDrop,
    Raop,
    Companion,
    DeviceInfo,
    IosMobile,
    IosPairable,
    IosContinuity,
    DnsService,
    Homekit,
    AirPrint,
    AppleTV,
    RemoteDevice,
    HomeSharing,
    AppleMidi,
    AirPort,
    AppleAuth,
    Presence,
}

/// A device found by mDNS.
#[derive(Debug)]
pub struct DiscoveredDevice {
    pub name: String,
    pub address: IpAddress,
    pub port: u16,
    pub service_type: ServiceType,
    pub txt_records: TxtRecords,
}

/// A discovered device as a plain value.
pub struct DeviceView {
    pub name: Seq<char>,
    pub address: IpAddress,
    pub port: u16,
    pub service_type: ServiceType,
    pub txt_records: Map<Seq<char>, Seq<char>>,
}

impl View for DiscoveredDevice {
    type V = DeviceView;

    open spec fn view(&self) -> DeviceView {
        DeviceView {
            name: self.name@,
            address: self.address,
            port: self.port,
            service_type: self.service_type,
            txt_records: self.txt_records@,
        }
    }
}

impl Clone for DiscoveredDevice {
    fn clone(&self) -> (copy: Self)
        ensures
            copy@ == self@,
            copy.txt_records.pairs() == self.txt_records.pairs(),
    {
        DiscoveredDevice {
            name: self.name.clone(),
            address: self.address,
            port: self.port,
            service_type: self.service_type,
            txt_records: self.txt_records.clone(),
        }
    }
}

/// The devices of a list as plain values.
pub open spec fn device_views(devices: Seq<DiscoveredDevice>) -> Seq<DeviceView> {
    Seq::new(devices.len(), |i: int| devices[i]@)
}

/// Entry `i` of the catalog has the given name.
pub open spec fn named_at(catalog: Seq<DeviceView>, i: int, name: Seq<char>) -> bool {
    0 <= i < catalog.len() && catalog[i].name == name
}

/// No two entries of the catalog have the same name.
pub open spec fn distinct_names(catalog: Seq<DeviceView>) -> bool {
    forall|i: int, j: int, name: Seq<char>|
        #[trigger] named_at(catalog, i, name) && #[trigger] named_at(catalog, j, name) ==> i == j
}

/// The catalog holds an entry of the given name.
pub open spec fn has_name(catalog: Seq<DeviceView>, name: Seq<char>) -> bool {
    exists|i: int| named_at(catalog, i, name)
}

/// The catalog after a device was entered: the entry of its name is
/// replaced in place, or the device is appended when its name is new.
pub open spec fn entered(catalog: Seq<DeviceView>, device: DeviceView) -> Seq<DeviceView> {
    if has_name(catalog, device.name) {
        catalog.update(choose|i: int| named_at(catalog, i, device.name), device)
    } else {
        catalog.push(device)
    }
}

/// The service types that are browsed, in order.
pub open spec fn browsed_types() -> Seq<Seq<char>> {
    seq![
        "_airplay._tcp.local."@,
        "_raop._tcp.local."@,
        "_airdrop._tcp.local."@,
        "_airdrop._udp.local."@,
        "_companion-link._tcp.local."@,
        "_device-info._tcp.local."@,
    ]
}

/// The kind of a browsed service type. A type that is none of the named
/// ones counts as Device-Info.
pub open spec fn service_type_of(service_type: Seq<char>) -> ServiceType {
    if service_type == "_airplay._tcp.local."@ {
        ServiceType::AirPlay
    } else if service_type == "_raop._tcp.local."@ {
        ServiceType::Raop
    } else if service_type == "_airdrop._tcp.local."@ || service_type == "_airdrop._udp.local."@ {
        ServiceType::AirDrop
    } else if service_type == "_companion-link._tcp.local."@ {
        ServiceType::Companion
    } else {
        ServiceType::DeviceInfo
    }
}

/// The kind of a browsed service type.
pub fn service_type_for(service_type: &str) -> (kind: ServiceType)
    ensures
        kind == service_type_of(service_type@),
{
    if same_text(service_type, "_airplay._tcp.local.") {
        ServiceType::AirPlay
    } else if same_text(service_type, "_raop._tcp.local.") {
        ServiceType::Raop
    } else if same_text(service_type, "_airdrop._tcp.local.") || same_text(
        service_type,
        "_airdrop._udp.local.",
    ) {
        ServiceType::AirDrop
    } else if same_text(service_type, "_companion-link._tcp.local.") {
        ServiceType::Companion
    } else {
        ServiceType::DeviceInfo
    }
}

/// Entering a device keeps the names distinct; it keeps the catalog's
/// size when the name was known and adds one entry when it was new.
pub proof fn lemma_entered(catalog: Seq<DeviceView>, device: DeviceView)
    requires
        distinct_names(catalog),
    ensures
        distinct_names(entered(catalog, device)),
        has_name(entered(catalog, device), device.name),
        entered(catalog, device).len() == if has_name(catalog, device.name) {
            catalog.len()
        } else {
            catalog.len() + 1
        },
        forall|i: int|
            0 <= i < entered(catalog, device).len() ==> #[trigger] entered(catalog, device)[i]
                == if named_at(entered(catalog, device), i, device.name) {
                device
            } else {
                catalog[i]
            },
{
    let after = entered(catalog, device);
    if has_name(catalog, device.name) {
        let at = choose|i: int| named_at(catalog, i, device.name);
        assert(named_at(catalog, at, device.name));
        assert forall|i: int, name: Seq<char>| named_at(after, i, name) == named_at(
            catalog,
            i,
            name,
        ) by {}
        assert(named_at(after, at, device.name));
        assert forall|i: int| 0 <= i < after.len() implies #[trigger] after[i] == if named_at(
            after,
            i,
            device.name,
        ) {
            device
        } else {
            catalog[i]
        } by {
            if named_at(after, i, device.name) {
                assert(named_at(catalog, i, device.name));
                assert(i == at);
            }
        }
    } else {
        let n = catalog.len() as int;
        assert(named_at(after, n, device.name));
        assert forall|i: int, name: Seq<char>| i < n implies named_at(after, i, name) == named_at(
            catalog,
            i,
            name,
        ) by {}
        assert forall|i: int, j: int, name: Seq<char>| #[trigger]
            named_at(after, i, name) && #[trigger] named_at(after, j, name) implies i == j by {
            if i < n {
                assert(named_at(catalog, i, name));
            }
            if j < n {
                assert(named_at(catalog, j, name));
            }
        }
        assert forall|i: int| 0 <= i < after.len() implies #[trigger] after[i] == if named_at(
            after,
            i,
            device.name,
        ) {
            device
        } else {
            catalog[i]
        } by {
            if i < n {
                if named_at(after, i, device.name) {
                    assert(named_at(catalog, i, device.name));
                }
            }
        }
    }
}

/// Entering the same device twice is the same as entering it once.
pub proof fn lemma_entering_is_idempotent(catalog: Seq<DeviceView>, device: DeviceView)
    requires
        distinct_names(catalog),
    ensures
        entered(entered(catalog, device), device) == entered(catalog, device),
{
    let once = entered(catalog, device);
    lemma_entered(catalog, device);
    let at = choose|i: int| named_at(once, i, device.name);
    assert(named_at(once, at, device.name));
    assert(once[at] == device);
    assert(once.update(at, device) =~= once);
}

/// The mDNS side of discovery: whether it runs, and what it found.
#[derive(Debug)]
pub struct DeviceDiscovery {
    running: bool,
    devices: Vec<DiscoveredDevice>,
    network_manager: NetworkManager,
}

impl DeviceDiscovery {
    /// Whether the browsers run.
    pub closed spec fn is_running(&self) -> bool {
        self.running
    }

    /// The table of discovered devices, in the order they were first
    /// seen.
    pub closed spec fn catalog(&self) -> Seq<DeviceView> {
        device_views(self.devices@)
    }

    /// The network state that discovery runs over.
    pub closed spec fn network(&self) -> NetworkManager {
        self.network_manager
    }

    /// Every device's records are well-formed.
    pub closed spec fn records_wf(&self) -> bool {
        forall|i: int|
            0 <= i < self.devices@.len() ==> (#[trigger] self.devices@[i]).txt_records.wf()
    }

    /// Names are distinct and every device's records are well-formed.
    pub open spec fn wf(&self) -> bool {
        distinct_names(self.catalog()) && self.records_wf()
    }

    /// Checks that the network can carry mDNS, given the outcome of
    /// binding a socket and of listing the interfaces. It fails when
    /// either failed and when there is no interface to join the group
    /// on; otherwise it gives the addresses to join on.
    pub fn check_network_availability(
        bound: Result<(), String>,
        listed: Result<Vec<(String, IpAddress)>, String>,
    ) -> (result: Result<Vec<u32>, AirWinError>)
        ensures
            match (bound, listed) {
                (Err(why), _) => result matches Err(AirWinError::NetworkError(m)) && m@ == why@,
                (Ok(_), Err(why)) => result matches Err(AirWinError::NetworkError(m)) && m@
                    == why@,
                (Ok(_), Ok(found)) => if joined_addresses(found@, JoinPolicy::Discovery).len()
                    > 0 {
                    result matches Ok(targets) && targets@ == joined_addresses(
                        found@,
                        JoinPolicy::Discovery,
                    )
                } else {
                    result matches Err(AirWinError::InvalidInterface(m)) && m@
                        == "No valid network interfaces"@
                },
            },
    {
        match bound {
            Err(why) => {
                return Err(AirWinError::NetworkError(why));
            },
            Ok(_) => {},
        }
        let found = match listed {
            Err(why) => {
                return Err(AirWinError::NetworkError(why));
            },
            Ok(found) => found,
        };
        let targets = select_addresses(&found, JoinPolicy::Discovery);
        if targets.len() == 0 {
            return Err(AirWinError::InvalidInterface("No valid network interfaces".to_string()));
        }
        Ok(targets)
    }

    /// Discovery over the given network state: stopped, with nothing
    /// found.
    pub fn new(network_manager: NetworkManager) -> (discovery: Self)
        ensures
            discovery.wf(),
            discovery.network() == network_manager,
            !discovery.is_running(),
            discovery.catalog().len() == 0,
    {
        DeviceDiscovery { running: false, devices: Vec::new(), network_manager }
    }

    pub fn network_manager(&self) -> (manager: &NetworkManager)
        ensures
            *manager == self.network(),
    {
        &self.network_manager
    }

    pub fn running(&self) -> (running: bool)
        ensures
            running == self.is_running(),
    {
        self.running
    }

    /// Starts discovery. It returns the service types to open a browser
    /// for: every browsed type when discovery was stopped, none when it
    /// runs already, so that starting twice opens no browser twice. The
    /// catalog is not touched.
    pub fn start_discovery(&mut self) -> (browse: Vec<String>)
        requires
            old(self).wf(),
        ensures
            final(self).wf(),
            final(self).is_running(),
            final(self).catalog() == old(self).catalog(),
            old(self).is_running() ==> browse@.len() == 0,
            !old(self).is_running() ==> browse@.len() == browsed_types().len() && forall|i: int|
                0 <= i < browse@.len() ==> (#[trigger] browse@[i])@ == browsed_types()[i],
    {
        let mut browse: Vec<String> = Vec::new();
        if self.running {
            return browse;
        }
        self.running = true;
        browse.push("_airplay._tcp.local.".to_string());
        browse.push("_raop._tcp.local.".to_string());
        browse.push("_airdrop._tcp.local.".to_string());
        browse.push("_airdrop._udp.local.".to_string());
        browse.push("_companion-link._tcp.local.".to_string());
        browse.push("_device-info._tcp.local.".to_string());
        browse
    }

    /// The storage index of the device of the given name.
    fn find(&self, name: &str) -> (found: Option<usize>)
        ensures
            match found {
                Some(i) => named_at(self.catalog(), i as int, name@),
                None => !has_name(self.catalog(), name@),
            },
    {
        let mut i: usize = 0;
        while i < self.devices.len()
            invariant
                i <= self.devices@.len(),
                forall|j: int| 0 <= j < i ==> !named_at(self.catalog(), j, name@),
            decreases self.devices@.len() - i,
        {
            if same_text(self.devices[i].name.as_str(), name) {
                return Some(i);
            }
            i += 1;
        }
        None
    }

    /// Takes a resolved service. While discovery runs, a service with an
    /// address enters the catalog under its full name, with the first of
    /// its addresses; one without an address, or one that comes while
    /// discovery is stopped, is dropped. It returns whether the service
    /// entered the catalog.
    pub fn service_resolved(
        &mut self,
        service_type: &str,
        fullname: String,
        addresses: &Vec<u32>,
        port: u16,
        properties: TxtRecords,
    ) -> (entered_catalog: bool)
        requires
            old(self).wf(),
            properties.wf(),
        ensures
            final(self).wf(),
            final(self).is_running() == old(self).is_running(),
            entered_catalog == (old(self).is_running() && addresses@.len() > 0),
            entered_catalog ==> final(self).catalog() == entered(
                old(self).catalog(),
                DeviceView {
                    name: fullname@,
                    address: IpAddress::V4(addresses@[0]),
                    port,
                    service_type: service_type_of(service_type@),
                    txt_records: properties@,
                },
            ),
            !entered_catalog ==> final(self).catalog() == old(self).catalog(),
    {
        if !self.running || addresses.len() == 0 {
            return false;
        }
        let device = DiscoveredDevice {
            name: fullname,
            address: IpAddress::V4(addresses[0]),
            port,
            service_type: service_type_for(service_type),
            txt_records: properties,
        };
        let ghost before = self.catalog();
        let ghost view = device@;
        proof {
            lemma_entered(before, view);
        }
        match self.find(device.name.as_str()) {
            Some(i) => {
                proof {
                    let at = choose|k: int| named_at(before, k, view.name);
                    assert(named_at(before, at, view.name));
                    assert(named_at(before, i as int, view.name));
                    assert(at == i);
                }
                self.devices.set(i, device);
                assert(self.catalog() =~= before.update(i as int, view));
            },
            None => {
                self.devices.push(device);
                assert(self.catalog() =~= before.push(view));
            },
        }
        true
    }

    /// Stops discovery and clears the catalog.
    pub fn stop_discovery(&mut self)
        ensures
            final(self).wf(),
            !final(self).is_running(),
            final(self).catalog().len() == 0,
    {
        self.running = false;
        self.devices.clear();
    }

    /// A copy of the catalog.
    pub fn get_devices(&self) -> (devices: Result<Vec<DiscoveredDevice>, AirWinError>)
        ensures
            devices matches Ok(list) && device_views(list@) == self.catalog(),
            self.wf() ==> forall|i: int|
                0 <= i < devices->Ok_0@.len() ==> (#[trigger] devices->Ok_0@[i]).txt_records.wf(),
    {
        let mut list: Vec<DiscoveredDevice> = Vec::new();
        let mut i: usize = 0;
        while i < self.devices.len()
            invariant
                i <= self.devices@.len(),
                list@.len() == i,
                forall|j: int| 0 <= j < i ==> (#[trigger] list@[j])@ == self.devices@[j]@,
                forall|j: int|
                    0 <= j < i ==> (#[trigger] list@[j]).txt_records.pairs()
                        == self.devices@[j].txt_records.pairs(),
            decreases self.devices@.len() - i,
        {
            list.push(self.devices[i].clone());
            i += 1;
        }
        assert(device_views(list@) =~= self.catalog());
        Ok(list)
    }
}

} // verus!
