//! The AirDrop endpoint: what it advertises, where it listens, and how
//! its status moves while it serves and sends.

use vstd::prelude::*;
use crate::network::address::IpAddress;
use crate::network::interface::{joined_addresses, select_addresses, JoinPolicy};
use crate::protocols::apple_records::AppleRecords;
use crate::protocols::legacy::{media_type_for_name, AirDropHandshake, FileTransfer};
use crate::protocols::status::{
    status_after, EventView, Progress, StatusView, TransferEvent,
};
use crate::protocols::txt_records::TxtRecords;
use crate::utils::error::AirWinError;
use crate::utils::system::{is_hyphenated_uuid, system_hostname};

pub use crate::protocols::status::AirDropStatus;

verus! {

/// The port of the HTTPS dialect, AirDrop's standard port.
pub const AIRDROP_PORT: u16 = 8771;

/// The port of the legacy dialect and of the multicast socket.
pub const LEGACY_PORT: u16 = 7000;

/// The port advertised for the Companion-Link service.
pub const COMPANION_PORT: u16 = 7001;

/// The port advertised for the Device-Info service.
pub const DEVICE_INFO_PORT: u16 = 7002;

/// Seconds after which connection setup is abandoned.
pub const SETUP_TIMEOUT_SECS: u64 = 15;

/// One service to register with the mDNS responder.
#[derive(Debug)]
pub struct ServiceRegistration {
    pub service_type: String,
    pub instance_name: String,
    pub domain: String,
    pub port: u16,
    pub properties: TxtRecords,
}

impl ServiceRegistration {
    /// This registration is for the given type, instance, port and
    /// properties, in the local domain.
    pub open spec fn is_for(
        &self,
        service_type: Seq<char>,
        instance_name: Seq<char>,
        port: u16,
        properties: Map<Seq<char>, Seq<char>>,
    ) -> bool {
        &&& self.service_type@ == service_type
        &&& self.instance_name@ == instance_name
        &&& self.domain@ == "local."@
        &&& self.port == port
        &&& self.properties@ == properties
        &&& self.properties.wf()
    }
}

/// The listeners of an endpoint that are bound.
#[derive(Debug, Clone, Copy, PartialEq, Eq, Structural)]
pub struct Listeners {
    /// The HTTPS dialect, on the standard port.
    pub https: bool,
    /// The legacy dialect over IPv4.
    pub legacy_v4: bool,
    /// The legacy dialect over IPv6.
    pub legacy_v6: bool,
}

/// The endpoint's state.
#[derive(Debug)]
pub struct AirDrop {
    status: AirDropStatus,
    transfer_progress: Progress,
    current_file: Option<String>,
    connection_open: bool,
    listeners: Listeners,
}

impl AirDrop {
    /// The endpoint's status.
    pub closed spec fn state(&self) -> StatusView {
        self.status@
    }

    /// Whether a connection to a peer stands ready for sending.
    pub closed spec fn has_connection(&self) -> bool {
        self.connection_open
    }

    /// The listeners that are bound.
    pub closed spec fn bound(&self) -> Listeners {
        self.listeners
    }

    /// Everything but the status is as in `before`.
    pub open spec fn same_but_status(&self, before: &AirDrop) -> bool {
        &&& self.has_connection() == before.has_connection()
        &&& self.progress() == before.progress()
        &&& self.last_file() == before.last_file()
        &&& self.bound() == before.bound()
    }

    /// The progress of the transfer last begun.
    pub closed spec fn progress(&self) -> Progress {
        self.transfer_progress
    }

    /// The path of the file last sent, if any.
    pub closed spec fn last_file(&self) -> Option<Seq<char>> {
        match self.current_file {
            Some(path) => Some(path@),
            None => None,
        }
    }

    pub fn new() -> (endpoint: Self)
        ensures
            endpoint.state() == StatusView::Idle,
            !endpoint.has_connection(),
            endpoint.progress() == (Progress { transferred: 0, total: 0 }),
            endpoint.last_file() is None,
            endpoint.bound() == (Listeners { https: false, legacy_v4: false, legacy_v6: false }),
    {
        AirDrop {
            status: AirDropStatus::Idle,
            transfer_progress: Progress { transferred: 0, total: 0 },
            current_file: None,
            connection_open: false,
            listeners: Listeners { https: false, legacy_v4: false, legacy_v6: false },
        }
    }

    pub fn listeners(&self) -> (listeners: Listeners)
        ensures
            listeners == self.bound(),
    {
        self.listeners
    }

    pub fn get_status(&self) -> (status: AirDropStatus)
        ensures
            status@ == self.state(),
    {
        self.status.clone()
    }

    pub fn transfer_progress(&self) -> (progress: Progress)
        ensures
            progress == self.progress(),
    {
        self.transfer_progress
    }

    pub fn current_file(&self) -> (path: Option<String>)
        ensures
            match path {
                Some(p) => self.last_file() == Some(p@),
                None => self.last_file() is None,
            },
    {
        match &self.current_file {
            Some(p) => Some(p.clone()),
            None => None,
        }
    }

    /// Moves the status by one event; nothing else changes.
    fn step(&mut self, event: TransferEvent)
        ensures
            final(self).state() == status_after(old(self).state(), event@),
            final(self).same_but_status(old(self)),
    {
        let mut status = AirDropStatus::Idle;
        core::mem::swap(&mut status, &mut self.status);
        self.status = status.apply(event);
    }

    /// Records that a connection to a peer stands ready for sending.
    pub fn connection_established(&mut self)
        ensures
            final(self).has_connection(),
            final(self).state() == old(self).state(),
            final(self).progress() == old(self).progress(),
            final(self).last_file() == old(self).last_file(),
            final(self).bound() == old(self).bound(),
    {
        self.connection_open = true;
    }

    /// Begins starting the server: the status becomes `Connecting` while
    /// the services are registered and the listeners bound.
    pub fn start_server(&mut self)
        ensures
            final(self).state() == StatusView::Connecting,
            final(self).same_but_status(old(self)),
    {
        self.step(TransferEvent::StartServer);
    }

    /// Takes the outcome of binding the listeners. The HTTPS listener is
    /// the primary one: without it the start fails with its reason and
    /// no listener counts as bound. Failing to bind a legacy listener,
    /// on IPv4 or IPv6, is no failure.
    pub fn listeners_bound(
        &mut self,
        https: Result<(), String>,
        legacy_v4: bool,
        legacy_v6: bool,
    ) -> (result: Result<(), AirWinError>)
        ensures
            match https {
                Ok(_) => result is Ok && final(self).state() == status_after(
                    old(self).state(),
                    EventView::ListenerBound,
                ) && final(self).bound() == (Listeners { https: true, legacy_v4, legacy_v6 }),
                Err(why) => (result matches Err(AirWinError::NetworkError(m)) && m@ == why@)
                    && final(self).state() == StatusView::Failed(why@) && final(self).bound() == (
                Listeners { https: false, legacy_v4: false, legacy_v6: false }),
            },
            old(self).state() is Connecting && https is Ok ==> final(self).state()
                == StatusView::Connected,
            final(self).has_connection() == old(self).has_connection(),
            final(self).progress() == old(self).progress(),
            final(self).last_file() == old(self).last_file(),
    {
        match https {
            Ok(_) => {
                self.step(TransferEvent::ListenerBound);
                self.listeners = Listeners { https: true, legacy_v4, legacy_v6 };
                Ok(())
            },
            Err(why) => {
                self.step(TransferEvent::Fault(why.clone()));
                self.listeners = Listeners { https: false, legacy_v4: false, legacy_v6: false };
                Err(AirWinError::NetworkError(why))
            },
        }
    }

    /// Begins sending a file over the connection that stands ready. The
    /// status becomes `Connecting`. Without a connection it becomes
    /// `Failed` and nothing is sent; with one, the connection is taken
    /// and the handshake to open the session with is returned.
    pub fn send_file(&mut self, file_name: &str, size: u64) -> (result: Result<
        AirDropHandshake,
        AirWinError,
    >)
        ensures
            old(self).has_connection() ==> {
                &&& result matches Ok(handshake)
                &&& is_send_handshake(handshake, "AirDrop"@, file_name@, size)
                &&& final(self).state() == StatusView::Connecting
                &&& !final(self).has_connection()
            },
            !old(self).has_connection() ==> {
                &&& result matches Err(AirWinError::Other(m))
                &&& m@ == "No active connection available"@
                &&& final(self).state() == StatusView::Failed("No active connection available"@)
                &&& !final(self).has_connection()
            },
            final(self).progress() == old(self).progress(),
            final(self).last_file() == old(self).last_file(),
            final(self).bound() == old(self).bound(),
    {
        self.step(TransferEvent::SendRequested);
        if self.connection_open {
            self.connection_open = false;
            Ok(Self::handshake_for("AirDrop", file_name, size))
        } else {
            self.step(TransferEvent::Fault("No active connection available".to_string()));
            Err(AirWinError::Other("No active connection available".to_string()))
        }
    }

    /// Begins sending a file to a peer that is yet to be connected to:
    /// the status becomes `Connecting`, and the handshake to open the
    /// session with is returned.
    pub fn send_file_to(&mut self, file_name: &str, size: u64) -> (handshake: AirDropHandshake)
        ensures
            is_send_handshake(handshake, "AirWin"@, file_name@, size),
            final(self).state() == StatusView::Connecting,
            final(self).same_but_status(old(self)),
    {
        self.step(TransferEvent::SendRequested);
        Self::handshake_for("AirWin", file_name, size)
    }

    fn handshake_for(receiver: &str, file_name: &str, size: u64) -> (handshake: AirDropHandshake)
        ensures
            is_send_handshake(handshake, receiver@, file_name@, size),
    {
        let mut files: Vec<FileTransfer> = Vec::new();
        files.push(FileTransfer::describe(file_name, size));
        AirDropHandshake { sender: "AirWin".to_string(), receiver: receiver.to_string(), files }
    }

    /// The handshake went through: a transfer of `total` bytes begins at
    /// zero.
    pub fn transfer_started(&mut self, total: u64)
        ensures
            final(self).state() == status_after(
                old(self).state(),
                EventView::TransferStarted { total },
            ),
            final(self).progress() == (Progress { transferred: 0, total }),
            final(self).has_connection() == old(self).has_connection(),
            final(self).last_file() == old(self).last_file(),
            final(self).bound() == old(self).bound(),
    {
        self.step(TransferEvent::TransferStarted { total });
        self.transfer_progress = Progress::start(total);
    }

    /// One more chunk went over the wire.
    pub fn chunk_moved(&mut self, bytes: u64)
        ensures
            final(self).state() == status_after(old(self).state(), EventView::ChunkMoved { bytes }),
            final(self).progress() == old(self).progress().advanced(bytes),
            final(self).progress().percent() >= old(self).progress().percent(),
            final(self).has_connection() == old(self).has_connection(),
            final(self).last_file() == old(self).last_file(),
            final(self).bound() == old(self).bound(),
    {
        self.step(TransferEvent::ChunkMoved { bytes });
        self.transfer_progress = self.transfer_progress.advance(bytes);
    }

    /// The file's end was reached: the status settles back to
    /// `Connected` and the file is remembered as the one last sent.
    pub fn transfer_finished(&mut self, path: String)
        ensures
            final(self).state() == status_after(old(self).state(), EventView::EndOfFile),
            final(self).last_file() == Some(path@),
            final(self).progress() == old(self).progress(),
            final(self).has_connection() == old(self).has_connection(),
            final(self).bound() == old(self).bound(),
    {
        self.step(TransferEvent::EndOfFile);
        self.current_file = Some(path);
    }

    /// An inbound transfer is over: the status settles back to
    /// `Connected`. The file last sent stays what it was.
    pub fn inbound_finished(&mut self)
        ensures
            final(self).state() == status_after(old(self).state(), EventView::EndOfFile),
            final(self).same_but_status(old(self)),
    {
        self.step(TransferEvent::EndOfFile);
    }

    /// An I/O operation failed: the status becomes `Failed` with the
    /// reason, whatever it was before.
    pub fn fail(&mut self, reason: String)
        ensures
            final(self).state() == StatusView::Failed(reason@),
            final(self).same_but_status(old(self)),
    {
        self.step(TransferEvent::Fault(reason));
    }

    /// Connection setup exceeded its deadline.
    pub fn timed_out(&mut self)
        ensures
            final(self).state() == StatusView::Failed("timeout"@),
            final(self).same_but_status(old(self)),
    {
        self.step(TransferEvent::Timeout);
    }

    /// The addresses on which the multicast socket joins the mDNS group:
    /// those of the listed IPv4 interfaces that are neither loopback,
    /// multicast nor link-local.
    pub fn setup_multicast(listed: &Vec<(String, IpAddress)>) -> (targets: Vec<u32>)
        ensures
            targets@ == joined_addresses(listed@, JoinPolicy::Advertising),
    {
        select_addresses(listed, JoinPolicy::Advertising)
    }

    /// The four services an endpoint registers: AirDrop over TCP and
    /// over UDP on the standard port, Companion-Link and Device-Info.
    pub fn mdns_services(
        host: &str,
        airdrop: TxtRecords,
        companion: TxtRecords,
        device_info: TxtRecords,
    ) -> (services: Vec<ServiceRegistration>)
        requires
            airdrop.wf(),
            companion.wf(),
            device_info.wf(),
        ensures
            services@.len() == 4,
            services@[0].is_for("_airdrop._tcp.local."@, host@, AIRDROP_PORT, airdrop@),
            services@[1].is_for("_airdrop._udp.local."@, host@, AIRDROP_PORT, airdrop@),
            services@[2].is_for("_companion-link._tcp.local."@, host@, COMPANION_PORT, companion@),
            services@[3].is_for("_device-info._tcp.local."@, host@, DEVICE_INFO_PORT, device_info@),
    {
        let mut services: Vec<ServiceRegistration> = Vec::new();
        let airdrop_copy = airdrop.clone();
        services.push(
            ServiceRegistration {
                service_type: "_airdrop._tcp.local.".to_string(),
                instance_name: host.to_string(),
                domain: "local.".to_string(),
                port: AIRDROP_PORT,
                properties: airdrop_copy,
            },
        );
        services.push(
            ServiceRegistration {
                service_type: "_airdrop._udp.local.".to_string(),
                instance_name: host.to_string(),
                domain: "local.".to_string(),
                port: AIRDROP_PORT,
                properties: airdrop,
            },
        );
        services.push(
            ServiceRegistration {
                service_type: "_companion-link._tcp.local.".to_string(),
                instance_name: host.to_string(),
                domain: "local.".to_string(),
                port: COMPANION_PORT,
                properties: companion,
            },
        );
        services.push(
            ServiceRegistration {
                service_type: "_device-info._tcp.local.".to_string(),
                instance_name: host.to_string(),
                domain: "local.".to_string(),
                port: DEVICE_INFO_PORT,
                properties: device_info,
            },
        );
        services
    }

    /// The services to register, for the outcome of asking the host's
    /// name and fresh records of each kind.
    pub fn mdns_services_for(
        host: Result<String, String>,
        airdrop: TxtRecords,
        companion: TxtRecords,
        device_info: TxtRecords,
    ) -> (result: Result<Vec<ServiceRegistration>, AirWinError>)
        requires
            airdrop.wf(),
            companion.wf(),
            device_info.wf(),
        ensures
            match host {
                Ok(name) => result matches Ok(services) && services@.len() == 4 && services@[0].is_for(
                    "_airdrop._tcp.local."@,
                    name@,
                    AIRDROP_PORT,
                    airdrop@,
                ) && services@[1].is_for("_airdrop._udp.local."@, name@, AIRDROP_PORT, airdrop@)
                    && services@[2].is_for(
                    "_companion-link._tcp.local."@,
                    name@,
                    COMPANION_PORT,
                    companion@,
                ) && services@[3].is_for(
                    "_device-info._tcp.local."@,
                    name@,
                    DEVICE_INFO_PORT,
                    device_info@,
                ),
                Err(why) => result matches Err(AirWinError::Other(m)) && m@ == why@,
            },
    {
        match host {
            Ok(name) => Ok(Self::mdns_services(name.as_str(), airdrop, companion, device_info)),
            Err(why) => Err(AirWinError::Other(why)),
        }
    }

    /// Fresh records of each kind under this host's name, as the four
    /// services to register. It fails only when the host's name cannot
    /// be read.
    pub fn register_mdns_services() -> (result: Result<Vec<ServiceRegistration>, AirWinError>)
        ensures
            result matches Ok(services) ==> {
                &&& services@.len() == 4
                &&& services@[0].service_type@ == "_airdrop._tcp.local."@ && services@[0].port
                    == AIRDROP_PORT
                &&& services@[1].service_type@ == "_airdrop._udp.local."@ && services@[1].port
                    == AIRDROP_PORT
                &&& services@[2].service_type@ == "_companion-link._tcp.local."@
                    && services@[2].port == COMPANION_PORT
                &&& services@[3].service_type@ == "_device-info._tcp.local."@ && services@[3].port
                    == DEVICE_INFO_PORT
                &&& services@[0].properties@ == services@[1].properties@
                &&& crate::protocols::apple_records::is_apple_compatible(services@[0].properties@)
                &&& forall|i: int|
                    0 <= i < 4 ==> (#[trigger] services@[i]).domain@ == "local."@
                        && services@[i].instance_name@ == services@[0].instance_name@
                        && services@[i].properties.wf()
            },
            result matches Err(e) ==> e is Other,
    {
        let airdrop = match AppleRecords::create_airdrop_txt_records() {
            Ok(records) => records,
            Err(e) => {
                return Err(e);
            },
        };
        let companion = match AppleRecords::create_companion_txt_records() {
            Ok(records) => records,
            Err(e) => {
                return Err(e);
            },
        };
        let device_info = match AppleRecords::create_device_info_txt_records() {
            Ok(records) => records,
            Err(e) => {
                return Err(e);
            },
        };
        Self::mdns_services_for(system_hostname(), airdrop, companion, device_info)
    }
}

/// A handshake that offers one file of the given name and size to
/// `receiver`, in this project's name and under a fresh identifier.
pub open spec fn is_send_handshake(
    handshake: AirDropHandshake,
    receiver: Seq<char>,
    file_name: Seq<char>,
    size: u64,
) -> bool {
    &&& handshake.sender@ == "AirWin"@
    &&& handshake.receiver@ == receiver
    &&& handshake.files@.len() == 1
    &&& is_hyphenated_uuid(handshake.files@[0].id@)
    &&& handshake.files@[0].name@ == file_name
    &&& handshake.files@[0].size == size
    &&& handshake.files@[0].mime_type@ == media_type_for_name(file_name)
}

} // verus!
