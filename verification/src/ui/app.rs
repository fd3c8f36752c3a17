//! The application's state and how messages change it. Drawing the
//! state, and carrying out the commands that an update hands back, is
//! left to the toolkit.

use vstd::prelude::*;
use vstd::string::StringExecFns;
use crate::network::address::IpAddress;
use crate::network::discovery::{DiscoveredDevice, ServiceType};
use crate::protocols::airplay::{AirPlayStatus, AirPlayView};
use crate::protocols::status::{AirDropStatus, Progress, StatusView};
use crate::protocols::txt_records::TxtRecords;
use crate::ui::messages::{Message, NotificationMessage, NotificationType};
use crate::ui::views::about_view::AboutView;
use crate::ui::views::settings_view::{AirDropVisibility, AirPlayQuality, LogLevel, SettingsView};
use crate::ui::{add_notification, kept_notifications, title_for, title_of, AppView, Theme};
use crate::utils::text::{decimal_text, u64_to_decimal};

verus! {

/// What the toolkit is to do after an update. Every command but `Nothing`
/// ends in a message that is fed back to the application.
#[derive(Debug, Clone, Copy, PartialEq, Eq, Structural)]
pub enum Command {
    /// Nothing.
    Nothing,
    /// Wait two seconds, then report that initialization is complete.
    FinishInitialization,
    /// Ask for a scan at once.
    StartScanning,
    /// Scan for devices and report them.
    ScanDevices,
    /// Run the demonstration transfer and report its progress.
    SimulateFileTransfer,
    /// Wait two seconds, then report the link as sent.
    CompleteLinkSend,
    /// Wait five seconds, then hide the oldest notification.
    HideNotificationLater,
    /// Wait three seconds, then report mirroring as connected.
    ConnectMirroring,
}

/// The application's state.
#[derive(Debug)]
pub struct AirWinApp {
    pub current_view: AppView,
    pub discovered_devices: Vec<DiscoveredDevice>,
    pub selected_device: Option<DiscoveredDevice>,
    pub is_scanning: bool,
    pub airplay_status: AirPlayStatus,
    pub airdrop_status: AirDropStatus,
    pub file_transfer_progress: Option<Progress>,
    pub notifications: Vec<NotificationMessage>,
    pub theme: Theme,
    pub settings_view: SettingsView,
    pub about_view: AboutView,
    pub show_link_dialog: bool,
    pub link_url: String,
    pub is_loading: bool,
    pub status_message: String,
}

/// A sample device of the given name at 192.168.1.`host`, without
/// records.
pub open spec fn is_sample(
    device: DiscoveredDevice,
    name: Seq<char>,
    host: u8,
    port: u16,
    service_type: ServiceType,
) -> bool {
    &&& device.name@ == name
    &&& device.address == IpAddress::V4((0xC0A80100 + host) as u32)
    &&& device.port == port
    &&& device.service_type == service_type
    &&& device.txt_records@ == Map::<Seq<char>, Seq<char>>::empty()
}

/// Progress before the first byte.
pub open spec fn no_progress() -> Progress {
    Progress { transferred: 0, total: 0 }
}

/// The view after a message.
pub open spec fn next_view(app: AirWinApp, message: Message) -> AppView {
    match message {
        Message::InitializationComplete => AppView::Main,
        _ => app.current_view,
    }
}

/// Whether the application still loads after a message.
pub open spec fn next_loading(app: AirWinApp, message: Message) -> bool {
    match message {
        Message::InitializationComplete => false,
        _ => app.is_loading,
    }
}

/// Whether a scan runs after a message.
pub open spec fn next_scanning(app: AirWinApp, message: Message) -> bool {
    match message {
        Message::StartScanning => true,
        Message::StopScanning => false,
        Message::DevicesUpdated(_) => false,
        _ => app.is_scanning,
    }
}

/// The devices listed after a message.
pub open spec fn next_devices(app: AirWinApp, message: Message) -> Seq<DiscoveredDevice> {
    match message {
        Message::DevicesUpdated(devices) => devices@,
        _ => app.discovered_devices@,
    }
}

/// The device selected after a message.
pub open spec fn next_selected(app: AirWinApp, message: Message) -> Option<DiscoveredDevice> {
    match message {
        Message::DeviceSelected(device) => Some(device),
        _ => app.selected_device,
    }
}

/// The status line after a message.
pub open spec fn next_status_message(app: AirWinApp, message: Message) -> Seq<char> {
    match message {
        Message::InitializationComplete => "Pronto"@,
        Message::StartScanning => "Scansione dispositivi in corso..."@,
        Message::StopScanning => "Scansione interrotta"@,
        Message::DevicesUpdated(devices) => "Trovati "@ + decimal_text(devices@.len())
            + " dispositivi"@,
        Message::DeviceSelected(device) => "Selezionato: "@ + device.name@,
        _ => app.status_message@,
    }
}

/// The AirDrop status shown after a message.
pub open spec fn next_airdrop_status(app: AirWinApp, message: Message) -> StatusView {
    match message {
        Message::SendFile(_) => if app.selected_device is Some {
            StatusView::Transferring(no_progress())
        } else {
            app.airdrop_status@
        },
        Message::SendLink(_, _) => StatusView::Connecting,
        Message::FileSendProgress(progress) => StatusView::Transferring(progress),
        Message::FileSendCompleted(_) => StatusView::Idle,
        _ => app.airdrop_status@,
    }
}

/// The transfer progress shown after a message.
pub open spec fn next_progress(app: AirWinApp, message: Message) -> Option<Progress> {
    match message {
        Message::SendFile(_) => if app.selected_device is Some {
            Some(no_progress())
        } else {
            app.file_transfer_progress
        },
        Message::FileSendProgress(progress) => Some(progress),
        Message::FileSendCompleted(_) => None,
        _ => app.file_transfer_progress,
    }
}

/// The mirroring status shown after a message.
pub open spec fn next_airplay_status(app: AirWinApp, message: Message) -> AirPlayView {
    match message {
        Message::StartScreenMirroring(_) => AirPlayView::Connecting,
        Message::StopScreenMirroring => AirPlayView::Idle,
        Message::AirPlayStatusChanged(status) => status@,
        _ => app.airplay_status@,
    }
}

/// Whether the link dialog shows after a message.
pub open spec fn next_link_dialog(app: AirWinApp, message: Message) -> bool {
    match message {
        Message::ShowLinkDialog => true,
        Message::HideLinkDialog => false,
        _ => app.show_link_dialog,
    }
}

/// The link in the dialog after a message.
pub open spec fn next_link_url(app: AirWinApp, message: Message) -> Seq<char> {
    match message {
        Message::SendLink(_, url) => url@,
        Message::HideLinkDialog => Seq::empty(),
        Message::LinkInputChanged(url) => url@,
        _ => app.link_url@,
    }
}

/// The command that a message leads to.
pub open spec fn command_for(app: AirWinApp, message: Message) -> Command {
    match message {
        Message::InitializationComplete => Command::StartScanning,
        Message::StartScanning => Command::ScanDevices,
        Message::SendFile(_) => if app.selected_device is Some {
            Command::SimulateFileTransfer
        } else {
            Command::Nothing
        },
        Message::SendLink(_, _) => Command::CompleteLinkSend,
        Message::ShowNotification(_) => Command::HideNotificationLater,
        Message::StartScreenMirroring(_) => Command::ConnectMirroring,
        _ => Command::Nothing,
    }
}

/// `after` is `before` with one notification of the given texts and kind
/// added by the application itself.
pub open spec fn notified(
    before: Seq<NotificationMessage>,
    after: Seq<NotificationMessage>,
    title: Seq<char>,
    content: Seq<char>,
    kind: NotificationType,
) -> bool {
    &&& after.len() > 0
    &&& after.drop_last() == kept_notifications(before)
    &&& after.last().is(title, content, kind, 3000)
}

/// The notifications on screen after a message, given those before it.
pub open spec fn notifications_follow(
    before: Seq<NotificationMessage>,
    message: Message,
    after: Seq<NotificationMessage>,
) -> bool {
    match message {
        Message::DevicesUpdated(devices) => if devices@.len() > 0 {
            notified(
                before,
                after,
                "Dispositivi trovati"@,
                "Scoperti "@ + decimal_text(devices@.len()) + " dispositivi Apple nelle vicinanze"@,
                NotificationType::Success,
            )
        } else {
            after == before
        },
        Message::DeviceSelected(device) => notified(
            before,
            after,
            "Dispositivo selezionato"@,
            "Ora puoi inviare contenuti a "@ + device.name@,
            NotificationType::Info,
        ),
        Message::SendLink(device, _) => notified(
            before,
            after,
            "Invio link"@,
            "Invio link a "@ + device.name@,
            NotificationType::Info,
        ),
        Message::FileSendCompleted(Ok(_)) => notified(
            before,
            after,
            "Trasferimento completato"@,
            "Operazione completata con successo"@,
            NotificationType::Success,
        ),
        Message::FileSendCompleted(Err(why)) => notified(
            before,
            after,
            "Trasferimento fallito"@,
            why@,
            NotificationType::Error,
        ),
        Message::ShowNotification(notification) => after == before.push(notification),
        Message::HideNotification => after == if before.len() > 0 {
            before.drop_first()
        } else {
            before
        },
        Message::AirPlayStatusChanged(AirPlayStatus::Connected) => notified(
            before,
            after,
            "AirPlay connesso"@,
            "Connessione AirPlay stabilita"@,
            NotificationType::Success,
        ),
        Message::AirPlayStatusChanged(AirPlayStatus::Failed(why)) => notified(
            before,
            after,
            "Errore AirPlay"@,
            why@,
            NotificationType::Error,
        ),
        _ => after == before,
    }
}

impl AirWinApp {
    /// The application as it starts: loading, with nothing found, and
    /// with the toolkit asked to finish initialization.
    pub fn new() -> (started: (Self, Command))
        ensures
            started.1 == Command::FinishInitialization,
            started.0.current_view == AppView::Loading,
            started.0.is_loading,
            started.0.status_message@ == "Inizializzazione in corso..."@,
            started.0.theme == Theme::Dark,
            started.0.discovered_devices@.len() == 0,
            started.0.selected_device is None,
            !started.0.is_scanning,
            started.0.airplay_status@ == AirPlayView::Idle,
            started.0.airdrop_status@ == StatusView::Idle,
            started.0.file_transfer_progress is None,
            started.0.notifications@.len() == 0,
            !started.0.show_link_dialog,
            started.0.link_url@.len() == 0,
            started.0.settings_view.discovery_interval == 15,
            started.0.settings_view.max_concurrent_transfers == 2,
            started.0.settings_view.custom_port is None,
            started.0.about_view.app_version@ == "0.1.0"@,
            started.0.about_view.build_date@ == "unknown"@,
            started.0.about_view.commit_hash is None,
    {
        let app = AirWinApp {
            current_view: AppView::Loading,
            status_message: "Inizializzazione in corso...".to_string(),
            is_loading: true,
            theme: Theme::Dark,
            settings_view: SettingsView::new(
                true,
                15,
                true,
                false,
                true,
                AirDropVisibility::Everyone,
                false,
                true,
                AirPlayQuality::Auto,
                false,
                None,
                Vec::new(),
                None,
                false,
                LogLevel::Info,
                2,
            ),
            about_view: AboutView::new("0.1.0".to_string(), "unknown".to_string(), None),
            discovered_devices: Vec::new(),
            selected_device: None,
            is_scanning: false,
            airplay_status: AirPlayStatus::Idle,
            airdrop_status: AirDropStatus::Idle,
            file_transfer_progress: None,
            notifications: Vec::new(),
            show_link_dialog: false,
            link_url: String::new(),
        };
        (app, Command::FinishInitialization)
    }

    /// The devices that the demonstration scan reports: two AirDrop
    /// peers and one AirPlay peer in a private network.
    pub fn scan_devices() -> (devices: Vec<DiscoveredDevice>)
        ensures
            devices@.len() == 3,
            is_sample(devices@[0], "iPhone di Marco"@, 100, 8771, ServiceType::AirDrop),
            is_sample(devices@[1], "iPad Pro"@, 101, 7100, ServiceType::AirPlay),
            is_sample(devices@[2], "MacBook Pro"@, 102, 8771, ServiceType::AirDrop),
    {
        let mut devices: Vec<DiscoveredDevice> = Vec::new();
        devices.push(Self::sample("iPhone di Marco", 100, 8771, ServiceType::AirDrop));
        devices.push(Self::sample("iPad Pro", 101, 7100, ServiceType::AirPlay));
        devices.push(Self::sample("MacBook Pro", 102, 8771, ServiceType::AirDrop));
        devices
    }

    fn sample(name: &str, host: u8, port: u16, service_type: ServiceType) -> (device:
        DiscoveredDevice)
        ensures
            is_sample(device, name@, host, port, service_type),
    {
        DiscoveredDevice {
            name: name.to_string(),
            address: IpAddress::v4(192, 168, 1, host),
            port,
            service_type,
            txt_records: TxtRecords::new(),
        }
    }

    /// The progress that the demonstration transfer ends with: all of
    /// it.
    pub fn simulate_file_transfer() -> (progress: Progress)
        ensures
            progress == (Progress { transferred: 100, total: 100 }),
            progress.percent() == 100,
    {
        Progress { transferred: 100, total: 100 }
    }

    /// The window's title.
    pub fn title(&self) -> (title: String)
        ensures
            title@ == title_of(self.current_view),
    {
        title_for(self.current_view)
    }

    /// Takes a message: the state changes as the message says, and the
    /// answer is what the toolkit is to do next. Theme and settings are
    /// changed by no message.
    pub fn update(&mut self, message: Message) -> (command: Command)
        ensures
            command == command_for(*old(self), message),
            final(self).current_view == next_view(*old(self), message),
            final(self).is_loading == next_loading(*old(self), message),
            final(self).is_scanning == next_scanning(*old(self), message),
            final(self).discovered_devices@ == next_devices(*old(self), message),
            final(self).selected_device == next_selected(*old(self), message),
            final(self).status_message@ == next_status_message(*old(self), message),
            final(self).airdrop_status@ == next_airdrop_status(*old(self), message),
            final(self).file_transfer_progress == next_progress(*old(self), message),
            final(self).airplay_status@ == next_airplay_status(*old(self), message),
            final(self).show_link_dialog == next_link_dialog(*old(self), message),
            final(self).link_url@ == next_link_url(*old(self), message),
            notifications_follow(old(self).notifications@, message, final(self).notifications@),
            final(self).theme == old(self).theme,
            final(self).settings_view == old(self).settings_view,
            final(self).about_view == old(self).about_view,
    {
        match message {
            Message::InitializationComplete => {
                self.current_view = AppView::Main;
                self.is_loading = false;
                self.status_message = "Pronto".to_string();
                Command::StartScanning
            },
            Message::StartScanning => {
                self.is_scanning = true;
                self.status_message = "Scansione dispositivi in corso...".to_string();
                Command::ScanDevices
            },
            Message::StopScanning => {
                self.is_scanning = false;
                self.status_message = "Scansione interrotta".to_string();
                Command::Nothing
            },
            Message::DevicesUpdated(devices) => {
                let count: usize = devices.len();
                let found = u64_to_decimal(count as u64);
                self.discovered_devices = devices;
                self.is_scanning = false;
                let mut status = "Trovati ".to_string();
                status.append(found.as_str());
                status.append(" dispositivi");
                self.status_message = status;
                if count > 0 {
                    let mut text = "Scoperti ".to_string();
                    text.append(found.as_str());
                    text.append(" dispositivi Apple nelle vicinanze");
                    add_notification(
                        &mut self.notifications,
                        "Dispositivi trovati".to_string(),
                        text,
                        NotificationType::Success,
                    );
                }
                Command::Nothing
            },
            Message::DeviceSelected(device) => {
                self.status_message = "Selezionato: ".to_string().concat(device.name.as_str());
                add_notification(
                    &mut self.notifications,
                    "Dispositivo selezionato".to_string(),
                    "Ora puoi inviare contenuti a ".to_string().concat(device.name.as_str()),
                    NotificationType::Info,
                );
                self.selected_device = Some(device);
                Command::Nothing
            },
            Message::SendFile(_) => {
                if self.selected_device.is_some() {
                    self.airdrop_status = AirDropStatus::Transferring(Progress::start(0));
                    self.file_transfer_progress = Some(Progress::start(0));
                    Command::SimulateFileTransfer
                } else {
                    Command::Nothing
                }
            },
            Message::SendLink(device, url) => {
                self.link_url = url;
                add_notification(
                    &mut self.notifications,
                    "Invio link".to_string(),
                    "Invio link a ".to_string().concat(device.name.as_str()),
                    NotificationType::Info,
                );
                self.airdrop_status = AirDropStatus::Connecting;
                Command::CompleteLinkSend
            },
            Message::FileSendProgress(progress) => {
                self.file_transfer_progress = Some(progress);
                self.airdrop_status = AirDropStatus::Transferring(progress);
                Command::Nothing
            },
            Message::FileSendCompleted(result) => {
                self.file_transfer_progress = None;
                self.airdrop_status = AirDropStatus::Idle;
                match result {
                    Ok(_) => add_notification(
                        &mut self.notifications,
                        "Trasferimento completato".to_string(),
                        "Operazione completata con successo".to_string(),
                        NotificationType::Success,
                    ),
                    Err(why) => add_notification(
                        &mut self.notifications,
                        "Trasferimento fallito".to_string(),
                        why,
                        NotificationType::Error,
                    ),
                }
                Command::Nothing
            },
            Message::ShowLinkDialog => {
                self.show_link_dialog = true;
                Command::Nothing
            },
            Message::HideLinkDialog => {
                self.show_link_dialog = false;
                self.link_url = String::new();
                Command::Nothing
            },
            Message::LinkInputChanged(url) => {
                self.link_url = url;
                Command::Nothing
            },
            Message::ShowNotification(notification) => {
                self.notifications.push(notification);
                Command::HideNotificationLater
            },
            Message::HideNotification => {
                if self.notifications.len() > 0 {
                    self.notifications.remove(0);
                    assert(self.notifications@ =~= old(self).notifications@.drop_first());
                }
                Command::Nothing
            },
            Message::StartScreenMirroring(_) => {
                self.airplay_status = AirPlayStatus::Connecting;
                Command::ConnectMirroring
            },
            Message::StopScreenMirroring => {
                self.airplay_status = AirPlayStatus::Idle;
                Command::Nothing
            },
            Message::AirPlayStatusChanged(status) => {
                match &status {
                    AirPlayStatus::Connected => add_notification(
                        &mut self.notifications,
                        "AirPlay connesso".to_string(),
                        "Connessione AirPlay stabilita".to_string(),
                        NotificationType::Success,
                    ),
                    AirPlayStatus::Failed(why) => add_notification(
                        &mut self.notifications,
                        "Errore AirPlay".to_string(),
                        why.clone(),
                        NotificationType::Error,
                    ),
                    _ => {},
                }
                self.airplay_status = status;
                Command::Nothing
            },
            _ => Command::Nothing,
        }
    }
}

} // verus!
