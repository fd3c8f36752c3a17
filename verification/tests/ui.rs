use airwin::network::address::IpAddress;
use airwin::network::discovery::{DiscoveredDevice, ServiceType};
use airwin::protocols::airplay::AirPlayStatus;
use airwin::protocols::status::{AirDropStatus, Progress};
use airwin::protocols::txt_records::TxtRecords;
use airwin::ui::app::{AirWinApp, Command};
use airwin::ui::messages::{Message, NotificationMessage, NotificationType};
use airwin::ui::{AppView, Theme};

fn device(name: &str) -> DiscoveredDevice {
    DiscoveredDevice {
        name: name.to_string(),
        address: IpAddress::v4(192, 168, 1, 5),
        port: 8771,
        service_type: ServiceType::AirDrop,
        txt_records: TxtRecords::new(),
    }
}

fn ready() -> AirWinApp {
    let (mut app, _) = AirWinApp::new();
    app.update(Message::InitializationComplete);
    app
}

#[test]
fn application_starts_loading() {
    let (app, command) = AirWinApp::new();
    assert_eq!(command, Command::FinishInitialization);
    assert_eq!(app.current_view, AppView::Loading);
    assert!(app.is_loading);
    assert_eq!(app.status_message, "Inizializzazione in corso...");
    assert_eq!(app.title(), "AirWin - Caricamento");
    assert_eq!(app.theme, Theme::Dark);
    assert_eq!(app.settings_view.discovery_interval, 15);
    assert_eq!(app.about_view.app_version, "0.1.0");
    assert!(app.discovered_devices.is_empty() && app.notifications.is_empty());
    assert_eq!(app.airdrop_status, AirDropStatus::Idle);
}

#[test]
fn initialization_leads_to_a_scan() {
    let (mut app, _) = AirWinApp::new();
    assert_eq!(app.update(Message::InitializationComplete), Command::StartScanning);
    assert_eq!(app.current_view, AppView::Main);
    assert!(!app.is_loading);
    assert_eq!(app.status_message, "Pronto");
    assert_eq!(app.title(), "AirWin - Condivisione Apple");
    assert_eq!(app.update(Message::StartScanning), Command::ScanDevices);
    assert!(app.is_scanning);
    assert_eq!(app.status_message, "Scansione dispositivi in corso...");
    assert_eq!(app.update(Message::StopScanning), Command::Nothing);
    assert!(!app.is_scanning);
    assert_eq!(app.status_message, "Scansione interrotta");
}

#[test]
fn found_devices_are_listed_and_announced() {
    let mut app = ready();
    app.update(Message::StartScanning);
    let command = app.update(Message::DevicesUpdated(AirWinApp::scan_devices()));
    assert_eq!(command, Command::Nothing);
    assert!(!app.is_scanning);
    assert_eq!(app.discovered_devices.len(), 3);
    assert_eq!(app.discovered_devices[0].name, "iPhone di Marco");
    assert_eq!(app.discovered_devices[0].address, IpAddress::v4(192, 168, 1, 100));
    assert_eq!(app.discovered_devices[1].name, "iPad Pro");
    assert_eq!(app.discovered_devices[1].port, 7100);
    assert_eq!(app.discovered_devices[1].service_type, ServiceType::AirPlay);
    assert_eq!(app.discovered_devices[2].name, "MacBook Pro");
    assert_eq!(app.discovered_devices[2].address, IpAddress::v4(192, 168, 1, 102));
    assert_eq!(app.status_message, "Trovati 3 dispositivi");
    assert_eq!(app.notifications.len(), 1);
    assert_eq!(app.notifications[0].title, "Dispositivi trovati");
    assert_eq!(app.notifications[0].content, "Scoperti 3 dispositivi Apple nelle vicinanze");
    assert_eq!(app.notifications[0].notification_type, NotificationType::Success);
    assert_eq!(app.notifications[0].duration_ms, Some(3000));
    app.update(Message::DevicesUpdated(vec![]));
    assert_eq!(app.status_message, "Trovati 0 dispositivi");
    assert_eq!(app.notifications.len(), 1);
}

#[test]
fn selecting_and_sending_moves_the_status() {
    let mut app = ready();
    assert_eq!(app.update(Message::SendFile(device("x"))), Command::Nothing);
    assert_eq!(app.airdrop_status, AirDropStatus::Idle);
    assert_eq!(app.file_transfer_progress, None);
    app.update(Message::DeviceSelected(device("iPhone")));
    assert_eq!(app.selected_device.as_ref().unwrap().name, "iPhone");
    assert_eq!(app.status_message, "Selezionato: iPhone");
    assert_eq!(app.notifications[0].title, "Dispositivo selezionato");
    assert_eq!(app.notifications[0].content, "Ora puoi inviare contenuti a iPhone");
    assert_eq!(app.notifications[0].notification_type, NotificationType::Info);
    assert_eq!(app.update(Message::SendFile(device("x"))), Command::SimulateFileTransfer);
    let zero = Progress { transferred: 0, total: 0 };
    assert_eq!(app.airdrop_status, AirDropStatus::Transferring(zero));
    assert_eq!(app.file_transfer_progress, Some(zero));
    let done = AirWinApp::simulate_file_transfer();
    assert_eq!(done.percent_floor(), 100);
    app.update(Message::FileSendProgress(done));
    assert_eq!(app.airdrop_status, AirDropStatus::Transferring(done));
    assert_eq!(app.file_transfer_progress, Some(done));
    app.update(Message::FileSendCompleted(Ok(())));
    assert_eq!(app.airdrop_status, AirDropStatus::Idle);
    assert_eq!(app.file_transfer_progress, None);
    assert_eq!(app.notifications.last().unwrap().title, "Trasferimento completato");
    assert_eq!(app.notifications.last().unwrap().content, "Operazione completata con successo");
    app.update(Message::FileSendCompleted(Err("rete assente".to_string())));
    assert_eq!(app.notifications.last().unwrap().title, "Trasferimento fallito");
    assert_eq!(app.notifications.last().unwrap().content, "rete assente");
    assert_eq!(app.notifications.last().unwrap().notification_type, NotificationType::Error);
}

#[test]
fn links_are_kept_and_sent() {
    let mut app = ready();
    app.update(Message::ShowLinkDialog);
    assert!(app.show_link_dialog);
    app.update(Message::LinkInputChanged("https://a".to_string()));
    assert_eq!(app.link_url, "https://a");
    app.update(Message::HideLinkDialog);
    assert!(!app.show_link_dialog);
    assert_eq!(app.link_url, "");
    let command = app.update(Message::SendLink(device("Mac"), "https://b".to_string()));
    assert_eq!(command, Command::CompleteLinkSend);
    assert_eq!(app.link_url, "https://b");
    assert_eq!(app.airdrop_status, AirDropStatus::Connecting);
    assert_eq!(app.notifications[0].title, "Invio link");
    assert_eq!(app.notifications[0].content, "Invio link a Mac");
}

#[test]
fn notifications_are_shown_and_hidden() {
    let mut app = ready();
    assert_eq!(app.update(Message::HideNotification), Command::Nothing);
    for i in 0..7 {
        let shown = NotificationMessage::info(&format!("t{}", i), "c");
        assert_eq!(app.update(Message::ShowNotification(shown)), Command::HideNotificationLater);
    }
    assert_eq!(app.notifications.len(), 7);
    app.update(Message::HideNotification);
    assert_eq!(app.notifications.len(), 6);
    assert_eq!(app.notifications[0].title, "t1");
    app.update(Message::DeviceSelected(device("d")));
    assert_eq!(app.notifications.len(), 6);
    assert_eq!(app.notifications[0].title, "t2");
    assert_eq!(app.notifications[5].title, "Dispositivo selezionato");
}

#[test]
fn mirroring_status_is_shown() {
    let mut app = ready();
    assert_eq!(app.update(Message::StartScreenMirroring(device("tv"))), Command::ConnectMirroring);
    assert!(matches!(app.airplay_status, AirPlayStatus::Connecting));
    app.update(Message::AirPlayStatusChanged(AirPlayStatus::Connected));
    assert!(matches!(app.airplay_status, AirPlayStatus::Connected));
    assert_eq!(app.notifications[0].title, "AirPlay connesso");
    assert_eq!(app.notifications[0].content, "Connessione AirPlay stabilita");
    app.update(Message::AirPlayStatusChanged(AirPlayStatus::Failed("no".to_string())));
    assert!(matches!(&app.airplay_status, AirPlayStatus::Failed(m) if m == "no"));
    assert_eq!(app.notifications[1].title, "Errore AirPlay");
    assert_eq!(app.notifications[1].content, "no");
    app.update(Message::AirPlayStatusChanged(AirPlayStatus::Idle));
    assert_eq!(app.notifications.len(), 2);
    app.update(Message::StopScreenMirroring);
    assert!(matches!(app.airplay_status, AirPlayStatus::Idle));
}

#[test]
fn other_messages_change_nothing() {
    let mut app = ready();
    for message in [
        Message::Tick,
        Message::WindowResized(800, 600),
        Message::ThemeChanged(Theme::Light),
        Message::DeviceDeselected,
        Message::AirDropStatusChanged(AirDropStatus::Connected),
        Message::FileSelected(None),
        Message::ScreenMirroringFrame(vec![1]),
        Message::ShowActionDialog(device("a")),
        Message::HideActionDialog,
        Message::Error("e".to_string()),
        Message::ClearError,
        Message::ToggleDebugMode,
        Message::ShowMainView,
        Message::OpenWebsite,
    ] {
        assert_eq!(app.update(message), Command::Nothing);
    }
    assert_eq!(app.current_view, AppView::Main);
    assert_eq!(app.theme, Theme::Dark);
    assert_eq!(app.status_message, "Pronto");
    assert_eq!(app.airdrop_status, AirDropStatus::Idle);
    assert!(app.notifications.is_empty());
    assert!(app.selected_device.is_none());
}
