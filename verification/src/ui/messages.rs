//! The messages that drive the user interface, and the notifications
//! shown to the user.

use vstd::prelude::*;
use vstd::std_specs::convert::FromSpecImpl;
use crate::network::discovery::DiscoveredDevice;
use crate::protocols::airplay::AirPlayStatus;
use crate::protocols::status::{AirDropStatus, Progress};
use crate::ui::Theme;

verus! {

/// What the user interface reacts to.
#[derive(Debug)]
pub enum Message {
    Tick,
    WindowResized(u32, u32),
    ThemeChanged(Theme),
    InitializationComplete,
    StartScanning,
    StopScanning,
    DevicesUpdated(Vec<DiscoveredDevice>),
    DeviceSelected(DiscoveredDevice),
    DeviceDeselected,
    AirDropStatusChanged(AirDropStatus),
    SendFile(DiscoveredDevice),
    SendLink(DiscoveredDevice, String),
    FileSelected(Option<String>),
    FileSendProgress(Progress),
    FileSendCompleted(Result<(), String>),
    AirPlayStatusChanged(AirPlayStatus),
    StartScreenMirroring(DiscoveredDevice),
    StopScreenMirroring,
    ScreenMirroringFrame(Vec<u8>),
    ShowActionDialog(DiscoveredDevice),
    HideActionDialog,
    ShowLinkDialog,
    HideLinkDialog,
    LinkInputChanged(String),
    ShowNotification(NotificationMessage),
    HideNotification,
    Error(String),
    Warning(String),
    Info(String),
    ClearError,
    HideError,
    CustomPortChanged,
    ToggleDebugMode,
    LogLevelChanged,
    MaxConcurrentTransfersChanged,
    OpenLogFolder,
    ClearCache,
    RunDiagnostics,
    ShowMainView,
    OpenLicenses,
    OpenWebsite,
    OpenDocumentation,
    OpenIssues,
    OpenFeatureRequest,
}

/// What the background services report to the user interface.
#[derive(Debug)]
pub enum SubscriptionMessage {
    DeviceDiscoveryUpdate(Vec<DiscoveredDevice>),
    AirPlayStatusUpdate(AirPlayStatus),
    AirDropStatusUpdate(AirDropStatus),
    ScreenFrame(Vec<u8>),
    FileTransferProgress(Progress),
}

impl From<SubscriptionMessage> for Message {
    fn from(report: SubscriptionMessage) -> (message: Message) {
        match report {
            SubscriptionMessage::DeviceDiscoveryUpdate(devices) => Message::DevicesUpdated(devices),
            SubscriptionMessage::AirPlayStatusUpdate(status) => Message::AirPlayStatusChanged(
                status,
            ),
            SubscriptionMessage::AirDropStatusUpdate(status) => Message::AirDropStatusChanged(
                status,
            ),
            SubscriptionMessage::ScreenFrame(frame) => Message::ScreenMirroringFrame(frame),
            SubscriptionMessage::FileTransferProgress(progress) => Message::FileSendProgress(
                progress,
            ),
        }
    }
}

impl FromSpecImpl<SubscriptionMessage> for Message {
    open spec fn obeys_from_spec() -> bool {
        true
    }

    /// Each report becomes the message of the same content.
    open spec fn from_spec(report: SubscriptionMessage) -> Message {
        match report {
            SubscriptionMessage::DeviceDiscoveryUpdate(devices) => Message::DevicesUpdated(devices),
            SubscriptionMessage::AirPlayStatusUpdate(status) => Message::AirPlayStatusChanged(
                status,
            ),
            SubscriptionMessage::AirDropStatusUpdate(status) => Message::AirDropStatusChanged(
                status,
            ),
            SubscriptionMessage::ScreenFrame(frame) => Message::ScreenMirroringFrame(frame),
            SubscriptionMessage::FileTransferProgress(progress) => Message::FileSendProgress(
                progress,
            ),
        }
    }
}

/// The kind of a notification.
#[derive(Debug, Clone, Copy, PartialEq, Eq, Structural)]
pub enum NotificationType {
    Success,
    Warning,
    Error,
    Info,
}

/// A notification. Its duration is in milliseconds; without one it stays
/// until it is dismissed.
#[derive(Debug)]
pub struct NotificationMessage {
    pub title: String,
    pub content: String,
    pub notification_type: NotificationType,
    pub duration_ms: Option<u64>,
}

impl Clone for NotificationMessage {
    fn clone(&self) -> (copy: Self)
        ensures
            copy == *self,
    {
        NotificationMessage {
            title: self.title.clone(),
            content: self.content.clone(),
            notification_type: self.notification_type,
            duration_ms: self.duration_ms,
        }
    }
}

impl NotificationMessage {
    /// This notification has the given texts, kind and duration.
    pub open spec fn is(
        &self,
        title: Seq<char>,
        content: Seq<char>,
        kind: NotificationType,
        duration_ms: u64,
    ) -> bool {
        &&& self.title@ == title
        &&& self.content@ == content
        &&& self.notification_type == kind
        &&& self.duration_ms == Some(duration_ms)
    }

    /// A success, shown for three seconds.
    pub fn success(title: &str, content: &str) -> (message: Self)
        ensures
            message.is(title@, content@, NotificationType::Success, 3000),
    {
        NotificationMessage {
            title: title.to_string(),
            content: content.to_string(),
            notification_type: NotificationType::Success,
            duration_ms: Some(3000),
        }
    }

    /// An error, shown for five seconds.
    pub fn error(title: &str, content: &str) -> (message: Self)
        ensures
            message.is(title@, content@, NotificationType::Error, 5000),
    {
        NotificationMessage {
            title: title.to_string(),
            content: content.to_string(),
            notification_type: NotificationType::Error,
            duration_ms: Some(5000),
        }
    }

    /// A warning, shown for four seconds.
    pub fn warning(title: &str, content: &str) -> (message: Self)
        ensures
            message.is(title@, content@, NotificationType::Warning, 4000),
    {
        NotificationMessage {
            title: title.to_string(),
            content: content.to_string(),
            notification_type: NotificationType::Warning,
            duration_ms: Some(4000),
        }
    }

    /// An information, shown for three seconds.
    pub fn info(title: &str, content: &str) -> (message: Self)
        ensures
            message.is(title@, content@, NotificationType::Info, 3000),
    {
        NotificationMessage {
            title: title.to_string(),
            content: content.to_string(),
            notification_type: NotificationType::Info,
            duration_ms: Some(3000),
        }
    }
}

} // verus!
