//! The settings as the Settings view holds them.

use vstd::prelude::*;
use crate::utils::text::{decimal_text, u64_to_decimal};

verus! {

/// Who may see this device in AirDrop.
#[derive(Debug, Clone, Copy, PartialEq, Eq, Structural)]
pub enum AirDropVisibility {
    Everyone,
    ContactsOnly,
    ReceivingOff,
}

/// The quality of a mirrored stream.
#[derive(Debug, Clone, Copy, PartialEq, Eq, Structural)]
pub enum AirPlayQuality {
    Low,
    Medium,
    High,
    Auto,
}

/// How much is logged.
#[derive(Debug, Clone, Copy, PartialEq, Eq, Structural)]
pub enum LogLevel {
    Error,
    Warn,
    Info,
    Debug,
    Trace,
}

impl AirDropVisibility {
    pub open spec fn label_of(self) -> Seq<char> {
        match self {
            AirDropVisibility::Everyone => "Tutti"@,
            AirDropVisibility::ContactsOnly => "Solo Contatti"@,
            AirDropVisibility::ReceivingOff => "Disattivato"@,
        }
    }

    /// The text shown for this choice.
    pub fn label(&self) -> (text: String)
        ensures
            text@ == self.label_of(),
    {
        match self {
            AirDropVisibility::Everyone => "Tutti".to_string(),
            AirDropVisibility::ContactsOnly => "Solo Contatti".to_string(),
            AirDropVisibility::ReceivingOff => "Disattivato".to_string(),
        }
    }
}

impl AirPlayQuality {
    pub open spec fn label_of(self) -> Seq<char> {
        match self {
            AirPlayQuality::Low => "Bassa"@,
            AirPlayQuality::Medium => "Media"@,
            AirPlayQuality::High => "Alta"@,
            AirPlayQuality::Auto => "Automatica"@,
        }
    }

    /// The text shown for this choice.
    pub fn label(&self) -> (text: String)
        ensures
            text@ == self.label_of(),
    {
        match self {
            AirPlayQuality::Low => "Bassa".to_string(),
            AirPlayQuality::Medium => "Media".to_string(),
            AirPlayQuality::High => "Alta".to_string(),
            AirPlayQuality::Auto => "Automatica".to_string(),
        }
    }
}

impl LogLevel {
    pub open spec fn label_of(self) -> Seq<char> {
        match self {
            LogLevel::Error => "Errore"@,
            LogLevel::Warn => "Avviso"@,
            LogLevel::Info => "Info"@,
            LogLevel::Debug => "Debug"@,
            LogLevel::Trace => "Trace"@,
        }
    }

    /// The text shown for this choice.
    pub fn label(&self) -> (text: String)
        ensures
            text@ == self.label_of(),
    {
        match self {
            LogLevel::Error => "Errore".to_string(),
            LogLevel::Warn => "Avviso".to_string(),
            LogLevel::Info => "Info".to_string(),
            LogLevel::Debug => "Debug".to_string(),
            LogLevel::Trace => "Trace".to_string(),
        }
    }
}

/// The settings.
#[derive(Debug)]
pub struct SettingsView {
    pub auto_discovery: bool,
    pub discovery_interval: u32,
    pub show_notifications: bool,
    pub minimize_to_tray: bool,
    pub airdrop_enabled: bool,
    pub airdrop_visibility: AirDropVisibility,
    pub auto_accept_from_contacts: bool,
    pub airplay_enabled: bool,
    pub airplay_quality: AirPlayQuality,
    pub airplay_audio_only: bool,
    pub network_interface: Option<String>,
    pub available_interfaces: Vec<String>,
    pub custom_port: Option<u16>,
    /// The custom port as the text field shows it: its decimal digits,
    /// or nothing where no port is set.
    pub custom_port_text: String,
    pub debug_mode: bool,
    pub log_level: LogLevel,
    pub max_concurrent_transfers: u32,
}

impl SettingsView {
    pub fn new(
        auto_discovery: bool,
        discovery_interval: u32,
        show_notifications: bool,
        minimize_to_tray: bool,
        airdrop_enabled: bool,
        airdrop_visibility: AirDropVisibility,
        auto_accept_from_contacts: bool,
        airplay_enabled: bool,
        airplay_quality: AirPlayQuality,
        airplay_audio_only: bool,
        network_interface: Option<String>,
        available_interfaces: Vec<String>,
        custom_port: Option<u16>,
        debug_mode: bool,
        log_level: LogLevel,
        max_concurrent_transfers: u32,
    ) -> (view: Self)
        ensures
            view.auto_discovery == auto_discovery,
            view.discovery_interval == discovery_interval,
            view.show_notifications == show_notifications,
            view.minimize_to_tray == minimize_to_tray,
            view.airdrop_enabled == airdrop_enabled,
            view.airdrop_visibility == airdrop_visibility,
            view.auto_accept_from_contacts == auto_accept_from_contacts,
            view.airplay_enabled == airplay_enabled,
            view.airplay_quality == airplay_quality,
            view.airplay_audio_only == airplay_audio_only,
            view.network_interface == network_interface,
            view.available_interfaces == available_interfaces,
            view.custom_port == custom_port,
            view.custom_port_text@ == match custom_port {
                Some(port) => decimal_text(port as nat),
                None => Seq::<char>::empty(),
            },
            view.debug_mode == debug_mode,
            view.log_level == log_level,
            view.max_concurrent_transfers == max_concurrent_transfers,
    {
        let custom_port_text = match custom_port {
            Some(port) => u64_to_decimal(port as u64),
            None => String::new(),
        };
        SettingsView {
            auto_discovery,
            discovery_interval,
            show_notifications,
            minimize_to_tray,
            airdrop_enabled,
            airdrop_visibility,
            auto_accept_from_contacts,
            airplay_enabled,
            airplay_quality,
            airplay_audio_only,
            network_interface,
            available_interfaces,
            custom_port,
            custom_port_text,
            debug_mode,
            log_level,
            max_concurrent_transfers,
        }
    }
}

} // verus!
