//! The kinds that the reusable components are drawn in.

use vstd::prelude::*;

pub mod error_dialog;

verus! {

/// The kind of a notification banner.
#[derive(Debug, Clone, Copy, PartialEq, Eq, Structural)]
pub enum NotificationType {
    Success,
    Error,
    Warning,
    Info,
}

/// The state a status indicator shows.
#[derive(Debug, Clone, Copy, PartialEq, Eq, Structural)]
pub enum StatusType {
    Active,
    Inactive,
    Error,
    Warning,
    Processing,
}

/// The kind of a progress bar.
#[derive(Debug, Clone, Copy, PartialEq, Eq, Structural)]
pub enum ProgressType {
    Primary,
    Success,
    Warning,
    Error,
}

/// The height of a spacer.
#[derive(Debug, Clone, Copy, PartialEq, Eq, Structural)]
pub enum SpacerSize {
    Small,
    Medium,
    Large,
    XLarge,
}

/// The text a status indicator shows for a state.
pub open spec fn status_label_of(status: StatusType) -> Seq<char> {
    match status {
        StatusType::Active => "Attivo"@,
        StatusType::Inactive => "Inattivo"@,
        StatusType::Error => "Errore"@,
        StatusType::Warning => "Attenzione"@,
        StatusType::Processing => "In elaborazione"@,
    }
}

/// The text a status indicator shows for a state.
pub fn status_label(status: StatusType) -> (label: String)
    ensures
        label@ == status_label_of(status),
{
    match status {
        StatusType::Active => "Attivo".to_string(),
        StatusType::Inactive => "Inattivo".to_string(),
        StatusType::Error => "Errore".to_string(),
        StatusType::Warning => "Attenzione".to_string(),
        StatusType::Processing => "In elaborazione".to_string(),
    }
}

} // verus!
