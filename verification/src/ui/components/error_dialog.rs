//! The dialog that tells the user of an error in plain words.

use vstd::prelude::*;
use crate::utils::text::{contains_subseq, str_contains};

verus! {

/// An error dialog.
#[derive(Debug)]
pub struct ErrorDialog {
    pub title: String,
    pub message: String,
    pub details: Option<String>,
    pub is_visible: bool,
}

/// The kinds of errors that get a wording of their own.
#[derive(Debug, Clone, Copy, PartialEq, Eq, Structural)]
pub enum ErrorKind {
    /// A port is taken by another application.
    PortInUse,
    /// The network failed.
    Network,
    /// The application lacks a permission.
    Permission,
    /// Anything else.
    Unexpected,
}

/// The kind of an error, by what its text mentions. A port conflict is
/// looked for first, then the network, then permissions.
pub open spec fn error_kind_of(error: Seq<char>) -> ErrorKind {
    if contains_subseq(error, "10048"@) || contains_subseq(error, "port"@) || contains_subseq(
        error,
        "bind"@,
    ) {
        ErrorKind::PortInUse
    } else if contains_subseq(error, "network"@) || contains_subseq(error, "Network"@) {
        ErrorKind::Network
    } else if contains_subseq(error, "permission"@) || contains_subseq(error, "Permission"@) {
        ErrorKind::Permission
    } else {
        ErrorKind::Unexpected
    }
}

/// The dialog's title for a kind of error.
pub open spec fn title_of(kind: ErrorKind) -> Seq<char> {
    match kind {
        ErrorKind::PortInUse => "Porta già in uso"@,
        ErrorKind::Network => "Errore di rete"@,
        ErrorKind::Permission => "Permessi insufficienti"@,
        ErrorKind::Unexpected => "Errore"@,
    }
}

/// The dialog's message for a kind of error.
pub open spec fn message_of(kind: ErrorKind) -> Seq<char> {
    match kind {
        ErrorKind::PortInUse => "Un'altra applicazione sta già utilizzando la porta richiesta. AirWin continuerà con funzionalità limitate."@,
        ErrorKind::Network => "Si è verificato un problema di connessione. Verifica la tua connessione di rete."@,
        ErrorKind::Permission => "L'applicazione non ha i permessi necessari. Prova ad eseguirla come amministratore."@,
        ErrorKind::Unexpected => "Si è verificato un errore imprevisto."@,
    }
}

impl ErrorDialog {
    /// A visible dialog without details.
    pub fn new(title: String, message: String) -> (dialog: Self)
        ensures
            dialog.title@ == title@,
            dialog.message@ == message@,
            dialog.details is None,
            dialog.is_visible,
    {
        ErrorDialog { title, message, details: None, is_visible: true }
    }

    /// The dialog with technical details added.
    pub fn with_details(self, details: String) -> (dialog: Self)
        ensures
            dialog.title@ == self.title@,
            dialog.message@ == self.message@,
            dialog.is_visible == self.is_visible,
            dialog.details matches Some(d) && d@ == details@,
    {
        ErrorDialog {
            title: self.title,
            message: self.message,
            details: Some(details),
            is_visible: self.is_visible,
        }
    }
}

/// The kind of an error, by what its text mentions.
pub fn error_kind(error: &str) -> (kind: ErrorKind)
    ensures
        kind == error_kind_of(error@),
{
    if str_contains(error, "10048") || str_contains(error, "port") || str_contains(error, "bind") {
        ErrorKind::PortInUse
    } else if str_contains(error, "network") || str_contains(error, "Network") {
        ErrorKind::Network
    } else if str_contains(error, "permission") || str_contains(error, "Permission") {
        ErrorKind::Permission
    } else {
        ErrorKind::Unexpected
    }
}

/// The dialog for an error's text: worded by the error's kind, with the
/// text itself as details.
pub fn from_error(error: &str) -> (dialog: ErrorDialog)
    ensures
        dialog.title@ == title_of(error_kind_of(error@)),
        dialog.message@ == message_of(error_kind_of(error@)),
        dialog.details matches Some(d) && d@ == error@,
        dialog.is_visible,
{
    let (title, message) = match error_kind(error) {
        ErrorKind::PortInUse => (
            "Porta già in uso".to_string(),
            "Un'altra applicazione sta già utilizzando la porta richiesta. AirWin continuerà con funzionalità limitate.".to_string(),
        ),
        ErrorKind::Network => (
            "Errore di rete".to_string(),
            "Si è verificato un problema di connessione. Verifica la tua connessione di rete.".to_string(),
        ),
        ErrorKind::Permission => (
            "Permessi insufficienti".to_string(),
            "L'applicazione non ha i permessi necessari. Prova ad eseguirla come amministratore.".to_string(),
        ),
        ErrorKind::Unexpected => (
            "Errore".to_string(),
            "Si è verificato un errore imprevisto.".to_string(),
        ),
    };
    ErrorDialog::new(title, message).with_details(error.to_string())
}

} // verus!
