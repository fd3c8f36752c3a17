//! An AirDrop-compatible endpoint for hosts that are not Apple's: peer
//! discovery over mDNS, BLE and AWDL fused into one catalog, the session
//! handshake in its two wire dialects, and the chunked file transfer
//! with its status.
//!
//! This crate holds the rules and is verified with Verus; sockets, TLS
//! streams, the mDNS responder, the BLE adapter and the AWDL daemon live
//! with the caller. Where a rule waits on the outside world, the type
//! that owns the rule offers two steps: one that says what is to be
//! done, and one that takes the outcome.
//!
//! * [`network`]: addresses and interfaces, the mDNS catalog, the BLE
//!   catalog with its thirty seconds of freshness.
//! * [`protocols`]: the TXT records, the status and its events, the
//!   legacy dialect, the HTTPS dialect, transfer sessions, the AWDL
//!   manager and the TLS identity.
//! * [`services`]: the services of one endpoint side by side, and the
//!   snapshot that fuses their catalogs.
//! * [`ui`]: the state that a user interface keeps, and how messages
//!   change it.
//! * [`utils`]: errors, text and bytes, hexadecimal text, and what is
//!   taken from the machine: random bytes, the clock, the host's name.
//!
//! What comes from other crates is called through small functions whose
//! contracts are believed, not proved: `hex`, `sha2`, `rand`, `uuid`,
//! `hostname`, `serde_json`, `mime_guess` and `rcgen`. Each says in its
//! documentation what it claims.

pub mod network;
pub mod protocols;
pub mod services;
pub mod ui;
pub mod utils;

pub use services::AirWinServices;
