//! The wire protocols: service records, status, handshake and transfer.

pub mod airdrop;
pub mod airplay;
pub mod apple_records;
pub mod awdl;
pub mod credentials;
pub mod http_server;
pub mod legacy;
pub mod session;
pub mod status;
pub mod transfer;
pub mod txt_records;
