//! Errors and the small text, encoding and platform helpers the protocol
//! modules share.

pub mod bytes;
pub mod error;
pub mod hex;
pub mod system;
pub mod text;

pub use error::{AirWinError, AirWinResult};
