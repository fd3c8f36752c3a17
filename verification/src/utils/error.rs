//! The error type shared across the library.

use vstd::prelude::*;
use vstd::string::StringExecFns;

verus! {

#[derive(Debug)]
pub enum AirWinError {
    NetworkError(String),
    DiscoveryError(String),
    ProtocolError(String),
    ConnectionTimeout,
    InvalidInterface(String),
    Other(String),
}

pub type AirWinResult<T> = Result<T, AirWinError>;

impl AirWinError {
    /// A temporary error is one that may clear by itself: a timeout or a
    /// network failure.
    pub open spec fn spec_is_temporary(&self) -> bool {
        self is ConnectionTimeout || self is NetworkError
    }

    /// The text shown for this error.
    pub open spec fn spec_message(&self) -> Seq<char> {
        match self {
            AirWinError::NetworkError(m) => "Network error: "@ + m@,
            AirWinError::DiscoveryError(m) => "Device discovery error: "@ + m@,
            AirWinError::ProtocolError(m) => "Protocol error: "@ + m@,
            AirWinError::ConnectionTimeout => "Connection timeout"@,
            AirWinError::InvalidInterface(m) => "Invalid network interface: "@ + m@,
            AirWinError::Other(m) => m@,
        }
    }

    pub fn is_temporary(&self) -> (temporary: bool)
        ensures
            temporary == self.spec_is_temporary(),
    {
        match self {
            AirWinError::ConnectionTimeout => true,
            AirWinError::NetworkError(_) => true,
            _ => false,
        }
    }

    /// An operation is worth retrying exactly when its error is temporary.
    pub fn should_retry(&self) -> (retry: bool)
        ensures
            retry == self.spec_is_temporary(),
    {
        self.is_temporary()
    }

    pub fn message(&self) -> (text: String)
        ensures
            text@ == self.spec_message(),
    {
        match self {
            AirWinError::NetworkError(m) => "Network error: ".to_string().concat(m.as_str()),
            AirWinError::DiscoveryError(m) => "Device discovery error: ".to_string().concat(
                m.as_str(),
            ),
            AirWinError::ProtocolError(m) => "Protocol error: ".to_string().concat(m.as_str()),
            AirWinError::ConnectionTimeout => "Connection timeout".to_string(),
            AirWinError::InvalidInterface(m) => "Invalid network interface: ".to_string().concat(
                m.as_str(),
            ),
            AirWinError::Other(m) => m.clone(),
        }
    }
}

} // verus!
