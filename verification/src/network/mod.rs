//! Peer discovery: network interfaces, the mDNS catalog and the BLE
//! catalog.

pub mod address;
pub mod ble;
pub mod discovery;
pub mod interface;

pub use address::IpAddress;
pub use discovery::{DeviceDiscovery, DiscoveredDevice, ServiceType};
pub use interface::{NetworkInterface, NetworkManager};
