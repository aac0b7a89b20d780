//! Settings of the network layers and their limits.

use vstd::prelude::*;
use vstd::string::{is_ascii_spec_bytes, StringSliceAdditionalSpecFns};
use crate::util::bounded::{text_fits, BoundedText};

verus! {

/// Time allowed for connecting to an access point, in milliseconds.
pub const WIFI_CONNECT_TIMEOUT_MS: u32 = 30_000;

/// Time allowed for a scan, in milliseconds.
pub const WIFI_SCAN_TIMEOUT_MS: u32 = 10_000;

/// Time between two attempts to connect again, in milliseconds.
pub const WIFI_RECONNECT_INTERVAL_MS: u32 = 5_000;

/// Largest number of attempts to connect again.
pub const WIFI_MAX_RECONNECT_ATTEMPTS: u32 = 10;

/// Number of WiFi events that can wait.
pub const WIFI_EVENT_QUEUE_SIZE: usize = 8;

/// Largest number of networks that a scan reports.
pub const WIFI_MAX_SCAN_RESULTS: usize = 16;

/// Fast advertising interval, in milliseconds.
pub const BLE_ADV_INTERVAL_FAST_MS: u32 = 100;

/// Slow advertising interval, in milliseconds.
pub const BLE_ADV_INTERVAL_SLOW_MS: u32 = 1000;

/// Smallest connection interval, in units of 1.25 ms.
pub const BLE_CONN_INTERVAL_MIN: u16 = 6;

/// Largest connection interval, in units of 1.25 ms.
pub const BLE_CONN_INTERVAL_MAX: u16 = 24;

/// Number of connection events that a peripheral may skip.
pub const BLE_SLAVE_LATENCY: u16 = 0;

/// Supervision timeout, in units of 10 ms.
pub const BLE_SUPERVISION_TIMEOUT: u16 = 400;

/// Size of the attribute protocol's transfer unit.
pub const BLE_MTU_SIZE: u16 = 247;

/// Largest number of BLE connections.
pub const BLE_MAX_CONNECTIONS: usize = 3;

/// Number of BLE events that can wait.
pub const BLE_EVENT_QUEUE_SIZE: usize = 8;

/// Size of a TCP receive buffer.
pub const TCP_RX_BUFFER_SIZE: usize = 4096;

/// Size of a TCP send buffer.
pub const TCP_TX_BUFFER_SIZE: usize = 4096;

/// Size of a UDP receive buffer.
pub const UDP_RX_BUFFER_SIZE: usize = 2048;

/// Size of a UDP send buffer.
pub const UDP_TX_BUFFER_SIZE: usize = 2048;

/// Largest number of TCP sockets.
pub const MAX_TCP_SOCKETS: usize = 4;

/// Largest number of UDP sockets.
pub const MAX_UDP_SOCKETS: usize = 4;

/// Number of cached name lookups.
pub const DNS_CACHE_SIZE: usize = 4;

/// Time allowed for getting an address by DHCP, in seconds.
pub const DHCP_TIMEOUT_SECS: u32 = 30;

/// Time allowed for a TCP connection to open, in seconds.
pub const TCP_CONNECT_TIMEOUT_SECS: u32 = 10;

/// Time between two keep-alive probes, in seconds.
pub const TCP_KEEPALIVE_INTERVAL_SECS: u32 = 60;

/// Largest Ethernet frame.
pub const ETHERNET_MTU: usize = 1514;

/// Largest IP packet.
pub const IP_MTU: usize = 1500;

/// Number of network buffers.
pub const NET_BUFFER_POOL_SIZE: usize = 16;

/// Size of one network buffer.
pub const NET_BUFFER_SIZE: usize = 1536;

/// Text of at most 32 bytes: a network name or a device name.
pub type Name32 = BoundedText<32>;

/// Text of at most 64 bytes: a password.
pub type Secret64 = BoundedText<64>;

/// The bytes that setting a text of at most `limit` bytes to `text` leaves:
/// the text where it fits, nothing where it does not.
pub open spec fn assigned(text: &str, limit: int) -> Seq<u8> {
    if text_fits(text.spec_bytes().len() as int, limit) {
        text.spec_bytes()
    } else {
        Seq::empty()
    }
}

/// The name that a device has where none is chosen.
pub fn default_device_name() -> (r: Name32)
    ensures
        r@ == "RustRTOS".spec_bytes(),
{
    let mut name = Name32::new();
    proof {
        reveal_strlit("RustRTOS");
        is_ascii_spec_bytes("RustRTOS");
    }
    let _ = name.assign("RustRTOS");
    name
}

/// Settings of the network layers.
pub struct NetworkConfig {
    /// Name of the WiFi network.
    pub wifi_ssid: Name32,
    /// Password of the WiFi network.
    pub wifi_password: Secret64,
    /// Name of the device on BLE.
    pub ble_device_name: Name32,
    /// Whether the address comes from DHCP.
    pub dhcp_enabled: bool,
    /// The address, where it does not come from DHCP.
    pub static_ip: Option<[u8; 4]>,
    /// The gateway.
    pub gateway: Option<[u8; 4]>,
    /// The name server.
    pub dns_server: Option<[u8; 4]>,
}

impl Clone for NetworkConfig {
    fn clone(&self) -> (r: Self)
        ensures
            r.wifi_ssid@ == self.wifi_ssid@,
            r.wifi_password@ == self.wifi_password@,
            r.ble_device_name@ == self.ble_device_name@,
            r.dhcp_enabled == self.dhcp_enabled,
            r.static_ip == self.static_ip,
            r.gateway == self.gateway,
            r.dns_server == self.dns_server,
    {
        NetworkConfig {
            wifi_ssid: self.wifi_ssid.clone(),
            wifi_password: self.wifi_password.clone(),
            ble_device_name: self.ble_device_name.clone(),
            dhcp_enabled: self.dhcp_enabled,
            static_ip: self.static_ip,
            gateway: self.gateway,
            dns_server: self.dns_server,
        }
    }
}

impl Default for NetworkConfig {
    fn default() -> (r: Self)
        ensures
            r.wifi_ssid@.len() == 0,
            r.wifi_password@.len() == 0,
            r.ble_device_name@ == "RustRTOS".spec_bytes(),
            r.dhcp_enabled,
            r.static_ip is None,
            r.gateway is None,
            r.dns_server is None,
    {
        NetworkConfig {
            wifi_ssid: Name32::new(),
            wifi_password: Secret64::new(),
            ble_device_name: default_device_name(),
            dhcp_enabled: true,
            static_ip: None,
            gateway: None,
            dns_server: None,
        }
    }
}

impl NetworkConfig {
    /// Settings with no names, and the address from DHCP.
    pub fn new() -> (r: Self)
        ensures
            r.wifi_ssid@.len() == 0,
            r.wifi_password@.len() == 0,
            r.ble_device_name@.len() == 0,
            r.dhcp_enabled,
            r.static_ip is None,
            r.gateway is None,
            r.dns_server is None,
    {
        NetworkConfig {
            wifi_ssid: Name32::new(),
            wifi_password: Secret64::new(),
            ble_device_name: Name32::new(),
            dhcp_enabled: true,
            static_ip: None,
            gateway: None,
            dns_server: None,
        }
    }

    /// The same settings with the name and password of the WiFi network.
    /// A name or password that does not fit is left empty.
    pub fn with_wifi_credentials(self, ssid: &str, password: &str) -> (r: Self)
        ensures
            r.wifi_ssid@ == assigned(ssid, 32),
            r.wifi_password@ == assigned(password, 64),
            r.ble_device_name@ == self.ble_device_name@,
            r.dhcp_enabled == self.dhcp_enabled,
            r.static_ip == self.static_ip,
            r.gateway == self.gateway,
            r.dns_server == self.dns_server,
    {
        let mut config = self;
        let _ = config.wifi_ssid.assign(ssid);
        let _ = config.wifi_password.assign(password);
        config
    }

    /// The same settings with the name of the device on BLE. A name that
    /// does not fit is left empty.
    pub fn with_ble_name(self, name: &str) -> (r: Self)
        ensures
            r.ble_device_name@ == assigned(name, 32),
            r.wifi_ssid@ == self.wifi_ssid@,
            r.wifi_password@ == self.wifi_password@,
            r.dhcp_enabled == self.dhcp_enabled,
            r.static_ip == self.static_ip,
            r.gateway == self.gateway,
            r.dns_server == self.dns_server,
    {
        let mut config = self;
        let _ = config.ble_device_name.assign(name);
        config
    }

    /// The same settings with a fixed address, gateway and name server,
    /// and without DHCP.
    pub fn with_static_ip(self, ip: [u8; 4], gateway: [u8; 4], dns: [u8; 4]) -> (r: Self)
        ensures
            !r.dhcp_enabled,
            r.static_ip == Some(ip),
            r.gateway == Some(gateway),
            r.dns_server == Some(dns),
            r.wifi_ssid@ == self.wifi_ssid@,
            r.wifi_password@ == self.wifi_password@,
            r.ble_device_name@ == self.ble_device_name@,
    {
        let mut config = self;
        config.dhcp_enabled = false;
        config.static_ip = Some(ip);
        config.gateway = Some(gateway);
        config.dns_server = Some(dns);
        config
    }
}

} // verus!
