//! State of the WiFi layer: the mode, the connection, the addresses, and
//! the events that each operation publishes.

use vstd::prelude::*;
use vstd::string::{is_ascii_spec_bytes, StringSliceAdditionalSpecFns};
use crate::net::config::{assigned, Name32, Secret64, WIFI_MAX_SCAN_RESULTS};

verus! {

/// What a WiFi operation can report.
#[derive(Debug, Clone, Copy, PartialEq, Eq, Structural)]
pub enum WifiError {
    /// The controller has not been set up.
    NotInitialized,
    /// The connection could not be opened.
    ConnectionFailed,
    /// The password was not accepted.
    AuthenticationFailed,
    /// The network was not found.
    NetworkNotFound,
    /// Time ran out.
    Timeout,
    /// The connection has ended.
    Disconnected,
    /// The controller is in a state that it should not be in.
    InternalError,
    /// The settings are not valid.
    ConfigError,
    /// The scan failed.
    ScanFailed,
    /// Memory ran out.
    OutOfMemory,
    /// The operation is not supported.
    Unsupported,
}

impl WifiError {
    /// The error in words.
    pub open spec fn spec_message(self) -> &'static str {
        match self {
            WifiError::NotInitialized => "WiFi not initialized",
            WifiError::ConnectionFailed => "Connection failed",
            WifiError::AuthenticationFailed => "Authentication failed",
            WifiError::NetworkNotFound => "Network not found",
            WifiError::Timeout => "Operation timeout",
            WifiError::Disconnected => "Disconnected",
            WifiError::InternalError => "Internal error",
            WifiError::ConfigError => "Configuration error",
            WifiError::ScanFailed => "Scan failed",
            WifiError::OutOfMemory => "Out of memory",
            WifiError::Unsupported => "Unsupported operation",
        }
    }

    /// The error in words.
    pub fn message(&self) -> (r: &'static str)
        ensures
            r == self.spec_message(),
    {
        match self {
            WifiError::NotInitialized => "WiFi not initialized",
            WifiError::ConnectionFailed => "Connection failed",
            WifiError::AuthenticationFailed => "Authentication failed",
            WifiError::NetworkNotFound => "Network not found",
            WifiError::Timeout => "Operation timeout",
            WifiError::Disconnected => "Disconnected",
            WifiError::InternalError => "Internal error",
            WifiError::ConfigError => "Configuration error",
            WifiError::ScanFailed => "Scan failed",
            WifiError::OutOfMemory => "Out of memory",
            WifiError::Unsupported => "Unsupported operation",
        }
    }
}

/// How the radio is used.
#[derive(Debug, Clone, Copy, PartialEq, Eq, Structural)]
pub enum WifiMode {
    /// Not at all.
    Unconfigured,
    /// As a station that joins a network.
    Sta,
    /// As an access point.
    Ap,
    /// As both.
    ApSta,
}

impl Default for WifiMode {
    fn default() -> (r: Self)
        ensures
            r == WifiMode::Unconfigured,
    {
        WifiMode::Unconfigured
    }
}

/// Why a connection ended.
#[derive(Debug, Clone, Copy, PartialEq, Eq, Structural)]
pub enum DisconnectReason {
    /// Not stated.
    Unspecified,
    /// The authentication has expired.
    AuthExpired,
    /// The station left while authenticated.
    AuthLeave,
    /// The association has expired.
    AssocExpired,
    /// The access point has too many stations.
    AssocTooMany,
    /// The station is not authenticated.
    NotAuthenticated,
    /// The station is not associated.
    NotAssociated,
    /// The station left.
    AssocLeave,
    /// The station is associated and not authenticated.
    AssocNotAuth,
    /// The channel is not valid.
    BadChannel,
    /// The beacons of the access point stopped coming.
    BeaconTimeout,
    /// No access point was found.
    NoApFound,
    /// The password was not accepted.
    WrongPassword,
    /// The connection failed.
    ConnectionFail,
    /// The handshake with the access point failed.
    ApHandshakeFail,
}

impl Default for DisconnectReason {
    fn default() -> (r: Self)
        ensures
            r == DisconnectReason::Unspecified,
    {
        DisconnectReason::Unspecified
    }
}

/// What happened on the WiFi layer.
#[derive(Debug, Clone, Copy, PartialEq, Eq)]
pub enum WifiEvent {
    /// The station has joined the network.
    StaConnected,
    /// The station has left the network.
    StaDisconnected {
        /// Why.
        reason: DisconnectReason,
    },
    /// The station has an address.
    GotIp {
        /// The address.
        ip: [u8; 4],
        /// The gateway.
        gateway: [u8; 4],
        /// The netmask.
        netmask: [u8; 4],
    },
    /// A scan has finished.
    ScanDone {
        /// Number of networks found.
        count: usize,
    },
    /// A station has joined the access point.
    ApStaConnected {
        /// Address of the station.
        mac: [u8; 6],
    },
    /// A station has left the access point.
    ApStaDisconnected {
        /// Address of the station.
        mac: [u8; 6],
    },
}

/// How a network is secured.
#[derive(Debug, Clone, Copy, PartialEq, Eq, Structural)]
pub enum AuthMode {
    /// Not at all.
    Open,
    /// WEP.
    Wep,
    /// WPA with a shared key.
    WpaPsk,
    /// WPA2 with a shared key.
    Wpa2Psk,
    /// WPA or WPA2 with a shared key.
    WpaWpa2Psk,
    /// WPA3 with a shared key.
    Wpa3Psk,
    /// WPA2 or WPA3 with a shared key.
    Wpa2Wpa3Psk,
    /// With a login.
    Enterprise,
}

impl Default for AuthMode {
    fn default() -> (r: Self)
        ensures
            r == AuthMode::Open,
    {
        AuthMode::Open
    }
}

/// One network that a scan has found.
pub struct ScanResult {
    /// Name of the network.
    pub ssid: Name32,
    /// Address of the access point.
    pub bssid: [u8; 6],
    /// Signal strength, in dBm.
    pub rssi: i8,
    /// Channel.
    pub channel: u8,
    /// How the network is secured.
    pub auth_mode: AuthMode,
}

impl Clone for ScanResult {
    fn clone(&self) -> (r: Self)
        ensures
            r.ssid@ == self.ssid@,
            r.bssid == self.bssid,
            r.rssi == self.rssi,
            r.channel == self.channel,
            r.auth_mode == self.auth_mode,
    {
        ScanResult {
            ssid: self.ssid.clone(),
            bssid: self.bssid,
            rssi: self.rssi,
            channel: self.channel,
            auth_mode: self.auth_mode,
        }
    }
}

/// How far the WiFi layer is.
#[derive(Debug, Clone, Copy, PartialEq, Eq, Structural)]
pub enum WifiState {
    /// Not set up.
    Uninitialized,
    /// Set up, not connected.
    Idle,
    /// Scanning.
    Scanning,
    /// Connecting.
    Connecting,
    /// Connected, without an address.
    Connected,
    /// Asking for an address.
    GettingIp,
    /// Connected, with an address.
    Ready,
    /// The connection has ended.
    Disconnected,
}

impl Default for WifiState {
    fn default() -> (r: Self)
        ensures
            r == WifiState::Uninitialized,
    {
        WifiState::Uninitialized
    }
}

/// The netmask that is published with an address.
pub open spec fn default_netmask() -> Seq<u8> {
    seq![255u8, 255u8, 255u8, 0u8]
}

/// The networks that the last scan found, at most sixteen, held in a
/// `heapless::Vec<ScanResult, WIFI_MAX_SCAN_RESULTS>`.
#[verifier::external_body]
pub struct ScanList {
    items: heapless::Vec<ScanResult, WIFI_MAX_SCAN_RESULTS>,
}

/// The networks that a `ScanList` holds, in the order in which they were
/// found.
pub uninterp spec fn scan_items(list: ScanList) -> Seq<ScanResult>;

/// Calls `heapless::Vec::new`, which makes an empty vector.
#[verifier::external_body]
fn scans_new() -> (r: ScanList)
    ensures
        scan_items(r) == Seq::<ScanResult>::empty(),
{
    ScanList { items: heapless::Vec::new() }
}

/// Calls `heapless::Vec::clear`, which removes every element.
#[verifier::external_body]
fn scans_clear(list: &mut ScanList)
    ensures
        scan_items(*final(list)) == Seq::<ScanResult>::empty(),
{
    list.items.clear()
}

/// Calls `heapless::Vec::as_slice`, which gives the elements that the
/// vector holds: at most the sixteen that it has room for.
#[verifier::external_body]
fn scans_as_slice(list: &ScanList) -> (r: &[ScanResult])
    ensures
        r@ == scan_items(*list),
        r@.len() <= WIFI_MAX_SCAN_RESULTS,
{
    list.items.as_slice()
}

/// The WiFi controller.
pub struct WifiController {
    mode: WifiMode,
    state: WifiState,
    ssid: Name32,
    password: Secret64,
    ip_address: Option<[u8; 4]>,
    gateway: Option<[u8; 4]>,
    scan_results: ScanList,
    reconnect_count: u32,
    auto_reconnect: bool,
}

/// The WiFi controller as a value.
pub struct WifiView {
    /// How the radio is used.
    pub mode: WifiMode,
    /// How far the controller is.
    pub state: WifiState,
    /// Name of the network, in bytes.
    pub ssid: Seq<u8>,
    /// Password of the network, in bytes.
    pub password: Seq<u8>,
    /// The address.
    pub ip_address: Option<[u8; 4]>,
    /// The gateway.
    pub gateway: Option<[u8; 4]>,
    /// The networks that the last scan found.
    pub scan_results: Seq<ScanResult>,
    /// Number of attempts to connect again.
    pub reconnect_count: u32,
    /// Whether the controller connects again by itself.
    pub auto_reconnect: bool,
}

impl View for WifiController {
    type V = WifiView;

    closed spec fn view(&self) -> WifiView {
        WifiView {
            mode: self.mode,
            state: self.state,
            ssid: self.ssid@,
            password: self.password@,
            ip_address: self.ip_address,
            gateway: self.gateway,
            scan_results: scan_items(self.scan_results),
            reconnect_count: self.reconnect_count,
            auto_reconnect: self.auto_reconnect,
        }
    }
}

impl WifiController {
    /// A controller that is not set up.
    pub fn new() -> (r: Self)
        ensures
            r@ == (WifiView {
                mode: WifiMode::Unconfigured,
                state: WifiState::Uninitialized,
                ssid: Seq::empty(),
                password: Seq::empty(),
                ip_address: None,
                gateway: None,
                scan_results: Seq::<ScanResult>::empty(),
                reconnect_count: 0,
                auto_reconnect: true,
            }),
    {
        WifiController {
            mode: WifiMode::Unconfigured,
            state: WifiState::Uninitialized,
            ssid: Name32::new(),
            password: Secret64::new(),
            ip_address: None,
            gateway: None,
            scan_results: scans_new(),
            reconnect_count: 0,
            auto_reconnect: true,
        }
    }

    /// Sets the controller up: it is idle.
    pub fn init(&mut self) -> (r: Result<(), WifiError>)
        ensures
            r is Ok,
            final(self)@ == (WifiView { state: WifiState::Idle, ..old(self)@ }),
    {
        self.state = WifiState::Idle;
        Ok(())
    }

    /// Whether the controller has been set up.
    fn is_set_up(&self) -> (r: bool)
        ensures
            r == (self@.state != WifiState::Uninitialized),
    {
        match self.state {
            WifiState::Uninitialized => false,
            _ => true,
        }
    }

    /// Chooses how the radio is used.
    pub fn set_mode(&mut self, mode: WifiMode) -> (r: Result<(), WifiError>)
        ensures
            r == if old(self)@.state == WifiState::Uninitialized {
                Err::<(), WifiError>(WifiError::NotInitialized)
            } else {
                Ok::<(), WifiError>(())
            },
            final(self)@ == if r is Ok {
                WifiView { mode, ..old(self)@ }
            } else {
                old(self)@
            },
    {
        if !self.is_set_up() {
            return Err(WifiError::NotInitialized);
        }
        self.mode = mode;
        Ok(())
    }

    /// How the radio is used.
    pub fn mode(&self) -> (r: WifiMode)
        ensures
            r == self@.mode,
    {
        self.mode
    }

    /// How far the controller is.
    pub fn state(&self) -> (r: WifiState)
        ensures
            r == self@.state,
    {
        self.state
    }

    /// Accounts for a scan: the results of the scan before are dropped,
    /// the controller is idle, and the event to publish is returned. The
    /// scan itself is made by the caller's radio stack.
    pub fn scan(&mut self) -> (r: Result<WifiEvent, WifiError>)
        ensures
            r == if old(self)@.state == WifiState::Uninitialized {
                Err::<WifiEvent, WifiError>(WifiError::NotInitialized)
            } else {
                Ok::<WifiEvent, WifiError>(WifiEvent::ScanDone { count: 0 })
            },
            final(self)@ == if r is Ok {
                WifiView {
                    state: WifiState::Idle,
                    scan_results: Seq::<ScanResult>::empty(),
                    ..old(self)@
                }
            } else {
                old(self)@
            },
    {
        if !self.is_set_up() {
            return Err(WifiError::NotInitialized);
        }
        self.state = WifiState::Scanning;
        scans_clear(&mut self.scan_results);
        self.state = WifiState::Idle;
        Ok(WifiEvent::ScanDone { count: scans_as_slice(&self.scan_results).len() })
    }

    /// Starts connecting to the network `ssid` with the password
    /// `password`: both are kept, and the controller waits for the radio
    /// stack to report. A name or password that does not fit is left
    /// empty.
    pub fn connect(&mut self, ssid: &str, password: &str) -> (r: Result<(), WifiError>)
        ensures
            r == if old(self)@.state == WifiState::Uninitialized {
                Err::<(), WifiError>(WifiError::NotInitialized)
            } else {
                Ok::<(), WifiError>(())
            },
            final(self)@ == if r is Ok {
                WifiView {
                    state: WifiState::Connecting,
                    ssid: assigned(ssid, 32),
                    password: assigned(password, 64),
                    reconnect_count: 0,
                    ..old(self)@
                }
            } else {
                old(self)@
            },
    {
        if !self.is_set_up() {
            return Err(WifiError::NotInitialized);
        }
        let _ = self.ssid.assign(ssid);
        let _ = self.password.assign(password);
        self.state = WifiState::Connecting;
        self.reconnect_count = 0;
        Ok(())
    }

    /// Takes what the radio stack reports while the controller connects:
    /// `Some(true)` for connected, `Some(false)` for failed, `None` where
    /// the time allowed has passed. Returns the event to publish when the
    /// controller has connected.
    pub fn wait_connected(&mut self, report: Option<bool>) -> (r: Result<WifiEvent, WifiError>)
        ensures
            r == match report {
                Some(true) => Ok::<WifiEvent, WifiError>(WifiEvent::StaConnected),
                Some(false) => Err::<WifiEvent, WifiError>(WifiError::ConnectionFailed),
                None => Err::<WifiEvent, WifiError>(WifiError::Timeout),
            },
            final(self)@ == match report {
                Some(true) => WifiView { state: WifiState::Connected, ..old(self)@ },
                Some(false) => old(self)@,
                None => WifiView { state: WifiState::Disconnected, ..old(self)@ },
            },
    {
        match report {
            Some(true) => {
                self.state = WifiState::Connected;
                Ok(WifiEvent::StaConnected)
            },
            Some(false) => Err(WifiError::ConnectionFailed),
            None => {
                self.state = WifiState::Disconnected;
                Err(WifiError::Timeout)
            },
        }
    }

    /// Leaves the network: the addresses are dropped, and the event to
    /// publish is returned.
    pub fn disconnect(&mut self) -> (r: Result<WifiEvent, WifiError>)
        ensures
            r == if old(self)@.state == WifiState::Uninitialized {
                Err::<WifiEvent, WifiError>(WifiError::NotInitialized)
            } else {
                Ok::<WifiEvent, WifiError>(
                    WifiEvent::StaDisconnected { reason: DisconnectReason::AssocLeave },
                )
            },
            final(self)@ == if r is Ok {
                WifiView {
                    state: WifiState::Disconnected,
                    ip_address: None,
                    gateway: None,
                    ..old(self)@
                }
            } else {
                old(self)@
            },
    {
        if !self.is_set_up() {
            return Err(WifiError::NotInitialized);
        }
        self.state = WifiState::Disconnected;
        self.ip_address = None;
        self.gateway = None;
        Ok(WifiEvent::StaDisconnected { reason: DisconnectReason::AssocLeave })
    }

    /// Looks for the address while a connected controller waits for one:
    /// returns it when it is there, and `None` while it is not. The caller
    /// asks again until the time allowed has passed.
    pub fn wait_for_ip(&mut self) -> (r: Result<Option<[u8; 4]>, WifiError>)
        ensures
            r == if old(self)@.state != WifiState::Connected && old(self)@.state
                != WifiState::GettingIp {
                Err::<Option<[u8; 4]>, WifiError>(WifiError::NotInitialized)
            } else {
                Ok::<Option<[u8; 4]>, WifiError>(old(self)@.ip_address)
            },
            final(self)@ == if r is Err {
                old(self)@
            } else if old(self)@.ip_address is Some {
                WifiView { state: WifiState::Ready, ..old(self)@ }
            } else {
                WifiView { state: WifiState::GettingIp, ..old(self)@ }
            },
    {
        match self.state {
            WifiState::Connected => {},
            WifiState::GettingIp => {},
            _ => {
                return Err(WifiError::NotInitialized);
            },
        }
        self.state = WifiState::GettingIp;
        match self.ip_address {
            Some(ip) => {
                self.state = WifiState::Ready;
                Ok(Some(ip))
            },
            None => Ok(None),
        }
    }

    /// The address.
    pub fn ip_address(&self) -> (r: Option<[u8; 4]>)
        ensures
            r == self@.ip_address,
    {
        self.ip_address
    }

    /// The gateway.
    pub fn gateway(&self) -> (r: Option<[u8; 4]>)
        ensures
            r == self@.gateway,
    {
        self.gateway
    }

    /// Takes the address `ip` and the gateway `gateway` that DHCP has
    /// given, and returns the event to publish, which carries the netmask
    /// 255.255.255.0.
    pub fn set_ip_address(&mut self, ip: [u8; 4], gateway: [u8; 4]) -> (r: WifiEvent)
        ensures
            r matches WifiEvent::GotIp { ip: i, gateway: g, netmask: n } && i == ip && g == gateway
                && n@ == default_netmask(),
            final(self)@ == (WifiView {
                state: WifiState::Ready,
                ip_address: Some(ip),
                gateway: Some(gateway),
                ..old(self)@
            }),
    {
        self.ip_address = Some(ip);
        self.gateway = Some(gateway);
        self.state = WifiState::Ready;
        let netmask: [u8; 4] = [255, 255, 255, 0];
        assert(netmask@ =~= default_netmask());
        WifiEvent::GotIp { ip, gateway, netmask }
    }

    /// Takes the report of the radio stack that the station has joined or
    /// left the network, and returns the event to publish, if any. The
    /// caller passes `connected` on to whoever waits in `wait_connected`.
    pub fn set_connected(&mut self, connected: bool) -> (r: Option<WifiEvent>)
        ensures
            r == if connected {
                Some(WifiEvent::StaConnected)
            } else {
                None
            },
            final(self)@ == if connected {
                WifiView { state: WifiState::Connected, ..old(self)@ }
            } else {
                WifiView {
                    state: WifiState::Disconnected,
                    ip_address: None,
                    gateway: None,
                    ..old(self)@
                }
            },
    {
        if connected {
            self.state = WifiState::Connected;
            Some(WifiEvent::StaConnected)
        } else {
            self.state = WifiState::Disconnected;
            self.ip_address = None;
            self.gateway = None;
            None
        }
    }

    /// Whether the station is in a network, with or without an address.
    pub fn is_connected(&self) -> (r: bool)
        ensures
            r == (self@.state == WifiState::Connected || self@.state == WifiState::GettingIp
                || self@.state == WifiState::Ready),
    {
        match self.state {
            WifiState::Connected => true,
            WifiState::GettingIp => true,
            WifiState::Ready => true,
            _ => false,
        }
    }

    /// Chooses whether the controller connects again by itself.
    pub fn set_auto_reconnect(&mut self, enabled: bool)
        ensures
            final(self)@ == (WifiView { auto_reconnect: enabled, ..old(self)@ }),
    {
        self.auto_reconnect = enabled;
    }

    /// The networks that the last scan found.
    pub fn scan_results(&self) -> (r: &[ScanResult])
        ensures
            r@ == self@.scan_results,
            r@.len() <= WIFI_MAX_SCAN_RESULTS,
    {
        scans_as_slice(&self.scan_results)
    }
}

/// Settings of the access point.
pub struct ApConfig {
    /// Name of the network.
    pub ssid: Name32,
    /// Password; empty for an open network.
    pub password: Secret64,
    /// Channel, 1 to 13.
    pub channel: u8,
    /// Largest number of stations.
    pub max_clients: u8,
    /// Whether the name is hidden.
    pub hidden: bool,
}

impl Clone for ApConfig {
    fn clone(&self) -> (r: Self)
        ensures
            r.ssid@ == self.ssid@,
            r.password@ == self.password@,
            r.channel == self.channel,
            r.max_clients == self.max_clients,
            r.hidden == self.hidden,
    {
        ApConfig {
            ssid: self.ssid.clone(),
            password: self.password.clone(),
            channel: self.channel,
            max_clients: self.max_clients,
            hidden: self.hidden,
        }
    }
}

impl Default for ApConfig {
    fn default() -> (r: Self)
        ensures
            r.ssid@ == "RustRTOS-AP".spec_bytes(),
            r.password@.len() == 0,
            r.channel == 1,
            r.max_clients == 4,
            !r.hidden,
    {
        let mut ssid = Name32::new();
        proof {
            reveal_strlit("RustRTOS-AP");
            is_ascii_spec_bytes("RustRTOS-AP");
        }
        let _ = ssid.assign("RustRTOS-AP");
        ApConfig { ssid, password: Secret64::new(), channel: 1, max_clients: 4, hidden: false }
    }
}

/// Traffic figures of the WiFi layer.
#[derive(Debug, Clone, Copy, PartialEq, Eq, Structural)]
pub struct WifiStats {
    /// Packets sent.
    pub tx_packets: u32,
    /// Packets received.
    pub rx_packets: u32,
    /// Bytes sent.
    pub tx_bytes: u64,
    /// Bytes received.
    pub rx_bytes: u64,
    /// Packets that could not be sent.
    pub tx_errors: u32,
    /// Packets that were received damaged.
    pub rx_errors: u32,
    /// Signal strength, in dBm.
    pub rssi: i8,
    /// Time connected, in seconds.
    pub connected_time: u32,
}

impl Default for WifiStats {
    fn default() -> (r: Self)
        ensures
            r == (WifiStats {
                tx_packets: 0,
                rx_packets: 0,
                tx_bytes: 0,
                rx_bytes: 0,
                tx_errors: 0,
                rx_errors: 0,
                rssi: 0,
                connected_time: 0,
            }),
    {
        WifiStats {
            tx_packets: 0,
            rx_packets: 0,
            tx_bytes: 0,
            rx_bytes: 0,
            tx_errors: 0,
            rx_errors: 0,
            rssi: 0,
            connected_time: 0,
        }
    }
}

} // verus!
