//! State of the BLE layer: advertising, the connections, and the events
//! that each operation publishes.

use vstd::prelude::*;
use vstd::string::StringSliceAdditionalSpecFns;
use crate::net::config::{
    assigned, default_device_name, Name32, BLE_ADV_INTERVAL_FAST_MS, BLE_CONN_INTERVAL_MIN,
    BLE_MAX_CONNECTIONS, BLE_SLAVE_LATENCY, BLE_SUPERVISION_TIMEOUT,
};
use crate::util::bounded::InlineBytes;

verus! {

/// What a BLE operation can report.
#[derive(Debug, Clone, Copy, PartialEq, Eq, Structural)]
pub enum BleError {
    /// The controller has not been set up.
    NotInitialized,
    /// The controller advertises.
    AlreadyAdvertising,
    /// Advertising could not be started.
    AdvertisingFailed,
    /// The connection could not be opened.
    ConnectionFailed,
    /// There is no such connection.
    Disconnected,
    /// Pairing failed.
    PairingFailed,
    /// An attribute operation failed.
    GattError,
    /// Memory ran out.
    OutOfMemory,
    /// A parameter is not valid.
    InvalidParameter,
    /// Time ran out.
    Timeout,
    /// The controller is in a state that it should not be in.
    InternalError,
    /// The operation is not supported.
    Unsupported,
    /// No further connection can be taken.
    MaxConnectionsReached,
}

impl BleError {
    /// The error in words.
    pub open spec fn spec_message(self) -> &'static str {
        match self {
            BleError::NotInitialized => "BLE not initialized",
            BleError::AlreadyAdvertising => "Already advertising",
            BleError::AdvertisingFailed => "Advertising failed",
            BleError::ConnectionFailed => "Connection failed",
            BleError::Disconnected => "Disconnected",
            BleError::PairingFailed => "Pairing failed",
            BleError::GattError => "GATT error",
            BleError::OutOfMemory => "Out of memory",
            BleError::InvalidParameter => "Invalid parameter",
            BleError::Timeout => "Timeout",
            BleError::InternalError => "Internal error",
            BleError::Unsupported => "Unsupported",
            BleError::MaxConnectionsReached => "Max connections reached",
        }
    }

    /// The error in words.
    pub fn message(&self) -> (r: &'static str)
        ensures
            r == self.spec_message(),
    {
        match self {
            BleError::NotInitialized => "BLE not initialized",
            BleError::AlreadyAdvertising => "Already advertising",
            BleError::AdvertisingFailed => "Advertising failed",
            BleError::ConnectionFailed => "Connection failed",
            BleError::Disconnected => "Disconnected",
            BleError::PairingFailed => "Pairing failed",
            BleError::GattError => "GATT error",
            BleError::OutOfMemory => "Out of memory",
            BleError::InvalidParameter => "Invalid parameter",
            BleError::Timeout => "Timeout",
            BleError::InternalError => "Internal error",
            BleError::Unsupported => "Unsupported",
            BleError::MaxConnectionsReached => "Max connections reached",
        }
    }
}

/// Why a connection ended.
#[derive(Debug, Clone, Copy, PartialEq, Eq, Structural)]
pub enum DisconnectReason {
    /// Not known.
    Unknown,
    /// The peer ended the connection.
    RemoteUserTerminated,
    /// This host ended the connection.
    LocalHostTerminated,
    /// The connection timed out.
    ConnectionTimeout,
    /// Authentication failed.
    AuthenticationFailure,
    /// The connection parameters were not accepted.
    UnacceptableConnectionParameters,
}

impl Default for DisconnectReason {
    fn default() -> (r: Self)
        ensures
            r == DisconnectReason::Unknown,
    {
        DisconnectReason::Unknown
    }
}

/// What happened on the BLE layer.
#[derive(Debug, Clone, Copy, PartialEq, Eq)]
pub enum BleEvent {
    /// Advertising has started.
    AdvertisingStarted,
    /// Advertising has stopped.
    AdvertisingStopped,
    /// A peer has connected.
    Connected {
        /// Handle of the connection.
        conn_handle: u16,
        /// Address of the peer.
        peer_addr: [u8; 6],
    },
    /// A connection has ended.
    Disconnected {
        /// Handle of the connection.
        conn_handle: u16,
        /// Why it ended.
        reason: DisconnectReason,
    },
    /// The transfer unit of a connection has changed.
    MtuUpdated {
        /// Handle of the connection.
        conn_handle: u16,
        /// The new size.
        mtu: u16,
    },
    /// A peer asks to write an attribute.
    WriteRequest {
        /// Handle of the connection.
        conn_handle: u16,
        /// Handle of the attribute.
        attr_handle: u16,
        /// Number of bytes.
        len: usize,
    },
    /// A peer asks to read an attribute.
    ReadRequest {
        /// Handle of the connection.
        conn_handle: u16,
        /// Handle of the attribute.
        attr_handle: u16,
    },
    /// A notification has been sent.
    NotificationSent {
        /// Handle of the connection.
        conn_handle: u16,
    },
    /// Pairing has finished.
    PairingComplete {
        /// Handle of the connection.
        conn_handle: u16,
        /// Whether the keys are kept.
        bonded: bool,
    },
}

/// How far the BLE layer is.
#[derive(Debug, Clone, Copy, PartialEq, Eq, Structural)]
pub enum BleState {
    /// Not set up.
    Uninitialized,
    /// Set up, doing nothing.
    Idle,
    /// Advertising.
    Advertising,
    /// Connected.
    Connected,
    /// Scanning.
    Scanning,
}

impl Default for BleState {
    fn default() -> (r: Self)
        ensures
            r == BleState::Uninitialized,
    {
        BleState::Uninitialized
    }
}

/// Settings of advertising.
pub struct AdvertiseConfig {
    /// Name of the device.
    pub name: Name32,
    /// Advertising interval, in milliseconds.
    pub interval_ms: u32,
    /// Whether peers can connect.
    pub connectable: bool,
    /// Whether peers can ask for the scan response.
    pub scannable: bool,
    /// Advertising data, at most 31 bytes.
    pub adv_data: InlineBytes,
    /// Scan response data, at most 31 bytes.
    pub scan_rsp_data: InlineBytes,
    /// Time after which advertising stops, in seconds; 0 for never.
    pub timeout_secs: u16,
}

impl Clone for AdvertiseConfig {
    fn clone(&self) -> (r: Self)
        ensures
            r.name@ == self.name@,
            r.interval_ms == self.interval_ms,
            r.connectable == self.connectable,
            r.scannable == self.scannable,
            r.adv_data@ == self.adv_data@,
            r.scan_rsp_data@ == self.scan_rsp_data@,
            r.timeout_secs == self.timeout_secs,
    {
        AdvertiseConfig {
            name: self.name.clone(),
            interval_ms: self.interval_ms,
            connectable: self.connectable,
            scannable: self.scannable,
            adv_data: self.adv_data.clone(),
            scan_rsp_data: self.scan_rsp_data.clone(),
            timeout_secs: self.timeout_secs,
        }
    }
}

impl Default for AdvertiseConfig {
    fn default() -> (r: Self)
        ensures
            r.name@ == "RustRTOS".spec_bytes(),
            r.interval_ms == BLE_ADV_INTERVAL_FAST_MS,
            r.connectable,
            r.scannable,
            r.adv_data@.len() == 0,
            r.scan_rsp_data@.len() == 0,
            r.timeout_secs == 0,
    {
        AdvertiseConfig {
            name: default_device_name(),
            interval_ms: BLE_ADV_INTERVAL_FAST_MS,
            connectable: true,
            scannable: true,
            adv_data: InlineBytes::new(),
            scan_rsp_data: InlineBytes::new(),
            timeout_secs: 0,
        }
    }
}

impl AdvertiseConfig {
    /// The same settings with the name `name`. A name that does not fit is
    /// left empty.
    pub fn with_name(self, name: &str) -> (r: Self)
        ensures
            r.name@ == assigned(name, 32),
            r.interval_ms == self.interval_ms,
            r.connectable == self.connectable,
            r.scannable == self.scannable,
            r.adv_data@ == self.adv_data@,
            r.scan_rsp_data@ == self.scan_rsp_data@,
            r.timeout_secs == self.timeout_secs,
    {
        let mut config = self;
        let _ = config.name.assign(name);
        config
    }

    /// The same settings with the interval `interval`.
    pub fn with_interval_ms(self, interval: u32) -> (r: Self)
        ensures
            r.interval_ms == interval,
            r.name@ == self.name@,
            r.connectable == self.connectable,
            r.scannable == self.scannable,
            r.adv_data@ == self.adv_data@,
            r.scan_rsp_data@ == self.scan_rsp_data@,
            r.timeout_secs == self.timeout_secs,
    {
        let mut config = self;
        config.interval_ms = interval;
        config
    }

    /// The same settings, connectable or not.
    pub fn with_connectable(self, connectable: bool) -> (r: Self)
        ensures
            r.connectable == connectable,
            r.name@ == self.name@,
            r.interval_ms == self.interval_ms,
            r.scannable == self.scannable,
            r.adv_data@ == self.adv_data@,
            r.scan_rsp_data@ == self.scan_rsp_data@,
            r.timeout_secs == self.timeout_secs,
    {
        let mut config = self;
        config.connectable = connectable;
        config
    }

    /// The same settings with the timeout `timeout`.
    pub fn with_timeout_secs(self, timeout: u16) -> (r: Self)
        ensures
            r.timeout_secs == timeout,
            r.name@ == self.name@,
            r.interval_ms == self.interval_ms,
            r.connectable == self.connectable,
            r.scannable == self.scannable,
            r.adv_data@ == self.adv_data@,
            r.scan_rsp_data@ == self.scan_rsp_data@,
    {
        let mut config = self;
        config.timeout_secs = timeout;
        config
    }

    /// The same settings with the advertising data `data`. Data of more
    /// than 31 bytes is left out.
    pub fn with_adv_data(self, data: &[u8]) -> (r: Self)
        ensures
            r.adv_data@ == if data@.len() <= 31 {
                data@
            } else {
                Seq::<u8>::empty()
            },
            r.name@ == self.name@,
            r.interval_ms == self.interval_ms,
            r.connectable == self.connectable,
            r.scannable == self.scannable,
            r.scan_rsp_data@ == self.scan_rsp_data@,
            r.timeout_secs == self.timeout_secs,
    {
        let mut config = self;
        let _ = config.adv_data.assign(data);
        config
    }
}

/// One connection.
#[derive(Debug, Clone, Copy, PartialEq, Eq)]
pub struct ConnectionInfo {
    /// Handle of the connection.
    pub handle: u16,
    /// Address of the peer.
    pub peer_addr: [u8; 6],
    /// Connection interval, in units of 1.25 ms.
    pub interval: u16,
    /// Number of connection events that the peripheral may skip.
    pub latency: u16,
    /// Supervision timeout, in units of 10 ms.
    pub timeout: u16,
    /// Size of the transfer unit.
    pub mtu: u16,
    /// Whether the keys are kept.
    pub bonded: bool,
}

/// The transfer unit of a new connection.
pub const DEFAULT_MTU: u16 = 23;

/// The record of a connection that has just been opened.
pub open spec fn fresh_connection(conn_handle: u16, peer_addr: [u8; 6]) -> ConnectionInfo {
    ConnectionInfo {
        handle: conn_handle,
        peer_addr,
        interval: BLE_CONN_INTERVAL_MIN,
        latency: BLE_SLAVE_LATENCY,
        timeout: BLE_SUPERVISION_TIMEOUT,
        mtu: DEFAULT_MTU,
        bonded: false,
    }
}

/// A 16-bit or 128-bit identifier of a service or characteristic.
#[derive(Debug, Clone, Copy, PartialEq, Eq)]
pub enum Uuid {
    /// A 16-bit identifier.
    Uuid16(u16),
    /// A 128-bit identifier.
    Uuid128([u8; 16]),
}

impl Uuid {
    /// The 16-bit identifier `uuid`.
    pub fn from_u16(uuid: u16) -> (r: Self)
        ensures
            r == Uuid::Uuid16(uuid),
    {
        Uuid::Uuid16(uuid)
    }

    /// The 128-bit identifier `uuid`.
    pub fn from_u128(uuid: [u8; 16]) -> (r: Self)
        ensures
            r == Uuid::Uuid128(uuid),
    {
        Uuid::Uuid128(uuid)
    }
}

/// What peers may do with a characteristic.
#[derive(Debug, Clone, Copy, PartialEq, Eq, Structural)]
pub struct CharacteristicProps {
    /// Read.
    pub read: bool,
    /// Write without an answer.
    pub write_without_response: bool,
    /// Write.
    pub write: bool,
    /// Be notified.
    pub notify: bool,
    /// Be notified with an answer.
    pub indicate: bool,
}

impl Default for CharacteristicProps {
    fn default() -> (r: Self)
        ensures
            r == (CharacteristicProps {
                read: true,
                write_without_response: false,
                write: false,
                notify: false,
                indicate: false,
            }),
    {
        CharacteristicProps {
            read: true,
            write_without_response: false,
            write: false,
            notify: false,
            indicate: false,
        }
    }
}

impl CharacteristicProps {
    /// Read and write.
    pub fn read_write() -> (r: Self)
        ensures
            r == (CharacteristicProps {
                read: true,
                write_without_response: false,
                write: true,
                notify: false,
                indicate: false,
            }),
    {
        CharacteristicProps {
            read: true,
            write_without_response: false,
            write: true,
            notify: false,
            indicate: false,
        }
    }

    /// Read and be notified.
    pub fn read_notify() -> (r: Self)
        ensures
            r == (CharacteristicProps {
                read: true,
                write_without_response: false,
                write: false,
                notify: true,
                indicate: false,
            }),
    {
        CharacteristicProps {
            read: true,
            write_without_response: false,
            write: false,
            notify: true,
            indicate: false,
        }
    }
}

/// A characteristic of a service.
#[derive(Debug, Clone, Copy, PartialEq, Eq)]
pub struct Characteristic {
    /// Identifier.
    pub uuid: Uuid,
    /// What peers may do.
    pub props: CharacteristicProps,
    /// Handle of the declaration.
    pub handle: u16,
    /// Handle of the value.
    pub value_handle: u16,
}

/// A service.
#[derive(Debug, Clone, Copy, PartialEq, Eq)]
pub struct Service {
    /// Identifier.
    pub uuid: Uuid,
    /// Whether the service is a primary one.
    pub primary: bool,
    /// Handle of the service.
    pub handle: u16,
    /// Number of characteristics.
    pub characteristic_count: usize,
}

/// The connections of a controller, at most three, held in a
/// `heapless::Vec<ConnectionInfo, BLE_MAX_CONNECTIONS>`.
#[verifier::external_body]
pub struct ConnectionList {
    items: heapless::Vec<ConnectionInfo, BLE_MAX_CONNECTIONS>,
}

/// The connections that a `ConnectionList` holds, oldest first.
pub uninterp spec fn connection_items(list: ConnectionList) -> Seq<ConnectionInfo>;

/// Calls `heapless::Vec::new`, which makes an empty vector.
#[verifier::external_body]
fn connections_new() -> (r: ConnectionList)
    ensures
        connection_items(r) == Seq::<ConnectionInfo>::empty(),
{
    ConnectionList { items: heapless::Vec::new() }
}

/// Calls `heapless::Vec::push`, which appends `item` where the vector
/// holds fewer than its three elements, and otherwise changes nothing and
/// hands the item back. Returns whether the item was appended.
#[verifier::external_body]
fn connections_push(list: &mut ConnectionList, item: ConnectionInfo) -> (r: bool)
    ensures
        r == (connection_items(*old(list)).len() < BLE_MAX_CONNECTIONS),
        r ==> connection_items(*final(list)) == connection_items(*old(list)).push(item),
        !r ==> connection_items(*final(list)) == connection_items(*old(list)),
{
    list.items.push(item).is_ok()
}

/// Calls `heapless::Vec::pop`, which removes the last element and returns
/// it, or returns `None` where the vector is empty.
#[verifier::external_body]
fn connections_pop(list: &mut ConnectionList) -> (r: Option<ConnectionInfo>)
    ensures
        connection_items(*old(list)).len() == 0 ==> r is None && connection_items(*final(list))
            == connection_items(*old(list)),
        connection_items(*old(list)).len() > 0 ==> r == Some(connection_items(*old(list)).last())
            && connection_items(*final(list)) == connection_items(*old(list)).drop_last(),
{
    list.items.pop()
}

/// Calls `heapless::Vec::remove`, which removes the element at `index` and
/// returns it, moving the elements behind it one place forward. It panics
/// for an index past the last element, which the contract leaves out.
#[verifier::external_body]
fn connections_remove(list: &mut ConnectionList, index: usize) -> (r: ConnectionInfo)
    requires
        index < connection_items(*old(list)).len(),
    ensures
        r == connection_items(*old(list))[index as int],
        connection_items(*final(list)) == connection_items(*old(list)).remove(index as int),
{
    list.items.remove(index)
}

/// Calls `heapless::Vec::as_slice`, which gives the elements that the
/// vector holds: at most the three that it has room for.
#[verifier::external_body]
fn connections_as_slice(list: &ConnectionList) -> (r: &[ConnectionInfo])
    ensures
        r@ == connection_items(*list),
        r@.len() <= BLE_MAX_CONNECTIONS,
{
    list.items.as_slice()
}

/// The services of a server, at most eight, held in a
/// `heapless::Vec<Service, 8>`.
#[verifier::external_body]
pub struct ServiceList {
    items: heapless::Vec<Service, 8>,
}

/// The services that a `ServiceList` holds, in the order in which they
/// were added.
pub uninterp spec fn service_items(list: ServiceList) -> Seq<Service>;

/// Calls `heapless::Vec::new`, which makes an empty vector.
#[verifier::external_body]
fn services_new() -> (r: ServiceList)
    ensures
        service_items(r) == Seq::<Service>::empty(),
{
    ServiceList { items: heapless::Vec::new() }
}

/// Calls `heapless::Vec::push`, which appends `item` where the vector
/// holds fewer than its eight elements, and otherwise changes nothing and
/// hands the item back. Returns whether the item was appended.
#[verifier::external_body]
fn services_push(list: &mut ServiceList, item: Service) -> (r: bool)
    ensures
        r == (service_items(*old(list)).len() < 8),
        r ==> service_items(*final(list)) == service_items(*old(list)).push(item),
        !r ==> service_items(*final(list)) == service_items(*old(list)),
{
    list.items.push(item).is_ok()
}

/// Calls `heapless::Vec::as_slice`, which gives the elements that the
/// vector holds: at most the eight that it has room for.
#[verifier::external_body]
fn services_as_slice(list: &ServiceList) -> (r: &[Service])
    ensures
        r@ == service_items(*list),
        r@.len() <= 8,
{
    list.items.as_slice()
}

/// The record of the first connection with the handle `handle` among the
/// first `n` of `s`.
pub open spec fn first_with_handle(s: Seq<ConnectionInfo>, handle: u16, i: int) -> bool {
    &&& 0 <= i < s.len()
    &&& s[i].handle == handle
    &&& forall|j: int| 0 <= j < i ==> (#[trigger] s[j]).handle != handle
}

/// Whether `s` has a connection with the handle `handle`.
pub open spec fn has_handle(s: Seq<ConnectionInfo>, handle: u16) -> bool {
    exists|i: int| 0 <= i < s.len() && (#[trigger] s[i]).handle == handle
}

/// The address that the controller has after `init`.
pub open spec fn fixed_address() -> Seq<u8> {
    seq![0x12u8, 0x34u8, 0x56u8, 0x78u8, 0x9Au8, 0xBCu8]
}

/// The BLE controller: how far it is, and its connections.
pub struct BleController {
    state: BleState,
    connections: ConnectionList,
    local_addr: [u8; 6],
    adv_config: Option<AdvertiseConfig>,
}

impl BleController {
    /// How far the controller is.
    pub closed spec fn spec_state(&self) -> BleState {
        self.state
    }

    /// The connections, oldest first.
    pub closed spec fn connections(&self) -> Seq<ConnectionInfo> {
        connection_items(self.connections)
    }

    /// The address of the controller.
    pub closed spec fn spec_local_address(&self) -> Seq<u8> {
        self.local_addr@
    }

    /// The settings that advertising was last started with.
    pub closed spec fn spec_adv_config(&self) -> Option<AdvertiseConfig> {
        self.adv_config
    }

    /// A controller that is not set up.
    pub fn new() -> (r: Self)
        ensures
            r.spec_state() == BleState::Uninitialized,
            r.connections().len() == 0,
            r.spec_local_address() == seq![0u8, 0u8, 0u8, 0u8, 0u8, 0u8],
            r.spec_adv_config() is None,
    {
        let r = BleController {
            state: BleState::Uninitialized,
            connections: connections_new(),
            local_addr: [0;6],
            adv_config: None,
        };
        assert(r.local_addr@ =~= seq![0u8, 0u8, 0u8, 0u8, 0u8, 0u8]);
        r
    }

    /// Sets the controller up: it is idle and has its address.
    pub fn init(&mut self) -> (r: Result<(), BleError>)
        ensures
            r is Ok,
            final(self).spec_state() == BleState::Idle,
            final(self).spec_local_address() == fixed_address(),
            final(self).connections() == old(self).connections(),
            final(self).spec_adv_config() == old(self).spec_adv_config(),
    {
        self.state = BleState::Idle;
        self.local_addr = [0x12, 0x34, 0x56, 0x78, 0x9A, 0xBC];
        assert(self.local_addr@ =~= fixed_address());
        Ok(())
    }

    /// How far the controller is.
    pub fn state(&self) -> (r: BleState)
        ensures
            r == self.spec_state(),
    {
        self.state
    }

    /// The address of the controller.
    pub fn local_address(&self) -> (r: [u8; 6])
        ensures
            r@ == self.spec_local_address(),
    {
        self.local_addr
    }

    /// Starts advertising with the settings `config` and returns the event
    /// to publish. A controller that is not set up or advertises already
    /// is left as it is.
    pub fn start_advertising(&mut self, config: AdvertiseConfig) -> (r: Result<BleEvent, BleError>)
        ensures
            final(self).connections() == old(self).connections(),
            final(self).spec_local_address() == old(self).spec_local_address(),
            match old(self).spec_state() {
                BleState::Uninitialized => r == Err::<BleEvent, BleError>(BleError::NotInitialized)
                    && final(self).spec_state() == old(self).spec_state() && final(self).spec_adv_config() == old(self).spec_adv_config(),
                BleState::Advertising => r == Err::<BleEvent, BleError>(
                    BleError::AlreadyAdvertising,
                ) && final(self).spec_state() == old(self).spec_state() && final(self).spec_adv_config() == old(self).spec_adv_config(),
                _ => r == Ok::<BleEvent, BleError>(BleEvent::AdvertisingStarted) && final(self).spec_state() == BleState::Advertising && final(self).spec_adv_config() == Some(
                    config,
                ),
            },
    {
        match self.state {
            BleState::Uninitialized => {
                return Err(BleError::NotInitialized);
            },
            BleState::Advertising => {
                return Err(BleError::AlreadyAdvertising);
            },
            _ => {},
        }
        self.adv_config = Some(config);
        self.state = BleState::Advertising;
        Ok(BleEvent::AdvertisingStarted)
    }

    /// Stops advertising and returns the event to publish, if the
    /// controller advertised.
    pub fn stop_advertising(&mut self) -> (r: Result<Option<BleEvent>, BleError>)
        ensures
            final(self).connections() == old(self).connections(),
            final(self).spec_local_address() == old(self).spec_local_address(),
            final(self).spec_adv_config() == old(self).spec_adv_config(),
            r == Ok::<Option<BleEvent>, BleError>(
                if old(self).spec_state() == BleState::Advertising {
                    Some(BleEvent::AdvertisingStopped)
                } else {
                    None
                },
            ),
            final(self).spec_state() == if old(self).spec_state() == BleState::Advertising {
                BleState::Idle
            } else {
                old(self).spec_state()
            },
    {
        match self.state {
            BleState::Advertising => {},
            _ => {
                return Ok(None);
            },
        }
        self.state = BleState::Idle;
        Ok(Some(BleEvent::AdvertisingStopped))
    }

    /// Index of the first connection with the handle `conn_handle`.
    fn position(&self, conn_handle: u16) -> (r: Option<usize>)
        ensures
            r matches Some(i) ==> first_with_handle(self.connections(), conn_handle, i as int),
            r is None ==> !has_handle(self.connections(), conn_handle),
    {
        let list = connections_as_slice(&self.connections);
        let mut i: usize = 0;
        while i < list.len()
            invariant
                i <= list@.len(),
                list@ == self.connections(),
                forall|j: int| 0 <= j < i ==> (#[trigger] list@[j]).handle != conn_handle,
            decreases list@.len() - i,
        {
            if list[i].handle == conn_handle {
                return Some(i);
            }
            i += 1;
        }
        None
    }

    /// Ends the first connection with the handle `conn_handle` and returns
    /// the event to publish. The controller is idle once its last
    /// connection has ended. Without such a connection nothing changes.
    pub fn disconnect(&mut self, conn_handle: u16) -> (r: Result<Option<BleEvent>, BleError>)
        ensures
            final(self).spec_local_address() == old(self).spec_local_address(),
            final(self).spec_adv_config() == old(self).spec_adv_config(),
            r is Ok,
            !has_handle(old(self).connections(), conn_handle) ==> r == Ok::<
                Option<BleEvent>,
                BleError,
            >(None) && final(self).connections() == old(self).connections() && final(self).spec_state() == old(self).spec_state(),
            has_handle(old(self).connections(), conn_handle) ==> r == Ok::<
                Option<BleEvent>,
                BleError,
            >(
                Some(
                    BleEvent::Disconnected {
                        conn_handle,
                        reason: DisconnectReason::LocalHostTerminated,
                    },
                ),
            ) && (exists|i: int|
                first_with_handle(old(self).connections(), conn_handle, i) && final(self).connections() == old(self).connections().remove(i)) && final(self).spec_state()
                == if old(self).connections().len() == 1 {
                BleState::Idle
            } else {
                old(self).spec_state()
            },
    {
        match self.position(conn_handle) {
            Some(pos) => {
                let _ = connections_remove(&mut self.connections, pos);
                if connections_as_slice(&self.connections).len() == 0 {
                    self.state = BleState::Idle;
                }
                Ok(
                    Some(
                        BleEvent::Disconnected {
                            conn_handle,
                            reason: DisconnectReason::LocalHostTerminated,
                        },
                    ),
                )
            },
            None => Ok(None),
        }
    }

    /// Ends all connections, the newest first, and returns the events to
    /// publish in that order. The controller is idle afterwards.
    pub fn disconnect_all(&mut self) -> (r: Result<Vec<BleEvent>, BleError>)
        ensures
            final(self).spec_state() == BleState::Idle,
            final(self).connections().len() == 0,
            final(self).spec_local_address() == old(self).spec_local_address(),
            final(self).spec_adv_config() == old(self).spec_adv_config(),
            r matches Ok(events) && events@.len() == old(self).connections().len() && forall|k: int|
                0 <= k < events@.len() ==> #[trigger] events@[k] == (BleEvent::Disconnected {
                    conn_handle: old(self).connections()[old(self).connections().len() - 1
                        - k].handle,
                    reason: DisconnectReason::LocalHostTerminated,
                }),
    {
        let mut events: Vec<BleEvent> = Vec::new();
        let ghost all = self.connections();
        let mut left = connections_as_slice(&self.connections).len();
        while left > 0
            invariant
                left == self.connections().len(),
                left <= all.len(),
                self.connections() == all.subrange(0, left as int),
                self.local_addr == old(self).local_addr,
                self.adv_config == old(self).adv_config,
                events@.len() == all.len() - left,
                forall|k: int|
                    0 <= k < events@.len() ==> #[trigger] events@[k] == (BleEvent::Disconnected {
                        conn_handle: all[all.len() - 1 - k].handle,
                        reason: DisconnectReason::LocalHostTerminated,
                    }),
            decreases left,
        {
            match connections_pop(&mut self.connections) {
                Some(conn) => {
                    assert(conn == all[left - 1]);
                    events.push(
                        BleEvent::Disconnected {
                            conn_handle: conn.handle,
                            reason: DisconnectReason::LocalHostTerminated,
                        },
                    );
                    assert(self.connections() =~= all.subrange(0, left - 1));
                },
                None => {},
            }
            left = left - 1;
        }
        self.state = BleState::Idle;
        Ok(events)
    }

    /// Number of connections: at most three.
    pub fn connection_count(&self) -> (r: usize)
        ensures
            r == self.connections().len(),
            r <= BLE_MAX_CONNECTIONS,
    {
        connections_as_slice(&self.connections).len()
    }

    /// The record of the first connection with the handle `handle`.
    pub fn connection_info(&self, handle: u16) -> (r: Option<&ConnectionInfo>)
        ensures
            r is None == !has_handle(self.connections(), handle),
            r matches Some(info) ==> exists|i: int|
                first_with_handle(self.connections(), handle, i) && *info == self.connections()[i],
    {
        match self.position(handle) {
            Some(pos) => Some(&connections_as_slice(&self.connections)[pos]),
            None => None,
        }
    }

    /// Accounts for a notification of `len` bytes of the attribute
    /// `attr_handle` on the connection `conn_handle`, and returns the event
    /// to publish.
    pub fn notify(&self, conn_handle: u16, attr_handle: u16, len: usize) -> (r: Result<
        BleEvent,
        BleError,
    >)
        ensures
            r == if has_handle(self.connections(), conn_handle) {
                Ok::<BleEvent, BleError>(BleEvent::NotificationSent { conn_handle })
            } else {
                Err::<BleEvent, BleError>(BleError::Disconnected)
            },
    {
        match self.position(conn_handle) {
            Some(_) => Ok(BleEvent::NotificationSent { conn_handle }),
            None => Err(BleError::Disconnected),
        }
    }

    /// Takes one event while waiting for a connection. Only a `Connected`
    /// event ends the wait: its connection is recorded and returned, or
    /// refused where the controller has three connections. On any other
    /// event the caller goes on waiting.
    pub fn wait_for_connection(&mut self, event: BleEvent) -> (r: Option<
        Result<ConnectionInfo, BleError>,
    >)
        ensures
            final(self).spec_local_address() == old(self).spec_local_address(),
            final(self).spec_adv_config() == old(self).spec_adv_config(),
            match event {
                BleEvent::Connected { conn_handle, peer_addr } => if old(self).connections().len()
                    < BLE_MAX_CONNECTIONS {
                    r == Some(
                        Ok::<ConnectionInfo, BleError>(fresh_connection(conn_handle, peer_addr)),
                    ) && final(self).connections() == old(self).connections().push(
                        fresh_connection(conn_handle, peer_addr),
                    ) && final(self).spec_state() == BleState::Connected
                } else {
                    r == Some(Err::<ConnectionInfo, BleError>(BleError::MaxConnectionsReached))
                        && final(self).connections() == old(self).connections() && final(self).spec_state() == old(self).spec_state()
                },
                _ => r is None && final(self).connections() == old(self).connections() && final(self).spec_state() == old(self).spec_state(),
            },
    {
        match event {
            BleEvent::Connected { conn_handle, peer_addr } => {
                let conn = ConnectionInfo {
                    handle: conn_handle,
                    peer_addr,
                    interval: BLE_CONN_INTERVAL_MIN,
                    latency: BLE_SLAVE_LATENCY,
                    timeout: BLE_SUPERVISION_TIMEOUT,
                    mtu: DEFAULT_MTU,
                    bonded: false,
                };
                if !connections_push(&mut self.connections, conn) {
                    return Some(Err(BleError::MaxConnectionsReached));
                }
                self.state = BleState::Connected;
                Some(Ok(conn))
            },
            _ => None,
        }
    }
}

/// Largest number of services of a server.
pub const MAX_SERVICES: usize = 8;

/// Collects the services of a GATT server.
pub struct GattServerBuilder {
    services: ServiceList,
}

impl GattServerBuilder {
    /// The services collected so far.
    pub closed spec fn spec_services(&self) -> Seq<Service> {
        service_items(self.services)
    }

    /// A builder without services.
    pub fn new() -> (r: Self)
        ensures
            r.spec_services().len() == 0,
    {
        GattServerBuilder { services: services_new() }
    }

    /// The same builder with one more service, which has no handle and no
    /// characteristics yet. A ninth service is left out.
    pub fn add_service(self, uuid: Uuid, primary: bool) -> (r: Self)
        ensures
            r.spec_services() == if self.spec_services().len() < MAX_SERVICES {
                self.spec_services().push(
                    Service { uuid, primary, handle: 0, characteristic_count: 0 },
                )
            } else {
                self.spec_services()
            },
    {
        let mut builder = self;
        let _ = services_push(
            &mut builder.services,
            Service { uuid, primary, handle: 0, characteristic_count: 0 },
        );
        builder
    }

    /// The server with the services collected.
    pub fn build(self) -> (r: GattServer)
        ensures
            r.spec_services() == self.spec_services(),
    {
        GattServer { services: self.services }
    }
}

impl Default for GattServerBuilder {
    fn default() -> (r: Self)
        ensures
            r.spec_services().len() == 0,
    {
        GattServerBuilder::new()
    }
}

/// The services that a device offers.
pub struct GattServer {
    services: ServiceList,
}

impl GattServer {
    /// The services.
    pub closed spec fn spec_services(&self) -> Seq<Service> {
        service_items(self.services)
    }

    /// The services.
    pub fn services(&self) -> (r: &[Service])
        ensures
            r@ == self.spec_services(),
    {
        services_as_slice(&self.services)
    }

    /// Registers the server with `controller`. The attribute table is kept
    /// by the caller's BLE stack, so the controller is left as it is.
    pub fn register(&self, controller: &mut BleController) -> (r: Result<(), BleError>)
        ensures
            r is Ok,
            *final(controller) == *old(controller),
    {
        Ok(())
    }
}

/// Traffic figures of the BLE layer.
#[derive(Debug, Clone, Copy, PartialEq, Eq, Structural)]
pub struct BleStats {
    /// Advertising packets sent.
    pub adv_packets_sent: u32,
    /// Connections opened so far.
    pub connections_total: u32,
    /// Connections that are open.
    pub connections_active: u32,
    /// Packets sent.
    pub tx_packets: u32,
    /// Packets received.
    pub rx_packets: u32,
    /// Packets that could not be sent.
    pub tx_errors: u32,
    /// Packets that were received damaged.
    pub rx_errors: u32,
}

impl Default for BleStats {
    fn default() -> (r: Self)
        ensures
            r == (BleStats {
                adv_packets_sent: 0,
                connections_total: 0,
                connections_active: 0,
                tx_packets: 0,
                rx_packets: 0,
                tx_errors: 0,
                rx_errors: 0,
            }),
    {
        BleStats {
            adv_packets_sent: 0,
            connections_total: 0,
            connections_active: 0,
            tx_packets: 0,
            rx_packets: 0,
            tx_errors: 0,
            rx_errors: 0,
        }
    }
}

} // verus!
