//! State of the IP stack and of its sockets.

use vstd::prelude::*;
use crate::net::config::{TCP_RX_BUFFER_SIZE, UDP_RX_BUFFER_SIZE};

verus! {

/// What a network operation can report.
#[derive(Debug, Clone, Copy, PartialEq, Eq, Structural)]
pub enum NetworkError {
    /// The stack or socket has not been set up.
    NotInitialized,
    /// The connection could not be opened.
    ConnectionFailed,
    /// The peer refused the connection.
    ConnectionRefused,
    /// The peer reset the connection.
    ConnectionReset,
    /// Time ran out.
    Timeout,
    /// The name could not be resolved.
    DnsResolutionFailed,
    /// The address is not valid.
    InvalidAddress,
    /// The socket is closed.
    SocketClosed,
    /// The buffer is full.
    BufferFull,
    /// The buffer is empty.
    BufferEmpty,
    /// The network cannot be reached.
    NetworkUnreachable,
    /// The host cannot be reached.
    HostUnreachable,
    /// Memory ran out.
    OutOfMemory,
    /// The stack is in a state that it should not be in.
    InternalError,
    /// The socket is not connected.
    NotConnected,
    /// The address is in use.
    AddressInUse,
}

impl NetworkError {
    /// The error in words.
    pub open spec fn spec_message(self) -> &'static str {
        match self {
            NetworkError::NotInitialized => "Network not initialized",
            NetworkError::ConnectionFailed => "Connection failed",
            NetworkError::ConnectionRefused => "Connection refused",
            NetworkError::ConnectionReset => "Connection reset",
            NetworkError::Timeout => "Timeout",
            NetworkError::DnsResolutionFailed => "DNS resolution failed",
            NetworkError::InvalidAddress => "Invalid address",
            NetworkError::SocketClosed => "Socket closed",
            NetworkError::BufferFull => "Buffer full",
            NetworkError::BufferEmpty => "Buffer empty",
            NetworkError::NetworkUnreachable => "Network unreachable",
            NetworkError::HostUnreachable => "Host unreachable",
            NetworkError::OutOfMemory => "Out of memory",
            NetworkError::InternalError => "Internal error",
            NetworkError::NotConnected => "Not connected",
            NetworkError::AddressInUse => "Address in use",
        }
    }

    /// The error in words.
    pub fn message(&self) -> (r: &'static str)
        ensures
            r == self.spec_message(),
    {
        match self {
            NetworkError::NotInitialized => "Network not initialized",
            NetworkError::ConnectionFailed => "Connection failed",
            NetworkError::ConnectionRefused => "Connection refused",
            NetworkError::ConnectionReset => "Connection reset",
            NetworkError::Timeout => "Timeout",
            NetworkError::DnsResolutionFailed => "DNS resolution failed",
            NetworkError::InvalidAddress => "Invalid address",
            NetworkError::SocketClosed => "Socket closed",
            NetworkError::BufferFull => "Buffer full",
            NetworkError::BufferEmpty => "Buffer empty",
            NetworkError::NetworkUnreachable => "Network unreachable",
            NetworkError::HostUnreachable => "Host unreachable",
            NetworkError::OutOfMemory => "Out of memory",
            NetworkError::InternalError => "Internal error",
            NetworkError::NotConnected => "Not connected",
            NetworkError::AddressInUse => "Address in use",
        }
    }
}

/// An IPv4 address: its four bytes.
#[derive(Debug, Clone, Copy, PartialEq, Eq)]
pub struct Ipv4Address(pub [u8; 4]);

impl Default for Ipv4Address {
    fn default() -> (r: Self)
        ensures
            r == Ipv4Address::spec_new(0, 0, 0, 0),
    {
        Ipv4Address::new(0, 0, 0, 0)
    }
}

impl Ipv4Address {
    /// The address `a.b.c.d`.
    pub open spec fn spec_new(a: u8, b: u8, c: u8, d: u8) -> Ipv4Address {
        Ipv4Address([a, b, c, d])
    }

    /// The address `a.b.c.d`.
    pub fn new(a: u8, b: u8, c: u8, d: u8) -> (r: Self)
        ensures
            r == Self::spec_new(a, b, c, d),
            r.0@ == seq![a, b, c, d],
    {
        let r = Ipv4Address([a, b, c, d]);
        assert(r.0@ =~= seq![a, b, c, d]);
        r
    }

    /// The address 0.0.0.0, which names no host.
    pub fn unspecified() -> (r: Self)
        ensures
            r == Self::spec_new(0, 0, 0, 0),
    {
        Ipv4Address::new(0, 0, 0, 0)
    }

    /// The address 127.0.0.1 of the host itself.
    pub fn localhost() -> (r: Self)
        ensures
            r == Self::spec_new(127, 0, 0, 1),
    {
        Ipv4Address::new(127, 0, 0, 1)
    }

    /// The address 255.255.255.255 of every host on the network.
    pub fn broadcast() -> (r: Self)
        ensures
            r == Self::spec_new(255, 255, 255, 255),
    {
        Ipv4Address::new(255, 255, 255, 255)
    }

    /// The four bytes.
    pub fn octets(&self) -> (r: [u8; 4])
        ensures
            r == self.0,
    {
        self.0
    }
}

impl From<[u8; 4]> for Ipv4Address {
    fn from(octets: [u8; 4]) -> (r: Self) {
        Ipv4Address(octets)
    }
}

impl vstd::std_specs::convert::FromSpecImpl<[u8; 4]> for Ipv4Address {
    open spec fn obeys_from_spec() -> bool {
        true
    }

    open spec fn from_spec(octets: [u8; 4]) -> Self {
        Ipv4Address(octets)
    }
}

/// An address and a port.
#[derive(Debug, Clone, Copy, PartialEq, Eq)]
pub struct SocketAddress {
    /// The address.
    pub ip: Ipv4Address,
    /// The port.
    pub port: u16,
}

/// How far the stack is.
#[derive(Debug, Clone, Copy, PartialEq, Eq, Structural)]
pub enum StackState {
    /// Not set up.
    Uninitialized,
    /// Set up, without an address.
    NoIp,
    /// Asking for an address by DHCP.
    GettingIp,
    /// Ready.
    Ready,
}

impl Default for StackState {
    fn default() -> (r: Self)
        ensures
            r == StackState::Uninitialized,
    {
        StackState::Uninitialized
    }
}

/// Settings of the stack.
#[derive(Debug, Clone, Copy, PartialEq, Eq)]
pub struct StackConfig {
    /// Whether the address comes from DHCP.
    pub dhcp: bool,
    /// The address, where it does not come from DHCP.
    pub static_ip: Option<Ipv4Address>,
    /// The netmask.
    pub netmask: Option<Ipv4Address>,
    /// The gateway.
    pub gateway: Option<Ipv4Address>,
    /// The name server.
    pub dns: Option<Ipv4Address>,
}

impl Default for StackConfig {
    fn default() -> (r: Self)
        ensures
            r == (StackConfig {
                dhcp: true,
                static_ip: None,
                netmask: None,
                gateway: None,
                dns: None,
            }),
    {
        StackConfig { dhcp: true, static_ip: None, netmask: None, gateway: None, dns: None }
    }
}

impl StackConfig {
    /// Settings with a fixed address. The gateway serves as name server.
    pub fn with_static(ip: Ipv4Address, netmask: Ipv4Address, gateway: Ipv4Address) -> (r: Self)
        ensures
            r == (StackConfig {
                dhcp: false,
                static_ip: Some(ip),
                netmask: Some(netmask),
                gateway: Some(gateway),
                dns: Some(gateway),
            }),
    {
        StackConfig {
            dhcp: false,
            static_ip: Some(ip),
            netmask: Some(netmask),
            gateway: Some(gateway),
            dns: Some(gateway),
        }
    }
}

/// The IP stack: how far it is and which addresses it has.
pub struct NetworkStack {
    state: StackState,
    config: StackConfig,
    local_ip: Option<Ipv4Address>,
    gateway: Option<Ipv4Address>,
    dns_server: Option<Ipv4Address>,
}

/// The stack as a value: its state and its addresses.
pub struct StackView {
    /// How far the stack is.
    pub state: StackState,
    /// The settings.
    pub config: StackConfig,
    /// The address of the host.
    pub local_ip: Option<Ipv4Address>,
    /// The gateway.
    pub gateway: Option<Ipv4Address>,
    /// The name server.
    pub dns_server: Option<Ipv4Address>,
}

impl View for NetworkStack {
    type V = StackView;

    closed spec fn view(&self) -> StackView {
        StackView {
            state: self.state,
            config: self.config,
            local_ip: self.local_ip,
            gateway: self.gateway,
            dns_server: self.dns_server,
        }
    }
}

impl NetworkStack {
    /// A stack with the settings `config`, not set up.
    pub fn new(config: StackConfig) -> (r: Self)
        ensures
            r@ == (StackView {
                state: StackState::Uninitialized,
                config,
                local_ip: None,
                gateway: None,
                dns_server: None,
            }),
    {
        NetworkStack {
            state: StackState::Uninitialized,
            config,
            local_ip: None,
            gateway: None,
            dns_server: None,
        }
    }

    /// Sets the stack up. It has no address yet.
    pub fn init(&mut self) -> (r: Result<(), NetworkError>)
        ensures
            r is Ok,
            final(self)@ == (StackView { state: StackState::NoIp, ..old(self)@ }),
    {
        self.state = StackState::NoIp;
        Ok(())
    }

    /// Takes the addresses 192.168.1.100, 192.168.1.1 as gateway and
    /// 8.8.8.8 as name server, which stand for the answer of a DHCP server.
    /// A stack that is not set up is left as it is.
    pub fn start_dhcp(&mut self) -> (r: Result<(), NetworkError>)
        ensures
            r is Ok == (old(self)@.state != StackState::Uninitialized),
            r matches Err(e) ==> e == NetworkError::NotInitialized && final(self)@ == old(self)@,
            r is Ok ==> final(self)@ == (StackView {
                state: StackState::Ready,
                config: old(self)@.config,
                local_ip: Some(Ipv4Address::spec_new(192, 168, 1, 100)),
                gateway: Some(Ipv4Address::spec_new(192, 168, 1, 1)),
                dns_server: Some(Ipv4Address::spec_new(8, 8, 8, 8)),
            }),
    {
        match self.state {
            StackState::Uninitialized => {
                return Err(NetworkError::NotInitialized);
            },
            _ => {},
        }
        self.state = StackState::GettingIp;
        self.local_ip = Some(Ipv4Address::new(192, 168, 1, 100));
        self.gateway = Some(Ipv4Address::new(192, 168, 1, 1));
        self.dns_server = Some(Ipv4Address::new(8, 8, 8, 8));
        self.state = StackState::Ready;
        Ok(())
    }

    /// Takes the address `ip` and the gateway `gateway`. A stack that is
    /// not set up is left as it is.
    pub fn set_static_ip(&mut self, ip: Ipv4Address, netmask: Ipv4Address, gateway: Ipv4Address) -> (r:
        Result<(), NetworkError>)
        ensures
            r is Ok == (old(self)@.state != StackState::Uninitialized),
            r matches Err(e) ==> e == NetworkError::NotInitialized && final(self)@ == old(self)@,
            r is Ok ==> final(self)@ == (StackView {
                state: StackState::Ready,
                local_ip: Some(ip),
                gateway: Some(gateway),
                ..old(self)@
            }),
    {
        match self.state {
            StackState::Uninitialized => {
                return Err(NetworkError::NotInitialized);
            },
            _ => {},
        }
        self.local_ip = Some(ip);
        self.gateway = Some(gateway);
        self.state = StackState::Ready;
        Ok(())
    }

    /// How far the stack is.
    pub fn state(&self) -> (r: StackState)
        ensures
            r == self@.state,
    {
        self.state
    }

    /// The address of the host.
    pub fn local_ip(&self) -> (r: Option<Ipv4Address>)
        ensures
            r == self@.local_ip,
    {
        self.local_ip
    }

    /// The gateway.
    pub fn gateway(&self) -> (r: Option<Ipv4Address>)
        ensures
            r == self@.gateway,
    {
        self.gateway
    }

    /// The name server.
    pub fn dns_server(&self) -> (r: Option<Ipv4Address>)
        ensures
            r == self@.dns_server,
    {
        self.dns_server
    }

    /// Whether the stack is ready.
    pub fn is_ready(&self) -> (r: bool)
        ensures
            r == (self@.state == StackState::Ready),
    {
        match self.state {
            StackState::Ready => true,
            _ => false,
        }
    }

    /// Looks a host name up. The lookup itself is made by the caller's
    /// network stack; this records only that none was made here.
    pub fn dns_resolve(&self, hostname: &str) -> (r: Result<Ipv4Address, NetworkError>)
        ensures
            r matches Err(e) && e == if self@.state == StackState::Ready {
                NetworkError::DnsResolutionFailed
            } else {
                NetworkError::NotInitialized
            },
    {
        if !self.is_ready() {
            return Err(NetworkError::NotInitialized);
        }
        Err(NetworkError::DnsResolutionFailed)
    }
}

/// How far a TCP socket is.
#[derive(Debug, Clone, Copy, PartialEq, Eq, Structural)]
pub enum TcpState {
    /// Closed.
    Closed,
    /// Opening a connection.
    Connecting,
    /// Connected.
    Connected,
    /// Closing.
    Closing,
}

impl Default for TcpState {
    fn default() -> (r: Self)
        ensures
            r == TcpState::Closed,
    {
        TcpState::Closed
    }
}

/// The local port that a connection is given.
pub const DYNAMIC_PORT: u16 = 49152;

/// A buffer of a TCP client, of up to 4096 bytes, held in a
/// `heapless::Vec<u8, TCP_RX_BUFFER_SIZE>`.
#[verifier::external_body]
pub struct StreamBuffer {
    items: heapless::Vec<u8, TCP_RX_BUFFER_SIZE>,
}

/// The bytes that a `StreamBuffer` holds.
pub uninterp spec fn stream_bytes(buffer: StreamBuffer) -> Seq<u8>;

/// Calls `heapless::Vec::new`, which makes an empty vector.
#[verifier::external_body]
fn stream_new() -> (r: StreamBuffer)
    ensures
        stream_bytes(r) == Seq::<u8>::empty(),
{
    StreamBuffer { items: heapless::Vec::new() }
}

/// Calls `heapless::Vec::clear`, which removes every element.
#[verifier::external_body]
fn stream_clear(buffer: &mut StreamBuffer)
    ensures
        stream_bytes(*final(buffer)) == Seq::<u8>::empty(),
{
    buffer.items.clear()
}

/// The receive buffer of a UDP socket, of up to 2048 bytes, held in a
/// `heapless::Vec<u8, UDP_RX_BUFFER_SIZE>`.
#[verifier::external_body]
pub struct DatagramBuffer {
    items: heapless::Vec<u8, UDP_RX_BUFFER_SIZE>,
}

/// The bytes that a `DatagramBuffer` holds.
pub uninterp spec fn datagram_bytes(buffer: DatagramBuffer) -> Seq<u8>;

/// Calls `heapless::Vec::new`, which makes an empty vector.
#[verifier::external_body]
fn datagram_new() -> (r: DatagramBuffer)
    ensures
        datagram_bytes(r) == Seq::<u8>::empty(),
{
    DatagramBuffer { items: heapless::Vec::new() }
}

/// A TCP client socket.
pub struct TcpClient {
    state: TcpState,
    local_port: u16,
    remote_addr: Option<SocketAddress>,
    rx_buffer: StreamBuffer,
    tx_buffer: StreamBuffer,
}

/// A TCP client socket as a value.
pub struct TcpClientView {
    /// How far the socket is.
    pub state: TcpState,
    /// The local port.
    pub local_port: u16,
    /// The peer.
    pub remote_addr: Option<SocketAddress>,
    /// The bytes that have arrived and were not read.
    pub received: Seq<u8>,
    /// The bytes that wait to be sent.
    pub pending: Seq<u8>,
}

impl View for TcpClient {
    type V = TcpClientView;

    closed spec fn view(&self) -> TcpClientView {
        TcpClientView {
            state: self.state,
            local_port: self.local_port,
            remote_addr: self.remote_addr,
            received: stream_bytes(self.rx_buffer),
            pending: stream_bytes(self.tx_buffer),
        }
    }
}

impl TcpClient {
    /// A closed socket with empty buffers.
    pub fn new() -> (r: Self)
        ensures
            r@ == (TcpClientView {
                state: TcpState::Closed,
                local_port: 0,
                remote_addr: None,
                received: Seq::<u8>::empty(),
                pending: Seq::<u8>::empty(),
            }),
    {
        TcpClient {
            state: TcpState::Closed,
            local_port: 0,
            remote_addr: None,
            rx_buffer: stream_new(),
            tx_buffer: stream_new(),
        }
    }

    /// Connects a closed socket to `addr`. A socket that is not closed
    /// reports `InternalError` and is left as it is.
    pub fn connect(&mut self, addr: SocketAddress) -> (r: Result<(), NetworkError>)
        ensures
            r is Ok == (old(self)@.state == TcpState::Closed),
            r matches Err(e) ==> e == NetworkError::InternalError && final(self)@ == old(self)@,
            r is Ok ==> final(self)@ == (TcpClientView {
                state: TcpState::Connected,
                local_port: DYNAMIC_PORT,
                remote_addr: Some(addr),
                ..old(self)@
            }),
    {
        match self.state {
            TcpState::Closed => {},
            _ => {
                return Err(NetworkError::InternalError);
            },
        }
        self.state = TcpState::Connecting;
        self.remote_addr = Some(addr);
        self.state = TcpState::Connected;
        self.local_port = DYNAMIC_PORT;
        Ok(())
    }

    /// Connects a closed socket to port `port` of `ip`.
    pub fn connect_to(&mut self, ip: Ipv4Address, port: u16) -> (r: Result<(), NetworkError>)
        ensures
            r is Ok == (old(self)@.state == TcpState::Closed),
            r matches Err(e) ==> e == NetworkError::InternalError && final(self)@ == old(self)@,
            r is Ok ==> final(self)@ == (TcpClientView {
                state: TcpState::Connected,
                local_port: DYNAMIC_PORT,
                remote_addr: Some(SocketAddress { ip, port }),
                ..old(self)@
            }),
    {
        self.connect(SocketAddress { ip, port })
    }

    /// Accounts for sending `data`: all of it, on a connected socket.
    pub fn write(&mut self, data: &[u8]) -> (r: Result<usize, NetworkError>)
        ensures
            final(self)@ == old(self)@,
            r == if old(self)@.state == TcpState::Connected {
                Ok::<usize, NetworkError>(data@.len() as usize)
            } else {
                Err::<usize, NetworkError>(NetworkError::NotConnected)
            },
    {
        match self.state {
            TcpState::Connected => Ok(data.len()),
            _ => Err(NetworkError::NotConnected),
        }
    }

    /// Accounts for receiving into a buffer of `len` bytes: nothing has
    /// arrived, on a connected socket.
    pub fn read(&mut self, len: usize) -> (r: Result<usize, NetworkError>)
        ensures
            final(self)@ == old(self)@,
            r == if old(self)@.state == TcpState::Connected {
                Ok::<usize, NetworkError>(0)
            } else {
                Err::<usize, NetworkError>(NetworkError::NotConnected)
            },
    {
        match self.state {
            TcpState::Connected => Ok(0),
            _ => Err(NetworkError::NotConnected),
        }
    }

    /// Closes the socket: it forgets its peer and empties its buffers, and
    /// keeps its local port. A closed socket is left as it is.
    pub fn close(&mut self) -> (r: Result<(), NetworkError>)
        ensures
            r is Ok,
            final(self)@ == if old(self)@.state == TcpState::Closed {
                old(self)@
            } else {
                TcpClientView {
                    state: TcpState::Closed,
                    local_port: old(self)@.local_port,
                    remote_addr: None,
                    received: Seq::<u8>::empty(),
                    pending: Seq::<u8>::empty(),
                }
            },
    {
        match self.state {
            TcpState::Closed => {
                return Ok(());
            },
            _ => {},
        }
        self.state = TcpState::Closing;
        self.state = TcpState::Closed;
        self.remote_addr = None;
        stream_clear(&mut self.rx_buffer);
        stream_clear(&mut self.tx_buffer);
        Ok(())
    }

    /// How far the socket is.
    pub fn state(&self) -> (r: TcpState)
        ensures
            r == self@.state,
    {
        self.state
    }

    /// Whether the socket is connected.
    pub fn is_connected(&self) -> (r: bool)
        ensures
            r == (self@.state == TcpState::Connected),
    {
        match self.state {
            TcpState::Connected => true,
            _ => false,
        }
    }

    /// The peer.
    pub fn remote_addr(&self) -> (r: Option<SocketAddress>)
        ensures
            r == self@.remote_addr,
    {
        self.remote_addr
    }

    /// The local port.
    pub fn local_port(&self) -> (r: u16)
        ensures
            r == self@.local_port,
    {
        self.local_port
    }
}

impl Default for TcpClient {
    fn default() -> (r: Self)
        ensures
            r@ == (TcpClientView {
                state: TcpState::Closed,
                local_port: 0,
                remote_addr: None,
                received: Seq::<u8>::empty(),
                pending: Seq::<u8>::empty(),
            }),
    {
        TcpClient::new()
    }
}

/// A TCP server socket.
pub struct TcpServer {
    port: u16,
    listening: bool,
}

impl TcpServer {
    /// The port that the server listens on.
    pub closed spec fn spec_port(&self) -> u16 {
        self.port
    }

    /// Whether the server listens.
    pub closed spec fn spec_listening(&self) -> bool {
        self.listening
    }

    /// A server for port `port`, not listening.
    pub fn new(port: u16) -> (r: Self)
        ensures
            r.spec_port() == port,
            !r.spec_listening(),
    {
        TcpServer { port, listening: false }
    }

    /// Starts listening.
    pub fn listen(&mut self) -> (r: Result<(), NetworkError>)
        ensures
            r is Ok,
            final(self).spec_listening(),
            final(self).spec_port() == old(self).spec_port(),
    {
        self.listening = true;
        Ok(())
    }

    /// Takes a connection that has come in: none has, on a server that
    /// listens, and the caller asks again later.
    pub fn accept(&mut self) -> (r: Result<Option<TcpClient>, NetworkError>)
        ensures
            *final(self) == *old(self),
            old(self).spec_listening() ==> r == Ok::<Option<TcpClient>, NetworkError>(None),
            !old(self).spec_listening() ==> r == Err::<Option<TcpClient>, NetworkError>(
                NetworkError::NotInitialized,
            ),
    {
        if !self.listening {
            return Err(NetworkError::NotInitialized);
        }
        Ok(None)
    }

    /// Stops listening.
    pub fn close(&mut self) -> (r: Result<(), NetworkError>)
        ensures
            r is Ok,
            !final(self).spec_listening(),
            final(self).spec_port() == old(self).spec_port(),
    {
        self.listening = false;
        Ok(())
    }

    /// The port that the server listens on.
    pub fn port(&self) -> (r: u16)
        ensures
            r == self.spec_port(),
    {
        self.port
    }

    /// Whether the server listens.
    pub fn is_listening(&self) -> (r: bool)
        ensures
            r == self.spec_listening(),
    {
        self.listening
    }
}

/// A UDP socket.
pub struct UdpSocket {
    local_port: u16,
    bound: bool,
    rx_buffer: DatagramBuffer,
}

impl UdpSocket {
    /// The port that the socket is bound to, 0 where it is not bound.
    pub closed spec fn spec_local_port(&self) -> u16 {
        self.local_port
    }

    /// Whether the socket is bound.
    pub closed spec fn spec_bound(&self) -> bool {
        self.bound
    }

    /// The bytes that have arrived and were not read.
    pub closed spec fn spec_received(&self) -> Seq<u8> {
        datagram_bytes(self.rx_buffer)
    }

    /// A socket that is not bound, with an empty buffer.
    pub fn new() -> (r: Self)
        ensures
            r.spec_local_port() == 0,
            !r.spec_bound(),
            r.spec_received() == Seq::<u8>::empty(),
    {
        UdpSocket { local_port: 0, bound: false, rx_buffer: datagram_new() }
    }

    /// Binds the socket to port `port`.
    pub fn bind(&mut self, port: u16) -> (r: Result<(), NetworkError>)
        ensures
            r is Ok,
            final(self).spec_bound(),
            final(self).spec_local_port() == port,
            final(self).spec_received() == old(self).spec_received(),
    {
        self.local_port = port;
        self.bound = true;
        Ok(())
    }

    /// Accounts for sending `data` to `addr`: all of it, on a bound socket.
    pub fn send_to(&self, data: &[u8], addr: SocketAddress) -> (r: Result<usize, NetworkError>)
        ensures
            r == if self.spec_bound() {
                Ok::<usize, NetworkError>(data@.len() as usize)
            } else {
                Err::<usize, NetworkError>(NetworkError::NotInitialized)
            },
    {
        if !self.bound {
            return Err(NetworkError::NotInitialized);
        }
        Ok(data.len())
    }

    /// Takes a datagram that has come in: none has, on a bound socket, and
    /// the caller asks again later.
    pub fn recv_from(&mut self, len: usize) -> (r: Result<
        Option<(usize, SocketAddress)>,
        NetworkError,
    >)
        ensures
            *final(self) == *old(self),
            old(self).spec_bound() ==> r == Ok::<Option<(usize, SocketAddress)>, NetworkError>(None),
            !old(self).spec_bound() ==> r == Err::<Option<(usize, SocketAddress)>, NetworkError>(
                NetworkError::NotInitialized,
            ),
    {
        if !self.bound {
            return Err(NetworkError::NotInitialized);
        }
        Ok(None)
    }

    /// Closes the socket: it is not bound any more.
    pub fn close(&mut self) -> (r: Result<(), NetworkError>)
        ensures
            r is Ok,
            !final(self).spec_bound(),
            final(self).spec_local_port() == 0,
            final(self).spec_received() == old(self).spec_received(),
    {
        self.bound = false;
        self.local_port = 0;
        Ok(())
    }

    /// The port that the socket is bound to.
    pub fn local_port(&self) -> (r: u16)
        ensures
            r == self.spec_local_port(),
    {
        self.local_port
    }

    /// Whether the socket is bound.
    pub fn is_bound(&self) -> (r: bool)
        ensures
            r == self.spec_bound(),
    {
        self.bound
    }
}

impl Default for UdpSocket {
    fn default() -> (r: Self)
        ensures
            r.spec_local_port() == 0,
            !r.spec_bound(),
    {
        UdpSocket::new()
    }
}

/// Traffic figures of the stack.
#[derive(Debug, Clone, Copy, PartialEq, Eq, Structural)]
pub struct NetworkStats {
    /// Packets sent.
    pub tx_packets: u64,
    /// Packets received.
    pub rx_packets: u64,
    /// Bytes sent.
    pub tx_bytes: u64,
    /// Bytes received.
    pub rx_bytes: u64,
    /// Packets that could not be sent.
    pub tx_errors: u32,
    /// Packets that were received damaged.
    pub rx_errors: u32,
    /// Packets dropped.
    pub dropped: u32,
}

impl Default for NetworkStats {
    fn default() -> (r: Self)
        ensures
            r == (NetworkStats {
                tx_packets: 0,
                rx_packets: 0,
                tx_bytes: 0,
                rx_bytes: 0,
                tx_errors: 0,
                rx_errors: 0,
                dropped: 0,
            }),
    {
        NetworkStats {
            tx_packets: 0,
            rx_packets: 0,
            tx_bytes: 0,
            rx_bytes: 0,
            tx_errors: 0,
            rx_errors: 0,
            dropped: 0,
        }
    }
}

} // verus!
