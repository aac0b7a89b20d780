use rustrtos::net::ble::{
    AdvertiseConfig, BleController, BleError, BleEvent, BleState, BleStats, CharacteristicProps,
    ConnectionInfo, DisconnectReason, GattServerBuilder, Uuid,
};
use rustrtos::net::config::NetworkConfig;
use rustrtos::net::tcp::{
    Ipv4Address, NetworkError, NetworkStack, NetworkStats, SocketAddress, StackConfig, StackState,
    TcpClient, TcpServer, TcpState, UdpSocket,
};
use rustrtos::net::wifi::{
    ApConfig, WifiController, WifiError, WifiEvent, WifiMode, WifiState, WifiStats,
};
use rustrtos::net::{init_ble, init_wifi};
use rustrtos::util::bounded::{BoundedText, InlineBytes};

#[test]
fn bounded_text_keeps_what_fits() {
    let mut text: BoundedText<8> = BoundedText::new();
    assert_eq!(text.as_str(), "");
    assert_eq!(text.len(), 0);
    assert!(text.assign("12345678"));
    assert_eq!(text.as_str(), "12345678");
    assert_eq!(text.clone().as_str(), "12345678");
    assert!(!text.assign("123456789"));
    assert_eq!(text.as_str(), "");
    assert!(text.assign("abc"));
    assert!(text.assign("de"));
    assert_eq!(text.as_str(), "de");
    assert_eq!(text.len(), 2);
    text.clear();
    assert_eq!(text.as_str(), "");
    // Four characters of eight bytes fit, five of ten do not.
    assert!(text.assign("\u{e4}\u{f6}\u{fc}\u{df}"));
    assert_eq!(text.len(), 8);
    assert!(!text.assign("\u{e4}\u{f6}\u{fc}\u{df}\u{e9}"));
    assert!(BoundedText::<8>::try_from_str("too long!").is_none());
    assert_eq!(BoundedText::<8>::try_from_str("fits").unwrap().as_str(), "fits");

    let sixty_four = "x".repeat(64);
    let mut wide: BoundedText<100> = BoundedText::new();
    assert!(wide.assign(&sixty_four));
    assert_eq!(wide.as_str(), sixty_four);
    assert!(!wide.assign(&"x".repeat(65)));
    assert_eq!(wide.as_str(), "");
    assert!(BoundedText::<0>::try_from_str("").is_some());
    assert!(BoundedText::<0>::try_from_str("a").is_none());
}

#[test]
fn inline_bytes_keep_what_fits() {
    let mut bytes = InlineBytes::new();
    assert_eq!(bytes.as_slice(), &[] as &[u8]);
    assert!(bytes.assign(&[1, 2, 3]));
    assert_eq!(bytes.as_slice(), &[1, 2, 3]);
    assert!(bytes.assign(&[9; 31]));
    assert_eq!(bytes.as_slice(), &[9; 31]);
    assert_eq!(bytes.clone().as_slice(), &[9; 31]);
    assert!(!bytes.assign(&[7; 32]));
    assert_eq!(bytes.as_slice(), &[] as &[u8]);
    assert!(bytes.assign(&[4]));
    bytes.clear();
    assert_eq!(bytes.as_slice().len(), 0);
}

#[test]
fn network_config_builders() {
    let config = NetworkConfig::default();
    assert_eq!(config.ble_device_name.as_str(), "RustRTOS");
    assert_eq!(config.wifi_ssid.as_str(), "");
    assert!(config.dhcp_enabled);
    assert_eq!(config.static_ip, None);
    let empty = NetworkConfig::new();
    assert_eq!(empty.ble_device_name.as_str(), "");
    assert!(empty.dhcp_enabled);

    let config = config
        .with_wifi_credentials("home", "secret")
        .with_ble_name("sensor")
        .with_static_ip([10, 0, 0, 2], [10, 0, 0, 1], [1, 1, 1, 1]);
    assert_eq!(config.wifi_ssid.as_str(), "home");
    assert_eq!(config.wifi_password.as_str(), "secret");
    assert_eq!(config.ble_device_name.as_str(), "sensor");
    assert!(!config.dhcp_enabled);
    assert_eq!(config.static_ip, Some([10, 0, 0, 2]));
    assert_eq!(config.gateway, Some([10, 0, 0, 1]));
    assert_eq!(config.dns_server, Some([1, 1, 1, 1]));

    let long_name = "n".repeat(33);
    let long_password = "p".repeat(64);
    let config = config.with_wifi_credentials(&long_name, &long_password);
    assert_eq!(config.wifi_ssid.as_str(), "");
    assert_eq!(config.wifi_password.as_str(), long_password);
    let config = config.with_ble_name(&long_name);
    assert_eq!(config.ble_device_name.as_str(), "");
    let config = config.with_wifi_credentials(&"n".repeat(32), &"p".repeat(65));
    assert_eq!(config.wifi_ssid.as_str().len(), 32);
    assert_eq!(config.wifi_password.as_str(), "");
}

#[test]
fn ip_stack_states() {
    assert_eq!(Ipv4Address::new(1, 2, 3, 4).octets(), [1, 2, 3, 4]);
    assert_eq!(Ipv4Address::unspecified(), Ipv4Address([0, 0, 0, 0]));
    assert_eq!(Ipv4Address::localhost(), Ipv4Address([127, 0, 0, 1]));
    assert_eq!(Ipv4Address::broadcast(), Ipv4Address([255; 4]));
    assert_eq!(Ipv4Address::default(), Ipv4Address::unspecified());
    assert_eq!(Ipv4Address::from([9, 8, 7, 6]), Ipv4Address::new(9, 8, 7, 6));
    assert_eq!(StackState::default(), StackState::Uninitialized);
    let fixed = StackConfig::with_static(
        Ipv4Address::new(10, 0, 0, 2),
        Ipv4Address::new(255, 255, 255, 0),
        Ipv4Address::new(10, 0, 0, 1),
    );
    assert!(!fixed.dhcp);
    assert_eq!(fixed.dns, Some(Ipv4Address::new(10, 0, 0, 1)));
    assert!(StackConfig::default().dhcp);
    assert_eq!(StackConfig::default().static_ip, None);

    let mut stack = NetworkStack::new(StackConfig::default());
    assert_eq!(stack.state(), StackState::Uninitialized);
    assert!(!stack.is_ready());
    assert_eq!(stack.start_dhcp(), Err(NetworkError::NotInitialized));
    assert_eq!(
        stack.set_static_ip(Ipv4Address::localhost(), Ipv4Address::broadcast(), Ipv4Address::localhost()),
        Err(NetworkError::NotInitialized)
    );
    assert_eq!(stack.dns_resolve("example.org"), Err(NetworkError::NotInitialized));
    assert_eq!(stack.init(), Ok(()));
    assert_eq!(stack.state(), StackState::NoIp);
    assert_eq!(stack.local_ip(), None);
    assert_eq!(stack.start_dhcp(), Ok(()));
    assert!(stack.is_ready());
    assert_eq!(stack.local_ip(), Some(Ipv4Address::new(192, 168, 1, 100)));
    assert_eq!(stack.gateway(), Some(Ipv4Address::new(192, 168, 1, 1)));
    assert_eq!(stack.dns_server(), Some(Ipv4Address::new(8, 8, 8, 8)));
    assert_eq!(stack.dns_resolve("example.org"), Err(NetworkError::DnsResolutionFailed));
    assert_eq!(
        stack.set_static_ip(
            Ipv4Address::new(10, 0, 0, 2),
            Ipv4Address::new(255, 0, 0, 0),
            Ipv4Address::new(10, 0, 0, 1)
        ),
        Ok(())
    );
    assert_eq!(stack.local_ip(), Some(Ipv4Address::new(10, 0, 0, 2)));
    assert_eq!(stack.gateway(), Some(Ipv4Address::new(10, 0, 0, 1)));
    assert_eq!(stack.dns_server(), Some(Ipv4Address::new(8, 8, 8, 8)));
    assert_eq!(NetworkError::Timeout.message(), "Timeout");
    assert_eq!(NetworkError::AddressInUse.message(), "Address in use");
    assert_eq!(NetworkStats::default().tx_bytes, 0);
}

#[test]
fn sockets() {
    let peer = SocketAddress { ip: Ipv4Address::new(192, 168, 1, 1), port: 80 };
    let mut client = TcpClient::new();
    assert_eq!(client.state(), TcpState::Closed);
    assert_eq!(TcpState::default(), TcpState::Closed);
    assert_eq!(client.write(b"abc"), Err(NetworkError::NotConnected));
    assert_eq!(client.read(16), Err(NetworkError::NotConnected));
    assert_eq!(client.close(), Ok(()));
    assert_eq!(client.connect(peer), Ok(()));
    assert!(client.is_connected());
    assert_eq!(client.local_port(), 49152);
    assert_eq!(client.remote_addr(), Some(peer));
    assert_eq!(client.connect(peer), Err(NetworkError::InternalError));
    assert_eq!(client.write(b"abc"), Ok(3));
    assert_eq!(client.read(16), Ok(0));
    assert_eq!(client.close(), Ok(()));
    assert!(!client.is_connected());
    assert_eq!(client.remote_addr(), None);
    assert_eq!(client.local_port(), 49152);
    assert_eq!(client.connect_to(Ipv4Address::localhost(), 8080), Ok(()));
    assert_eq!(
        client.remote_addr(),
        Some(SocketAddress { ip: Ipv4Address::localhost(), port: 8080 })
    );
    assert_eq!(TcpClient::default().state(), TcpState::Closed);

    let mut server = TcpServer::new(8080);
    assert_eq!(server.port(), 8080);
    assert!(!server.is_listening());
    assert!(matches!(server.accept(), Err(NetworkError::NotInitialized)));
    assert_eq!(server.listen(), Ok(()));
    assert!(server.is_listening());
    assert!(matches!(server.accept(), Ok(None)));
    assert_eq!(server.close(), Ok(()));
    assert!(!server.is_listening());

    let mut udp = UdpSocket::new();
    assert!(!udp.is_bound());
    assert_eq!(udp.send_to(b"x", peer), Err(NetworkError::NotInitialized));
    assert_eq!(udp.recv_from(16), Err(NetworkError::NotInitialized));
    assert_eq!(udp.bind(5353), Ok(()));
    assert!(udp.is_bound());
    assert_eq!(udp.local_port(), 5353);
    assert_eq!(udp.send_to(b"hello", peer), Ok(5));
    assert_eq!(udp.recv_from(16), Ok(None));
    assert_eq!(udp.close(), Ok(()));
    assert!(!udp.is_bound());
    assert_eq!(udp.local_port(), 0);
    assert!(!UdpSocket::default().is_bound());
}

#[test]
fn ble_advertising() {
    let config = AdvertiseConfig::default();
    assert_eq!(config.name.as_str(), "RustRTOS");
    assert_eq!(config.interval_ms, 100);
    assert!(config.connectable && config.scannable);
    assert_eq!(config.adv_data.as_slice().len(), 0);
    assert_eq!(config.timeout_secs, 0);
    let config = config
        .with_name("probe")
        .with_interval_ms(250)
        .with_connectable(false)
        .with_timeout_secs(30)
        .with_adv_data(&[2, 1, 6]);
    assert_eq!(config.name.as_str(), "probe");
    assert_eq!(config.interval_ms, 250);
    assert!(!config.connectable);
    assert!(config.scannable);
    assert_eq!(config.timeout_secs, 30);
    assert_eq!(config.adv_data.as_slice(), &[2, 1, 6]);
    let config = config.with_adv_data(&[0; 32]).with_name(&"n".repeat(33));
    assert_eq!(config.adv_data.as_slice().len(), 0);
    assert_eq!(config.name.as_str(), "");

    let mut controller = BleController::new();
    assert_eq!(controller.state(), BleState::Uninitialized);
    assert_eq!(BleState::default(), BleState::Uninitialized);
    assert_eq!(controller.local_address(), [0; 6]);
    assert_eq!(
        controller.start_advertising(AdvertiseConfig::default()),
        Err(BleError::NotInitialized)
    );
    assert_eq!(controller.stop_advertising(), Ok(None));
    assert_eq!(controller.init(), Ok(()));
    assert_eq!(controller.state(), BleState::Idle);
    assert_eq!(controller.local_address(), [0x12, 0x34, 0x56, 0x78, 0x9A, 0xBC]);
    assert_eq!(
        controller.start_advertising(AdvertiseConfig::default()),
        Ok(BleEvent::AdvertisingStarted)
    );
    assert_eq!(controller.state(), BleState::Advertising);
    assert_eq!(
        controller.start_advertising(AdvertiseConfig::default()),
        Err(BleError::AlreadyAdvertising)
    );
    assert_eq!(controller.stop_advertising(), Ok(Some(BleEvent::AdvertisingStopped)));
    assert_eq!(controller.state(), BleState::Idle);
    assert_eq!(controller.stop_advertising(), Ok(None));
    assert_eq!(BleError::MaxConnectionsReached.message(), "Max connections reached");
    assert_eq!(DisconnectReason::default(), DisconnectReason::Unknown);
    assert_eq!(BleStats::default().tx_packets, 0);
    assert!(matches!(init_ble(), Err(BleError::Unsupported)));
    assert_eq!(init_wifi(), Ok(()));
}

#[test]
fn ble_connections() {
    let mut controller = BleController::new();
    controller.init().unwrap();
    assert_eq!(controller.wait_for_connection(BleEvent::AdvertisingStarted), None);
    assert_eq!(controller.wait_for_connection(BleEvent::NotificationSent { conn_handle: 1 }), None);
    assert_eq!(controller.connection_count(), 0);
    let first = controller
        .wait_for_connection(BleEvent::Connected { conn_handle: 1, peer_addr: [1; 6] })
        .unwrap()
        .unwrap();
    assert_eq!(
        first,
        ConnectionInfo {
            handle: 1,
            peer_addr: [1; 6],
            interval: 6,
            latency: 0,
            timeout: 400,
            mtu: 23,
            bonded: false
        }
    );
    assert_eq!(controller.state(), BleState::Connected);
    for handle in 2..4u16 {
        assert!(matches!(
            controller.wait_for_connection(BleEvent::Connected { conn_handle: handle, peer_addr: [2; 6] }),
            Some(Ok(_))
        ));
    }
    assert_eq!(controller.connection_count(), 3);
    assert_eq!(
        controller.wait_for_connection(BleEvent::Connected { conn_handle: 4, peer_addr: [4; 6] }),
        Some(Err(BleError::MaxConnectionsReached))
    );
    assert_eq!(controller.connection_count(), 3);
    assert_eq!(controller.connection_info(2).map(|c| c.peer_addr), Some([2; 6]));
    assert_eq!(controller.connection_info(9), None);
    assert_eq!(controller.notify(2, 7, 20), Ok(BleEvent::NotificationSent { conn_handle: 2 }));
    assert_eq!(controller.notify(9, 7, 20), Err(BleError::Disconnected));

    assert_eq!(controller.disconnect(9), Ok(None));
    assert_eq!(
        controller.disconnect(2),
        Ok(Some(BleEvent::Disconnected {
            conn_handle: 2,
            reason: DisconnectReason::LocalHostTerminated
        }))
    );
    assert_eq!(controller.connection_count(), 2);
    assert_eq!(controller.state(), BleState::Connected);
    assert_eq!(controller.connection_info(2), None);
    let events = controller.disconnect_all().unwrap();
    assert_eq!(
        events,
        vec![
            BleEvent::Disconnected { conn_handle: 3, reason: DisconnectReason::LocalHostTerminated },
            BleEvent::Disconnected { conn_handle: 1, reason: DisconnectReason::LocalHostTerminated },
        ]
    );
    assert_eq!(controller.connection_count(), 0);
    assert_eq!(controller.state(), BleState::Idle);

    controller
        .wait_for_connection(BleEvent::Connected { conn_handle: 5, peer_addr: [5; 6] })
        .unwrap()
        .unwrap();
    assert!(controller.disconnect(5).unwrap().is_some());
    assert_eq!(controller.state(), BleState::Idle);
}

#[test]
fn gatt_services() {
    assert_eq!(Uuid::from_u16(0x180F), Uuid::Uuid16(0x180F));
    assert_eq!(Uuid::from_u128([7; 16]), Uuid::Uuid128([7; 16]));
    let props = CharacteristicProps::default();
    assert!(props.read && !props.write && !props.notify);
    let props = CharacteristicProps::read_write();
    assert!(props.read && props.write && !props.notify && !props.indicate);
    let props = CharacteristicProps::read_notify();
    assert!(props.read && !props.write && props.notify && !props.write_without_response);

    let mut builder = GattServerBuilder::new();
    for i in 0..10u16 {
        builder = builder.add_service(Uuid::from_u16(i), i % 2 == 0);
    }
    let server = builder.build();
    assert_eq!(server.services().len(), 8);
    assert_eq!(server.services()[7].uuid, Uuid::Uuid16(7));
    assert!(server.services()[0].primary);
    assert!(!server.services()[1].primary);
    assert_eq!(server.services()[3].handle, 0);
    assert_eq!(server.services()[3].characteristic_count, 0);
    let mut controller = BleController::new();
    assert_eq!(server.register(&mut controller), Ok(()));
    assert_eq!(controller.state(), BleState::Uninitialized);
    assert_eq!(GattServerBuilder::default().build().services().len(), 0);
}

#[test]
fn wifi_connection_states() {
    let mut wifi = WifiController::new();
    assert_eq!(wifi.state(), WifiState::Uninitialized);
    assert_eq!(wifi.mode(), WifiMode::Unconfigured);
    assert_eq!(WifiMode::default(), WifiMode::Unconfigured);
    assert_eq!(wifi.set_mode(WifiMode::Sta), Err(WifiError::NotInitialized));
    assert_eq!(wifi.scan(), Err(WifiError::NotInitialized));
    assert_eq!(wifi.connect("home", "secret"), Err(WifiError::NotInitialized));
    assert_eq!(wifi.disconnect(), Err(WifiError::NotInitialized));
    assert_eq!(wifi.wait_for_ip(), Err(WifiError::NotInitialized));
    assert_eq!(wifi.init(), Ok(()));
    assert_eq!(wifi.state(), WifiState::Idle);
    assert_eq!(wifi.set_mode(WifiMode::Sta), Ok(()));
    assert_eq!(wifi.mode(), WifiMode::Sta);
    assert_eq!(wifi.scan(), Ok(WifiEvent::ScanDone { count: 0 }));
    assert_eq!(wifi.scan_results().len(), 0);
    assert_eq!(wifi.wait_for_ip(), Err(WifiError::NotInitialized));

    assert_eq!(wifi.connect("home", "secret"), Ok(()));
    assert_eq!(wifi.state(), WifiState::Connecting);
    assert!(!wifi.is_connected());
    assert_eq!(wifi.wait_connected(Some(false)), Err(WifiError::ConnectionFailed));
    assert_eq!(wifi.state(), WifiState::Connecting);
    assert_eq!(wifi.wait_connected(None), Err(WifiError::Timeout));
    assert_eq!(wifi.state(), WifiState::Disconnected);
    assert_eq!(wifi.connect("home", "secret"), Ok(()));
    assert_eq!(wifi.wait_connected(Some(true)), Ok(WifiEvent::StaConnected));
    assert_eq!(wifi.state(), WifiState::Connected);
    assert!(wifi.is_connected());

    assert_eq!(wifi.wait_for_ip(), Ok(None));
    assert_eq!(wifi.state(), WifiState::GettingIp);
    assert!(wifi.is_connected());
    assert_eq!(wifi.wait_for_ip(), Ok(None));
    assert_eq!(
        wifi.set_ip_address([10, 0, 0, 7], [10, 0, 0, 1]),
        WifiEvent::GotIp { ip: [10, 0, 0, 7], gateway: [10, 0, 0, 1], netmask: [255, 255, 255, 0] }
    );
    assert_eq!(wifi.state(), WifiState::Ready);
    assert_eq!(wifi.ip_address(), Some([10, 0, 0, 7]));
    assert_eq!(wifi.gateway(), Some([10, 0, 0, 1]));
    assert_eq!(wifi.wait_for_ip(), Err(WifiError::NotInitialized));
    assert_eq!(wifi.set_connected(true), Some(WifiEvent::StaConnected));
    assert_eq!(wifi.wait_for_ip(), Ok(Some([10, 0, 0, 7])));
    assert_eq!(wifi.state(), WifiState::Ready);

    assert_eq!(wifi.set_connected(false), None);
    assert_eq!(wifi.state(), WifiState::Disconnected);
    assert_eq!(wifi.ip_address(), None);
    assert_eq!(wifi.gateway(), None);
    wifi.set_ip_address([1, 2, 3, 4], [1, 2, 3, 1]);
    assert_eq!(
        wifi.disconnect(),
        Ok(WifiEvent::StaDisconnected { reason: rustrtos::net::wifi::DisconnectReason::AssocLeave })
    );
    assert_eq!(wifi.ip_address(), None);
    assert!(!wifi.is_connected());
    wifi.set_auto_reconnect(false);
    assert_eq!(WifiError::Timeout.message(), "Operation timeout");
    let ap = ApConfig::default();
    assert_eq!(ap.ssid.as_str(), "RustRTOS-AP");
    assert_eq!(ap.password.as_str(), "");
    assert_eq!((ap.channel, ap.max_clients, ap.hidden), (1, 4, false));
    assert_eq!(WifiStats::default().rssi, 0);
    assert_eq!(rustrtos::net::wifi::AuthMode::default(), rustrtos::net::wifi::AuthMode::Open);
    assert_eq!(WifiState::default(), WifiState::Uninitialized);
}

#[test]
fn system_settings() {
    assert_eq!(rustrtos::VERSION, "0.1.0");
    assert_eq!(rustrtos::NAME, "rustrtos");
    assert_eq!(rustrtos::config::PSRAM_SIZE, 8 * 1024 * 1024);
    assert_eq!(rustrtos::config::PSRAM_BASE, 0x3C00_0000);
    assert_eq!(rustrtos::config::DMA_ALIGNMENT, rustrtos::mem::dma::DMA_ALIGNMENT);
    let mut state = rustrtos::system::SystemState::new();
    assert_eq!((state.boot_time, state.context_switches, state.flags), (0, 0, 0));
    assert!(state.heartbeat(10));
    assert_eq!(state.flags, 10);
    assert!(!state.heartbeat(0x1_0000_0007));
    assert_eq!(state.flags, 7);
}
