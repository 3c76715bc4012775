//! A session and a connection through their lives, at chosen times.

use serial_mcp_server::clock::seconds_since;
use serial_mcp_server::error::SerialError;
use serial_mcp_server::registry::Registry;
use serial_mcp_server::serial::connection::{
    default_data_bits, default_flow_control, default_parity, default_stop_bits, SerialConnection, Transfer,
};
use serial_mcp_server::serial::error::SerialError as LocalError;
use serial_mcp_server::serial::port::{DetectedPort, PortInfo, PortKind};
use serial_mcp_server::serial::{ConnectionConfig, ConnectionManager, DataBits, FlowControl, Parity, StopBits};
use serial_mcp_server::session::session::{SerialSession, SessionConfig, SessionState, SessionStats};

fn settings(port: &str, baud_rate: u32) -> ConnectionConfig {
    ConnectionConfig {
        port: port.to_string(),
        baud_rate,
        data_bits: DataBits::Eight,
        stop_bits: StopBits::One,
        parity: Parity::NoParity,
        flow_control: FlowControl::NoFlowControl,
    }
}

fn session() -> SerialSession {
    SerialSession::from_parts(
        SessionConfig { port_name: "COM1".to_string(), max_reconnect_attempts: 1, ..Default::default() },
        "serial_session_00000000000000ff".to_string(),
        5_000,
    )
}

#[test]
fn whole_seconds_are_rounded_towards_zero() {
    assert_eq!(seconds_since(0, 0), 0);
    assert_eq!(seconds_since(999, 0), 0);
    assert_eq!(seconds_since(1_000, 0), 1);
    assert_eq!(seconds_since(61_999, 1_000), 60);
    assert_eq!(seconds_since(0, 999), 0);
    assert_eq!(seconds_since(0, 1_000), -1);
    assert_eq!(seconds_since(0, 1_999), -1);
    assert_eq!(seconds_since(i64::MAX, i64::MIN), 18_446_744_073_709_551);
    assert_eq!(seconds_since(i64::MIN, i64::MAX), -18_446_744_073_709_551);
}

#[test]
fn a_session_goes_from_creating_to_active_to_suspended_to_closed() {
    let mut s = session();
    assert_eq!(s.id(), "serial_session_00000000000000ff");
    assert_eq!(s.state, SessionState::Creating);
    assert_eq!((s.created_at, s.last_accessed), (5_000, 5_000));
    assert_eq!(s.get_connection(), None);
    assert_eq!(s.reconnect_attempts(), 0);

    s.set_connection_at("conn-1".to_string(), 6_000).unwrap();
    assert!(s.is_active() && s.has_connection());
    assert_eq!(s.get_connection(), Some("conn-1".to_string()));
    assert_eq!(s.last_accessed, 6_000);

    s.remove_connection_at(7_000);
    assert_eq!(s.state, SessionState::Suspended);
    assert!(!s.has_connection());
    assert_eq!(s.last_accessed, 7_000);
    // Unbinding a session that is not active leaves its state.
    s.remove_connection_at(7_500);
    assert_eq!(s.state, SessionState::Suspended);

    s.set_connection_at("conn-2".to_string(), 8_000).unwrap();
    assert_eq!(s.state, SessionState::Active);

    s.close_at(9_000);
    assert_eq!(s.state, SessionState::Closed);
    assert!(!s.has_connection());
    assert_eq!(s.last_accessed, 9_000);

    // Closed is final: binding is refused and changes nothing.
    match s.set_connection_at("conn-3".to_string(), 10_000) {
        Err(SerialError::InvalidSession(message)) => assert_eq!(message, "Cannot set connection on closed session"),
        other => panic!("expected a refusal, got {:?}", other),
    }
    assert_eq!(s.state, SessionState::Closed);
    assert!(!s.has_connection());
    assert_eq!(s.last_accessed, 9_000);
    assert!(s.set_connection("conn-3".to_string()).is_err());
}

#[test]
fn a_failure_unbinds_a_session() {
    let mut s = session();
    s.set_connection_at("conn-1".to_string(), 6_000).unwrap();
    assert!(s.is_active() && s.has_connection());
    s.set_error_at("framing error".to_string(), 7_000);
    assert_eq!(s.state, SessionState::Error("framing error".to_string()));
    assert!(!s.is_active() && !s.has_connection());
    assert_eq!(s.get_connection(), None);
    assert_eq!(s.stats.errors_count, 1);
    assert_eq!(s.last_accessed, 7_000);

    // Unbound, the session can be bound again.
    s.set_connection_at("conn-2".to_string(), 8_000).unwrap();
    assert!(s.is_active() && s.has_connection());
    s.set_error("again".to_string());
    assert!(!s.is_active() && !s.has_connection());
}

#[test]
fn a_closed_session_stays_closed() {
    let mut s = session();
    s.set_connection_at("conn-1".to_string(), 6_000).unwrap();
    // Putting a session into `Closed` closes it: the connection goes.
    s.set_state_at(SessionState::Closed, 7_000);
    assert_eq!(s.state, SessionState::Closed);
    assert!(!s.has_connection());
    assert!(s.is_closed());

    s.set_state_at(SessionState::Active, 8_000);
    assert_eq!(s.state, SessionState::Closed);
    assert_eq!(s.last_accessed, 8_000);
    s.set_state(SessionState::Creating);
    assert_eq!(s.state, SessionState::Closed);
    s.set_error_at("late failure".to_string(), 9_000);
    assert_eq!(s.state, SessionState::Closed);
    assert_eq!(s.stats.errors_count, 1);
    assert_eq!(s.last_accessed, 9_000);
    s.set_error("later failure".to_string());
    assert_eq!(s.state, SessionState::Closed);
    s.remove_connection_at(10_000);
    s.record_send_at(1, 11_000);
    s.close_at(12_000);
    assert_eq!(s.state, SessionState::Closed);
    assert!(!s.has_connection());
}

#[test]
fn a_session_counts_its_traffic_and_its_failures() {
    let mut s = session();
    s.record_send_at(100, 6_000);
    s.record_send_at(28, 6_500);
    s.record_receive_at(50, 7_000);
    assert_eq!(s.stats.bytes_sent, 128);
    assert_eq!(s.stats.messages_sent, 2);
    assert_eq!(s.stats.bytes_received, 50);
    assert_eq!(s.stats.messages_received, 1);
    assert_eq!(s.stats.last_activity, Some(7_000));
    assert_eq!(s.last_accessed, 7_000);

    s.set_error_at("parity error".to_string(), 8_000);
    assert_eq!(s.state, SessionState::Error("parity error".to_string()));
    assert_eq!(s.state.to_string(), "Error: parity error");
    assert_eq!(s.stats.errors_count, 1);
    assert_eq!(s.stats.last_activity, Some(8_000));

    assert!(s.attempt_reconnect_at(9_000));
    assert_eq!(s.reconnect_attempts(), 1);
    assert_eq!(s.stats.reconnections, 1);
    assert_eq!(s.last_accessed, 9_000);
    // One attempt was allowed: the second is refused and changes nothing.
    assert!(!s.attempt_reconnect_at(10_000));
    assert_eq!(s.reconnect_attempts(), 1);
    assert_eq!(s.stats.reconnections, 1);
    assert_eq!(s.last_accessed, 9_000);
    s.reset_reconnect_attempts();
    assert_eq!(s.reconnect_attempts(), 0);
    assert!(s.attempt_reconnect());
    assert_eq!(s.stats.reconnections, 2);

    s.set_state_at(SessionState::Closing, 11_000);
    assert_eq!(s.state.to_string(), "Closing");
    s.touch_at(12_000);
    assert_eq!(s.last_accessed, 12_000);
    assert_eq!(s.age_seconds_at(12_999), 7);
    assert_eq!(s.idle_seconds_at(12_999), 0);
    assert!(!s.is_idle_at(30, 42_999));
    assert!(s.is_idle_at(30, 43_000));
    assert!(s.is_idle_at(-1, 12_000));

    let info = s.info_at(20_000);
    assert_eq!(info.session_id, "serial_session_00000000000000ff");
    assert_eq!(info.port_name, "COM1");
    assert_eq!(info.state, SessionState::Closing);
    assert_eq!((info.age_seconds, info.idle_seconds), (15, 8));
    assert_eq!(info.stats.bytes_sent, 128);
    let copy = info.clone();
    assert_eq!(copy.config.port_name, "COM1");
    assert_eq!(copy.state, SessionState::Closing);

    for (state, name) in [
        (SessionState::Creating, "Creating"),
        (SessionState::Active, "Active"),
        (SessionState::Suspended, "Suspended"),
        (SessionState::Closed, "Closed"),
    ] {
        assert_eq!(state.to_string(), name);
        assert_eq!(state.clone(), state);
    }
}

#[test]
fn the_clock_moves_a_session_on() {
    let mut s = SerialSession::new(SessionConfig::default());
    assert!(s.created_at > 1_600_000_000_000);
    assert_eq!(s.created_at, s.last_accessed);
    let before = s.last_accessed;
    s.last_accessed = 0;
    s.touch();
    assert!(s.last_accessed >= before);
    assert!(s.idle_seconds() >= 0 && s.idle_seconds() < 60);
    assert!(!s.is_idle(60));
    assert!(s.is_idle(-1));
    assert!(s.age_seconds() >= 0);
    assert_eq!(s.info().session_id, s.session_id);

    let mut stats = SessionStats::default();
    stats.record_send(10);
    stats.record_receive(20);
    stats.record_error();
    stats.record_reconnection();
    assert_eq!((stats.bytes_sent, stats.messages_sent), (10, 1));
    assert_eq!((stats.bytes_received, stats.messages_received), (20, 1));
    assert_eq!((stats.errors_count, stats.reconnections), (1, 1));
    assert!(stats.last_activity.unwrap() >= before);
}

#[test]
fn a_connection_is_made_checked_and_counted() {
    let mut c = SerialConnection::from_parts(settings("COM1", 9600), Ok(()), "id-1".to_string(), 77).unwrap();
    assert_eq!(c.id(), "id-1");
    assert_eq!(c.config().port, "COM1");
    assert_eq!(c.write(Transfer::Done(4)).unwrap(), 4);
    assert_eq!(c.write(Transfer::Done(6)).unwrap(), 6);
    assert_eq!(c.read(Transfer::Done(3)).unwrap(), 3);
    assert!(matches!(c.read(Transfer::TimedOut), Err(LocalError::ReadTimeout)));
    assert!(matches!(c.write(Transfer::TimedOut), Err(LocalError::WriteTimeout)));
    match c.write(Transfer::Failed("Broken pipe".to_string())) {
        Err(LocalError::IoError(message)) => assert_eq!(message, "Broken pipe"),
        other => panic!("expected an I/O failure, got {:?}", other),
    }
    let status = c.status();
    assert_eq!(status.id, "id-1");
    assert_eq!(status.port, "COM1");
    assert_eq!(status.baud_rate, 9600);
    assert_eq!(status.data_bits, DataBits::Eight);
    assert!(status.connected);
    assert_eq!(status.created_at, 77);
    assert_eq!((status.bytes_sent, status.bytes_received), (10, 3));
    assert_eq!(status.clone().bytes_sent, 10);
    assert_eq!(c.clone().status().bytes_received, 3);

    assert!(c.reconfigure(None).is_ok());
    assert!(matches!(c.reconfigure(Some(0)), Err(LocalError::InvalidBaudRate(0))));
    assert!(matches!(c.reconfigure(Some(4_000_001)), Err(LocalError::InvalidBaudRate(4_000_001))));
    match c.reconfigure(Some(4_000_000)) {
        Err(LocalError::InvalidConfig(message)) => assert_eq!(
            message,
            "Runtime reconfiguration not supported. Please close and reopen the connection."
        ),
        other => panic!("expected a refusal, got {:?}", other),
    }

    // The baud rate is checked before the report of the transport.
    assert!(SerialConnection::accepts_baud_rate(1));
    assert!(SerialConnection::accepts_baud_rate(4_000_000));
    assert!(!SerialConnection::accepts_baud_rate(0));
    assert!(!SerialConnection::accepts_baud_rate(4_000_001));
    match SerialConnection::new(settings("COM1", 4_000_001), Err("busy".to_string())) {
        Err(LocalError::InvalidBaudRate(rate)) => assert_eq!(rate, 4_000_001),
        other => panic!("expected an invalid baud rate, got {:?}", other),
    }
    match SerialConnection::new(settings("COM1", 9600), Err("Permission denied".to_string())) {
        Err(LocalError::ConnectionFailed(message)) => assert_eq!(message, "COM1: Permission denied"),
        other => panic!("expected a failed connection, got {:?}", other),
    }
    let made = SerialConnection::new(settings("COM1", 4_000_000), Ok(())).unwrap();
    assert_eq!(made.id().len(), 36);
    assert_eq!(made.id().matches('-').count(), 4);
    assert!(made.status().created_at > 1_600_000_000_000);
    assert_eq!((made.status().bytes_sent, made.status().bytes_received), (0, 0));
}

#[test]
fn a_port_is_connected_once_unless_ports_are_shared() {
    let mut manager = ConnectionManager::new();
    let first = manager.open(settings("COM1", 9600), Ok(())).unwrap();
    assert_eq!(manager.get(&first).unwrap().id(), first);
    assert!(manager.is_port_connected("COM1"));
    assert!(!manager.is_port_connected("COM2"));
    match manager.open(settings("COM1", 115200), Ok(())) {
        Err(LocalError::ConnectionExists(port)) => assert_eq!(port, "COM1"),
        other => panic!("expected the port to be connected, got {:?}", other),
    }
    let second = manager.open(settings("COM2", 115200), Ok(())).unwrap();
    assert_ne!(first, second);
    assert_eq!(manager.len(), 2);
    let ports: Vec<String> = manager.list().into_iter().map(|s| s.port).collect();
    assert_eq!(ports, vec!["COM1", "COM2"]);

    assert_eq!(manager.write(&first, Transfer::Done(5)).unwrap(), 5);
    assert_eq!(manager.read(&first, Transfer::Done(2)).unwrap(), 2);
    assert!(matches!(manager.write("nobody", Transfer::Done(5)), Err(LocalError::InvalidConnection(_))));
    assert!(matches!(manager.read("nobody", Transfer::Done(5)), Err(LocalError::InvalidConnection(_))));
    let status = manager.get(&first).unwrap().status();
    assert_eq!((status.bytes_sent, status.bytes_received), (5, 2));

    manager.close(&first).unwrap();
    assert!(manager.get(&first).is_err());
    assert!(manager.close(&first).is_err());
    assert!(manager.open(settings("COM1", 9600), Ok(())).is_ok());

    let mut shared = ConnectionManager::with_port_sharing(true);
    shared.open(settings("COM1", 9600), Ok(())).unwrap();
    shared.open(settings("COM1", 9600), Ok(())).unwrap();
    assert_eq!(shared.list().len(), 2);
    assert_eq!(ConnectionManager::default().list().len(), 0);
}

#[test]
fn a_connection_identifier_in_use_is_refused() {
    let mut manager = ConnectionManager::with_port_sharing(true);
    let first = SerialConnection::from_parts(settings("COM1", 9600), Ok(()), "id-1".to_string(), 1).unwrap();
    let second = SerialConnection::from_parts(settings("COM2", 19200), Ok(()), "id-1".to_string(), 2).unwrap();
    assert_eq!(manager.register(first).unwrap(), "id-1");
    match manager.open_with(Ok(second)) {
        Err(LocalError::ConnectionExists(id)) => assert_eq!(id, "id-1"),
        other => panic!("expected the identifier to be in use, got {:?}", other),
    }
    assert_eq!(manager.len(), 1);
    assert_eq!(manager.get("id-1").unwrap().config().port, "COM1");

    // Where ports are not shared, a connected port is the first thing refused.
    let mut manager = ConnectionManager::new();
    let first = SerialConnection::from_parts(settings("COM1", 9600), Ok(()), "id-1".to_string(), 1).unwrap();
    let second = SerialConnection::from_parts(settings("COM1", 9600), Ok(()), "id-1".to_string(), 2).unwrap();
    manager.register(first).unwrap();
    match manager.register(second) {
        Err(LocalError::ConnectionExists(port)) => assert_eq!(port, "COM1"),
        other => panic!("expected the port to be connected, got {:?}", other),
    }
}

#[test]
fn requests_are_resolved_into_line_settings() {
    let config = ConnectionManager::resolve("COM1", 9600, 7, "TWO", "Even", "HARDWARE").unwrap();
    assert_eq!(config.port, "COM1");
    assert_eq!(config.baud_rate, 9600);
    assert_eq!(config.data_bits, DataBits::Seven);
    assert_eq!(config.stop_bits, StopBits::Two);
    assert_eq!(config.parity, Parity::Even);
    assert_eq!(config.flow_control, FlowControl::Hardware);
    let config = ConnectionManager::resolve("COM1", 9600, 5, "1", "odd", "software").unwrap();
    assert_eq!(config.data_bits, DataBits::Five);
    assert_eq!(config.stop_bits, StopBits::One);
    assert_eq!(config.parity, Parity::Odd);
    assert_eq!(config.flow_control, FlowControl::Software);
    assert_eq!(ConnectionManager::resolve("COM1", 9600, 6, "2", "none", "None").unwrap().data_bits, DataBits::Six);

    let failures = [
        (ConnectionManager::resolve("COM1", 9600, 9, "x", "x", "x"), "Invalid data bits: 9"),
        (ConnectionManager::resolve("COM1", 9600, 8, "1.5", "x", "x"), "Invalid stop bits: 1.5"),
        (ConnectionManager::resolve("COM1", 9600, 8, "one", "Mark", "x"), "Invalid parity: Mark"),
        (ConnectionManager::resolve("COM1", 9600, 8, "one", "none", "rts"), "Invalid flow control: rts"),
    ];
    for (result, message) in failures {
        assert_eq!(result.unwrap_err().to_string(), message);
    }

    let manager = ConnectionManager::new();
    let made = manager.connect("COM1", 9600, 8, "One", "None", "None", 1000, Ok(())).unwrap();
    assert_eq!(made.config().port, "COM1");
    assert_eq!(manager.list().len(), 0);
    assert_eq!(
        manager.connect("COM1", 0, 8, "One", "None", "None", 1000, Ok(())).unwrap_err().to_string(),
        "Connection failed: Invalid baud rate: 0"
    );
    assert_eq!(
        manager.connect("COM1", 9600, 8, "One", "None", "None", 1000, Err("busy".to_string())).unwrap_err().to_string(),
        "Connection failed: Connection failed: COM1: busy"
    );
    assert_eq!(
        manager.connect("COM1", 9600, 8, "One", "Mark", "None", 1000, Err("busy".to_string())).unwrap_err().to_string(),
        "Invalid parity: Mark"
    );

    assert_eq!(DataBits::from_number(4), None);
    assert_eq!(DataBits::from_word("8"), Some(DataBits::Eight));
    assert_eq!(DataBits::from_word("eight"), None);
    assert_eq!(StopBits::from_word("ONE"), None);
    assert_eq!(Parity::from_word("none"), Some(Parity::NoParity));
    assert_eq!(FlowControl::from_word("none"), Some(FlowControl::NoFlowControl));
    assert_eq!(default_data_bits(), DataBits::Eight);
    assert_eq!(default_stop_bits(), StopBits::One);
    assert_eq!(default_parity(), Parity::NoParity);
    assert_eq!(default_flow_control(), FlowControl::NoFlowControl);
}

#[test]
fn ports_are_described_by_their_kind() {
    let ports = vec![
        DetectedPort {
            port_name: "/dev/ttyUSB0".to_string(),
            port_type: PortKind::Usb {
                vid: 0x0403,
                pid: 0x6001,
                manufacturer: Some("FTDI".to_string()),
                product: Some("FT232R".to_string()),
            },
        },
        DetectedPort {
            port_name: "/dev/ttyACM0".to_string(),
            port_type: PortKind::Usb { vid: 0x1a86, pid: 0xabcd, manufacturer: None, product: None },
        },
        DetectedPort { port_name: "/dev/ttyS0".to_string(), port_type: PortKind::Pci },
        DetectedPort { port_name: "/dev/rfcomm0".to_string(), port_type: PortKind::Bluetooth },
        DetectedPort { port_name: "/dev/ttyX".to_string(), port_type: PortKind::Unknown },
    ];
    let shown: Vec<(String, String, Option<String>, bool)> = PortInfo::list_ports(&ports)
        .into_iter()
        .map(|p| (p.name, p.description, p.hardware_id, p.available))
        .collect();
    let expected = vec![
        ("/dev/ttyUSB0", "FTDI FT232R", Some("USB VID:0403 PID:6001"), true),
        ("/dev/ttyACM0", "Unknown USB Serial Device", Some("USB VID:1A86 PID:ABCD"), true),
        ("/dev/ttyS0", "PCI Serial Port", Some("PCI"), true),
        ("/dev/rfcomm0", "Bluetooth Serial Port", Some("Bluetooth"), true),
        ("/dev/ttyX", "Serial Port", None, true),
    ];
    assert_eq!(shown.len(), expected.len());
    for (got, want) in shown.iter().zip(expected) {
        assert_eq!(got.0, want.0);
        assert_eq!(got.1, want.1);
        assert_eq!(got.2.as_deref(), want.2);
        assert_eq!(got.3, want.3);
    }
    assert_eq!(PortInfo::describe(&ports[0]).clone().description, "FTDI FT232R");
}

#[test]
fn a_registry_keeps_one_value_for_each_key_in_order() {
    let mut registry: Registry<ConnectionConfig> = Registry::new();
    assert_eq!(registry.len(), 0);
    assert!(registry.insert("b".to_string(), settings("B", 1)).is_none());
    assert!(registry.insert("a".to_string(), settings("A", 2)).is_none());
    assert!(registry.insert("c".to_string(), settings("C", 3)).is_none());
    assert_eq!(registry.insert("a".to_string(), settings("A2", 4)).unwrap().port, "A");
    assert_eq!(registry.len(), 3);
    assert_eq!(registry.position("a"), Some(1));
    assert_eq!(registry.position("z"), None);
    assert!(registry.contains_key("c") && !registry.contains_key("C"));
    assert_eq!(registry.key_at(0), "b");
    assert_eq!(registry.value_at(1).port, "A2");
    assert_eq!(registry.get("c").unwrap().baud_rate, 3);
    assert!(registry.get("").is_none());
    registry.value_mut(2).baud_rate = 33;
    assert_eq!(registry.replace_at(0, settings("B2", 5)).port, "B");
    assert_eq!(registry.remove("a").unwrap().port, "A2");
    assert!(registry.remove("a").is_none());
    assert_eq!(registry.len(), 2);
    assert_eq!(registry.key_at(1), "c");
    assert_eq!(registry.remove_at(0).port, "B2");
    assert_eq!(registry.value_at(0).baud_rate, 33);
}
