//! The messages and categories of the failures.

use serial_mcp_server::error::{
    ConfigError, ConnectionError, DataError, ProtocolError, SerialError, SessionError,
};
use serial_mcp_server::serial::error::SerialError as Local;

fn text(s: &str) -> String {
    s.to_string()
}

#[test]
fn every_failure_has_its_message_and_category() {
    let cases: Vec<(SerialError, &str, &str)> = vec![
        (SerialError::PortNotFound(text("COM9")), "Port not found: COM9", "connection"),
        (SerialError::ConnectionFailed(text("busy")), "Connection failed: busy", "connection"),
        (SerialError::InvalidConnection(text("c1")), "Invalid connection ID: c1", "connection"),
        (SerialError::ConnectionExists(text("COM1")), "Connection already exists: COM1", "connection"),
        (SerialError::ConnectionLimitExceeded(10), "Connection limit exceeded (max: 10)", "connection"),
        (SerialError::OperationTimeout, "Operation timeout", "communication"),
        (SerialError::ReadTimeout, "Read timeout", "communication"),
        (SerialError::WriteTimeout, "Write timeout", "communication"),
        (SerialError::CommunicationError(text("noise")), "Communication error: noise", "communication"),
        (SerialError::ProtocolError(text("bad frame")), "Protocol error: bad frame", "communication"),
        (SerialError::BufferOverflow, "Buffer overflow", "communication"),
        (SerialError::BufferUnderflow, "Buffer underflow", "communication"),
        (SerialError::InvalidConfig(text("x")), "Invalid configuration: x", "configuration"),
        (SerialError::InvalidBaudRate(123), "Invalid baud rate: 123", "configuration"),
        (SerialError::InvalidDataBits(9), "Invalid data bits: 9", "configuration"),
        (SerialError::InvalidStopBits(text("3")), "Invalid stop bits: 3", "configuration"),
        (SerialError::InvalidParity(text("mark")), "Invalid parity: mark", "configuration"),
        (SerialError::InvalidFlowControl(text("xon")), "Invalid flow control: xon", "configuration"),
        (SerialError::InvalidSession(text("s1")), "Invalid session ID: s1", "session"),
        (SerialError::SessionLimitExceeded(2), "Session limit exceeded (max: 2)", "session"),
        (SerialError::SessionNotFound(text("s2")), "Session not found: s2", "session"),
        (SerialError::SessionExists(text("s3")), "Session already exists: s3", "session"),
        (SerialError::EncodingError(text("e")), "Encoding error: e", "encoding"),
        (SerialError::Utf8Error(text("u")), "UTF-8 conversion error: u", "encoding"),
        (SerialError::HexError(text("h")), "Hex decoding error: h", "encoding"),
        (SerialError::Base64Error(text("b")), "Base64 decoding error: b", "encoding"),
        (SerialError::IoError(text("io")), "I/O error: io", "system"),
        (SerialError::SerialPortError(text("sp")), "Serial port error: sp", "system"),
        (SerialError::TokioSerialError(text("ts")), "Tokio serial error: ts", "system"),
        (SerialError::SerializationError(text("json")), "Serialization error: json", "internal"),
        (SerialError::TomlError(text("toml")), "TOML parsing error: toml", "internal"),
        (SerialError::InternalError(text("bug")), "Internal error: bug", "internal"),
        (SerialError::NotImplemented(text("later")), "Not implemented: later", "internal"),
    ];
    let tags = ["connection", "communication", "configuration", "session", "encoding", "system", "internal"];
    for (error, message, category) in cases {
        assert_eq!(error.to_string(), message);
        assert_eq!(error.category(), category);
        assert!(tags.contains(&error.category()));
        assert_eq!(error.is_connection_error(), category == "connection");
        assert_eq!(error.is_configuration_error(), category == "configuration");
        let recoverable = matches!(
            error,
            SerialError::OperationTimeout
                | SerialError::ReadTimeout
                | SerialError::WriteTimeout
                | SerialError::CommunicationError(_)
                | SerialError::BufferOverflow
                | SerialError::BufferUnderflow
                | SerialError::TokioSerialError(_)
        );
        assert_eq!(error.is_recoverable(), recoverable);
    }
    assert_eq!(
        SerialError::SessionLimitExceeded(usize::MAX).to_string(),
        format!("Session limit exceeded (max: {})", usize::MAX)
    );
}

#[test]
fn failures_of_the_parts_become_failures_of_the_server() {
    let error = ConnectionError::OpenFailed { port: text("COM1"), reason: text("denied") };
    assert_eq!(error.to_string(), "Failed to open port COM1: denied");
    match SerialError::from(error) {
        SerialError::ConnectionFailed(message) => assert_eq!(message, "Failed to open port COM1: denied"),
        other => panic!("unexpected {:?}", other),
    }
    assert_eq!(
        ConnectionError::ConfigureFailed { port: text("COM1"), reason: text("baud") }.to_string(),
        "Failed to configure port COM1: baud"
    );
    assert_eq!(ConnectionError::ConnectionLost(text("gone")).to_string(), "Connection lost: gone");
    assert_eq!(ConnectionError::ConnectionBusy.to_string(), "Connection busy");
    assert_eq!(ConnectionError::NotConnected.to_string(), "Connection not established");
    assert_eq!(
        ConnectionError::InvalidState { expected: text("open"), actual: text("closed") }.to_string(),
        "Invalid connection state: expected open, got closed"
    );

    let error = ProtocolError::ChecksumMismatch { expected: 0x0a, actual: 0xf3 };
    assert_eq!(error.to_string(), "Checksum mismatch: expected 0a, got f3");
    match SerialError::from(error) {
        SerialError::ProtocolError(message) => assert_eq!(message, "Checksum mismatch: expected 0a, got f3"),
        other => panic!("unexpected {:?}", other),
    }
    assert_eq!(ProtocolError::UnknownProtocol(text("x")).to_string(), "Unknown protocol: x");
    assert_eq!(ProtocolError::ProtocolViolation(text("x")).to_string(), "Protocol violation: x");
    assert_eq!(ProtocolError::InvalidFrameFormat(text("x")).to_string(), "Invalid frame format: x");
    assert_eq!(
        ProtocolError::FrameTooLarge { size: 300, max_size: 256 }.to_string(),
        "Frame too large: 300 bytes (max: 256)"
    );
    assert_eq!(
        ProtocolError::FrameTooSmall { size: 1, min_size: 4 }.to_string(),
        "Frame too small: 1 bytes (min: 4)"
    );
    assert_eq!(ProtocolError::UnsupportedOperation(text("x")).to_string(), "Unsupported operation: x");

    let error = SessionError::CreationFailed(text("no port"));
    assert_eq!(error.to_string(), "Session creation failed: no port");
    match SerialError::from(error) {
        SerialError::InternalError(message) => assert_eq!(message, "Session creation failed: no port"),
        other => panic!("unexpected {:?}", other),
    }
    assert_eq!(SessionError::NotActive(text("s")).to_string(), "Session not active: s");
    assert_eq!(SessionError::Timeout(text("s")).to_string(), "Session timeout: s");
    assert_eq!(SessionError::Conflict(text("s")).to_string(), "Session conflict: s");
    assert_eq!(SessionError::CleanupFailed(text("s")).to_string(), "Session cleanup failed: s");

    let error = ConfigError::ValueOutOfRange { field: text("f"), value: text("9"), min: text("1"), max: text("5") };
    assert_eq!(error.to_string(), "Value out of range for f: 9 (range: 1-5)");
    match SerialError::from(error) {
        SerialError::InvalidConfig(message) => assert_eq!(message, "Value out of range for f: 9 (range: 1-5)"),
        other => panic!("unexpected {:?}", other),
    }
    assert_eq!(ConfigError::MissingField(text("f")).to_string(), "Missing required field: f");
    assert_eq!(
        ConfigError::InvalidValue { field: text("f"), value: text("v") }.to_string(),
        "Invalid value for f: v"
    );
    assert_eq!(ConfigError::ConflictingSettings(text("a/b")).to_string(), "Conflicting settings: a/b");
    assert_eq!(ConfigError::FileNotFound(text("c.toml")).to_string(), "Configuration file not found: c.toml");
    assert_eq!(
        ConfigError::FileNotReadable(text("c.toml")).to_string(),
        "Configuration file not readable: c.toml"
    );

    let error = DataError::IncompleteData { expected: 8, actual: 3 };
    assert_eq!(error.to_string(), "Incomplete data: expected 8 bytes, got 3");
    match SerialError::from(error) {
        SerialError::EncodingError(message) => assert_eq!(message, "Incomplete data: expected 8 bytes, got 3"),
        other => panic!("unexpected {:?}", other),
    }
    assert_eq!(
        DataError::InvalidFormat { expected: text("hex"), actual: text("text") }.to_string(),
        "Invalid data format: expected hex, got text"
    );
    assert_eq!(DataError::DataCorruption(text("crc")).to_string(), "Data corruption detected: crc");
    assert_eq!(
        DataError::BufferSizeExceeded { size: 9000, max_size: 8192 }.to_string(),
        "Buffer size exceeded: 9000 bytes (max: 8192)"
    );
    assert_eq!(DataError::InvalidEncoding(text("x")).to_string(), "Invalid encoding: x");
}

#[test]
fn failures_of_the_connection_layer_have_their_messages() {
    let cases: Vec<(Local, &str)> = vec![
        (Local::InvalidConfig(text("x")), "Invalid configuration: x"),
        (Local::WriteTimeout, "Write timeout"),
        (Local::EncodingError(text("e")), "Encoding error: e"),
        (Local::IoError(text("io")), "I/O error: io"),
        (Local::SerialPortError(text("sp")), "Serial port error: sp"),
        (Local::Utf8Error(text("u")), "UTF-8 conversion error: u"),
        (Local::InvalidBaudRate(0), "Invalid baud rate: 0"),
        (Local::InvalidBaudRate(u32::MAX), "Invalid baud rate: 4294967295"),
    ];
    for (error, message) in cases {
        assert_eq!(error.to_string(), message);
    }
}
