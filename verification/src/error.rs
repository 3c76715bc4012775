//! The failures the server reports, grouped by the part that raises them.

use crate::text::{decimal_text, hex_byte_text, labelled, push_decimal, push_hex_byte};
use vstd::prelude::*;
use vstd::string::*;

verus! {

/// Every failure the server reports.
#[derive(Debug)]
pub enum SerialError {
    /// The named port does not exist.
    PortNotFound(String),
    /// A connection could not be established.
    ConnectionFailed(String),
    /// No connection has this identifier.
    InvalidConnection(String),
    /// The port or the session is already connected.
    ConnectionExists(String),
    /// The connection limit, which the variant holds, is reached.
    ConnectionLimitExceeded(usize),
    /// An operation did not finish in time.
    OperationTimeout,
    /// A read did not finish in time.
    ReadTimeout,
    /// A write did not finish in time.
    WriteTimeout,
    /// The transport failed while data was moving.
    CommunicationError(String),
    /// The peer broke the protocol.
    ProtocolError(String),
    /// More data arrived than the buffer holds.
    BufferOverflow,
    /// Less data was there than was asked for.
    BufferUnderflow,
    /// A configuration value is not acceptable.
    InvalidConfig(String),
    /// The baud rate is not supported.
    InvalidBaudRate(u32),
    /// The number of data bits is not supported.
    InvalidDataBits(u8),
    /// The stop bits setting is not recognised.
    InvalidStopBits(String),
    /// The parity setting is not recognised.
    InvalidParity(String),
    /// The flow control setting is not recognised.
    InvalidFlowControl(String),
    /// The session cannot be used this way.
    InvalidSession(String),
    /// The session limit, which the variant holds, is reached.
    SessionLimitExceeded(usize),
    /// No session has this identifier.
    SessionNotFound(String),
    /// A session with this identifier exists already.
    SessionExists(String),
    /// Data could not be encoded or decoded.
    EncodingError(String),
    /// Bytes were not valid UTF-8; holds the decoder's message.
    Utf8Error(String),
    /// Text was not valid hexadecimal; holds the decoder's message.
    HexError(String),
    /// Text was not valid base64; holds the decoder's message.
    Base64Error(String),
    /// The operating system reported an I/O failure; holds its message.
    IoError(String),
    /// The serial driver reported a failure; holds its message.
    SerialPortError(String),
    /// The asynchronous serial driver reported a failure.
    TokioSerialError(String),
    /// A value could not be serialised; holds the serialiser's message.
    SerializationError(String),
    /// A configuration file could not be parsed; holds the parser's message.
    TomlError(String),
    /// Something unexpected happened inside the server.
    InternalError(String),
    /// The operation is not available.
    NotImplemented(String),
}

/// What a [`SerialError`] holds, each text as its sequence of characters.
pub enum SerialErrorView {
    PortNotFound(Seq<char>),
    ConnectionFailed(Seq<char>),
    InvalidConnection(Seq<char>),
    ConnectionExists(Seq<char>),
    ConnectionLimitExceeded(usize),
    OperationTimeout,
    ReadTimeout,
    WriteTimeout,
    CommunicationError(Seq<char>),
    ProtocolError(Seq<char>),
    BufferOverflow,
    BufferUnderflow,
    InvalidConfig(Seq<char>),
    InvalidBaudRate(u32),
    InvalidDataBits(u8),
    InvalidStopBits(Seq<char>),
    InvalidParity(Seq<char>),
    InvalidFlowControl(Seq<char>),
    InvalidSession(Seq<char>),
    SessionLimitExceeded(usize),
    SessionNotFound(Seq<char>),
    SessionExists(Seq<char>),
    EncodingError(Seq<char>),
    Utf8Error(Seq<char>),
    HexError(Seq<char>),
    Base64Error(Seq<char>),
    IoError(Seq<char>),
    SerialPortError(Seq<char>),
    TokioSerialError(Seq<char>),
    SerializationError(Seq<char>),
    TomlError(Seq<char>),
    InternalError(Seq<char>),
    NotImplemented(Seq<char>),
}

impl View for SerialError {
    type V = SerialErrorView;

    open spec fn view(&self) -> SerialErrorView {
        match self {
            SerialError::PortNotFound(detail) => SerialErrorView::PortNotFound(detail@),
            SerialError::ConnectionFailed(detail) => SerialErrorView::ConnectionFailed(detail@),
            SerialError::InvalidConnection(detail) => SerialErrorView::InvalidConnection(detail@),
            SerialError::ConnectionExists(detail) => SerialErrorView::ConnectionExists(detail@),
            SerialError::ConnectionLimitExceeded(value) => SerialErrorView::ConnectionLimitExceeded(*value),
            SerialError::OperationTimeout => SerialErrorView::OperationTimeout,
            SerialError::ReadTimeout => SerialErrorView::ReadTimeout,
            SerialError::WriteTimeout => SerialErrorView::WriteTimeout,
            SerialError::CommunicationError(detail) => SerialErrorView::CommunicationError(detail@),
            SerialError::ProtocolError(detail) => SerialErrorView::ProtocolError(detail@),
            SerialError::BufferOverflow => SerialErrorView::BufferOverflow,
            SerialError::BufferUnderflow => SerialErrorView::BufferUnderflow,
            SerialError::InvalidConfig(detail) => SerialErrorView::InvalidConfig(detail@),
            SerialError::InvalidBaudRate(value) => SerialErrorView::InvalidBaudRate(*value),
            SerialError::InvalidDataBits(value) => SerialErrorView::InvalidDataBits(*value),
            SerialError::InvalidStopBits(detail) => SerialErrorView::InvalidStopBits(detail@),
            SerialError::InvalidParity(detail) => SerialErrorView::InvalidParity(detail@),
            SerialError::InvalidFlowControl(detail) => SerialErrorView::InvalidFlowControl(detail@),
            SerialError::InvalidSession(detail) => SerialErrorView::InvalidSession(detail@),
            SerialError::SessionLimitExceeded(value) => SerialErrorView::SessionLimitExceeded(*value),
            SerialError::SessionNotFound(detail) => SerialErrorView::SessionNotFound(detail@),
            SerialError::SessionExists(detail) => SerialErrorView::SessionExists(detail@),
            SerialError::EncodingError(detail) => SerialErrorView::EncodingError(detail@),
            SerialError::Utf8Error(detail) => SerialErrorView::Utf8Error(detail@),
            SerialError::HexError(detail) => SerialErrorView::HexError(detail@),
            SerialError::Base64Error(detail) => SerialErrorView::Base64Error(detail@),
            SerialError::IoError(detail) => SerialErrorView::IoError(detail@),
            SerialError::SerialPortError(detail) => SerialErrorView::SerialPortError(detail@),
            SerialError::TokioSerialError(detail) => SerialErrorView::TokioSerialError(detail@),
            SerialError::SerializationError(detail) => SerialErrorView::SerializationError(detail@),
            SerialError::TomlError(detail) => SerialErrorView::TomlError(detail@),
            SerialError::InternalError(detail) => SerialErrorView::InternalError(detail@),
            SerialError::NotImplemented(detail) => SerialErrorView::NotImplemented(detail@),
        }
    }
}

impl SerialErrorView {
    /// The message shown for this error.
    pub open spec fn text(self) -> Seq<char> {
        match self {
            SerialErrorView::PortNotFound(detail) => "Port not found: "@ + detail,
            SerialErrorView::ConnectionFailed(detail) => "Connection failed: "@ + detail,
            SerialErrorView::InvalidConnection(detail) => "Invalid connection ID: "@ + detail,
            SerialErrorView::ConnectionExists(detail) => "Connection already exists: "@ + detail,
            SerialErrorView::ConnectionLimitExceeded(value) => {
                "Connection limit exceeded (max: "@ + decimal_text(value as nat) + ")"@
            },
            SerialErrorView::OperationTimeout => "Operation timeout"@,
            SerialErrorView::ReadTimeout => "Read timeout"@,
            SerialErrorView::WriteTimeout => "Write timeout"@,
            SerialErrorView::CommunicationError(detail) => "Communication error: "@ + detail,
            SerialErrorView::ProtocolError(detail) => "Protocol error: "@ + detail,
            SerialErrorView::BufferOverflow => "Buffer overflow"@,
            SerialErrorView::BufferUnderflow => "Buffer underflow"@,
            SerialErrorView::InvalidConfig(detail) => "Invalid configuration: "@ + detail,
            SerialErrorView::InvalidBaudRate(value) => "Invalid baud rate: "@ + decimal_text(value as nat),
            SerialErrorView::InvalidDataBits(value) => "Invalid data bits: "@ + decimal_text(value as nat),
            SerialErrorView::InvalidStopBits(detail) => "Invalid stop bits: "@ + detail,
            SerialErrorView::InvalidParity(detail) => "Invalid parity: "@ + detail,
            SerialErrorView::InvalidFlowControl(detail) => "Invalid flow control: "@ + detail,
            SerialErrorView::InvalidSession(detail) => "Invalid session ID: "@ + detail,
            SerialErrorView::SessionLimitExceeded(value) => {
                "Session limit exceeded (max: "@ + decimal_text(value as nat) + ")"@
            },
            SerialErrorView::SessionNotFound(detail) => "Session not found: "@ + detail,
            SerialErrorView::SessionExists(detail) => "Session already exists: "@ + detail,
            SerialErrorView::EncodingError(detail) => "Encoding error: "@ + detail,
            SerialErrorView::Utf8Error(detail) => "UTF-8 conversion error: "@ + detail,
            SerialErrorView::HexError(detail) => "Hex decoding error: "@ + detail,
            SerialErrorView::Base64Error(detail) => "Base64 decoding error: "@ + detail,
            SerialErrorView::IoError(detail) => "I/O error: "@ + detail,
            SerialErrorView::SerialPortError(detail) => "Serial port error: "@ + detail,
            SerialErrorView::TokioSerialError(detail) => "Tokio serial error: "@ + detail,
            SerialErrorView::SerializationError(detail) => "Serialization error: "@ + detail,
            SerialErrorView::TomlError(detail) => "TOML parsing error: "@ + detail,
            SerialErrorView::InternalError(detail) => "Internal error: "@ + detail,
            SerialErrorView::NotImplemented(detail) => "Not implemented: "@ + detail,
        }
    }
}

impl SerialError {
    /// The message shown for this error.
    pub fn to_string(&self) -> (r: String)
        ensures
            r@ == self@.text(),
    {
        match self {
            SerialError::PortNotFound(detail) => labelled("Port not found: ", detail.as_str()),
            SerialError::ConnectionFailed(detail) => labelled("Connection failed: ", detail.as_str()),
            SerialError::InvalidConnection(detail) => labelled("Invalid connection ID: ", detail.as_str()),
            SerialError::ConnectionExists(detail) => labelled("Connection already exists: ", detail.as_str()),
            SerialError::ConnectionLimitExceeded(value) => {
                let mut out = String::from_str("Connection limit exceeded (max: ");
                push_decimal(&mut out, *value as u64);
                out.append(")");
                out
            },
            SerialError::OperationTimeout => String::from_str("Operation timeout"),
            SerialError::ReadTimeout => String::from_str("Read timeout"),
            SerialError::WriteTimeout => String::from_str("Write timeout"),
            SerialError::CommunicationError(detail) => labelled("Communication error: ", detail.as_str()),
            SerialError::ProtocolError(detail) => labelled("Protocol error: ", detail.as_str()),
            SerialError::BufferOverflow => String::from_str("Buffer overflow"),
            SerialError::BufferUnderflow => String::from_str("Buffer underflow"),
            SerialError::InvalidConfig(detail) => labelled("Invalid configuration: ", detail.as_str()),
            SerialError::InvalidBaudRate(value) => {
                let mut out = String::from_str("Invalid baud rate: ");
                push_decimal(&mut out, *value as u64);
                out
            },
            SerialError::InvalidDataBits(value) => {
                let mut out = String::from_str("Invalid data bits: ");
                push_decimal(&mut out, *value as u64);
                out
            },
            SerialError::InvalidStopBits(detail) => labelled("Invalid stop bits: ", detail.as_str()),
            SerialError::InvalidParity(detail) => labelled("Invalid parity: ", detail.as_str()),
            SerialError::InvalidFlowControl(detail) => labelled("Invalid flow control: ", detail.as_str()),
            SerialError::InvalidSession(detail) => labelled("Invalid session ID: ", detail.as_str()),
            SerialError::SessionLimitExceeded(value) => {
                let mut out = String::from_str("Session limit exceeded (max: ");
                push_decimal(&mut out, *value as u64);
                out.append(")");
                out
            },
            SerialError::SessionNotFound(detail) => labelled("Session not found: ", detail.as_str()),
            SerialError::SessionExists(detail) => labelled("Session already exists: ", detail.as_str()),
            SerialError::EncodingError(detail) => labelled("Encoding error: ", detail.as_str()),
            SerialError::Utf8Error(detail) => labelled("UTF-8 conversion error: ", detail.as_str()),
            SerialError::HexError(detail) => labelled("Hex decoding error: ", detail.as_str()),
            SerialError::Base64Error(detail) => labelled("Base64 decoding error: ", detail.as_str()),
            SerialError::IoError(detail) => labelled("I/O error: ", detail.as_str()),
            SerialError::SerialPortError(detail) => labelled("Serial port error: ", detail.as_str()),
            SerialError::TokioSerialError(detail) => labelled("Tokio serial error: ", detail.as_str()),
            SerialError::SerializationError(detail) => labelled("Serialization error: ", detail.as_str()),
            SerialError::TomlError(detail) => labelled("TOML parsing error: ", detail.as_str()),
            SerialError::InternalError(detail) => labelled("Internal error: ", detail.as_str()),
            SerialError::NotImplemented(detail) => labelled("Not implemented: ", detail.as_str()),
        }
    }
}

/// Failures of a single connection.
#[derive(Debug)]
pub enum ConnectionError {
    /// The port could not be opened.
    OpenFailed { port: String, reason: String },
    /// The port could not be configured.
    ConfigureFailed { port: String, reason: String },
    /// The connection went away.
    ConnectionLost(String),
    /// The connection is in use.
    ConnectionBusy,
    /// There is no connection.
    NotConnected,
    /// The connection is in the wrong state.
    InvalidState { expected: String, actual: String },
}

/// What a [`ConnectionError`] holds, each text as its sequence of characters.
pub enum ConnectionErrorView {
    OpenFailed { port: Seq<char>, reason: Seq<char> },
    ConfigureFailed { port: Seq<char>, reason: Seq<char> },
    ConnectionLost(Seq<char>),
    ConnectionBusy,
    NotConnected,
    InvalidState { expected: Seq<char>, actual: Seq<char> },
}

impl View for ConnectionError {
    type V = ConnectionErrorView;

    open spec fn view(&self) -> ConnectionErrorView {
        match self {
            ConnectionError::OpenFailed { port, reason } => {
                ConnectionErrorView::OpenFailed { port: port@, reason: reason@ }
            },
            ConnectionError::ConfigureFailed { port, reason } => {
                ConnectionErrorView::ConfigureFailed { port: port@, reason: reason@ }
            },
            ConnectionError::ConnectionLost(detail) => ConnectionErrorView::ConnectionLost(detail@),
            ConnectionError::ConnectionBusy => ConnectionErrorView::ConnectionBusy,
            ConnectionError::NotConnected => ConnectionErrorView::NotConnected,
            ConnectionError::InvalidState { expected, actual } => {
                ConnectionErrorView::InvalidState { expected: expected@, actual: actual@ }
            },
        }
    }
}

impl ConnectionErrorView {
    /// The message shown for this error.
    pub open spec fn text(self) -> Seq<char> {
        match self {
            ConnectionErrorView::OpenFailed { port, reason } => {
                "Failed to open port "@ + port + ": "@ + reason
            },
            ConnectionErrorView::ConfigureFailed { port, reason } => {
                "Failed to configure port "@ + port + ": "@ + reason
            },
            ConnectionErrorView::ConnectionLost(detail) => "Connection lost: "@ + detail,
            ConnectionErrorView::ConnectionBusy => "Connection busy"@,
            ConnectionErrorView::NotConnected => "Connection not established"@,
            ConnectionErrorView::InvalidState { expected, actual } => {
                "Invalid connection state: expected "@ + expected + ", got "@ + actual
            },
        }
    }
}

impl ConnectionError {
    /// The message shown for this error.
    pub fn to_string(&self) -> (r: String)
        ensures
            r@ == self@.text(),
    {
        match self {
            ConnectionError::OpenFailed { port, reason } => {
                let mut out = String::from_str("Failed to open port ");
                out.append(port.as_str());
                out.append(": ");
                out.append(reason.as_str());
                out
            },
            ConnectionError::ConfigureFailed { port, reason } => {
                let mut out = String::from_str("Failed to configure port ");
                out.append(port.as_str());
                out.append(": ");
                out.append(reason.as_str());
                out
            },
            ConnectionError::ConnectionLost(detail) => labelled("Connection lost: ", detail.as_str()),
            ConnectionError::ConnectionBusy => String::from_str("Connection busy"),
            ConnectionError::NotConnected => String::from_str("Connection not established"),
            ConnectionError::InvalidState { expected, actual } => {
                let mut out = String::from_str("Invalid connection state: expected ");
                out.append(expected.as_str());
                out.append(", got ");
                out.append(actual.as_str());
                out
            },
        }
    }
}

/// Failures of a framing protocol.
#[derive(Debug)]
pub enum ProtocolError {
    /// The protocol is not known.
    UnknownProtocol(String),
    /// The peer broke the protocol.
    ProtocolViolation(String),
    /// A frame's checksum is wrong.
    ChecksumMismatch { expected: u8, actual: u8 },
    /// A frame is malformed.
    InvalidFrameFormat(String),
    /// A frame is longer than allowed.
    FrameTooLarge { size: usize, max_size: usize },
    /// A frame is shorter than allowed.
    FrameTooSmall { size: usize, min_size: usize },
    /// The protocol does not offer the operation.
    UnsupportedOperation(String),
}

/// What a [`ProtocolError`] holds, each text as its sequence of characters.
pub enum ProtocolErrorView {
    UnknownProtocol(Seq<char>),
    ProtocolViolation(Seq<char>),
    ChecksumMismatch { expected: u8, actual: u8 },
    InvalidFrameFormat(Seq<char>),
    FrameTooLarge { size: usize, max_size: usize },
    FrameTooSmall { size: usize, min_size: usize },
    UnsupportedOperation(Seq<char>),
}

impl View for ProtocolError {
    type V = ProtocolErrorView;

    open spec fn view(&self) -> ProtocolErrorView {
        match self {
            ProtocolError::UnknownProtocol(detail) => ProtocolErrorView::UnknownProtocol(detail@),
            ProtocolError::ProtocolViolation(detail) => ProtocolErrorView::ProtocolViolation(detail@),
            ProtocolError::ChecksumMismatch { expected, actual } => {
                ProtocolErrorView::ChecksumMismatch { expected: *expected, actual: *actual }
            },
            ProtocolError::InvalidFrameFormat(detail) => ProtocolErrorView::InvalidFrameFormat(detail@),
            ProtocolError::FrameTooLarge { size, max_size } => {
                ProtocolErrorView::FrameTooLarge { size: *size, max_size: *max_size }
            },
            ProtocolError::FrameTooSmall { size, min_size } => {
                ProtocolErrorView::FrameTooSmall { size: *size, min_size: *min_size }
            },
            ProtocolError::UnsupportedOperation(detail) => ProtocolErrorView::UnsupportedOperation(detail@),
        }
    }
}

impl ProtocolErrorView {
    /// The message shown for this error.
    pub open spec fn text(self) -> Seq<char> {
        match self {
            ProtocolErrorView::UnknownProtocol(detail) => "Unknown protocol: "@ + detail,
            ProtocolErrorView::ProtocolViolation(detail) => "Protocol violation: "@ + detail,
            ProtocolErrorView::ChecksumMismatch { expected, actual } => {
                "Checksum mismatch: expected "@ + hex_byte_text(expected) + ", got "@ + hex_byte_text(actual)
            },
            ProtocolErrorView::InvalidFrameFormat(detail) => "Invalid frame format: "@ + detail,
            ProtocolErrorView::FrameTooLarge { size, max_size } => {
                "Frame too large: "@ + decimal_text(size as nat) + " bytes (max: "@
                    + decimal_text(max_size as nat) + ")"@
            },
            ProtocolErrorView::FrameTooSmall { size, min_size } => {
                "Frame too small: "@ + decimal_text(size as nat) + " bytes (min: "@
                    + decimal_text(min_size as nat) + ")"@
            },
            ProtocolErrorView::UnsupportedOperation(detail) => "Unsupported operation: "@ + detail,
        }
    }
}

impl ProtocolError {
    /// The message shown for this error.
    pub fn to_string(&self) -> (r: String)
        ensures
            r@ == self@.text(),
    {
        match self {
            ProtocolError::UnknownProtocol(detail) => labelled("Unknown protocol: ", detail.as_str()),
            ProtocolError::ProtocolViolation(detail) => labelled("Protocol violation: ", detail.as_str()),
            ProtocolError::ChecksumMismatch { expected, actual } => {
                let mut out = String::from_str("Checksum mismatch: expected ");
                push_hex_byte(&mut out, *expected);
                out.append(", got ");
                push_hex_byte(&mut out, *actual);
                out
            },
            ProtocolError::InvalidFrameFormat(detail) => labelled("Invalid frame format: ", detail.as_str()),
            ProtocolError::FrameTooLarge { size, max_size } => {
                let mut out = String::from_str("Frame too large: ");
                push_decimal(&mut out, *size as u64);
                out.append(" bytes (max: ");
                push_decimal(&mut out, *max_size as u64);
                out.append(")");
                out
            },
            ProtocolError::FrameTooSmall { size, min_size } => {
                let mut out = String::from_str("Frame too small: ");
                push_decimal(&mut out, *size as u64);
                out.append(" bytes (min: ");
                push_decimal(&mut out, *min_size as u64);
                out.append(")");
                out
            },
            ProtocolError::UnsupportedOperation(detail) => {
                labelled("Unsupported operation: ", detail.as_str())
            },
        }
    }
}

/// Failures of session management.
#[derive(Debug)]
pub enum SessionError {
    /// The session could not be set up.
    CreationFailed(String),
    /// The session is not active.
    NotActive(String),
    /// The session timed out.
    Timeout(String),
    /// The session conflicts with another.
    Conflict(String),
    /// The session could not be cleaned up.
    CleanupFailed(String),
}

/// What a [`SessionError`] holds, each text as its sequence of characters.
pub enum SessionErrorView {
    CreationFailed(Seq<char>),
    NotActive(Seq<char>),
    Timeout(Seq<char>),
    Conflict(Seq<char>),
    CleanupFailed(Seq<char>),
}

impl View for SessionError {
    type V = SessionErrorView;

    open spec fn view(&self) -> SessionErrorView {
        match self {
            SessionError::CreationFailed(detail) => SessionErrorView::CreationFailed(detail@),
            SessionError::NotActive(detail) => SessionErrorView::NotActive(detail@),
            SessionError::Timeout(detail) => SessionErrorView::Timeout(detail@),
            SessionError::Conflict(detail) => SessionErrorView::Conflict(detail@),
            SessionError::CleanupFailed(detail) => SessionErrorView::CleanupFailed(detail@),
        }
    }
}

impl SessionErrorView {
    /// The message shown for this error.
    pub open spec fn text(self) -> Seq<char> {
        match self {
            SessionErrorView::CreationFailed(detail) => "Session creation failed: "@ + detail,
            SessionErrorView::NotActive(detail) => "Session not active: "@ + detail,
            SessionErrorView::Timeout(detail) => "Session timeout: "@ + detail,
            SessionErrorView::Conflict(detail) => "Session conflict: "@ + detail,
            SessionErrorView::CleanupFailed(detail) => "Session cleanup failed: "@ + detail,
        }
    }
}

impl SessionError {
    /// The message shown for this error.
    pub fn to_string(&self) -> (r: String)
        ensures
            r@ == self@.text(),
    {
        match self {
            SessionError::CreationFailed(detail) => labelled("Session creation failed: ", detail.as_str()),
            SessionError::NotActive(detail) => labelled("Session not active: ", detail.as_str()),
            SessionError::Timeout(detail) => labelled("Session timeout: ", detail.as_str()),
            SessionError::Conflict(detail) => labelled("Session conflict: ", detail.as_str()),
            SessionError::CleanupFailed(detail) => labelled("Session cleanup failed: ", detail.as_str()),
        }
    }
}

/// Failures of configuration validation.
#[derive(Debug)]
pub enum ConfigError {
    /// A required field is absent.
    MissingField(String),
    /// A field holds a value that is not acceptable.
    InvalidValue { field: String, value: String },
    /// A field holds a value outside its range.
    ValueOutOfRange { field: String, value: String, min: String, max: String },
    /// Two settings contradict each other.
    ConflictingSettings(String),
    /// The configuration file does not exist.
    FileNotFound(String),
    /// The configuration file cannot be read.
    FileNotReadable(String),
}

/// What a [`ConfigError`] holds, each text as its sequence of characters.
pub enum ConfigErrorView {
    MissingField(Seq<char>),
    InvalidValue { field: Seq<char>, value: Seq<char> },
    ValueOutOfRange { field: Seq<char>, value: Seq<char>, min: Seq<char>, max: Seq<char> },
    ConflictingSettings(Seq<char>),
    FileNotFound(Seq<char>),
    FileNotReadable(Seq<char>),
}

impl View for ConfigError {
    type V = ConfigErrorView;

    open spec fn view(&self) -> ConfigErrorView {
        match self {
            ConfigError::MissingField(detail) => ConfigErrorView::MissingField(detail@),
            ConfigError::InvalidValue { field, value } => {
                ConfigErrorView::InvalidValue { field: field@, value: value@ }
            },
            ConfigError::ValueOutOfRange { field, value, min, max } => {
                ConfigErrorView::ValueOutOfRange { field: field@, value: value@, min: min@, max: max@ }
            },
            ConfigError::ConflictingSettings(detail) => ConfigErrorView::ConflictingSettings(detail@),
            ConfigError::FileNotFound(detail) => ConfigErrorView::FileNotFound(detail@),
            ConfigError::FileNotReadable(detail) => ConfigErrorView::FileNotReadable(detail@),
        }
    }
}

impl ConfigErrorView {
    /// The message shown for this error.
    pub open spec fn text(self) -> Seq<char> {
        match self {
            ConfigErrorView::MissingField(detail) => "Missing required field: "@ + detail,
            ConfigErrorView::InvalidValue { field, value } => "Invalid value for "@ + field + ": "@ + value,
            ConfigErrorView::ValueOutOfRange { field, value, min, max } => {
                "Value out of range for "@ + field + ": "@ + value + " (range: "@ + min + "-"@ + max + ")"@
            },
            ConfigErrorView::ConflictingSettings(detail) => "Conflicting settings: "@ + detail,
            ConfigErrorView::FileNotFound(detail) => "Configuration file not found: "@ + detail,
            ConfigErrorView::FileNotReadable(detail) => "Configuration file not readable: "@ + detail,
        }
    }
}

impl ConfigError {
    /// The message shown for this error.
    pub fn to_string(&self) -> (r: String)
        ensures
            r@ == self@.text(),
    {
        match self {
            ConfigError::MissingField(detail) => labelled("Missing required field: ", detail.as_str()),
            ConfigError::InvalidValue { field, value } => {
                let mut out = String::from_str("Invalid value for ");
                out.append(field.as_str());
                out.append(": ");
                out.append(value.as_str());
                out
            },
            ConfigError::ValueOutOfRange { field, value, min, max } => {
                let mut out = String::from_str("Value out of range for ");
                out.append(field.as_str());
                out.append(": ");
                out.append(value.as_str());
                out.append(" (range: ");
                out.append(min.as_str());
                out.append("-");
                out.append(max.as_str());
                out.append(")");
                out
            },
            ConfigError::ConflictingSettings(detail) => labelled("Conflicting settings: ", detail.as_str()),
            ConfigError::FileNotFound(detail) => labelled("Configuration file not found: ", detail.as_str()),
            ConfigError::FileNotReadable(detail) => {
                labelled("Configuration file not readable: ", detail.as_str())
            },
        }
    }
}

/// Failures of data processing.
#[allow(inconsistent_fields)]
#[derive(Debug)]
pub enum DataError {
    /// Data is not in the expected format.
    InvalidFormat { expected: String, actual: String },
    /// Data is damaged.
    DataCorruption(String),
    /// Data does not fit the buffer.
    BufferSizeExceeded { size: usize, max_size: usize },
    /// Fewer bytes arrived than expected.
    IncompleteData { expected: usize, actual: usize },
    /// The encoding is not valid.
    InvalidEncoding(String),
}

/// What a [`DataError`] holds, each text as its sequence of characters.
#[allow(inconsistent_fields)]
pub enum DataErrorView {
    InvalidFormat { expected: Seq<char>, actual: Seq<char> },
    DataCorruption(Seq<char>),
    BufferSizeExceeded { size: usize, max_size: usize },
    IncompleteData { expected: usize, actual: usize },
    InvalidEncoding(Seq<char>),
}

impl View for DataError {
    type V = DataErrorView;

    open spec fn view(&self) -> DataErrorView {
        match self {
            DataError::InvalidFormat { expected, actual } => {
                DataErrorView::InvalidFormat { expected: expected@, actual: actual@ }
            },
            DataError::DataCorruption(detail) => DataErrorView::DataCorruption(detail@),
            DataError::BufferSizeExceeded { size, max_size } => {
                DataErrorView::BufferSizeExceeded { size: *size, max_size: *max_size }
            },
            DataError::IncompleteData { expected, actual } => {
                DataErrorView::IncompleteData { expected: *expected, actual: *actual }
            },
            DataError::InvalidEncoding(detail) => DataErrorView::InvalidEncoding(detail@),
        }
    }
}

impl DataErrorView {
    /// The message shown for this error.
    pub open spec fn text(self) -> Seq<char> {
        match self {
            DataErrorView::InvalidFormat { expected, actual } => {
                "Invalid data format: expected "@ + expected + ", got "@ + actual
            },
            DataErrorView::DataCorruption(detail) => "Data corruption detected: "@ + detail,
            DataErrorView::BufferSizeExceeded { size, max_size } => {
                "Buffer size exceeded: "@ + decimal_text(size as nat) + " bytes (max: "@
                    + decimal_text(max_size as nat) + ")"@
            },
            DataErrorView::IncompleteData { expected, actual } => {
                "Incomplete data: expected "@ + decimal_text(expected as nat) + " bytes, got "@
                    + decimal_text(actual as nat)
            },
            DataErrorView::InvalidEncoding(detail) => "Invalid encoding: "@ + detail,
        }
    }
}

impl DataError {
    /// The message shown for this error.
    pub fn to_string(&self) -> (r: String)
        ensures
            r@ == self@.text(),
    {
        match self {
            DataError::InvalidFormat { expected, actual } => {
                let mut out = String::from_str("Invalid data format: expected ");
                out.append(expected.as_str());
                out.append(", got ");
                out.append(actual.as_str());
                out
            },
            DataError::DataCorruption(detail) => labelled("Data corruption detected: ", detail.as_str()),
            DataError::BufferSizeExceeded { size, max_size } => {
                let mut out = String::from_str("Buffer size exceeded: ");
                push_decimal(&mut out, *size as u64);
                out.append(" bytes (max: ");
                push_decimal(&mut out, *max_size as u64);
                out.append(")");
                out
            },
            DataError::IncompleteData { expected, actual } => {
                let mut out = String::from_str("Incomplete data: expected ");
                push_decimal(&mut out, *expected as u64);
                out.append(" bytes, got ");
                push_decimal(&mut out, *actual as u64);
                out
            },
            DataError::InvalidEncoding(detail) => labelled("Invalid encoding: ", detail.as_str()),
        }
    }
}

/// The outcome of an operation that can fail with a [`SerialError`].
pub type Result<T> = core::result::Result<T, SerialError>;

impl SerialErrorView {
    /// A retry of the same operation may succeed.
    pub open spec fn is_recoverable(self) -> bool {
        ||| self is OperationTimeout
        ||| self is ReadTimeout
        ||| self is WriteTimeout
        ||| self is CommunicationError
        ||| self is BufferOverflow
        ||| self is BufferUnderflow
        ||| self is TokioSerialError
    }

    /// The error reports a configuration value that is not acceptable.
    pub open spec fn is_configuration_error(self) -> bool {
        ||| self is InvalidConfig
        ||| self is InvalidBaudRate
        ||| self is InvalidDataBits
        ||| self is InvalidStopBits
        ||| self is InvalidParity
        ||| self is InvalidFlowControl
    }

    /// The error comes from opening, finding or counting connections.
    pub open spec fn is_connection_error(self) -> bool {
        ||| self is PortNotFound
        ||| self is ConnectionFailed
        ||| self is InvalidConnection
        ||| self is ConnectionExists
        ||| self is ConnectionLimitExceeded
    }

    /// The error reports a timeout, a transport failure or a buffer fault.
    pub open spec fn is_communication_error(self) -> bool {
        ||| self is OperationTimeout
        ||| self is ReadTimeout
        ||| self is WriteTimeout
        ||| self is CommunicationError
        ||| self is ProtocolError
        ||| self is BufferOverflow
        ||| self is BufferUnderflow
    }

    /// The error comes from the session registry.
    pub open spec fn is_session_error(self) -> bool {
        ||| self is InvalidSession
        ||| self is SessionLimitExceeded
        ||| self is SessionNotFound
        ||| self is SessionExists
    }

    /// The error comes from encoding or decoding data.
    pub open spec fn is_encoding_error(self) -> bool {
        ||| self is EncodingError
        ||| self is Utf8Error
        ||| self is HexError
        ||| self is Base64Error
    }

    /// The error comes from the operating system or a serial driver.
    pub open spec fn is_system_error(self) -> bool {
        ||| self is IoError
        ||| self is SerialPortError
        ||| self is TokioSerialError
    }

    /// The stable tag of the error's category, one of seven: `connection`,
    /// `communication`, `configuration`, `session`, `encoding`, `system` and,
    /// for everything else, `internal`.
    pub open spec fn category(self) -> Seq<char> {
        if self.is_connection_error() {
            "connection"@
        } else if self.is_communication_error() {
            "communication"@
        } else if self.is_configuration_error() {
            "configuration"@
        } else if self.is_session_error() {
            "session"@
        } else if self.is_encoding_error() {
            "encoding"@
        } else if self.is_system_error() {
            "system"@
        } else {
            "internal"@
        }
    }
}

/// Every failure carries one of the seven category tags, and which one
/// depends on the kind of the failure alone, not on what it holds.
pub proof fn law_seven_categories(error: SerialErrorView)
    ensures
        ({
            let tag = error.category();
            ||| tag == "connection"@
            ||| tag == "communication"@
            ||| tag == "configuration"@
            ||| tag == "session"@
            ||| tag == "encoding"@
            ||| tag == "system"@
            ||| tag == "internal"@
        }),
        error is SessionNotFound || error is SessionLimitExceeded ==> error.category() == "session"@,
        error is InvalidBaudRate ==> error.category() == "configuration"@,
        error is ReadTimeout ==> error.category() == "communication"@,
        error is ConnectionExists ==> error.category() == "connection"@,
        error is SerializationError || error is TomlError ==> error.category() == "internal"@,
{
}

impl SerialError {
    /// Whether a retry of the same operation may succeed.
    pub fn is_recoverable(&self) -> (r: bool)
        ensures
            r == self@.is_recoverable(),
    {
        match self {
            SerialError::OperationTimeout
            | SerialError::ReadTimeout
            | SerialError::WriteTimeout
            | SerialError::CommunicationError(_)
            | SerialError::BufferOverflow
            | SerialError::BufferUnderflow
            | SerialError::TokioSerialError(_) => true,
            _ => false,
        }
    }

    /// Whether the error reports a configuration value that is not acceptable.
    pub fn is_configuration_error(&self) -> (r: bool)
        ensures
            r == self@.is_configuration_error(),
    {
        match self {
            SerialError::InvalidConfig(_)
            | SerialError::InvalidBaudRate(_)
            | SerialError::InvalidDataBits(_)
            | SerialError::InvalidStopBits(_)
            | SerialError::InvalidParity(_)
            | SerialError::InvalidFlowControl(_) => true,
            _ => false,
        }
    }

    /// Whether the error comes from opening, finding or counting connections.
    pub fn is_connection_error(&self) -> (r: bool)
        ensures
            r == self@.is_connection_error(),
    {
        match self {
            SerialError::PortNotFound(_)
            | SerialError::ConnectionFailed(_)
            | SerialError::InvalidConnection(_)
            | SerialError::ConnectionExists(_)
            | SerialError::ConnectionLimitExceeded(_) => true,
            _ => false,
        }
    }

    /// The stable tag of the error's category, for logs and metrics.
    pub fn category(&self) -> (r: &'static str)
        ensures
            r@ == self@.category(),
    {
        match self {
            SerialError::PortNotFound(_)
            | SerialError::ConnectionFailed(_)
            | SerialError::InvalidConnection(_)
            | SerialError::ConnectionExists(_)
            | SerialError::ConnectionLimitExceeded(_) => "connection",
            SerialError::OperationTimeout
            | SerialError::ReadTimeout
            | SerialError::WriteTimeout
            | SerialError::CommunicationError(_)
            | SerialError::ProtocolError(_)
            | SerialError::BufferOverflow
            | SerialError::BufferUnderflow => "communication",
            SerialError::InvalidConfig(_)
            | SerialError::InvalidBaudRate(_)
            | SerialError::InvalidDataBits(_)
            | SerialError::InvalidStopBits(_)
            | SerialError::InvalidParity(_)
            | SerialError::InvalidFlowControl(_) => "configuration",
            SerialError::InvalidSession(_)
            | SerialError::SessionLimitExceeded(_)
            | SerialError::SessionNotFound(_)
            | SerialError::SessionExists(_) => "session",
            SerialError::EncodingError(_)
            | SerialError::Utf8Error(_)
            | SerialError::HexError(_)
            | SerialError::Base64Error(_) => "encoding",
            SerialError::IoError(_)
            | SerialError::SerialPortError(_)
            | SerialError::TokioSerialError(_) => "system",
            SerialError::SerializationError(_)
            | SerialError::TomlError(_)
            | SerialError::InternalError(_)
            | SerialError::NotImplemented(_) => "internal",
        }
    }
}

impl From<ConnectionError> for SerialError {
    /// A connection failure becomes [`SerialError::ConnectionFailed`] with its message.
    fn from(error: ConnectionError) -> (r: SerialError)
        ensures
            r@ == SerialErrorView::ConnectionFailed(error@.text()),
    {
        SerialError::ConnectionFailed(error.to_string())
    }
}

impl vstd::std_specs::convert::FromSpecImpl<ConnectionError> for SerialError {
    open spec fn obeys_from_spec() -> bool {
        false
    }

    open spec fn from_spec(error: ConnectionError) -> SerialError {
        arbitrary()
    }
}

impl From<ProtocolError> for SerialError {
    /// A protocol failure becomes [`SerialError::ProtocolError`] with its message.
    fn from(error: ProtocolError) -> (r: SerialError)
        ensures
            r@ == SerialErrorView::ProtocolError(error@.text()),
    {
        SerialError::ProtocolError(error.to_string())
    }
}

impl vstd::std_specs::convert::FromSpecImpl<ProtocolError> for SerialError {
    open spec fn obeys_from_spec() -> bool {
        false
    }

    open spec fn from_spec(error: ProtocolError) -> SerialError {
        arbitrary()
    }
}

impl From<SessionError> for SerialError {
    /// A session failure becomes [`SerialError::InternalError`] with its message.
    fn from(error: SessionError) -> (r: SerialError)
        ensures
            r@ == SerialErrorView::InternalError(error@.text()),
    {
        SerialError::InternalError(error.to_string())
    }
}

impl vstd::std_specs::convert::FromSpecImpl<SessionError> for SerialError {
    open spec fn obeys_from_spec() -> bool {
        false
    }

    open spec fn from_spec(error: SessionError) -> SerialError {
        arbitrary()
    }
}

impl From<ConfigError> for SerialError {
    /// A configuration failure becomes [`SerialError::InvalidConfig`] with its message.
    fn from(error: ConfigError) -> (r: SerialError)
        ensures
            r@ == SerialErrorView::InvalidConfig(error@.text()),
    {
        SerialError::InvalidConfig(error.to_string())
    }
}

impl vstd::std_specs::convert::FromSpecImpl<ConfigError> for SerialError {
    open spec fn obeys_from_spec() -> bool {
        false
    }

    open spec fn from_spec(error: ConfigError) -> SerialError {
        arbitrary()
    }
}

impl From<DataError> for SerialError {
    /// A data failure becomes [`SerialError::EncodingError`] with its message.
    fn from(error: DataError) -> (r: SerialError)
        ensures
            r@ == SerialErrorView::EncodingError(error@.text()),
    {
        SerialError::EncodingError(error.to_string())
    }
}

impl vstd::std_specs::convert::FromSpecImpl<DataError> for SerialError {
    open spec fn obeys_from_spec() -> bool {
        false
    }

    open spec fn from_spec(error: DataError) -> SerialError {
        arbitrary()
    }
}

} // verus!
