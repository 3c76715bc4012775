//! The failures of the connection layer.

use crate::text::{decimal_text, labelled, push_decimal};
use vstd::prelude::*;
use vstd::string::*;

verus! {

/// A failure of a connection or of the connection registry.
#[derive(Debug)]
pub enum SerialError {
    /// The named port does not exist.
    PortNotFound(String),
    /// The port could not be opened.
    ConnectionFailed(String),
    /// No connection has this identifier.
    InvalidConnection(String),
    /// The port is already connected.
    ConnectionExists(String),
    /// The baud rate is outside what the driver takes.
    InvalidBaudRate(u32),
    /// A setting is not acceptable.
    InvalidConfig(String),
    /// A read did not finish in time.
    ReadTimeout,
    /// A write did not finish in time.
    WriteTimeout,
    /// Data could not be encoded or decoded.
    EncodingError(String),
    /// The operating system reported an I/O failure; holds its message.
    IoError(String),
    /// The serial driver reported a failure; holds its message.
    SerialPortError(String),
    /// Bytes were not valid UTF-8; holds the decoder's message.
    Utf8Error(String),
}

/// What a [`SerialError`] holds, each text as its sequence of characters.
pub enum SerialErrorView {
    PortNotFound(Seq<char>),
    ConnectionFailed(Seq<char>),
    InvalidConnection(Seq<char>),
    ConnectionExists(Seq<char>),
    InvalidBaudRate(u32),
    InvalidConfig(Seq<char>),
    ReadTimeout,
    WriteTimeout,
    EncodingError(Seq<char>),
    IoError(Seq<char>),
    SerialPortError(Seq<char>),
    Utf8Error(Seq<char>),
}

impl View for SerialError {
    type V = SerialErrorView;

    open spec fn view(&self) -> SerialErrorView {
        match self {
            SerialError::PortNotFound(detail) => SerialErrorView::PortNotFound(detail@),
            SerialError::ConnectionFailed(detail) => SerialErrorView::ConnectionFailed(detail@),
            SerialError::InvalidConnection(detail) => SerialErrorView::InvalidConnection(detail@),
            SerialError::ConnectionExists(detail) => SerialErrorView::ConnectionExists(detail@),
            SerialError::InvalidBaudRate(value) => SerialErrorView::InvalidBaudRate(*value),
            SerialError::InvalidConfig(detail) => SerialErrorView::InvalidConfig(detail@),
            SerialError::ReadTimeout => SerialErrorView::ReadTimeout,
            SerialError::WriteTimeout => SerialErrorView::WriteTimeout,
            SerialError::EncodingError(detail) => SerialErrorView::EncodingError(detail@),
            SerialError::IoError(detail) => SerialErrorView::IoError(detail@),
            SerialError::SerialPortError(detail) => SerialErrorView::SerialPortError(detail@),
            SerialError::Utf8Error(detail) => SerialErrorView::Utf8Error(detail@),
        }
    }
}

impl SerialErrorView {
    /// The message shown for this error.
    pub open spec fn text(self) -> Seq<char> {
        match self {
            SerialErrorView::PortNotFound(detail) => "Port not found: "@ + detail,
            SerialErrorView::ConnectionFailed(detail) => "Connection failed: "@ + detail,
            SerialErrorView::InvalidConnection(detail) => "Invalid connection ID: "@ + detail,
            SerialErrorView::ConnectionExists(detail) => "Connection already exists: "@ + detail,
            SerialErrorView::InvalidBaudRate(value) => "Invalid baud rate: "@ + decimal_text(value as nat),
            SerialErrorView::InvalidConfig(detail) => "Invalid configuration: "@ + detail,
            SerialErrorView::ReadTimeout => "Read timeout"@,
            SerialErrorView::WriteTimeout => "Write timeout"@,
            SerialErrorView::EncodingError(detail) => "Encoding error: "@ + detail,
            SerialErrorView::IoError(detail) => "I/O error: "@ + detail,
            SerialErrorView::SerialPortError(detail) => "Serial port error: "@ + detail,
            SerialErrorView::Utf8Error(detail) => "UTF-8 conversion error: "@ + detail,
        }
    }
}

impl SerialError {
    /// The message shown for this error.
    pub fn to_string(&self) -> (r: String)
        ensures
            r@ == self@.text(),
    {
        match self {
            SerialError::PortNotFound(detail) => labelled("Port not found: ", detail.as_str()),
            SerialError::ConnectionFailed(detail) => labelled("Connection failed: ", detail.as_str()),
            SerialError::InvalidConnection(detail) => labelled("Invalid connection ID: ", detail.as_str()),
            SerialError::ConnectionExists(detail) => labelled("Connection already exists: ", detail.as_str()),
            SerialError::InvalidBaudRate(value) => {
                let mut out = String::from_str("Invalid baud rate: ");
                push_decimal(&mut out, *value as u64);
                out
            },
            SerialError::InvalidConfig(detail) => labelled("Invalid configuration: ", detail.as_str()),
            SerialError::ReadTimeout => String::from_str("Read timeout"),
            SerialError::WriteTimeout => String::from_str("Write timeout"),
            SerialError::EncodingError(detail) => labelled("Encoding error: ", detail.as_str()),
            SerialError::IoError(detail) => labelled("I/O error: ", detail.as_str()),
            SerialError::SerialPortError(detail) => labelled("Serial port error: ", detail.as_str()),
            SerialError::Utf8Error(detail) => labelled("UTF-8 conversion error: ", detail.as_str()),
        }
    }
}

} // verus!
