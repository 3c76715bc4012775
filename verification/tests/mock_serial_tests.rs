//! A serial port that exists in memory only, and the tools driven against it
//! the way a caller drives them against a real port.

use std::collections::VecDeque;
use std::io::{self, Read, Write};
use std::sync::{Arc, Mutex};

use serial_mcp_server::config::Config;
use serial_mcp_server::serial::connection::Transfer;
use serial_mcp_server::session::session::{SessionConfig, SessionState};
use serial_mcp_server::session::SessionManager;
use serial_mcp_server::tools::serial_handler::{Received, SerialHandler};
use serial_mcp_server::tools::types::{CloseArgs, OpenArgs, ReadArgs, WriteArgs};

/// A mock serial port that can be used for testing
#[derive(Clone)]
pub struct MockSerialPort {
    /// Data to be read from the port
    read_buffer: Arc<Mutex<VecDeque<u8>>>,
    /// Data written to the port
    write_buffer: Arc<Mutex<Vec<u8>>>,
    /// Whether the port is open
    is_open: Arc<Mutex<bool>>,
    /// Port name
    #[allow(dead_code)]
    name: String,
}

impl MockSerialPort {
    pub fn new(name: &str) -> Self {
        Self {
            read_buffer: Arc::new(Mutex::new(VecDeque::new())),
            write_buffer: Arc::new(Mutex::new(Vec::new())),
            is_open: Arc::new(Mutex::new(false)),
            name: name.to_string(),
        }
    }

    /// Add data to be read from the mock port
    pub fn add_read_data(&self, data: &[u8]) {
        let mut buffer = self.read_buffer.lock().unwrap();
        buffer.extend(data);
    }

    /// Get all data that was written to the mock port
    pub fn get_written_data(&self) -> Vec<u8> {
        self.write_buffer.lock().unwrap().clone()
    }

    /// Open the mock port
    pub fn open(&self) -> io::Result<()> {
        let mut is_open = self.is_open.lock().unwrap();
        if *is_open {
            return Err(io::Error::new(io::ErrorKind::AlreadyExists, "Port is already open"));
        }
        *is_open = true;
        Ok(())
    }

    /// Close the mock port
    pub fn close(&self) -> io::Result<()> {
        let mut is_open = self.is_open.lock().unwrap();
        if !*is_open {
            return Err(io::Error::new(io::ErrorKind::NotConnected, "Port is not open"));
        }
        *is_open = false;
        Ok(())
    }

    /// Check if the port is open
    pub fn is_open(&self) -> bool {
        *self.is_open.lock().unwrap()
    }
}

impl Read for MockSerialPort {
    fn read(&mut self, buf: &mut [u8]) -> io::Result<usize> {
        if !self.is_open() {
            return Err(io::Error::new(io::ErrorKind::NotConnected, "Port is not open"));
        }

        let mut read_buffer = self.read_buffer.lock().unwrap();
        let available = read_buffer.len().min(buf.len());

        for i in 0..available {
            if let Some(byte) = read_buffer.pop_front() {
                buf[i] = byte;
            }
        }

        Ok(available)
    }
}

impl Write for MockSerialPort {
    fn write(&mut self, buf: &[u8]) -> io::Result<usize> {
        if !self.is_open() {
            return Err(io::Error::new(io::ErrorKind::NotConnected, "Port is not open"));
        }

        let mut write_buffer = self.write_buffer.lock().unwrap();
        write_buffer.extend_from_slice(buf);
        Ok(buf.len())
    }

    fn flush(&mut self) -> io::Result<()> {
        Ok(())
    }
}

#[test]
fn test_mock_serial_port_open_close() {
    let port = MockSerialPort::new("MOCK1");

    assert!(!port.is_open());
    assert!(port.open().is_ok());
    assert!(port.is_open());

    // Cannot open again
    assert!(port.open().is_err());

    assert!(port.close().is_ok());
    assert!(!port.is_open());

    // Cannot close again
    assert!(port.close().is_err());
}

#[test]
fn test_mock_serial_port_read_write() {
    let mut port = MockSerialPort::new("MOCK1");

    // Cannot read/write when closed
    let mut buf = [0u8; 10];
    assert!(port.read(&mut buf).is_err());
    assert!(port.write(b"test").is_err());

    // Open port
    assert!(port.open().is_ok());

    // Write data
    assert_eq!(port.write(b"Hello").unwrap(), 5);
    assert_eq!(port.get_written_data(), b"Hello");

    // Add read data
    port.add_read_data(b"World");

    // Read data
    let mut buf = [0u8; 10];
    let n = port.read(&mut buf).unwrap();
    assert_eq!(n, 5);
    assert_eq!(&buf[..n], b"World");

    // No more data to read
    let n = port.read(&mut buf).unwrap();
    assert_eq!(n, 0);
}

#[test]
fn test_mock_serial_port_partial_read() {
    let mut port = MockSerialPort::new("MOCK1");
    port.open().unwrap();

    // Add 10 bytes
    port.add_read_data(b"0123456789");

    // Read only 5 bytes
    let mut buf = [0u8; 5];
    let n = port.read(&mut buf).unwrap();
    assert_eq!(n, 5);
    assert_eq!(&buf[..n], b"01234");

    // Read remaining 5 bytes
    let n = port.read(&mut buf).unwrap();
    assert_eq!(n, 5);
    assert_eq!(&buf[..n], b"56789");
}

fn opened(port: &MockSerialPort) -> Result<(), String> {
    port.open().map_err(|e| e.to_string())
}

fn sent(port: &mut MockSerialPort, bytes: &[u8]) -> Transfer {
    match port.write(bytes) {
        Ok(n) => Transfer::Done(n),
        Err(e) => Transfer::Failed(e.to_string()),
    }
}

/// A read that finds nothing within the time allowed times out.
fn received(port: &mut MockSerialPort, max_bytes: usize) -> Received {
    let mut buffer = vec![0u8; max_bytes];
    match port.read(&mut buffer) {
        Ok(0) => Received::TimedOut,
        Ok(n) => {
            buffer.truncate(n);
            Received::Data(buffer)
        }
        Err(e) => Received::Failed(e.to_string()),
    }
}

fn open_args(port: &str) -> OpenArgs {
    OpenArgs {
        port: port.to_string(),
        baud_rate: 115200,
        data_bits: "8".to_string(),
        stop_bits: "1".to_string(),
        parity: "none".to_string(),
        flow_control: "none".to_string(),
    }
}

#[test]
fn session_write_then_read_from_a_silent_device() {
    let mut device = MockSerialPort::new("/dev/ttyUSB0");
    let mut manager = SessionManager::new(Config::default());

    // Create the session at 115200-8-N-1 and connect it.
    let config = SessionConfig {
        port_name: "/dev/ttyUSB0".to_string(),
        baud_rate: 115200,
        data_bits: 8,
        stop_bits: "One".to_string(),
        parity: "None".to_string(),
        ..Default::default()
    };
    let session_id = manager.create_session(config).unwrap();
    manager.connect_session(&session_id, opened(&device)).unwrap();
    let info = manager.get_session_info(&session_id).unwrap();
    assert_eq!(info.state, SessionState::Active);
    assert!(info.has_connection);
    let connection_id = manager.get_session_connection(&session_id).unwrap();
    assert!(manager.has_connection(&connection_id));

    // Write "AT\r\n" in UTF-8: four bytes.
    let data = serial_mcp_server::tools::types::decode_data("AT\r\n", "utf8").unwrap();
    let bytes_written = match sent(&mut device, &data) {
        Transfer::Done(n) => n,
        _ => panic!("the device refused the write"),
    };
    assert_eq!(bytes_written, 4);
    manager.record_session_send(&session_id, bytes_written).unwrap();
    assert_eq!(device.get_written_data(), b"AT\r\n");

    // The device says nothing: the read times out, which is no failure.
    match received(&mut device, 64) {
        Received::TimedOut => {}
        _ => panic!("the device should be silent"),
    }
    manager.record_session_receive(&session_id, 0).unwrap();

    let info = manager.get_session_info(&session_id).unwrap();
    assert_eq!(info.stats.bytes_sent, 4);
    assert_eq!(info.stats.messages_sent, 1);
    assert_eq!(info.stats.bytes_received, 0);
    assert_eq!(info.state, SessionState::Active);
}

#[test]
fn tool_write_then_read_from_a_silent_device() {
    let mut device = MockSerialPort::new("/dev/ttyUSB0");
    let mut handler = SerialHandler::new(Config::default());

    let (entered, answer) = handler.open(open_args("/dev/ttyUSB0"), opened(&device));
    let answer = answer.unwrap();
    let connection_id = entered.unwrap();
    assert_eq!(
        answer,
        format!("Serial connection opened\nConnection ID: {}\nPort: /dev/ttyUSB0\nBaud rate: 115200", connection_id)
    );

    // Write "AT\r\n" with encoding utf8: bytesWritten = 4.
    let args = WriteArgs {
        connection_id: connection_id.clone(),
        data: "AT\r\n".to_string(),
        encoding: "utf8".to_string(),
    };
    let bytes = handler.write_request(&args).unwrap();
    assert_eq!(bytes, b"AT\r\n");
    let outcome = sent(&mut device, &bytes);
    let answer = handler.write(args, outcome).unwrap();
    assert_eq!(
        answer,
        format!("Data sent successfully\nConnection ID: {}\nBytes written: 4\nData: \"AT\\r\\n\"", connection_id)
    );

    // Read with maxBytes = 64 and timeoutMs = 100 from a device that sends nothing.
    let args = ReadArgs {
        connection_id: connection_id.clone(),
        timeout_ms: Some(100),
        max_bytes: 64,
        encoding: "utf8".to_string(),
    };
    let (max_bytes, timeout_ms) = handler.read_request(&args).unwrap();
    assert_eq!((max_bytes, timeout_ms), (64, 100));
    let answer = handler.read(args, received(&mut device, max_bytes));
    assert_eq!(
        answer,
        Ok(format!("Read timeout\nConnection ID: {}\nTimeout: 100ms\nBytes read: 0", connection_id))
    );

    let status = handler.connections().list();
    assert_eq!(status.len(), 1);
    assert_eq!(status[0].bytes_sent, 4);
    assert_eq!(status[0].bytes_received, 0);

    let answer = handler.close(CloseArgs { connection_id: connection_id.clone() });
    assert_eq!(answer, Ok(format!("Serial connection closed\nConnection ID: {}", connection_id)));
    assert_eq!(handler.connections().list().len(), 0);
}

#[test]
fn tool_read_shows_what_the_device_sent() {
    let mut device = MockSerialPort::new("/dev/ttyUSB0");
    let mut handler = SerialHandler::new(Config::default());
    let (entered, answer) = handler.open(open_args("/dev/ttyUSB0"), opened(&device));
    assert!(answer.is_ok());
    let connection_id = entered.unwrap();

    device.add_read_data(b"OK\r\n");
    let args = ReadArgs {
        connection_id: connection_id.clone(),
        timeout_ms: None,
        max_bytes: 1024,
        encoding: "hex".to_string(),
    };
    let answer = handler.read(args, received(&mut device, 1024));
    assert_eq!(
        answer,
        Ok(format!(
            "Data read successfully\nConnection ID: {}\nBytes read: 4\nData: \"4f 4b 0d 0a\"",
            connection_id
        ))
    );
    assert_eq!(handler.connections().list()[0].bytes_received, 4);
}
