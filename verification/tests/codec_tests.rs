//! Data through the encodings of the tools, and the tools where they fail.

use serial_mcp_server::config::Config;
use serial_mcp_server::serial::connection::{FlowControl, Parity, StopBits, Transfer};
use serial_mcp_server::serial::port::{DetectedPort, PortKind};
use serial_mcp_server::serial::{ConnectionConfig, DataBits};
use serial_mcp_server::tools::serial_handler::{Received, SerialHandler};
use serial_mcp_server::tools::types::{
    base64_fits, decode_data, decode_with, default_data_bits, try_encode_data, default_encoding, default_flow_control, default_max_bytes,
    default_parity, default_stop_bits, encode_data, encode_with, CloseArgs, Encoding, OpenArgs, ReadArgs, WriteArgs,
};

fn samples() -> Vec<Vec<u8>> {
    let mut samples: Vec<Vec<u8>> = vec![vec![], vec![0], vec![255], vec![0, 255], b"AT\r\n".to_vec()];
    samples.push((0..=255u8).collect());
    let mut seed: u32 = 0x9E3779B9;
    for len in 1..80usize {
        let mut bytes = Vec::new();
        for _ in 0..len {
            seed = seed.wrapping_mul(1664525).wrapping_add(1013904223);
            bytes.push((seed >> 24) as u8);
        }
        samples.push(bytes);
    }
    samples
}

#[test]
fn decoding_gives_back_what_encoding_took() {
    for bytes in samples() {
        for encoding in [Encoding::Hex, Encoding::Base64] {
            let text = encode_with(&bytes, encoding).unwrap();
            assert_eq!(decode_with(&text, encoding).unwrap(), bytes, "{:?} of {:?}", encoding, bytes);
        }
        for name in ["hex", "HEX", "base64", "Base64"] {
            let text = encode_data(&bytes, name).unwrap();
            assert_eq!(decode_data(&text, name).unwrap(), bytes);
        }
        match String::from_utf8(bytes.clone()) {
            Ok(valid) => {
                assert_eq!(encode_with(&bytes, Encoding::Utf8).unwrap(), valid);
                assert_eq!(decode_with(&valid, Encoding::Utf8).unwrap(), bytes);
            }
            Err(e) => assert_eq!(
                encode_with(&bytes, Encoding::Utf8).unwrap_err(),
                format!("UTF-8 encoding error: {}", e)
            ),
        }
    }
    for text in ["", "a", "né", "日本語", "\u{10FFFF}\0"] {
        let encoded = encode_data(text.as_bytes(), "utf-8").unwrap();
        assert_eq!(encoded, text);
        assert_eq!(decode_data(&encoded, "UTF8").unwrap(), text.as_bytes());
    }
}

#[test]
fn data_of_any_length_is_encoded_or_told_to_be_too_long() {
    for bytes in samples() {
        for name in ["hex", "base64", "utf8", "morse"] {
            assert_eq!(try_encode_data(&bytes, name), Some(encode_data(&bytes, name)));
        }
        let text = try_encode_data(&bytes, "Base64").unwrap().unwrap();
        assert_eq!(decode_data(&text, "base64").unwrap(), bytes);
    }
    let last = usize::MAX / 4 * 3;
    // The text of `last` bytes takes all but three of the lengths there are.
    for len in [0usize, 1, 2, 3, 4, 1 << 20, last - 1, last] {
        assert!(base64_fits(len), "for {}", len);
    }
    for len in [last + 1, last + 2, last + 3, usize::MAX - 1, usize::MAX] {
        assert!(!base64_fits(len), "for {}", len);
    }
}

#[test]
fn hexadecimal_is_written_in_spaced_pairs_and_read_with_or_without_spaces() {
    assert_eq!(encode_data(&[], "hex").unwrap(), "");
    assert_eq!(encode_data(&[0x0a], "hex").unwrap(), "0a");
    assert_eq!(encode_data(&[0x00, 0xff, 0x10], "hex").unwrap(), "00 ff 10");
    assert_eq!(decode_data("", "hex").unwrap(), Vec::<u8>::new());
    assert_eq!(decode_data(" 0 0f F1 0 ", "hex").unwrap(), vec![0x00, 0xff, 0x10]);
    assert_eq!(decode_data("0", "hex").unwrap_err(), "Hex decoding error: Odd number of digits");
    assert_eq!(decode_data("0 1 2", "hex").unwrap_err(), "Hex decoding error: Odd number of digits");
    assert_eq!(
        decode_data("0g", "hex").unwrap_err(),
        "Hex decoding error: Invalid character 'g' at position 1"
    );
    assert_eq!(
        decode_data("a\tb1", "hex").unwrap_err(),
        "Hex decoding error: Invalid character '\\t' at position 1"
    );
    assert!(decode_data("éé", "hex").is_err());
    assert!(decode_data("é1", "hex").is_err());
}

#[test]
fn base64_is_read_in_the_standard_and_in_the_unpadded_url_safe_form() {
    assert_eq!(encode_data(&[0xfb, 0xff], "base64").unwrap(), "+/8=");
    assert_eq!(decode_data("+/8=", "base64").unwrap(), vec![0xfb, 0xff]);
    assert_eq!(decode_data("-_8", "base64").unwrap(), vec![0xfb, 0xff]);
    assert_eq!(decode_data("", "base64").unwrap(), Vec::<u8>::new());
    // Neither form: the failure is that of the second attempt.
    assert_eq!(decode_data("+/8", "base64").unwrap_err(), "Base64 decoding error: Invalid symbol 43, offset 0.");
    assert_eq!(decode_data("-_8=", "base64").unwrap_err(), "Base64 decoding error: Invalid padding");
    assert_eq!(decode_data("A", "base64").unwrap_err(), "Base64 decoding error: Invalid input length: 1");
}

#[test]
fn encodings_are_named_in_any_case() {
    for (word, encoding) in [
        ("utf8", Some(Encoding::Utf8)),
        ("utf-8", Some(Encoding::Utf8)),
        ("hex", Some(Encoding::Hex)),
        ("base64", Some(Encoding::Base64)),
        ("UTF8", None),
        ("utf_8", None),
        ("", None),
    ] {
        assert_eq!(Encoding::from_word(word), encoding);
    }
    assert_eq!(encode_data(b"x", "Utf-8").unwrap(), "x");
    assert_eq!(encode_data(b"x", "ascii").unwrap_err(), "Unsupported encoding: ascii");
    assert_eq!(decode_data("x", "ASCII").unwrap_err(), "Unsupported encoding: ASCII");
    assert_eq!(default_encoding(), "utf8");
    assert_eq!(default_max_bytes(), 1024);
    assert_eq!(default_data_bits(), "8");
    assert_eq!(default_stop_bits(), "1");
    assert_eq!(default_parity(), "none");
    assert_eq!(default_flow_control(), "none");
}

fn open_args(data_bits: &str, stop_bits: &str, parity: &str, flow_control: &str) -> OpenArgs {
    OpenArgs {
        port: "COM4".to_string(),
        baud_rate: 19200,
        data_bits: data_bits.to_string(),
        stop_bits: stop_bits.to_string(),
        parity: parity.to_string(),
        flow_control: flow_control.to_string(),
    }
}

#[test]
fn the_arguments_of_open_name_line_settings_with_defaults() {
    let config = ConnectionConfig::from(open_args("7", "2", "ODD", "Software"));
    assert_eq!(config.port, "COM4");
    assert_eq!(config.baud_rate, 19200);
    assert_eq!(config.data_bits, DataBits::Seven);
    assert_eq!(config.stop_bits, StopBits::Two);
    assert_eq!(config.parity, Parity::Odd);
    assert_eq!(config.flow_control, FlowControl::Software);

    // Words that name nothing stand for the defaults; stop bits take numerals only.
    let config = ConnectionConfig::from(open_args("nine", "two", "mark", "rts"));
    assert_eq!(config.data_bits, DataBits::Eight);
    assert_eq!(config.stop_bits, StopBits::One);
    assert_eq!(config.parity, Parity::NoParity);
    assert_eq!(config.flow_control, FlowControl::NoFlowControl);
    let config = ConnectionConfig::from(open_args("5", "1", "even", "HARDWARE"));
    assert_eq!(config.data_bits, DataBits::Five);
    assert_eq!(config.stop_bits, StopBits::One);
    assert_eq!(config.parity, Parity::Even);
    assert_eq!(config.flow_control, FlowControl::Hardware);
    assert_eq!(ConnectionConfig::from(open_args("6", "1", "none", "none")).data_bits, DataBits::Six);
}

#[test]
fn the_tools_report_what_went_wrong() {
    let mut handler = SerialHandler::new(Config::default());
    let write = |data: &str, encoding: &str| WriteArgs {
        connection_id: "c-1".to_string(),
        data: data.to_string(),
        encoding: encoding.to_string(),
    };
    let read = |encoding: &str| ReadArgs {
        connection_id: "c-1".to_string(),
        timeout_ms: None,
        max_bytes: 16,
        encoding: encoding.to_string(),
    };

    // No connection yet.
    assert_eq!(handler.write_request(&write("AT", "utf8")).unwrap_err(), "Error: Connection ID c-1 not found");
    assert_eq!(handler.write(write("AT", "utf8"), Transfer::Done(2)).unwrap_err(), "Error: Connection ID c-1 not found");
    assert_eq!(handler.read_request(&read("utf8")).unwrap_err(), "Error: Connection ID c-1 not found");
    assert_eq!(handler.read(read("utf8"), Received::TimedOut).unwrap_err(), "Error: Connection ID c-1 not found");
    assert_eq!(
        handler.close(CloseArgs { connection_id: "c-1".to_string() }).unwrap_err(),
        "Error: Failed to close connection c-1 - Invalid connection ID: c-1"
    );
    assert_eq!(
        handler.open(open_args("8", "1", "none", "none"), Err("Access is denied.".to_string())).1.unwrap_err(),
        "Error: Failed to open port COM4 - Connection failed: COM4: Access is denied."
    );
    assert_eq!(handler.open_request(&open_args("7", "2", "odd", "none")).unwrap().data_bits, DataBits::Seven);
    let mut zero = open_args("8", "1", "none", "none");
    zero.baud_rate = 0;
    assert!(handler.open_request(&zero).is_none());
    assert_eq!(handler.open(zero, Ok(())), (None, Err("Error: Failed to open port COM4 - Invalid baud rate: 0".to_string())));

    let (entered, answer) = handler.open(open_args("8", "1", "none", "none"), Ok(()));
    let id = entered.unwrap();
    assert_eq!(answer.unwrap(), format!("Serial connection opened\nConnection ID: {}\nPort: COM4\nBaud rate: 19200", id));
    assert_eq!(
        handler.open(open_args("8", "1", "none", "none"), Ok(())).1.unwrap_err(),
        "Error: Failed to open port COM4 - Connection already exists: COM4"
    );
    let write = |data: &str, encoding: &str| WriteArgs {
        connection_id: id.clone(),
        data: data.to_string(),
        encoding: encoding.to_string(),
    };
    let read = |encoding: &str, timeout_ms: Option<u64>| ReadArgs {
        connection_id: id.clone(),
        timeout_ms,
        max_bytes: 16,
        encoding: encoding.to_string(),
    };

    assert_eq!(
        handler.write(write("4g", "hex"), Transfer::Done(1)).unwrap_err(),
        "Error: Data decoding failed - Hex decoding error: Invalid character 'g' at position 1"
    );
    assert_eq!(
        handler.write(write("x", "morse"), Transfer::Done(1)).unwrap_err(),
        "Error: Data decoding failed - Unsupported encoding: morse"
    );
    assert_eq!(
        handler.write(write("41 54", "hex"), Transfer::Failed("Broken pipe".to_string())).unwrap_err(),
        "Error: Data sending failed - I/O error: Broken pipe"
    );
    assert_eq!(
        handler.write(write("41 54", "hex"), Transfer::TimedOut).unwrap_err(),
        "Error: Data sending failed - Write timeout"
    );
    assert_eq!(handler.connections().list()[0].bytes_sent, 0);
    assert_eq!(
        handler.write(write("say \"hi\"\n", "utf8"), Transfer::Done(9)).unwrap(),
        format!("Data sent successfully\nConnection ID: {}\nBytes written: 9\nData: \"say \\\"hi\\\"\\n\"", id)
    );

    assert_eq!(
        handler.read(read("utf8", None), Received::Data(vec![0xff, 0xfe])).unwrap_err(),
        format!("Error: Data encoding failed - UTF-8 encoding error: {}", String::from_utf8(vec![0xff, 0xfe]).unwrap_err())
    );
    assert_eq!(
        handler.read(read("morse", None), Received::Data(vec![1])).unwrap_err(),
        "Error: Data encoding failed - Unsupported encoding: morse"
    );
    assert_eq!(
        handler.read(read("utf8", None), Received::Failed("Input/output error".to_string())).unwrap_err(),
        "Error: Data reading failed - I/O error: Input/output error"
    );
    assert_eq!(handler.read_request(&read("utf8", None)).unwrap(), (16, 1000));
    assert_eq!(handler.read_request(&read("utf8", Some(0))).unwrap(), (16, 0));
    // Nothing read, and nothing read in time, are the same success.
    let timeout = format!("Read timeout\nConnection ID: {}\nTimeout: 1000ms\nBytes read: 0", id);
    assert_eq!(handler.read(read("utf8", None), Received::Data(vec![])).unwrap(), timeout);
    assert_eq!(handler.read(read("utf8", None), Received::TimedOut).unwrap(), timeout);
    assert_eq!(
        handler.read(read("base64", Some(5)), Received::TimedOut).unwrap(),
        format!("Read timeout\nConnection ID: {}\nTimeout: 5ms\nBytes read: 0", id)
    );
    assert_eq!(
        handler.read(read("base64", Some(5)), Received::Data(b"OK".to_vec())).unwrap(),
        format!("Data read successfully\nConnection ID: {}\nBytes read: 2\nData: \"T0s=\"", id)
    );
    // The bytes that arrived were counted, also where they could not be shown.
    assert_eq!(handler.connections().list()[0].bytes_received, 5);
    assert_eq!(handler.connections().list()[0].bytes_sent, 9);
}

#[test]
fn the_ports_of_the_machine_are_listed() {
    let handler = SerialHandler::new(Config::default());
    assert_eq!(handler.list_ports(Ok(vec![])).unwrap(), "No serial ports found on the system");
    assert_eq!(
        handler.list_ports(Err("Operation not permitted".to_string())).unwrap_err(),
        "Failed to list ports: Operation not permitted"
    );
    let ports = vec![
        DetectedPort {
            port_name: "/dev/ttyUSB0".to_string(),
            port_type: PortKind::Usb {
                vid: 0x10c4,
                pid: 0xea60,
                manufacturer: Some("Silicon Labs".to_string()),
                product: None,
            },
        },
        DetectedPort { port_name: "/dev/ttyS0".to_string(), port_type: PortKind::Unknown },
        DetectedPort { port_name: "/dev/rfcomm0".to_string(), port_type: PortKind::Bluetooth },
    ];
    assert_eq!(
        handler.list_ports(Ok(ports)).unwrap(),
        "Found 3 serial ports:\n\
         - /dev/ttyUSB0: Silicon Labs USB Serial Device (USB VID:10C4 PID:EA60)\n\
         - /dev/ttyS0: Serial Port\n\
         - /dev/rfcomm0: Bluetooth Serial Port (Bluetooth)"
    );
    let one = vec![DetectedPort { port_name: "COM1".to_string(), port_type: PortKind::Pci }];
    assert_eq!(handler.list_ports(Ok(one)).unwrap(), "Found 1 serial ports:\n- COM1: PCI Serial Port (PCI)");
}

#[test]
fn a_handler_shares_ports_as_its_configuration_says() {
    let mut config = Config::default();
    config.serial.allow_port_sharing = true;
    let mut handler = SerialHandler::new(config);
    assert!(handler.open(open_args("8", "1", "none", "none"), Ok(())).1.is_ok());
    assert!(handler.open(open_args("8", "1", "none", "none"), Ok(())).1.is_ok());
    assert_eq!(handler.connections().list().len(), 2);
}
