//! What the library writes, held against the formatting of the standard library.

use serial_mcp_server::text;
use serial_mcp_server::utils::{
    BufferUtils, DataConverter, DataFormat, PortType, SessionIdGenerator, StringUtils, TimeUtils, Validator,
};

fn float_size(bytes: usize) -> String {
    const UNITS: &[&str] = &["B", "KB", "MB", "GB"];
    let mut size = bytes as f64;
    let mut unit_index = 0;
    while size >= 1024.0 && unit_index < UNITS.len() - 1 {
        size /= 1024.0;
        unit_index += 1;
    }
    if unit_index == 0 {
        format!("{} {}", bytes, UNITS[unit_index])
    } else {
        format!("{:.1} {}", size, UNITS[unit_index])
    }
}

#[test]
fn sizes_are_shown_as_floating_point_shows_them() {
    assert_eq!(StringUtils::format_bytes(0), "0 B");
    assert_eq!(StringUtils::format_bytes(1023), "1023 B");
    assert_eq!(StringUtils::format_bytes(1536), "1.5 KB");
    assert_eq!(StringUtils::format_bytes(1280), "1.2 KB");
    assert_eq!(StringUtils::format_bytes(1048575), "1024.0 KB");
    assert_eq!(StringUtils::format_bytes(1073741824), "1.0 GB");
    assert_eq!(StringUtils::format_bytes(5 * 1073741824), "5.0 GB");

    let mut samples: Vec<usize> = vec![
        1, 999, 1024, 1025, 1075, 1076, 1077, 1126, 1127, 1128, 1178, 1279, 1281, 1331, 1332, 1484, 1485, 1792,
        2047, 2048, 10239, 10240, 102348, 104857, 1048524, 1048525, 1048576, 1100000, 1572864, 1310720, 3407872,
        1073741823, 1073741824, 1610612736, 1342177280,
    ];
    // Ties, and the numbers next to them, in every unit.
    for unit in [1024usize, 1024 * 1024, 1024 * 1024 * 1024] {
        for tenths in [10usize, 11, 12, 13, 20, 25, 99, 1000, 10239] {
            for twentieth in [1usize, 3, 5, 7, 9] {
                let tie = (tenths * 20 + twentieth * 2) as u128 * unit as u128 / 40;
                for delta in [-1i128, 0, 1] {
                    let n = tie as i128 + delta;
                    if n > 0 && n < usize::MAX as i128 {
                        samples.push(n as usize);
                    }
                }
            }
        }
    }
    // Numbers that 53 binary digits cannot hold.
    for shift in 53..usize::BITS {
        let base = 1usize << shift;
        for offset in [0usize, 1, 2, 3, 1023, 1024, 1025, 2047, 2048, 2049, 3071, 3072, 3073] {
            samples.push(base.wrapping_add(offset));
            samples.push(base.wrapping_sub(offset));
        }
    }
    samples.push(usize::MAX);
    samples.push(usize::MAX - 1);
    samples.push(usize::MAX - 1023);
    samples.push(usize::MAX - 1024);
    let mut seed: u64 = 0x2545F4914F6CDD1D;
    for _ in 0..20000 {
        seed ^= seed << 13;
        seed ^= seed >> 7;
        seed ^= seed << 17;
        samples.push((seed >> (seed % 60)) as usize);
    }
    for bytes in samples {
        assert_eq!(StringUtils::format_bytes(bytes), float_size(bytes), "for {} bytes", bytes);
    }
}

#[test]
fn numbers_are_written_as_the_standard_library_writes_them() {
    for n in [0u64, 1, 9, 10, 11, 99, 100, 101, 255, 1000, 65535, 4294967295, 1 << 53, u64::MAX - 1, u64::MAX] {
        assert_eq!(text::decimal(n), n.to_string());
        let mut out = String::from("n=");
        text::push_decimal(&mut out, n);
        assert_eq!(out, format!("n={}", n));
    }
    for b in 0..=255u8 {
        let mut out = String::new();
        text::push_hex_byte(&mut out, b);
        assert_eq!(out, format!("{:02x}", b));
    }
    for n in [0u16, 1, 0x0403, 0x6001, 0x1a86, 0x7523, 0xabcd, 0xffff] {
        let mut out = String::new();
        text::push_upper_hex_u16(&mut out, n);
        assert_eq!(out, format!("{:04X}", n));
    }
    for n in [0u32, 1, 0xdead_beef, 0x0000_0ff0, 0x1234_5678, u32::MAX] {
        let mut out = String::new();
        text::push_hex_u32(&mut out, n);
        assert_eq!(out, format!("{:08x}", n));
    }
}

#[test]
fn texts_are_searched_and_compared_as_the_standard_library_does() {
    let cases = [
        ("/dev/ttyUSB0", "USB"),
        ("/dev/ttyUSB0", "usb"),
        ("/dev/ttyUSB0", ""),
        ("", ""),
        ("", "a"),
        ("abc", "abcd"),
        ("abc", "abc"),
        ("aaab", "aab"),
        ("héllo wörld", "wör"),
        ("héllo wörld", "lo w"),
        ("日本語のポート", "ポート"),
        ("日本語のポート", "ボート"),
    ];
    for (haystack, needle) in cases {
        assert_eq!(text::contains(haystack, needle), haystack.contains(needle), "{:?} in {:?}", needle, haystack);
        assert_eq!(text::same_text(haystack, needle), haystack == needle);
    }
    assert_eq!(text::chars_of("a日b"), vec!['a', '日', 'b']);
    assert_eq!(text::remove_char("4 8\t6 5 ", ' '), "48\t65");
    assert_eq!(text::labelled("Port: ", "COM1"), "Port: COM1");
}

#[test]
fn durations_are_shown_in_their_largest_unit() {
    assert_eq!(TimeUtils::format_duration(0, 0), "0ms");
    assert_eq!(TimeUtils::format_duration(0, 999), "999ms");
    assert_eq!(TimeUtils::format_duration(1, 0), "1.000s");
    assert_eq!(TimeUtils::format_duration(1, 5), "1.005s");
    assert_eq!(TimeUtils::format_duration(59, 50), "59.050s");
    assert_eq!(TimeUtils::format_duration(59, 500), "59.500s");
    assert_eq!(TimeUtils::format_duration(60, 999), "1m 0s");
    assert_eq!(TimeUtils::format_duration(3599, 0), "59m 59s");
    assert_eq!(TimeUtils::format_duration(3600, 0), "1h 0m 0s");
    assert_eq!(TimeUtils::format_duration(90061, 1), "25h 1m 1s");
}

#[test]
fn a_reading_of_the_clock_stands_for_milliseconds_and_seconds() {
    assert_eq!(TimeUtils::millis_of(None), 0);
    assert_eq!(TimeUtils::seconds_of(None), 0);
    assert_eq!(TimeUtils::millis_of(Some((0, 0))), 0);
    assert_eq!(TimeUtils::millis_of(Some((0, 999_999))), 0);
    assert_eq!(TimeUtils::millis_of(Some((0, 1_000_000))), 1);
    assert_eq!(TimeUtils::millis_of(Some((1_700_000_000, 123_456_789))), 1_700_000_000_123);
    assert_eq!(TimeUtils::seconds_of(Some((1_700_000_000, 999_999_999))), 1_700_000_000);
    assert_eq!(TimeUtils::seconds_of(Some((u64::MAX, 0))), u64::MAX);
    // Beyond 2^64 milliseconds the count wraps, as a cast to 64 bits does.
    for (secs, nanos) in [(u64::MAX, 999_999_999u32), (u64::MAX / 1000 + 1, 0), (1 << 63, 5_000_000)] {
        let wide = secs as u128 * 1000 + (nanos / 1_000_000) as u128;
        assert_eq!(TimeUtils::millis_of(Some((secs, nanos))), wide as u64);
    }
    assert_eq!(TimeUtils::millis_of(Some((u64::MAX / 1000, 615_000_000))), u64::MAX);
}

#[test]
fn the_system_clock_is_read() {
    let millis = TimeUtils::now_millis();
    let seconds = TimeUtils::now_seconds();
    assert!(millis > 1_600_000_000_000);
    assert!(seconds > 1_600_000_000);
    assert!(seconds >= millis / 1000 && seconds - millis / 1000 < 5);
}

#[test]
fn connection_identifiers_hold_the_time_and_the_sum_of_the_name() {
    // 'C' + 'O' + 'M' + '1' = 67 + 79 + 77 + 49 = 272 = 0x110
    assert_eq!(SessionIdGenerator::connection_id_at("COM1", 1700000000000), "conn_1700000000000_00000110");
    assert_eq!(SessionIdGenerator::connection_id_at("", 0), "conn_0_00000000");
    // U+10FFFF thirty-nine hundred times and more passes 2^32.
    let long: String = std::iter::repeat('\u{10FFFF}').take(3856).collect();
    let sum = (0x10FFFFu64 * 3856) % (1u64 << 32);
    assert_eq!(SessionIdGenerator::connection_id_at(&long, 7), format!("conn_7_{:08x}", sum));

    let id = SessionIdGenerator::generate_connection_id("COM1");
    assert!(id.starts_with("conn_") && id.ends_with("_00000110"));
    let millis: u64 = id["conn_".len()..id.len() - "_00000110".len()].parse().unwrap();
    assert!(millis > 1_600_000_000_000);
}

#[test]
fn session_identifiers_are_made_of_the_first_digits_of_a_uuid() {
    assert_eq!(
        SessionIdGenerator::from_uuid("01234567-89ab-4cde-8f01-23456789abcd"),
        "serial_session_0123456789ab4cde"
    );
    let id = SessionIdGenerator::generate();
    assert_eq!(id.len(), 31);
    assert!(id.starts_with("serial_session_"));
    assert_ne!(id, SessionIdGenerator::generate());
}

#[test]
fn escapes_are_written_and_read_back() {
    assert_eq!(DataConverter::escape_string("a\nb\rc\td\0e\\f"), "a\\nb\\rc\\td\\0e\\\\f");
    assert_eq!(DataConverter::escape_string("\x01\x1f\x7f\u{80}\u{9f}\u{a0}é"), "\\x01\\x1f\\x7f\\x80\\x9f\u{a0}é");
    assert_eq!(DataConverter::escape_string(""), "");
    for c in (0u32..0x300).filter_map(char::from_u32) {
        let expected: String = match c {
            '\n' => "\\n".to_string(),
            '\r' => "\\r".to_string(),
            '\t' => "\\t".to_string(),
            '\0' => "\\0".to_string(),
            '\\' => "\\\\".to_string(),
            c if c.is_control() => format!("\\x{:02x}", c as u8),
            c => c.to_string(),
        };
        assert_eq!(DataConverter::escape_string(&c.to_string()), expected);
    }

    assert_eq!(DataConverter::unescape_string("a\\nb\\rc\\td\\0e\\\\f").unwrap(), "a\nb\rc\td\0e\\f");
    assert_eq!(DataConverter::unescape_string("\\x41\\x7a\\xFf\\x+9").unwrap(), "Az\u{ff}\u{9}");
    assert_eq!(DataConverter::unescape_string("plain é").unwrap(), "plain é");
    let failures = [
        ("tail\\", "Encoding error: Incomplete escape sequence"),
        ("\\q", "Encoding error: Unknown escape sequence: \\q"),
        ("\\é", "Encoding error: Unknown escape sequence: \\é"),
        ("\\x4", "Encoding error: Incomplete hex escape"),
        ("\\x", "Encoding error: Incomplete hex escape"),
        ("\\x4g", "Encoding error: Invalid hex escape: \\x4g"),
        ("\\x-1", "Encoding error: Invalid hex escape: \\x-1"),
        ("\\x++", "Encoding error: Invalid hex escape: \\x++"),
        ("\\xé", "Encoding error: Invalid hex escape: \\xé"),
        ("\\xéa", "Encoding error: Incomplete hex escape"),
        ("\\x日", "Encoding error: Incomplete hex escape"),
        ("ok\\n\\x4", "Encoding error: Incomplete hex escape"),
    ];
    for (text, message) in failures {
        assert_eq!(DataConverter::unescape_string(text).unwrap_err().to_string(), message, "for {:?}", text);
    }
}

#[test]
fn the_hexadecimal_numeral_of_an_escape_is_read_as_the_standard_library_reads_it() {
    let symbols = ['0', '9', 'a', 'f', 'A', 'F', 'g', 'G', '+', '-', ' ', 'x', '/', ':', '@', '`'];
    for first in symbols {
        for second in symbols {
            let digits: String = [first, second].iter().collect();
            let expected = u8::from_str_radix(&digits, 16).ok().map(|b| (b as char).to_string());
            let got = DataConverter::unescape_string(&format!("\\x{}", digits)).ok();
            assert_eq!(got, expected, "for {:?}", digits);
        }
    }
}

#[test]
fn values_between_commas_are_trimmed_as_the_standard_library_trims() {
    let cases = [
        "a, b,  c  , d,",
        "",
        ",",
        " , ,, ",
        "one",
        "  one  ",
        "a\u{a0},\u{2003}b\u{3000} ,\tc\n",
        "x y , z",
        ",lead",
        "\u{200b}zero width stays\u{200b},ok",
    ];
    for text in cases {
        let expected: Vec<String> =
            text.split(',').map(|s| s.trim().to_string()).filter(|s| !s.is_empty()).collect();
        assert_eq!(StringUtils::parse_csv(text), expected, "for {:?}", text);
    }
    for c in (0u32..0x3100).filter_map(char::from_u32) {
        let text = format!("{}v{}", c, c);
        let expected: Vec<String> =
            text.split(',').map(|s| s.trim().to_string()).filter(|s| !s.is_empty()).collect();
        assert_eq!(StringUtils::parse_csv(&text), expected, "for U+{:04X}", c as u32);
    }
}

#[test]
fn texts_are_shortened_and_cleaned() {
    assert_eq!(StringUtils::truncate("Hello, World!", 13), "Hello, World!");
    assert_eq!(StringUtils::truncate("Hello, World!", 12), "Hello, Wo...");
    assert_eq!(StringUtils::truncate("Hello, World!", 4), "H...");
    assert_eq!(StringUtils::truncate("Hello, World!", 3), "...");
    assert_eq!(StringUtils::truncate("Hello, World!", 0), "...");
    assert_eq!(StringUtils::truncate("", 0), "");
    assert_eq!(StringUtils::truncate("héllo wörld", 6), "hé...");
    assert_eq!(StringUtils::sanitize("ok\n\r\t\0\x07\x7f\u{85}é"), "ok\n\r\t????é");
}

#[test]
fn buffers_are_searched_and_cut() {
    assert_eq!(BufferUtils::find_pattern(b"Hello,World", b","), Some(5));
    assert_eq!(BufferUtils::find_pattern(b"aaab", b"aab"), Some(1));
    assert_eq!(BufferUtils::find_pattern(b"abcabc", b"abc"), Some(0));
    assert_eq!(BufferUtils::find_pattern(b"abcabc", b"cab"), Some(2));
    assert_eq!(BufferUtils::find_pattern(b"abc", b"abcd"), None);
    assert_eq!(BufferUtils::find_pattern(b"abc", b""), None);
    assert_eq!(BufferUtils::find_pattern(b"", b"a"), None);
    assert_eq!(BufferUtils::find_pattern(b"abc", b"x"), None);
    assert_eq!(BufferUtils::find_pattern_from(b"a,b,c", b",", 2), Some(3));
    assert_eq!(BufferUtils::find_pattern_from(b"a,b,c", b",", 4), None);
    assert_eq!(BufferUtils::find_pattern_from(b"a,b,c", b",", 9), None);

    let empty: Vec<Vec<u8>> = Vec::new();
    assert_eq!(BufferUtils::split_by_delimiter(b"", b","), empty);
    assert_eq!(BufferUtils::split_by_delimiter(b"", b""), vec![b"".to_vec()]);
    assert_eq!(BufferUtils::split_by_delimiter(b"abc", b""), vec![b"abc".to_vec()]);
    assert_eq!(BufferUtils::split_by_delimiter(b"a,b,", b","), vec![b"a".to_vec(), b"b".to_vec()]);
    assert_eq!(BufferUtils::split_by_delimiter(b",a,,b", b","), vec![b"".to_vec(), b"a".to_vec(), b"".to_vec(), b"b".to_vec()]);
    assert_eq!(BufferUtils::split_by_delimiter(b"one\r\ntwo\r\n\r\n", b"\r\n"), vec![b"one".to_vec(), b"two".to_vec(), b"".to_vec()]);
    assert_eq!(BufferUtils::split_by_delimiter(b"aaa", b"aa"), vec![b"".to_vec(), b"a".to_vec()]);
}

fn crc8_bitwise(data: &[u8]) -> u8 {
    let mut crc = 0u8;
    for &byte in data {
        crc ^= byte;
        for _ in 0..8 {
            crc = if crc & 0x80 != 0 { (crc << 1) ^ 0x07 } else { crc << 1 };
        }
    }
    crc
}

#[test]
fn checksums_have_their_values() {
    assert_eq!(BufferUtils::checksum_sum(b""), 0);
    assert_eq!(BufferUtils::checksum_sum(&[255, 1]), 0);
    assert_eq!(BufferUtils::checksum_sum(&[200, 100, 50]), 94);
    assert_eq!(BufferUtils::checksum_xor(b""), 0);
    assert_eq!(BufferUtils::checksum_xor(b"Hello"), 0x42);
    assert_eq!(BufferUtils::checksum_xor(&[0xff, 0x0f]), 0xf0);
    assert_eq!(BufferUtils::crc8(b""), 0);
    assert_eq!(BufferUtils::crc8(b"123456789"), 0xF4);
    for byte in 0..=255u8 {
        assert_eq!(BufferUtils::crc8(&[byte]), crc8_bitwise(&[byte]));
        assert_eq!(BufferUtils::crc8(&[byte, 0x5a, byte]), crc8_bitwise(&[byte, 0x5a, byte]));
    }
}

#[test]
fn ports_are_told_apart_by_name_and_description() {
    assert_eq!(PortType::from_port_info("/dev/ttyUSB0", None), PortType::UsbSerial);
    assert_eq!(PortType::from_port_info("COM3", Some("USB Serial Port")), PortType::UsbSerial);
    assert_eq!(PortType::from_port_info("/dev/rfcomm0", Some("Bluetooth link")), PortType::Bluetooth);
    assert_eq!(PortType::from_port_info("/dev/cu.Bluetooth-Incoming", None), PortType::Bluetooth);
    assert_eq!(PortType::from_port_info("/dev/TTYS0", None), PortType::Native);
    assert_eq!(PortType::from_port_info("COM7", Some("Virtual COM")), PortType::Virtual);
    assert_eq!(PortType::from_port_info("COM7", Some("com0com LOOPBACK")), PortType::Virtual);
    assert_eq!(PortType::from_port_info("COM7", None), PortType::Unknown);
    assert_eq!(PortType::from_lowercase("/dev/ttyUSB0", ""), PortType::Native);
    assert_eq!(PortType::UsbSerial.to_string(), "USB Serial");
    assert_eq!(PortType::Native.to_string(), "Native Serial");
    assert_eq!(PortType::Bluetooth.to_string(), "Bluetooth Serial");
    assert_eq!(PortType::Virtual.to_string(), "Virtual Serial");
    assert_eq!(PortType::Unknown.to_string(), "Unknown");
}

#[test]
fn data_formats_are_named_in_any_case() {
    for (word, format) in [
        ("text", DataFormat::Text),
        ("UTF8", DataFormat::Text),
        ("String", DataFormat::Text),
        ("hex", DataFormat::Hex),
        ("Hexadecimal", DataFormat::Hex),
        ("BASE64", DataFormat::Base64),
        ("b64", DataFormat::Base64),
        ("binary", DataFormat::Binary),
        ("Bin", DataFormat::Binary),
        ("RAW", DataFormat::Binary),
    ] {
        assert_eq!(DataFormat::from_str(word).unwrap(), format);
    }
    assert_eq!(DataFormat::from_str("utf-8").unwrap_err().to_string(), "Invalid configuration: Unknown data format: utf-8");
    assert_eq!(DataFormat::from_word("HEX"), None);
    assert_eq!(DataFormat::Text.to_string(), "text");
    assert_eq!(DataFormat::Hex.to_string(), "hex");
    assert_eq!(DataFormat::Base64.to_string(), "base64");
    assert_eq!(DataFormat::Binary.to_string(), "binary");
}

#[test]
fn data_is_shown_in_every_format() {
    let data = [0u8, 7, 72, 255];
    assert_eq!(DataConverter::encode(&data, DataFormat::Hex).unwrap(), "000748ff");
    assert_eq!(DataConverter::encode(&data, DataFormat::Base64).unwrap(), "AAdI/w==");
    assert_eq!(DataConverter::encode(&data, DataFormat::Binary).unwrap(), format!("{:?}", data));
    assert_eq!(DataConverter::encode(&[], DataFormat::Binary).unwrap(), "[]");
    assert_eq!(DataConverter::encode(&[9], DataFormat::Binary).unwrap(), "[9]");
    assert_eq!(DataConverter::encode("né".as_bytes(), DataFormat::Text).unwrap(), "né");
    assert_eq!(
        DataConverter::encode(&data, DataFormat::Text).unwrap_err().to_string(),
        format!("Encoding error: UTF-8 encoding failed: {}", String::from_utf8(data.to_vec()).unwrap_err())
    );

    assert_eq!(DataConverter::decode("000748FF", DataFormat::Hex).unwrap(), data);
    assert_eq!(DataConverter::decode("AAdI/w==", DataFormat::Base64).unwrap(), data);
    assert_eq!(DataConverter::decode("né", DataFormat::Text).unwrap(), "né".as_bytes());
    assert_eq!(
        DataConverter::decode("00 070", DataFormat::Hex).unwrap_err().to_string(),
        "Encoding error: Hex decoding failed: Invalid character ' ' at position 2"
    );
    assert_eq!(
        DataConverter::decode("abc", DataFormat::Hex).unwrap_err().to_string(),
        "Encoding error: Hex decoding failed: Odd number of digits"
    );
    assert_eq!(
        DataConverter::decode("AAdI_w", DataFormat::Base64).unwrap_err().to_string(),
        "Encoding error: Base64 decoding failed: Invalid symbol 95, offset 4."
    );
    assert_eq!(
        DataConverter::decode("[0, 7]", DataFormat::Binary).unwrap_err().to_string(),
        "Not implemented: Binary format decoding"
    );
}

#[test]
fn line_settings_and_port_names_are_validated() {
    for rate in [300u32, 600, 1200, 2400, 4800, 9600, 14400, 19200, 28800, 38400, 57600, 115200, 230400, 460800, 921600]
    {
        assert!(Validator::validate_baud_rate(rate).is_ok());
        assert!(Validator::validate_baud_rate(rate + 1).is_err());
    }
    assert_eq!(Validator::validate_baud_rate(0).unwrap_err().to_string(), "Invalid baud rate: 0");
    for bits in 0..=255u8 {
        assert_eq!(Validator::validate_data_bits(bits).is_ok(), (5..=8).contains(&bits));
    }
    assert_eq!(Validator::validate_data_bits(9).unwrap_err().to_string(), "Invalid data bits: 9");
    for word in ["one", "ONE", "1", "two", "Two", "2"] {
        assert!(Validator::validate_stop_bits(word).is_ok());
    }
    assert_eq!(Validator::validate_stop_bits("1.5").unwrap_err().to_string(), "Invalid stop bits: 1.5");
    for word in ["none", "NONE", "Even", "odd"] {
        assert!(Validator::validate_parity(word).is_ok());
    }
    assert_eq!(Validator::validate_parity("Mark").unwrap_err().to_string(), "Invalid parity: Mark");
    for word in ["none", "Software", "HARDWARE"] {
        assert!(Validator::validate_flow_control(word).is_ok());
    }
    assert_eq!(Validator::validate_flow_control("").unwrap_err().to_string(), "Invalid flow control: ");
    assert!(Validator::validate_port_name("COM1").is_ok());
    assert!(Validator::validate_port_name(&"x".repeat(255)).is_ok());
    assert_eq!(
        Validator::validate_port_name("").unwrap_err().to_string(),
        "Invalid configuration: Port name cannot be empty"
    );
    assert_eq!(
        Validator::validate_port_name(&"x".repeat(256)).unwrap_err().to_string(),
        "Invalid configuration: Port name too long"
    );
    // The limit counts bytes: 128 two-byte characters are too long.
    assert!(Validator::validate_port_name(&"é".repeat(127)).is_ok());
    assert!(Validator::validate_port_name(&"é".repeat(128)).is_err());
}
