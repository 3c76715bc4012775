//! Helpers of the server: validation of line settings, identifiers, data
//! formats and the kinds of port.

use crate::encoding::{
    base64_decode_standard, base64_encode, base64_len, base64_standard_decoding, base64_text, hex_decodable,
    hex_decode, hex_decode_error, hex_decoded, hex_encode, hex_text, lemma_hex_round_trip, text_from_utf8,
    utf8_error_text,
};
use crate::encoding::hex_value;
use crate::error::{Result, SerialError, SerialErrorView};
use crate::text::{chars_of, hex_u32_text, push_char, push_hex_u32};
use crate::ident::{is_uuid_text, new_uuid_text};
use crate::model::result_view;
use crate::serial::connection::{FlowControl, Parity, StopBits};
use crate::text::{
    contains, contains_text, decimal_text, hex_byte_text, labelled, lowercase_of, push_decimal, push_hex_byte,
    same_text, to_lowercase,
};
use vstd::prelude::*;
use vstd::slice::slice_to_vec;
use vstd::string::*;
use vstd::utf8::{decode_utf8, encode_utf8, valid_utf8};

verus! {

/// The baud rates that the server accepts for a session.
pub open spec fn is_standard_baud_rate(baud_rate: u32) -> bool {
    ||| baud_rate == 300
    ||| baud_rate == 600
    ||| baud_rate == 1200
    ||| baud_rate == 2400
    ||| baud_rate == 4800
    ||| baud_rate == 9600
    ||| baud_rate == 14400
    ||| baud_rate == 19200
    ||| baud_rate == 28800
    ||| baud_rate == 38400
    ||| baud_rate == 57600
    ||| baud_rate == 115200
    ||| baud_rate == 230400
    ||| baud_rate == 460800
    ||| baud_rate == 921600
}

/// Whether `baud_rate` is one of the rates that the server accepts.
pub fn standard_baud_rate(baud_rate: u32) -> (r: bool)
    ensures
        r == is_standard_baud_rate(baud_rate),
{
    baud_rate == 300 || baud_rate == 600 || baud_rate == 1200 || baud_rate == 2400 || baud_rate == 4800
        || baud_rate == 9600 || baud_rate == 14400 || baud_rate == 19200 || baud_rate == 28800 || baud_rate
        == 38400 || baud_rate == 57600 || baud_rate == 115200 || baud_rate == 230400 || baud_rate == 460800
        || baud_rate == 921600
}

/// The longest port name, in bytes of UTF-8.
pub const MAX_PORT_NAME_LEN: usize = 255;

/// What `validate_port_name` returns for a name.
pub open spec fn port_name_checked(port_name: Seq<char>) -> core::result::Result<(), SerialErrorView> {
    if port_name.len() == 0 {
        Err(SerialErrorView::InvalidConfig("Port name cannot be empty"@))
    } else if vstd::utf8::encode_utf8(port_name).len() > MAX_PORT_NAME_LEN {
        Err(SerialErrorView::InvalidConfig("Port name too long"@))
    } else {
        Ok(())
    }
}

/// Checks of line settings and port names.
pub struct Validator;

impl Validator {
    /// Accepts the standard baud rates from 300 to 921600.
    pub fn validate_baud_rate(baud_rate: u32) -> (r: Result<()>)
        ensures
            result_view(r) == if is_standard_baud_rate(baud_rate) {
                Ok::<(), SerialErrorView>(())
            } else {
                Err::<(), SerialErrorView>(SerialErrorView::InvalidBaudRate(baud_rate))
            },
    {
        if standard_baud_rate(baud_rate) {
            Ok(())
        } else {
            Err(SerialError::InvalidBaudRate(baud_rate))
        }
    }

    /// Accepts five to eight data bits.
    pub fn validate_data_bits(data_bits: u8) -> (r: Result<()>)
        ensures
            result_view(r) == if 5 <= data_bits <= 8 {
                Ok::<(), SerialErrorView>(())
            } else {
                Err::<(), SerialErrorView>(SerialErrorView::InvalidDataBits(data_bits))
            },
    {
        if 5 <= data_bits && data_bits <= 8 {
            Ok(())
        } else {
            Err(SerialError::InvalidDataBits(data_bits))
        }
    }

    /// Accepts, in any case of letters, the words that name a number of stop bits.
    pub fn validate_stop_bits(stop_bits: &str) -> (r: Result<()>)
        ensures
            result_view(r) == if StopBits::of_word(lowercase_of(stop_bits@)) is Some {
                Ok::<(), SerialErrorView>(())
            } else {
                Err::<(), SerialErrorView>(SerialErrorView::InvalidStopBits(stop_bits@))
            },
    {
        match StopBits::from_word(to_lowercase(stop_bits).as_str()) {
            Some(_) => Ok(()),
            None => Err(SerialError::InvalidStopBits(String::from_str(stop_bits))),
        }
    }

    /// Accepts, in any case of letters, the words that name a parity.
    pub fn validate_parity(parity: &str) -> (r: Result<()>)
        ensures
            result_view(r) == if Parity::of_word(lowercase_of(parity@)) is Some {
                Ok::<(), SerialErrorView>(())
            } else {
                Err::<(), SerialErrorView>(SerialErrorView::InvalidParity(parity@))
            },
    {
        match Parity::from_word(to_lowercase(parity).as_str()) {
            Some(_) => Ok(()),
            None => Err(SerialError::InvalidParity(String::from_str(parity))),
        }
    }

    /// Accepts, in any case of letters, the words that name a flow control.
    pub fn validate_flow_control(flow_control: &str) -> (r: Result<()>)
        ensures
            result_view(r) == if FlowControl::of_word(lowercase_of(flow_control@)) is Some {
                Ok::<(), SerialErrorView>(())
            } else {
                Err::<(), SerialErrorView>(SerialErrorView::InvalidFlowControl(flow_control@))
            },
    {
        match FlowControl::from_word(to_lowercase(flow_control).as_str()) {
            Some(_) => Ok(()),
            None => Err(SerialError::InvalidFlowControl(String::from_str(flow_control))),
        }
    }

    /// Accepts a port name that is not empty and takes at most 255 bytes.
    pub fn validate_port_name(port_name: &str) -> (r: Result<()>)
        ensures
            result_view(r) == port_name_checked(port_name@),
    {
        if port_name.is_empty() {
            return Err(SerialError::InvalidConfig(String::from_str("Port name cannot be empty")));
        }
        if port_name.as_bytes().len() > MAX_PORT_NAME_LEN {
            return Err(SerialError::InvalidConfig(String::from_str("Port name too long")));
        }
        Ok(())
    }
}

/// The session identifier made of a UUID in its usual text form:
/// `serial_session_` and the first sixteen hexadecimal digits of the UUID.
pub open spec fn session_id_of(uuid: Seq<char>) -> Seq<char> {
    "serial_session_"@ + uuid.subrange(0, 8) + uuid.subrange(9, 13) + uuid.subrange(14, 18)
}

/// Makes identifiers for sessions and connections.
pub struct SessionIdGenerator;

impl SessionIdGenerator {
    /// The session identifier made of `uuid`.
    pub fn from_uuid(uuid: &str) -> (r: String)
        requires
            is_uuid_text(uuid@),
        ensures
            r@ == session_id_of(uuid@),
    {
        let mut id = String::from_str("serial_session_");
        id.append(uuid.substring_char(0, 8));
        id.append(uuid.substring_char(9, 13));
        id.append(uuid.substring_char(14, 18));
        id
    }

    /// A fresh session identifier, made of a random UUID.
    pub fn generate() -> (r: String)
        ensures
            exists|uuid: Seq<char>| is_uuid_text(uuid) && r@ == #[trigger] session_id_of(uuid),
    {
        let uuid = new_uuid_text();
        Self::from_uuid(uuid.as_str())
    }
}

/// The kind of a serial port, as far as its name and description tell.
#[derive(Debug, Clone, Copy, PartialEq, Eq, Structural)]
pub enum PortType {
    /// A USB-to-serial adapter.
    UsbSerial,
    /// A serial port of the machine itself.
    Native,
    /// A serial port over Bluetooth.
    Bluetooth,
    /// A serial port that no hardware stands behind.
    Virtual,
    /// Anything else.
    Unknown,
}

impl PortType {
    /// The kind that a name and a description tell, both in lowercase:
    /// `usb` in either makes a USB adapter; else `bluetooth` in either a
    /// Bluetooth port; else `tty` in the name a native port; else `virtual`
    /// or `loopback` in the description a virtual port.
    pub open spec fn of_lowercase(port_name: Seq<char>, description: Seq<char>) -> PortType {
        if contains_text(port_name, "usb"@) || contains_text(description, "usb"@) {
            PortType::UsbSerial
        } else if contains_text(port_name, "bluetooth"@) || contains_text(description, "bluetooth"@) {
            PortType::Bluetooth
        } else if contains_text(port_name, "tty"@) && !contains_text(port_name, "usb"@) {
            PortType::Native
        } else if contains_text(description, "virtual"@) || contains_text(description, "loopback"@) {
            PortType::Virtual
        } else {
            PortType::Unknown
        }
    }

    /// The kind that a name and a description tell, both in lowercase.
    pub fn from_lowercase(port_name: &str, description: &str) -> (r: PortType)
        ensures
            r == Self::of_lowercase(port_name@, description@),
    {
        if contains(port_name, "usb") || contains(description, "usb") {
            PortType::UsbSerial
        } else if contains(port_name, "bluetooth") || contains(description, "bluetooth") {
            PortType::Bluetooth
        } else if contains(port_name, "tty") && !contains(port_name, "usb") {
            PortType::Native
        } else if contains(description, "virtual") || contains(description, "loopback") {
            PortType::Virtual
        } else {
            PortType::Unknown
        }
    }

    /// The kind that a name and a description tell, in any case of letters.
    /// A missing description counts as an empty one.
    pub fn from_port_info(port_name: &str, description: Option<&str>) -> (r: PortType)
        ensures
            r == Self::of_lowercase(
                lowercase_of(port_name@),
                lowercase_of(
                    match description {
                        Some(text) => text@,
                        None => ""@,
                    },
                ),
            ),
    {
        let port_lower = to_lowercase(port_name);
        let desc_lower = match description {
            Some(text) => to_lowercase(text),
            None => to_lowercase(""),
        };
        Self::from_lowercase(port_lower.as_str(), desc_lower.as_str())
    }

    /// The name of the kind as it is shown.
    pub open spec fn text(self) -> Seq<char> {
        match self {
            PortType::UsbSerial => "USB Serial"@,
            PortType::Native => "Native Serial"@,
            PortType::Bluetooth => "Bluetooth Serial"@,
            PortType::Virtual => "Virtual Serial"@,
            PortType::Unknown => "Unknown"@,
        }
    }

    /// The name of the kind as it is shown.
    pub fn to_string(&self) -> (r: String)
        ensures
            r@ == self.text(),
    {
        match self {
            PortType::UsbSerial => String::from_str("USB Serial"),
            PortType::Native => String::from_str("Native Serial"),
            PortType::Bluetooth => String::from_str("Bluetooth Serial"),
            PortType::Virtual => String::from_str("Virtual Serial"),
            PortType::Unknown => String::from_str("Unknown"),
        }
    }
}

/// A format in which data is shown.
#[derive(Debug, Clone, Copy, PartialEq, Eq, Structural)]
pub enum DataFormat {
    /// Plain text in UTF-8.
    Text,
    /// Hexadecimal digits.
    Hex,
    /// Base64.
    Base64,
    /// The bytes as a list of numbers.
    Binary,
}

impl DataFormat {
    /// The format that a lowercase word names.
    pub open spec fn of_word(word: Seq<char>) -> Option<DataFormat> {
        if word == "text"@ || word == "utf8"@ || word == "string"@ {
            Some(DataFormat::Text)
        } else if word == "hex"@ || word == "hexadecimal"@ {
            Some(DataFormat::Hex)
        } else if word == "base64"@ || word == "b64"@ {
            Some(DataFormat::Base64)
        } else if word == "binary"@ || word == "bin"@ || word == "raw"@ {
            Some(DataFormat::Binary)
        } else {
            None
        }
    }

    /// The format that a lowercase word names.
    pub fn from_word(word: &str) -> (r: Option<DataFormat>)
        ensures
            r == Self::of_word(word@),
    {
        if same_text(word, "text") || same_text(word, "utf8") || same_text(word, "string") {
            Some(DataFormat::Text)
        } else if same_text(word, "hex") || same_text(word, "hexadecimal") {
            Some(DataFormat::Hex)
        } else if same_text(word, "base64") || same_text(word, "b64") {
            Some(DataFormat::Base64)
        } else if same_text(word, "binary") || same_text(word, "bin") || same_text(word, "raw") {
            Some(DataFormat::Binary)
        } else {
            None
        }
    }

    /// The format that a word names, in any case of letters.
    pub fn from_str(s: &str) -> (r: Result<DataFormat>)
        ensures
            match r {
                Ok(format) => Self::of_word(lowercase_of(s@)) == Some(format),
                Err(e) => Self::of_word(lowercase_of(s@)) is None && e@ == SerialErrorView::InvalidConfig(
                    "Unknown data format: "@ + s@,
                ),
            },
    {
        match Self::from_word(to_lowercase(s).as_str()) {
            Some(format) => Ok(format),
            None => Err(SerialError::InvalidConfig(labelled("Unknown data format: ", s))),
        }
    }

    /// The name of the format.
    pub open spec fn text(self) -> Seq<char> {
        match self {
            DataFormat::Text => "text"@,
            DataFormat::Hex => "hex"@,
            DataFormat::Base64 => "base64"@,
            DataFormat::Binary => "binary"@,
        }
    }

    /// The name of the format.
    pub fn to_string(&self) -> (r: String)
        ensures
            r@ == self.text(),
    {
        match self {
            DataFormat::Text => String::from_str("text"),
            DataFormat::Hex => String::from_str("hex"),
            DataFormat::Base64 => String::from_str("base64"),
            DataFormat::Binary => String::from_str("binary"),
        }
    }
}

/// The numbers of `bytes` in decimal, set apart by a comma and a space.
pub open spec fn number_list(bytes: Seq<u8>) -> Seq<char>
    decreases bytes.len(),
{
    if bytes.len() == 0 {
        Seq::empty()
    } else if bytes.len() == 1 {
        decimal_text(bytes[0] as nat)
    } else {
        number_list(bytes.drop_last()) + ", "@ + decimal_text(bytes.last() as nat)
    }
}

/// `bytes` shown in `format`: text by UTF-8, hexadecimal digits without
/// spaces, base64, or a list of numbers in square brackets.
pub open spec fn converted(bytes: Seq<u8>, format: DataFormat) -> core::result::Result<Seq<char>, SerialErrorView> {
    match format {
        DataFormat::Text => if valid_utf8(bytes) {
            Ok(decode_utf8(bytes))
        } else {
            Err(SerialErrorView::EncodingError("UTF-8 encoding failed: "@ + utf8_error_text(bytes)))
        },
        DataFormat::Hex => Ok(hex_text(bytes)),
        DataFormat::Base64 => Ok(base64_text(bytes)),
        DataFormat::Binary => Ok("["@ + number_list(bytes) + "]"@),
    }
}

/// The bytes that `text` shows in `format`. A list of numbers cannot be
/// read back.
pub open spec fn parsed(text: Seq<char>, format: DataFormat) -> core::result::Result<Seq<u8>, SerialErrorView> {
    match format {
        DataFormat::Text => Ok(encode_utf8(text)),
        DataFormat::Hex => if hex_decodable(text) {
            Ok(hex_decoded(text))
        } else {
            Err(SerialErrorView::EncodingError("Hex decoding failed: "@ + hex_decode_error(text)))
        },
        DataFormat::Base64 => match base64_standard_decoding(text) {
            Ok(bytes) => Ok(bytes),
            Err(message) => Err(SerialErrorView::EncodingError("Base64 decoding failed: "@ + message)),
        },
        DataFormat::Binary => Err(SerialErrorView::NotImplemented("Binary format decoding"@)),
    }
}

/// A result of bytes, each side by its view.
pub open spec fn bytes_result(r: Result<Vec<u8>>) -> core::result::Result<Seq<u8>, SerialErrorView> {
    match r {
        Ok(bytes) => Ok(bytes@),
        Err(e) => Err(e@),
    }
}

/// Shows data in a format and reads it back.
pub struct DataConverter;

impl DataConverter {
    /// Shows `data` in `format`.
    pub fn encode(data: &[u8], format: DataFormat) -> (r: Result<String>)
        requires
            format is Base64 ==> base64_len(data@.len()) <= usize::MAX,
        ensures
            result_view(r) == converted(data@, format),
    {
        match format {
            DataFormat::Text => match text_from_utf8(slice_to_vec(data)) {
                Ok(text) => Ok(text),
                Err(message) => Err(
                    SerialError::EncodingError(labelled("UTF-8 encoding failed: ", message.as_str())),
                ),
            },
            DataFormat::Hex => Ok(hex_encode(data)),
            DataFormat::Base64 => Ok(base64_encode(data)),
            DataFormat::Binary => {
                let mut out = String::from_str("[");
                let mut i: usize = 0;
                assert(data@.take(0) =~= Seq::<u8>::empty());
                while i < data.len()
                    invariant
                        i <= data.len(),
                        out@ == "["@ + number_list(data@.take(i as int)),
                    decreases data.len() - i,
                {
                    let ghost before = out@;
                    proof {
                        assert(data@.take(i + 1).drop_last() =~= data@.take(i as int));
                        assert(data@.take(i + 1).last() == data@[i as int]);
                        assert(data@.take(i + 1)[0] == data@[0]);
                    }
                    if i > 0 {
                        out.append(", ");
                    }
                    push_decimal(&mut out, data[i] as u64);
                    proof {
                        let number = decimal_text(data@[i as int] as nat);
                        if i > 0 {
                            assert(out@ =~= "["@ + (number_list(data@.take(i as int)) + ", "@ + number));
                        } else {
                            assert(number_list(data@.take(0)) =~= Seq::<char>::empty());
                            assert(out@ =~= "["@ + number);
                        }
                    }
                    i += 1;
                }
                assert(data@.take(data.len() as int) =~= data@);
                out.append("]");
                Ok(out)
            },
        }
    }

    /// Reads back the bytes that `data` shows in `format`. Text, hexadecimal
    /// digits and base64 that `encode` wrote give their bytes back.
    pub fn decode(data: &str, format: DataFormat) -> (r: Result<Vec<u8>>)
        ensures
            bytes_result(r) == parsed(data@, format),
            forall|bytes: Seq<u8>|
                !(format is Binary) && #[trigger] converted(bytes, format) == Ok::<Seq<char>, SerialErrorView>(
                    data@,
                ) ==> bytes_result(r) == Ok::<Seq<u8>, SerialErrorView>(bytes),
    {
        let r = match format {
            DataFormat::Text => Ok(data.as_bytes_vec()),
            DataFormat::Hex => match hex_decode(data) {
                Ok(bytes) => Ok(bytes),
                Err(message) => Err(SerialError::EncodingError(labelled("Hex decoding failed: ", message.as_str()))),
            },
            DataFormat::Base64 => match base64_decode_standard(data) {
                Ok(bytes) => Ok(bytes),
                Err(message) => Err(
                    SerialError::EncodingError(labelled("Base64 decoding failed: ", message.as_str())),
                ),
            },
            DataFormat::Binary => Err(SerialError::NotImplemented(String::from_str("Binary format decoding"))),
        };
        proof {
            assert forall|bytes: Seq<u8>|
                !(format is Binary) && #[trigger] converted(bytes, format) == Ok::<Seq<char>, SerialErrorView>(
                    data@,
                ) implies bytes_result(r) == Ok::<Seq<u8>, SerialErrorView>(bytes) by {
                match format {
                    DataFormat::Text => {
                        vstd::utf8::decode_utf8_encode_utf8(bytes);
                    },
                    DataFormat::Hex => {
                        lemma_hex_round_trip(bytes);
                    },
                    DataFormat::Base64 => {
                        assert(data@ == base64_text(bytes));
                    },
                    DataFormat::Binary => {},
                }
            }
        }
        r
    }
}

/// `c` is a control character: below U+0020, or from U+007F to U+009F.
pub open spec fn is_control_char(c: char) -> bool {
    c as u32 <= 0x1f || (0x7f <= c as u32 && c as u32 <= 0x9f)
}

/// Whether `c` is a control character.
pub fn is_control(c: char) -> (r: bool)
    ensures
        r == is_control_char(c),
{
    let code: u32 = c as u32;
    code <= 0x1f || (0x7f <= code && code <= 0x9f)
}

/// How `escape_string` writes one character: line feed, carriage return,
/// tab, the null character and the backslash by a backslash and a letter;
/// any other control character by `\x` and two hexadecimal digits; and
/// every other character as it is.
pub open spec fn escaped_char(c: char) -> Seq<char> {
    if c == '\n' {
        "\\n"@
    } else if c == '\r' {
        "\\r"@
    } else if c == '\t' {
        "\\t"@
    } else if c == '\0' {
        "\\0"@
    } else if c == '\\' {
        "\\\\"@
    } else if is_control_char(c) {
        "\\x"@ + hex_byte_text((c as u32) as u8)
    } else {
        seq![c]
    }
}

/// `text` with each character written as `escape_string` writes it.
pub open spec fn escaped(text: Seq<char>) -> Seq<char>
    decreases text.len(),
{
    if text.len() == 0 {
        Seq::empty()
    } else {
        escaped(text.drop_last()) + escaped_char(text.last())
    }
}

/// The number of bytes that `c` takes in UTF-8.
pub open spec fn utf8_width(c: char) -> nat {
    if (c as u32) < 0x80 {
        1
    } else if (c as u32) < 0x800 {
        2
    } else if (c as u32) < 0x10000 {
        3
    } else {
        4
    }
}

/// The number of bytes that a text of at most two characters takes in UTF-8.
pub open spec fn short_width(text: Seq<char>) -> nat {
    if text.len() == 0 {
        0
    } else if text.len() == 1 {
        utf8_width(text[0])
    } else {
        utf8_width(text[0]) + utf8_width(text[1])
    }
}

/// The byte that a text of two bytes stands for as a hexadecimal numeral:
/// two hexadecimal digits, or a plus sign and one digit.
pub open spec fn hex_pair_value(text: Seq<char>) -> Option<u8> {
    if text.len() != 2 {
        None
    } else if text[0] == '+' {
        match hex_value(text[1]) {
            Some(low) => Some(low as u8),
            None => None,
        }
    } else {
        match (hex_value(text[0]), hex_value(text[1])) {
            (Some(high), Some(low)) => Some((16 * high + low) as u8),
            _ => None,
        }
    }
}

/// `head` in front of the text of a success; a failure stays as it is.
pub open spec fn prepend(head: Seq<char>, rest: core::result::Result<Seq<char>, SerialErrorView>) -> core::result::Result<
    Seq<char>,
    SerialErrorView,
> {
    match rest {
        Ok(text) => Ok(head + text),
        Err(e) => Err(e),
    }
}

/// What `unescape_string` makes of `text` from position `from` on. A
/// backslash with `n`, `r`, `t`, `0` or a backslash stands for the
/// character that `escape_string` writes so; a backslash with `x` takes the
/// next two characters, which must take two bytes and be a hexadecimal
/// numeral, and stands for the character of that number. The first escape
/// that is cut short or unknown is the failure.
pub open spec fn unescaped_from(text: Seq<char>, from: int) -> core::result::Result<Seq<char>, SerialErrorView>
    decreases text.len() - from,
{
    if from < 0 || from >= text.len() {
        Ok(Seq::empty())
    } else if text[from] != '\\' {
        prepend(seq![text[from]], unescaped_from(text, from + 1))
    } else if from + 1 >= text.len() {
        Err(SerialErrorView::EncodingError("Incomplete escape sequence"@))
    } else {
        let c = text[from + 1];
        if c == 'n' {
            prepend(seq!['\n'], unescaped_from(text, from + 2))
        } else if c == 'r' {
            prepend(seq!['\r'], unescaped_from(text, from + 2))
        } else if c == 't' {
            prepend(seq!['\t'], unescaped_from(text, from + 2))
        } else if c == '0' {
            prepend(seq!['\0'], unescaped_from(text, from + 2))
        } else if c == '\\' {
            prepend(seq!['\\'], unescaped_from(text, from + 2))
        } else if c == 'x' {
            let end = if from + 4 <= text.len() {
                from + 4
            } else {
                text.len() as int
            };
            let digits = text.subrange(from + 2, end);
            if short_width(digits) == 2 {
                match hex_pair_value(digits) {
                    Some(byte) => prepend(seq![byte as char], unescaped_from(text, end)),
                    None => Err(SerialErrorView::EncodingError("Invalid hex escape: \\x"@ + digits)),
                }
            } else {
                Err(SerialErrorView::EncodingError("Incomplete hex escape"@))
            }
        } else {
            Err(SerialErrorView::EncodingError("Unknown escape sequence: \\"@ + seq![c]))
        }
    }
}

/// Putting two texts in front one after the other is putting both in front.
pub proof fn lemma_prepend_twice(
    first: Seq<char>,
    second: Seq<char>,
    rest: core::result::Result<Seq<char>, SerialErrorView>,
)
    ensures
        prepend(first, prepend(second, rest)) == prepend(first + second, rest),
{
    match rest {
        Ok(text) => {
            assert(first + (second + text) =~= (first + second) + text);
        },
        Err(_) => {},
    }
}

/// The value of a hexadecimal digit, in either case of letters.
pub fn hex_digit_value(c: char) -> (r: Option<u8>)
    ensures
        match r {
            Some(v) => hex_value(c) == Some(v as int) && v < 16,
            None => hex_value(c) is None,
        },
{
    let code: u32 = c as u32;
    if 48 <= code && code <= 57 {
        Some((code - 48) as u8)
    } else if 97 <= code && code <= 102 {
        Some((code - 97 + 10) as u8)
    } else if 65 <= code && code <= 70 {
        Some((code - 65 + 10) as u8)
    } else {
        None
    }
}

fn width_of(c: char) -> (r: usize)
    ensures
        r == utf8_width(c),
{
    let code: u32 = c as u32;
    if code < 0x80 {
        1
    } else if code < 0x800 {
        2
    } else if code < 0x10000 {
        3
    } else {
        4
    }
}

fn pair_value(first: char, second: char) -> (r: Option<u8>)
    ensures
        r == hex_pair_value(seq![first, second]),
{
    if first == '+' {
        match hex_digit_value(second) {
            Some(low) => Some(low),
            None => None,
        }
    } else {
        match hex_digit_value(first) {
            Some(high) => match hex_digit_value(second) {
                Some(low) => Some(16 * high + low),
                None => None,
            },
            None => None,
        }
    }
}

impl DataConverter {
    /// Writes the special characters of `data` so that they can be seen.
    pub fn escape_string(data: &str) -> (r: String)
        ensures
            r@ == escaped(data@),
    {
        let chars = chars_of(data);
        let mut out = String::new();
        let mut i: usize = 0;
        assert(data@.take(0) =~= Seq::<char>::empty());
        while i < chars.len()
            invariant
                chars@ == data@,
                i <= chars.len(),
                out@ == escaped(data@.take(i as int)),
            decreases chars.len() - i,
        {
            proof {
                assert(data@.take(i + 1).drop_last() =~= data@.take(i as int));
                assert(data@.take(i + 1).last() == data@[i as int]);
            }
            let c = chars[i];
            let ghost before = out@;
            if c == '\n' {
                out.append("\\n");
            } else if c == '\r' {
                out.append("\\r");
            } else if c == '\t' {
                out.append("\\t");
            } else if c == '\0' {
                out.append("\\0");
            } else if c == '\\' {
                out.append("\\\\");
            } else if is_control(c) {
                let code: u32 = c as u32;
                out.append("\\x");
                push_hex_byte(&mut out, code as u8);
            } else {
                push_char(&mut out, c);
            }
            assert(out@ =~= before + escaped_char(c));
            i += 1;
        }
        assert(data@.take(chars.len() as int) =~= data@);
        out
    }

    /// Reads back a text that `escape_string` wrote.
    pub fn unescape_string(data: &str) -> (r: Result<String>)
        ensures
            result_view(r) == unescaped_from(data@, 0),
    {
        let chars = chars_of(data);
        let n: usize = chars.len();
        let mut out = String::new();
        let mut i: usize = 0;
        while i < n
            invariant
                chars@ == data@,
                n == chars.len(),
                i <= n,
                unescaped_from(data@, 0) == prepend(out@, unescaped_from(data@, i as int)),
            decreases n - i,
        {
            let c = chars[i];
            let ghost before = out@;
            let ghost rest = unescaped_from(data@, i as int);
            if c != '\\' {
                push_char(&mut out, c);
                proof {
                    lemma_prepend_twice(before, seq![c], unescaped_from(data@, i + 1));
                    assert(out@ =~= before + seq![c]);
                }
                i += 1;
            } else if i + 1 >= n {
                return Err(SerialError::EncodingError(String::from_str("Incomplete escape sequence")));
            } else {
                let e = chars[i + 1];
                if e == 'n' || e == 'r' || e == 't' || e == '0' || e == '\\' {
                    let plain = if e == 'n' {
                        '\n'
                    } else if e == 'r' {
                        '\r'
                    } else if e == 't' {
                        '\t'
                    } else if e == '0' {
                        '\0'
                    } else {
                        '\\'
                    };
                    push_char(&mut out, plain);
                    proof {
                        lemma_prepend_twice(before, seq![plain], unescaped_from(data@, i + 2));
                        assert(out@ =~= before + seq![plain]);
                    }
                    i += 2;
                } else if e == 'x' {
                    let two = n - i >= 4;
                    let one = n - i == 3;
                    let end: usize = if two {
                        i + 4
                    } else {
                        n
                    };
                    let ghost digits = data@.subrange(i + 2, end as int);
                    if two && width_of(chars[i + 2]) + width_of(chars[i + 3]) == 2 {
                        assert(digits =~= seq![chars@[i + 2], chars@[i + 3]]);
                        match pair_value(chars[i + 2], chars[i + 3]) {
                            Some(byte) => {
                                push_char(&mut out, byte as char);
                                proof {
                                    lemma_prepend_twice(before, seq![byte as char], unescaped_from(data@, end as int));
                                    assert(out@ =~= before + seq![byte as char]);
                                }
                                i = end;
                            },
                            None => {
                                let mut message = String::from_str("Invalid hex escape: \\x");
                                push_char(&mut message, chars[i + 2]);
                                push_char(&mut message, chars[i + 3]);
                                assert(message@ =~= "Invalid hex escape: \\x"@ + digits);
                                return Err(SerialError::EncodingError(message));
                            },
                        }
                    } else if one && width_of(chars[i + 2]) == 2 {
                        assert(digits =~= seq![chars@[i + 2]]);
                        let mut message = String::from_str("Invalid hex escape: \\x");
                        push_char(&mut message, chars[i + 2]);
                        assert(message@ =~= "Invalid hex escape: \\x"@ + digits);
                        return Err(SerialError::EncodingError(message));
                    } else {
                        proof {
                            if two {
                                assert(digits =~= seq![chars@[i + 2], chars@[i + 3]]);
                            } else if one {
                                assert(digits =~= seq![chars@[i + 2]]);
                            } else {
                                assert(digits =~= Seq::<char>::empty());
                            }
                        }
                        return Err(SerialError::EncodingError(String::from_str("Incomplete hex escape")));
                    }
                } else {
                    let mut message = String::from_str("Unknown escape sequence: \\");
                    push_char(&mut message, e);
                    assert(message@ =~= "Unknown escape sequence: \\"@ + seq![e]);
                    return Err(SerialError::EncodingError(message));
                }
            }
        }
        assert(out@ + Seq::<char>::empty() =~= out@);
        Ok(out)
    }
}

/// Reads the system clock: `SystemTime::now().duration_since(UNIX_EPOCH)`,
/// as whole seconds and the nanoseconds of the second begun, or nothing for
/// a clock that stands before the Unix epoch. Which time comes is left open;
/// a `Duration` keeps its nanoseconds below one thousand million.
#[verifier::external_body]
fn since_epoch() -> (r: Option<(u64, u32)>)
    ensures
        r matches Some(elapsed) ==> elapsed.1 < 1_000_000_000,
{
    match std::time::SystemTime::now().duration_since(std::time::UNIX_EPOCH) {
        Ok(elapsed) => Some((elapsed.as_secs(), elapsed.subsec_nanos())),
        Err(_) => None,
    }
}

/// A number in decimal, with zeros in front up to three digits.
pub open spec fn padded3_text(n: nat) -> Seq<char> {
    if n < 10 {
        "00"@ + decimal_text(n)
    } else if n < 100 {
        "0"@ + decimal_text(n)
    } else {
        decimal_text(n)
    }
}

/// A duration of `total_secs` seconds and `millis` milliseconds as it is
/// shown: in hours, minutes and seconds from an hour on; in minutes and
/// seconds from a minute on; in seconds with three decimals from a second
/// on; and in milliseconds below a second.
pub open spec fn duration_text(total_secs: u64, millis: u32) -> Seq<char> {
    if total_secs >= 3600 {
        decimal_text((total_secs / 3600) as nat) + "h "@ + decimal_text((total_secs % 3600 / 60) as nat) + "m "@
            + decimal_text((total_secs % 60) as nat) + "s"@
    } else if total_secs >= 60 {
        decimal_text((total_secs / 60) as nat) + "m "@ + decimal_text((total_secs % 60) as nat) + "s"@
    } else if total_secs > 0 {
        decimal_text(total_secs as nat) + "."@ + padded3_text(millis as nat) + "s"@
    } else {
        decimal_text(millis as nat) + "ms"@
    }
}

/// What the system clock can show: whole seconds since the Unix epoch with
/// the nanoseconds of the second begun, which stay below one thousand
/// million; or nothing, for a clock that stands before the epoch.
pub open spec fn is_clock_reading(reading: Option<(u64, u32)>) -> bool {
    reading matches Some(elapsed) ==> elapsed.1 < 1_000_000_000
}

/// The milliseconds since the Unix epoch that a reading of the clock
/// stands for: a thousand for each second and one for each million
/// nanoseconds, taken modulo 2^64; zero for a clock before the epoch.
pub open spec fn epoch_millis(reading: Option<(u64, u32)>) -> u64 {
    match reading {
        Some((secs, nanos)) => ((secs * 1000 + nanos / 1_000_000) % 0x1_0000_0000_0000_0000) as u64,
        None => 0,
    }
}

/// The whole seconds since the Unix epoch that a reading of the clock
/// stands for; zero for a clock before the epoch.
pub open spec fn epoch_seconds(reading: Option<(u64, u32)>) -> u64 {
    match reading {
        Some((secs, _)) => secs,
        None => 0,
    }
}

/// The time of the system clock, and how a duration is shown.
pub struct TimeUtils;

impl TimeUtils {
    /// Milliseconds since the Unix epoch, by the system clock: what
    /// [`Self::millis_of`] makes of one reading of the clock.
    pub fn now_millis() -> (r: u64)
        ensures
            exists|reading: Option<(u64, u32)>| is_clock_reading(reading) && r == #[trigger] epoch_millis(reading),
    {
        let reading = since_epoch();
        Self::millis_of(reading)
    }

    /// Seconds since the Unix epoch, by the system clock: what
    /// [`Self::seconds_of`] makes of one reading of the clock.
    pub fn now_seconds() -> (r: u64)
        ensures
            exists|reading: Option<(u64, u32)>| is_clock_reading(reading) && r == #[trigger] epoch_seconds(reading),
    {
        let reading = since_epoch();
        Self::seconds_of(reading)
    }

    /// The milliseconds since the Unix epoch that a reading of the clock
    /// stands for.
    pub fn millis_of(reading: Option<(u64, u32)>) -> (r: u64)
        ensures
            r == epoch_millis(reading),
    {
        match reading {
            Some((secs, nanos)) => {
                let millis: u128 = secs as u128 * 1000 + (nanos / 1_000_000) as u128;
                (millis % 0x1_0000_0000_0000_0000) as u64
            },
            None => 0,
        }
    }

    /// The whole seconds since the Unix epoch that a reading of the clock
    /// stands for.
    pub fn seconds_of(reading: Option<(u64, u32)>) -> (r: u64)
        ensures
            r == epoch_seconds(reading),
    {
        match reading {
            Some((secs, _)) => secs,
            None => 0,
        }
    }

    /// Shows a duration of `total_secs` whole seconds and `millis`
    /// milliseconds of the second begun.
    pub fn format_duration(total_secs: u64, millis: u32) -> (r: String)
        ensures
            r@ == duration_text(total_secs, millis),
    {
        let mut out = String::new();
        if total_secs >= 3600 {
            push_decimal(&mut out, total_secs / 3600);
            out.append("h ");
            push_decimal(&mut out, total_secs % 3600 / 60);
            out.append("m ");
            push_decimal(&mut out, total_secs % 60);
            out.append("s");
        } else if total_secs >= 60 {
            push_decimal(&mut out, total_secs / 60);
            out.append("m ");
            push_decimal(&mut out, total_secs % 60);
            out.append("s");
        } else if total_secs > 0 {
            push_decimal(&mut out, total_secs);
            out.append(".");
            if millis < 10 {
                out.append("00");
            } else if millis < 100 {
                out.append("0");
            }
            push_decimal(&mut out, millis as u64);
            out.append("s");
        } else {
            push_decimal(&mut out, millis as u64);
            out.append("ms");
        }
        assert(out@ =~= duration_text(total_secs, millis));
        out
    }
}

/// The sum of the code points of `text`.
pub open spec fn code_sum(text: Seq<char>) -> nat
    decreases text.len(),
{
    if text.len() == 0 {
        0
    } else {
        code_sum(text.drop_last()) + text.last() as u32 as nat
    }
}

/// The connection identifier made of a port name and a time in
/// milliseconds: `conn_`, the time in decimal, an underscore, and the sum
/// of the code points of the name, taken modulo 2^32, as eight
/// hexadecimal digits.
pub open spec fn connection_id_of(port_name: Seq<char>, timestamp: u64) -> Seq<char> {
    "conn_"@ + decimal_text(timestamp as nat) + "_"@ + hex_u32_text((code_sum(port_name) % 0x1_0000_0000) as u32)
}

impl SessionIdGenerator {
    /// The connection identifier made of `port_name` and the time `timestamp`.
    pub fn connection_id_at(port_name: &str, timestamp: u64) -> (r: String)
        ensures
            r@ == connection_id_of(port_name@, timestamp),
    {
        let chars = chars_of(port_name);
        let mut hash: u32 = 0;
        let mut i: usize = 0;
        assert(port_name@.take(0) =~= Seq::<char>::empty());
        while i < chars.len()
            invariant
                chars@ == port_name@,
                i <= chars.len(),
                hash == code_sum(port_name@.take(i as int)) % 0x1_0000_0000,
            decreases chars.len() - i,
        {
            proof {
                assert(port_name@.take(i + 1).drop_last() =~= port_name@.take(i as int));
                assert(port_name@.take(i + 1).last() == port_name@[i as int]);
            }
            hash = hash.wrapping_add(chars[i] as u32);
            i += 1;
        }
        assert(port_name@.take(chars.len() as int) =~= port_name@);
        let mut id = String::from_str("conn_");
        push_decimal(&mut id, timestamp);
        id.append("_");
        push_hex_u32(&mut id, hash);
        id
    }

    /// A connection identifier made of `port_name` and the present time.
    pub fn generate_connection_id(port_name: &str) -> (r: String)
        ensures
            exists|timestamp: u64| r@ == #[trigger] connection_id_of(port_name@, timestamp),
    {
        let timestamp: u64 = TimeUtils::now_millis();
        Self::connection_id_at(port_name, timestamp)
    }
}

/// `pattern` stands in `buffer` at position `at`.
pub open spec fn found_at(buffer: Seq<u8>, pattern: Seq<u8>, at: int) -> bool {
    &&& 0 <= at
    &&& at + pattern.len() <= buffer.len()
    &&& buffer.subrange(at, at + pattern.len()) == pattern
}

/// The first position from `from` on at which `pattern` stands in
/// `buffer`, if there is one. An empty pattern stands nowhere.
pub open spec fn first_match(buffer: Seq<u8>, pattern: Seq<u8>, from: int) -> Option<int>
    decreases buffer.len() - from,
{
    if pattern.len() == 0 || from < 0 || from + pattern.len() > buffer.len() {
        None
    } else if found_at(buffer, pattern, from) {
        Some(from)
    } else {
        first_match(buffer, pattern, from + 1)
    }
}

/// A first match lies at or after the position the search began at, and
/// the pattern stands there.
pub proof fn lemma_first_match(buffer: Seq<u8>, pattern: Seq<u8>, from: int)
    ensures
        first_match(buffer, pattern, from) matches Some(at) ==> from <= at && found_at(buffer, pattern, at)
            && pattern.len() > 0,
    decreases buffer.len() - from,
{
    if pattern.len() == 0 || from < 0 || from + pattern.len() > buffer.len() {
    } else if found_at(buffer, pattern, from) {
    } else {
        lemma_first_match(buffer, pattern, from + 1);
    }
}

/// The pieces of `buffer` from `from` on between the places where
/// `delimiter`, which is not empty, stands; what follows the last
/// delimiter is a piece unless it is empty.
pub open spec fn pieces_from(buffer: Seq<u8>, delimiter: Seq<u8>, from: int) -> Seq<Seq<u8>>
    decreases buffer.len() - from,
{
    match first_match(buffer, delimiter, from) {
        Some(at) => if 0 <= from <= at && delimiter.len() > 0 && at + delimiter.len() <= buffer.len() {
            seq![buffer.subrange(from, at)] + pieces_from(buffer, delimiter, at + delimiter.len())
        } else {
            Seq::empty()
        },
        None => if 0 <= from < buffer.len() {
            seq![buffer.subrange(from, buffer.len() as int)]
        } else {
            Seq::empty()
        },
    }
}

/// The pieces that `split_by_delimiter` cuts `buffer` into: the whole
/// buffer for an empty delimiter.
pub open spec fn pieces(buffer: Seq<u8>, delimiter: Seq<u8>) -> Seq<Seq<u8>> {
    if delimiter.len() == 0 {
        seq![buffer]
    } else {
        pieces_from(buffer, delimiter, 0)
    }
}

/// The sum of `data`.
pub open spec fn byte_sum(data: Seq<u8>) -> nat
    decreases data.len(),
{
    if data.len() == 0 {
        0
    } else {
        byte_sum(data.drop_last()) + data.last() as nat
    }
}

/// The exclusive or of all of `data`.
pub open spec fn xor_all(data: Seq<u8>) -> u8
    decreases data.len(),
{
    if data.len() == 0 {
        0
    } else {
        xor_all(data.drop_last()) ^ data.last()
    }
}

/// A list of byte strings by the views of its elements.
pub open spec fn pieces_view(parts: Seq<Vec<u8>>) -> Seq<Seq<u8>> {
    parts.map_values(|part: Vec<u8>| part@)
}

/// Searching, cutting and summing up buffers of bytes.
pub struct BufferUtils;

impl BufferUtils {
    fn matches_at(buffer: &[u8], pattern: &[u8], at: usize) -> (r: bool)
        requires
            at + pattern@.len() <= buffer@.len(),
        ensures
            r == found_at(buffer@, pattern@, at as int),
    {
        let mut j: usize = 0;
        while j < pattern.len()
            invariant
                at + pattern@.len() <= buffer@.len(),
                j <= pattern.len(),
                forall|k: int| 0 <= k < j ==> buffer@[at + k] == pattern@[k],
            decreases pattern.len() - j,
        {
            assert(at + j < buffer.len());
            if buffer[at + j] != pattern[j] {
                assert(buffer@.subrange(at as int, at + pattern@.len())[j as int] != pattern@[j as int]);
                return false;
            }
            j += 1;
        }
        assert(buffer@.subrange(at as int, at + pattern@.len()) =~= pattern@);
        true
    }

    /// The first position from `from` on at which `pattern` stands in `buffer`.
    pub fn find_pattern_from(buffer: &[u8], pattern: &[u8], from: usize) -> (r: Option<usize>)
        ensures
            match r {
                Some(at) => first_match(buffer@, pattern@, from as int) == Some(at as int),
                None => first_match(buffer@, pattern@, from as int) is None,
            },
    {
        if pattern.len() == 0 || buffer.len() < pattern.len() || from > buffer.len() - pattern.len() {
            return None;
        }
        let last: usize = buffer.len() - pattern.len();
        let mut at: usize = from;
        while at <= last
            invariant
                pattern@.len() > 0,
                last == buffer@.len() - pattern@.len(),
                from <= at <= last,
                first_match(buffer@, pattern@, from as int) == first_match(buffer@, pattern@, at as int),
            decreases last - at,
        {
            if Self::matches_at(buffer, pattern, at) {
                return Some(at);
            }
            if at == last {
                assert(first_match(buffer@, pattern@, at + 1) is None);
                return None;
            }
            at += 1;
        }
        None
    }

    /// The first position at which `pattern` stands in `buffer`. An empty
    /// pattern stands nowhere.
    pub fn find_pattern(buffer: &[u8], pattern: &[u8]) -> (r: Option<usize>)
        ensures
            match r {
                Some(at) => first_match(buffer@, pattern@, 0) == Some(at as int),
                None => first_match(buffer@, pattern@, 0) is None,
            },
    {
        Self::find_pattern_from(buffer, pattern, 0)
    }

    fn copy_range(buffer: &[u8], from: usize, to: usize) -> (r: Vec<u8>)
        requires
            from <= to <= buffer@.len(),
        ensures
            r@ == buffer@.subrange(from as int, to as int),
    {
        let mut out: Vec<u8> = Vec::new();
        let mut i: usize = from;
        while i < to
            invariant
                from <= i <= to,
                to <= buffer@.len(),
                out@ == buffer@.subrange(from as int, i as int),
            decreases to - i,
        {
            out.push(buffer[i]);
            assert(out@ =~= buffer@.subrange(from as int, i + 1));
            i += 1;
        }
        out
    }

    /// Cuts `buffer` at every place where `delimiter` stands.
    pub fn split_by_delimiter(buffer: &[u8], delimiter: &[u8]) -> (r: Vec<Vec<u8>>)
        ensures
            pieces_view(r@) == pieces(buffer@, delimiter@),
    {
        let mut result: Vec<Vec<u8>> = Vec::new();
        if delimiter.len() == 0 {
            result.push(Self::copy_range(buffer, 0, buffer.len()));
            assert(buffer@.subrange(0, buffer@.len() as int) =~= buffer@);
            assert(pieces_view(result@) =~= seq![buffer@]);
            return result;
        }
        let mut start: usize = 0;
        assert(pieces_view(result@) =~= Seq::<Seq<u8>>::empty());
        loop
            invariant_except_break
                delimiter@.len() > 0,
                start <= buffer@.len(),
                pieces(buffer@, delimiter@) == pieces_view(result@) + pieces_from(buffer@, delimiter@, start as int),
            ensures
                pieces_view(result@) == pieces(buffer@, delimiter@),
            decreases buffer@.len() - start,
        {
            let ghost before = pieces_view(result@);
            proof {
                lemma_first_match(buffer@, delimiter@, start as int);
            }
            match Self::find_pattern_from(buffer, delimiter, start) {
                Some(at) => {
                    result.push(Self::copy_range(buffer, start, at));
                    proof {
                        let piece = buffer@.subrange(start as int, at as int);
                        assert(pieces_view(result@) =~= before + seq![piece]);
                        assert(before + (seq![piece] + pieces_from(buffer@, delimiter@, at + delimiter@.len()))
                            =~= (before + seq![piece]) + pieces_from(buffer@, delimiter@, at + delimiter@.len()));
                    }
                    assert(at + delimiter.len() <= buffer.len());
                    start = at + delimiter.len();
                },
                None => {
                    if start < buffer.len() {
                        result.push(Self::copy_range(buffer, start, buffer.len()));
                        assert(pieces_view(result@) =~= before + seq![
                            buffer@.subrange(start as int, buffer@.len() as int),
                        ]);
                    } else {
                        assert(before + Seq::<Seq<u8>>::empty() =~= before);
                    }
                    break ;
                },
            }
        }
        result
    }

    /// The sum of `data` modulo 256.
    pub fn checksum_sum(data: &[u8]) -> (r: u8)
        ensures
            r == byte_sum(data@) % 256,
    {
        let mut sum: u8 = 0;
        let mut i: usize = 0;
        assert(data@.take(0) =~= Seq::<u8>::empty());
        while i < data.len()
            invariant
                i <= data.len(),
                sum == byte_sum(data@.take(i as int)) % 256,
            decreases data.len() - i,
        {
            proof {
                assert(data@.take(i + 1).drop_last() =~= data@.take(i as int));
                assert(data@.take(i + 1).last() == data@[i as int]);
            }
            sum = sum.wrapping_add(data[i]);
            i += 1;
        }
        assert(data@.take(data.len() as int) =~= data@);
        sum
    }

    /// The exclusive or of all of `data`.
    pub fn checksum_xor(data: &[u8]) -> (r: u8)
        ensures
            r == xor_all(data@),
    {
        let mut acc: u8 = 0;
        let mut i: usize = 0;
        assert(data@.take(0) =~= Seq::<u8>::empty());
        while i < data.len()
            invariant
                i <= data.len(),
                acc == xor_all(data@.take(i as int)),
            decreases data.len() - i,
        {
            proof {
                assert(data@.take(i + 1).drop_last() =~= data@.take(i as int));
                assert(data@.take(i + 1).last() == data@[i as int]);
            }
            acc = acc ^ data[i];
            i += 1;
        }
        assert(data@.take(data.len() as int) =~= data@);
        acc
    }
}

/// The table of the CRC-8 with the polynomial x^8 + x^2 + x + 1: entry `i`
/// is the remainder of the byte `i`.
pub const CRC8_TABLE: [u8; 256] = [
    0x00, 0x07, 0x0E, 0x09, 0x1C, 0x1B, 0x12, 0x15, 0x38, 0x3F, 0x36, 0x31, 0x24, 0x23, 0x2A, 0x2D,
    0x70, 0x77, 0x7E, 0x79, 0x6C, 0x6B, 0x62, 0x65, 0x48, 0x4F, 0x46, 0x41, 0x54, 0x53, 0x5A, 0x5D,
    0xE0, 0xE7, 0xEE, 0xE9, 0xFC, 0xFB, 0xF2, 0xF5, 0xD8, 0xDF, 0xD6, 0xD1, 0xC4, 0xC3, 0xCA, 0xCD,
    0x90, 0x97, 0x9E, 0x99, 0x8C, 0x8B, 0x82, 0x85, 0xA8, 0xAF, 0xA6, 0xA1, 0xB4, 0xB3, 0xBA, 0xBD,
    0xC7, 0xC0, 0xC9, 0xCE, 0xDB, 0xDC, 0xD5, 0xD2, 0xFF, 0xF8, 0xF1, 0xF6, 0xE3, 0xE4, 0xED, 0xEA,
    0xB7, 0xB0, 0xB9, 0xBE, 0xAB, 0xAC, 0xA5, 0xA2, 0x8F, 0x88, 0x81, 0x86, 0x93, 0x94, 0x9D, 0x9A,
    0x27, 0x20, 0x29, 0x2E, 0x3B, 0x3C, 0x35, 0x32, 0x1F, 0x18, 0x11, 0x16, 0x03, 0x04, 0x0D, 0x0A,
    0x57, 0x50, 0x59, 0x5E, 0x4B, 0x4C, 0x45, 0x42, 0x6F, 0x68, 0x61, 0x66, 0x73, 0x74, 0x7D, 0x7A,
    0x89, 0x8E, 0x87, 0x80, 0x95, 0x92, 0x9B, 0x9C, 0xB1, 0xB6, 0xBF, 0xB8, 0xAD, 0xAA, 0xA3, 0xA4,
    0xF9, 0xFE, 0xF7, 0xF0, 0xE5, 0xE2, 0xEB, 0xEC, 0xC1, 0xC6, 0xCF, 0xC8, 0xDD, 0xDA, 0xD3, 0xD4,
    0x69, 0x6E, 0x67, 0x60, 0x75, 0x72, 0x7B, 0x7C, 0x51, 0x56, 0x5F, 0x58, 0x4D, 0x4A, 0x43, 0x44,
    0x19, 0x1E, 0x17, 0x10, 0x05, 0x02, 0x0B, 0x0C, 0x21, 0x26, 0x2F, 0x28, 0x3D, 0x3A, 0x33, 0x34,
    0x4E, 0x49, 0x40, 0x47, 0x52, 0x55, 0x5C, 0x5B, 0x76, 0x71, 0x78, 0x7F, 0x6A, 0x6D, 0x64, 0x63,
    0x3E, 0x39, 0x30, 0x37, 0x22, 0x25, 0x2C, 0x2B, 0x06, 0x01, 0x08, 0x0F, 0x1A, 0x1D, 0x14, 0x13,
    0xAE, 0xA9, 0xA0, 0xA7, 0xB2, 0xB5, 0xBC, 0xBB, 0x96, 0x91, 0x98, 0x9F, 0x8A, 0x8D, 0x84, 0x83,
    0xDE, 0xD9, 0xD0, 0xD7, 0xC2, 0xC5, 0xCC, 0xCB, 0xE6, 0xE1, 0xE8, 0xEF, 0xFA, 0xFD, 0xF4, 0xF3,
];

/// The CRC-8 of `data`, from the start value zero: each byte is folded
/// in by the exclusive or with the remainder so far, and the table gives the
/// next remainder.
pub open spec fn crc8_of(data: Seq<u8>) -> u8
    decreases data.len(),
{
    if data.len() == 0 {
        0
    } else {
        CRC8_TABLE[(crc8_of(data.drop_last()) ^ data.last()) as int]
    }
}

impl BufferUtils {
    /// The CRC-8 of `data` with the polynomial x^8 + x^2 + x + 1.
    pub fn crc8(data: &[u8]) -> (r: u8)
        ensures
            r == crc8_of(data@),
    {
        let mut crc: u8 = 0;
        let mut i: usize = 0;
        assert(data@.take(0) =~= Seq::<u8>::empty());
        while i < data.len()
            invariant
                i <= data.len(),
                crc == crc8_of(data@.take(i as int)),
            decreases data.len() - i,
        {
            proof {
                assert(data@.take(i + 1).drop_last() =~= data@.take(i as int));
                assert(data@.take(i + 1).last() == data@[i as int]);
            }
            crc = CRC8_TABLE[(crc ^ data[i]) as usize];
            i += 1;
        }
        assert(data@.take(data.len() as int) =~= data@);
        crc
    }
}

/// `c` is white space: the characters that Unicode gives the property
/// White_Space.
pub open spec fn is_whitespace_char(c: char) -> bool {
    let code = c as u32;
    ||| 0x09 <= code <= 0x0d
    ||| code == 0x20
    ||| code == 0x85
    ||| code == 0xa0
    ||| code == 0x1680
    ||| 0x2000 <= code <= 0x200a
    ||| code == 0x2028
    ||| code == 0x2029
    ||| code == 0x202f
    ||| code == 0x205f
    ||| code == 0x3000
}

/// Whether `c` is white space.
pub fn is_whitespace(c: char) -> (r: bool)
    ensures
        r == is_whitespace_char(c),
{
    let code: u32 = c as u32;
    (0x09 <= code && code <= 0x0d) || code == 0x20 || code == 0x85 || code == 0xa0 || code == 0x1680 || (0x2000
        <= code && code <= 0x200a) || code == 0x2028 || code == 0x2029 || code == 0x202f || code == 0x205f || code
        == 0x3000
}

/// The first position from `from` on that holds no white space, or `to`.
pub open spec fn skip_space(text: Seq<char>, from: int, to: int) -> int
    decreases to - from,
{
    if from < to && 0 <= from < text.len() && is_whitespace_char(text[from]) {
        skip_space(text, from + 1, to)
    } else {
        from
    }
}

/// The end of the text from `from` to `to` without the white space at its end.
pub open spec fn skip_space_back(text: Seq<char>, from: int, to: int) -> int
    decreases to - from,
{
    if from < to && 0 < to <= text.len() && is_whitespace_char(text[to - 1]) {
        skip_space_back(text, from, to - 1)
    } else {
        to
    }
}

/// The part of `text` from `from` to `to` without the white space at
/// either end.
pub open spec fn trimmed(text: Seq<char>, from: int, to: int) -> Seq<char> {
    let start = skip_space(text, from, to);
    let end = skip_space_back(text, start, to);
    if 0 <= start <= end <= text.len() {
        text.subrange(start, end)
    } else {
        Seq::empty()
    }
}

/// The position of the first comma from `from` on, or the length of the text.
pub open spec fn next_comma(text: Seq<char>, from: int) -> int
    decreases text.len() - from,
{
    if 0 <= from < text.len() && text[from] != ',' {
        next_comma(text, from + 1)
    } else if from < text.len() {
        from
    } else {
        text.len() as int
    }
}

/// The values of `text` from `from` on: what stands between commas,
/// without the white space around it, where anything is left.
pub open spec fn values_from(text: Seq<char>, from: int) -> Seq<Seq<char>>
    decreases text.len() - from,
{
    if from < 0 || from > text.len() {
        Seq::empty()
    } else {
        let end = next_comma(text, from);
        let value = trimmed(text, from, end);
        let rest = if from <= end < text.len() {
            values_from(text, end + 1)
        } else {
            Seq::empty()
        };
        if value.len() > 0 {
            seq![value] + rest
        } else {
            rest
        }
    }
}

/// `text` with every control character but line feed, carriage return and
/// tab replaced by a question mark.
pub open spec fn sanitized(text: Seq<char>) -> Seq<char> {
    Seq::new(
        text.len(),
        |i: int|
            if is_control_char(text[i]) && text[i] != '\n' && text[i] != '\r' && text[i] != '\t' {
                '?'
            } else {
                text[i]
            },
    )
}

/// What `truncate` makes of `text`: the text itself if it takes at most
/// `max_len` bytes; else three dots if there is room for no more; else the
/// first `max_len - 3` bytes of the text, and three dots.
pub open spec fn truncated(text: Seq<char>, max_len: usize) -> Seq<char> {
    if encode_utf8(text).len() <= max_len {
        text
    } else if max_len <= 3 {
        "..."@
    } else {
        decode_utf8(encode_utf8(text).subrange(0, max_len - 3)) + "..."@
    }
}

/// A list of texts by the views of its elements.
pub open spec fn texts_view(texts: Seq<String>) -> Seq<Seq<char>> {
    texts.map_values(|text: String| text@)
}

/// Shortening, cleaning and cutting up texts.
pub struct StringUtils;

impl StringUtils {
    /// Shortens `s` to at most `max_len` bytes, the last three of them
    /// dots. The text must not be cut in the middle of a character.
    pub fn truncate(s: &str, max_len: usize) -> (r: String)
        requires
            encode_utf8(s@).len() > max_len && max_len > 3 ==> vstd::utf8::is_char_boundary(
                encode_utf8(s@),
                max_len - 3,
            ),
        ensures
            r@ == truncated(s@, max_len),
    {
        if s.as_bytes().len() <= max_len {
            String::from_str(s)
        } else if max_len <= 3 {
            String::from_str("...")
        } else {
            let (head, _) = s.split_at(max_len - 3);
            proof {
                vstd::utf8::encode_utf8_decode_utf8(head@);
            }
            String::from_str(head).concat("...")
        }
    }

    /// Replaces every control character but line feed, carriage return and
    /// tab by a question mark.
    pub fn sanitize(s: &str) -> (r: String)
        ensures
            r@ == sanitized(s@),
    {
        let chars = chars_of(s);
        let mut out = String::new();
        let mut i: usize = 0;
        while i < chars.len()
            invariant
                chars@ == s@,
                i <= chars.len(),
                out@ == sanitized(s@).take(i as int),
            decreases chars.len() - i,
        {
            let c = chars[i];
            if is_control(c) && c != '\n' && c != '\r' && c != '\t' {
                push_char(&mut out, '?');
            } else {
                push_char(&mut out, c);
            }
            assert(out@ =~= sanitized(s@).take(i + 1));
            i += 1;
        }
        assert(out@ =~= sanitized(s@));
        out
    }

    /// The values of a list set apart by commas: each without the white
    /// space around it, and none that is empty.
    pub fn parse_csv(s: &str) -> (r: Vec<String>)
        ensures
            texts_view(r@) == values_from(s@, 0),
    {
        let chars = chars_of(s);
        let n: usize = chars.len();
        let mut values: Vec<String> = Vec::new();
        let mut from: usize = 0;
        assert(texts_view(values@) =~= Seq::<Seq<char>>::empty());
        loop
            invariant_except_break
                chars@ == s@,
                n == chars.len(),
                from <= n,
                values_from(s@, 0) == texts_view(values@) + values_from(s@, from as int),
            ensures
                texts_view(values@) == values_from(s@, 0),
            decreases n - from,
        {
            let ghost before = texts_view(values@);
            let mut end: usize = from;
            while end < n && chars[end] != ','
                invariant
                    chars@ == s@,
                    n == chars.len(),
                    from <= end <= n,
                    next_comma(s@, from as int) == next_comma(s@, end as int),
                decreases n - end,
            {
                end += 1;
            }
            let mut start: usize = from;
            while start < end && is_whitespace(chars[start])
                invariant
                    chars@ == s@,
                    n == chars.len(),
                    from <= start <= end <= n,
                    skip_space(s@, from as int, end as int) == skip_space(s@, start as int, end as int),
                decreases end - start,
            {
                start += 1;
            }
            let mut stop: usize = end;
            while start < stop && is_whitespace(chars[stop - 1])
                invariant
                    chars@ == s@,
                    n == chars.len(),
                    start <= stop <= end <= n,
                    skip_space_back(s@, start as int, end as int) == skip_space_back(
                        s@,
                        start as int,
                        stop as int,
                    ),
                decreases stop - start,
            {
                stop -= 1;
            }
            let ghost value = s@.subrange(start as int, stop as int);
            assert(value == trimmed(s@, from as int, end as int));
            if start < stop {
                let mut text = String::new();
                let mut k: usize = start;
                while k < stop
                    invariant
                        chars@ == s@,
                        start <= k <= stop <= n,
                        n == chars.len(),
                        text@ == s@.subrange(start as int, k as int),
                    decreases stop - k,
                {
                    push_char(&mut text, chars[k]);
                    assert(text@ =~= s@.subrange(start as int, k + 1));
                    k += 1;
                }
                values.push(text);
                assert(texts_view(values@) =~= before + seq![value]);
            }
            proof {
                let rest = if end < n {
                    values_from(s@, end + 1)
                } else {
                    Seq::<Seq<char>>::empty()
                };
                if value.len() > 0 {
                    assert(before + (seq![value] + rest) =~= (before + seq![value]) + rest);
                }
                assert(values_from(s@, 0) == texts_view(values@) + rest);
            }
            if end < n {
                from = end + 1;
            } else {
                assert(texts_view(values@) + Seq::<Seq<char>>::empty() =~= texts_view(values@));
                break ;
            }
        }
        values
    }
}

/// `n` divided by `unit` and rounded to the nearest whole number, a tie
/// going to the even one.
pub open spec fn rounded_quotient(n: nat, unit: nat) -> nat
    recommends
        unit > 0,
{
    let quotient = n / unit;
    let rest = n % unit;
    if 2 * rest > unit || (2 * rest == unit && quotient % 2 == 1) {
        quotient + 1
    } else {
        quotient
    }
}

/// The power of two in whose multiples a number as large as `n` is kept
/// when it is held with 53 binary digits: one below 2^53, two below 2^54,
/// and so on.
pub open spec fn precision_unit(n: nat) -> nat {
    if n < 0x20_0000_0000_0000 {
        1
    } else if n < 0x40_0000_0000_0000 {
        2
    } else if n < 0x80_0000_0000_0000 {
        4
    } else if n < 0x100_0000_0000_0000 {
        8
    } else if n < 0x200_0000_0000_0000 {
        16
    } else if n < 0x400_0000_0000_0000 {
        32
    } else if n < 0x800_0000_0000_0000 {
        64
    } else if n < 0x1000_0000_0000_0000 {
        128
    } else if n < 0x2000_0000_0000_0000 {
        256
    } else if n < 0x4000_0000_0000_0000 {
        512
    } else if n < 0x8000_0000_0000_0000 {
        1024
    } else {
        2048
    }
}

/// `n` as it is held with 53 binary digits: the nearest number that they
/// can hold, a tie going to the even one.
pub open spec fn held(n: nat) -> nat {
    rounded_quotient(n, precision_unit(n)) * precision_unit(n)
}

/// A size in bytes as it is shown: below 1024 in bytes; else in the largest
/// of the units KB, MB and GB that it reaches, with one decimal, rounded to
/// the nearest, a tie going to the even digit.
pub open spec fn size_text(bytes: usize) -> Seq<char> {
    let size = held(bytes as nat);
    if size < 1024 {
        decimal_text(bytes as nat) + " B"@
    } else {
        let (unit, name) = if size < 1024 * 1024 {
            (1024nat, " KB"@)
        } else if size < 1024 * 1024 * 1024 {
            ((1024 * 1024) as nat, " MB"@)
        } else {
            ((1024 * 1024 * 1024) as nat, " GB"@)
        };
        let tenths = rounded_quotient(10 * size, unit);
        decimal_text(tenths / 10) + "."@ + decimal_text(tenths % 10) + name
    }
}

fn precision_unit_of(n: u64) -> (r: u64)
    ensures
        r == precision_unit(n as nat),
        1 <= r <= 2048,
{
    if n < 0x20_0000_0000_0000 {
        1
    } else if n < 0x40_0000_0000_0000 {
        2
    } else if n < 0x80_0000_0000_0000 {
        4
    } else if n < 0x100_0000_0000_0000 {
        8
    } else if n < 0x200_0000_0000_0000 {
        16
    } else if n < 0x400_0000_0000_0000 {
        32
    } else if n < 0x800_0000_0000_0000 {
        64
    } else if n < 0x1000_0000_0000_0000 {
        128
    } else if n < 0x2000_0000_0000_0000 {
        256
    } else if n < 0x4000_0000_0000_0000 {
        512
    } else if n < 0x8000_0000_0000_0000 {
        1024
    } else {
        2048
    }
}

fn divide_rounded(n: u128, unit: u128) -> (r: u128)
    requires
        0 < unit <= 0x4000_0000,
        n <= 0x1_0000_0000_0000_0000_0000,
    ensures
        r == rounded_quotient(n as nat, unit as nat),
        r * unit <= n + unit,
        r <= n + 1,
{
    let quotient: u128 = n / unit;
    let rest: u128 = n % unit;
    proof {
        vstd::arithmetic::div_mod::lemma_fundamental_div_mod(n as int, unit as int);
        assert((quotient + 1) * unit == quotient * unit + unit) by (nonlinear_arith);
        assert(unit * quotient == quotient * unit) by (nonlinear_arith);
        assert(quotient <= n) by (nonlinear_arith)
            requires
                n == unit * quotient + rest,
                unit >= 1,
                rest >= 0,
                quotient >= 0,
        ;
    }
    if 2 * rest > unit || (2 * rest == unit && quotient % 2 == 1) {
        quotient + 1
    } else {
        quotient
    }
}

fn rounded_tenths(size: u128, unit: u128) -> (r: u64)
    requires
        size <= 0x1_0000_0000_0000_0800,
        unit == 1024 || unit == 1024 * 1024 || unit == 1024 * 1024 * 1024,
    ensures
        r == rounded_quotient(10 * size as nat, unit as nat),
{
    let n: u128 = 10 * size;
    let quotient: u128 = n / unit;
    let rest: u128 = n % unit;
    assert(quotient <= n / 1024) by {
        if unit == 1024 {
        } else if unit == 1024 * 1024 {
            assert(n / 1048576 <= n / 1024);
        } else {
            assert(n / 1073741824 <= n / 1024);
        }
    }
    if 2 * rest > unit || (2 * rest == unit && quotient % 2 == 1) {
        (quotient + 1) as u64
    } else {
        quotient as u64
    }
}

impl StringUtils {
    /// Shows a size in bytes in the unit that suits it.
    pub fn format_bytes(bytes: usize) -> (r: String)
        ensures
            r@ == size_text(bytes),
    {
        let unit: u64 = precision_unit_of(bytes as u64);
        let size: u128 = divide_rounded(bytes as u128, unit as u128) * unit as u128;
        let mut out = String::new();
        if size < 1024 {
            push_decimal(&mut out, bytes as u64);
            out.append(" B");
            return out;
        }
        let tenths: u64 = if size < 1024 * 1024 {
            rounded_tenths(size, 1024)
        } else if size < 1024 * 1024 * 1024 {
            rounded_tenths(size, 1024 * 1024)
        } else {
            rounded_tenths(size, 1024 * 1024 * 1024)
        };
        push_decimal(&mut out, tenths / 10);
        out.append(".");
        push_decimal(&mut out, tenths % 10);
        if size < 1024 * 1024 {
            out.append(" KB");
        } else if size < 1024 * 1024 * 1024 {
            out.append(" MB");
        } else {
            out.append(" GB");
        }
        assert(out@ =~= size_text(bytes));
        out
    }
}

} // verus!
