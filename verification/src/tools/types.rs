//! The arguments and answers of the tools, and the encodings in which data
//! passes through them.

use crate::encoding::{
    base64_decode_standard, base64_decode_url_safe, base64_encode, base64_len, base64_standard_decoding, base64_text,
    base64_url_safe_decoding, bytes_view, hex_decodable, hex_decode, hex_decode_error, hex_decoded, hex_encode,
    hex_text, lemma_hex_round_trip, lemma_hex_text, text_from_utf8, text_view, utf8_error_text,
};
use crate::model::{list_view};
use crate::serial::connection::{ConnectionConfig, ConnectionConfigView, DataBits, FlowControl, Parity, StopBits};
use crate::serial::port::{PortInfo, PortInfoView};
use crate::text::{
    chars_of, hex_byte_text, labelled, lemma_without_char_absent, lemma_without_char_concat, lowercase_of,
    push_char, remove_char, same_text, to_lowercase, without_char,
};
use vstd::prelude::*;
use vstd::slice::slice_to_vec;
use vstd::string::*;
use vstd::utf8::{decode_utf8, encode_utf8, valid_utf8};

verus! {

/// The arguments of `list_ports`: none.
#[derive(Debug)]
pub struct ListPortsArgs {}

/// The answer of `list_ports`.
#[derive(Debug)]
pub struct PortsResponse {
    pub ports: Vec<PortInfo>,
}

/// What a [`PortsResponse`] holds.
pub struct PortsResponseView {
    pub ports: Seq<PortInfoView>,
}

impl View for PortsResponse {
    type V = PortsResponseView;

    open spec fn view(&self) -> PortsResponseView {
        PortsResponseView { ports: list_view(self.ports@) }
    }
}

/// The arguments of `open`.
#[derive(Debug)]
pub struct OpenArgs {
    pub port: String,
    pub baud_rate: u32,
    /// `5` to `8`; eight where it names none of them.
    pub data_bits: String,
    /// `1` or `2`; one where it names neither.
    pub stop_bits: String,
    /// `none`, `odd` or `even`; none where it names none of them.
    pub parity: String,
    /// `none`, `software` or `hardware`; none where it names none of them.
    pub flow_control: String,
}

/// What a [`OpenArgs`] holds, each text as its sequence of characters.
pub struct OpenArgsView {
    pub port: Seq<char>,
    pub baud_rate: u32,
    pub data_bits: Seq<char>,
    pub stop_bits: Seq<char>,
    pub parity: Seq<char>,
    pub flow_control: Seq<char>,
}

impl View for OpenArgs {
    type V = OpenArgsView;

    open spec fn view(&self) -> OpenArgsView {
        OpenArgsView {
            port: self.port@,
            baud_rate: self.baud_rate,
            data_bits: self.data_bits@,
            stop_bits: self.stop_bits@,
            parity: self.parity@,
            flow_control: self.flow_control@,
        }
    }
}

/// The arguments of `close`.
#[derive(Debug)]
pub struct CloseArgs {
    pub connection_id: String,
}

/// What a [`CloseArgs`] holds, each text as its sequence of characters.
pub struct CloseArgsView {
    pub connection_id: Seq<char>,
}

impl View for CloseArgs {
    type V = CloseArgsView;

    open spec fn view(&self) -> CloseArgsView {
        CloseArgsView {
            connection_id: self.connection_id@,
        }
    }
}

/// The arguments of `write`.
#[derive(Debug)]
pub struct WriteArgs {
    pub connection_id: String,
    /// The data, in the encoding that `encoding` names.
    pub data: String,
    /// `utf8`, `hex` or `base64`.
    pub encoding: String,
}

/// What a [`WriteArgs`] holds, each text as its sequence of characters.
pub struct WriteArgsView {
    pub connection_id: Seq<char>,
    pub data: Seq<char>,
    pub encoding: Seq<char>,
}

impl View for WriteArgs {
    type V = WriteArgsView;

    open spec fn view(&self) -> WriteArgsView {
        WriteArgsView {
            connection_id: self.connection_id@,
            data: self.data@,
            encoding: self.encoding@,
        }
    }
}

/// The arguments of `read`.
#[derive(Debug)]
pub struct ReadArgs {
    pub connection_id: String,
    /// How long to wait for data.
    pub timeout_ms: Option<u64>,
    /// The most bytes to read.
    pub max_bytes: usize,
    /// `utf8`, `hex` or `base64`.
    pub encoding: String,
}

/// What a [`ReadArgs`] holds, each text as its sequence of characters.
pub struct ReadArgsView {
    pub connection_id: Seq<char>,
    pub timeout_ms: Option<u64>,
    pub max_bytes: usize,
    pub encoding: Seq<char>,
}

impl View for ReadArgs {
    type V = ReadArgsView;

    open spec fn view(&self) -> ReadArgsView {
        ReadArgsView {
            connection_id: self.connection_id@,
            timeout_ms: self.timeout_ms,
            max_bytes: self.max_bytes,
            encoding: self.encoding@,
        }
    }
}

/// The arguments of `configure`.
#[derive(Debug)]
pub struct ConfigureArgs {
    pub connection_id: String,
    pub baud_rate: Option<u32>,
}

/// What a [`ConfigureArgs`] holds, each text as its sequence of characters.
pub struct ConfigureArgsView {
    pub connection_id: Seq<char>,
    pub baud_rate: Option<u32>,
}

impl View for ConfigureArgs {
    type V = ConfigureArgsView;

    open spec fn view(&self) -> ConfigureArgsView {
        ConfigureArgsView {
            connection_id: self.connection_id@,
            baud_rate: self.baud_rate,
        }
    }
}

/// The arguments of `status`.
#[derive(Debug)]
pub struct StatusArgs {
    pub connection_id: String,
}

/// What a [`StatusArgs`] holds, each text as its sequence of characters.
pub struct StatusArgsView {
    pub connection_id: Seq<char>,
}

impl View for StatusArgs {
    type V = StatusArgsView;

    open spec fn view(&self) -> StatusArgsView {
        StatusArgsView {
            connection_id: self.connection_id@,
        }
    }
}

/// The answer of `open`.
#[derive(Debug)]
pub struct OpenResponse {
    pub connection_id: String,
    pub status: String,
    pub port: String,
    pub baud_rate: u32,
    pub config: String,
}

/// What a [`OpenResponse`] holds, each text as its sequence of characters.
pub struct OpenResponseView {
    pub connection_id: Seq<char>,
    pub status: Seq<char>,
    pub port: Seq<char>,
    pub baud_rate: u32,
    pub config: Seq<char>,
}

impl View for OpenResponse {
    type V = OpenResponseView;

    open spec fn view(&self) -> OpenResponseView {
        OpenResponseView {
            connection_id: self.connection_id@,
            status: self.status@,
            port: self.port@,
            baud_rate: self.baud_rate,
            config: self.config@,
        }
    }
}

/// The answer of `close`.
#[derive(Debug)]
pub struct CloseResponse {
    pub connection_id: String,
    pub status: String,
}

/// What a [`CloseResponse`] holds, each text as its sequence of characters.
pub struct CloseResponseView {
    pub connection_id: Seq<char>,
    pub status: Seq<char>,
}

impl View for CloseResponse {
    type V = CloseResponseView;

    open spec fn view(&self) -> CloseResponseView {
        CloseResponseView {
            connection_id: self.connection_id@,
            status: self.status@,
        }
    }
}

/// The answer of `write`.
#[derive(Debug)]
pub struct WriteResponse {
    pub connection_id: String,
    pub bytes_written: usize,
    pub data: String,
}

/// What a [`WriteResponse`] holds, each text as its sequence of characters.
pub struct WriteResponseView {
    pub connection_id: Seq<char>,
    pub bytes_written: usize,
    pub data: Seq<char>,
}

impl View for WriteResponse {
    type V = WriteResponseView;

    open spec fn view(&self) -> WriteResponseView {
        WriteResponseView {
            connection_id: self.connection_id@,
            bytes_written: self.bytes_written,
            data: self.data@,
        }
    }
}

/// The answer of `read`.
#[derive(Debug)]
pub struct ReadResponse {
    pub connection_id: String,
    pub bytes_read: usize,
    pub data: String,
    pub encoding: String,
    pub status: String,
}

/// What a [`ReadResponse`] holds, each text as its sequence of characters.
pub struct ReadResponseView {
    pub connection_id: Seq<char>,
    pub bytes_read: usize,
    pub data: Seq<char>,
    pub encoding: Seq<char>,
    pub status: Seq<char>,
}

impl View for ReadResponse {
    type V = ReadResponseView;

    open spec fn view(&self) -> ReadResponseView {
        ReadResponseView {
            connection_id: self.connection_id@,
            bytes_read: self.bytes_read,
            data: self.data@,
            encoding: self.encoding@,
            status: self.status@,
        }
    }
}

/// The answer of `configure`.
#[derive(Debug)]
pub struct ConfigureResponse {
    pub connection_id: String,
    pub status: String,
    pub new_baud_rate: Option<u32>,
}

/// What a [`ConfigureResponse`] holds, each text as its sequence of characters.
pub struct ConfigureResponseView {
    pub connection_id: Seq<char>,
    pub status: Seq<char>,
    pub new_baud_rate: Option<u32>,
}

impl View for ConfigureResponse {
    type V = ConfigureResponseView;

    open spec fn view(&self) -> ConfigureResponseView {
        ConfigureResponseView {
            connection_id: self.connection_id@,
            status: self.status@,
            new_baud_rate: self.new_baud_rate,
        }
    }
}

/// The answer of `status`.
#[derive(Debug)]
pub struct StatusResponse {
    pub connection_id: String,
    pub port: String,
    pub baud_rate: u32,
    pub config: String,
    pub status: String,
    pub created_at: String,
    pub bytes_sent: u64,
    pub bytes_received: u64,
}

/// What a [`StatusResponse`] holds, each text as its sequence of characters.
pub struct StatusResponseView {
    pub connection_id: Seq<char>,
    pub port: Seq<char>,
    pub baud_rate: u32,
    pub config: Seq<char>,
    pub status: Seq<char>,
    pub created_at: Seq<char>,
    pub bytes_sent: u64,
    pub bytes_received: u64,
}

impl View for StatusResponse {
    type V = StatusResponseView;

    open spec fn view(&self) -> StatusResponseView {
        StatusResponseView {
            connection_id: self.connection_id@,
            port: self.port@,
            baud_rate: self.baud_rate,
            config: self.config@,
            status: self.status@,
            created_at: self.created_at@,
            bytes_sent: self.bytes_sent,
            bytes_received: self.bytes_received,
        }
    }
}

/// Eight data bits, where a request names none.
pub fn default_data_bits() -> (r: String)
    ensures
        r@ == "8"@,
{
    String::from_str("8")
}

/// One stop bit, where a request names none.
pub fn default_stop_bits() -> (r: String)
    ensures
        r@ == "1"@,
{
    String::from_str("1")
}

/// No parity, where a request names none.
pub fn default_parity() -> (r: String)
    ensures
        r@ == "none"@,
{
    String::from_str("none")
}

/// No flow control, where a request names none.
pub fn default_flow_control() -> (r: String)
    ensures
        r@ == "none"@,
{
    String::from_str("none")
}

/// UTF-8, where a request names no encoding.
pub fn default_encoding() -> (r: String)
    ensures
        r@ == "utf8"@,
{
    String::from_str("utf8")
}

/// At most 1024 bytes, where a request names no number.
pub fn default_max_bytes() -> (r: usize)
    ensures
        r == 1024,
{
    1024
}

/// How long a read waits for data where a request names no time, in
/// milliseconds.
pub const DEFAULT_READ_TIMEOUT_MS: u64 = 1000;

impl ReadArgsView {
    /// How long the read waits for data, in milliseconds.
    pub open spec fn timeout(self) -> u64 {
        match self.timeout_ms {
            Some(ms) => ms,
            None => DEFAULT_READ_TIMEOUT_MS,
        }
    }
}

impl ReadArgs {
    /// How long the read waits for data, in milliseconds: the time that the
    /// request names, or one second.
    pub fn timeout(&self) -> (r: u64)
        ensures
            r == self@.timeout(),
    {
        match self.timeout_ms {
            Some(ms) => ms,
            None => DEFAULT_READ_TIMEOUT_MS,
        }
    }
}

/// An encoding of bytes as text.
#[derive(Debug, Clone, Copy, PartialEq, Eq, Structural)]
pub enum Encoding {
    /// The bytes are the UTF-8 of the text.
    Utf8,
    /// Two lowercase hexadecimal digits for each byte, the pairs set apart by spaces.
    Hex,
    /// Base64 with the standard alphabet and padding.
    Base64,
}

impl Encoding {
    /// The encoding that a lowercase word names: `utf8` or `utf-8`, `hex`, `base64`.
    pub open spec fn of_word(word: Seq<char>) -> Option<Encoding> {
        if word == "utf8"@ || word == "utf-8"@ {
            Some(Encoding::Utf8)
        } else if word == "hex"@ {
            Some(Encoding::Hex)
        } else if word == "base64"@ {
            Some(Encoding::Base64)
        } else {
            None
        }
    }

    /// The encoding that a lowercase word names: `utf8` or `utf-8`, `hex`, `base64`.
    pub fn from_word(word: &str) -> (r: Option<Encoding>)
        ensures
            r == Self::of_word(word@),
    {
        if same_text(word, "utf8") || same_text(word, "utf-8") {
            Some(Encoding::Utf8)
        } else if same_text(word, "hex") {
            Some(Encoding::Hex)
        } else if same_text(word, "base64") {
            Some(Encoding::Base64)
        } else {
            None
        }
    }
}

/// The hexadecimal digits of `bytes`, two for each byte, the pairs set
/// apart by single spaces.
pub open spec fn spaced_hex_text(bytes: Seq<u8>) -> Seq<char>
    decreases bytes.len(),
{
    if bytes.len() == 0 {
        Seq::empty()
    } else if bytes.len() == 1 {
        hex_byte_text(bytes[0])
    } else {
        spaced_hex_text(bytes.drop_last()) + seq![' '] + hex_byte_text(bytes.last())
    }
}

/// `bytes` as text in `encoding`, or the message of the failure. Only
/// UTF-8 can fail: on bytes that are not valid UTF-8.
pub open spec fn encoded(bytes: Seq<u8>, encoding: Encoding) -> Result<Seq<char>, Seq<char>> {
    match encoding {
        Encoding::Utf8 => if valid_utf8(bytes) {
            Ok(decode_utf8(bytes))
        } else {
            Err("UTF-8 encoding error: "@ + utf8_error_text(bytes))
        },
        Encoding::Hex => Ok(spaced_hex_text(bytes)),
        Encoding::Base64 => Ok(base64_text(bytes)),
    }
}

/// The bytes that `text` stands for in `encoding`, or the message of the
/// failure. Hexadecimal is taken in either case of letters, with spaces
/// anywhere; base64 is taken with the standard alphabet and padding, and
/// failing that with the URL-safe alphabet without padding.
pub open spec fn decoded(text: Seq<char>, encoding: Encoding) -> Result<Seq<u8>, Seq<char>> {
    match encoding {
        Encoding::Utf8 => Ok(encode_utf8(text)),
        Encoding::Hex => {
            let digits = without_char(text, ' ');
            if hex_decodable(digits) {
                Ok(hex_decoded(digits))
            } else {
                Err("Hex decoding error: "@ + hex_decode_error(digits))
            }
        },
        Encoding::Base64 => match base64_standard_decoding(text) {
            Ok(bytes) => Ok(bytes),
            Err(_) => match base64_url_safe_decoding(text) {
                Ok(bytes) => Ok(bytes),
                Err(message) => Err("Base64 decoding error: "@ + message),
            },
        },
    }
}

/// What `encode_data` gives for the name of an encoding in any case of letters.
pub open spec fn encoded_as(bytes: Seq<u8>, encoding: Seq<char>) -> Result<Seq<char>, Seq<char>> {
    match Encoding::of_word(lowercase_of(encoding)) {
        Some(known) => encoded(bytes, known),
        None => Err("Unsupported encoding: "@ + encoding),
    }
}

/// What `decode_data` gives for the name of an encoding in any case of letters.
pub open spec fn decoded_as(text: Seq<char>, encoding: Seq<char>) -> Result<Seq<u8>, Seq<char>> {
    match Encoding::of_word(lowercase_of(encoding)) {
        Some(known) => decoded(text, known),
        None => Err("Unsupported encoding: "@ + encoding),
    }
}

/// Without its spaces, the spaced hexadecimal text of `bytes` is their
/// hexadecimal text.
pub proof fn lemma_spaced_hex_digits(bytes: Seq<u8>)
    ensures
        without_char(spaced_hex_text(bytes), ' ') == hex_text(bytes),
    decreases bytes.len(),
{
    if bytes.len() == 0 {
    } else {
        let last = hex_byte_text(bytes.last());
        crate::encoding::lemma_hex_digit_value((bytes.last() / 16) as nat);
        crate::encoding::lemma_hex_digit_value((bytes.last() % 16) as nat);
        lemma_without_char_absent(last, ' ');
        if bytes.len() == 1 {
            assert(bytes.drop_last() =~= Seq::<u8>::empty());
            assert(hex_text(bytes.drop_last()) =~= Seq::<char>::empty());
            assert(hex_text(bytes) =~= last);
        } else {
            lemma_spaced_hex_digits(bytes.drop_last());
            let head = spaced_hex_text(bytes.drop_last());
            lemma_without_char_concat(head + seq![' '], last, ' ');
            lemma_without_char_concat(head, seq![' '], ' ');
            assert(seq![' '].last() == ' ');
            assert(seq![' '].drop_last() =~= Seq::<char>::empty());
            assert(without_char(seq![' '].drop_last(), ' ') =~= Seq::<char>::empty());
            assert(without_char(seq![' '], ' ') =~= Seq::<char>::empty());
            assert(without_char(head, ' ') + Seq::<char>::empty() =~= without_char(head, ' '));
        }
    }
}

/// Decoding gives back what encoding took, for hexadecimal and for UTF-8:
/// every sequence of bytes has a hexadecimal text, and that text stands for
/// the bytes; valid UTF-8 has a text, and that text stands for the bytes;
/// and bytes that are not valid UTF-8 have no text.
pub proof fn law_round_trip(bytes: Seq<u8>, encoding: Encoding)
    requires
        encoding is Hex || encoding is Utf8,
    ensures
        encoded(bytes, encoding) is Ok ==> decoded(encoded(bytes, encoding)->Ok_0, encoding) == Ok::<
            Seq<u8>,
            Seq<char>,
        >(bytes),
        encoded(bytes, encoding) is Ok <==> encoding is Hex || valid_utf8(bytes),
{
    match encoding {
        Encoding::Hex => {
            lemma_spaced_hex_digits(bytes);
            lemma_hex_round_trip(bytes);
        },
        Encoding::Utf8 => {
            if valid_utf8(bytes) {
                vstd::utf8::decode_utf8_encode_utf8(bytes);
            }
        },
        Encoding::Base64 => {},
    }
}

/// Decoding gives back what encoding took, under every name of the
/// hexadecimal and the UTF-8 encoding, for bytes of any number: hexadecimal
/// text is written for all bytes and stands for them; UTF-8 text is written
/// exactly for valid UTF-8 and stands for it, and any text at all is decoded
/// to its own bytes; and a name that names no encoding fails both ways.
pub proof fn law_round_trip_by_name(bytes: Seq<u8>, text: Seq<char>, encoding: Seq<char>)
    ensures
        ({
            let known = Encoding::of_word(lowercase_of(encoding));
            &&& known == Some(Encoding::Hex) || known == Some(Encoding::Utf8) ==> {
                &&& encoded_as(bytes, encoding) is Ok <==> known == Some(Encoding::Hex) || valid_utf8(bytes)
                &&& encoded_as(bytes, encoding) is Ok ==> decoded_as(encoded_as(bytes, encoding)->Ok_0, encoding)
                    == Ok::<Seq<u8>, Seq<char>>(bytes)
            }
            &&& known == Some(Encoding::Utf8) ==> {
                &&& decoded_as(text, encoding) == Ok::<Seq<u8>, Seq<char>>(encode_utf8(text))
                &&& encoded_as(bytes, encoding) is Ok ==> encode_utf8(encoded_as(bytes, encoding)->Ok_0) == bytes
            }
            &&& known == Some(Encoding::Base64) ==> encoded_as(bytes, encoding) == Ok::<Seq<char>, Seq<char>>(
                base64_text(bytes),
            )
            &&& known is None ==> encoded_as(bytes, encoding) is Err && decoded_as(text, encoding) is Err
        }),
{
    match Encoding::of_word(lowercase_of(encoding)) {
        Some(Encoding::Hex) => {
            law_round_trip(bytes, Encoding::Hex);
        },
        Some(Encoding::Utf8) => {
            law_round_trip(bytes, Encoding::Utf8);
        },
        _ => {},
    }
}

/// The hexadecimal text of `data` with a space between the pairs.
fn spaced_hex(data: &[u8]) -> (r: String)
    ensures
        r@ == spaced_hex_text(data@),
{
    let hex = hex_encode(data);
    let digits = chars_of(hex.as_str());
    proof {
        lemma_hex_text(data@);
    }
    let mut out = String::new();
    let mut k: usize = 0;
    assert(data@.take(0) =~= Seq::<u8>::empty());
    while k < data.len()
        invariant
            digits@ == hex_text(data@),
            digits@.len() == 2 * data@.len(),
            forall|i: int|
                0 <= i < data@.len() ==> digits@[2 * i] == crate::text::hex_digit_char(
                    (#[trigger] data@[i] / 16) as nat,
                ) && digits@[2 * i + 1] == crate::text::hex_digit_char((data@[i] % 16) as nat),
            k <= data.len(),
            out@ == spaced_hex_text(data@.take(k as int)),
        decreases data.len() - k,
    {
        proof {
            assert(data@.take(k + 1).drop_last() =~= data@.take(k as int));
            assert(data@.take(k + 1).last() == data@[k as int]);
            assert(data@.take(k + 1)[0] == data@[0]);
        }
        let ghost before = out@;
        assert(2 * k + 1 < digits.len());
        if k > 0 {
            push_char(&mut out, ' ');
        }
        push_char(&mut out, digits[2 * k]);
        push_char(&mut out, digits[2 * k + 1]);
        proof {
            let pair = hex_byte_text(data@[k as int]);
            assert(pair =~= seq![digits@[2 * k], digits@[2 * k + 1]]);
            if k > 0 {
                assert(out@ =~= before + seq![' '] + pair);
            } else {
                assert(before =~= Seq::<char>::empty());
                assert(out@ =~= pair);
            }
        }
        k += 1;
    }
    assert(data@.take(data.len() as int) =~= data@);
    out
}

/// `data` as text in `encoding`. For base64 the length of the text must
/// fit `usize`.
pub fn encode_with(data: &[u8], encoding: Encoding) -> (r: Result<String, String>)
    requires
        encoding is Base64 ==> base64_len(data@.len()) <= usize::MAX,
    ensures
        text_view(r) == encoded(data@, encoding),
{
    match encoding {
        Encoding::Utf8 => match text_from_utf8(slice_to_vec(data)) {
            Ok(text) => Ok(text),
            Err(message) => Err(labelled("UTF-8 encoding error: ", message.as_str())),
        },
        Encoding::Hex => Ok(spaced_hex(data)),
        Encoding::Base64 => Ok(base64_encode(data)),
    }
}

/// The bytes that `text` stands for in `encoding`. Decoding gives back what
/// encoding took: the text of any bytes stands for those bytes.
pub fn decode_with(text: &str, encoding: Encoding) -> (r: Result<Vec<u8>, String>)
    ensures
        bytes_view(r) == decoded(text@, encoding),
        forall|bytes: Seq<u8>| #[trigger]
            encoded(bytes, encoding) == Ok::<Seq<char>, Seq<char>>(text@) ==> bytes_view(r) == Ok::<
                Seq<u8>,
                Seq<char>,
            >(bytes),
{
    let r = match encoding {
        Encoding::Utf8 => Ok(text.as_bytes_vec()),
        Encoding::Hex => {
            let digits = remove_char(text, ' ');
            match hex_decode(digits.as_str()) {
                Ok(bytes) => Ok(bytes),
                Err(message) => Err(labelled("Hex decoding error: ", message.as_str())),
            }
        },
        Encoding::Base64 => match base64_decode_standard(text) {
            Ok(bytes) => Ok(bytes),
            Err(_) => match base64_decode_url_safe(text) {
                Ok(bytes) => Ok(bytes),
                Err(message) => Err(labelled("Base64 decoding error: ", message.as_str())),
            },
        },
    };
    proof {
        assert forall|bytes: Seq<u8>| #[trigger]
            encoded(bytes, encoding) == Ok::<Seq<char>, Seq<char>>(text@) implies bytes_view(r) == Ok::<
            Seq<u8>,
            Seq<char>,
        >(bytes) by {
            match encoding {
                Encoding::Base64 => {
                    assert(text@ == base64_text(bytes));
                },
                _ => {
                    law_round_trip(bytes, encoding);
                },
            }
        }
    }
    r
}

/// `data` as text in the encoding that `encoding` names, in any case of
/// letters: `utf8` or `utf-8`, `hex`, `base64`.
pub fn encode_data(data: &[u8], encoding: &str) -> (r: Result<String, String>)
    requires
        base64_len(data@.len()) <= usize::MAX,
    ensures
        text_view(r) == encoded_as(data@, encoding@),
{
    match Encoding::from_word(to_lowercase(encoding).as_str()) {
        Some(known) => encode_with(data, known),
        None => Err(labelled("Unsupported encoding: ", encoding)),
    }
}

/// Whether the base64 text of `len` bytes fits `usize`.
pub fn base64_fits(len: usize) -> (r: bool)
    ensures
        r == (base64_len(len as nat) <= usize::MAX),
{
    let text_len: u128 = (len as u128 / 3) * 4 + if len % 3 > 0 {
        4u128
    } else {
        0u128
    };
    text_len <= usize::MAX as u128
}

/// `data` as text in the encoding that `encoding` names, for data of any
/// length: nothing is returned where the encoding is base64 and the length
/// of the text does not fit `usize`; else what [`encode_data`] returns.
pub fn try_encode_data(data: &[u8], encoding: &str) -> (r: Option<Result<String, String>>)
    ensures
        r is None <==> Encoding::of_word(lowercase_of(encoding@)) == Some(Encoding::Base64) && base64_len(
            data@.len(),
        ) > usize::MAX,
        r matches Some(result) ==> text_view(result) == encoded_as(data@, encoding@),
{
    match Encoding::from_word(to_lowercase(encoding).as_str()) {
        Some(Encoding::Base64) => {
            if base64_fits(data.len()) {
                Some(encode_with(data, Encoding::Base64))
            } else {
                None
            }
        },
        Some(known) => Some(encode_with(data, known)),
        None => Some(Err(labelled("Unsupported encoding: ", encoding))),
    }
}

/// The bytes that `data` stands for in the encoding that `encoding`
/// names, in any case of letters: `utf8` or `utf-8`, `hex`, `base64`.
/// Decoding gives back what encoding took.
pub fn decode_data(data: &str, encoding: &str) -> (r: Result<Vec<u8>, String>)
    ensures
        bytes_view(r) == decoded_as(data@, encoding@),
        forall|bytes: Seq<u8>| #[trigger]
            encoded_as(bytes, encoding@) == Ok::<Seq<char>, Seq<char>>(data@) ==> bytes_view(r) == Ok::<
                Seq<u8>,
                Seq<char>,
            >(bytes),
{
    match Encoding::from_word(to_lowercase(encoding).as_str()) {
        Some(known) => {
            let r = decode_with(data, known);
            assert forall|bytes: Seq<u8>| #[trigger]
                encoded_as(bytes, encoding@) == Ok::<Seq<char>, Seq<char>>(data@) implies bytes_view(r) == Ok::<
                Seq<u8>,
                Seq<char>,
            >(bytes) by {
                assert(encoded(bytes, known) == Ok::<Seq<char>, Seq<char>>(data@));
            }
            r
        },
        None => Err(labelled("Unsupported encoding: ", encoding)),
    }
}

impl OpenArgsView {
    /// The line settings that the arguments name. A word that names nothing
    /// stands for the default: eight data bits, one stop bit, no parity, no
    /// flow control. Parity and flow control are taken in any case of letters.
    pub open spec fn settings(self) -> ConnectionConfigView {
        ConnectionConfigView {
            port: self.port,
            baud_rate: self.baud_rate,
            data_bits: match DataBits::of_word(self.data_bits) {
                Some(bits) => bits,
                None => DataBits::Eight,
            },
            stop_bits: if self.stop_bits == "1"@ {
                StopBits::One
            } else if self.stop_bits == "2"@ {
                StopBits::Two
            } else {
                StopBits::One
            },
            parity: match Parity::of_word(lowercase_of(self.parity)) {
                Some(parity) => parity,
                None => Parity::NoParity,
            },
            flow_control: match FlowControl::of_word(lowercase_of(self.flow_control)) {
                Some(flow_control) => flow_control,
                None => FlowControl::NoFlowControl,
            },
        }
    }
}

impl OpenArgs {
    /// The line settings that the arguments name.
    pub fn settings(&self) -> (r: ConnectionConfig)
        ensures
            r@ == self@.settings(),
    {
        let data_bits = match DataBits::from_word(self.data_bits.as_str()) {
            Some(bits) => bits,
            None => DataBits::Eight,
        };
        let stop_bits = if same_text(self.stop_bits.as_str(), "1") {
            StopBits::One
        } else if same_text(self.stop_bits.as_str(), "2") {
            StopBits::Two
        } else {
            StopBits::One
        };
        let parity = match Parity::from_word(to_lowercase(self.parity.as_str()).as_str()) {
            Some(parity) => parity,
            None => Parity::NoParity,
        };
        let flow_control = match FlowControl::from_word(to_lowercase(self.flow_control.as_str()).as_str()) {
            Some(flow_control) => flow_control,
            None => FlowControl::NoFlowControl,
        };
        ConnectionConfig {
            port: self.port.clone(),
            baud_rate: self.baud_rate,
            data_bits,
            stop_bits,
            parity,
            flow_control,
        }
    }
}

impl From<OpenArgs> for ConnectionConfig {
    /// The line settings that the arguments of `open` name.
    fn from(args: OpenArgs) -> (r: ConnectionConfig)
        ensures
            r@ == args@.settings(),
    {
        args.settings()
    }
}

impl vstd::std_specs::convert::FromSpecImpl<OpenArgs> for ConnectionConfig {
    open spec fn obeys_from_spec() -> bool {
        false
    }

    open spec fn from_spec(args: OpenArgs) -> ConnectionConfig {
        arbitrary()
    }
}

} // verus!
