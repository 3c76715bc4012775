//! One serial connection: the line settings it was opened with and the
//! traffic it has carried. The port itself is driven by the caller, who
//! reports what each open, read and write came to.

use super::error::{SerialError, SerialErrorView};
use crate::clock::{now, Timestamp};
use crate::ident::{is_uuid_text, new_uuid_text};
use crate::model::result_view;
use crate::text::same_text;
use vstd::prelude::*;
use vstd::string::*;

verus! {

/// The number of data bits in a character.
#[derive(Debug, Clone, Copy, PartialEq, Eq, Structural)]
pub enum DataBits {
    Five,
    Six,
    Seven,
    Eight,
}

/// The number of stop bits after a character.
#[derive(Debug, Clone, Copy, PartialEq, Eq, Structural)]
pub enum StopBits {
    One,
    Two,
}

/// The parity bit of a character.
#[derive(Debug, Clone, Copy, PartialEq, Eq, Structural)]
pub enum Parity {
    NoParity,
    Odd,
    Even,
}

/// How the two ends pace each other.
#[derive(Debug, Clone, Copy, PartialEq, Eq, Structural)]
pub enum FlowControl {
    NoFlowControl,
    Software,
    Hardware,
}

impl DataBits {
    /// The setting for `n` data bits, for `n` from 5 to 8.
    pub open spec fn of_number(n: u8) -> Option<DataBits> {
        if n == 5 {
            Some(DataBits::Five)
        } else if n == 6 {
            Some(DataBits::Six)
        } else if n == 7 {
            Some(DataBits::Seven)
        } else if n == 8 {
            Some(DataBits::Eight)
        } else {
            None
        }
    }

    /// The setting for `n` data bits, for `n` from 5 to 8.
    pub fn from_number(n: u8) -> (r: Option<DataBits>)
        ensures
            r == Self::of_number(n),
    {
        match n {
            5 => Some(DataBits::Five),
            6 => Some(DataBits::Six),
            7 => Some(DataBits::Seven),
            8 => Some(DataBits::Eight),
            _ => None,
        }
    }

    /// The setting that a decimal numeral names: `"5"` to `"8"`.
    pub open spec fn of_word(word: Seq<char>) -> Option<DataBits> {
        if word == "5"@ {
            Some(DataBits::Five)
        } else if word == "6"@ {
            Some(DataBits::Six)
        } else if word == "7"@ {
            Some(DataBits::Seven)
        } else if word == "8"@ {
            Some(DataBits::Eight)
        } else {
            None
        }
    }

    /// The setting that a decimal numeral names: `"5"` to `"8"`.
    pub fn from_word(word: &str) -> (r: Option<DataBits>)
        ensures
            r == Self::of_word(word@),
    {
        if same_text(word, "5") {
            Some(DataBits::Five)
        } else if same_text(word, "6") {
            Some(DataBits::Six)
        } else if same_text(word, "7") {
            Some(DataBits::Seven)
        } else if same_text(word, "8") {
            Some(DataBits::Eight)
        } else {
            None
        }
    }
}

impl StopBits {
    /// The setting that a lowercase word names: `"one"` or `"1"`, `"two"` or `"2"`.
    pub open spec fn of_word(word: Seq<char>) -> Option<StopBits> {
        if word == "one"@ || word == "1"@ {
            Some(StopBits::One)
        } else if word == "two"@ || word == "2"@ {
            Some(StopBits::Two)
        } else {
            None
        }
    }

    /// The setting that a lowercase word names: `"one"` or `"1"`, `"two"` or `"2"`.
    pub fn from_word(word: &str) -> (r: Option<StopBits>)
        ensures
            r == Self::of_word(word@),
    {
        if same_text(word, "one") || same_text(word, "1") {
            Some(StopBits::One)
        } else if same_text(word, "two") || same_text(word, "2") {
            Some(StopBits::Two)
        } else {
            None
        }
    }
}

impl Parity {
    /// The setting that a lowercase word names: `"none"`, `"even"` or `"odd"`.
    pub open spec fn of_word(word: Seq<char>) -> Option<Parity> {
        if word == "none"@ {
            Some(Parity::NoParity)
        } else if word == "even"@ {
            Some(Parity::Even)
        } else if word == "odd"@ {
            Some(Parity::Odd)
        } else {
            None
        }
    }

    /// The setting that a lowercase word names: `"none"`, `"even"` or `"odd"`.
    pub fn from_word(word: &str) -> (r: Option<Parity>)
        ensures
            r == Self::of_word(word@),
    {
        if same_text(word, "none") {
            Some(Parity::NoParity)
        } else if same_text(word, "even") {
            Some(Parity::Even)
        } else if same_text(word, "odd") {
            Some(Parity::Odd)
        } else {
            None
        }
    }
}

impl FlowControl {
    /// The setting that a lowercase word names: `"none"`, `"software"` or `"hardware"`.
    pub open spec fn of_word(word: Seq<char>) -> Option<FlowControl> {
        if word == "none"@ {
            Some(FlowControl::NoFlowControl)
        } else if word == "software"@ {
            Some(FlowControl::Software)
        } else if word == "hardware"@ {
            Some(FlowControl::Hardware)
        } else {
            None
        }
    }

    /// The setting that a lowercase word names: `"none"`, `"software"` or `"hardware"`.
    pub fn from_word(word: &str) -> (r: Option<FlowControl>)
        ensures
            r == Self::of_word(word@),
    {
        if same_text(word, "none") {
            Some(FlowControl::NoFlowControl)
        } else if same_text(word, "software") {
            Some(FlowControl::Software)
        } else if same_text(word, "hardware") {
            Some(FlowControl::Hardware)
        } else {
            None
        }
    }
}

/// Eight data bits, where a request names none.
pub fn default_data_bits() -> (r: DataBits)
    ensures
        r == DataBits::Eight,
{
    DataBits::Eight
}

/// One stop bit, where a request names none.
pub fn default_stop_bits() -> (r: StopBits)
    ensures
        r == StopBits::One,
{
    StopBits::One
}

/// No parity, where a request names none.
pub fn default_parity() -> (r: Parity)
    ensures
        r == Parity::NoParity,
{
    Parity::NoParity
}

/// No flow control, where a request names none.
pub fn default_flow_control() -> (r: FlowControl)
    ensures
        r == FlowControl::NoFlowControl,
{
    FlowControl::NoFlowControl
}

/// The line settings of a connection.
#[derive(Debug)]
pub struct ConnectionConfig {
    pub port: String,
    pub baud_rate: u32,
    pub data_bits: DataBits,
    pub stop_bits: StopBits,
    pub parity: Parity,
    pub flow_control: FlowControl,
}

/// What a [`ConnectionConfig`] holds.
pub struct ConnectionConfigView {
    pub port: Seq<char>,
    pub baud_rate: u32,
    pub data_bits: DataBits,
    pub stop_bits: StopBits,
    pub parity: Parity,
    pub flow_control: FlowControl,
}

impl View for ConnectionConfig {
    type V = ConnectionConfigView;

    open spec fn view(&self) -> ConnectionConfigView {
        ConnectionConfigView {
            port: self.port@,
            baud_rate: self.baud_rate,
            data_bits: self.data_bits,
            stop_bits: self.stop_bits,
            parity: self.parity,
            flow_control: self.flow_control,
        }
    }
}

impl Clone for ConnectionConfig {
    fn clone(&self) -> (r: Self)
        ensures
            r == *self,
    {
        ConnectionConfig {
            port: self.port.clone(),
            baud_rate: self.baud_rate,
            data_bits: self.data_bits,
            stop_bits: self.stop_bits,
            parity: self.parity,
            flow_control: self.flow_control,
        }
    }
}

/// A snapshot of a connection for display.
#[derive(Debug)]
pub struct ConnectionStatus {
    pub id: String,
    pub port: String,
    pub baud_rate: u32,
    pub data_bits: DataBits,
    pub stop_bits: StopBits,
    pub parity: Parity,
    pub flow_control: FlowControl,
    pub connected: bool,
    pub created_at: Timestamp,
    pub bytes_sent: u64,
    pub bytes_received: u64,
}

/// What a [`ConnectionStatus`] holds.
pub struct ConnectionStatusView {
    pub id: Seq<char>,
    pub port: Seq<char>,
    pub baud_rate: u32,
    pub data_bits: DataBits,
    pub stop_bits: StopBits,
    pub parity: Parity,
    pub flow_control: FlowControl,
    pub connected: bool,
    pub created_at: Timestamp,
    pub bytes_sent: u64,
    pub bytes_received: u64,
}

impl View for ConnectionStatus {
    type V = ConnectionStatusView;

    open spec fn view(&self) -> ConnectionStatusView {
        ConnectionStatusView {
            id: self.id@,
            port: self.port@,
            baud_rate: self.baud_rate,
            data_bits: self.data_bits,
            stop_bits: self.stop_bits,
            parity: self.parity,
            flow_control: self.flow_control,
            connected: self.connected,
            created_at: self.created_at,
            bytes_sent: self.bytes_sent,
            bytes_received: self.bytes_received,
        }
    }
}

impl Clone for ConnectionStatus {
    fn clone(&self) -> (r: Self)
        ensures
            r == *self,
    {
        ConnectionStatus {
            id: self.id.clone(),
            port: self.port.clone(),
            baud_rate: self.baud_rate,
            data_bits: self.data_bits,
            stop_bits: self.stop_bits,
            parity: self.parity,
            flow_control: self.flow_control,
            connected: self.connected,
            created_at: self.created_at,
            bytes_sent: self.bytes_sent,
            bytes_received: self.bytes_received,
        }
    }
}

/// What the transport reports of one read or write.
#[derive(Debug)]
pub enum Transfer {
    /// The call moved this many bytes.
    Done(usize),
    /// The time allowed ran out before any byte moved.
    TimedOut,
    /// The operating system refused; holds its message.
    Failed(String),
}

/// What a [`Transfer`] holds.
pub enum TransferView {
    Done(usize),
    TimedOut,
    Failed(Seq<char>),
}

impl View for Transfer {
    type V = TransferView;

    open spec fn view(&self) -> TransferView {
        match self {
            Transfer::Done(n) => TransferView::Done(*n),
            Transfer::TimedOut => TransferView::TimedOut,
            Transfer::Failed(reason) => TransferView::Failed(reason@),
        }
    }
}

/// An open connection.
#[derive(Debug)]
pub struct SerialConnection {
    id: String,
    config: ConnectionConfig,
    created_at: Timestamp,
    bytes_sent: u64,
    bytes_received: u64,
}

/// What a [`SerialConnection`] holds.
pub struct SerialConnectionView {
    pub id: Seq<char>,
    pub config: ConnectionConfigView,
    pub created_at: Timestamp,
    pub bytes_sent: u64,
    pub bytes_received: u64,
}

impl View for SerialConnection {
    type V = SerialConnectionView;

    closed spec fn view(&self) -> SerialConnectionView {
        SerialConnectionView {
            id: self.id@,
            config: self.config@,
            created_at: self.created_at,
            bytes_sent: self.bytes_sent,
            bytes_received: self.bytes_received,
        }
    }
}

impl Clone for SerialConnection {
    fn clone(&self) -> (r: Self)
        ensures
            r == *self,
    {
        SerialConnection {
            id: self.id.clone(),
            config: self.config.clone(),
            created_at: self.created_at,
            bytes_sent: self.bytes_sent,
            bytes_received: self.bytes_received,
        }
    }
}

/// The highest baud rate a connection takes.
pub const MAX_BAUD_RATE: u32 = 4_000_000;

impl SerialConnectionView {
    /// The connection that `new` makes of its arguments, of the identifier
    /// `id` and of the time `now`: rejected for a baud rate that is zero or
    /// above four million, failed where the port did not open, and else fresh
    /// with both counters at zero.
    pub open spec fn create(
        config: ConnectionConfigView,
        opened: Result<(), Seq<char>>,
        id: Seq<char>,
        now: Timestamp,
    ) -> Result<SerialConnectionView, SerialErrorView> {
        if config.baud_rate == 0 || config.baud_rate > MAX_BAUD_RATE {
            Err(SerialErrorView::InvalidBaudRate(config.baud_rate))
        } else {
            match opened {
                Err(reason) => Err(SerialErrorView::ConnectionFailed(config.port + ": "@ + reason)),
                Ok(_) => Ok(
                    SerialConnectionView { id, config, created_at: now, bytes_sent: 0, bytes_received: 0 },
                ),
            }
        }
    }

    /// The snapshot that `status` gives.
    pub open spec fn status(self) -> ConnectionStatusView {
        ConnectionStatusView {
            id: self.id,
            port: self.config.port,
            baud_rate: self.config.baud_rate,
            data_bits: self.config.data_bits,
            stop_bits: self.config.stop_bits,
            parity: self.config.parity,
            flow_control: self.config.flow_control,
            connected: true,
            created_at: self.created_at,
            bytes_sent: self.bytes_sent,
            bytes_received: self.bytes_received,
        }
    }

    /// The connection after a write that the transport reports as `outcome`.
    pub open spec fn after_write(self, outcome: TransferView) -> SerialConnectionView {
        match outcome {
            TransferView::Done(n) => SerialConnectionView { bytes_sent: (self.bytes_sent + n) as u64, ..self },
            _ => self,
        }
    }

    /// The connection after a read that the transport reports as `outcome`.
    pub open spec fn after_read(self, outcome: TransferView) -> SerialConnectionView {
        match outcome {
            TransferView::Done(n) => SerialConnectionView {
                bytes_received: (self.bytes_received + n) as u64,
                ..self
            },
            _ => self,
        }
    }

    /// What a write returns for the transport's `outcome`.
    pub open spec fn written(outcome: TransferView) -> Result<usize, SerialErrorView> {
        match outcome {
            TransferView::Done(n) => Ok(n),
            TransferView::TimedOut => Err(SerialErrorView::WriteTimeout),
            TransferView::Failed(reason) => Err(SerialErrorView::IoError(reason)),
        }
    }

    /// What a read returns for the transport's `outcome`.
    pub open spec fn read(outcome: TransferView) -> Result<usize, SerialErrorView> {
        match outcome {
            TransferView::Done(n) => Ok(n),
            TransferView::TimedOut => Err(SerialErrorView::ReadTimeout),
            TransferView::Failed(reason) => Err(SerialErrorView::IoError(reason)),
        }
    }

    /// What `reconfigure` returns for a requested baud rate.
    pub open spec fn reconfigured(new_baud_rate: Option<u32>) -> Result<(), SerialErrorView> {
        match new_baud_rate {
            None => Ok(()),
            Some(baud_rate) => if baud_rate == 0 || baud_rate > MAX_BAUD_RATE {
                Err(SerialErrorView::InvalidBaudRate(baud_rate))
            } else {
                Err(
                    SerialErrorView::InvalidConfig(
                        "Runtime reconfiguration not supported. Please close and reopen the connection."@,
                    ),
                )
            },
        }
    }
}

impl SerialConnection {
    /// Whether a connection takes this baud rate: above zero, at most four million.
    pub fn accepts_baud_rate(baud_rate: u32) -> (r: bool)
        ensures
            r == !(baud_rate == 0 || baud_rate > MAX_BAUD_RATE),
    {
        !(baud_rate == 0 || baud_rate > MAX_BAUD_RATE)
    }

    /// The connection with the given identifier and time of creation, where
    /// `opened` tells whether the transport opened the port.
    pub fn from_parts(config: ConnectionConfig, opened: Result<(), String>, id: String, created_at: Timestamp) -> (r:
        Result<SerialConnection, SerialError>)
        ensures
            result_view(r) == SerialConnectionView::create(config@, result_view(opened), id@, created_at),
    {
        if config.baud_rate == 0 || config.baud_rate > MAX_BAUD_RATE {
            return Err(SerialError::InvalidBaudRate(config.baud_rate));
        }
        match opened {
            Err(reason) => {
                let mut message = config.port.clone();
                message.append(": ");
                message.append(reason.as_str());
                Err(SerialError::ConnectionFailed(message))
            },
            Ok(_) => Ok(SerialConnection { id, config, created_at, bytes_sent: 0, bytes_received: 0 }),
        }
    }

    /// A connection for a port that the transport has tried to open, with a
    /// fresh random identifier and the present time. The baud rate is checked
    /// first: call [`Self::accepts_baud_rate`] before opening the port to
    /// spare the attempt.
    pub fn new(config: ConnectionConfig, opened: Result<(), String>) -> (r: Result<SerialConnection, SerialError>)
        ensures
            exists|id: Seq<char>, created_at: Timestamp|
                is_uuid_text(id) && result_view(r) == #[trigger] SerialConnectionView::create(
                    config@,
                    result_view(opened),
                    id,
                    created_at,
                ),
    {
        let id = new_uuid_text();
        let created_at: Timestamp = now();
        Self::from_parts(config, opened, id, created_at)
    }

    /// The connection's identifier.
    pub fn id(&self) -> (r: &str)
        ensures
            r@ == self@.id,
    {
        self.id.as_str()
    }

    /// The line settings the connection was opened with.
    pub fn config(&self) -> (r: &ConnectionConfig)
        ensures
            r@ == self@.config,
    {
        &self.config
    }

    /// Takes note of a write that the transport reports as `outcome`: the
    /// bytes it moved are added to the bytes sent.
    pub fn write(&mut self, outcome: Transfer) -> (r: Result<usize, SerialError>)
        requires
            outcome@ matches TransferView::Done(n) ==> old(self)@.bytes_sent + n <= u64::MAX,
        ensures
            final(self)@ == old(self)@.after_write(outcome@),
            result_view(r) == SerialConnectionView::written(outcome@),
    {
        match outcome {
            Transfer::Done(n) => {
                self.bytes_sent = self.bytes_sent + n as u64;
                Ok(n)
            },
            Transfer::TimedOut => Err(SerialError::WriteTimeout),
            Transfer::Failed(reason) => Err(SerialError::IoError(reason)),
        }
    }

    /// Takes note of a read that the transport reports as `outcome`: the bytes
    /// it moved are added to the bytes received.
    pub fn read(&mut self, outcome: Transfer) -> (r: Result<usize, SerialError>)
        requires
            outcome@ matches TransferView::Done(n) ==> old(self)@.bytes_received + n <= u64::MAX,
        ensures
            final(self)@ == old(self)@.after_read(outcome@),
            result_view(r) == SerialConnectionView::read(outcome@),
    {
        match outcome {
            Transfer::Done(n) => {
                self.bytes_received = self.bytes_received + n as u64;
                Ok(n)
            },
            Transfer::TimedOut => Err(SerialError::ReadTimeout),
            Transfer::Failed(reason) => Err(SerialError::IoError(reason)),
        }
    }

    /// A snapshot of the connection.
    pub fn status(&self) -> (r: ConnectionStatus)
        ensures
            r@ == self@.status(),
    {
        ConnectionStatus {
            id: self.id.clone(),
            port: self.config.port.clone(),
            baud_rate: self.config.baud_rate,
            data_bits: self.config.data_bits,
            stop_bits: self.config.stop_bits,
            parity: self.config.parity,
            flow_control: self.config.flow_control,
            connected: true,
            created_at: self.created_at,
            bytes_sent: self.bytes_sent,
            bytes_received: self.bytes_received,
        }
    }

    /// Changes the baud rate of an open connection, which the transport does
    /// not support: a valid rate is refused with an explanation, an invalid
    /// one as invalid, and no rate at all is accepted.
    pub fn reconfigure(&self, new_baud_rate: Option<u32>) -> (r: Result<(), SerialError>)
        ensures
            result_view(r) == SerialConnectionView::reconfigured(new_baud_rate),
    {
        match new_baud_rate {
            None => Ok(()),
            Some(baud_rate) => {
                if baud_rate == 0 || baud_rate > MAX_BAUD_RATE {
                    Err(SerialError::InvalidBaudRate(baud_rate))
                } else {
                    Err(
                        SerialError::InvalidConfig(
                            String::from_str(
                                "Runtime reconfiguration not supported. Please close and reopen the connection.",
                            ),
                        ),
                    )
                }
            },
        }
    }
}

} // verus!
