//! The five tools of the server: listing ports, and opening, closing,
//! writing to and reading from a connection.
//!
//! The handler decides and keeps the books; the caller drives the port. A
//! tool takes its arguments together with what the transport reported, and
//! gives the text of its answer: `Ok` for a success, `Err` for a failure.

use super::types::{
    decode_data, decoded_as, encode_data, encoded_as, CloseArgs, OpenArgs, ReadArgs,
    ReadArgsView, WriteArgs, WriteArgsView,
};
use crate::clock::Timestamp;
use crate::config::{Config, ConfigView};
use crate::encoding::{base64_len, bytes_view, text_view};
use crate::ident::is_uuid_text;
use crate::model::{list_view, option_view, result_view};
use crate::serial::connection::{
    ConnectionConfig, ConnectionConfigView, SerialConnection, SerialConnectionView, Transfer, TransferView,
    MAX_BAUD_RATE,
};
use crate::serial::error::SerialError as LocalSerialError;
use crate::serial::error::SerialErrorView as LocalSerialErrorView;
use crate::serial::port::{DetectedPort, DetectedPortView, PortInfo, PortInfoView};
use crate::serial::{ConnectionManager};
use crate::text::{debug_quoted, debug_text, decimal_text, labelled, push_decimal};
use vstd::prelude::*;
use vstd::string::*;

verus! {

/// The answer of a tool: the text of a success or of a failure.
pub type ToolResult = Result<String, String>;

/// What the transport reports of one read.
#[derive(Debug)]
pub enum Received {
    /// The bytes that arrived; none if the device sent nothing.
    Data(Vec<u8>),
    /// The time allowed ran out.
    TimedOut,
    /// The operating system refused; holds its message.
    Failed(String),
}

/// What a [`Received`] holds.
pub enum ReceivedView {
    Data(Seq<u8>),
    TimedOut,
    Failed(Seq<char>),
}

impl View for Received {
    type V = ReceivedView;

    open spec fn view(&self) -> ReceivedView {
        match self {
            Received::Data(bytes) => ReceivedView::Data(bytes@),
            Received::TimedOut => ReceivedView::TimedOut,
            Received::Failed(reason) => ReceivedView::Failed(reason@),
        }
    }
}

impl ReceivedView {
    /// The read as the connection counts it.
    pub open spec fn transfer(self) -> TransferView {
        match self {
            ReceivedView::Data(bytes) => TransferView::Done(bytes.len() as usize),
            ReceivedView::TimedOut => TransferView::TimedOut,
            ReceivedView::Failed(reason) => TransferView::Failed(reason),
        }
    }
}

/// The line that `list_ports` writes for one port.
pub open spec fn port_line(port: PortInfoView) -> Seq<char> {
    "- "@ + port.name + ": "@ + port.description + match port.hardware_id {
        Some(id) => " ("@ + id + ")"@,
        None => Seq::empty(),
    }
}

/// The lines that `list_ports` writes for `ports`, one below the other.
pub open spec fn port_lines(ports: Seq<PortInfoView>) -> Seq<char>
    decreases ports.len(),
{
    if ports.len() == 0 {
        Seq::empty()
    } else if ports.len() == 1 {
        port_line(ports[0])
    } else {
        port_lines(ports.drop_last()) + "\n"@ + port_line(ports.last())
    }
}

/// The answer of `list_ports` for what the driver found.
pub open spec fn ports_answer(found: Result<Seq<DetectedPortView>, Seq<char>>) -> Result<Seq<char>, Seq<char>> {
    match found {
        Err(reason) => Err("Failed to list ports: "@ + reason),
        Ok(ports) => Ok(
            if ports.len() == 0 {
                "No serial ports found on the system"@
            } else {
                "Found "@ + decimal_text(ports.len()) + " serial ports:\n"@ + port_lines(
                    ports.map_values(|p: DetectedPortView| p.info()),
                )
            },
        ),
    }
}

/// The answer of `open` for the settings `config`, where the registry
/// answered `opened`.
pub open spec fn open_answer(config: ConnectionConfigView, opened: Result<Seq<char>, LocalSerialErrorView>) -> Result<
    Seq<char>,
    Seq<char>,
> {
    match opened {
        Ok(id) => Ok(
            "Serial connection opened\nConnection ID: "@ + id + "\nPort: "@ + config.port + "\nBaud rate: "@
                + decimal_text(config.baud_rate as nat),
        ),
        Err(e) => Err("Error: Failed to open port "@ + config.port + " - "@ + e.text()),
    }
}

/// The answer of `close` for the connection `id`, which the registry held or not.
pub open spec fn close_answer(id: Seq<char>, known: bool) -> Result<Seq<char>, Seq<char>> {
    if known {
        Ok("Serial connection closed\nConnection ID: "@ + id)
    } else {
        Err(
            "Error: Failed to close connection "@ + id + " - "@ + LocalSerialErrorView::InvalidConnection(id).text(),
        )
    }
}

/// The failure of a tool that is asked for a connection that is not there.
pub open spec fn not_found(id: Seq<char>) -> Seq<char> {
    "Error: Connection ID "@ + id + " not found"@
}

/// The bytes that `write` has the transport send, or the failure that
/// keeps it from sending: an unknown connection, or data that its encoding
/// cannot take.
pub open spec fn write_request(known: bool, args: WriteArgsView) -> Result<Seq<u8>, Seq<char>> {
    if !known {
        Err(not_found(args.connection_id))
    } else {
        match decoded_as(args.data, args.encoding) {
            Ok(bytes) => Ok(bytes),
            Err(e) => Err("Error: Data decoding failed - "@ + e),
        }
    }
}

/// The answer of `write`, where the transport reports `outcome` of sending
/// the bytes of the request.
pub open spec fn write_answer(known: bool, args: WriteArgsView, outcome: TransferView) -> Result<
    Seq<char>,
    Seq<char>,
> {
    match write_request(known, args) {
        Err(e) => Err(e),
        Ok(_) => match SerialConnectionView::written(outcome) {
            Ok(n) => Ok(
                "Data sent successfully\nConnection ID: "@ + args.connection_id + "\nBytes written: "@
                    + decimal_text(n as nat) + "\nData: "@ + debug_text(args.data),
            ),
            Err(e) => Err("Error: Data sending failed - "@ + e.text()),
        },
    }
}

/// A write in UTF-8, under any name of that encoding, has the transport
/// send the bytes of the data as they are; and where the transport moves `n`
/// bytes, the answer reports `n` bytes written and shows the data.
pub proof fn law_write_in_utf8(args: WriteArgsView, n: usize)
    ensures
        crate::tools::types::Encoding::of_word(crate::text::lowercase_of(args.encoding)) == Some(
            crate::tools::types::Encoding::Utf8,
        ) ==> {
            &&& write_request(true, args) == Ok::<Seq<u8>, Seq<char>>(vstd::utf8::encode_utf8(args.data))
            &&& write_answer(true, args, TransferView::Done(n)) == Ok::<Seq<char>, Seq<char>>(
                "Data sent successfully\nConnection ID: "@ + args.connection_id + "\nBytes written: "@
                    + decimal_text(n as nat) + "\nData: "@ + debug_text(args.data),
            )
        },
        write_request(false, args) == Err::<Seq<u8>, Seq<char>>(not_found(args.connection_id)),
{
}

/// What `read` answers where nothing arrived in time: a success that
/// reports no bytes.
pub open spec fn timeout_message(args: ReadArgsView) -> Seq<char> {
    "Read timeout\nConnection ID: "@ + args.connection_id + "\nTimeout: "@ + decimal_text(args.timeout() as nat)
        + "ms\nBytes read: 0"@
}

/// The answer of `read`, where the transport reports `received`. Data that
/// arrived is shown in the encoding asked for; no data, or none in time, is
/// a success that reports no bytes; any other failure of the transport is a
/// failure of the tool.
pub open spec fn read_answer(known: bool, args: ReadArgsView, received: ReceivedView) -> Result<
    Seq<char>,
    Seq<char>,
> {
    if !known {
        Err(not_found(args.connection_id))
    } else {
        match received {
            ReceivedView::Data(bytes) => match encoded_as(bytes, args.encoding) {
                Ok(text) => Ok(
                    if bytes.len() > 0 {
                        "Data read successfully\nConnection ID: "@ + args.connection_id + "\nBytes read: "@
                            + decimal_text(bytes.len()) + "\nData: "@ + debug_text(text)
                    } else {
                        timeout_message(args)
                    },
                ),
                Err(e) => Err("Error: Data encoding failed - "@ + e),
            },
            ReceivedView::TimedOut => Ok(timeout_message(args)),
            ReceivedView::Failed(reason) => Err(
                "Error: Data reading failed - "@ + LocalSerialErrorView::IoError(reason).text(),
            ),
        }
    }
}

/// The tools of the server, with the registry of the connections they opened.
#[derive(Debug)]
pub struct SerialHandler {
    connection_manager: ConnectionManager,
    config: Config,
}

impl View for SerialHandler {
    type V = Map<Seq<char>, SerialConnectionView>;

    /// The open connections by identifier.
    closed spec fn view(&self) -> Map<Seq<char>, SerialConnectionView> {
        self.connection_manager@
    }
}

impl SerialHandler {
    /// Whether several connections may be open on one port.
    pub closed spec fn shares_ports(&self) -> bool {
        self.connection_manager.shares_ports()
    }

    /// The configuration that the handler was made with.
    pub closed spec fn config(&self) -> ConfigView {
        self.config@
    }

    /// The registry of connections is well-formed.
    pub closed spec fn wf(&self) -> bool {
        self.connection_manager.wf()
    }

    /// A handler without connections. Whether ports are shared is taken
    /// from the configuration.
    pub fn new(config: Config) -> (r: Self)
        ensures
            r.wf(),
            r@ == Map::<Seq<char>, SerialConnectionView>::empty(),
            r.shares_ports() == config@.serial.allow_port_sharing,
            r.config() == config@,
    {
        let connection_manager = ConnectionManager::with_port_sharing(config.serial.allow_port_sharing);
        SerialHandler { connection_manager, config }
    }

    /// The registry of connections.
    pub fn connections(&self) -> (r: &ConnectionManager)
        ensures
            r@ == self@,
            r.wf() == self.wf(),
            r.shares_ports() == self.shares_ports(),
    {
        &self.connection_manager
    }

    /// Lists the serial ports of the machine, which the driver found or
    /// failed to find.
    pub fn list_ports(&self, found: Result<Vec<DetectedPort>, String>) -> (r: ToolResult)
        ensures
            text_view(r) == ports_answer(
                match found {
                    Ok(ports) => Ok(list_view(ports@)),
                    Err(reason) => Err(reason@),
                },
            ),
    {
        match found {
            Err(reason) => Err(labelled("Failed to list ports: ", reason.as_str())),
            Ok(found) => {
                let ports = PortInfo::list_ports(&found);
                let ghost infos = list_view(found@).map_values(|p: DetectedPortView| p.info());
                assert(list_view(ports@) =~= infos);
                if ports.len() == 0 {
                    return Ok(String::from_str("No serial ports found on the system"));
                }
                let mut message = String::from_str("Found ");
                push_decimal(&mut message, ports.len() as u64);
                message.append(" serial ports:\n");
                let ghost head = message@;
                let mut i: usize = 0;
                assert(infos.take(0) =~= Seq::<PortInfoView>::empty());
                while i < ports.len()
                    invariant
                        i <= ports.len(),
                        list_view(ports@) == infos,
                        message@ == head + port_lines(infos.take(i as int)),
                    decreases ports.len() - i,
                {
                    let port = &ports[i];
                    let ghost before = message@;
                    proof {
                        assert(infos.take(i + 1).drop_last() =~= infos.take(i as int));
                        assert(infos.take(i + 1).last() == infos[i as int]);
                        assert(infos.take(i + 1)[0] == infos[0]);
                        assert(infos[i as int] == port@);
                    }
                    if i > 0 {
                        message.append("\n");
                    }
                    message.append("- ");
                    message.append(port.name.as_str());
                    message.append(": ");
                    message.append(port.description.as_str());
                    match &port.hardware_id {
                        Some(id) => {
                            message.append(" (");
                            message.append(id.as_str());
                            message.append(")");
                        },
                        None => {},
                    }
                    proof {
                        let line = port_line(port@);
                        if i > 0 {
                            assert(message@ =~= before + "\n"@ + line);
                            assert(message@ =~= head + (port_lines(infos.take(i as int)) + "\n"@ + line));
                        } else {
                            assert(port_lines(infos.take(0)) =~= Seq::<char>::empty());
                            assert(message@ =~= head + line);
                        }
                    }
                    i += 1;
                }
                assert(infos.take(ports.len() as int) =~= infos);
                Ok(message)
            },
        }
    }

    /// The line settings of the port that an `open` with `args` has the
    /// transport open; or nothing where the baud rate is one that no
    /// connection takes, so that `open` fails whatever the transport reports.
    pub fn open_request(&self, args: &OpenArgs) -> (r: Option<ConnectionConfig>)
        ensures
            match r {
                Some(settings) => settings@ == args@.settings() && 0 < settings.baud_rate <= MAX_BAUD_RATE,
                None => args@.baud_rate == 0 || args@.baud_rate > MAX_BAUD_RATE,
            },
    {
        let settings = args.settings();
        if SerialConnection::accepts_baud_rate(settings.baud_rate) {
            Some(settings)
        } else {
            None
        }
    }

    /// Opens a connection with the settings that `args` name, once the
    /// transport has tried to open the port and reports `opened`. Returns the
    /// answer of the tool, and with it the identifier of the connection that
    /// was entered in the registry, if one was.
    pub fn open(&mut self, args: OpenArgs, opened: Result<(), String>) -> (r: (Option<String>, ToolResult))
        requires
            old(self).wf(),
        ensures
            final(self).wf(),
            final(self).shares_ports() == old(self).shares_ports(),
            final(self).config() == old(self).config(),
            exists|id: Seq<char>, created_at: Timestamp, answer: Result<Seq<char>, LocalSerialErrorView>|
                is_uuid_text(id) && #[trigger] ConnectionManager::opens(
                    old(self)@,
                    old(self).shares_ports(),
                    SerialConnectionView::create(args@.settings(), result_view(opened), id, created_at),
                    answer,
                    final(self)@,
                ) && text_view(r.1) == open_answer(args@.settings(), answer) && option_view(r.0) == match answer {
                    Ok(id) => Some(id),
                    Err(_) => None,
                },
    {
        let config = ConnectionConfig::from(args);
        let answer = self.connection_manager.open(config.clone(), opened);
        let ghost answered = result_view(answer);
        let r = match answer {
            Ok(connection_id) => {
                let mut message = String::from_str("Serial connection opened\nConnection ID: ");
                message.append(connection_id.as_str());
                message.append("\nPort: ");
                message.append(config.port.as_str());
                message.append("\nBaud rate: ");
                push_decimal(&mut message, config.baud_rate as u64);
                (Some(connection_id), Ok(message))
            },
            Err(e) => {
                let mut message = String::from_str("Error: Failed to open port ");
                message.append(config.port.as_str());
                message.append(" - ");
                message.append(e.to_string().as_str());
                (None, Err(message))
            },
        };
        proof {
            let (id, created_at) = choose|id: Seq<char>, created_at: Timestamp|
                is_uuid_text(id) && #[trigger] ConnectionManager::opens(
                    old(self)@,
                    old(self).shares_ports(),
                    SerialConnectionView::create(config@, result_view(opened), id, created_at),
                    answered,
                    self@,
                );
            assert(ConnectionManager::opens(
                old(self)@,
                old(self).shares_ports(),
                SerialConnectionView::create(args@.settings(), result_view(opened), id, created_at),
                answered,
                self@,
            ));
            assert(text_view(r.1) == open_answer(args@.settings(), answered));
        }
        r
    }

    /// Closes the connection that `args` name.
    pub fn close(&mut self, args: CloseArgs) -> (r: ToolResult)
        requires
            old(self).wf(),
        ensures
            final(self).wf(),
            final(self).shares_ports() == old(self).shares_ports(),
            final(self).config() == old(self).config(),
            final(self)@ == old(self)@.remove(args@.connection_id),
            text_view(r) == close_answer(args@.connection_id, old(self)@.contains_key(args@.connection_id)),
    {
        match self.connection_manager.close(args.connection_id.as_str()) {
            Ok(_) => Ok(labelled("Serial connection closed\nConnection ID: ", args.connection_id.as_str())),
            Err(e) => {
                let mut message = String::from_str("Error: Failed to close connection ");
                message.append(args.connection_id.as_str());
                message.append(" - ");
                message.append(e.to_string().as_str());
                Err(message)
            },
        }
    }

    fn connection_not_found(connection_id: &str) -> (r: String)
        ensures
            r@ == not_found(connection_id@),
    {
        let mut message = String::from_str("Error: Connection ID ");
        message.append(connection_id);
        message.append(" not found");
        message
    }

    /// The bytes that a `write` with `args` has the transport send.
    pub fn write_request(&self, args: &WriteArgs) -> (r: Result<Vec<u8>, String>)
        requires
            self.wf(),
        ensures
            bytes_view(r) == write_request(self@.contains_key(args@.connection_id), args@),
    {
        if self.connection_manager.get(args.connection_id.as_str()).is_err() {
            return Err(Self::connection_not_found(args.connection_id.as_str()));
        }
        match decode_data(args.data.as_str(), args.encoding.as_str()) {
            Ok(bytes) => Ok(bytes),
            Err(e) => Err(labelled("Error: Data decoding failed - ", e.as_str())),
        }
    }

    /// The connection `id` can count `n` more bytes as sent.
    pub open spec fn can_write(&self, id: Seq<char>, outcome: TransferView) -> bool {
        self@.contains_key(id) ==> (outcome matches TransferView::Done(n) ==> self@[id].bytes_sent + n <= u64::MAX)
    }

    /// The connection `id` can count the bytes of `received` as received,
    /// and their text fits into memory.
    pub open spec fn can_read(&self, id: Seq<char>, received: ReceivedView) -> bool {
        received matches ReceivedView::Data(bytes) ==> base64_len(bytes.len()) <= usize::MAX && (self@.contains_key(
            id,
        ) ==> self@[id].bytes_received + bytes.len() <= u64::MAX)
    }

    /// Writes to the connection that `args` name, once the transport has
    /// sent the bytes of [`Self::write_request`] and reports `outcome`. The
    /// bytes that it moved are counted on the connection.
    pub fn write(&mut self, args: WriteArgs, outcome: Transfer) -> (r: ToolResult)
        requires
            old(self).wf(),
            old(self).can_write(args@.connection_id, outcome@),
        ensures
            final(self).wf(),
            final(self).shares_ports() == old(self).shares_ports(),
            final(self).config() == old(self).config(),
            text_view(r) == write_answer(old(self)@.contains_key(args@.connection_id), args@, outcome@),
            final(self)@ == if write_request(old(self)@.contains_key(args@.connection_id), args@) is Ok {
                old(self)@.insert(args@.connection_id, old(self)@[args@.connection_id].after_write(outcome@))
            } else {
                old(self)@
            },
    {
        match self.write_request(&args) {
            Err(e) => return Err(e),
            Ok(_) => {},
        }
        match self.connection_manager.write(args.connection_id.as_str(), outcome) {
            Ok(bytes_written) => {
                let mut message = String::from_str("Data sent successfully\nConnection ID: ");
                message.append(args.connection_id.as_str());
                message.append("\nBytes written: ");
                push_decimal(&mut message, bytes_written as u64);
                message.append("\nData: ");
                message.append(debug_quoted(args.data.as_str()).as_str());
                Ok(message)
            },
            Err(e) => Err(labelled("Error: Data sending failed - ", e.to_string().as_str())),
        }
    }

    /// The most bytes that a `read` with `args` has the transport read, and
    /// the time in milliseconds that it has the transport wait for them; or
    /// the failure that keeps it from reading: an unknown connection.
    pub fn read_request(&self, args: &ReadArgs) -> (r: Result<(usize, u64), String>)
        requires
            self.wf(),
        ensures
            match r {
                Ok((max_bytes, timeout_ms)) => self@.contains_key(args@.connection_id) && max_bytes
                    == args@.max_bytes && timeout_ms == args@.timeout(),
                Err(e) => !self@.contains_key(args@.connection_id) && e@ == not_found(args@.connection_id),
            },
    {
        if self.connection_manager.get(args.connection_id.as_str()).is_err() {
            return Err(Self::connection_not_found(args.connection_id.as_str()));
        }
        Ok((args.max_bytes, args.timeout()))
    }

    fn timeout_answer(args: &ReadArgs) -> (r: String)
        ensures
            r@ == timeout_message(args@),
    {
        let mut message = String::from_str("Read timeout\nConnection ID: ");
        message.append(args.connection_id.as_str());
        message.append("\nTimeout: ");
        push_decimal(&mut message, args.timeout());
        message.append("ms\nBytes read: 0");
        message
    }

    /// Reads from the connection that `args` name, once the transport has
    /// read and reports `received`. The bytes that arrived are counted on
    /// the connection.
    pub fn read(&mut self, args: ReadArgs, received: Received) -> (r: ToolResult)
        requires
            old(self).wf(),
            old(self).can_read(args@.connection_id, received@),
        ensures
            final(self).wf(),
            final(self).shares_ports() == old(self).shares_ports(),
            final(self).config() == old(self).config(),
            text_view(r) == read_answer(old(self)@.contains_key(args@.connection_id), args@, received@),
            final(self)@ == if old(self)@.contains_key(args@.connection_id) {
                old(self)@.insert(
                    args@.connection_id,
                    old(self)@[args@.connection_id].after_read(received@.transfer()),
                )
            } else {
                old(self)@
            },
    {
        match self.read_request(&args) {
            Err(e) => return Err(e),
            Ok(_) => {},
        }
        match received {
            Received::Data(buffer) => {
                let _counted = self.connection_manager.read(
                    args.connection_id.as_str(),
                    Transfer::Done(buffer.len()),
                );
                match encode_data(buffer.as_slice(), args.encoding.as_str()) {
                    Ok(encoded) => {
                        if buffer.len() > 0 {
                            let mut message = String::from_str("Data read successfully\nConnection ID: ");
                            message.append(args.connection_id.as_str());
                            message.append("\nBytes read: ");
                            push_decimal(&mut message, buffer.len() as u64);
                            message.append("\nData: ");
                            message.append(debug_quoted(encoded.as_str()).as_str());
                            Ok(message)
                        } else {
                            Ok(Self::timeout_answer(&args))
                        }
                    },
                    Err(e) => Err(labelled("Error: Data encoding failed - ", e.as_str())),
                }
            },
            Received::TimedOut => {
                let _counted = self.connection_manager.read(args.connection_id.as_str(), Transfer::TimedOut);
                Ok(Self::timeout_answer(&args))
            },
            Received::Failed(reason) => {
                let failure = LocalSerialError::IoError(reason.clone());
                let _counted = self.connection_manager.read(args.connection_id.as_str(), Transfer::Failed(reason));
                Err(labelled("Error: Data reading failed - ", failure.to_string().as_str()))
            },
        }
    }
}

} // verus!
