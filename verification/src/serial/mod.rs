//! Connections and their registry.

pub mod connection;
pub mod error;
pub mod port;

pub use connection::{
    ConnectionConfig, ConnectionStatus, DataBits, FlowControl, Parity, SerialConnection, StopBits, Transfer,
};
pub use error::SerialError as LocalSerialError;
pub use port::PortInfo;

use crate::clock::Timestamp;
use crate::error::{SerialError, SerialErrorView};
use crate::ident::is_uuid_text;
use crate::model::result_view;
use crate::registry::Registry;
use crate::text::{lowercase_of, to_lowercase};
use connection::{ConnectionConfigView, SerialConnectionView, TransferView};
use error::SerialErrorView as LocalSerialErrorView;
use vstd::prelude::*;
use vstd::string::*;

verus! {

/// Some connection of `connections` is open on `port`.
pub open spec fn port_connected(connections: Map<Seq<char>, SerialConnectionView>, port: Seq<char>) -> bool {
    exists|id: Seq<char>| #[trigger] connections.contains_key(id) && connections[id].config.port == port
}

/// No two connections of `connections` are open on the same port.
pub open spec fn ports_distinct(connections: Map<Seq<char>, SerialConnectionView>) -> bool {
    forall|a: Seq<char>, b: Seq<char>|
        #[trigger] connections.contains_key(a) && #[trigger] connections.contains_key(b) && a != b
            ==> connections[a].config.port != connections[b].config.port
}

/// The line settings that the words of a request name. The words for stop
/// bits, parity and flow control are taken in lowercase; the error for a word
/// that names nothing holds the word as it was given.
pub open spec fn resolved_config(
    port_name: Seq<char>,
    baud_rate: u32,
    data_bits: u8,
    stop_bits: Seq<char>,
    parity: Seq<char>,
    flow_control: Seq<char>,
) -> Result<ConnectionConfigView, SerialErrorView> {
    if DataBits::of_number(data_bits) is None {
        Err(SerialErrorView::InvalidDataBits(data_bits))
    } else if StopBits::of_word(lowercase_of(stop_bits)) is None {
        Err(SerialErrorView::InvalidStopBits(stop_bits))
    } else if Parity::of_word(lowercase_of(parity)) is None {
        Err(SerialErrorView::InvalidParity(parity))
    } else if FlowControl::of_word(lowercase_of(flow_control)) is None {
        Err(SerialErrorView::InvalidFlowControl(flow_control))
    } else {
        Ok(
            ConnectionConfigView {
                port: port_name,
                baud_rate,
                data_bits: DataBits::of_number(data_bits)->0,
                stop_bits: StopBits::of_word(lowercase_of(stop_bits))->0,
                parity: Parity::of_word(lowercase_of(parity))->0,
                flow_control: FlowControl::of_word(lowercase_of(flow_control))->0,
            },
        )
    }
}

/// What `connect` returns for resolved settings `config`, once the transport
/// has reported `opened`: a failure of the connection layer is wrapped as a
/// failed connection that holds its message.
pub open spec fn connection_outcome(
    config: Result<ConnectionConfigView, SerialErrorView>,
    opened: Result<(), Seq<char>>,
    id: Seq<char>,
    now: Timestamp,
) -> Result<SerialConnectionView, SerialErrorView> {
    match config {
        Err(e) => Err(e),
        Ok(config) => match SerialConnectionView::create(config, opened, id, now) {
            Ok(connection) => Ok(connection),
            Err(e) => Err(SerialErrorView::ConnectionFailed(e.text())),
        },
    }
}

/// The registry of open connections, by connection identifier.
#[derive(Debug)]
pub struct ConnectionManager {
    connections: Registry<SerialConnection>,
    allow_port_sharing: bool,
}

impl View for ConnectionManager {
    type V = Map<Seq<char>, SerialConnectionView>;

    /// The connections by identifier.
    closed spec fn view(&self) -> Map<Seq<char>, SerialConnectionView> {
        self.connections@
    }
}

impl ConnectionManager {
    /// Whether several connections may be open on one port.
    pub closed spec fn shares_ports(&self) -> bool {
        self.allow_port_sharing
    }

    /// The connections in the order in which `list` shows them.
    pub closed spec fn entries(&self) -> Seq<SerialConnectionView> {
        self.connections.values()
    }

    /// The registry is finite, every connection stands under its own
    /// identifier, and unless ports are shared no port is connected twice.
    pub closed spec fn wf(&self) -> bool {
        &&& self.connections.wf()
        &&& forall|id: Seq<char>| #[trigger] self@.contains_key(id) ==> self@[id].id == id
        &&& !self.allow_port_sharing ==> ports_distinct(self@)
    }

    /// What well-formedness means for the map of connections.
    pub proof fn lemma_wf(&self)
        requires
            self.wf(),
        ensures
            self@.dom().finite(),
            forall|id: Seq<char>| #[trigger] self@.contains_key(id) ==> self@[id].id == id,
            !self.shares_ports() ==> ports_distinct(self@),
            self.entries().len() == self@.len(),
            forall|i: int|
                0 <= i < self.entries().len() ==> self@.contains_key((#[trigger] self.entries()[i]).id) && self@[self.entries()[i].id]
                    == self.entries()[i],
            forall|id: Seq<char>| #[trigger]
                self@.contains_key(id) ==> exists|i: int|
                    0 <= i < self.entries().len() && #[trigger] self.entries()[i] == self@[id],
    {
        self.connections.lemma_view();
        assert forall|i: int| 0 <= i < self.entries().len() implies self@.contains_key(
            (#[trigger] self.entries()[i]).id,
        ) && self@[self.entries()[i].id] == self.entries()[i] by {
            let k = self.connections.keys()[i];
            assert(self@.contains_key(k));
        }
        assert forall|id: Seq<char>| #[trigger] self@.contains_key(id) implies exists|i: int|
            0 <= i < self.entries().len() && #[trigger] self.entries()[i] == self@[id] by {
            let i = self.connections.keys().index_of(id);
            assert(self.connections.keys()[i] == id);
            assert(self.entries()[i] == self@[id]);
        }
    }

    /// An empty registry in which a port can be connected once only.
    pub fn new() -> (r: Self)
        ensures
            r.wf(),
            r@ == Map::<Seq<char>, SerialConnectionView>::empty(),
            !r.shares_ports(),
    {
        ConnectionManager { connections: Registry::new(), allow_port_sharing: false }
    }

    /// An empty registry; `allow_port_sharing` says whether several
    /// connections may be open on one port.
    pub fn with_port_sharing(allow_port_sharing: bool) -> (r: Self)
        ensures
            r.wf(),
            r@ == Map::<Seq<char>, SerialConnectionView>::empty(),
            r.shares_ports() == allow_port_sharing,
    {
        ConnectionManager { connections: Registry::new(), allow_port_sharing }
    }

    /// The number of open connections.
    pub fn len(&self) -> (r: usize)
        requires
            self.wf(),
        ensures
            r == self@.len(),
    {
        self.connections.len()
    }

    /// Whether some connection is open on `port`.
    pub fn is_port_connected(&self, port: &str) -> (r: bool)
        requires
            self.wf(),
        ensures
            r == port_connected(self@, port@),
    {
        proof {
            self.connections.lemma_view();
        }
        let n: usize = self.connections.len();
        let mut i: usize = 0;
        while i < n
            invariant
                self.wf(),
                n == self.connections.count(),
                i <= n,
                forall|j: int| 0 <= j < i ==> self.connections.values()[j].config.port != port@,
            decreases n - i,
        {
            let connection = self.connections.value_at(i);
            if crate::text::same_text(connection.config().port.as_str(), port) {
                return true;
            }
            i += 1;
        }
        assert forall|id: Seq<char>| #[trigger] self@.contains_key(id) implies self@[id].config.port != port@ by {
            let j = self.connections.keys().index_of(id);
            assert(self.connections.keys()[j] == id);
        }
        false
    }

    /// Resolves the words of a request into line settings.
    pub fn resolve(
        port_name: &str,
        baud_rate: u32,
        data_bits: u8,
        stop_bits: &str,
        parity: &str,
        flow_control: &str,
    ) -> (r: Result<ConnectionConfig, SerialError>)
        ensures
            result_view(r) == resolved_config(port_name@, baud_rate, data_bits, stop_bits@, parity@, flow_control@),
    {
        let data_bits = match DataBits::from_number(data_bits) {
            Some(bits) => bits,
            None => return Err(SerialError::InvalidDataBits(data_bits)),
        };
        let stop_bits = match StopBits::from_word(to_lowercase(stop_bits).as_str()) {
            Some(bits) => bits,
            None => return Err(SerialError::InvalidStopBits(String::from_str(stop_bits))),
        };
        let parity = match Parity::from_word(to_lowercase(parity).as_str()) {
            Some(parity) => parity,
            None => return Err(SerialError::InvalidParity(String::from_str(parity))),
        };
        let flow_control = match FlowControl::from_word(to_lowercase(flow_control).as_str()) {
            Some(flow_control) => flow_control,
            None => return Err(SerialError::InvalidFlowControl(String::from_str(flow_control))),
        };
        Ok(
            ConnectionConfig {
                port: String::from_str(port_name),
                baud_rate,
                data_bits,
                stop_bits,
                parity,
                flow_control,
            },
        )
    }

    /// What `connect` makes of resolved settings, of the transport's report,
    /// of an identifier and of a time of creation.
    pub fn connect_with(
        config: Result<ConnectionConfig, SerialError>,
        opened: Result<(), String>,
        id: String,
        created_at: Timestamp,
    ) -> (r: Result<SerialConnection, SerialError>)
        ensures
            result_view(r) == connection_outcome(result_view(config), result_view(opened), id@, created_at),
    {
        match config {
            Err(e) => Err(e),
            Ok(config) => match SerialConnection::from_parts(config, opened, id, created_at) {
                Ok(connection) => Ok(connection),
                Err(e) => Err(SerialError::ConnectionFailed(e.to_string())),
            },
        }
    }

    /// Makes a connection from the words of a request, once the transport
    /// has tried to open the port and reports `opened`. The words are
    /// resolved first, and a word that names nothing is refused whatever
    /// the transport reports. The connection is not entered in the registry.
    pub fn connect(
        &self,
        port_name: &str,
        baud_rate: u32,
        data_bits: u8,
        stop_bits: &str,
        parity: &str,
        flow_control: &str,
        _timeout_ms: u64,
        opened: Result<(), String>,
    ) -> (r: Result<SerialConnection, SerialError>)
        ensures
            exists|id: Seq<char>, created_at: Timestamp|
                is_uuid_text(id) && result_view(r) == #[trigger] connection_outcome(
                    resolved_config(port_name@, baud_rate, data_bits, stop_bits@, parity@, flow_control@),
                    result_view(opened),
                    id,
                    created_at,
                ),
    {
        let config = Self::resolve(port_name, baud_rate, data_bits, stop_bits, parity, flow_control);
        let id = crate::ident::new_uuid_text();
        let created_at: Timestamp = crate::clock::now();
        Self::connect_with(config, opened, id, created_at)
    }

    /// Entering `connection` in the registry `before`: refused with the
    /// registry unchanged where ports are not shared and its port is
    /// connected, and where its identifier is in use; else entered under its
    /// identifier, which is returned.
    pub open spec fn registered(
        before: Map<Seq<char>, SerialConnectionView>,
        shares_ports: bool,
        connection: SerialConnectionView,
    ) -> (Map<Seq<char>, SerialConnectionView>, Result<Seq<char>, LocalSerialErrorView>) {
        if !shares_ports && port_connected(before, connection.config.port) {
            (before, Err(LocalSerialErrorView::ConnectionExists(connection.config.port)))
        } else if before.contains_key(connection.id) {
            (before, Err(LocalSerialErrorView::ConnectionExists(connection.id)))
        } else {
            (before.insert(connection.id, connection), Ok(connection.id))
        }
    }

    /// Enters `connection` under its identifier, unless ports are not shared
    /// and its port is connected already, or its identifier is in use.
    pub fn register(&mut self, connection: SerialConnection) -> (r: Result<String, LocalSerialError>)
        requires
            old(self).wf(),
        ensures
            final(self).wf(),
            final(self).shares_ports() == old(self).shares_ports(),
            (final(self)@, result_view(r)) == Self::registered(old(self)@, old(self).shares_ports(), connection@),
    {
        if !self.allow_port_sharing && self.is_port_connected(connection.config().port.as_str()) {
            return Err(LocalSerialError::ConnectionExists(connection.config().port.clone()));
        }
        if self.connections.contains_key(connection.id()) {
            return Err(LocalSerialError::ConnectionExists(String::from_str(connection.id())));
        }
        let id = String::from_str(connection.id());
        let key = String::from_str(connection.id());
        self.connections.insert(key, connection);
        proof {
            let m0 = old(self)@;
            let m1 = self@;
            let c = connection@;
            assert(m1 == m0.insert(c.id, c));
            if !self.allow_port_sharing {
                assert forall|a: Seq<char>, b: Seq<char>|
                    #[trigger] m1.contains_key(a) && #[trigger] m1.contains_key(b) && a != b implies m1[a].config.port
                    != m1[b].config.port by {
                    if a == c.id {
                        assert(m0.contains_key(b));
                    } else if b == c.id {
                        assert(m0.contains_key(a));
                    } else {
                        assert(m0.contains_key(a) && m0.contains_key(b));
                    }
                }
            }
        }
        Ok(id)
    }

    /// Opens a connection, once the transport has tried to open the port and
    /// reports `opened`: makes the connection and enters it in the registry
    /// under a fresh identifier, which is returned. Nothing changes where the
    /// connection cannot be made, where ports are not shared and the port is
    /// connected already, or where the identifier drawn is in use.
    pub fn open(&mut self, config: ConnectionConfig, opened: Result<(), String>) -> (r: Result<
        String,
        LocalSerialError,
    >)
        requires
            old(self).wf(),
        ensures
            final(self).wf(),
            final(self).shares_ports() == old(self).shares_ports(),
            exists|id: Seq<char>, created_at: Timestamp|
                is_uuid_text(id) && #[trigger] Self::opens(
                    old(self)@,
                    old(self).shares_ports(),
                    SerialConnectionView::create(config@, result_view(opened), id, created_at),
                    result_view(r),
                    final(self)@,
                ),
    {
        let port_config = config.clone();
        let id = crate::ident::new_uuid_text();
        let created_at: Timestamp = crate::clock::now();
        let made = SerialConnection::from_parts(port_config, opened, id, created_at);
        let r = self.open_with(made);
        assert(Self::opens(
            old(self)@,
            old(self).shares_ports(),
            SerialConnectionView::create(config@, result_view(opened), id@, created_at),
            result_view(r),
            self@,
        ));
        r
    }

    /// How `open` ends for the connection `made`: with its failure and the
    /// registry unchanged, or as entering the connection ends.
    pub open spec fn opens(
        before: Map<Seq<char>, SerialConnectionView>,
        shares_ports: bool,
        made: Result<SerialConnectionView, LocalSerialErrorView>,
        result: Result<Seq<char>, LocalSerialErrorView>,
        after: Map<Seq<char>, SerialConnectionView>,
    ) -> bool {
        match made {
            Err(e) => result == Err::<Seq<char>, LocalSerialErrorView>(e) && after == before,
            Ok(connection) => (after, result) == Self::registered(before, shares_ports, connection),
        }
    }

    /// However `open` ends, a registry that connects no port twice and
    /// does not share ports connects no port twice afterwards; and a port that
    /// is connected is refused with the registry unchanged.
    pub proof fn law_one_connection_per_port(
        before: Map<Seq<char>, SerialConnectionView>,
        made: Result<SerialConnectionView, LocalSerialErrorView>,
        result: Result<Seq<char>, LocalSerialErrorView>,
        after: Map<Seq<char>, SerialConnectionView>,
    )
        requires
            ports_distinct(before),
            Self::opens(before, false, made, result, after),
        ensures
            ports_distinct(after),
            match made {
                Ok(made) => port_connected(before, made.config.port) ==> after == before && result == Err::<
                    Seq<char>,
                    LocalSerialErrorView,
                >(LocalSerialErrorView::ConnectionExists(made.config.port)),
                Err(_) => after == before,
            },
            result matches Ok(id) ==> !before.contains_key(id) && after.contains_key(id),
    {
        if let Ok(made) = made {
            if !port_connected(before, made.config.port) && !before.contains_key(made.id) {
                assert forall|a: Seq<char>, b: Seq<char>|
                    #[trigger] after.contains_key(a) && #[trigger] after.contains_key(b) && a != b implies after[a].config.port
                    != after[b].config.port by {
                    if a == made.id {
                        assert(before.contains_key(b));
                    } else if b == made.id {
                        assert(before.contains_key(a));
                    } else {
                        assert(before.contains_key(a) && before.contains_key(b));
                    }
                }
            }
        }
    }

    /// Ends `open` for a connection that was made or failed.
    pub fn open_with(&mut self, made: Result<SerialConnection, LocalSerialError>) -> (r: Result<
        String,
        LocalSerialError,
    >)
        requires
            old(self).wf(),
        ensures
            final(self).wf(),
            final(self).shares_ports() == old(self).shares_ports(),
            Self::opens(old(self)@, old(self).shares_ports(), result_view(made), result_view(r), final(self)@),
    {
        match made {
            Err(e) => Err(e),
            Ok(connection) => self.register(connection),
        }
    }

    /// Removes the connection `id` from the registry.
    pub fn close(&mut self, id: &str) -> (r: Result<(), LocalSerialError>)
        requires
            old(self).wf(),
        ensures
            final(self).wf(),
            final(self).shares_ports() == old(self).shares_ports(),
            final(self)@ == old(self)@.remove(id@),
            result_view(r) == if old(self)@.contains_key(id@) {
                Ok::<(), LocalSerialErrorView>(())
            } else {
                Err::<(), LocalSerialErrorView>(LocalSerialErrorView::InvalidConnection(id@))
            },
    {
        match self.connections.remove(id) {
            Some(_) => Ok(()),
            None => Err(LocalSerialError::InvalidConnection(String::from_str(id))),
        }
    }

    /// A copy of the connection `id` as it stands.
    pub fn get(&self, id: &str) -> (r: Result<SerialConnection, LocalSerialError>)
        requires
            self.wf(),
        ensures
            result_view(r) == if self@.contains_key(id@) {
                Ok::<SerialConnectionView, LocalSerialErrorView>(self@[id@])
            } else {
                Err::<SerialConnectionView, LocalSerialErrorView>(LocalSerialErrorView::InvalidConnection(id@))
            },
    {
        match self.connections.get(id) {
            Some(connection) => Ok(connection.clone()),
            None => Err(LocalSerialError::InvalidConnection(String::from_str(id))),
        }
    }

    /// Takes note of a write on the connection `id` that the transport
    /// reports as `outcome`.
    pub fn write(&mut self, id: &str, outcome: Transfer) -> (r: Result<usize, LocalSerialError>)
        requires
            old(self).wf(),
            old(self)@.contains_key(id@) ==> (outcome@ matches TransferView::Done(n) ==> old(self)@[id@].bytes_sent
                + n <= u64::MAX),
        ensures
            final(self).wf(),
            final(self).shares_ports() == old(self).shares_ports(),
            if old(self)@.contains_key(id@) {
                &&& final(self)@ == old(self)@.insert(id@, old(self)@[id@].after_write(outcome@))
                &&& result_view(r) == SerialConnectionView::written(outcome@)
            } else {
                &&& final(self)@ == old(self)@
                &&& result_view(r) == Err::<usize, LocalSerialErrorView>(LocalSerialErrorView::InvalidConnection(id@))
            },
    {
        let i: usize = match self.connections.position(id) {
            Some(i) => i,
            None => return Err(LocalSerialError::InvalidConnection(String::from_str(id))),
        };
        let r = self.connections.value_mut(i).write(outcome);
        proof {
            Self::lemma_counted(old(self)@, id@, self@[id@]);
        }
        r
    }

    /// Takes note of a read on the connection `id` that the transport
    /// reports as `outcome`.
    pub fn read(&mut self, id: &str, outcome: Transfer) -> (r: Result<usize, LocalSerialError>)
        requires
            old(self).wf(),
            old(self)@.contains_key(id@) ==> (outcome@ matches TransferView::Done(n) ==> old(
                self,
            )@[id@].bytes_received + n <= u64::MAX),
        ensures
            final(self).wf(),
            final(self).shares_ports() == old(self).shares_ports(),
            if old(self)@.contains_key(id@) {
                &&& final(self)@ == old(self)@.insert(id@, old(self)@[id@].after_read(outcome@))
                &&& result_view(r) == SerialConnectionView::read(outcome@)
            } else {
                &&& final(self)@ == old(self)@
                &&& result_view(r) == Err::<usize, LocalSerialErrorView>(LocalSerialErrorView::InvalidConnection(id@))
            },
    {
        let i: usize = match self.connections.position(id) {
            Some(i) => i,
            None => return Err(LocalSerialError::InvalidConnection(String::from_str(id))),
        };
        let r = self.connections.value_mut(i).read(outcome);
        proof {
            Self::lemma_counted(old(self)@, id@, self@[id@]);
        }
        r
    }

    /// Changing the counters of one connection keeps every connection under
    /// its identifier and the ports distinct.
    proof fn lemma_counted(before: Map<Seq<char>, SerialConnectionView>, id: Seq<char>, after: SerialConnectionView)
        requires
            before.contains_key(id),
            after.id == before[id].id,
            after.config == before[id].config,
        ensures
            ports_distinct(before) ==> ports_distinct(before.insert(id, after)),
            (forall|k: Seq<char>| #[trigger] before.contains_key(k) ==> before[k].id == k) ==> (forall|k: Seq<char>| #[trigger]
                before.insert(id, after).contains_key(k) ==> before.insert(id, after)[k].id == k),
    {
        let next = before.insert(id, after);
        if ports_distinct(before) {
            assert forall|a: Seq<char>, b: Seq<char>|
                #[trigger] next.contains_key(a) && #[trigger] next.contains_key(b) && a != b implies next[a].config.port
                != next[b].config.port by {
                assert(before.contains_key(a) && before.contains_key(b));
            }
        }
    }

    /// A snapshot of every connection, one for each entry of the registry.
    pub fn list(&self) -> (r: Vec<ConnectionStatus>)
        requires
            self.wf(),
        ensures
            r@.len() == self@.len(),
            r@.len() == self.entries().len(),
            forall|i: int| 0 <= i < r@.len() ==> (#[trigger] r@[i])@ == self.entries()[i].status(),
    {
        proof {
            self.lemma_wf();
        }
        let n: usize = self.connections.len();
        let mut statuses: Vec<ConnectionStatus> = Vec::new();
        let mut i: usize = 0;
        while i < n
            invariant
                self.wf(),
                n == self.connections.count(),
                i <= n,
                statuses@.len() == i,
                forall|j: int| 0 <= j < i ==> (#[trigger] statuses@[j])@ == self.entries()[j].status(),
            decreases n - i,
        {
            statuses.push(self.connections.value_at(i).status());
            i += 1;
        }
        statuses
    }
}

impl Default for ConnectionManager {
    fn default() -> (r: Self)
        ensures
            r.wf(),
            r@ == Map::<Seq<char>, SerialConnectionView>::empty(),
            !r.shares_ports(),
    {
        Self::new()
    }
}

} // verus!
