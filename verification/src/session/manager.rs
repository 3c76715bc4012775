//! The registry of sessions: who may create one, how a session comes to a
//! connection and loses it again, and which sessions the idle reaper removes.
//!
//! Every operation is a function from the state of the registry and its
//! arguments to the next state and a result; [`SessionManagerView`] states
//! these functions, and the methods of [`SessionManager`] compute them.

use super::laws::{
    law_connected_keeps_wf, law_created_keeps_wf, law_reaped_keeps_wf, law_unbinding_keeps_wf, law_use_keeps_wf,
};
use super::session::{
    SerialSession, SerialSessionView, SessionConfig, SessionConfigView, SessionInfo, SessionInfoView, SessionState,
    SessionStateView, };
use crate::clock::{now, Timestamp};
use crate::config::{Config, ConfigView};
use crate::error::{Result, SerialError, SerialErrorView, SessionError, SessionErrorView};
use crate::ident::{is_uuid_text, new_uuid_text};
use crate::model::{list_view, result_view};
use crate::registry::Registry;
use crate::serial::connection::{
    ConnectionConfig, ConnectionConfigView, FlowControl, Parity, SerialConnection, SerialConnectionView, StopBits,
    MAX_BAUD_RATE,
};
use crate::serial::error::SerialErrorView as LocalSerialErrorView;
use crate::serial::{connection_outcome, port_connected, ports_distinct, resolved_config, ConnectionManager};
use crate::text::{contains, contains_text, lowercase_of, same_text};
use crate::utils::{is_standard_baud_rate, session_id_of, SessionIdGenerator, Validator};
use vstd::prelude::*;
use vstd::string::*;

verus! {

/// Some pattern of `patterns` occurs in `port`.
pub open spec fn pattern_matches(patterns: Seq<Seq<char>>, port: Seq<char>) -> bool {
    exists|i: int| 0 <= i < patterns.len() && contains_text(port, #[trigger] patterns[i])
}

/// Whether some pattern of `patterns` occurs in `port`.
pub fn any_pattern_matches(patterns: &Vec<String>, port: &str) -> (r: bool)
    ensures
        r == pattern_matches(list_view(patterns@), port@),
{
    let mut i: usize = 0;
    while i < patterns.len()
        invariant
            i <= patterns.len(),
            forall|j: int| 0 <= j < i ==> !contains_text(port@, #[trigger] list_view(patterns@)[j]),
        decreases patterns.len() - i,
    {
        if contains(port, patterns[i].as_str()) {
            assert(list_view(patterns@)[i as int] == patterns@[i as int]@);
            return true;
        }
        assert(list_view(patterns@)[i as int] == patterns@[i as int]@);
        i += 1;
    }
    false
}

/// The session is one that the idle reaper removes at `now`: unused for
/// more than `max_idle_seconds`, and not active.
pub open spec fn reapable(session: SerialSessionView, max_idle_seconds: i64, now: Timestamp) -> bool {
    session.is_idle(max_idle_seconds, now) && !session.is_active()
}

/// What `get_stats` counts or adds up over the sessions.
pub enum Measure {
    Active,
    Connected,
    Failed,
    BytesSent,
    BytesReceived,
    MessagesSent,
    MessagesReceived,
}

/// What one session adds to a measure: one or nothing to a count, its own
/// counter to a sum.
pub open spec fn measure(kind: Measure, session: SerialSessionView) -> nat {
    match kind {
        Measure::Active => if session.is_active() {
            1
        } else {
            0
        },
        Measure::Connected => if session.has_connection() {
            1
        } else {
            0
        },
        Measure::Failed => if session.state is Error {
            1
        } else {
            0
        },
        Measure::BytesSent => session.stats.bytes_sent as nat,
        Measure::BytesReceived => session.stats.bytes_received as nat,
        Measure::MessagesSent => session.stats.messages_sent as nat,
        Measure::MessagesReceived => session.stats.messages_received as nat,
    }
}

/// A measure over `sessions`.
pub open spec fn total(kind: Measure, sessions: Seq<SerialSessionView>) -> nat
    decreases sessions.len(),
{
    if sessions.len() == 0 {
        0
    } else {
        total(kind, sessions.drop_last()) + measure(kind, sessions.last())
    }
}

/// A measure over the first `n + 1` sessions is the measure over the first
/// `n` and what session `n` adds; and no more than the measure over all.
pub proof fn lemma_total_step(kind: Measure, sessions: Seq<SerialSessionView>, n: int)
    requires
        0 <= n < sessions.len(),
    ensures
        total(kind, sessions.take(n + 1)) == total(kind, sessions.take(n)) + measure(kind, sessions[n]),
        total(kind, sessions.take(n + 1)) <= total(kind, sessions),
    decreases sessions.len() - n,
{
    assert(sessions.take(n + 1).drop_last() =~= sessions.take(n));
    if n + 1 == sessions.len() {
        assert(sessions.take(n + 1) =~= sessions);
    } else {
        lemma_total_step(kind, sessions, n + 1);
    }
}

/// What `list_sessions` shows of `sessions` at `now`: every session, in order.
pub open spec fn all_infos(sessions: Seq<SerialSessionView>, now: Timestamp) -> Seq<SessionInfoView> {
    Seq::new(sessions.len(), |i: int| sessions[i].info(now))
}

/// What `list_sessions_for_port` shows of `sessions` at `now`: the sessions
/// for `port`, in order.
pub open spec fn infos_for_port(sessions: Seq<SerialSessionView>, port: Seq<char>, now: Timestamp) -> Seq<
    SessionInfoView,
>
    decreases sessions.len(),
{
    if sessions.len() == 0 {
        Seq::empty()
    } else if sessions.last().config.port_name == port {
        infos_for_port(sessions.drop_last(), port, now).push(sessions.last().info(now))
    } else {
        infos_for_port(sessions.drop_last(), port, now)
    }
}

/// Counts over all sessions.
#[derive(Debug, Clone, Copy)]
pub struct SessionManagerStats {
    pub total_sessions: usize,
    pub active_sessions: usize,
    pub connected_sessions: usize,
    pub error_sessions: usize,
    pub total_bytes_sent: u64,
    pub total_bytes_received: u64,
    pub total_messages_sent: u64,
    pub total_messages_received: u64,
}

/// The state of a [`SessionManager`]: its sessions and its connections, each
/// by identifier, and its configuration.
pub struct SessionManagerView {
    pub sessions: Map<Seq<char>, SerialSessionView>,
    pub connections: Map<Seq<char>, SerialConnectionView>,
    pub config: ConfigView,
}

impl SessionManagerView {
    /// Every session that is bound is bound to a connection of the
    /// registry of connections, and that connection is open on the port of
    /// the session.
    pub open spec fn bindings_held(self) -> bool {
        forall|id: Seq<char>| #[trigger]
            self.sessions.contains_key(id) && self.sessions[id].connection is Some ==> {
                let connection = self.sessions[id].connection->0;
                &&& self.connections.contains_key(connection)
                &&& self.connections[connection].config.port == self.sessions[id].config.port_name
            }
    }

    /// No two sessions are bound to the same connection.
    pub open spec fn bindings_apart(self) -> bool {
        forall|a: Seq<char>, b: Seq<char>|
            #[trigger] self.sessions.contains_key(a) && #[trigger] self.sessions.contains_key(b) && a != b
                && self.sessions[a].connection is Some ==> self.sessions[a].connection
                != self.sessions[b].connection
    }

    /// The registries are finite; there are no more sessions than the
    /// configuration allows; every session and every connection stands under
    /// its own identifier; no session is closed; a session is active exactly
    /// if it is bound, and then to a connection of its own in the registry of
    /// connections, open on its port; and unless ports are shared, no port is
    /// connected twice.
    pub open spec fn wf(self) -> bool {
        &&& self.sessions.dom().finite()
        &&& self.sessions.len() <= self.config.server.max_connections
        &&& forall|id: Seq<char>| #[trigger]
            self.sessions.contains_key(id) ==> self.sessions[id].session_id == id && !(self.sessions[id].state
                is Closed) && self.sessions[id].consistent()
        &&& self.connections.dom().finite()
        &&& forall|id: Seq<char>| #[trigger] self.connections.contains_key(id) ==> self.connections[id].id == id
        &&& !self.config.serial.allow_port_sharing ==> ports_distinct(self.connections)
        &&& self.bindings_held()
        &&& self.bindings_apart()
    }

    /// The state that `new` makes of a configuration.
    pub open spec fn initial(config: ConfigView) -> SessionManagerView {
        SessionManagerView { sessions: Map::empty(), connections: Map::empty(), config }
    }

    /// Some session for `port` is bound to a connection.
    pub open spec fn port_in_use(self, port: Seq<char>) -> bool {
        exists|id: Seq<char>| #[trigger]
            self.sessions.contains_key(id) && self.sessions[id].config.port_name == port
                && self.sessions[id].has_connection()
    }

    /// The first reason to refuse `config`, if there is one: an empty port
    /// name; a baud rate, a number of data bits or a word for stop bits,
    /// parity or flow control that is not accepted; and where access to
    /// ports is restricted, a port name that contains none of the allowed
    /// patterns though there are some, or that contains a blocked pattern.
    pub open spec fn config_fault(self, config: SessionConfigView) -> Option<SerialErrorView> {
        let security = self.config.security;
        if config.port_name.len() == 0 {
            Some(SerialErrorView::InvalidConfig("Port name cannot be empty"@))
        } else if !is_standard_baud_rate(config.baud_rate) {
            Some(SerialErrorView::InvalidBaudRate(config.baud_rate))
        } else if !(5 <= config.data_bits <= 8) {
            Some(SerialErrorView::InvalidDataBits(config.data_bits))
        } else if StopBits::of_word(lowercase_of(config.stop_bits)) is None {
            Some(SerialErrorView::InvalidStopBits(config.stop_bits))
        } else if Parity::of_word(lowercase_of(config.parity)) is None {
            Some(SerialErrorView::InvalidParity(config.parity))
        } else if FlowControl::of_word(lowercase_of(config.flow_control)) is None {
            Some(SerialErrorView::InvalidFlowControl(config.flow_control))
        } else if security.restrict_ports && security.allowed_ports.len() > 0 && !pattern_matches(
            security.allowed_ports,
            config.port_name,
        ) {
            Some(
                SerialErrorView::InvalidConfig("Port "@ + config.port_name + " is not in allowed ports list"@),
            )
        } else if security.restrict_ports && pattern_matches(security.blocked_ports, config.port_name) {
            Some(SerialErrorView::InvalidConfig("Port "@ + config.port_name + " is blocked"@))
        } else {
            None
        }
    }

    /// The reason to refuse a new session with `config`, if there is one: a
    /// fault of the configuration; else the limit of sessions, where it is
    /// reached; else, unless ports are shared, the port being in use.
    pub open spec fn creation_fault(self, config: SessionConfigView) -> Option<SerialErrorView> {
        if self.config_fault(config) is Some {
            self.config_fault(config)
        } else if self.sessions.len() >= self.config.server.max_connections {
            Some(SerialErrorView::SessionLimitExceeded(self.config.server.max_connections))
        } else if !self.config.serial.allow_port_sharing && self.port_in_use(config.port_name) {
            Some(SerialErrorView::ConnectionExists(config.port_name))
        } else {
            None
        }
    }

    /// Creating a session with `config` under the identifier `id` at `now`:
    /// refused with the state unchanged, also where the identifier is in
    /// use, or entered in state `Creating`.
    pub open spec fn created(self, config: SessionConfigView, id: Seq<char>, now: Timestamp) -> (
        SessionManagerView,
        core::result::Result<Seq<char>, SerialErrorView>,
    ) {
        match self.creation_fault(config) {
            Some(fault) => (self, Err(fault)),
            None => if self.sessions.contains_key(id) {
                (self, Err(SerialErrorView::SessionExists(id)))
            } else {
                (
                    SessionManagerView {
                        sessions: self.sessions.insert(id, SerialSessionView::created(config, id, now)),
                        ..self
                    },
                    Ok(id),
                )
            },
        }
    }

    /// The connection that the session `session` would get, under the
    /// identifier `connection_id`, once the transport reports `opened`.
    pub open spec fn connection_for(
        session: SerialSessionView,
        opened: core::result::Result<(), Seq<char>>,
        connection_id: Seq<char>,
        now: Timestamp,
    ) -> core::result::Result<SerialConnectionView, SerialErrorView> {
        connection_outcome(
            resolved_config(
                session.config.port_name,
                session.config.baud_rate,
                session.config.data_bits,
                session.config.stop_bits,
                session.config.parity,
                session.config.flow_control,
            ),
            opened,
            connection_id,
            now,
        )
    }

    /// Connecting the session `id` at `now`, once the transport reports
    /// `opened`. Refused with the state unchanged: for an unknown session;
    /// for a session that is bound; unless ports are shared, for a port that
    /// is connected; and where the connection cannot be made, as a failed
    /// creation that holds the reason; and where `connection_id` is in use.
    /// Else the connection is entered under `connection_id`, and the session
    /// is bound to it, active, with its requests to be connected again
    /// forgotten.
    pub open spec fn connected(
        self,
        id: Seq<char>,
        opened: core::result::Result<(), Seq<char>>,
        connection_id: Seq<char>,
        now: Timestamp,
    ) -> (SessionManagerView, core::result::Result<(), SerialErrorView>) {
        if !self.sessions.contains_key(id) {
            (self, Err(SerialErrorView::SessionNotFound(id)))
        } else {
            let session = self.sessions[id];
            if session.has_connection() {
                (self, Err(SerialErrorView::ConnectionExists("Session already connected"@)))
            } else if !self.config.serial.allow_port_sharing && port_connected(
                self.connections,
                session.config.port_name,
            ) {
                (self, Err(SerialErrorView::ConnectionExists(session.config.port_name)))
            } else {
                match Self::connection_for(session, opened, connection_id, now) {
                    Err(e) => (self, Err(Self::creation_failed(e))),
                    Ok(connection) => if self.connections.contains_key(connection_id) {
                        (self, Err(SerialErrorView::ConnectionExists(connection_id)))
                    } else {
                        (
                            SessionManagerView {
                                sessions: self.sessions.insert(
                                    id,
                                    session.bound(connection_id, now).attempts_reset(),
                                ),
                                connections: self.connections.insert(connection_id, connection),
                                ..self
                            },
                            Ok(()),
                        )
                    },
                }
            }
        }
    }

    /// A failure wrapped as a failed creation of a session.
    pub open spec fn creation_failed(e: SerialErrorView) -> SerialErrorView {
        SerialErrorView::InternalError(SessionErrorView::CreationFailed(e.text()).text())
    }

    /// What keeps the session `id` from being connected whatever the
    /// transport reports, if anything does; else the line settings of the
    /// port that the transport is to open.
    pub open spec fn connect_request(self, id: Seq<char>) -> core::result::Result<
        ConnectionConfigView,
        SerialErrorView,
    > {
        if !self.sessions.contains_key(id) {
            Err(SerialErrorView::SessionNotFound(id))
        } else {
            let session = self.sessions[id];
            let settings = resolved_config(
                session.config.port_name,
                session.config.baud_rate,
                session.config.data_bits,
                session.config.stop_bits,
                session.config.parity,
                session.config.flow_control,
            );
            if session.has_connection() {
                Err(SerialErrorView::ConnectionExists("Session already connected"@))
            } else if !self.config.serial.allow_port_sharing && port_connected(
                self.connections,
                session.config.port_name,
            ) {
                Err(SerialErrorView::ConnectionExists(session.config.port_name))
            } else {
                match settings {
                    Err(e) => Err(Self::creation_failed(e)),
                    Ok(settings) => if settings.baud_rate == 0 || settings.baud_rate > MAX_BAUD_RATE {
                        Err(
                            Self::creation_failed(
                                SerialErrorView::ConnectionFailed(
                                    LocalSerialErrorView::InvalidBaudRate(settings.baud_rate).text(),
                                ),
                            ),
                        )
                    } else {
                        Ok(settings)
                    },
                }
            }
        }
    }

    /// The connections without the one that `session` is bound to.
    pub open spec fn released(self, session: SerialSessionView) -> Map<Seq<char>, SerialConnectionView> {
        match session.connection {
            Some(connection) => self.connections.remove(connection),
            None => self.connections,
        }
    }

    /// Disconnecting the session `id` at `now`: the session is unbound, and
    /// suspended if it was active; the connection it was bound to leaves the
    /// registry of connections.
    pub open spec fn disconnected(self, id: Seq<char>, now: Timestamp) -> (
        SessionManagerView,
        core::result::Result<(), SerialErrorView>,
    ) {
        if !self.sessions.contains_key(id) {
            (self, Err(SerialErrorView::SessionNotFound(id)))
        } else {
            let session = self.sessions[id];
            (
                SessionManagerView {
                    sessions: self.sessions.insert(id, session.unbound(now)),
                    connections: self.released(session),
                    ..self
                },
                Ok(()),
            )
        }
    }

    /// Removing the session `id`: the session leaves the registry, and the
    /// connection it was bound to leaves the registry of connections.
    pub open spec fn removed(self, id: Seq<char>) -> (SessionManagerView, core::result::Result<(), SerialErrorView>) {
        if !self.sessions.contains_key(id) {
            (self, Err(SerialErrorView::SessionNotFound(id)))
        } else {
            (
                SessionManagerView {
                    sessions: self.sessions.remove(id),
                    connections: self.released(self.sessions[id]),
                    ..self
                },
                Ok(()),
            )
        }
    }

    /// The session `id` has failed and asks to be connected again: it
    /// reconnects by itself, has asked since it was last bound, and is back
    /// in state `Creating`.
    pub open spec fn awaits_reconnect(self, id: Seq<char>) -> core::result::Result<bool, SerialErrorView> {
        if !self.sessions.contains_key(id) {
            Err(SerialErrorView::SessionNotFound(id))
        } else {
            let session = self.sessions[id];
            Ok(session.config.auto_reconnect && session.state is Creating && session.reconnect_attempts > 0)
        }
    }

    /// What the session `id` shows at `now`.
    pub open spec fn info(self, id: Seq<char>, now: Timestamp) -> core::result::Result<
        SessionInfoView,
        SerialErrorView,
    > {
        if !self.sessions.contains_key(id) {
            Err(SerialErrorView::SessionNotFound(id))
        } else {
            Ok(self.sessions[id].info(now))
        }
    }

    /// Changing the session `id`, if there is one, to `next`.
    pub open spec fn updated(self, id: Seq<char>, next: SerialSessionView) -> (
        SessionManagerView,
        core::result::Result<(), SerialErrorView>,
    ) {
        if !self.sessions.contains_key(id) {
            (self, Err(SerialErrorView::SessionNotFound(id)))
        } else {
            (SessionManagerView { sessions: self.sessions.insert(id, next), ..self }, Ok(()))
        }
    }

    /// Asking at `now` for the connection of the session `id`: a known
    /// session is marked as used, and the identifier of its connection is
    /// returned if it is bound.
    pub open spec fn connection_of(self, id: Seq<char>, now: Timestamp) -> (
        SessionManagerView,
        core::result::Result<Seq<char>, SerialErrorView>,
    ) {
        if !self.sessions.contains_key(id) {
            (self, Err(SerialErrorView::SessionNotFound(id)))
        } else {
            let session = self.sessions[id];
            (
                SessionManagerView { sessions: self.sessions.insert(id, session.touched(now)), ..self },
                match session.connection {
                    Some(connection) => Ok(connection),
                    None => Err(SerialErrorView::InvalidConnection("Session not connected"@)),
                },
            )
        }
    }

    /// The session after the failure `reason` at `now`: failed and unbound,
    /// and if it reconnects by itself and may still ask, back in state
    /// `Creating` with the request counted.
    pub open spec fn after_error(session: SerialSessionView, reason: Seq<char>, now: Timestamp) -> SerialSessionView {
        let failed = session.failed(reason, now);
        if failed.config.auto_reconnect && failed.may_reconnect() {
            failed.retried(now).in_state(SessionStateView::Creating, now)
        } else {
            failed
        }
    }

    /// The failure `reason` of the session `id` at `now`: the session fails
    /// as [`Self::after_error`] says, and the connection it was bound to
    /// leaves the registry of connections.
    pub open spec fn failed(self, id: Seq<char>, reason: Seq<char>, now: Timestamp) -> (
        SessionManagerView,
        core::result::Result<(), SerialErrorView>,
    ) {
        if !self.sessions.contains_key(id) {
            (self, Err(SerialErrorView::SessionNotFound(id)))
        } else {
            let session = self.sessions[id];
            (
                SessionManagerView {
                    sessions: self.sessions.insert(id, Self::after_error(session, reason, now)),
                    connections: self.released(session),
                    ..self
                },
                Ok(()),
            )
        }
    }

    /// The session `id`, if there is one, can count one more failure, and
    /// one more request to be connected again where it would make one.
    pub open spec fn can_fail(self, id: Seq<char>) -> bool {
        self.sessions.contains_key(id) ==> {
            let session = self.sessions[id];
            &&& session.stats.errors_count < u64::MAX
            &&& session.config.auto_reconnect && session.may_reconnect() ==> session.stats.reconnections < u32::MAX
        }
    }

    /// The sessions that the idle reaper leaves at `now`.
    pub open spec fn reaped_sessions(self, max_idle_seconds: i64, now: Timestamp) -> Map<
        Seq<char>,
        SerialSessionView,
    > {
        Map::new(
            |id: Seq<char>| self.sessions.contains_key(id) && !reapable(self.sessions[id], max_idle_seconds, now),
            |id: Seq<char>| self.sessions[id],
        )
    }

    /// Some session that the idle reaper removes at `now` is bound to `connection`.
    pub open spec fn reaped_with(self, connection: Seq<char>, max_idle_seconds: i64, now: Timestamp) -> bool {
        exists|id: Seq<char>| #[trigger]
            self.sessions.contains_key(id) && reapable(self.sessions[id], max_idle_seconds, now)
                && self.sessions[id].connection == Some(connection)
    }

    /// One tick of the idle reaper at `now`: every session that is not
    /// active and has been unused for more than `max_idle_seconds` leaves the
    /// registry, with the connection it was bound to. All else stays.
    pub open spec fn reaped(self, max_idle_seconds: i64, now: Timestamp) -> SessionManagerView {
        SessionManagerView {
            sessions: self.reaped_sessions(max_idle_seconds, now),
            connections: Map::new(
                |c: Seq<char>| self.connections.contains_key(c) && !self.reaped_with(c, max_idle_seconds, now),
                |c: Seq<char>| self.connections[c],
            ),
            ..self
        }
    }
}

/// How often the idle reaper runs, in seconds.
pub const CLEANUP_INTERVAL_SECONDS: u64 = 60;

/// The registry of sessions, with the registry of their connections.
#[derive(Debug)]
pub struct SessionManager {
    sessions: Registry<SerialSession>,
    connection_manager: ConnectionManager,
    config: Config,
}

impl View for SessionManager {
    type V = SessionManagerView;

    closed spec fn view(&self) -> SessionManagerView {
        SessionManagerView {
            sessions: self.sessions@,
            connections: self.connection_manager@,
            config: self.config@,
        }
    }
}

impl SessionManager {
    /// The sessions in the order in which `list_sessions` shows them.
    pub closed spec fn entries(&self) -> Seq<SerialSessionView> {
        self.sessions.values()
    }

    /// The manager is in a state that its operations can start from: its
    /// view is well-formed, and its parts agree with it.
    pub closed spec fn wf(&self) -> bool {
        &&& self.sessions.wf()
        &&& self.connection_manager.wf()
        &&& self.connection_manager.shares_ports() == self.config@.serial.allow_port_sharing
        &&& self@.wf()
    }

    /// What well-formedness means for the view, and how the sessions in
    /// order relate to the sessions by identifier.
    pub proof fn lemma_wf(&self)
        requires
            self.wf(),
        ensures
            self@.wf(),
            self.entries().len() == self@.sessions.len(),
            forall|i: int|
                0 <= i < self.entries().len() ==> self@.sessions.contains_key((#[trigger] self.entries()[i]).session_id)
                    && self@.sessions[self.entries()[i].session_id] == self.entries()[i],
            forall|id: Seq<char>| #[trigger]
                self@.sessions.contains_key(id) ==> exists|i: int|
                    0 <= i < self.entries().len() && #[trigger] self.entries()[i] == self@.sessions[id],
    {
        self.sessions.lemma_view();
        assert forall|i: int| 0 <= i < self.entries().len() implies self@.sessions.contains_key(
            (#[trigger] self.entries()[i]).session_id,
        ) && self@.sessions[self.entries()[i].session_id] == self.entries()[i] by {
            let k = self.sessions.keys()[i];
            assert(self@.sessions.contains_key(k));
        }
        assert forall|id: Seq<char>| #[trigger] self@.sessions.contains_key(id) implies exists|i: int|
            0 <= i < self.entries().len() && #[trigger] self.entries()[i] == self@.sessions[id] by {
            let i = self.sessions.keys().index_of(id);
            assert(self.sessions.keys()[i] == id);
            assert(self.entries()[i] == self@.sessions[id]);
        }
    }

    /// A manager without sessions. Whether ports are shared is taken from
    /// the configuration, for the registry of connections too.
    pub fn new(config: Config) -> (r: Self)
        ensures
            r.wf(),
            r@ == SessionManagerView::initial(config@),
    {
        let connection_manager = ConnectionManager::with_port_sharing(config.serial.allow_port_sharing);
        let r = SessionManager { sessions: Registry::new(), connection_manager, config };
        proof {
            r.connection_manager.lemma_wf();
            r.sessions.lemma_view();
        }
        r
    }

    /// The longest time in seconds that a session that is not active may
    /// stay unused: the connection timeout of the configuration.
    pub fn max_idle_seconds(&self) -> (r: i64)
        ensures
            r == self@.config.server.connection_timeout_seconds as i64,
    {
        #[verifier::truncate]
        (self.config.server.connection_timeout_seconds as i64)
    }

    /// The number of sessions.
    pub fn session_count(&self) -> (r: usize)
        requires
            self.wf(),
        ensures
            r == self@.sessions.len(),
            r <= self@.config.server.max_connections,
    {
        self.sessions.len()
    }

    /// The number of open connections.
    pub fn connection_count(&self) -> (r: usize)
        requires
            self.wf(),
        ensures
            r == self@.connections.len(),
    {
        self.connection_manager.len()
    }

    /// Whether the registry of connections holds the connection `id`.
    pub fn has_connection(&self, id: &str) -> (r: bool)
        requires
            self.wf(),
        ensures
            r == self@.connections.contains_key(id@),
    {
        self.connection_manager.get(id).is_ok()
    }

    /// Whether some session for `port_name` is bound to a connection.
    pub fn is_port_in_use(&self, port_name: &str) -> (r: bool)
        requires
            self.wf(),
        ensures
            r == self@.port_in_use(port_name@),
    {
        proof {
            self.sessions.lemma_view();
        }
        let n: usize = self.sessions.len();
        let mut i: usize = 0;
        while i < n
            invariant
                self.wf(),
                n == self.sessions.count(),
                i <= n,
                forall|j: int|
                    0 <= j < i ==> !(self.sessions.values()[j].config.port_name == port_name@
                        && self.sessions.values()[j].has_connection()),
            decreases n - i,
        {
            let session = self.sessions.value_at(i);
            if same_text(session.port_name(), port_name) && session.has_connection() {
                return true;
            }
            i += 1;
        }
        assert forall|id: Seq<char>| #[trigger] self@.sessions.contains_key(id) implies !(
        self@.sessions[id].config.port_name == port_name@ && self@.sessions[id].has_connection()) by {
            let j = self.sessions.keys().index_of(id);
            assert(self.sessions.keys()[j] == id);
        }
        false
    }

    /// Holds the configuration of a session against the rules for line
    /// settings and against the lists of allowed and blocked ports.
    pub fn validate_session_config(&self, config: &SessionConfig) -> (r: Result<()>)
        ensures
            result_view(r) == match self@.config_fault(config@) {
                Some(fault) => Err::<(), SerialErrorView>(fault),
                None => Ok::<(), SerialErrorView>(()),
            },
    {
        if config.port_name.as_str().is_empty() {
            return Err(SerialError::InvalidConfig(String::from_str("Port name cannot be empty")));
        }
        match Validator::validate_baud_rate(config.baud_rate) {
            Err(e) => return Err(e),
            Ok(_) => {},
        }
        match Validator::validate_data_bits(config.data_bits) {
            Err(e) => return Err(e),
            Ok(_) => {},
        }
        match Validator::validate_stop_bits(config.stop_bits.as_str()) {
            Err(e) => return Err(e),
            Ok(_) => {},
        }
        match Validator::validate_parity(config.parity.as_str()) {
            Err(e) => return Err(e),
            Ok(_) => {},
        }
        match Validator::validate_flow_control(config.flow_control.as_str()) {
            Err(e) => return Err(e),
            Ok(_) => {},
        }
        if self.config.security.restrict_ports {
            if !self.config.security.allowed_ports.is_empty() && !any_pattern_matches(
                &self.config.security.allowed_ports,
                config.port_name.as_str(),
            ) {
                let mut message = String::from_str("Port ");
                message.append(config.port_name.as_str());
                message.append(" is not in allowed ports list");
                return Err(SerialError::InvalidConfig(message));
            }
            if any_pattern_matches(&self.config.security.blocked_ports, config.port_name.as_str()) {
                let mut message = String::from_str("Port ");
                message.append(config.port_name.as_str());
                message.append(" is blocked");
                return Err(SerialError::InvalidConfig(message));
            }
        }
        Ok(())
    }

    /// What the session `session_id` shows at `now`.
    pub fn get_session_info_at(&self, session_id: &str, now: Timestamp) -> (r: Result<SessionInfo>)
        requires
            self.wf(),
        ensures
            result_view(r) == self@.info(session_id@, now),
    {
        match self.sessions.get(session_id) {
            Some(session) => Ok(session.info_at(now)),
            None => Err(SerialError::SessionNotFound(String::from_str(session_id))),
        }
    }

    /// What the session `session_id` shows now.
    pub fn get_session_info(&self, session_id: &str) -> (r: Result<SessionInfo>)
        requires
            self.wf(),
        ensures
            exists|now: Timestamp| result_view(r) == #[trigger] self@.info(session_id@, now),
    {
        let at: Timestamp = now();
        self.get_session_info_at(session_id, at)
    }

    /// Creates a session with `config` under the identifier `session_id` at `now`.
    pub fn create_session_with(&mut self, config: SessionConfig, session_id: String, now: Timestamp) -> (r: Result<
        String,
    >)
        requires
            old(self).wf(),
        ensures
            final(self).wf(),
            (final(self)@, result_view(r)) == old(self)@.created(config@, session_id@, now),
            r is Ok ==> !old(self)@.sessions.contains_key(session_id@) && final(self)@.sessions.len() == old(
                self,
            )@.sessions.len() + 1,
    {
        match self.validate_session_config(&config) {
            Err(e) => return Err(e),
            Ok(_) => {},
        }
        if self.sessions.len() >= self.config.server.max_connections {
            return Err(SerialError::SessionLimitExceeded(self.config.server.max_connections));
        }
        if !self.config.serial.allow_port_sharing && self.is_port_in_use(config.port_name.as_str()) {
            return Err(SerialError::ConnectionExists(config.port_name.clone()));
        }
        if self.sessions.contains_key(session_id.as_str()) {
            return Err(SerialError::SessionExists(session_id));
        }
        let key = session_id.clone();
        let session = SerialSession::from_parts(config, session_id.clone(), now);
        self.sessions.insert(key, session);
        proof {
            self.sessions.lemma_view();
            old(self).sessions.lemma_view();
            law_created_keeps_wf(old(self)@, config@, session_id@, now);
        }
        Ok(session_id)
    }

    /// Creates a session with `config`: holds the configuration against the
    /// rules, the number of sessions against its limit, and the port against
    /// the sessions that are connected; then enters the session, in state
    /// `Creating`, under a fresh identifier, which is returned. Nothing
    /// changes where the session is refused, as it is too where the
    /// identifier drawn is in use.
    pub fn create_session(&mut self, config: SessionConfig) -> (r: Result<String>)
        requires
            old(self).wf(),
        ensures
            final(self).wf(),
            exists|uuid: Seq<char>, now: Timestamp|
                is_uuid_text(uuid) && (final(self)@, result_view(r)) == #[trigger] old(self)@.created(
                    config@,
                    session_id_of(uuid),
                    now,
                ),
    {
        let uuid = new_uuid_text();
        let session_id = SessionIdGenerator::from_uuid(uuid.as_str());
        let at: Timestamp = now();
        let r = self.create_session_with(config, session_id, at);
        assert((self@, result_view(r)) == old(self)@.created(config@, session_id_of(uuid@), at));
        r
    }

    /// What keeps the session `session_id` from being connected whatever
    /// the transport reports, if anything does; else the line settings of
    /// the port that the transport is to open before `connect_session` is
    /// called.
    pub fn connect_request(&self, session_id: &str) -> (r: Result<ConnectionConfig>)
        requires
            self.wf(),
        ensures
            result_view(r) == self@.connect_request(session_id@),
            r is Err ==> forall|opened: core::result::Result<(), Seq<char>>, connection_id: Seq<char>, now: Timestamp|
                #[trigger] self@.connected(session_id@, opened, connection_id, now) == (
                    self@,
                    Err::<(), SerialErrorView>(r->Err_0@),
                ),
            r is Ok ==> forall|connection_id: Seq<char>, now: Timestamp|
                !self@.connections.contains_key(connection_id) ==> (#[trigger] self@.connected(
                    session_id@,
                    Ok::<(), Seq<char>>(()),
                    connection_id,
                    now,
                )).1 is Ok,
    {
        let session = match self.sessions.get(session_id) {
            Some(session) => session,
            None => return Err(SerialError::SessionNotFound(String::from_str(session_id))),
        };
        if session.has_connection() {
            return Err(SerialError::ConnectionExists(String::from_str("Session already connected")));
        }
        if !self.config.serial.allow_port_sharing && self.connection_manager.is_port_connected(
            session.port_name(),
        ) {
            return Err(SerialError::ConnectionExists(session.config.port_name.clone()));
        }
        let settings = ConnectionManager::resolve(
            session.config.port_name.as_str(),
            session.config.baud_rate,
            session.config.data_bits,
            session.config.stop_bits.as_str(),
            session.config.parity.as_str(),
            session.config.flow_control.as_str(),
        );
        match settings {
            Err(e) => Err(SerialError::from(SessionError::CreationFailed(e.to_string()))),
            Ok(settings) => {
                if SerialConnection::accepts_baud_rate(settings.baud_rate) {
                    Ok(settings)
                } else {
                    let refused = crate::serial::LocalSerialError::InvalidBaudRate(settings.baud_rate);
                    let failed = SerialError::ConnectionFailed(refused.to_string());
                    Err(SerialError::from(SessionError::CreationFailed(failed.to_string())))
                }
            },
        }
    }

    /// Connects the session `session_id` at `now`, once the transport has
    /// tried to open its port and reports `opened`; the connection gets the
    /// identifier `connection_id`.
    pub fn connect_session_with(
        &mut self,
        session_id: &str,
        opened: core::result::Result<(), String>,
        connection_id: String,
        now: Timestamp,
    ) -> (r: Result<()>)
        requires
            old(self).wf(),
        ensures
            final(self).wf(),
            (final(self)@, result_view(r)) == old(self)@.connected(
                session_id@,
                result_view(opened),
                connection_id@,
                now,
            ),
            r is Ok ==> !old(self)@.connections.contains_key(connection_id@),
    {
        let i: usize = match self.sessions.position(session_id) {
            Some(i) => i,
            None => return Err(SerialError::SessionNotFound(String::from_str(session_id))),
        };
        let session = self.sessions.value_at(i);
        if session.has_connection() {
            return Err(SerialError::ConnectionExists(String::from_str("Session already connected")));
        }
        if !self.config.serial.allow_port_sharing && self.connection_manager.is_port_connected(
            session.port_name(),
        ) {
            return Err(SerialError::ConnectionExists(session.config.port_name.clone()));
        }
        let settings = ConnectionManager::resolve(
            session.config.port_name.as_str(),
            session.config.baud_rate,
            session.config.data_bits,
            session.config.stop_bits.as_str(),
            session.config.parity.as_str(),
            session.config.flow_control.as_str(),
        );
        let bound_to = connection_id.clone();
        let connection = match ConnectionManager::connect_with(settings, opened, connection_id, now) {
            Ok(connection) => connection,
            Err(e) => {
                return Err(SerialError::from(SessionError::CreationFailed(e.to_string())));
            },
        };
        match self.connection_manager.register(connection) {
            Ok(_) => {},
            Err(_) => return Err(SerialError::ConnectionExists(bound_to)),
        }
        let session = self.sessions.value_mut(i);
        let _bound = session.set_connection_at(bound_to, now);
        session.reset_reconnect_attempts();
        proof {
            self.sessions.lemma_view();
            old(self).sessions.lemma_view();
            self.connection_manager.lemma_wf();
            law_connected_keeps_wf(old(self)@, session_id@, result_view(opened), connection_id@, now);
        }
        Ok(())
    }

    /// Connects the session `session_id`, once the transport has tried to
    /// open its port and reports `opened`. A session that is bound is
    /// refused, and unless ports are shared so is a port that is connected,
    /// whatever the transport reports. The connection is entered in the
    /// registry of connections under a fresh identifier; where the identifier
    /// drawn is in use, the session is not connected.
    pub fn connect_session(&mut self, session_id: &str, opened: core::result::Result<(), String>) -> (r: Result<()>)
        requires
            old(self).wf(),
        ensures
            final(self).wf(),
            exists|connection_id: Seq<char>, now: Timestamp|
                is_uuid_text(connection_id) && (final(self)@, result_view(r)) == #[trigger] old(self)@.connected(
                    session_id@,
                    result_view(opened),
                    connection_id,
                    now,
                ),
    {
        let connection_id = new_uuid_text();
        let at: Timestamp = now();
        let r = self.connect_session_with(session_id, opened, connection_id, at);
        assert((self@, result_view(r)) == old(self)@.connected(session_id@, result_view(opened), connection_id@, at));
        r
    }

    /// Disconnects the session `session_id` at `now`.
    pub fn disconnect_session_at(&mut self, session_id: &str, now: Timestamp) -> (r: Result<()>)
        requires
            old(self).wf(),
        ensures
            final(self).wf(),
            (final(self)@, result_view(r)) == old(self)@.disconnected(session_id@, now),
    {
        let i: usize = match self.sessions.position(session_id) {
            Some(i) => i,
            None => return Err(SerialError::SessionNotFound(String::from_str(session_id))),
        };
        let session = self.sessions.value_mut(i);
        let bound_to = session.get_connection();
        session.remove_connection_at(now);
        match bound_to {
            Some(connection) => {
                let _closed = self.connection_manager.close(connection.as_str());
            },
            None => {},
        }
        proof {
            self.sessions.lemma_view();
            old(self).sessions.lemma_view();
            self.connection_manager.lemma_wf();
            old(self).connection_manager.lemma_wf();
            law_unbinding_keeps_wf(old(self)@, session_id@, Seq::empty(), now);
        }
        Ok(())
    }

    /// Disconnects the session `session_id`: the session stays, unbound, and
    /// its connection leaves the registry of connections.
    pub fn disconnect_session(&mut self, session_id: &str) -> (r: Result<()>)
        requires
            old(self).wf(),
        ensures
            final(self).wf(),
            exists|now: Timestamp|
                (final(self)@, result_view(r)) == #[trigger] old(self)@.disconnected(session_id@, now),
    {
        let at: Timestamp = now();
        self.disconnect_session_at(session_id, at)
    }

    /// Removes the session `session_id`: the session is closed and leaves
    /// the registry, and its connection leaves the registry of connections.
    pub fn remove_session(&mut self, session_id: &str) -> (r: Result<()>)
        requires
            old(self).wf(),
        ensures
            final(self).wf(),
            (final(self)@, result_view(r)) == old(self)@.removed(session_id@),
    {
        match self.sessions.remove(session_id) {
            Some(session) => {
                let mut session = session;
                let bound_to = session.get_connection();
                session.close();
                match bound_to {
                    Some(connection) => {
                        let _closed = self.connection_manager.close(connection.as_str());
                    },
                    None => {},
                }
                proof {
                    self.sessions.lemma_view();
                    old(self).sessions.lemma_view();
                    self.connection_manager.lemma_wf();
                    old(self).connection_manager.lemma_wf();
                    law_unbinding_keeps_wf(old(self)@, session_id@, Seq::empty(), 0);
                }
                Ok(())
            },
            None => Err(SerialError::SessionNotFound(String::from_str(session_id))),
        }
    }

    /// Every session at `now`, one entry for each.
    pub fn list_sessions_at(&self, now: Timestamp) -> (r: Vec<SessionInfo>)
        requires
            self.wf(),
        ensures
            r@.len() == self@.sessions.len(),
            list_view(r@) == all_infos(self.entries(), now),
    {
        proof {
            self.lemma_wf();
        }
        let n: usize = self.sessions.len();
        let mut infos: Vec<SessionInfo> = Vec::new();
        let mut i: usize = 0;
        while i < n
            invariant
                self.wf(),
                n == self.sessions.count(),
                i <= n,
                infos@.len() == i,
                forall|j: int| 0 <= j < i ==> (#[trigger] infos@[j])@ == self.entries()[j].info(now),
            decreases n - i,
        {
            infos.push(self.sessions.value_at(i).info_at(now));
            i += 1;
        }
        assert(list_view(infos@) =~= all_infos(self.entries(), now));
        infos
    }

    /// Every session as it shows now, one entry for each.
    pub fn list_sessions(&self) -> (r: Vec<SessionInfo>)
        requires
            self.wf(),
        ensures
            r@.len() == self@.sessions.len(),
            exists|now: Timestamp|
                list_view(r@) == #[trigger] all_infos(self.entries(), now),
    {
        let at: Timestamp = now();
        self.list_sessions_at(at)
    }

    /// The sessions for `port_name` at `now`.
    pub fn list_sessions_for_port_at(&self, port_name: &str, now: Timestamp) -> (r: Vec<SessionInfo>)
        requires
            self.wf(),
        ensures
            list_view(r@) == infos_for_port(self.entries(), port_name@, now),
    {
        let n: usize = self.sessions.len();
        let mut infos: Vec<SessionInfo> = Vec::new();
        let mut i: usize = 0;
        assert(self.entries().take(0) =~= Seq::<SerialSessionView>::empty());
        assert(list_view(infos@) =~= Seq::<SessionInfoView>::empty());
        while i < n
            invariant
                self.wf(),
                n == self.sessions.count(),
                n == self.entries().len(),
                i <= n,
                list_view(infos@) == infos_for_port(self.entries().take(i as int), port_name@, now),
            decreases n - i,
        {
            let session = self.sessions.value_at(i);
            proof {
                assert(self.entries().take(i + 1).drop_last() =~= self.entries().take(i as int));
                assert(self.entries().take(i + 1).last() == self.entries()[i as int]);
            }
            if same_text(session.port_name(), port_name) {
                let ghost before = list_view(infos@);
                infos.push(session.info_at(now));
                assert(list_view(infos@) =~= before.push(self.entries()[i as int].info(now)));
            }
            i += 1;
        }
        assert(self.entries().take(n as int) =~= self.entries());
        infos
    }

    /// The sessions for `port_name` as they show now.
    pub fn list_sessions_for_port(&self, port_name: &str) -> (r: Vec<SessionInfo>)
        requires
            self.wf(),
        ensures
            exists|now: Timestamp| list_view(r@) == #[trigger] infos_for_port(self.entries(), port_name@, now),
    {
        let at: Timestamp = now();
        self.list_sessions_for_port_at(port_name, at)
    }

    /// Marks the session `session_id` as used at `now` and returns the
    /// identifier of the connection it is bound to.
    pub fn get_session_connection_at(&mut self, session_id: &str, now: Timestamp) -> (r: Result<String>)
        requires
            old(self).wf(),
        ensures
            final(self).wf(),
            (final(self)@, result_view(r)) == old(self)@.connection_of(session_id@, now),
    {
        let i: usize = match self.sessions.position(session_id) {
            Some(i) => i,
            None => return Err(SerialError::SessionNotFound(String::from_str(session_id))),
        };
        let session = self.sessions.value_mut(i);
        session.touch_at(now);
        let bound_to = session.get_connection();
        proof {
            self.sessions.lemma_view();
            old(self).sessions.lemma_view();
            law_use_keeps_wf(old(self)@, session_id@, old(self)@.sessions[session_id@].touched(now));
        }
        match bound_to {
            Some(connection) => Ok(connection),
            None => Err(SerialError::InvalidConnection(String::from_str("Session not connected"))),
        }
    }

    /// Marks the session `session_id` as used and returns the identifier of
    /// the connection it is bound to: the path that reads and writes take.
    pub fn get_session_connection(&mut self, session_id: &str) -> (r: Result<String>)
        requires
            old(self).wf(),
        ensures
            final(self).wf(),
            exists|now: Timestamp|
                (final(self)@, result_view(r)) == #[trigger] old(self)@.connection_of(session_id@, now),
    {
        let at: Timestamp = now();
        self.get_session_connection_at(session_id, at)
    }

    /// Counts one message of `bytes` bytes as sent by the session `session_id` at `now`.
    pub fn record_session_send_at(&mut self, session_id: &str, bytes: usize, now: Timestamp) -> (r: Result<()>)
        requires
            old(self).wf(),
            old(self)@.sessions.contains_key(session_id@) ==> old(self)@.sessions[session_id@].stats.can_send(bytes),
        ensures
            final(self).wf(),
            (final(self)@, result_view(r)) == old(self)@.updated(
                session_id@,
                old(self)@.sessions[session_id@].sent(bytes, now),
            ),
    {
        let i: usize = match self.sessions.position(session_id) {
            Some(i) => i,
            None => return Err(SerialError::SessionNotFound(String::from_str(session_id))),
        };
        self.sessions.value_mut(i).record_send_at(bytes, now);
        proof {
            self.sessions.lemma_view();
            old(self).sessions.lemma_view();
            law_use_keeps_wf(old(self)@, session_id@, old(self)@.sessions[session_id@].sent(bytes, now));
        }
        Ok(())
    }

    /// Counts one message of `bytes` bytes as sent by the session `session_id`.
    pub fn record_session_send(&mut self, session_id: &str, bytes: usize) -> (r: Result<()>)
        requires
            old(self).wf(),
            old(self)@.sessions.contains_key(session_id@) ==> old(self)@.sessions[session_id@].stats.can_send(bytes),
        ensures
            final(self).wf(),
            exists|now: Timestamp|
                (final(self)@, result_view(r)) == old(self)@.updated(
                    session_id@,
                    #[trigger] old(self)@.sessions[session_id@].sent(bytes, now),
                ),
    {
        let at: Timestamp = now();
        self.record_session_send_at(session_id, bytes, at)
    }

    /// Counts one message of `bytes` bytes as received by the session `session_id` at `now`.
    pub fn record_session_receive_at(&mut self, session_id: &str, bytes: usize, now: Timestamp) -> (r: Result<()>)
        requires
            old(self).wf(),
            old(self)@.sessions.contains_key(session_id@) ==> old(self)@.sessions[session_id@].stats.can_receive(
                bytes,
            ),
        ensures
            final(self).wf(),
            (final(self)@, result_view(r)) == old(self)@.updated(
                session_id@,
                old(self)@.sessions[session_id@].received(bytes, now),
            ),
    {
        let i: usize = match self.sessions.position(session_id) {
            Some(i) => i,
            None => return Err(SerialError::SessionNotFound(String::from_str(session_id))),
        };
        self.sessions.value_mut(i).record_receive_at(bytes, now);
        proof {
            self.sessions.lemma_view();
            old(self).sessions.lemma_view();
            law_use_keeps_wf(old(self)@, session_id@, old(self)@.sessions[session_id@].received(bytes, now));
        }
        Ok(())
    }

    /// Counts one message of `bytes` bytes as received by the session `session_id`.
    pub fn record_session_receive(&mut self, session_id: &str, bytes: usize) -> (r: Result<()>)
        requires
            old(self).wf(),
            old(self)@.sessions.contains_key(session_id@) ==> old(self)@.sessions[session_id@].stats.can_receive(
                bytes,
            ),
        ensures
            final(self).wf(),
            exists|now: Timestamp|
                (final(self)@, result_view(r)) == old(self)@.updated(
                    session_id@,
                    #[trigger] old(self)@.sessions[session_id@].received(bytes, now),
                ),
    {
        let at: Timestamp = now();
        self.record_session_receive_at(session_id, bytes, at)
    }

    /// Whether the session `session_id` has failed and asks to be connected
    /// again. The manager does not connect it: the caller does, with
    /// `connect_session`.
    pub fn awaits_reconnect(&self, session_id: &str) -> (r: Result<bool>)
        requires
            self.wf(),
        ensures
            result_view(r) == self@.awaits_reconnect(session_id@),
    {
        match self.sessions.get(session_id) {
            Some(session) => {
                let creating = match session.state {
                    SessionState::Creating => true,
                    _ => false,
                };
                Ok(session.config.auto_reconnect && creating && session.reconnect_attempts() > 0)
            },
            None => Err(SerialError::SessionNotFound(String::from_str(session_id))),
        }
    }

    /// Whether the session `session_id`, if there is one, can count one
    /// more failure, so that `handle_session_error` can be called.
    pub fn can_fail(&self, session_id: &str) -> (r: bool)
        requires
            self.wf(),
        ensures
            r == self@.can_fail(session_id@),
    {
        match self.sessions.get(session_id) {
            Some(session) => {
                let asks = session.config.auto_reconnect && session.reconnect_attempts()
                    < session.config.max_reconnect_attempts;
                session.stats.errors_count < u64::MAX && (!asks || session.stats.reconnections < u32::MAX)
            },
            None => true,
        }
    }

    /// Takes note at `now` of a failure of the session `session_id`.
    pub fn handle_session_error_at(&mut self, session_id: &str, error: String, now: Timestamp) -> (r: Result<()>)
        requires
            old(self).wf(),
            old(self)@.can_fail(session_id@),
        ensures
            final(self).wf(),
            (final(self)@, result_view(r)) == old(self)@.failed(session_id@, error@, now),
    {
        let i: usize = match self.sessions.position(session_id) {
            Some(i) => i,
            None => return Err(SerialError::SessionNotFound(String::from_str(session_id))),
        };
        let session = self.sessions.value_mut(i);
        let bound_to = session.get_connection();
        session.set_error_at(error, now);
        if session.config.auto_reconnect && session.attempt_reconnect_at(now) {
            session.set_state_at(SessionState::Creating, now);
        }
        match bound_to {
            Some(connection) => {
                let _closed = self.connection_manager.close(connection.as_str());
            },
            None => {},
        }
        proof {
            self.sessions.lemma_view();
            old(self).sessions.lemma_view();
            self.connection_manager.lemma_wf();
            old(self).connection_manager.lemma_wf();
            law_unbinding_keeps_wf(old(self)@, session_id@, error@, now);
        }
        Ok(())
    }

    /// Takes note of a failure of the session `session_id`: the session
    /// fails and loses its connection, which leaves the registry of
    /// connections; and if it reconnects by itself and may still ask, it goes
    /// back to state `Creating`. The caller connects it again; the manager
    /// does not.
    pub fn handle_session_error(&mut self, session_id: &str, error: String) -> (r: Result<()>)
        requires
            old(self).wf(),
            old(self)@.can_fail(session_id@),
        ensures
            final(self).wf(),
            exists|now: Timestamp|
                (final(self)@, result_view(r)) == #[trigger] old(self)@.failed(session_id@, error@, now),
    {
        let at: Timestamp = now();
        self.handle_session_error_at(session_id, error, at)
    }

    /// The number of active sessions.
    pub fn active_session_count(&self) -> (r: usize)
        requires
            self.wf(),
        ensures
            r == total(Measure::Active, self.entries()),
    {
        let n: usize = self.sessions.len();
        let mut active: usize = 0;
        let mut i: usize = 0;
        assert(self.entries().take(0) =~= Seq::<SerialSessionView>::empty());
        while i < n
            invariant
                self.wf(),
                n == self.sessions.count(),
                n == self.entries().len(),
                i <= n,
                active == total(Measure::Active, self.entries().take(i as int)),
                active <= i,
            decreases n - i,
        {
            proof {
                lemma_total_step(Measure::Active, self.entries(), i as int);
            }
            if self.sessions.value_at(i).is_active() {
                active += 1;
            }
            i += 1;
        }
        assert(self.entries().take(n as int) =~= self.entries());
        active
    }

    /// The sums over all sessions fit their counters.
    pub open spec fn stats_fit(&self) -> bool {
        &&& total(Measure::BytesSent, self.entries()) <= u64::MAX
        &&& total(Measure::BytesReceived, self.entries()) <= u64::MAX
        &&& total(Measure::MessagesSent, self.entries()) <= u64::MAX
        &&& total(Measure::MessagesReceived, self.entries()) <= u64::MAX
    }

    /// Counts over all sessions: how many there are, how many are active,
    /// bound or failed, and the sums of their traffic.
    pub fn get_stats(&self) -> (r: SessionManagerStats)
        requires
            self.wf(),
            self.stats_fit(),
        ensures
            r.total_sessions == self@.sessions.len(),
            r.active_sessions == total(Measure::Active, self.entries()),
            r.connected_sessions == total(Measure::Connected, self.entries()),
            r.error_sessions == total(Measure::Failed, self.entries()),
            r.total_bytes_sent == total(Measure::BytesSent, self.entries()),
            r.total_bytes_received == total(Measure::BytesReceived, self.entries()),
            r.total_messages_sent == total(Measure::MessagesSent, self.entries()),
            r.total_messages_received == total(Measure::MessagesReceived, self.entries()),
    {
        let n: usize = self.sessions.len();
        let mut stats = SessionManagerStats {
            total_sessions: n,
            active_sessions: 0,
            connected_sessions: 0,
            error_sessions: 0,
            total_bytes_sent: 0,
            total_bytes_received: 0,
            total_messages_sent: 0,
            total_messages_received: 0,
        };
        let mut i: usize = 0;
        assert(self.entries().take(0) =~= Seq::<SerialSessionView>::empty());
        while i < n
            invariant
                self.wf(),
                self.stats_fit(),
                n == self.sessions.count(),
                n == self.entries().len(),
                n == self@.sessions.len(),
                i <= n,
                stats.total_sessions == n,
                stats.active_sessions == total(Measure::Active, self.entries().take(i as int)),
                stats.connected_sessions == total(Measure::Connected, self.entries().take(i as int)),
                stats.error_sessions == total(Measure::Failed, self.entries().take(i as int)),
                stats.total_bytes_sent == total(Measure::BytesSent, self.entries().take(i as int)),
                stats.total_bytes_received == total(Measure::BytesReceived, self.entries().take(i as int)),
                stats.total_messages_sent == total(Measure::MessagesSent, self.entries().take(i as int)),
                stats.total_messages_received == total(Measure::MessagesReceived, self.entries().take(i as int)),
                stats.active_sessions <= i,
                stats.connected_sessions <= i,
                stats.error_sessions <= i,
            decreases n - i,
        {
            proof {
                lemma_total_step(Measure::Active, self.entries(), i as int);
                lemma_total_step(Measure::Connected, self.entries(), i as int);
                lemma_total_step(Measure::Failed, self.entries(), i as int);
                lemma_total_step(Measure::BytesSent, self.entries(), i as int);
                lemma_total_step(Measure::BytesReceived, self.entries(), i as int);
                lemma_total_step(Measure::MessagesSent, self.entries(), i as int);
                lemma_total_step(Measure::MessagesReceived, self.entries(), i as int);
            }
            let session = self.sessions.value_at(i);
            if session.is_active() {
                stats.active_sessions = stats.active_sessions + 1;
            }
            if session.has_connection() {
                stats.connected_sessions = stats.connected_sessions + 1;
            }
            match session.state {
                SessionState::Error(_) => {
                    stats.error_sessions = stats.error_sessions + 1;
                },
                _ => {},
            }
            stats.total_bytes_sent = stats.total_bytes_sent + session.stats.bytes_sent;
            stats.total_bytes_received = stats.total_bytes_received + session.stats.bytes_received;
            stats.total_messages_sent = stats.total_messages_sent + session.stats.messages_sent;
            stats.total_messages_received = stats.total_messages_received + session.stats.messages_received;
            i += 1;
        }
        assert(self.entries().take(n as int) =~= self.entries());
        stats
    }

    /// Whether the sums over all sessions fit their counters, so that
    /// [`Self::get_stats`] can be called.
    pub fn stats_fit_counters(&self) -> (r: bool)
        requires
            self.wf(),
        ensures
            r == self.stats_fit(),
    {
        let n: usize = self.sessions.len();
        let mut sent: u64 = 0;
        let mut received: u64 = 0;
        let mut messages_sent: u64 = 0;
        let mut messages_received: u64 = 0;
        let mut i: usize = 0;
        assert(self.entries().take(0) =~= Seq::<SerialSessionView>::empty());
        while i < n
            invariant
                self.wf(),
                n == self.sessions.count(),
                n == self.entries().len(),
                i <= n,
                sent == total(Measure::BytesSent, self.entries().take(i as int)),
                received == total(Measure::BytesReceived, self.entries().take(i as int)),
                messages_sent == total(Measure::MessagesSent, self.entries().take(i as int)),
                messages_received == total(Measure::MessagesReceived, self.entries().take(i as int)),
            decreases n - i,
        {
            proof {
                lemma_total_step(Measure::BytesSent, self.entries(), i as int);
                lemma_total_step(Measure::BytesReceived, self.entries(), i as int);
                lemma_total_step(Measure::MessagesSent, self.entries(), i as int);
                lemma_total_step(Measure::MessagesReceived, self.entries(), i as int);
            }
            let stats = self.sessions.value_at(i).stats;
            sent = match sent.checked_add(stats.bytes_sent) {
                Some(sum) => sum,
                None => return false,
            };
            received = match received.checked_add(stats.bytes_received) {
                Some(sum) => sum,
                None => return false,
            };
            messages_sent = match messages_sent.checked_add(stats.messages_sent) {
                Some(sum) => sum,
                None => return false,
            };
            messages_received = match messages_received.checked_add(stats.messages_received) {
                Some(sum) => sum,
                None => return false,
            };
            i += 1;
        }
        assert(self.entries().take(n as int) =~= self.entries());
        true
    }

    /// Counts over all sessions, or nothing where a sum does not fit its counter.
    pub fn checked_stats(&self) -> (r: Option<SessionManagerStats>)
        requires
            self.wf(),
        ensures
            r is Some <==> self.stats_fit(),
            r matches Some(stats) ==> {
                &&& stats.total_sessions == self@.sessions.len()
                &&& stats.active_sessions == total(Measure::Active, self.entries())
                &&& stats.connected_sessions == total(Measure::Connected, self.entries())
                &&& stats.error_sessions == total(Measure::Failed, self.entries())
                &&& stats.total_bytes_sent == total(Measure::BytesSent, self.entries())
                &&& stats.total_bytes_received == total(Measure::BytesReceived, self.entries())
                &&& stats.total_messages_sent == total(Measure::MessagesSent, self.entries())
                &&& stats.total_messages_received == total(Measure::MessagesReceived, self.entries())
            },
    {
        if self.stats_fit_counters() {
            Some(self.get_stats())
        } else {
            None
        }
    }

    /// One tick of the idle reaper at `now`. Returns the identifiers of the
    /// sessions that it removed.
    pub fn cleanup_idle_sessions_at(&mut self, max_idle_seconds: i64, now: Timestamp) -> (r: Vec<String>)
        requires
            old(self).wf(),
        ensures
            final(self).wf(),
            final(self)@ == old(self)@.reaped(max_idle_seconds, now),
            r@.len() == old(self)@.sessions.len() - final(self)@.sessions.len(),
            forall|i: int|
                0 <= i < r@.len() ==> old(self)@.sessions.contains_key((#[trigger] r@[i])@) && reapable(
                    old(self)@.sessions[r@[i]@],
                    max_idle_seconds,
                    now,
                ),
    {
        let ghost before = self@;
        let mut removed: Vec<String> = Vec::new();
        let mut i: usize = 0;
        proof {
            self.sessions.lemma_view();
            self.connection_manager.lemma_wf();
        }
        while i < self.sessions.len()
            invariant
                before.wf(),
                before == old(self)@,
                self.sessions.wf(),
                self.connection_manager.wf(),
                self.connection_manager.shares_ports() == self.config@.serial.allow_port_sharing,
                self@.config == before.config,
                i <= self.sessions.count(),
                self.sessions.count() + removed@.len() == before.sessions.len(),
                forall|j: int| 0 <= j < i ==> !reapable(self.sessions.values()[j], max_idle_seconds, now),
                forall|id: Seq<char>| #[trigger]
                    self@.sessions.contains_key(id) ==> before.sessions.contains_key(id) && self@.sessions[id]
                        == before.sessions[id],
                forall|id: Seq<char>|
                    before.sessions.contains_key(id) && !(#[trigger] self@.sessions.contains_key(id)) ==> reapable(
                        before.sessions[id],
                        max_idle_seconds,
                        now,
                    ),
                forall|c: Seq<char>| #[trigger]
                    self@.connections.contains_key(c) <==> before.connections.contains_key(c) && !Self::gone_with(
                        before.sessions,
                        self@.sessions,
                        c,
                    ),
                forall|c: Seq<char>| #[trigger]
                    self@.connections.contains_key(c) ==> self@.connections[c] == before.connections[c],
                forall|k: int|
                    0 <= k < removed@.len() ==> before.sessions.contains_key((#[trigger] removed@[k])@) && reapable(
                        before.sessions[removed@[k]@],
                        max_idle_seconds,
                        now,
                    ),
            decreases self.sessions.count() - i,
        {
            let session = self.sessions.value_at(i);
            if session.is_idle_at(max_idle_seconds, now) && !session.is_active() {
                let ghost sessions_before = self@.sessions;
                let ghost connections_before = self@.connections;
                let ghost key = self.sessions.keys()[i as int];
                let id = self.sessions.key_at(i).clone();
                let mut session = self.sessions.remove_at(i);
                let bound_to = session.get_connection();
                session.close_at(now);
                match bound_to {
                    Some(connection) => {
                        let _closed = self.connection_manager.close(connection.as_str());
                    },
                    None => {},
                }
                removed.push(id);
                proof {
                    self.sessions.lemma_view();
                    self.connection_manager.lemma_wf();
                    assert(sessions_before.contains_key(key));
                    assert(self@.sessions == sessions_before.remove(key));
                    assert forall|c: Seq<char>| #[trigger]
                        self@.connections.contains_key(c) <==> before.connections.contains_key(c) && !Self::gone_with(
                            before.sessions,
                            self@.sessions,
                            c,
                        ) by {
                        if Self::gone_with(before.sessions, self@.sessions, c) {
                            let k = choose|k: Seq<char>| #[trigger]
                                before.sessions.contains_key(k) && !self@.sessions.contains_key(k)
                                    && before.sessions[k].connection == Some(c);
                            if k != key {
                                assert(!sessions_before.contains_key(k));
                                assert(Self::gone_with(before.sessions, sessions_before, c));
                            }
                        }
                        if Self::gone_with(before.sessions, sessions_before, c) {
                            let k = choose|k: Seq<char>| #[trigger]
                                before.sessions.contains_key(k) && !sessions_before.contains_key(k)
                                    && before.sessions[k].connection == Some(c);
                            assert(!self@.sessions.contains_key(k));
                        }
                        if before.sessions[key].connection == Some(c) {
                            assert(before.sessions.contains_key(key) && !self@.sessions.contains_key(key));
                        }
                    }
                    assert forall|j: int| 0 <= j < i implies !reapable(
                        self.sessions.values()[j],
                        max_idle_seconds,
                        now,
                    ) by {}
                }
            } else {
                i += 1;
            }
        }
        proof {
            self.sessions.lemma_view();
            self.connection_manager.lemma_wf();
            let after = self@;
            let target = before.reaped(max_idle_seconds, now);
            assert forall|id: Seq<char>| after.sessions.contains_key(id) <==> target.sessions.contains_key(id) by {
                if after.sessions.contains_key(id) {
                    let j = self.sessions.keys().index_of(id);
                    assert(self.sessions.keys()[j] == id);
                    assert(!reapable(self.sessions.values()[j], max_idle_seconds, now));
                }
            }
            assert(after.sessions =~= target.sessions);
            assert forall|c: Seq<char>| after.connections.contains_key(c) <==> target.connections.contains_key(
                c,
            ) by {
                if Self::gone_with(before.sessions, after.sessions, c) {
                    let k = choose|k: Seq<char>| #[trigger]
                        before.sessions.contains_key(k) && !after.sessions.contains_key(k)
                            && before.sessions[k].connection == Some(c);
                    assert(before.sessions.contains_key(k) && reapable(before.sessions[k], max_idle_seconds, now));
                }
                if before.reaped_with(c, max_idle_seconds, now) {
                    let k = choose|k: Seq<char>| #[trigger]
                        before.sessions.contains_key(k) && reapable(before.sessions[k], max_idle_seconds, now)
                            && before.sessions[k].connection == Some(c);
                    assert(!after.sessions.contains_key(k));
                    assert(before.sessions.contains_key(k));
                }
            }
            assert(after.connections =~= target.connections);
            law_reaped_keeps_wf(before, max_idle_seconds, now);
        }
        removed
    }

    /// Some session of `before` that `after` lacks was bound to `connection`.
    pub open spec fn gone_with(
        before: Map<Seq<char>, SerialSessionView>,
        after: Map<Seq<char>, SerialSessionView>,
        connection: Seq<char>,
    ) -> bool {
        exists|id: Seq<char>| #[trigger]
            before.contains_key(id) && !after.contains_key(id) && before[id].connection == Some(connection)
    }

    /// One tick of the idle reaper: removes every session that is not active
    /// and has been unused for more than `max_idle_seconds`, and closes it.
    /// An active session stays however long it has been unused. Returns the
    /// identifiers of the sessions that it removed.
    pub fn cleanup_idle_sessions(&mut self, max_idle_seconds: i64) -> (r: Vec<String>)
        requires
            old(self).wf(),
        ensures
            final(self).wf(),
            r@.len() == old(self)@.sessions.len() - final(self)@.sessions.len(),
            exists|now: Timestamp|
                final(self)@ == #[trigger] old(self)@.reaped(max_idle_seconds, now) && forall|i: int|
                    0 <= i < r@.len() ==> old(self)@.sessions.contains_key((#[trigger] r@[i])@) && reapable(
                        old(self)@.sessions[r@[i]@],
                        max_idle_seconds,
                        now,
                    ),
    {
        let at: Timestamp = now();
        self.cleanup_idle_sessions_at(max_idle_seconds, at)
    }

    /// One tick of the idle reaper with the threshold of the configuration:
    /// what the task does that runs every [`CLEANUP_INTERVAL_SECONDS`].
    pub fn reap_idle_sessions(&mut self) -> (r: Vec<String>)
        requires
            old(self).wf(),
        ensures
            final(self).wf(),
            r@.len() == old(self)@.sessions.len() - final(self)@.sessions.len(),
            exists|now: Timestamp|
                final(self)@ == #[trigger] old(self)@.reaped(
                    old(self)@.config.server.connection_timeout_seconds as i64,
                    now,
                ),
    {
        let max_idle_seconds: i64 = self.max_idle_seconds();
        self.cleanup_idle_sessions(max_idle_seconds)
    }
}

} // verus!
