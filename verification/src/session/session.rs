//! One session: what a caller wants of a port, the state it is in, and the
//! traffic it has seen. A session exists whether or not it is connected.

use crate::clock::{now, seconds_between, seconds_since, Timestamp};
use crate::error::{Result, SerialError, SerialErrorView};
use crate::model::{option_view, result_view};
use crate::text::labelled;
use crate::utils::{session_id_of, SessionIdGenerator};
use crate::ident::is_uuid_text;
use vstd::prelude::*;
use vstd::string::*;

verus! {

/// Where a session stands in its life.
#[derive(Debug, PartialEq, Eq)]
pub enum SessionState {
    /// Created, or waiting to be connected again.
    Creating,
    /// Connected and ready.
    Active,
    /// Disconnected for the time being.
    Suspended,
    /// On its way out.
    Closing,
    /// Gone for good.
    Closed,
    /// Failed, with the reason.
    Error(String),
}

/// What a [`SessionState`] holds.
pub enum SessionStateView {
    Creating,
    Active,
    Suspended,
    Closing,
    Closed,
    Error(Seq<char>),
}

impl View for SessionState {
    type V = SessionStateView;

    open spec fn view(&self) -> SessionStateView {
        match self {
            SessionState::Creating => SessionStateView::Creating,
            SessionState::Active => SessionStateView::Active,
            SessionState::Suspended => SessionStateView::Suspended,
            SessionState::Closing => SessionStateView::Closing,
            SessionState::Closed => SessionStateView::Closed,
            SessionState::Error(reason) => SessionStateView::Error(reason@),
        }
    }
}

impl Clone for SessionState {
    fn clone(&self) -> (r: Self)
        ensures
            r@ == self@,
    {
        match self {
            SessionState::Creating => SessionState::Creating,
            SessionState::Active => SessionState::Active,
            SessionState::Suspended => SessionState::Suspended,
            SessionState::Closing => SessionState::Closing,
            SessionState::Closed => SessionState::Closed,
            SessionState::Error(reason) => SessionState::Error(reason.clone()),
        }
    }
}

impl SessionStateView {
    /// The name of the state, and for a failure its reason.
    pub open spec fn text(self) -> Seq<char> {
        match self {
            SessionStateView::Creating => "Creating"@,
            SessionStateView::Active => "Active"@,
            SessionStateView::Suspended => "Suspended"@,
            SessionStateView::Closing => "Closing"@,
            SessionStateView::Closed => "Closed"@,
            SessionStateView::Error(reason) => "Error: "@ + reason,
        }
    }
}

impl SessionState {
    /// The name of the state, and for a failure its reason.
    pub fn to_string(&self) -> (r: String)
        ensures
            r@ == self@.text(),
    {
        match self {
            SessionState::Creating => String::from_str("Creating"),
            SessionState::Active => String::from_str("Active"),
            SessionState::Suspended => String::from_str("Suspended"),
            SessionState::Closing => String::from_str("Closing"),
            SessionState::Closed => String::from_str("Closed"),
            SessionState::Error(reason) => labelled("Error: ", reason.as_str()),
        }
    }
}

/// What a session is created with. It does not change afterwards.
#[derive(Debug)]
pub struct SessionConfig {
    /// The port the session is for.
    pub port_name: String,
    pub baud_rate: u32,
    pub data_bits: u8,
    /// In words: `one` or `1`, `two` or `2`, in any case of letters.
    pub stop_bits: String,
    /// In words: `none`, `even` or `odd`, in any case of letters.
    pub parity: String,
    /// In words: `none`, `software` or `hardware`, in any case of letters.
    pub flow_control: String,
    /// The time allowed for one operation.
    pub timeout_ms: u64,
    /// A hint for the size of buffers.
    pub buffer_size: usize,
    /// Whether the session asks to be connected again after an error.
    pub auto_reconnect: bool,
    /// How often it may ask.
    pub max_reconnect_attempts: u32,
    pub line_ending: String,
}

/// What a [`SessionConfig`] holds, each text as its sequence of characters.
pub struct SessionConfigView {
    pub port_name: Seq<char>,
    pub baud_rate: u32,
    pub data_bits: u8,
    pub stop_bits: Seq<char>,
    pub parity: Seq<char>,
    pub flow_control: Seq<char>,
    pub timeout_ms: u64,
    pub buffer_size: usize,
    pub auto_reconnect: bool,
    pub max_reconnect_attempts: u32,
    pub line_ending: Seq<char>,
}

impl View for SessionConfig {
    type V = SessionConfigView;

    open spec fn view(&self) -> SessionConfigView {
        SessionConfigView {
            port_name: self.port_name@,
            baud_rate: self.baud_rate,
            data_bits: self.data_bits,
            stop_bits: self.stop_bits@,
            parity: self.parity@,
            flow_control: self.flow_control@,
            timeout_ms: self.timeout_ms,
            buffer_size: self.buffer_size,
            auto_reconnect: self.auto_reconnect,
            max_reconnect_attempts: self.max_reconnect_attempts,
            line_ending: self.line_ending@,
        }
    }
}

impl Clone for SessionConfig {
    fn clone(&self) -> (r: Self)
        ensures
            r@ == self@,
    {
        SessionConfig {
            port_name: self.port_name.clone(),
            baud_rate: self.baud_rate,
            data_bits: self.data_bits,
            stop_bits: self.stop_bits.clone(),
            parity: self.parity.clone(),
            flow_control: self.flow_control.clone(),
            timeout_ms: self.timeout_ms,
            buffer_size: self.buffer_size,
            auto_reconnect: self.auto_reconnect,
            max_reconnect_attempts: self.max_reconnect_attempts,
            line_ending: self.line_ending.clone(),
        }
    }
}

impl SessionConfigView {
    /// The settings that apply where none are given.
    pub open spec fn standard() -> SessionConfigView {
        SessionConfigView {
            port_name: ""@,
            baud_rate: 115200,
            data_bits: 8,
            stop_bits: "One"@,
            parity: "None"@,
            flow_control: "None"@,
            timeout_ms: 1000,
            buffer_size: 8192,
            auto_reconnect: false,
            max_reconnect_attempts: 3,
            line_ending: "\n"@,
        }
    }
}

impl Default for SessionConfig {
    fn default() -> (r: Self)
        ensures
            r@ == SessionConfigView::standard(),
    {
        SessionConfig {
            port_name: String::from_str(""),
            baud_rate: 115200,
            data_bits: 8,
            stop_bits: String::from_str("One"),
            parity: String::from_str("None"),
            flow_control: String::from_str("None"),
            timeout_ms: 1000,
            buffer_size: 8192,
            auto_reconnect: false,
            max_reconnect_attempts: 3,
            line_ending: String::from_str("\n"),
        }
    }
}

/// The traffic of a session, counted from its creation.
#[derive(Debug, Clone, Copy)]
pub struct SessionStats {
    pub bytes_sent: u64,
    pub bytes_received: u64,
    pub messages_sent: u64,
    pub messages_received: u64,
    pub errors_count: u64,
    pub reconnections: u32,
    /// When something was last counted, if anything was.
    pub last_activity: Option<Timestamp>,
}

impl View for SessionStats {
    type V = SessionStats;

    open spec fn view(&self) -> SessionStats {
        *self
    }
}

impl Default for SessionStats {
    fn default() -> (r: Self)
        ensures
            r == SessionStats::zero(),
    {
        SessionStats {
            bytes_sent: 0,
            bytes_received: 0,
            messages_sent: 0,
            messages_received: 0,
            errors_count: 0,
            reconnections: 0,
            last_activity: None,
        }
    }
}

impl SessionStats {
    /// Nothing counted yet.
    pub open spec fn zero() -> SessionStats {
        SessionStats {
            bytes_sent: 0,
            bytes_received: 0,
            messages_sent: 0,
            messages_received: 0,
            errors_count: 0,
            reconnections: 0,
            last_activity: None,
        }
    }

    /// One more message of `bytes` bytes can be counted as sent.
    pub open spec fn can_send(self, bytes: usize) -> bool {
        self.bytes_sent + bytes <= u64::MAX && self.messages_sent < u64::MAX
    }

    /// One more message of `bytes` bytes can be counted as received.
    pub open spec fn can_receive(self, bytes: usize) -> bool {
        self.bytes_received + bytes <= u64::MAX && self.messages_received < u64::MAX
    }

    /// The counts after one message of `bytes` bytes was sent at `now`.
    pub open spec fn sent(self, bytes: usize, now: Timestamp) -> SessionStats {
        SessionStats {
            bytes_sent: (self.bytes_sent + bytes) as u64,
            messages_sent: (self.messages_sent + 1) as u64,
            last_activity: Some(now),
            ..self
        }
    }

    /// The counts after one message of `bytes` bytes was received at `now`.
    pub open spec fn received(self, bytes: usize, now: Timestamp) -> SessionStats {
        SessionStats {
            bytes_received: (self.bytes_received + bytes) as u64,
            messages_received: (self.messages_received + 1) as u64,
            last_activity: Some(now),
            ..self
        }
    }

    /// The counts after one error at `now`.
    pub open spec fn erred(self, now: Timestamp) -> SessionStats {
        SessionStats { errors_count: (self.errors_count + 1) as u64, last_activity: Some(now), ..self }
    }

    /// The counts after one request to connect again at `now`.
    pub open spec fn reconnected(self, now: Timestamp) -> SessionStats {
        SessionStats { reconnections: (self.reconnections + 1) as u32, last_activity: Some(now), ..self }
    }

    /// Counts one message of `bytes` bytes as sent at `now`.
    pub fn record_send_at(&mut self, bytes: usize, now: Timestamp)
        requires
            old(self).can_send(bytes),
        ensures
            *final(self) == old(self).sent(bytes, now),
    {
        self.bytes_sent = self.bytes_sent + bytes as u64;
        self.messages_sent = self.messages_sent + 1;
        self.last_activity = Some(now);
    }

    /// Counts one message of `bytes` bytes as received at `now`.
    pub fn record_receive_at(&mut self, bytes: usize, now: Timestamp)
        requires
            old(self).can_receive(bytes),
        ensures
            *final(self) == old(self).received(bytes, now),
    {
        self.bytes_received = self.bytes_received + bytes as u64;
        self.messages_received = self.messages_received + 1;
        self.last_activity = Some(now);
    }

    /// Counts one error at `now`.
    pub fn record_error_at(&mut self, now: Timestamp)
        requires
            old(self).errors_count < u64::MAX,
        ensures
            *final(self) == old(self).erred(now),
    {
        self.errors_count = self.errors_count + 1;
        self.last_activity = Some(now);
    }

    /// Counts one request to connect again at `now`.
    pub fn record_reconnection_at(&mut self, now: Timestamp)
        requires
            old(self).reconnections < u32::MAX,
        ensures
            *final(self) == old(self).reconnected(now),
    {
        self.reconnections = self.reconnections + 1;
        self.last_activity = Some(now);
    }

    /// Counts one message of `bytes` bytes as sent now.
    pub fn record_send(&mut self, bytes: usize)
        requires
            old(self).can_send(bytes),
        ensures
            exists|now: Timestamp| *final(self) == #[trigger] old(self).sent(bytes, now),
    {
        let at: Timestamp = now();
        self.record_send_at(bytes, at);
    }

    /// Counts one message of `bytes` bytes as received now.
    pub fn record_receive(&mut self, bytes: usize)
        requires
            old(self).can_receive(bytes),
        ensures
            exists|now: Timestamp| *final(self) == #[trigger] old(self).received(bytes, now),
    {
        let at: Timestamp = now();
        self.record_receive_at(bytes, at);
    }

    /// Counts one error now.
    pub fn record_error(&mut self)
        requires
            old(self).errors_count < u64::MAX,
        ensures
            exists|now: Timestamp| *final(self) == #[trigger] old(self).erred(now),
    {
        let at: Timestamp = now();
        self.record_error_at(at);
    }

    /// Counts one request to connect again now.
    pub fn record_reconnection(&mut self)
        requires
            old(self).reconnections < u32::MAX,
        ensures
            exists|now: Timestamp| *final(self) == #[trigger] old(self).reconnected(now),
    {
        let at: Timestamp = now();
        self.record_reconnection_at(at);
    }
}

/// A session.
#[derive(Debug)]
pub struct SerialSession {
    /// The identifier of the session.
    pub session_id: String,
    /// What the session was created with.
    pub config: SessionConfig,
    /// Where the session stands in its life.
    pub state: SessionState,
    /// When the session was created.
    pub created_at: Timestamp,
    /// When the session was last used.
    pub last_accessed: Timestamp,
    /// The traffic of the session.
    pub stats: SessionStats,
    /// The identifier of the connection the session is bound to, if any.
    pub connection: Option<String>,
    /// How often the session has asked to be connected again since it was last bound.
    pub reconnect_attempts: u32,
}

/// What a [`SerialSession`] holds.
pub struct SerialSessionView {
    pub session_id: Seq<char>,
    pub config: SessionConfigView,
    pub state: SessionStateView,
    pub created_at: Timestamp,
    pub last_accessed: Timestamp,
    pub stats: SessionStats,
    /// The identifier of the connection the session is bound to, if any.
    pub connection: Option<Seq<char>>,
    /// How often the session has asked to be connected again since it was last bound.
    pub reconnect_attempts: u32,
}

impl View for SerialSession {
    type V = SerialSessionView;

    open spec fn view(&self) -> SerialSessionView {
        SerialSessionView {
            session_id: self.session_id@,
            config: self.config@,
            state: self.state@,
            created_at: self.created_at,
            last_accessed: self.last_accessed,
            stats: self.stats,
            connection: option_view(self.connection),
            reconnect_attempts: self.reconnect_attempts,
        }
    }
}

/// What `info` shows of a session.
#[derive(Debug)]
pub struct SessionInfo {
    pub session_id: String,
    pub port_name: String,
    pub state: SessionState,
    pub created_at: Timestamp,
    pub last_accessed: Timestamp,
    /// Whole seconds since the session was created.
    pub age_seconds: i64,
    /// Whole seconds since the session was last used.
    pub idle_seconds: i64,
    pub has_connection: bool,
    pub config: SessionConfig,
    pub stats: SessionStats,
}

/// What a [`SessionInfo`] holds.
pub struct SessionInfoView {
    pub session_id: Seq<char>,
    pub port_name: Seq<char>,
    pub state: SessionStateView,
    pub created_at: Timestamp,
    pub last_accessed: Timestamp,
    pub age_seconds: i64,
    pub idle_seconds: i64,
    pub has_connection: bool,
    pub config: SessionConfigView,
    pub stats: SessionStats,
}

impl View for SessionInfo {
    type V = SessionInfoView;

    open spec fn view(&self) -> SessionInfoView {
        SessionInfoView {
            session_id: self.session_id@,
            port_name: self.port_name@,
            state: self.state@,
            created_at: self.created_at,
            last_accessed: self.last_accessed,
            age_seconds: self.age_seconds,
            idle_seconds: self.idle_seconds,
            has_connection: self.has_connection,
            config: self.config@,
            stats: self.stats,
        }
    }
}

impl Clone for SessionInfo {
    fn clone(&self) -> (r: Self)
        ensures
            r@ == self@,
    {
        SessionInfo {
            session_id: self.session_id.clone(),
            port_name: self.port_name.clone(),
            state: self.state.clone(),
            created_at: self.created_at,
            last_accessed: self.last_accessed,
            age_seconds: self.age_seconds,
            idle_seconds: self.idle_seconds,
            has_connection: self.has_connection,
            config: self.config.clone(),
            stats: self.stats,
        }
    }
}

impl SerialSessionView {
    /// The session that `new` makes: in state `Creating`, unbound, with
    /// nothing counted.
    pub open spec fn created(config: SessionConfigView, session_id: Seq<char>, now: Timestamp) -> SerialSessionView {
        SerialSessionView {
            session_id,
            config,
            state: SessionStateView::Creating,
            created_at: now,
            last_accessed: now,
            stats: SessionStats::zero(),
            connection: None,
            reconnect_attempts: 0,
        }
    }

    /// The session is in state `Active`.
    pub open spec fn is_active(self) -> bool {
        self.state is Active
    }

    /// The session is bound to a connection.
    pub open spec fn has_connection(self) -> bool {
        self.connection is Some
    }

    /// The session is active exactly if it is bound.
    pub open spec fn consistent(self) -> bool {
        self.is_active() <==> self.has_connection()
    }

    /// A closed session is unbound.
    pub open spec fn closed_unbound(self) -> bool {
        self.state is Closed ==> !self.has_connection()
    }

    /// The session used at `now`.
    pub open spec fn touched(self, now: Timestamp) -> SerialSessionView {
        SerialSessionView { last_accessed: now, ..self }
    }

    /// The session after an attempt to bind it to `connection` at `now`: a
    /// closed session stays as it is, any other becomes active and bound.
    pub open spec fn bound(self, connection: Seq<char>, now: Timestamp) -> SerialSessionView {
        if self.state is Closed {
            self
        } else {
            SerialSessionView {
                connection: Some(connection),
                state: SessionStateView::Active,
                last_accessed: now,
                ..self
            }
        }
    }

    /// What an attempt to bind the session returns.
    pub open spec fn binds(self) -> core::result::Result<(), SerialErrorView> {
        if self.state is Closed {
            Err(SerialErrorView::InvalidSession("Cannot set connection on closed session"@))
        } else {
            Ok(())
        }
    }

    /// The session unbound at `now`: an active session becomes suspended.
    pub open spec fn unbound(self, now: Timestamp) -> SerialSessionView {
        SerialSessionView {
            connection: None,
            state: if self.state is Active {
                SessionStateView::Suspended
            } else {
                self.state
            },
            last_accessed: now,
            ..self
        }
    }

    /// The session put into `state` at `now`. A closed session stays closed,
    /// and a session that is put into `Closed` drops its connection.
    pub open spec fn in_state(self, state: SessionStateView, now: Timestamp) -> SerialSessionView {
        if self.state is Closed {
            self.touched(now)
        } else if state is Closed {
            self.closed(now)
        } else {
            SerialSessionView { state, last_accessed: now, ..self }
        }
    }

    /// The session after a failure at `now`: in state `Error` with the
    /// reason, unless it is closed; unbound, since only an active session
    /// holds a connection; and one more error counted.
    pub open spec fn failed(self, reason: Seq<char>, now: Timestamp) -> SerialSessionView {
        SerialSessionView {
            state: if self.state is Closed {
                self.state
            } else {
                SessionStateView::Error(reason)
            },
            connection: None,
            stats: self.stats.erred(now),
            last_accessed: now,
            ..self
        }
    }

    /// The session after it sent `bytes` bytes at `now`.
    pub open spec fn sent(self, bytes: usize, now: Timestamp) -> SerialSessionView {
        SerialSessionView { stats: self.stats.sent(bytes, now), last_accessed: now, ..self }
    }

    /// The session after it received `bytes` bytes at `now`.
    pub open spec fn received(self, bytes: usize, now: Timestamp) -> SerialSessionView {
        SerialSessionView { stats: self.stats.received(bytes, now), last_accessed: now, ..self }
    }

    /// The session may ask once more to be connected again.
    pub open spec fn may_reconnect(self) -> bool {
        self.reconnect_attempts < self.config.max_reconnect_attempts
    }

    /// The session after it asked at `now` to be connected again: unchanged
    /// where it may not ask, else with the request counted.
    pub open spec fn retried(self, now: Timestamp) -> SerialSessionView {
        if self.may_reconnect() {
            SerialSessionView {
                reconnect_attempts: (self.reconnect_attempts + 1) as u32,
                stats: self.stats.reconnected(now),
                last_accessed: now,
                ..self
            }
        } else {
            self
        }
    }

    /// The session with its requests to be connected again forgotten.
    pub open spec fn attempts_reset(self) -> SerialSessionView {
        SerialSessionView { reconnect_attempts: 0, ..self }
    }

    /// The session closed at `now`: in state `Closed` and unbound.
    pub open spec fn closed(self, now: Timestamp) -> SerialSessionView {
        SerialSessionView { state: SessionStateView::Closed, connection: None, last_accessed: now, ..self }
    }

    /// Whole seconds from the creation of the session to `now`.
    pub open spec fn age_seconds(self, now: Timestamp) -> int {
        seconds_between(now, self.created_at)
    }

    /// Whole seconds from the last use of the session to `now`.
    pub open spec fn idle_seconds(self, now: Timestamp) -> int {
        seconds_between(now, self.last_accessed)
    }

    /// At `now` the session has been unused for more than `max_idle_seconds`.
    pub open spec fn is_idle(self, max_idle_seconds: i64, now: Timestamp) -> bool {
        self.idle_seconds(now) > max_idle_seconds
    }

    /// What `info` shows of the session at `now`.
    pub open spec fn info(self, now: Timestamp) -> SessionInfoView {
        SessionInfoView {
            session_id: self.session_id,
            port_name: self.config.port_name,
            state: self.state,
            created_at: self.created_at,
            last_accessed: self.last_accessed,
            age_seconds: self.age_seconds(now) as i64,
            idle_seconds: self.idle_seconds(now) as i64,
            has_connection: self.has_connection(),
            config: self.config,
            stats: self.stats,
        }
    }
}

impl SerialSession {
    /// A session with the given identifier, created at `now`.
    pub fn from_parts(config: SessionConfig, session_id: String, now: Timestamp) -> (r: Self)
        ensures
            r@ == SerialSessionView::created(config@, session_id@, now),
    {
        SerialSession {
            session_id,
            config,
            state: SessionState::Creating,
            created_at: now,
            last_accessed: now,
            stats: SessionStats::default(),
            connection: None,
            reconnect_attempts: 0,
        }
    }

    /// A session with a fresh identifier, created now.
    pub fn new(config: SessionConfig) -> (r: Self)
        ensures
            exists|uuid: Seq<char>, now: Timestamp|
                is_uuid_text(uuid) && r@ == #[trigger] SerialSessionView::created(config@, session_id_of(uuid), now),
    {
        let session_id = SessionIdGenerator::generate();
        let at: Timestamp = now();
        Self::from_parts(config, session_id, at)
    }

    /// The identifier of the session.
    pub fn id(&self) -> (r: &str)
        ensures
            r@ == self@.session_id,
    {
        self.session_id.as_str()
    }

    /// The port the session is for.
    pub fn port_name(&self) -> (r: &str)
        ensures
            r@ == self@.config.port_name,
    {
        self.config.port_name.as_str()
    }

    /// Where the session stands in its life.
    pub fn state(&self) -> (r: &SessionState)
        ensures
            r@ == self@.state,
    {
        &self.state
    }

    /// Whether the session is in state `Active`.
    pub fn is_active(&self) -> (r: bool)
        ensures
            r == self@.is_active(),
    {
        match self.state {
            SessionState::Active => true,
            _ => false,
        }
    }

    /// Whether the session is bound to a connection.
    pub fn has_connection(&self) -> (r: bool)
        ensures
            r == self@.has_connection(),
    {
        self.connection.is_some()
    }

    /// How often the session has asked to be connected again since it was last bound.
    pub fn reconnect_attempts(&self) -> (r: u32)
        ensures
            r == self@.reconnect_attempts,
    {
        self.reconnect_attempts
    }

    /// Marks the session as used at `now`.
    pub fn touch_at(&mut self, now: Timestamp)
        ensures
            final(self)@ == old(self)@.touched(now),
    {
        self.last_accessed = now;
    }

    /// Marks the session as used now.
    pub fn touch(&mut self)
        ensures
            exists|now: Timestamp| final(self)@ == #[trigger] old(self)@.touched(now),
    {
        let at: Timestamp = now();
        self.touch_at(at);
    }

    /// Binds the session at `now` to the connection with the given
    /// identifier. A closed session refuses and stays as it is.
    pub fn set_connection_at(&mut self, connection: String, now: Timestamp) -> (r: Result<()>)
        ensures
            final(self)@ == old(self)@.bound(connection@, now),
            result_view(r) == old(self)@.binds(),
    {
        if self.is_closed() {
            return Err(SerialError::InvalidSession(String::from_str("Cannot set connection on closed session")));
        }
        self.connection = Some(connection);
        self.state = SessionState::Active;
        self.touch_at(now);
        Ok(())
    }

    /// Binds the session now to the connection with the given identifier.
    /// A closed session refuses and stays as it is.
    pub fn set_connection(&mut self, connection: String) -> (r: Result<()>)
        ensures
            exists|now: Timestamp| final(self)@ == #[trigger] old(self)@.bound(connection@, now),
            result_view(r) == old(self)@.binds(),
    {
        let at: Timestamp = now();
        self.set_connection_at(connection, at)
    }

    /// The identifier of the connection the session is bound to, if any.
    pub fn get_connection(&self) -> (r: Option<String>)
        ensures
            option_view(r) == self@.connection,
    {
        match &self.connection {
            Some(connection) => Some(connection.clone()),
            None => None,
        }
    }

    /// Unbinds the session at `now`. An active session becomes suspended.
    pub fn remove_connection_at(&mut self, now: Timestamp)
        ensures
            final(self)@ == old(self)@.unbound(now),
    {
        self.connection = None;
        let active = self.is_active();
        if active {
            self.state = SessionState::Suspended;
        }
        self.touch_at(now);
    }

    /// Unbinds the session now. An active session becomes suspended.
    pub fn remove_connection(&mut self)
        ensures
            exists|now: Timestamp| final(self)@ == #[trigger] old(self)@.unbound(now),
    {
        let at: Timestamp = now();
        self.remove_connection_at(at);
    }

    /// Whether the session is closed.
    pub fn is_closed(&self) -> (r: bool)
        ensures
            r == (self@.state is Closed),
    {
        match self.state {
            SessionState::Closed => true,
            _ => false,
        }
    }

    /// Puts the session into `state` at `now`. A closed session stays
    /// closed, and a session that is put into `Closed` drops its connection.
    pub fn set_state_at(&mut self, state: SessionState, now: Timestamp)
        ensures
            final(self)@ == old(self)@.in_state(state@, now),
    {
        if self.is_closed() {
            self.touch_at(now);
            return ;
        }
        match state {
            SessionState::Closed => {
                self.close_at(now);
            },
            _ => {
                self.state = state;
                self.touch_at(now);
            },
        }
    }

    /// Puts the session into `state` now. A closed session stays closed.
    pub fn set_state(&mut self, state: SessionState)
        ensures
            exists|now: Timestamp| final(self)@ == #[trigger] old(self)@.in_state(state@, now),
    {
        let at: Timestamp = now();
        self.set_state_at(state, at);
    }

    /// Puts the session into state `Error` at `now`, unless it is closed,
    /// drops its connection, and counts the error.
    pub fn set_error_at(&mut self, error: String, now: Timestamp)
        requires
            old(self)@.stats.errors_count < u64::MAX,
        ensures
            final(self)@ == old(self)@.failed(error@, now),
    {
        if !self.is_closed() {
            self.state = SessionState::Error(error);
        }
        self.connection = None;
        self.stats.record_error_at(now);
        self.touch_at(now);
    }

    /// Puts the session into state `Error` now, unless it is closed, drops
    /// its connection, and counts the error.
    pub fn set_error(&mut self, error: String)
        requires
            old(self)@.stats.errors_count < u64::MAX,
        ensures
            exists|now: Timestamp| final(self)@ == #[trigger] old(self)@.failed(error@, now),
    {
        let at: Timestamp = now();
        self.set_error_at(error, at);
    }

    /// Counts one message of `bytes` bytes as sent at `now`.
    pub fn record_send_at(&mut self, bytes: usize, now: Timestamp)
        requires
            old(self)@.stats.can_send(bytes),
        ensures
            final(self)@ == old(self)@.sent(bytes, now),
    {
        self.stats.record_send_at(bytes, now);
        self.touch_at(now);
    }

    /// Counts one message of `bytes` bytes as sent now.
    pub fn record_send(&mut self, bytes: usize)
        requires
            old(self)@.stats.can_send(bytes),
        ensures
            exists|now: Timestamp| final(self)@ == #[trigger] old(self)@.sent(bytes, now),
    {
        let at: Timestamp = now();
        self.record_send_at(bytes, at);
    }

    /// Counts one message of `bytes` bytes as received at `now`.
    pub fn record_receive_at(&mut self, bytes: usize, now: Timestamp)
        requires
            old(self)@.stats.can_receive(bytes),
        ensures
            final(self)@ == old(self)@.received(bytes, now),
    {
        self.stats.record_receive_at(bytes, now);
        self.touch_at(now);
    }

    /// Counts one message of `bytes` bytes as received now.
    pub fn record_receive(&mut self, bytes: usize)
        requires
            old(self)@.stats.can_receive(bytes),
        ensures
            exists|now: Timestamp| final(self)@ == #[trigger] old(self)@.received(bytes, now),
    {
        let at: Timestamp = now();
        self.record_receive_at(bytes, at);
    }

    /// Asks at `now` to be connected again. Returns whether the session may
    /// ask: it may while it has asked fewer times than its configuration allows.
    pub fn attempt_reconnect_at(&mut self, now: Timestamp) -> (r: bool)
        requires
            old(self)@.may_reconnect() ==> old(self)@.stats.reconnections < u32::MAX,
        ensures
            r == old(self)@.may_reconnect(),
            final(self)@ == old(self)@.retried(now),
    {
        if self.reconnect_attempts >= self.config.max_reconnect_attempts {
            return false;
        }
        self.reconnect_attempts = self.reconnect_attempts + 1;
        self.stats.record_reconnection_at(now);
        self.touch_at(now);
        true
    }

    /// Asks now to be connected again. Returns whether the session may ask.
    pub fn attempt_reconnect(&mut self) -> (r: bool)
        requires
            old(self)@.may_reconnect() ==> old(self)@.stats.reconnections < u32::MAX,
        ensures
            r == old(self)@.may_reconnect(),
            exists|now: Timestamp| final(self)@ == #[trigger] old(self)@.retried(now),
    {
        let at: Timestamp = now();
        self.attempt_reconnect_at(at)
    }

    /// Forgets the requests to be connected again.
    pub fn reset_reconnect_attempts(&mut self)
        ensures
            final(self)@ == old(self)@.attempts_reset(),
    {
        self.reconnect_attempts = 0;
    }

    /// Closes the session at `now`: it passes through `Closing`, drops its
    /// connection and ends in `Closed`.
    pub fn close_at(&mut self, now: Timestamp)
        ensures
            final(self)@ == old(self)@.closed(now),
    {
        self.state = SessionState::Closing;
        self.connection = None;
        self.touch_at(now);
        self.state = SessionState::Closed;
    }

    /// Closes the session now.
    pub fn close(&mut self)
        ensures
            exists|now: Timestamp| final(self)@ == #[trigger] old(self)@.closed(now),
    {
        let at: Timestamp = now();
        self.close_at(at);
    }

    /// Whole seconds from the creation of the session to `now`.
    pub fn age_seconds_at(&self, now: Timestamp) -> (r: i64)
        ensures
            r == self@.age_seconds(now),
    {
        seconds_since(now, self.created_at)
    }

    /// Whole seconds since the session was created.
    pub fn age_seconds(&self) -> (r: i64)
        ensures
            exists|now: Timestamp| r == #[trigger] self@.age_seconds(now),
    {
        let at: Timestamp = now();
        self.age_seconds_at(at)
    }

    /// Whole seconds from the last use of the session to `now`.
    pub fn idle_seconds_at(&self, now: Timestamp) -> (r: i64)
        ensures
            r == self@.idle_seconds(now),
    {
        seconds_since(now, self.last_accessed)
    }

    /// Whole seconds since the session was last used.
    pub fn idle_seconds(&self) -> (r: i64)
        ensures
            exists|now: Timestamp| r == #[trigger] self@.idle_seconds(now),
    {
        let at: Timestamp = now();
        self.idle_seconds_at(at)
    }

    /// Whether at `now` the session has been unused for more than `max_idle_seconds`.
    pub fn is_idle_at(&self, max_idle_seconds: i64, now: Timestamp) -> (r: bool)
        ensures
            r == self@.is_idle(max_idle_seconds, now),
    {
        self.idle_seconds_at(now) > max_idle_seconds
    }

    /// Whether the session has been unused for more than `max_idle_seconds`.
    pub fn is_idle(&self, max_idle_seconds: i64) -> (r: bool)
        ensures
            exists|now: Timestamp| r == #[trigger] self@.is_idle(max_idle_seconds, now),
    {
        let at: Timestamp = now();
        self.is_idle_at(max_idle_seconds, at)
    }

    /// What the session shows at `now`.
    pub fn info_at(&self, now: Timestamp) -> (r: SessionInfo)
        ensures
            r@ == self@.info(now),
    {
        SessionInfo {
            session_id: self.session_id.clone(),
            port_name: self.config.port_name.clone(),
            state: self.state.clone(),
            created_at: self.created_at,
            last_accessed: self.last_accessed,
            age_seconds: self.age_seconds_at(now),
            idle_seconds: self.idle_seconds_at(now),
            has_connection: self.has_connection(),
            config: self.config.clone(),
            stats: self.stats,
        }
    }

    /// What the session shows now.
    pub fn info(&self) -> (r: SessionInfo)
        ensures
            exists|now: Timestamp| r@ == #[trigger] self@.info(now),
    {
        let at: Timestamp = now();
        self.info_at(at)
    }
}

} // verus!
