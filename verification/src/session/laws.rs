//! What holds of the session registry whatever the sessions, the clock and
//! the transport: each law is stated over the functions of
//! [`SessionManagerView`] that the manager's operations compute.

use super::manager::{reapable, SessionManagerView};
use super::session::{SerialSessionView, SessionConfigView, SessionStateView};
use crate::clock::Timestamp;
use crate::error::SerialErrorView;
use crate::serial::connection::MAX_BAUD_RATE;
use crate::serial::{port_connected, resolved_config};
use vstd::prelude::*;

verus! {

/// A session that was just created shows state `Creating`, no connection,
/// and the very configuration it was created with; and a configuration that
/// nothing speaks against is accepted under every identifier that is free.
pub proof fn law_created_session_shows_its_configuration(
    manager: SessionManagerView,
    config: SessionConfigView,
    id: Seq<char>,
    created_at: Timestamp,
    asked_at: Timestamp,
)
    ensures
        manager.creation_fault(config) is None && !manager.sessions.contains_key(id) <==> manager.created(
            config,
            id,
            created_at,
        ).1 is Ok,
        manager.created(config, id, created_at).1 is Ok ==> {
            let (next, result) = manager.created(config, id, created_at);
            &&& result == Ok::<Seq<char>, SerialErrorView>(id)
            &&& next.info(id, asked_at) is Ok
            &&& next.info(id, asked_at)->Ok_0.session_id == id
            &&& next.info(id, asked_at)->Ok_0.state == SessionStateView::Creating
            &&& next.info(id, asked_at)->Ok_0.config == config
            &&& next.info(id, asked_at)->Ok_0.port_name == config.port_name
            &&& !next.info(id, asked_at)->Ok_0.has_connection
        },
{
}

/// With as many sessions as the configuration allows, no session is
/// created and the registry stays as it is; the refusal names the limit
/// unless the configuration of the session is itself at fault.
pub proof fn law_no_session_beyond_the_limit(
    manager: SessionManagerView,
    config: SessionConfigView,
    id: Seq<char>,
    now: Timestamp,
)
    requires
        manager.sessions.len() >= manager.config.server.max_connections,
    ensures
        manager.created(config, id, now).0 == manager,
        manager.created(config, id, now).1 is Err,
        manager.config_fault(config) is None ==> manager.created(config, id, now).1 == Err::<
            Seq<char>,
            SerialErrorView,
        >(SerialErrorView::SessionLimitExceeded(manager.config.server.max_connections)),
{
}

/// Creating a session keeps the registry well-formed: in particular there
/// are never more sessions than the configuration allows, and a session is
/// created only under an identifier that was free.
pub proof fn law_created_keeps_wf(manager: SessionManagerView, config: SessionConfigView, id: Seq<char>, now: Timestamp)
    requires
        manager.wf(),
    ensures
        manager.created(config, id, now).0.wf(),
        manager.created(config, id, now).0.sessions.len() <= manager.config.server.max_connections,
        manager.created(config, id, now).1 is Ok ==> !manager.sessions.contains_key(id) && manager.created(
            config,
            id,
            now,
        ).0.sessions.len() == manager.sessions.len() + 1,
{
    let next = manager.created(config, id, now).0;
    if manager.created(config, id, now).1 is Ok {
        assert(next.sessions.dom() =~= manager.sessions.dom().insert(id));
        assert forall|k: Seq<char>| #[trigger] next.sessions.contains_key(k) && next.sessions[k].connection
            is Some implies manager.sessions.contains_key(k) && next.sessions[k] == manager.sessions[k] by {}
        assert(next.bindings_held());
        assert(next.bindings_apart()) by {
            assert forall|a: Seq<char>, b: Seq<char>|
                #[trigger] next.sessions.contains_key(a) && #[trigger] next.sessions.contains_key(b) && a != b
                    && next.sessions[a].connection is Some implies next.sessions[a].connection
                != next.sessions[b].connection by {
                if b != id {
                    assert(manager.sessions.contains_key(a) && manager.sessions.contains_key(b));
                }
            }
        }
    }
}

/// Connecting a session keeps the registry well-formed, and binds it only
/// to a connection whose identifier was free.
pub proof fn law_connected_keeps_wf(
    manager: SessionManagerView,
    id: Seq<char>,
    opened: Result<(), Seq<char>>,
    connection_id: Seq<char>,
    now: Timestamp,
)
    requires
        manager.wf(),
    ensures
        manager.connected(id, opened, connection_id, now).0.wf(),
        manager.connected(id, opened, connection_id, now).0.sessions.len() == manager.sessions.len(),
        manager.connected(id, opened, connection_id, now).1 is Ok ==> !manager.connections.contains_key(
            connection_id,
        ),
{
    let next = manager.connected(id, opened, connection_id, now).0;
    if manager.connected(id, opened, connection_id, now).1 is Ok {
        let session = manager.sessions[id];
        let made = SessionManagerView::connection_for(session, opened, connection_id, now)->Ok_0;
        assert(next.sessions.dom() =~= manager.sessions.dom());
        assert(next.connections.dom() =~= manager.connections.dom().insert(connection_id));
        assert(made.id == connection_id && made.config.port == session.config.port_name);
        assert(next.bindings_held()) by {
            assert forall|k: Seq<char>| #[trigger] next.sessions.contains_key(k) && next.sessions[k].connection
                is Some implies next.connections.contains_key(next.sessions[k].connection->0)
                && next.connections[next.sessions[k].connection->0].config.port
                == next.sessions[k].config.port_name by {
                if k != id {
                    assert(manager.sessions.contains_key(k));
                    assert(manager.connections.contains_key(manager.sessions[k].connection->0));
                }
            }
        }
        assert(next.bindings_apart()) by {
            assert forall|a: Seq<char>, b: Seq<char>|
                #[trigger] next.sessions.contains_key(a) && #[trigger] next.sessions.contains_key(b) && a != b
                    && next.sessions[a].connection is Some implies next.sessions[a].connection
                != next.sessions[b].connection by {
                assert(manager.sessions.contains_key(a) && manager.sessions.contains_key(b));
                if a != id && manager.sessions[a].connection is Some {
                    assert(manager.connections.contains_key(manager.sessions[a].connection->0));
                }
                if b != id && manager.sessions[b].connection is Some {
                    assert(manager.connections.contains_key(manager.sessions[b].connection->0));
                }
            }
        }
        if !manager.config.serial.allow_port_sharing {
            assert forall|a: Seq<char>, b: Seq<char>|
                #[trigger] next.connections.contains_key(a) && #[trigger] next.connections.contains_key(b) && a
                    != b implies next.connections[a].config.port != next.connections[b].config.port by {
                if a == connection_id {
                    assert(manager.connections.contains_key(b));
                } else if b == connection_id {
                    assert(manager.connections.contains_key(a));
                } else {
                    assert(manager.connections.contains_key(a) && manager.connections.contains_key(b));
                }
            }
        }
    }
}

/// Taking the session `id` out of its connection keeps the registry
/// well-formed, whatever becomes of the session: `next` stands for the
/// session afterwards, unbound, or for nothing where the session leaves.
pub proof fn lemma_unbinding_keeps_wf(manager: SessionManagerView, id: Seq<char>, next: Option<SerialSessionView>)
    requires
        manager.wf(),
        manager.sessions.contains_key(id),
        next matches Some(session) ==> session.session_id == id && !(session.state is Closed) && !session.is_active()
            && session.connection is None,
    ensures
        (SessionManagerView {
            sessions: match next {
                Some(session) => manager.sessions.insert(id, session),
                None => manager.sessions.remove(id),
            },
            connections: manager.released(manager.sessions[id]),
            ..manager
        }).wf(),
{
    let after = SessionManagerView {
        sessions: match next {
            Some(session) => manager.sessions.insert(id, session),
            None => manager.sessions.remove(id),
        },
        connections: manager.released(manager.sessions[id]),
        ..manager
    };
    match next {
        Some(session) => {
            assert(after.sessions.dom() =~= manager.sessions.dom());
        },
        None => {
            assert(after.sessions.dom() =~= manager.sessions.dom().remove(id));
        },
    }
    assert(after.connections.dom().subset_of(manager.connections.dom()));
    vstd::set_lib::lemma_len_subset(after.connections.dom(), manager.connections.dom());
    assert forall|k: Seq<char>| #[trigger] after.sessions.contains_key(k) && after.sessions[k].connection
        is Some implies k != id && manager.sessions.contains_key(k) && after.sessions[k] == manager.sessions[k] by {}
    assert(after.bindings_held()) by {
        assert forall|k: Seq<char>| #[trigger] after.sessions.contains_key(k) && after.sessions[k].connection
            is Some implies after.connections.contains_key(after.sessions[k].connection->0)
            && after.connections[after.sessions[k].connection->0].config.port
            == after.sessions[k].config.port_name by {
            assert(manager.sessions.contains_key(k) && manager.sessions.contains_key(id) && k != id);
            assert(manager.sessions[k].connection != manager.sessions[id].connection);
            assert(manager.connections.contains_key(manager.sessions[k].connection->0));
        }
    }
    assert(after.bindings_apart()) by {
        assert forall|a: Seq<char>, b: Seq<char>|
            #[trigger] after.sessions.contains_key(a) && #[trigger] after.sessions.contains_key(b) && a != b
                && after.sessions[a].connection is Some implies after.sessions[a].connection
            != after.sessions[b].connection by {
            assert(manager.sessions.contains_key(a) && manager.sessions.contains_key(b));
        }
    }
    if !manager.config.serial.allow_port_sharing {
        assert forall|a: Seq<char>, b: Seq<char>|
            #[trigger] after.connections.contains_key(a) && #[trigger] after.connections.contains_key(b) && a
                != b implies after.connections[a].config.port != after.connections[b].config.port by {
            assert(manager.connections.contains_key(a) && manager.connections.contains_key(b));
        }
    }
}

/// Disconnecting and removing a session, and a failure of a session, keep
/// the registry well-formed and add no session.
pub proof fn law_unbinding_keeps_wf(manager: SessionManagerView, id: Seq<char>, reason: Seq<char>, now: Timestamp)
    requires
        manager.wf(),
    ensures
        manager.disconnected(id, now).0.wf(),
        manager.removed(id).0.wf(),
        manager.failed(id, reason, now).0.wf(),
        manager.disconnected(id, now).0.sessions.len() == manager.sessions.len(),
        manager.failed(id, reason, now).0.sessions.len() == manager.sessions.len(),
        manager.removed(id).0.sessions.len() <= manager.sessions.len(),
{
    if manager.sessions.contains_key(id) {
        let session = manager.sessions[id];
        lemma_unbinding_keeps_wf(manager, id, Some(session.unbound(now)));
        lemma_unbinding_keeps_wf(manager, id, None);
        lemma_unbinding_keeps_wf(manager, id, Some(SessionManagerView::after_error(session, reason, now)));
        assert(manager.disconnected(id, now).0.sessions.dom() =~= manager.sessions.dom());
        assert(manager.failed(id, reason, now).0.sessions.dom() =~= manager.sessions.dom());
        assert(manager.removed(id).0.sessions.dom() =~= manager.sessions.dom().remove(id));
    }
}

/// Using a session, which leaves its identifier, its configuration, its
/// state and its connection as they are, keeps the registry well-formed.
pub proof fn law_use_keeps_wf(manager: SessionManagerView, id: Seq<char>, next: SerialSessionView)
    requires
        manager.wf(),
        manager.sessions.contains_key(id) ==> {
            let session = manager.sessions[id];
            &&& next.session_id == session.session_id
            &&& next.config == session.config
            &&& next.state == session.state
            &&& next.connection == session.connection
        },
    ensures
        manager.updated(id, next).0.wf(),
        manager.updated(id, next).0.sessions.len() == manager.sessions.len(),
        manager.updated(id, next).0.connections == manager.connections,
{
    let after = manager.updated(id, next).0;
    if manager.sessions.contains_key(id) {
        assert(after.sessions.dom() =~= manager.sessions.dom());
        assert(after.bindings_held()) by {
            assert forall|k: Seq<char>| #[trigger] after.sessions.contains_key(k) && after.sessions[k].connection
                is Some implies after.connections.contains_key(after.sessions[k].connection->0)
                && after.connections[after.sessions[k].connection->0].config.port
                == after.sessions[k].config.port_name by {
                assert(manager.sessions.contains_key(k));
            }
        }
        assert(after.bindings_apart()) by {
            assert forall|a: Seq<char>, b: Seq<char>|
                #[trigger] after.sessions.contains_key(a) && #[trigger] after.sessions.contains_key(b) && a != b
                    && after.sessions[a].connection is Some implies after.sessions[a].connection
                != after.sessions[b].connection by {
                assert(manager.sessions.contains_key(a) && manager.sessions.contains_key(b));
            }
        }
    }
}

/// A tick of the idle reaper keeps the registry well-formed and adds no session.
pub proof fn law_reaped_keeps_wf(manager: SessionManagerView, max_idle_seconds: i64, now: Timestamp)
    requires
        manager.wf(),
    ensures
        manager.reaped(max_idle_seconds, now).wf(),
        manager.reaped(max_idle_seconds, now).sessions.len() <= manager.sessions.len(),
{
    let reaped = manager.reaped(max_idle_seconds, now);
    assert(reaped.sessions.dom().subset_of(manager.sessions.dom()));
    vstd::set_lib::lemma_len_subset(reaped.sessions.dom(), manager.sessions.dom());
    assert(reaped.connections.dom().subset_of(manager.connections.dom()));
    vstd::set_lib::lemma_len_subset(reaped.connections.dom(), manager.connections.dom());
    assert(reaped.bindings_held()) by {
        assert forall|k: Seq<char>| #[trigger] reaped.sessions.contains_key(k) && reaped.sessions[k].connection
            is Some implies reaped.connections.contains_key(reaped.sessions[k].connection->0)
            && reaped.connections[reaped.sessions[k].connection->0].config.port
            == reaped.sessions[k].config.port_name by {
            let c = manager.sessions[k].connection->0;
            assert(manager.sessions.contains_key(k));
            assert(manager.connections.contains_key(c));
            if manager.reaped_with(c, max_idle_seconds, now) {
                let j = choose|j: Seq<char>| #[trigger]
                    manager.sessions.contains_key(j) && reapable(manager.sessions[j], max_idle_seconds, now)
                        && manager.sessions[j].connection == Some(c);
                assert(manager.sessions.contains_key(j) && manager.sessions.contains_key(k) && j != k);
            }
        }
    }
    assert(reaped.bindings_apart()) by {
        assert forall|a: Seq<char>, b: Seq<char>|
            #[trigger] reaped.sessions.contains_key(a) && #[trigger] reaped.sessions.contains_key(b) && a != b
                && reaped.sessions[a].connection is Some implies reaped.sessions[a].connection
            != reaped.sessions[b].connection by {
            assert(manager.sessions.contains_key(a) && manager.sessions.contains_key(b));
        }
    }
    if !manager.config.serial.allow_port_sharing {
        assert forall|a: Seq<char>, b: Seq<char>|
            #[trigger] reaped.connections.contains_key(a) && #[trigger] reaped.connections.contains_key(b) && a
                != b implies reaped.connections[a].config.port != reaped.connections[b].config.port by {
            assert(manager.connections.contains_key(a) && manager.connections.contains_key(b));
        }
    }
}

/// Creating and connecting are all or nothing, and so are disconnecting and
/// removing: an operation that fails leaves the registries as they were.
pub proof fn law_failures_change_nothing(
    manager: SessionManagerView,
    config: SessionConfigView,
    id: Seq<char>,
    opened: Result<(), Seq<char>>,
    connection_id: Seq<char>,
    now: Timestamp,
)
    ensures
        manager.created(config, id, now).1 is Err ==> manager.created(config, id, now).0 == manager,
        manager.connected(id, opened, connection_id, now).1 is Err ==> manager.connected(
            id,
            opened,
            connection_id,
            now,
        ).0 == manager,
        manager.disconnected(id, now).1 is Err ==> manager.disconnected(id, now).0 == manager,
        manager.removed(id).1 is Err ==> manager.removed(id).0 == manager,
        forall|reason: Seq<char>| (#[trigger] manager.failed(id, reason, now)).1 is Err ==> manager.failed(
            id,
            reason,
            now,
        ).0 == manager,
{
}

/// A configuration that passes the checks of `create_session` names line
/// settings that a connection takes.
pub proof fn law_accepted_config_resolves(manager: SessionManagerView, config: SessionConfigView)
    requires
        manager.config_fault(config) is None,
    ensures
        resolved_config(
            config.port_name,
            config.baud_rate,
            config.data_bits,
            config.stop_bits,
            config.parity,
            config.flow_control,
        ) is Ok,
        0 < config.baud_rate <= MAX_BAUD_RATE,
{
}

/// Two sessions are created for one port, and the first is then connected.
/// Unless ports are shared, the second cannot be connected: the attempt is
/// refused because the port is in use, whatever the transport reports, and
/// changes nothing. Where ports are shared, the second is connected too as
/// soon as the transport opens the port, under any identifier that is free.
pub proof fn law_port_sharing(
    manager: SessionManagerView,
    first: (SessionConfigView, Seq<char>, Timestamp),
    second: (SessionConfigView, Seq<char>, Timestamp),
    first_connect: (Result<(), Seq<char>>, Seq<char>, Timestamp),
    second_connect: (Result<(), Seq<char>>, Seq<char>, Timestamp),
)
    requires
        manager.wf(),
        first.0.port_name == second.0.port_name,
        first.1 != second.1,
        manager.created(first.0, first.1, first.2).1 is Ok,
        manager.created(first.0, first.1, first.2).0.created(second.0, second.1, second.2).1 is Ok,
        manager.created(first.0, first.1, first.2).0.created(second.0, second.1, second.2).0.connected(
            first.1,
            first_connect.0,
            first_connect.1,
            first_connect.2,
        ).1 is Ok,
    ensures
        ({
            let both = manager.created(first.0, first.1, first.2).0.created(second.0, second.1, second.2).0;
            let one_connected = both.connected(first.1, first_connect.0, first_connect.1, first_connect.2).0;
            let (last, result) = one_connected.connected(
                second.1,
                second_connect.0,
                second_connect.1,
                second_connect.2,
            );
            &&& !manager.config.serial.allow_port_sharing ==> result == Err::<(), SerialErrorView>(
                SerialErrorView::ConnectionExists(second.0.port_name),
            ) && last == one_connected
            &&& manager.config.serial.allow_port_sharing && second_connect.0 is Ok
                && !one_connected.connections.contains_key(second_connect.1) ==> result is Ok
                && last.sessions[second.1].is_active() && last.sessions[second.1].connection == Some(
                second_connect.1,
            ) && last.connections.contains_key(second_connect.1)
        }),
{
    let one = manager.created(first.0, first.1, first.2).0;
    let both = one.created(second.0, second.1, second.2).0;
    let one_connected = both.connected(first.1, first_connect.0, first_connect.1, first_connect.2).0;
    assert(both.sessions.contains_key(first.1));
    assert(both.sessions[first.1] == SerialSessionView::created(first.0, first.1, first.2));
    assert(both.sessions[second.1] == SerialSessionView::created(second.0, second.1, second.2));
    let made = SessionManagerView::connection_for(
        both.sessions[first.1],
        first_connect.0,
        first_connect.1,
        first_connect.2,
    );
    assert(made is Ok);
    assert(one_connected.connections.contains_key(first_connect.1));
    assert(one_connected.connections[first_connect.1] == made->Ok_0);
    assert(made->Ok_0.config.port == first.0.port_name);
    assert(port_connected(one_connected.connections, second.0.port_name));
    assert(one_connected.sessions.contains_key(second.1));
    assert(one_connected.sessions[second.1] == both.sessions[second.1]);
    law_accepted_config_resolves(one, second.0);
}

/// Removing a session that the registry does not hold fails with "session
/// not found" and changes nothing. Removing one that it holds succeeds:
/// afterwards the session is in the registry no more, nor is the connection
/// it was bound to in the registry of connections, and all other sessions
/// are as they were.
pub proof fn law_remove_session(manager: SessionManagerView, id: Seq<char>)
    ensures
        !manager.sessions.contains_key(id) ==> manager.removed(id) == (
            manager,
            Err::<(), SerialErrorView>(SerialErrorView::SessionNotFound(id)),
        ),
        manager.sessions.contains_key(id) ==> {
            let (next, result) = manager.removed(id);
            &&& result == Ok::<(), SerialErrorView>(())
            &&& !next.sessions.contains_key(id)
            &&& forall|connection: Seq<char>|
                manager.sessions[id].connection == Some(connection) ==> !next.connections.contains_key(connection)
            &&& forall|other: Seq<char>|
                other != id && manager.sessions.contains_key(other) ==> next.sessions.contains_key(other)
                    && next.sessions[other] == manager.sessions[other]
        },
{
}

/// One tick of the idle reaper removes every suspended session that has
/// been unused for longer than the threshold, and never an active session,
/// however long it has been unused. A session that stays is unchanged.
pub proof fn law_idle_reaper(manager: SessionManagerView, id: Seq<char>, max_idle_seconds: i64, now: Timestamp)
    requires
        manager.sessions.contains_key(id),
    ensures
        manager.sessions[id].state is Suspended && manager.sessions[id].idle_seconds(now) > max_idle_seconds
            ==> !manager.reaped(max_idle_seconds, now).sessions.contains_key(id),
        manager.sessions[id].state is Active ==> manager.reaped(max_idle_seconds, now).sessions.contains_key(id)
            && manager.reaped(max_idle_seconds, now).sessions[id] == manager.sessions[id],
        manager.reaped(max_idle_seconds, now).sessions.contains_key(id) <==> !reapable(
            manager.sessions[id],
            max_idle_seconds,
            now,
        ),
{
}

/// A failure leaves the session unbound, and its connection leaves the
/// registry of connections, so that its port is free again where ports are
/// not shared. A session that reconnects by itself and may still ask then
/// awaits to be connected again; one that does not reconnect by itself, or
/// has used up its attempts, stays failed.
pub proof fn law_error_asks_for_reconnect(manager: SessionManagerView, id: Seq<char>, reason: Seq<char>, now: Timestamp)
    requires
        manager.wf(),
        manager.sessions.contains_key(id),
    ensures
        ({
            let session = manager.sessions[id];
            let next = manager.failed(id, reason, now).0;
            &&& manager.failed(id, reason, now).1 is Ok
            &&& !next.sessions[id].has_connection() && !next.sessions[id].is_active()
            &&& (session.connection is Some ==> !next.connections.contains_key(session.connection->0))
            &&& next.awaits_reconnect(id) == Ok::<bool, SerialErrorView>(
                session.config.auto_reconnect && session.may_reconnect(),
            )
            &&& !(session.config.auto_reconnect && session.may_reconnect()) ==> next.sessions[id].state
                == SessionStateView::Error(reason)
            &&& next.sessions[id].stats.errors_count == (session.stats.errors_count + 1) as u64
            &&& (session.connection is Some && !manager.config.serial.allow_port_sharing ==> !port_connected(
                next.connections,
                session.config.port_name,
            ))
        }),
{
    let session = manager.sessions[id];
    let next = manager.failed(id, reason, now).0;
    if session.connection is Some && !manager.config.serial.allow_port_sharing {
        let bound_to = session.connection->0;
        assert(manager.connections.contains_key(bound_to));
        assert forall|c: Seq<char>| #[trigger] next.connections.contains_key(c) implies next.connections[c].config.port
            != session.config.port_name by {
            assert(manager.connections.contains_key(c) && c != bound_to);
        }
    }
}

/// A session is active exactly while it is bound, whatever is done with
/// it, as long as its state is not set by hand: it may be created, bound,
/// unbound, used, failed, asked to reconnect and closed. Setting the state
/// by hand keeps this where the session is unbound and is not made active.
pub proof fn law_active_while_bound(
    session: SerialSessionView,
    connection: Seq<char>,
    state: SessionStateView,
    reason: Seq<char>,
    bytes: usize,
    now: Timestamp,
)
    requires
        session.consistent(),
        session.closed_unbound(),
    ensures
        SerialSessionView::created(session.config, session.session_id, now).consistent(),
        session.bound(connection, now).consistent(),
        session.unbound(now).consistent(),
        session.touched(now).consistent(),
        session.sent(bytes, now).consistent(),
        session.received(bytes, now).consistent(),
        session.failed(reason, now).consistent(),
        session.retried(now).consistent(),
        session.attempts_reset().consistent(),
        session.closed(now).consistent(),
        SessionManagerView::after_error(session, reason, now).consistent(),
        !session.has_connection() && !(state is Active) ==> session.in_state(state, now).consistent(),
        !(session.state is Closed) ==> session.bound(connection, now).is_active(),
        session.is_active() ==> session.unbound(now).state is Suspended,
        !session.failed(reason, now).has_connection() && !session.failed(reason, now).is_active(),
{
}

/// A closed session holds no connection and stays closed whatever is done
/// with it: binding it is refused and changes nothing, and every other
/// operation leaves it closed and unbound. Every operation keeps a closed
/// session unbound.
pub proof fn law_closed_is_final(
    session: SerialSessionView,
    connection: Seq<char>,
    state: SessionStateView,
    reason: Seq<char>,
    bytes: usize,
    now: Timestamp,
)
    requires
        session.closed_unbound(),
    ensures
        SerialSessionView::created(session.config, session.session_id, now).closed_unbound(),
        session.closed(now).state is Closed && !session.closed(now).has_connection(),
        session.bound(connection, now).closed_unbound(),
        session.unbound(now).closed_unbound(),
        session.touched(now).closed_unbound(),
        session.in_state(state, now).closed_unbound(),
        session.failed(reason, now).closed_unbound(),
        session.sent(bytes, now).closed_unbound(),
        session.received(bytes, now).closed_unbound(),
        session.retried(now).closed_unbound(),
        session.attempts_reset().closed_unbound(),
        session.state is Closed ==> {
            &&& session.bound(connection, now) == session
            &&& session.binds() is Err
            &&& session.unbound(now).state is Closed
            &&& session.touched(now).state is Closed
            &&& session.in_state(state, now).state is Closed
            &&& session.failed(reason, now).state is Closed
            &&& session.sent(bytes, now).state is Closed
            &&& session.received(bytes, now).state is Closed
            &&& session.retried(now).state is Closed
            &&& session.attempts_reset().state is Closed
            &&& session.closed(now).state is Closed
        },
{
}

} // verus!
