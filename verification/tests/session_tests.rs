use serial_mcp_server::session::session::{SerialSession, SessionConfig, SessionState};

#[test]
fn session_test_session_creation() {
    let config = SessionConfig { port_name: "/dev/ttyUSB0".to_string(), ..Default::default() };

    let session = SerialSession::new(config);

    assert!(!session.id().is_empty());
    assert_eq!(session.port_name(), "/dev/ttyUSB0");
    assert!(matches!(session.state(), SessionState::Creating));
    assert!(!session.is_active());
    assert!(!session.has_connection());
}

#[test]
fn test_session_state_transitions() {
    let config = SessionConfig::default();
    let mut session = SerialSession::new(config);

    session.set_state(SessionState::Active);
    assert!(session.is_active());

    session.set_error("Test error".to_string());
    assert!(matches!(session.state(), SessionState::Error(_)));
    assert!(!session.is_active());

    session.close();
    assert!(matches!(session.state(), SessionState::Closed));
}

#[test]
fn test_session_stats() {
    let config = SessionConfig::default();
    let mut session = SerialSession::new(config);

    session.record_send(100);
    session.record_receive(50);

    assert_eq!(session.stats.bytes_sent, 100);
    assert_eq!(session.stats.bytes_received, 50);
    assert_eq!(session.stats.messages_sent, 1);
    assert_eq!(session.stats.messages_received, 1);
}
