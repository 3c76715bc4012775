use serial_mcp_server::config::Config;
use serial_mcp_server::session::session::SessionConfig;
use serial_mcp_server::session::SessionManager;

#[test]
fn test_session_manager_creation() {
    let config = Config::default();
    let manager = SessionManager::new(config);

    assert_eq!(manager.session_count(), 0);
    assert_eq!(manager.active_session_count(), 0);
}

#[test]
fn manager_test_session_creation() {
    let config = Config::default();
    let mut manager = SessionManager::new(config);

    let session_config = SessionConfig { port_name: "/dev/ttyUSB0".to_string(), ..Default::default() };

    let session_id = manager.create_session(session_config).unwrap();
    assert!(!session_id.is_empty());
    assert_eq!(manager.session_count(), 1);

    let info = manager.get_session_info(&session_id).unwrap();
    assert_eq!(info.port_name, "/dev/ttyUSB0");
}

#[test]
fn test_session_removal() {
    let config = Config::default();
    let mut manager = SessionManager::new(config);

    let session_config = SessionConfig { port_name: "/dev/ttyUSB0".to_string(), ..Default::default() };

    let session_id = manager.create_session(session_config).unwrap();
    assert_eq!(manager.session_count(), 1);

    manager.remove_session(&session_id).unwrap();
    assert_eq!(manager.session_count(), 0);
}

#[test]
fn test_session_limits() {
    let mut config = Config::default();
    config.server.max_connections = 2;
    let mut manager = SessionManager::new(config);

    // Create first session
    let session_config1 = SessionConfig { port_name: "/dev/ttyUSB0".to_string(), ..Default::default() };
    manager.create_session(session_config1).unwrap();

    // Create second session
    let session_config2 = SessionConfig { port_name: "/dev/ttyUSB1".to_string(), ..Default::default() };
    manager.create_session(session_config2).unwrap();

    // Third session should fail
    let session_config3 = SessionConfig { port_name: "/dev/ttyUSB2".to_string(), ..Default::default() };
    let result = manager.create_session(session_config3);
    assert!(result.is_err());

    assert_eq!(manager.session_count(), 2);
}
