//! The rules of a configuration, each with a configuration that breaks it.

use serial_mcp_server::config::{
    log_level_known, Args, Config, LoggingConfig, SecurityConfig, SerialConfig, ServerConfig,
};

fn fault(change: impl FnOnce(&mut Config)) -> String {
    let mut config = Config::default();
    change(&mut config);
    config.validate().unwrap_err().to_string()
}

#[test]
fn each_rule_reports_its_field() {
    assert_eq!(
        fault(|c| c.server.max_connections = 0),
        "Invalid configuration: Invalid value for server.max_connections: 0"
    );
    assert_eq!(
        fault(|c| c.server.max_connections = 1001),
        "Invalid configuration: Value out of range for server.max_connections: 1001 (range: 1-1000)"
    );
    assert_eq!(
        fault(|c| c.serial.default_baud_rate = 0),
        "Invalid configuration: Invalid value for serial.default_baud_rate: 0"
    );
    assert_eq!(
        fault(|c| c.serial.default_baud_rate = 115201),
        "Invalid configuration: Invalid value for serial.default_baud_rate: 115201"
    );
    assert_eq!(
        fault(|c| c.serial.max_buffer_size = 0),
        "Invalid configuration: Invalid value for serial.max_buffer_size: 0"
    );
    assert_eq!(
        fault(|c| c.serial.max_buffer_size = 1048577),
        "Invalid configuration: Value out of range for serial.max_buffer_size: 1048577 (range: 1-1048576)"
    );
    assert_eq!(
        fault(|c| c.logging.level = "INFO".to_string()),
        "Invalid configuration: Invalid value for logging.level: INFO"
    );
    // The first broken rule is the one reported.
    assert_eq!(
        fault(|c| {
            c.logging.level = "loud".to_string();
            c.serial.max_buffer_size = 0;
            c.server.max_connections = 5000;
        }),
        "Invalid configuration: Value out of range for server.max_connections: 5000 (range: 1-1000)"
    );
}

#[test]
fn the_bounds_themselves_are_accepted() {
    for (connections, buffer, level) in
        [(1usize, 1usize, "error"), (1000, 1048576, "warn"), (10, 8192, "debug"), (10, 8192, "trace")]
    {
        let mut config = Config::default();
        config.server.max_connections = connections;
        config.serial.max_buffer_size = buffer;
        config.logging.level = level.to_string();
        assert!(config.validate().is_ok());
    }
    assert!(log_level_known("info"));
    assert!(!log_level_known("Info"));
    assert!(!log_level_known(""));
}

#[test]
fn defaults_are_as_documented() {
    let server = ServerConfig::default();
    assert_eq!(server.max_connections, 10);
    assert_eq!(server.connection_timeout_seconds, 30);
    assert_eq!(server.worker_threads, None);
    assert!(!server.enable_metrics);
    assert_eq!(server.metrics_interval_seconds, 60);

    let serial = SerialConfig::default();
    assert_eq!(serial.default_baud_rate, 115200);
    assert_eq!(serial.default_data_bits, 8);
    assert_eq!(serial.default_stop_bits, "One");
    assert_eq!(serial.default_parity, "None");
    assert_eq!(serial.default_flow_control, "None");
    assert_eq!(serial.default_timeout_ms, 1000);
    assert_eq!(serial.max_buffer_size, 8192);
    assert_eq!(serial.retry_count, 3);
    assert_eq!(serial.retry_delay_ms, 1000);
    assert!(!serial.auto_discovery);
    assert_eq!(serial.discovery_interval_seconds, 5);
    assert!(!serial.allow_port_sharing);
    assert_eq!(serial.default_line_ending, "\n");

    let security = SecurityConfig::default();
    assert!(!security.restrict_ports);
    assert!(security.allowed_ports.is_empty());
    assert!(security.blocked_ports.is_empty());
    assert_eq!(security.max_data_size, 65536);
    assert!(!security.rate_limit_enabled);
    assert_eq!(security.rate_limit_requests_per_second, 100);
    assert!(!security.enable_authentication);
    assert!(security.allowed_clients.is_empty());

    let logging = LoggingConfig::default();
    assert_eq!(logging.level, "info");
    assert_eq!(logging.file, None);
    assert_eq!(logging.format, "text");
    assert_eq!(logging.timestamp_format, "rfc3339");
    assert!(!logging.include_location);
    assert!(!logging.include_thread_names);
    assert!(!logging.rotate_logs);
    assert_eq!(logging.max_log_files, 10);
    assert_eq!(logging.max_log_size_mb, 10);
}

#[test]
fn the_command_line_overrides_the_configuration() {
    let mut config = Config::default();
    config.serial.default_data_bits = 7;
    config.security.blocked_ports = vec!["ttyS".to_string()];
    config.logging.format = "json".to_string();
    let args = Args {
        config: Some("server.toml".to_string()),
        log_level: "debug".to_string(),
        log_file: Some("/var/log/serial.log".to_string()),
        max_connections: 20,
        connection_timeout: 45,
        default_baud_rate: 9600,
        default_timeout_ms: 250,
        max_buffer_size: 4096,
        retry_count: 7,
        auto_discovery: true,
        allow_port_sharing: true,
        restrict_ports: true,
        generate_config: false,
        validate_config: false,
        show_config: false,
    };
    config.merge_args(&args);

    assert_eq!(config.server.max_connections, 20);
    assert_eq!(config.server.connection_timeout_seconds, 45);
    assert_eq!(config.serial.default_baud_rate, 9600);
    assert_eq!(config.serial.default_timeout_ms, 250);
    assert_eq!(config.serial.max_buffer_size, 4096);
    assert_eq!(config.serial.retry_count, 7);
    assert!(config.serial.auto_discovery);
    assert!(config.serial.allow_port_sharing);
    assert!(config.security.restrict_ports);
    assert_eq!(config.logging.level, "debug");
    assert_eq!(config.logging.file, Some("/var/log/serial.log".to_string()));
    // What the command line does not name stays.
    assert_eq!(config.serial.default_data_bits, 7);
    assert_eq!(config.security.blocked_ports, vec!["ttyS".to_string()]);
    assert_eq!(config.logging.format, "json");
    assert_eq!(config.server.metrics_interval_seconds, 60);
    assert!(config.validate().is_ok());

    let copy = config.clone();
    assert_eq!(copy.logging.file, config.logging.file);
    assert_eq!(copy.security.blocked_ports, config.security.blocked_ports);
    assert_eq!(copy.serial.default_stop_bits, "One");
}
