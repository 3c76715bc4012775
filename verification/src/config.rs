//! The configuration of the server: its records, their defaults, and the
//! rules that a configuration has to meet.

use crate::error::{ConfigError, ConfigErrorView, Result, SerialError, SerialErrorView};
use crate::model::{clone_optional_text, clone_texts, list_view, option_view, result_view};
use crate::text::{decimal, decimal_text, same_text};
use crate::utils::{is_standard_baud_rate, standard_baud_rate};
use vstd::prelude::*;
use vstd::string::*;

verus! {

/// Limits of the server as a whole.
#[derive(Debug)]
pub struct ServerConfig {
    /// The most sessions that may exist at once.
    pub max_connections: usize,
    /// How long a session that is not active may stay unused.
    pub connection_timeout_seconds: u64,
    /// The number of worker threads, where it is fixed.
    pub worker_threads: Option<usize>,
    /// Whether metrics are gathered.
    pub enable_metrics: bool,
    /// How often metrics are gathered.
    pub metrics_interval_seconds: u64,
}

/// What a [`ServerConfig`] holds, each text as its sequence of characters.
pub struct ServerConfigView {
    pub max_connections: usize,
    pub connection_timeout_seconds: u64,
    pub worker_threads: Option<usize>,
    pub enable_metrics: bool,
    pub metrics_interval_seconds: u64,
}

impl View for ServerConfig {
    type V = ServerConfigView;

    open spec fn view(&self) -> ServerConfigView {
        ServerConfigView {
            max_connections: self.max_connections,
            connection_timeout_seconds: self.connection_timeout_seconds,
            worker_threads: self.worker_threads,
            enable_metrics: self.enable_metrics,
            metrics_interval_seconds: self.metrics_interval_seconds,
        }
    }
}

impl Clone for ServerConfig {
    fn clone(&self) -> (r: Self)
        ensures
            r@ == self@,
    {
        ServerConfig {
            max_connections: self.max_connections,
            connection_timeout_seconds: self.connection_timeout_seconds,
            worker_threads: self.worker_threads,
            enable_metrics: self.enable_metrics,
            metrics_interval_seconds: self.metrics_interval_seconds,
        }
    }
}

impl ServerConfigView {
    /// The settings that apply where none are given.
    pub open spec fn standard() -> ServerConfigView {
        ServerConfigView {
            max_connections: 10,
            connection_timeout_seconds: 30,
            worker_threads: None,
            enable_metrics: false,
            metrics_interval_seconds: 60,
        }
    }
}

impl Default for ServerConfig {
    fn default() -> (r: Self)
        ensures
            r@ == ServerConfigView::standard(),
    {
        ServerConfig {
            max_connections: 10,
            connection_timeout_seconds: 30,
            worker_threads: None,
            enable_metrics: false,
            metrics_interval_seconds: 60,
        }
    }
}

/// Defaults and policy for serial ports.
#[derive(Debug)]
pub struct SerialConfig {
    pub default_baud_rate: u32,
    pub default_data_bits: u8,
    pub default_stop_bits: String,
    pub default_parity: String,
    pub default_flow_control: String,
    pub default_timeout_ms: u64,
    pub max_buffer_size: usize,
    pub retry_count: u32,
    pub retry_delay_ms: u64,
    pub auto_discovery: bool,
    pub discovery_interval_seconds: u64,
    /// Whether several sessions may be connected to one port.
    pub allow_port_sharing: bool,
    pub default_line_ending: String,
}

/// What a [`SerialConfig`] holds, each text as its sequence of characters.
pub struct SerialConfigView {
    pub default_baud_rate: u32,
    pub default_data_bits: u8,
    pub default_stop_bits: Seq<char>,
    pub default_parity: Seq<char>,
    pub default_flow_control: Seq<char>,
    pub default_timeout_ms: u64,
    pub max_buffer_size: usize,
    pub retry_count: u32,
    pub retry_delay_ms: u64,
    pub auto_discovery: bool,
    pub discovery_interval_seconds: u64,
    pub allow_port_sharing: bool,
    pub default_line_ending: Seq<char>,
}

impl View for SerialConfig {
    type V = SerialConfigView;

    open spec fn view(&self) -> SerialConfigView {
        SerialConfigView {
            default_baud_rate: self.default_baud_rate,
            default_data_bits: self.default_data_bits,
            default_stop_bits: self.default_stop_bits@,
            default_parity: self.default_parity@,
            default_flow_control: self.default_flow_control@,
            default_timeout_ms: self.default_timeout_ms,
            max_buffer_size: self.max_buffer_size,
            retry_count: self.retry_count,
            retry_delay_ms: self.retry_delay_ms,
            auto_discovery: self.auto_discovery,
            discovery_interval_seconds: self.discovery_interval_seconds,
            allow_port_sharing: self.allow_port_sharing,
            default_line_ending: self.default_line_ending@,
        }
    }
}

impl Clone for SerialConfig {
    fn clone(&self) -> (r: Self)
        ensures
            r@ == self@,
    {
        SerialConfig {
            default_baud_rate: self.default_baud_rate,
            default_data_bits: self.default_data_bits,
            default_stop_bits: self.default_stop_bits.clone(),
            default_parity: self.default_parity.clone(),
            default_flow_control: self.default_flow_control.clone(),
            default_timeout_ms: self.default_timeout_ms,
            max_buffer_size: self.max_buffer_size,
            retry_count: self.retry_count,
            retry_delay_ms: self.retry_delay_ms,
            auto_discovery: self.auto_discovery,
            discovery_interval_seconds: self.discovery_interval_seconds,
            allow_port_sharing: self.allow_port_sharing,
            default_line_ending: self.default_line_ending.clone(),
        }
    }
}

impl SerialConfigView {
    /// The settings that apply where none are given.
    pub open spec fn standard() -> SerialConfigView {
        SerialConfigView {
            default_baud_rate: 115200,
            default_data_bits: 8,
            default_stop_bits: "One"@,
            default_parity: "None"@,
            default_flow_control: "None"@,
            default_timeout_ms: 1000,
            max_buffer_size: 8192,
            retry_count: 3,
            retry_delay_ms: 1000,
            auto_discovery: false,
            discovery_interval_seconds: 5,
            allow_port_sharing: false,
            default_line_ending: "\n"@,
        }
    }
}

impl Default for SerialConfig {
    fn default() -> (r: Self)
        ensures
            r@ == SerialConfigView::standard(),
    {
        SerialConfig {
            default_baud_rate: 115200,
            default_data_bits: 8,
            default_stop_bits: String::from_str("One"),
            default_parity: String::from_str("None"),
            default_flow_control: String::from_str("None"),
            default_timeout_ms: 1000,
            max_buffer_size: 8192,
            retry_count: 3,
            retry_delay_ms: 1000,
            auto_discovery: false,
            discovery_interval_seconds: 5,
            allow_port_sharing: false,
            default_line_ending: String::from_str("\n"),
        }
    }
}

/// Which ports may be used, and by whom.
#[derive(Debug)]
pub struct SecurityConfig {
    /// Whether the two lists of patterns below apply.
    pub restrict_ports: bool,
    /// Where not empty, a port name must contain one of these.
    pub allowed_ports: Vec<String>,
    /// A port name must contain none of these.
    pub blocked_ports: Vec<String>,
    pub max_data_size: usize,
    pub rate_limit_enabled: bool,
    pub rate_limit_requests_per_second: u32,
    pub enable_authentication: bool,
    pub allowed_clients: Vec<String>,
}

/// What a [`SecurityConfig`] holds, each text as its sequence of characters.
pub struct SecurityConfigView {
    pub restrict_ports: bool,
    pub allowed_ports: Seq<Seq<char>>,
    pub blocked_ports: Seq<Seq<char>>,
    pub max_data_size: usize,
    pub rate_limit_enabled: bool,
    pub rate_limit_requests_per_second: u32,
    pub enable_authentication: bool,
    pub allowed_clients: Seq<Seq<char>>,
}

impl View for SecurityConfig {
    type V = SecurityConfigView;

    open spec fn view(&self) -> SecurityConfigView {
        SecurityConfigView {
            restrict_ports: self.restrict_ports,
            allowed_ports: list_view(self.allowed_ports@),
            blocked_ports: list_view(self.blocked_ports@),
            max_data_size: self.max_data_size,
            rate_limit_enabled: self.rate_limit_enabled,
            rate_limit_requests_per_second: self.rate_limit_requests_per_second,
            enable_authentication: self.enable_authentication,
            allowed_clients: list_view(self.allowed_clients@),
        }
    }
}

impl Clone for SecurityConfig {
    fn clone(&self) -> (r: Self)
        ensures
            r@ == self@,
    {
        SecurityConfig {
            restrict_ports: self.restrict_ports,
            allowed_ports: clone_texts(&self.allowed_ports),
            blocked_ports: clone_texts(&self.blocked_ports),
            max_data_size: self.max_data_size,
            rate_limit_enabled: self.rate_limit_enabled,
            rate_limit_requests_per_second: self.rate_limit_requests_per_second,
            enable_authentication: self.enable_authentication,
            allowed_clients: clone_texts(&self.allowed_clients),
        }
    }
}

impl SecurityConfigView {
    /// The settings that apply where none are given.
    pub open spec fn standard() -> SecurityConfigView {
        SecurityConfigView {
            restrict_ports: false,
            allowed_ports: Seq::<Seq<char>>::empty(),
            blocked_ports: Seq::<Seq<char>>::empty(),
            max_data_size: 65536,
            rate_limit_enabled: false,
            rate_limit_requests_per_second: 100,
            enable_authentication: false,
            allowed_clients: Seq::<Seq<char>>::empty(),
        }
    }
}

impl Default for SecurityConfig {
    fn default() -> (r: Self)
        ensures
            r@ == SecurityConfigView::standard(),
    {
        let r = SecurityConfig {
            restrict_ports: false,
            allowed_ports: Vec::new(),
            blocked_ports: Vec::new(),
            max_data_size: 65536,
            rate_limit_enabled: false,
            rate_limit_requests_per_second: 100,
            enable_authentication: false,
            allowed_clients: Vec::new(),
        };
        assert(r@.allowed_ports =~= Seq::<Seq<char>>::empty());
        assert(r@.blocked_ports =~= Seq::<Seq<char>>::empty());
        assert(r@.allowed_clients =~= Seq::<Seq<char>>::empty());
        r
    }
}

/// How the server logs.
#[derive(Debug)]
pub struct LoggingConfig {
    /// One of `error`, `warn`, `info`, `debug`, `trace`.
    pub level: String,
    /// The path of the log file, where logs go to a file.
    pub file: Option<String>,
    pub format: String,
    pub timestamp_format: String,
    pub include_location: bool,
    pub include_thread_names: bool,
    pub rotate_logs: bool,
    pub max_log_files: usize,
    pub max_log_size_mb: usize,
}

/// What a [`LoggingConfig`] holds, each text as its sequence of characters.
pub struct LoggingConfigView {
    pub level: Seq<char>,
    pub file: Option<Seq<char>>,
    pub format: Seq<char>,
    pub timestamp_format: Seq<char>,
    pub include_location: bool,
    pub include_thread_names: bool,
    pub rotate_logs: bool,
    pub max_log_files: usize,
    pub max_log_size_mb: usize,
}

impl View for LoggingConfig {
    type V = LoggingConfigView;

    open spec fn view(&self) -> LoggingConfigView {
        LoggingConfigView {
            level: self.level@,
            file: option_view(self.file),
            format: self.format@,
            timestamp_format: self.timestamp_format@,
            include_location: self.include_location,
            include_thread_names: self.include_thread_names,
            rotate_logs: self.rotate_logs,
            max_log_files: self.max_log_files,
            max_log_size_mb: self.max_log_size_mb,
        }
    }
}

impl Clone for LoggingConfig {
    fn clone(&self) -> (r: Self)
        ensures
            r@ == self@,
    {
        LoggingConfig {
            level: self.level.clone(),
            file: clone_optional_text(&self.file),
            format: self.format.clone(),
            timestamp_format: self.timestamp_format.clone(),
            include_location: self.include_location,
            include_thread_names: self.include_thread_names,
            rotate_logs: self.rotate_logs,
            max_log_files: self.max_log_files,
            max_log_size_mb: self.max_log_size_mb,
        }
    }
}

impl LoggingConfigView {
    /// The settings that apply where none are given.
    pub open spec fn standard() -> LoggingConfigView {
        LoggingConfigView {
            level: "info"@,
            file: None,
            format: "text"@,
            timestamp_format: "rfc3339"@,
            include_location: false,
            include_thread_names: false,
            rotate_logs: false,
            max_log_files: 10,
            max_log_size_mb: 10,
        }
    }
}

impl Default for LoggingConfig {
    fn default() -> (r: Self)
        ensures
            r@ == LoggingConfigView::standard(),
    {
        LoggingConfig {
            level: String::from_str("info"),
            file: None,
            format: String::from_str("text"),
            timestamp_format: String::from_str("rfc3339"),
            include_location: false,
            include_thread_names: false,
            rotate_logs: false,
            max_log_files: 10,
            max_log_size_mb: 10,
        }
    }
}

/// The configuration of the server.
#[derive(Debug)]
pub struct Config {
    pub server: ServerConfig,
    pub serial: SerialConfig,
    pub security: SecurityConfig,
    pub logging: LoggingConfig,
}

/// What a [`Config`] holds, each text as its sequence of characters.
pub struct ConfigView {
    pub server: ServerConfigView,
    pub serial: SerialConfigView,
    pub security: SecurityConfigView,
    pub logging: LoggingConfigView,
}

impl View for Config {
    type V = ConfigView;

    open spec fn view(&self) -> ConfigView {
        ConfigView {
            server: self.server@,
            serial: self.serial@,
            security: self.security@,
            logging: self.logging@,
        }
    }
}

impl Clone for Config {
    fn clone(&self) -> (r: Self)
        ensures
            r@ == self@,
    {
        Config {
            server: self.server.clone(),
            serial: self.serial.clone(),
            security: self.security.clone(),
            logging: self.logging.clone(),
        }
    }
}

impl ConfigView {
    /// The settings that apply where none are given.
    pub open spec fn standard() -> ConfigView {
        ConfigView {
            server: ServerConfigView::standard(),
            serial: SerialConfigView::standard(),
            security: SecurityConfigView::standard(),
            logging: LoggingConfigView::standard(),
        }
    }
}

impl Default for Config {
    fn default() -> (r: Self)
        ensures
            r@ == ConfigView::standard(),
    {
        Config {
            server: ServerConfig::default(),
            serial: SerialConfig::default(),
            security: SecurityConfig::default(),
            logging: LoggingConfig::default(),
        }
    }
}

/// The settings given on the command line.
#[derive(Debug)]
pub struct Args {
    /// The path of the configuration file.
    pub config: Option<String>,
    /// The log level: `error`, `warn`, `info`, `debug` or `trace`.
    pub log_level: String,
    /// The path of the log file.
    pub log_file: Option<String>,
    /// The most sessions that may exist at once.
    pub max_connections: usize,
    /// The connection timeout in seconds.
    pub connection_timeout: u64,
    /// The baud rate where a request names none.
    pub default_baud_rate: u32,
    /// The timeout of an operation in milliseconds.
    pub default_timeout_ms: u64,
    /// The largest buffer in bytes.
    pub max_buffer_size: usize,
    /// How often a connection is retried.
    pub retry_count: u32,
    /// Whether ports are discovered automatically.
    pub auto_discovery: bool,
    /// Whether several sessions may be connected to one port.
    pub allow_port_sharing: bool,
    /// Whether port names are held against the lists of patterns.
    pub restrict_ports: bool,
    /// Print the default configuration and stop.
    pub generate_config: bool,
    /// Check the configuration and stop.
    pub validate_config: bool,
    /// Print the configuration in force and stop.
    pub show_config: bool,
}

/// What a [`Args`] holds, each text as its sequence of characters.
pub struct ArgsView {
    pub config: Option<Seq<char>>,
    pub log_level: Seq<char>,
    pub log_file: Option<Seq<char>>,
    pub max_connections: usize,
    pub connection_timeout: u64,
    pub default_baud_rate: u32,
    pub default_timeout_ms: u64,
    pub max_buffer_size: usize,
    pub retry_count: u32,
    pub auto_discovery: bool,
    pub allow_port_sharing: bool,
    pub restrict_ports: bool,
    pub generate_config: bool,
    pub validate_config: bool,
    pub show_config: bool,
}

impl View for Args {
    type V = ArgsView;

    open spec fn view(&self) -> ArgsView {
        ArgsView {
            config: option_view(self.config),
            log_level: self.log_level@,
            log_file: option_view(self.log_file),
            max_connections: self.max_connections,
            connection_timeout: self.connection_timeout,
            default_baud_rate: self.default_baud_rate,
            default_timeout_ms: self.default_timeout_ms,
            max_buffer_size: self.max_buffer_size,
            retry_count: self.retry_count,
            auto_discovery: self.auto_discovery,
            allow_port_sharing: self.allow_port_sharing,
            restrict_ports: self.restrict_ports,
            generate_config: self.generate_config,
            validate_config: self.validate_config,
            show_config: self.show_config,
        }
    }
}

impl Clone for Args {
    fn clone(&self) -> (r: Self)
        ensures
            r@ == self@,
    {
        Args {
            config: clone_optional_text(&self.config),
            log_level: self.log_level.clone(),
            log_file: clone_optional_text(&self.log_file),
            max_connections: self.max_connections,
            connection_timeout: self.connection_timeout,
            default_baud_rate: self.default_baud_rate,
            default_timeout_ms: self.default_timeout_ms,
            max_buffer_size: self.max_buffer_size,
            retry_count: self.retry_count,
            auto_discovery: self.auto_discovery,
            allow_port_sharing: self.allow_port_sharing,
            restrict_ports: self.restrict_ports,
            generate_config: self.generate_config,
            validate_config: self.validate_config,
            show_config: self.show_config,
        }
    }
}

/// The most sessions that a configuration may allow.
pub const MAX_CONNECTIONS_LIMIT: usize = 1000;

/// The largest buffer that a configuration may allow, in bytes.
pub const MAX_BUFFER_SIZE_LIMIT: usize = 1048576;

/// `level` is one of the five log levels.
pub open spec fn is_log_level(level: Seq<char>) -> bool {
    ||| level == "error"@
    ||| level == "warn"@
    ||| level == "info"@
    ||| level == "debug"@
    ||| level == "trace"@
}

impl ConfigView {
    /// The first rule that the configuration breaks, if it breaks one. The
    /// rules, in order: between 1 and 1000 sessions; a standard baud rate; a
    /// buffer of 1 byte to 1 MiB; a known log level.
    pub open spec fn fault(self) -> Option<ConfigErrorView> {
        if self.server.max_connections == 0 {
            Some(ConfigErrorView::InvalidValue { field: "server.max_connections"@, value: "0"@ })
        } else if self.server.max_connections > MAX_CONNECTIONS_LIMIT {
            Some(
                ConfigErrorView::ValueOutOfRange {
                    field: "server.max_connections"@,
                    value: decimal_text(self.server.max_connections as nat),
                    min: "1"@,
                    max: "1000"@,
                },
            )
        } else if self.serial.default_baud_rate == 0 {
            Some(ConfigErrorView::InvalidValue { field: "serial.default_baud_rate"@, value: "0"@ })
        } else if !is_standard_baud_rate(self.serial.default_baud_rate) {
            Some(
                ConfigErrorView::InvalidValue {
                    field: "serial.default_baud_rate"@,
                    value: decimal_text(self.serial.default_baud_rate as nat),
                },
            )
        } else if self.serial.max_buffer_size == 0 {
            Some(ConfigErrorView::InvalidValue { field: "serial.max_buffer_size"@, value: "0"@ })
        } else if self.serial.max_buffer_size > MAX_BUFFER_SIZE_LIMIT {
            Some(
                ConfigErrorView::ValueOutOfRange {
                    field: "serial.max_buffer_size"@,
                    value: decimal_text(self.serial.max_buffer_size as nat),
                    min: "1"@,
                    max: "1048576"@,
                },
            )
        } else if !is_log_level(self.logging.level) {
            Some(ConfigErrorView::InvalidValue { field: "logging.level"@, value: self.logging.level })
        } else {
            None
        }
    }

    /// What `validate` returns: the first broken rule as an invalid
    /// configuration that holds its message.
    pub open spec fn validated(self) -> core::result::Result<(), SerialErrorView> {
        match self.fault() {
            Some(fault) => Err(SerialErrorView::InvalidConfig(fault.text())),
            None => Ok(()),
        }
    }

    /// The configuration with the settings of the command line put in.
    pub open spec fn merged(self, args: ArgsView) -> ConfigView {
        ConfigView {
            server: ServerConfigView {
                max_connections: args.max_connections,
                connection_timeout_seconds: args.connection_timeout,
                ..self.server
            },
            serial: SerialConfigView {
                default_baud_rate: args.default_baud_rate,
                default_timeout_ms: args.default_timeout_ms,
                max_buffer_size: args.max_buffer_size,
                retry_count: args.retry_count,
                auto_discovery: args.auto_discovery,
                allow_port_sharing: args.allow_port_sharing,
                ..self.serial
            },
            security: SecurityConfigView { restrict_ports: args.restrict_ports, ..self.security },
            logging: LoggingConfigView { level: args.log_level, file: args.log_file, ..self.logging },
        }
    }
}

/// Whether `level` is one of the five log levels.
pub fn log_level_known(level: &str) -> (r: bool)
    ensures
        r == is_log_level(level@),
{
    same_text(level, "error") || same_text(level, "warn") || same_text(level, "info") || same_text(
        level,
        "debug",
    ) || same_text(level, "trace")
}

fn invalid_value(field: &str, value: String) -> (r: SerialError)
    ensures
        r@ == SerialErrorView::InvalidConfig(
            (ConfigErrorView::InvalidValue { field: field@, value: value@ }).text(),
        ),
{
    SerialError::from(ConfigError::InvalidValue { field: String::from_str(field), value })
}

fn out_of_range(field: &str, value: String, min: &str, max: &str) -> (r: SerialError)
    ensures
        r@ == SerialErrorView::InvalidConfig(
            (ConfigErrorView::ValueOutOfRange { field: field@, value: value@, min: min@, max: max@ }).text(),
        ),
{
    SerialError::from(
        ConfigError::ValueOutOfRange {
            field: String::from_str(field),
            value,
            min: String::from_str(min),
            max: String::from_str(max),
        },
    )
}

impl Config {
    /// Puts the settings of the command line into the configuration. They
    /// take the place of what a configuration file gave.
    pub fn merge_args(&mut self, args: &Args)
        ensures
            final(self)@ == old(self)@.merged(args@),
    {
        self.server.max_connections = args.max_connections;
        self.server.connection_timeout_seconds = args.connection_timeout;
        self.serial.default_baud_rate = args.default_baud_rate;
        self.serial.default_timeout_ms = args.default_timeout_ms;
        self.serial.max_buffer_size = args.max_buffer_size;
        self.serial.retry_count = args.retry_count;
        self.serial.auto_discovery = args.auto_discovery;
        self.serial.allow_port_sharing = args.allow_port_sharing;
        self.security.restrict_ports = args.restrict_ports;
        self.logging.level = args.log_level.clone();
        self.logging.file = clone_optional_text(&args.log_file);
    }

    /// Holds the configuration against its rules and reports the first one
    /// that it breaks.
    pub fn validate(&self) -> (r: Result<()>)
        ensures
            result_view(r) == self@.validated(),
    {
        if self.server.max_connections == 0 {
            return Err(invalid_value("server.max_connections", String::from_str("0")));
        }
        if self.server.max_connections > MAX_CONNECTIONS_LIMIT {
            return Err(
                out_of_range(
                    "server.max_connections",
                    decimal(self.server.max_connections as u64),
                    "1",
                    "1000",
                ),
            );
        }
        if self.serial.default_baud_rate == 0 {
            return Err(invalid_value("serial.default_baud_rate", String::from_str("0")));
        }
        if !standard_baud_rate(self.serial.default_baud_rate) {
            return Err(invalid_value("serial.default_baud_rate", decimal(self.serial.default_baud_rate as u64)));
        }
        if self.serial.max_buffer_size == 0 {
            return Err(invalid_value("serial.max_buffer_size", String::from_str("0")));
        }
        if self.serial.max_buffer_size > MAX_BUFFER_SIZE_LIMIT {
            return Err(
                out_of_range(
                    "serial.max_buffer_size",
                    decimal(self.serial.max_buffer_size as u64),
                    "1",
                    "1048576",
                ),
            );
        }
        if !log_level_known(self.logging.level.as_str()) {
            return Err(invalid_value("logging.level", self.logging.level.clone()));
        }
        Ok(())
    }
}

} // verus!
