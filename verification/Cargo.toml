[package]
name = "serial_mcp_server"
version = "0.1.0"
edition = "2021"
publish = false

[dependencies]
anyhow = "1"
base64 = "0.22"
chrono = { version = "0.4", features = ["serde"] }
clap = { version = "4", features = ["derive"] }
hex = "0.4"
rmcp = { version = "*", features = ["server", "macros", "transport-io"] }
schemars = "*"
serde = { version = "1", features = ["derive"] }
serde_json = "1"
serialport = { version = "4", default-features = false }
thiserror = "1"
tokio = { version = "1", features = ["full"] }
tokio-serial = "5"
toml = "*"
tracing = "0.1"
tracing-subscriber = { version = "0.3", features = ["env-filter"] }
uuid = { version = "1", features = ["v4"] }
