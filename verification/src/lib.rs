//! Session and connection lifecycle management for serial ports.
//!
//! A caller discovers, opens, reads, writes and closes serial ports through
//! a small set of tools. The library keeps the books: which sessions and
//! connections exist, what state each is in, who may create or connect one,
//! and what traffic each has seen. The ports themselves are driven by the
//! caller, who reports to the library what each operation came to.

pub mod clock;
pub mod config;
pub mod encoding;
pub mod error;
pub mod ident;
pub mod model;
pub mod registry;
pub mod serial;
pub mod session;
pub mod text;
pub mod tools;
pub mod utils;

use vstd::prelude::*;

pub use config::{Args, Config};
pub use error::{Result, SerialError};
pub use serial::{ConnectionManager, PortInfo, SerialConnection};
pub use session::{SerialSession, SessionManager, SessionState};
pub use tools::SerialHandler;
pub use utils::{DataConverter, DataFormat, PortType};

verus! {

/// The version of the library.
pub const VERSION: &'static str = "0.1.0";

/// The name of the library.
pub const NAME: &'static str = "serial_mcp_server";

/// What the library is for.
pub const DESCRIPTION: &'static str = "A Model Context Protocol server for serial port communication";

} // verus!
