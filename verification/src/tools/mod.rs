//! The tools that the server offers to its callers.

pub mod serial_handler;
pub mod types;

pub use serial_handler::SerialHandler;
pub use types::{decode_data, encode_data};
