//! Sessions and their registry.

pub mod laws;
pub mod manager;
pub mod session;

pub use manager::SessionManager;
pub use session::{SerialSession, SessionConfig, SessionState};
