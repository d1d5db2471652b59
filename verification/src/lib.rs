//! Readiness handshake with a backend sidecar process.

pub mod readiness;
pub mod session;
pub mod state;
pub mod text;
pub mod watcher;
