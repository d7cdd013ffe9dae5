//! Lifecycle management for a single secure-connection client.
//!
//! The library holds the decisions: which backend is built from which token,
//! when a start attempt is made, how the shutdown signal is handed out, how
//! outcomes of the link protocol and of the service manager map onto client
//! states and errors, and when a cached service status may be reused. The
//! awaiting, the OS calls and the storage I/O are performed by the caller, who
//! hands the outcomes back as plain values.

mod shutdown;

pub mod auth_token;
pub mod embedded_client;
pub mod lifecycle;
pub mod secure_link_client;
pub mod service_manager;
pub mod windows_service;
pub mod windows_service_client;

pub use secure_link_client::{SecureLinkClientError, SecureLinkClientState};
