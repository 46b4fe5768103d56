//! Core logic of a server-rendered web frontend for a hierarchical
//! object-storage platform.
//!
//! The crate holds the decision logic that sits between the HTTP layer and
//! the remote storage service: validation of resource-creation forms,
//! parent/child compatibility rules for the resource hierarchy, and the
//! session/token bootstrap state machine that keeps a browser session
//! supplied with a platform-issued bearer token and a cached identity.
//! All network traffic and markup rendering live outside this crate; the
//! functions here work on plain values and say exactly what they decide.

pub mod api;
pub mod error;
pub mod handlers;
pub mod identity;
pub mod resources;
pub mod session;
