//! A verified core for a small authenticated HTTP clipboard bridge.
//!
//! The bridge exposes the host desktop's clipboard to remote callers while
//! hiding which Linux display ecosystem (Wayland or X11) is active. This
//! crate holds the decision logic of that bridge: priority-ordered backend
//! detection, the fixed command table for each backend, authentication,
//! translation of subprocess outcomes into typed errors, and the shaping of
//! every HTTP reply. The thin network shell around it (socket handling,
//! JSON encoding) stays outside.

pub mod api;
pub mod auth;
pub mod backend;
pub mod clipboard;
pub mod companion;
pub mod config;
pub mod subprocess;
