//! Installation orchestration core for a small desktop-installer shell.
//!
//! The library holds the logic that the installer's window plumbing drives:
//! resolving local-protocol resource requests to file paths, generating the
//! desktop launcher entry, building the privileged install command, routing
//! inbound UI messages to typed actions, and the FIFO status channel that
//! carries install progress back to the rendering loop.

pub mod config;
pub mod desktop;
pub mod install;
pub mod json;
pub mod resolver;
pub mod router;
pub mod status;
pub mod text;
pub mod ui;
