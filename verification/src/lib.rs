//! Verified core of a WebSocket-to-TCP/Unix bridge ("websockify").
//!
//! The crate holds the decision logic of the bridge: the upstream
//! destination model with its connect-fallback policy, the per-direction
//! relay state machine that forwards bytes between a WebSocket and an
//! upstream stream, the upgrade decision for an incoming connection, and
//! the path resolution used when serving embedded static files. The
//! surrounding process performs the actual socket and HTTP work and feeds
//! plain values to these functions.

pub mod bridge;
pub mod dest;
pub mod embed;
pub mod error;
pub mod relay;
pub mod render;
