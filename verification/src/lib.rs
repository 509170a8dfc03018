//! StarNet: the verified core of a remote desktop system.
//!
//! The modules hold the shared protocol types, the decisions of the screen
//! capturer, the encoder and input stubs, the host/client transport state
//! and message framing, and the signaling server's device registry and
//! per-connection state machine.

pub mod identity;
pub mod config;
pub mod events;
pub mod capture;
pub mod encode;
pub mod input;
pub mod transport;
pub mod signal;
