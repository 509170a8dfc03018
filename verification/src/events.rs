//! Input events, control messages and signaling messages.
//!
//! Pointer coordinates and scroll deltas are `f64` on the wire; here each is
//! held as the IEEE-754 bit pattern of that `f64` (`f64::to_bits`), which
//! carries the value through the library unchanged.

use vstd::prelude::*;
use crate::config::ScreenConfig;
use crate::identity::{DeviceId, SessionId};

verus! {

/// Mouse button identifier.
#[derive(Debug, Clone, Copy, PartialEq, Eq, Structural)]
pub enum MouseButton {
    Left,
    Right,
    Middle,
    Back,
    Forward,
}

/// Input events sent from the client to the host.
#[derive(Debug, Clone, Copy, PartialEq, Eq, Structural)]
pub enum InputEvent {
    MouseMove { x: u64, y: u64 },
    MouseClick { button: MouseButton, x: u64, y: u64, pressed: bool },
    MouseScroll { x: u64, y: u64, delta_x: u64, delta_y: u64 },
    KeyPress { key: u32, modifiers: u32 },
    KeyRelease { key: u32, modifiers: u32 },
}

/// Messages exchanged between host and client during a session.
#[derive(Debug, Clone)]
pub enum ControlMessage {
    Connect { session_id: SessionId, device_id: DeviceId },
    Disconnect { session_id: SessionId, reason: Option<String> },
    InputEvent { session_id: SessionId, event: InputEvent },
    ScreenConfig { session_id: SessionId, config: ScreenConfig },
    Heartbeat { session_id: SessionId, timestamp_ms: u64 },
}

/// WebRTC signaling messages exchanged via the signaling server.
#[derive(Debug, Clone)]
pub enum SignalMessage {
    /// Register a device with the signaling server.
    Register { device_id: DeviceId, device_name: String },
    /// Unregister a device.
    Unregister { device_id: DeviceId },
    /// Request to pair with another device.
    PairRequest { from: DeviceId, to: DeviceId, session_id: SessionId },
    /// WebRTC offer (SDP).
    Offer { from: DeviceId, to: DeviceId, session_id: SessionId, sdp: String },
    /// WebRTC answer (SDP).
    Answer { from: DeviceId, to: DeviceId, session_id: SessionId, sdp: String },
    /// WebRTC ICE candidate.
    IceCandidate {
        from: DeviceId,
        to: DeviceId,
        session_id: SessionId,
        candidate: String,
        sdp_mid: Option<String>,
        sdp_m_line_index: Option<u32>,
    },
}

} // verus!
