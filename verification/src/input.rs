//! Input event simulation abstraction.

use vstd::prelude::*;
use crate::events::InputEvent;

verus! {

/// Errors that can occur during input simulation.
#[derive(Debug)]
pub enum InputError {
    MouseEventFailed(String),
    KeyEventFailed(String),
    PlatformNotSupported,
    InvalidEvent(String),
    Other(String),
}

/// Trait for input event simulation.
///
/// Each platform provides its own implementation: SendInput on Windows,
/// CGEventPost on macOS.
pub trait InputSimulator: Send + Sync {
    /// Send an input event to simulate user interaction.
    fn send_event(&self, event: InputEvent) -> Result<(), InputError>;
}

/// Windows input simulator using the SendInput API; no event is injected
/// yet, every one is refused as unsupported.
pub struct WindowsInputSimulator;

impl WindowsInputSimulator {
    /// Create a new Windows input simulator.
    pub fn new() -> (r: Self) {
        WindowsInputSimulator
    }
}

impl Default for WindowsInputSimulator {
    fn default() -> (r: Self) {
        WindowsInputSimulator::new()
    }
}

impl InputSimulator for WindowsInputSimulator {
    fn send_event(&self, event: InputEvent) -> (r: Result<(), InputError>)
        ensures
            r matches Err(InputError::PlatformNotSupported),
    {
        Err(InputError::PlatformNotSupported)
    }
}

/// Simulator for platforms without an implementation.
pub struct StubInputSimulator;

impl InputSimulator for StubInputSimulator {
    fn send_event(&self, event: InputEvent) -> (r: Result<(), InputError>)
        ensures
            r matches Err(InputError::PlatformNotSupported),
    {
        Err(InputError::PlatformNotSupported)
    }
}

} // verus!
