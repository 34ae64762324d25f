//! Control-and-telemetry core for a vintage-computer front-panel emulator.
//!
//! The crate provides the three verified pillars of the system:
//! a self-delimiting binary frame codec carried over a reliable byte
//! stream, a virtual-time register/flip-flop model that turns
//! high-frequency bit changes into human-perceptible lamp glow, and the
//! server/client dispatch rules that keep the shared emulated state
//! consistent.  Window management, rendering and socket I/O are external
//! collaborators that consume the plain values computed here.
#![verifier::loop_isolation(false)]

pub mod clock;
pub mod codec;
pub mod event;
pub mod glow;
pub mod message;
pub mod panel;
pub mod register;
pub mod server;
