//! A privilege-elevation broker, modelled as verified state machines.
//!
//! An unprivileged client asks an always-running privileged daemon to execute
//! a command as another user. The daemon checks the caller against a system
//! policy authority, then publishes a process record that the caller
//! configures, spawns and signals; a background reaper reclaims records whose
//! children have exited. All decisions of that protocol - authorization
//! gating, ownership binding, the record lifecycle, the registry scan and the
//! client's terminal-mode discipline - live here as verified functions over
//! plain values; the surrounding process, bus and terminal I/O stays outside.

pub mod daemon;
pub mod errors;
pub mod gate;
pub mod record;
pub mod session;

pub use errors::Error;
