//! Authoritative server core for a real-time multiplayer simulation.
//!
//! The library holds the canonical state of all connected players (position,
//! velocity), advances that state on a fixed cadence, applies intent commands
//! produced by remote clients, and periodically publishes snapshots of the
//! world back out through an outbound event queue.
//!
//! Spatial quantities are fixed-point integers: positions and velocities are
//! measured in thousandths of a world unit, simulated time in milliseconds.

pub mod bridge;
pub mod broadcast;
pub mod commands;
pub mod laws;
pub mod messages;
pub mod motion;
pub mod store;
