//! A registry of independently controllable countdown timers.
//!
//! The registry is a plain sequential state machine: every command and every
//! step of a timer's background loop is a verified transition on it. A host
//! that drives several loops at once keeps the registry behind one lock and
//! calls these transitions while holding it.
pub mod timer;
pub mod manager;
pub mod laws;
