//! Lifecycle and event-dispatch core for wrappers around a callback-driven
//! QUIC engine.
//!
//! The engine itself is not part of this crate. Every function here is a pure
//! step: a call that the engine answers at once takes that answer as an
//! argument, and every event that the engine delivers is handed to
//! `on_event` of the object it belongs to.

pub mod buffer;
pub mod config;
pub mod configuration;
pub mod connection;
pub mod handle;
pub mod history;
pub mod listener;
pub mod registration;
pub mod send;
pub mod status;
pub mod stream;
