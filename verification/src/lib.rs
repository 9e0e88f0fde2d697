//! Client for a local-network smart-device protocol: a session frames a
//! textual command into a binary message, exchanges it with the device over
//! one fresh TCP connection per call, and decodes the reply.
//!
//! The crate holds the protocol logic: the message codec
//! ([`mesparse`]), the exchange state machine that decides each transport
//! step and classifies failures ([`exchange`]), and the session type that
//! binds a codec to a device endpoint ([`tuyadevice`]). The transport
//! itself (TCP connect, write, read, shutdown) is performed by a driver
//! outside this crate, which feeds the outcome of each step back into the
//! state machine.

pub mod error;
pub mod exchange;
pub mod mesparse;
pub mod tuyadevice;
