//! Verified core of a serial-to-TCP relay.
//!
//! A *binding* ties one serial device to one TCP listen address and relays
//! bytes in both directions between a connected TCP client and the device.
//! This crate holds the binding's decision logic — configuration
//! normalization, the per-session pump decisions, and the supervisor's
//! reconnect state machine — each with a verified contract.  The thin shell
//! that performs the actual I/O (opening ports, accepting connections,
//! spawning threads) drives these functions and lives outside the verified
//! library.

pub mod config;
pub mod ini;
pub mod pump;
pub mod supervisor;
pub mod text;
