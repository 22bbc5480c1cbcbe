//! A simulated Open Protocol fastening controller: message framing, field
//! encoding, device state, subscriptions and MID handlers.

pub mod clock;
pub mod config;
pub mod connection;
pub mod handler;
pub mod multi_spindle;
pub mod protocol;
pub mod session;
pub mod state;
pub mod subscriptions;
pub mod tightening_tracker;
