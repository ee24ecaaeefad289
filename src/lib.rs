//! Discovery of an EV charger over Bluetooth Low Energy and interpretation of
//! its local HTTP status API.
//!
//! The Bluetooth and HTTP transports are driven by the caller; this library
//! holds the decisions: which discovered peripheral is the charger, what the
//! status request looks like, and what a status reply means.

pub mod config;
pub mod decimal;
pub mod error;
pub mod matcher;
pub mod status;
pub mod text;
