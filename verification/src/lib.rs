//! Telemetry agent core: event taxonomy, session client and cadence scheduler.

pub mod api;
pub mod cli;
pub mod config;
pub mod event;
pub mod util;
