//! Network time-synchronization and telemetry-session library for a small
//! firmware node: calendar conversions, a monotonic-anchored wall clock,
//! an SNTP client with multi-server retry, secure-transport and pub/sub
//! session configuration, and the message plumbing that coordinates them.

pub mod calendar;
pub mod clock;
pub mod device;
pub mod mqtt;
pub mod netcfg;
pub mod orchestrator;
pub mod sntp;
pub mod tls;
