//! Host telemetry reporting core: turns what the operating system reports
//! (uptime, network interfaces and counters, memory, mounts, hostname) into
//! plain records, and each failure into one of two error kinds that map to an
//! HTTP status.
pub mod error;
pub mod handlers;
pub mod laws;
pub mod outside;
pub mod report;
pub mod stats;
pub mod timestamp;
pub mod types;
