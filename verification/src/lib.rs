//! Startup configuration of a process-wide logging subsystem.
//!
//! The library resolves an optional severity name and an optional log-file
//! path into a complete, validated configuration: a console sink that is
//! always present, an optional file sink with a size-triggered rotation
//! policy, and a named logical channel, all gated by one effective severity
//! threshold. It also models the two runtime rules that the configuration
//! promises: which records a sink lets through, and when the active log file
//! rotates into its single archive slot. Installing the configuration into
//! the logging backend is the caller's step; the backend accepts exactly one
//! installation per process, which the [`init::Initializer`] guard tracks.

pub mod config;
pub mod init;
pub mod rotation;
pub mod severity;
