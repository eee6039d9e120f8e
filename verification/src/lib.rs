//! Shared building blocks for data-platform services: layered configuration,
//! a common error type, and the settings of the process-wide log sink.
//!
//! The library works on plain values. Reading files and the process
//! environment, and installing the log sink, are left to the caller.

pub mod config;
pub mod error;
pub mod logging;
pub mod settings;
pub mod text;

pub use config::Config;
pub use error::PlatformError;
