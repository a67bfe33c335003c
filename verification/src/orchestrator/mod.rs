//! The orchestrator: splitting the test across generators, driving them
//! through their phases, and persisting what they report.
pub mod distribute;

pub use distribute::{distribute_count, distribute_profile};
pub mod persist;
pub mod phases;
pub mod config;
pub mod io;
pub mod runner;
pub mod error;

pub use error::{ConfigError, Error, OutputError};

pub use config::LoadTestConfig;
pub use phases::connect::ConnectHandle;
