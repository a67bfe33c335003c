//! The phases through which the orchestrator drives each load generator.
pub mod collect;
pub mod configure;
pub mod connect;
pub mod handle;
pub mod start;
