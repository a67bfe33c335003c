//! Verified core of a distributed, open-loop load-testing tool.
//!
//! The library holds the data model of a load test (transactions, interval
//! statistics, load profiles), the rules by which load is split across
//! generators, the CSV and console renderings of results, and the decision
//! logic of the orchestrator and of the script runner.
#![allow(unused_imports)]

pub mod text;
pub mod load;
pub mod transaction;
pub mod virtual_user;
pub mod tracker;
pub mod service_map;
pub mod config;
pub mod orchestrator;
pub mod wire;
pub mod script;
pub mod test_utils;
