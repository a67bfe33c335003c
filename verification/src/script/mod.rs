//! User scripts: the request specs they define and the order in which a
//! virtual user runs them.
pub mod method;
pub mod lua;
pub mod parser;
pub mod calls;
pub mod loader;
pub mod store;
pub mod response;

pub use method::HttpMethod;
pub mod spec;
pub mod runner;
