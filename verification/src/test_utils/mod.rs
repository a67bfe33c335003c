//! Builders of test inputs: load profiles, registries, warmups and scripts.
pub mod profile;
pub mod registry;
pub mod request;
pub mod script;
pub mod warmup;

pub use profile::ProfileBuilder;
pub use registry::{RegistryBuilder, DEFAULT_TEST_URL};
pub use script::{ScriptBuilder, DEFAULT_TEST_METHOD, DEFAULT_TEST_PATH, DEFAULT_TEST_SERVICE};
pub use warmup::WarmupBuilder;
