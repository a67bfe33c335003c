//! Test configuration as read from the input files.
use vstd::prelude::*;
use crate::service_map::ServiceMap;

verus! {

/// A load-step deadline in seconds, carried as the bit pattern of the
/// `f64` read from the profile file.
#[derive(Debug, Clone, Copy, PartialEq, Eq, Structural)]
pub struct DeadlineConfig {
    pub bits: u64,
}

impl DeadlineConfig {
    pub open spec fn spec_bits(self) -> u64 {
        self.bits
    }

    /// The deadline whose `f64` bit pattern is `bits`.
    pub fn from_bits(bits: u64) -> (d: Self)
        ensures
            d.spec_bits() == bits,
    {
        DeadlineConfig { bits }
    }

    /// The `f64` bit pattern of the deadline.
    pub fn to_bits(&self) -> (b: u64)
        ensures
            b == self.spec_bits(),
    {
        self.bits
    }
}

/// One step of the load profile: `count` requests to send until `deadline`.
#[derive(Debug, Clone, Copy, PartialEq, Eq, Structural)]
pub struct LoadStepConfig {
    pub deadline: DeadlineConfig,
    pub count: u32,
}

/// The load profile: its steps in order.
#[derive(Debug, Clone, PartialEq, Eq)]
pub struct LoadProfileConfig {
    pub steps: Vec<LoadStepConfig>,
}

/// The warmup phase: `rate` transactions per second for `duration` seconds,
/// then `pause` seconds before the load phase.
#[derive(Debug, Clone, Copy, PartialEq, Eq, Structural)]
pub struct WarmupConfig {
    pub rate: u32,
    pub duration: u32,
    pub pause: u32,
}

impl Default for WarmupConfig {
    fn default() -> (w: Self)
        ensures
            w == (WarmupConfig { rate: 0, duration: 0, pause: 0 }),
    {
        WarmupConfig { rate: 0, duration: 0, pause: 0 }
    }
}

/// The service registry: logical service names and their base URLs.
#[derive(Debug, Clone, PartialEq, Eq)]
pub struct ServiceRegistryConfig {
    pub services: ServiceMap,
}

} // verus!
