//! Messages exchanged between the orchestrator and the load generators.
use vstd::prelude::*;
use vstd::std_specs::convert::FromSpecImpl;
use crate::config::{DeadlineConfig, LoadProfileConfig, LoadStepConfig, ServiceRegistryConfig, WarmupConfig};
use crate::service_map::ServiceMap;
use crate::tracker::IntervalReport;
use crate::transaction::LoadGeneratorId;

verus! {

/// A command from the orchestrator to a configured load generator.
#[derive(Debug, Clone, Copy, PartialEq, Eq, Structural)]
pub enum Command {
    Start,
    Abort,
}

/// A deadline of a load step in seconds, carried as the bit pattern of an
/// `f64`.
#[derive(Debug, Clone, Copy, PartialEq, Eq, Structural)]
pub struct LoadStepDeadline {
    pub bits: u64,
}

impl LoadStepDeadline {
    pub open spec fn spec_bits(self) -> u64 {
        self.bits
    }

    /// The deadline whose `f64` bit pattern is `bits`.
    pub fn from_bits(bits: u64) -> (d: Self)
        ensures
            d.spec_bits() == bits,
    {
        LoadStepDeadline { bits }
    }

    /// The `f64` bit pattern of the deadline.
    pub fn to_bits(&self) -> (b: u64)
        ensures
            b == self.spec_bits(),
    {
        self.bits
    }
}

impl FromSpecImpl<DeadlineConfig> for LoadStepDeadline {
    open spec fn obeys_from_spec() -> bool {
        true
    }

    open spec fn from_spec(v: DeadlineConfig) -> Self {
        LoadStepDeadline { bits: v.spec_bits() }
    }
}

impl From<DeadlineConfig> for LoadStepDeadline {
    fn from(value: DeadlineConfig) -> (r: Self) {
        LoadStepDeadline { bits: value.to_bits() }
    }
}

/// One step of a generator's load profile.
#[derive(Debug, Clone, Copy, PartialEq, Eq, Structural)]
pub struct LoadStep {
    pub deadline: LoadStepDeadline,
    pub count: u32,
}

impl FromSpecImpl<LoadStepConfig> for LoadStep {
    open spec fn obeys_from_spec() -> bool {
        true
    }

    open spec fn from_spec(v: LoadStepConfig) -> Self {
        LoadStep { deadline: LoadStepDeadline { bits: v.deadline.spec_bits() }, count: v.count }
    }
}

impl From<LoadStepConfig> for LoadStep {
    fn from(cfg: LoadStepConfig) -> (r: Self) {
        LoadStep { deadline: LoadStepDeadline { bits: cfg.deadline.to_bits() }, count: cfg.count }
    }
}

/// A generator's load profile.
#[derive(Debug, Clone, PartialEq, Eq)]
pub struct LoadProfile {
    pub steps: Vec<LoadStep>,
}

/// The wire form of a step of the profile.
pub open spec fn wire_step(v: LoadStepConfig) -> LoadStep {
    LoadStep { deadline: LoadStepDeadline { bits: v.deadline.spec_bits() }, count: v.count }
}

impl LoadProfile {
    /// The wire profile of a configured profile, which is left unchanged.
    pub fn from_config_ref(cfg: &LoadProfileConfig) -> (p: Self)
        ensures
            p.steps@ == cfg.steps@.map_values(|s: LoadStepConfig| wire_step(s)),
    {
        let mut steps: Vec<LoadStep> = Vec::new();
        let mut i: usize = 0;
        while i < cfg.steps.len()
            invariant
                i <= cfg.steps.len(),
                steps@ == cfg.steps@.take(i as int).map_values(|s: LoadStepConfig| wire_step(s)),
            decreases cfg.steps.len() - i,
        {
            let s = cfg.steps[i];
            steps.push(LoadStep { deadline: LoadStepDeadline { bits: s.deadline.to_bits() }, count: s.count });
            proof {
                assert(cfg.steps@.take(i + 1) =~= cfg.steps@.take(i as int).push(cfg.steps@[i as int]));
            }
            i = i + 1;
        }
        proof {
            assert(cfg.steps@.take(cfg.steps.len() as int) =~= cfg.steps@);
        }
        LoadProfile { steps }
    }

    /// The wire profile of a configured profile: the same steps, in order.
    pub fn from_config(cfg: LoadProfileConfig) -> (p: Self)
        ensures
            p.steps@ == cfg.steps@.map_values(|s: LoadStepConfig| wire_step(s)),
    {
        let mut steps: Vec<LoadStep> = Vec::new();
        let mut i: usize = 0;
        while i < cfg.steps.len()
            invariant
                i <= cfg.steps.len(),
                steps@ == cfg.steps@.take(i as int).map_values(|s: LoadStepConfig| wire_step(s)),
            decreases cfg.steps.len() - i,
        {
            let s = cfg.steps[i];
            steps.push(LoadStep { deadline: LoadStepDeadline { bits: s.deadline.to_bits() }, count: s.count });
            proof {
                assert(cfg.steps@.take(i + 1) =~= cfg.steps@.take(i as int).push(cfg.steps@[i as int]));
            }
            i = i + 1;
        }
        proof {
            assert(cfg.steps@.take(cfg.steps.len() as int) =~= cfg.steps@);
        }
        LoadProfile { steps }
    }
}

/// The logical service names and their base URLs.
#[derive(Debug, Clone, PartialEq, Eq)]
pub struct ServiceRegistry {
    pub services: ServiceMap,
}

impl Default for ServiceRegistry {
    fn default() -> (r: Self)
        ensures
            r.services.wf(),
            r.services.spec_entries().len() == 0,
    {
        ServiceRegistry { services: ServiceMap::new() }
    }
}

impl ServiceRegistry {
    /// The registry of a configured one, with the same services.
    pub fn from_config(cfg: ServiceRegistryConfig) -> (r: Self)
        ensures
            r.services == cfg.services,
    {
        ServiceRegistry { services: cfg.services }
    }
}

/// The warmup phase as sent to a generator.
#[derive(Debug, Clone, Copy, PartialEq, Eq, Structural)]
pub struct Warmup {
    pub rate: u32,
    pub duration: u32,
    pub pause: u32,
}

impl FromSpecImpl<WarmupConfig> for Warmup {
    open spec fn obeys_from_spec() -> bool {
        true
    }

    open spec fn from_spec(v: WarmupConfig) -> Self {
        Warmup { rate: v.rate, duration: v.duration, pause: v.pause }
    }
}

impl From<WarmupConfig> for Warmup {
    fn from(cfg: WarmupConfig) -> (r: Self) {
        Warmup { rate: cfg.rate, duration: cfg.duration, pause: cfg.pause }
    }
}

/// Everything a generator needs to run its part of the test.
#[derive(Debug, Clone, PartialEq, Eq)]
pub struct LoadGeneratorConfig {
    pub profile: LoadProfile,
    pub script: String,
    pub registry: ServiceRegistry,
    pub warmup: Warmup,
    pub virtual_user_count: u32,
    pub seed: u64,
    pub timeout_ms: u64,
    pub load_generator_id: LoadGeneratorId,
}

/// A message of the configuration phase, orchestrator to generator.
#[derive(Debug, Clone, PartialEq, Eq)]
pub enum ConfigMessage {
    Config(LoadGeneratorConfig),
    Abort,
}

/// A generator's answer in the configuration phase.
#[derive(Debug, Clone, PartialEq, Eq)]
pub enum ConfigResponse {
    Ready,
    SetupFailed { reason: String },
    Aborted,
}

/// A generator's message during the load phase.
#[derive(Debug, Clone, PartialEq, Eq)]
pub enum GeneratorUpdate {
    IntervalReport(IntervalReport),
    Finished,
}

} // verus!
