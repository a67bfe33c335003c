//! A builder of load profiles.
use vstd::prelude::*;
use crate::config::{DeadlineConfig, LoadProfileConfig, LoadStepConfig};

verus! {

/// Builds a load profile step by step.
#[derive(Debug, Clone)]
pub struct ProfileBuilder {
    profile: LoadProfileConfig,
}

impl ProfileBuilder {
    /// The steps added so far.
    pub closed spec fn spec_steps(self) -> Seq<LoadStepConfig> {
        self.profile.steps@
    }

    /// A builder with no steps.
    pub fn new() -> (b: Self)
        ensures
            b.spec_steps() == Seq::<LoadStepConfig>::empty(),
    {
        ProfileBuilder { profile: LoadProfileConfig { steps: Vec::new() } }
    }

    /// Appends a step: `count` requests until the deadline whose `f64` bit
    /// pattern is `deadline_bits`.
    pub fn add_step(self, deadline_bits: u64, count: u32) -> (b: Self)
        ensures
            b.spec_steps() == self.spec_steps().push(LoadStepConfig {
                deadline: DeadlineConfig { bits: deadline_bits },
                count,
            }),
    {
        let mut profile = self.profile;
        profile.steps.push(LoadStepConfig { deadline: DeadlineConfig::from_bits(deadline_bits), count });
        ProfileBuilder { profile }
    }

    /// The steps of the profile, in order.
    pub fn steps(&self) -> (s: &[LoadStepConfig])
        ensures
            s@ == self.spec_steps(),
    {
        self.profile.steps.as_slice()
    }

    /// The built profile.
    pub fn build(self) -> (p: LoadProfileConfig)
        ensures
            p.steps@ == self.spec_steps(),
    {
        self.profile
    }
}

impl Default for ProfileBuilder {
    fn default() -> (b: Self)
        ensures
            b.spec_steps() == Seq::<LoadStepConfig>::empty(),
    {
        ProfileBuilder::new()
    }
}

} // verus!
