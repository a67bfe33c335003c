//! A builder of warmup configurations.
use vstd::prelude::*;
use crate::config::WarmupConfig;

verus! {

/// Builds a warmup configuration.
#[derive(Debug, Clone)]
pub struct WarmupBuilder {
    warmup: WarmupConfig,
}

impl Default for WarmupBuilder {
    fn default() -> (b: Self)
        ensures
            b.spec_warmup() == (WarmupConfig { rate: 0, duration: 0, pause: 0 }),
    {
        WarmupBuilder::new()
    }
}

impl WarmupBuilder {
    pub closed spec fn spec_warmup(self) -> WarmupConfig {
        self.warmup
    }

    /// A builder of a warmup with zero rate, duration and pause.
    pub fn new() -> (b: Self)
        ensures
            b.spec_warmup() == (WarmupConfig { rate: 0, duration: 0, pause: 0 }),
    {
        WarmupBuilder { warmup: WarmupConfig { rate: 0, duration: 0, pause: 0 } }
    }

    /// Sets the request rate of the warmup phase.
    pub fn with_rate(self, rate: u32) -> (b: Self)
        ensures
            b.spec_warmup() == (WarmupConfig { rate, ..self.spec_warmup() }),
    {
        let mut warmup = self.warmup;
        warmup.rate = rate;
        WarmupBuilder { warmup }
    }

    /// The request rate of the warmup phase.
    pub fn rate(&self) -> (r: u32)
        ensures
            r == self.spec_warmup().rate,
    {
        self.warmup.rate
    }

    /// Sets the duration of the warmup phase in seconds.
    pub fn with_duration(self, duration: u32) -> (b: Self)
        ensures
            b.spec_warmup() == (WarmupConfig { duration, ..self.spec_warmup() }),
    {
        let mut warmup = self.warmup;
        warmup.duration = duration;
        WarmupBuilder { warmup }
    }

    /// The duration of the warmup phase in seconds.
    pub fn duration(&self) -> (d: u32)
        ensures
            d == self.spec_warmup().duration,
    {
        self.warmup.duration
    }

    /// Sets the pause between the warmup and load phases in seconds.
    pub fn with_pause(self, pause: u32) -> (b: Self)
        ensures
            b.spec_warmup() == (WarmupConfig { pause, ..self.spec_warmup() }),
    {
        let mut warmup = self.warmup;
        warmup.pause = pause;
        WarmupBuilder { warmup }
    }

    /// The pause between the warmup and load phases in seconds.
    pub fn pause(&self) -> (p: u32)
        ensures
            p == self.spec_warmup().pause,
    {
        self.warmup.pause
    }

    /// The built warmup configuration.
    pub fn build(&self) -> (w: WarmupConfig)
        ensures
            w == self.spec_warmup(),
    {
        self.warmup
    }
}

} // verus!
