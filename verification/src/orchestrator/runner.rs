//! The orchestrator's run of a load test: its generators and the
//! configuration each of them receives.
use vstd::prelude::*;
use crate::config::{LoadProfileConfig, LoadStepConfig};
use crate::orchestrator::config::{LoadTestConfig, MAX_GENERATORS};
use crate::orchestrator::error::Error;
use crate::orchestrator::persist::PersistError;
use crate::orchestrator::phases::collect::CollectError;
use crate::orchestrator::phases::connect::{ConnectError, ConnectHandle};
use crate::orchestrator::phases::start::StartError;
use crate::transaction::LoadGeneratorId;
use crate::wire::{wire_step, ConfigMessage, LoadGeneratorConfig, LoadProfile, ServiceRegistry, Warmup};

verus! {

/// Runs a load test over the configured generators.
pub struct LoadTestRunner {
    config: LoadTestConfig,
    handles: Vec<ConnectHandle>,
}

/// More generators than identifiers: generator `index` would have none.
#[derive(Debug, Clone, Copy, PartialEq, Eq, Structural)]
pub struct GeneratorIdOverflow {
    pub count: usize,
}

impl LoadTestRunner {
    pub closed spec fn spec_config(self) -> LoadTestConfig {
        self.config
    }

    pub closed spec fn spec_handles(self) -> Seq<ConnectHandle> {
        self.handles@
    }

    /// A runner with one unconnected handle per configured generator, in
    /// order.
    pub fn new(config: LoadTestConfig) -> (r: Self)
        ensures
            r.spec_config() == config,
            r.spec_handles().len() == config.generators.len(),
            forall|i: int| 0 <= i < config.generators.len() ==> (#[trigger] r.spec_handles()[i]).spec_addr() == config.generators[i]@,
    {
        let mut handles: Vec<ConnectHandle> = Vec::new();
        let mut i: usize = 0;
        while i < config.generators.len()
            invariant
                i <= config.generators.len(),
                handles@.len() == i,
                forall|j: int| 0 <= j < i ==> (#[trigger] handles@[j]).spec_addr() == config.generators[j]@,
            decreases config.generators.len() - i,
        {
            handles.push(ConnectHandle::new(config.generators[i].clone()));
            i = i + 1;
        }
        LoadTestRunner { config, handles }
    }

    /// The configuration.
    pub fn config(&self) -> (c: &LoadTestConfig)
        ensures
            *c == self.spec_config(),
    {
        &self.config
    }

    /// The generators' handles, in configuration order.
    pub fn handles(&self) -> (h: &Vec<ConnectHandle>)
        ensures
            h@ == self.spec_handles(),
    {
        &self.handles
    }

    /// The configuration message for each generator: generator `i` gets
    /// identifier `i`, its split profile, and the test's script, registry,
    /// warmup, virtual user count, seed and timeout. Fails when there are
    /// more generators than one orchestrator drives (`MAX_GENERATORS`).
    pub fn generator_configs(&self, split_profiles: &Vec<LoadProfileConfig>) -> (r: Result<Vec<ConfigMessage>, GeneratorIdOverflow>)
        requires
            split_profiles.len() == self.spec_handles().len(),
        ensures
            self.spec_handles().len() > MAX_GENERATORS ==> r == Err::<Vec<ConfigMessage>, GeneratorIdOverflow>(GeneratorIdOverflow { count: self.spec_handles().len() as usize }),
            self.spec_handles().len() <= MAX_GENERATORS ==> (r matches Ok(msgs) && msgs@.len() == split_profiles@.len()
                && forall|i: int| 0 <= i < msgs@.len() ==> (#[trigger] msgs@[i] matches ConfigMessage::Config(c) && {
                    let cfg = self.spec_config();
                    &&& c.profile.steps@ == split_profiles@[i].steps@.map_values(|s: LoadStepConfig| wire_step(s))
                    &&& c.script@ == cfg.script@
                    &&& c.registry.services.spec_entries() == cfg.registry.services.spec_entries()
                    &&& c.warmup == (Warmup { rate: cfg.warmup.rate, duration: cfg.warmup.duration, pause: cfg.warmup.pause })
                    &&& c.virtual_user_count == cfg.virtual_user_count
                    &&& c.seed == cfg.seed
                    &&& c.timeout_ms == cfg.timeout_ms
                    &&& c.load_generator_id.spec_get() == i
                })),
    {
        let n = self.handles.len();
        if n > MAX_GENERATORS {
            return Err(GeneratorIdOverflow { count: n });
        }
        let mut msgs: Vec<ConfigMessage> = Vec::new();
        let mut i: usize = 0;
        while i < n
            invariant
                i <= n,
                n == split_profiles@.len(),
                n <= MAX_GENERATORS,
                msgs@.len() == i,
                forall|j: int| 0 <= j < i ==> (#[trigger] msgs@[j] matches ConfigMessage::Config(c) && {
                    let cfg = self.spec_config();
                    &&& c.profile.steps@ == split_profiles@[j].steps@.map_values(|s: LoadStepConfig| wire_step(s))
                    &&& c.script@ == cfg.script@
                    &&& c.registry.services.spec_entries() == cfg.registry.services.spec_entries()
                    &&& c.warmup == (Warmup { rate: cfg.warmup.rate, duration: cfg.warmup.duration, pause: cfg.warmup.pause })
                    &&& c.virtual_user_count == cfg.virtual_user_count
                    &&& c.seed == cfg.seed
                    &&& c.timeout_ms == cfg.timeout_ms
                    &&& c.load_generator_id.spec_get() == j
                }),
            decreases n - i,
        {
            let cfg = &self.config;
            let msg = ConfigMessage::Config(LoadGeneratorConfig {
                profile: LoadProfile::from_config_ref(&split_profiles[i]),
                script: cfg.script.clone(),
                registry: ServiceRegistry { services: cfg.registry.services.copy() },
                warmup: Warmup { rate: cfg.warmup.rate, duration: cfg.warmup.duration, pause: cfg.warmup.pause },
                virtual_user_count: cfg.virtual_user_count,
                seed: cfg.seed,
                timeout_ms: cfg.timeout_ms,
                load_generator_id: LoadGeneratorId::new(i as u8),
            });
            msgs.push(msg);
            i = i + 1;
        }
        Ok(msgs)
    }
}

/// The values of the successes among `s`, in order.
pub open spec fn successes<H, E>(s: Seq<Result<H, E>>) -> Seq<H>
    decreases s.len(),
{
    if s.len() == 0 {
        Seq::empty()
    } else {
        let rest = successes(s.drop_last());
        match s.last() {
            Ok(h) => rest.push(h),
            Err(_) => rest,
        }
    }
}

/// The first failure among `s`, if any.
pub open spec fn first_failure<H, E>(s: Seq<Result<H, E>>) -> Option<E>
    decreases s.len(),
{
    if s.len() == 0 {
        None
    } else {
        match first_failure(s.drop_last()) {
            Some(e) => Some(e),
            None => match s.last() {
                Err(e) => Some(e),
                Ok(_) => None,
            },
        }
    }
}

/// Splits the outcomes of one phase across all generators (connecting,
/// configuring) into the generators that succeeded, in order, and the first
/// failure. Where there is a failure, the generators that succeeded are
/// aborted and the failure is the phase's error.
pub fn partition_results<H, E>(results: Vec<Result<H, E>>) -> (r: (Vec<H>, Option<E>))
    ensures
        r.0@ == successes(results@),
        r.1 == first_failure(results@),
{
    let ghost all = results@;
    let mut succeeded: Vec<H> = Vec::new();
    let mut failure: Option<E> = None;
    for result in it: results.into_iter()
        invariant
            it.seq() == all,
            succeeded@ == successes(all.take(it.index() as int)),
            failure == first_failure(all.take(it.index() as int)),
    {
        let ghost i = it.index();
        proof {
            assert(all.take(i + 1).drop_last() =~= all.take(i as int));
            assert(all.take(i + 1).last() == result);
        }
        match result {
            Ok(h) => succeeded.push(h),
            Err(e) => {
                if failure.is_none() {
                    failure = Some(e);
                }
            },
        }
    }
    proof {
        assert(all.take(all.len() as int) =~= all);
    }
    (succeeded, failure)
}

/// How collecting the reports ended.
#[derive(Debug)]
pub enum CollectOutcome {
    /// Every generator finished.
    Exhausted,
    /// Collecting a round failed.
    CollectFailed(CollectError),
    /// A persister failed while the test ran.
    PersistFailed(PersistError),
}

/// Whether the running generators must be told to abort: only when a
/// persister failed while they still run.
pub open spec fn must_abort(outcome: CollectOutcome) -> bool {
    outcome is PersistFailed
}

/// The result of a load test whose collection ended with `outcome`, where
/// `late_persist_error` is the error a persister reported after the last
/// round, if any.
pub open spec fn run_result(outcome: CollectOutcome, late_persist_error: Option<PersistError>) -> Result<(), Error> {
    match outcome {
        CollectOutcome::Exhausted => match late_persist_error {
            Some(e) => Err(Error::Persist(e)),
            None => Ok(()),
        },
        CollectOutcome::CollectFailed(e) => Err(Error::Collect(e)),
        CollectOutcome::PersistFailed(e) => Err(Error::Persist(e)),
    }
}

/// Whether `outcome` requires the running generators to be aborted.
pub fn aborts_generators(outcome: &CollectOutcome) -> (b: bool)
    ensures
        b == must_abort(*outcome),
{
    match outcome {
        CollectOutcome::PersistFailed(_) => true,
        _ => false,
    }
}

/// The result of a load test whose collection ended with `outcome`: it
/// succeeds only when every generator finished and no persister failed.
pub fn finish_run(outcome: CollectOutcome, late_persist_error: Option<PersistError>) -> (r: Result<(), Error>)
    ensures
        r == run_result(outcome, late_persist_error),
{
    match outcome {
        CollectOutcome::Exhausted => match late_persist_error {
            Some(e) => Err(Error::Persist(e)),
            None => Ok(()),
        },
        CollectOutcome::CollectFailed(e) => Err(Error::Collect(e)),
        CollectOutcome::PersistFailed(e) => Err(Error::Persist(e)),
    }
}

/// Where a load test run stands.
#[derive(Debug, Clone, Copy, PartialEq, Eq, Structural)]
pub enum RunPhase {
    /// Connecting to every generator.
    Connecting,
    /// Sending each connected generator its configuration.
    Configuring,
    /// Telling the configured generators to abort after one failed.
    AbortingConfigured,
    /// Starting every configured generator.
    Starting,
    /// Opening the result files.
    OpeningPersisters,
    /// Collecting and persisting the reports.
    Collecting,
    /// The run is over.
    Finished,
}

/// What came of the work of a phase.
#[derive(Debug)]
pub enum RunEvent {
    /// Every connect attempt ended; the first failure, if any.
    Connected { failure: Option<ConnectError> },
    /// Every configuration ended; whether every generator is ready.
    Configured { all_ready: bool },
    /// The abort commands were sent to the ready generators, up to the
    /// first that could not be sent, if any.
    AbortsSent { failure: Option<StartError> },
    /// The start commands were sent, up to the first that could not be
    /// sent, if any.
    Started { failure: Option<StartError> },
    /// The result files were opened, or the first failure.
    PersistersOpened { failure: Option<PersistError> },
    /// Collecting ended with `outcome`; `late` is the error a persister
    /// reported after the last round, if any.
    Collected { outcome: CollectOutcome, late: Option<PersistError> },
}

/// What the run does next.
#[derive(Debug)]
pub enum RunAction {
    /// Send each connected generator its configuration.
    SendConfigs,
    /// Send `Abort` to the connected generators, then end with the error.
    AbortConnected(Error),
    /// Send the `Abort` command to the ready generators.
    AbortConfigured,
    /// Send the `Start` command to every ready generator.
    StartAll,
    /// Open the result files.
    OpenPersisters,
    /// Collect and persist the reports.
    CollectReports,
    /// Send `Abort` to the running generators, then end with the result.
    AbortRunning(Result<(), Error>),
    /// End the run with the result.
    End(Result<(), Error>),
}

/// Whether `event` is what the work of `phase` gives.
pub open spec fn event_fits(phase: RunPhase, event: RunEvent) -> bool {
    match phase {
        RunPhase::Connecting => event is Connected,
        RunPhase::Configuring => event is Configured,
        RunPhase::AbortingConfigured => event is AbortsSent,
        RunPhase::Starting => event is Started,
        RunPhase::OpeningPersisters => event is PersistersOpened,
        RunPhase::Collecting => event is Collected,
        RunPhase::Finished => false,
    }
}

/// The phase and action that follow `event` in `phase`: a connect failure
/// aborts the connected generators and ends with that failure; a failed
/// configuration makes the ready generators abort and ends the run as
/// aborted, or with the error of the first abort command that could not
/// be sent; a failed start ends with that error; a result file that cannot
/// be opened aborts the running generators and ends with that error; and
/// once collecting ends, the running generators are aborted only where a
/// persister failed, and the run ends with the result that `run_result`
/// gives.
pub open spec fn run_step(phase: RunPhase, event: RunEvent) -> (RunPhase, RunAction) {
    match event {
        RunEvent::Connected { failure } => match failure {
            None => (RunPhase::Configuring, RunAction::SendConfigs),
            Some(e) => (RunPhase::Finished, RunAction::AbortConnected(Error::Connect(e))),
        },
        RunEvent::Configured { all_ready } => if all_ready {
            (RunPhase::Starting, RunAction::StartAll)
        } else {
            (RunPhase::AbortingConfigured, RunAction::AbortConfigured)
        },
        RunEvent::AbortsSent { failure } => match failure {
            None => (RunPhase::Finished, RunAction::End(Err(Error::Abort))),
            Some(e) => (RunPhase::Finished, RunAction::End(Err(Error::Start(e)))),
        },
        RunEvent::Started { failure } => match failure {
            None => (RunPhase::OpeningPersisters, RunAction::OpenPersisters),
            Some(e) => (RunPhase::Finished, RunAction::End(Err(Error::Start(e)))),
        },
        RunEvent::PersistersOpened { failure } => match failure {
            None => (RunPhase::Collecting, RunAction::CollectReports),
            Some(e) => (RunPhase::Finished, RunAction::AbortRunning(Err(Error::Persist(e)))),
        },
        RunEvent::Collected { outcome, late } => if must_abort(outcome) {
            (RunPhase::Finished, RunAction::AbortRunning(run_result(outcome, late)))
        } else {
            (RunPhase::Finished, RunAction::End(run_result(outcome, late)))
        },
    }
}

/// Decides the next phase and action of a run from what the current
/// phase's work gave.
pub fn next_run_step(phase: RunPhase, event: RunEvent) -> (r: (RunPhase, RunAction))
    requires
        event_fits(phase, event),
    ensures
        r == run_step(phase, event),
{
    match event {
        RunEvent::Connected { failure } => match failure {
            None => (RunPhase::Configuring, RunAction::SendConfigs),
            Some(e) => (RunPhase::Finished, RunAction::AbortConnected(Error::Connect(e))),
        },
        RunEvent::Configured { all_ready } => if all_ready {
            (RunPhase::Starting, RunAction::StartAll)
        } else {
            (RunPhase::AbortingConfigured, RunAction::AbortConfigured)
        },
        RunEvent::AbortsSent { failure } => match failure {
            None => (RunPhase::Finished, RunAction::End(Err(Error::Abort))),
            Some(e) => (RunPhase::Finished, RunAction::End(Err(Error::Start(e)))),
        },
        RunEvent::Started { failure } => match failure {
            None => (RunPhase::OpeningPersisters, RunAction::OpenPersisters),
            Some(e) => (RunPhase::Finished, RunAction::End(Err(Error::Start(e)))),
        },
        RunEvent::PersistersOpened { failure } => match failure {
            None => (RunPhase::Collecting, RunAction::CollectReports),
            Some(e) => (RunPhase::Finished, RunAction::AbortRunning(Err(Error::Persist(e)))),
        },
        RunEvent::Collected { outcome, late } => {
            if aborts_generators(&outcome) {
                (RunPhase::Finished, RunAction::AbortRunning(finish_run(outcome, late)))
            } else {
                (RunPhase::Finished, RunAction::End(finish_run(outcome, late)))
            }
        },
    }
}

/// A run succeeds only by collecting: every step that ends the run with
/// `Ok` comes from the collecting phase, after every generator connected,
/// was configured and started, and the result files opened.
pub proof fn lemma_only_collecting_succeeds(phase: RunPhase, event: RunEvent)
    requires
        event_fits(phase, event),
    ensures
        (run_step(phase, event).1 matches RunAction::End(Ok(_))) ==> phase == RunPhase::Collecting,
        run_step(phase, event).1 matches RunAction::AbortRunning(res) ==> res is Err,
{
}

} // verus!
