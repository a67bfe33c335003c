use creo_bench::load::RelativeLoadTestTime;
use creo_bench::orchestrator::io::{output_dir_action, OutputDir, OutputDirAction};
use creo_bench::orchestrator::persist::PersistError;
use creo_bench::orchestrator::phases::collect::{CollectError, RoundAction, RoundCollector};
use creo_bench::orchestrator::phases::configure::ConfigureError;
use creo_bench::orchestrator::phases::connect::{ConnectAttemptError, ConnectError};
use creo_bench::orchestrator::phases::handle::SendCommandError;
use creo_bench::orchestrator::phases::start::StartError;
use creo_bench::orchestrator::runner::{
    aborts_generators, finish_run, next_run_step, partition_results, CollectOutcome, LoadTestRunner, RunAction, RunEvent,
    RunPhase,
};
use creo_bench::config::{LoadProfileConfig, ServiceRegistryConfig, WarmupConfig};
use creo_bench::orchestrator::config::OrchestratorOptions;
use creo_bench::orchestrator::distribute_profile;
use creo_bench::service_map::ServiceMap;
use creo_bench::orchestrator::{ConfigError, Error, OutputError};
use creo_bench::tracker::{IntervalReport, IntervalStatistics};
use creo_bench::wire::{ConfigResponse, GeneratorUpdate};

fn report(secs: u64) -> IntervalReport {
    IntervalReport::new(RelativeLoadTestTime::from_secs(secs), 10, IntervalStatistics::empty(), None)
}

#[test]
fn partition_keeps_successes_in_order_and_the_first_failure() {
    let (ok, err) = partition_results(vec![Ok(1), Err("a"), Ok(2), Err("b"), Ok(3)]);
    assert_eq!(ok, vec![1, 2, 3]);
    assert_eq!(err, Some("a"));
    let (ok, err) = partition_results::<u8, &str>(vec![Ok(7)]);
    assert_eq!(ok, vec![7]);
    assert_eq!(err, None);
}

#[test]
fn run_result_depends_on_how_collection_ended() {
    assert!(finish_run(CollectOutcome::Exhausted, None).is_ok());
    let late = PersistError { name: "intervals", message: "disk full".into() };
    assert!(matches!(finish_run(CollectOutcome::Exhausted, Some(late.clone())), Err(Error::Persist(ref e)) if *e == late));
    let crashed = CollectError::InstanceCrashed { address: "a:1".into() };
    assert!(matches!(finish_run(CollectOutcome::CollectFailed(crashed.clone()), None), Err(Error::Collect(ref e)) if *e == crashed));
    assert!(aborts_generators(&CollectOutcome::PersistFailed(late.clone())));
    assert!(!aborts_generators(&CollectOutcome::Exhausted));
    assert!(!aborts_generators(&CollectOutcome::CollectFailed(crashed)));
}

#[test]
fn round_collector_asks_generators_in_turn() {
    let mut c = RoundCollector::new();
    assert_eq!(c.next_handle(3), Some(0));
    assert_eq!(c.record(Some(GeneratorUpdate::IntervalReport(report(1)))), RoundAction::Keep);
    assert_eq!(c.next_handle(3), Some(1));
    assert_eq!(c.record(Some(GeneratorUpdate::Finished)), RoundAction::Remove);
    assert_eq!(c.next_handle(2), Some(1));
    assert_eq!(c.record(Some(GeneratorUpdate::IntervalReport(report(1)))), RoundAction::Keep);
    assert_eq!(c.next_handle(2), None);
    assert_eq!(c.record(None), RoundAction::Crashed);
    assert_eq!(c.into_reports().len(), 2);
}

#[test]
fn error_messages_name_their_cause() {
    assert_eq!(
        ConfigError::FileOpen { path: "p.csv".into(), message: "no such file".into() }.message(),
        "failed to open `p.csv`: no such file"
    );
    assert_eq!(
        OutputError::NotEmpty("out".into()).message(),
        "output directory `out` is not empty: pass the `--overwrite-outputs` if you wish to ignore non-empty output directories"
    );
    assert_eq!(OutputError::NotADirectory("f".into()).message(), "output path `f` exists but is not a directory");
    assert_eq!(
        Error::Connect(ConnectError::Failed { addr: "h:1".into(), attempt: 6, source: ConnectAttemptError::TimedOut }).message(),
        "failed to connect to `h:1` after 6 attempts: connection attempt timed out after 5s"
    );
    assert_eq!(
        Error::Configure(ConfigureError::UnexpectedResponse {
            address: "h:2".into(),
            response: ConfigResponse::SetupFailed { reason: "no \"x\"".into() }
        })
        .message(),
        "unexpected response from `h:2`: SetupFailed { reason: \"no \\\"x\\\"\" }"
    );
    assert_eq!(
        Error::Collect(CollectError::TimeMismatch {
            address: "g".into(),
            expected: 1.5f64.to_string(),
            actual: 2.0f64.to_string(),
        })
        .message(),
        "load generator instance `g` reported interval at target_time `2`s, but reference target_time was `1.5`s"
    );
    assert_eq!(Error::Abort.message(), "load test aborted");
    assert_eq!(
        Error::LoadGeneratorOverflow(300).message(),
        "the orchestrator can only drive `255` load generator instances, but `300` were given"
    );
    assert_eq!(
        Error::Persist(PersistError { name: "console", message: "broken pipe".into() }).message(),
        "persister `console` failed: broken pipe"
    );
    assert_eq!(
        StartError::SendFailed { address: "a".into(), message: "m".into() }.message(),
        "failed to send command to `a`: m"
    );
    assert_eq!(
        SendCommandError::Disconnected { address: "a".into() }.message(),
        "failed to send command to `a`: load generator is no longer connected"
    );
}

#[test]
fn output_dir_names_files_inside_it() {
    assert_eq!(OutputDir::accepted("results".into()).file_path("intervals.csv"), "results/intervals.csv");
    assert_eq!(OutputDir::accepted("results/".into()).file_path("intervals.csv"), "results/intervals.csv");
    assert_eq!(OutputDir::accepted(String::new()).file_path("a.csv"), "a.csv");
    assert_eq!(OutputDir::accepted("x".into()).file_path("/abs.csv"), "/abs.csv");
    assert_eq!(output_dir_action(false, false, false, None), OutputDirAction::Create);
    assert_eq!(output_dir_action(true, true, false, Some(true)), OutputDirAction::RejectNotEmpty);
}

fn config_with_generators(count: usize) -> creo_bench::orchestrator::LoadTestConfig {
    let options = OrchestratorOptions {
        profile: None,
        script: None,
        registry: None,
        warmup: None,
        generators: (0..count).map(|i| format!("10.0.{}.{}:8080", i / 256, i % 256)).collect(),
        output: None,
        virtual_user_count: None,
        timeout_ms: None,
        seed: None,
        overwrite_outputs: false,
    };
    creo_bench::orchestrator::LoadTestConfig::from_parts(
        options,
        LoadProfileConfig { steps: Vec::new() },
        String::new(),
        ServiceRegistryConfig { services: ServiceMap::new() },
        WarmupConfig { rate: 0, duration: 0, pause: 0 },
    )
}

#[test]
fn runner_refuses_more_than_255_generators() {
    let runner = LoadTestRunner::new(config_with_generators(256));
    let split = distribute_profile(&runner.config().profile, 256);
    let err = runner.generator_configs(&split).expect_err("256 generators are too many");
    assert_eq!(err.count, 256);
    assert_eq!(Error::LoadGeneratorOverflow(err.count).message(),
        Error::LoadGeneratorOverflow(256).message());

    let runner = LoadTestRunner::new(config_with_generators(255));
    let split = distribute_profile(&runner.config().profile, 255);
    let configs = runner.generator_configs(&split).expect("255 generators are allowed");
    assert_eq!(configs.len(), 255);
}

#[test]
fn run_steps_follow_the_phases() {
    let (p, a) = next_run_step(RunPhase::Connecting, RunEvent::Connected { failure: None });
    assert_eq!(p, RunPhase::Configuring);
    assert!(matches!(a, RunAction::SendConfigs));
    let refused = ConnectError::Failed {
        addr: "a:1".into(),
        attempt: 3,
        source: ConnectAttemptError::TimedOut,
    };
    let (p, a) = next_run_step(RunPhase::Connecting, RunEvent::Connected { failure: Some(refused.clone()) });
    assert_eq!(p, RunPhase::Finished);
    assert!(matches!(a, RunAction::AbortConnected(Error::Connect(ref e)) if *e == refused));
    let (p, a) = next_run_step(RunPhase::Configuring, RunEvent::Configured { all_ready: false });
    assert_eq!(p, RunPhase::AbortingConfigured);
    assert!(matches!(a, RunAction::AbortConfigured));
    let (_, a) = next_run_step(RunPhase::AbortingConfigured, RunEvent::AbortsSent { failure: None });
    assert!(matches!(a, RunAction::End(Err(Error::Abort))));
    let (p, a) = next_run_step(RunPhase::Configuring, RunEvent::Configured { all_ready: true });
    assert_eq!(p, RunPhase::Starting);
    assert!(matches!(a, RunAction::StartAll));
    let (p, a) = next_run_step(RunPhase::Starting, RunEvent::Started { failure: None });
    assert_eq!(p, RunPhase::OpeningPersisters);
    assert!(matches!(a, RunAction::OpenPersisters));
    let full = PersistError { name: "intervals", message: "disk full".into() };
    let (_, a) = next_run_step(RunPhase::OpeningPersisters, RunEvent::PersistersOpened { failure: Some(full.clone()) });
    assert!(matches!(a, RunAction::AbortRunning(Err(Error::Persist(_)))));
    let (p, a) = next_run_step(RunPhase::OpeningPersisters, RunEvent::PersistersOpened { failure: None });
    assert_eq!(p, RunPhase::Collecting);
    assert!(matches!(a, RunAction::CollectReports));
    let (_, a) = next_run_step(RunPhase::Collecting, RunEvent::Collected { outcome: CollectOutcome::Exhausted, late: None });
    assert!(matches!(a, RunAction::End(Ok(()))));
    let (_, a) = next_run_step(RunPhase::Collecting, RunEvent::Collected { outcome: CollectOutcome::PersistFailed(full), late: None });
    assert!(matches!(a, RunAction::AbortRunning(Err(Error::Persist(_)))));
}
