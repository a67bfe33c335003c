//! The orchestrator's configuration, assembled from its options and the
//! contents of its input files.
use vstd::prelude::*;
use crate::config::{LoadProfileConfig, ServiceRegistryConfig, WarmupConfig};

verus! {

/// The most generators one orchestrator can drive.
pub const MAX_GENERATORS: usize = 255;

/// The orchestrator's command-line options.
#[derive(Debug, Clone)]
pub struct OrchestratorOptions {
    pub profile: Option<String>,
    pub script: Option<String>,
    pub registry: Option<String>,
    pub warmup: Option<String>,
    pub generators: Vec<String>,
    pub output: Option<String>,
    pub virtual_user_count: Option<u32>,
    pub timeout_ms: Option<u64>,
    pub seed: Option<u64>,
    pub overwrite_outputs: bool,
}

/// More generators were given than one orchestrator can drive.
#[derive(Debug, Clone, Copy, PartialEq, Eq, Structural)]
pub struct GeneratorOverflow {
    pub count: usize,
}

/// The paths of the four input files.
#[derive(Debug, Clone)]
pub struct InputPaths {
    pub profile: String,
    pub script: String,
    pub registry: String,
    pub warmup: String,
}

/// A configured path, or `default` when none was given.
pub open spec fn path_or(p: Option<String>, default: Seq<char>) -> Seq<char> {
    match p {
        Some(s) => s@,
        None => default,
    }
}

fn string_or(p: &Option<String>, default: &str) -> (s: String)
    ensures
        s@ == path_or(*p, default@),
{
    match p {
        Some(s) => s.clone(),
        None => default.to_owned(),
    }
}

/// The complete configuration of a load test.
#[derive(Debug, Clone)]
pub struct LoadTestConfig {
    pub profile: LoadProfileConfig,
    pub script: String,
    pub registry: ServiceRegistryConfig,
    pub warmup: WarmupConfig,
    pub generators: Vec<String>,
    pub output_dir: String,
    pub virtual_user_count: u32,
    pub seed: u64,
    pub timeout_ms: u64,
    pub overwrite_outputs: bool,
}

impl LoadTestConfig {
    /// Rejects more generators than one orchestrator can drive.
    pub fn check_generator_count(options: &OrchestratorOptions) -> (r: Result<(), GeneratorOverflow>)
        ensures
            options.generators.len() > MAX_GENERATORS ==> r == Err::<(), GeneratorOverflow>(GeneratorOverflow { count: options.generators.len() }),
            options.generators.len() <= MAX_GENERATORS ==> r is Ok,
    {
        if options.generators.len() > MAX_GENERATORS {
            return Err(GeneratorOverflow { count: options.generators.len() });
        }
        Ok(())
    }

    /// The input files to read: the configured paths, or `profile.csv`,
    /// `script.lua`, `registry.yaml` and `warmup.yaml`.
    pub fn input_paths(options: &OrchestratorOptions) -> (p: InputPaths)
        ensures
            p.profile@ == path_or(options.profile, "profile.csv"@),
            p.script@ == path_or(options.script, "script.lua"@),
            p.registry@ == path_or(options.registry, "registry.yaml"@),
            p.warmup@ == path_or(options.warmup, "warmup.yaml"@),
    {
        InputPaths {
            profile: string_or(&options.profile, "profile.csv"),
            script: string_or(&options.script, "script.lua"),
            registry: string_or(&options.registry, "registry.yaml"),
            warmup: string_or(&options.warmup, "warmup.yaml"),
        }
    }

    /// The configuration of a test from its options and the contents of its
    /// input files; unset options take their defaults: output to
    /// `./results`, 100 virtual users, seed 5, no timeout.
    pub fn from_parts(
        options: OrchestratorOptions,
        profile: LoadProfileConfig,
        script: String,
        registry: ServiceRegistryConfig,
        warmup: WarmupConfig,
    ) -> (c: Self)
        ensures
            c.profile == profile,
            c.script == script,
            c.registry == registry,
            c.warmup == warmup,
            c.generators == options.generators,
            c.output_dir@ == path_or(options.output, "./results"@),
            c.virtual_user_count == (match options.virtual_user_count { Some(v) => v, None => 100 }),
            c.seed == (match options.seed { Some(v) => v, None => 5 }),
            c.timeout_ms == (match options.timeout_ms { Some(v) => v, None => 0 }),
            c.overwrite_outputs == options.overwrite_outputs,
    {
        let output_dir = string_or(&options.output, "./results");
        LoadTestConfig {
            profile,
            script,
            registry,
            warmup,
            generators: options.generators,
            output_dir,
            virtual_user_count: match options.virtual_user_count { Some(v) => v, None => 100 },
            seed: match options.seed { Some(v) => v, None => 5 },
            timeout_ms: match options.timeout_ms { Some(v) => v, None => 0 },
            overwrite_outputs: options.overwrite_outputs,
        }
    }
}

} // verus!
