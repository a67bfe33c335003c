//! The orchestrator's errors and the messages they are reported with.
use vstd::prelude::*;
use crate::orchestrator::persist::{persist_error_message, PersistError};
use crate::orchestrator::phases::collect::{collect_error_message, CollectError};
use crate::orchestrator::phases::configure::ConfigureError;
use crate::orchestrator::phases::connect::{ConnectAttemptError, ConnectError, CONNECT_TIMEOUT_SECS};
use crate::orchestrator::phases::start::{start_error_message, StartError};
use crate::text::{debug_str, decimal, push_decimal, push_str, str_debug};
use crate::wire::ConfigResponse;

verus! {

/// An input file could not be read.
#[derive(Debug, Clone, PartialEq, Eq)]
pub enum ConfigError {
    /// The file at `path` could not be opened or read.
    FileOpen { path: String, message: String },
    /// The file at `path` does not hold a valid configuration.
    ParseError { path: String, message: String },
}

/// The output directory could not be used.
#[derive(Debug, Clone, PartialEq, Eq)]
pub enum OutputError {
    /// The directory could not be created.
    CreateOutputDir { path: String, message: String },
    /// The directory could not be listed.
    DirectoryRead { path: String, message: String },
    /// Something that is not a directory is at the path.
    NotADirectory(String),
    /// The directory holds entries and overwriting was not allowed.
    NotEmpty(String),
}

/// Why a load test failed.
#[derive(Debug)]
pub enum Error {
    /// The command line could not be parsed; the parser's message.
    Clap(String),
    Config(ConfigError),
    Output(OutputError),
    Connect(ConnectError),
    Configure(ConfigureError),
    Start(StartError),
    Collect(CollectError),
    Persist(PersistError),
    /// The load test was aborted.
    Abort,
    /// More generators were given than the orchestrator can drive.
    LoadGeneratorOverflow(usize),
}

/// The message of a configuration error.
pub open spec fn config_error_message(e: ConfigError) -> Seq<char> {
    match e {
        ConfigError::FileOpen { path, message } => "failed to open `"@ + path@ + "`: "@ + message@,
        ConfigError::ParseError { path, message } => "failed to parse config `"@ + path@ + "`: "@ + message@,
    }
}

impl ConfigError {
    /// The message of the error.
    pub fn message(&self) -> (s: String)
        ensures
            s@ == config_error_message(*self),
    {
        let mut s = String::new();
        match self {
            ConfigError::FileOpen { path, message } => {
                push_str(&mut s, "failed to open `");
                push_str(&mut s, path.as_str());
                push_str(&mut s, "`: ");
                push_str(&mut s, message.as_str());
            },
            ConfigError::ParseError { path, message } => {
                push_str(&mut s, "failed to parse config `");
                push_str(&mut s, path.as_str());
                push_str(&mut s, "`: ");
                push_str(&mut s, message.as_str());
            },
        }
        s
    }
}

/// The message of an output directory error.
pub open spec fn output_error_message(e: OutputError) -> Seq<char> {
    match e {
        OutputError::CreateOutputDir { path, message } => "failed to create output directory `"@ + path@ + "`: "@
            + message@,
        OutputError::DirectoryRead { path, message } => "failed to read output directory `"@ + path@ + "`: "@
            + message@,
        OutputError::NotADirectory(path) => "output path `"@ + path@ + "` exists but is not a directory"@,
        OutputError::NotEmpty(path) => "output directory `"@ + path@
            + "` is not empty: pass the `--overwrite-outputs` if you wish to ignore non-empty output directories"@,
    }
}

impl OutputError {
    /// The message of the error.
    pub fn message(&self) -> (s: String)
        ensures
            s@ == output_error_message(*self),
    {
        let mut s = String::new();
        match self {
            OutputError::CreateOutputDir { path, message } => {
                push_str(&mut s, "failed to create output directory `");
                push_str(&mut s, path.as_str());
                push_str(&mut s, "`: ");
                push_str(&mut s, message.as_str());
            },
            OutputError::DirectoryRead { path, message } => {
                push_str(&mut s, "failed to read output directory `");
                push_str(&mut s, path.as_str());
                push_str(&mut s, "`: ");
                push_str(&mut s, message.as_str());
            },
            OutputError::NotADirectory(path) => {
                push_str(&mut s, "output path `");
                push_str(&mut s, path.as_str());
                push_str(&mut s, "` exists but is not a directory");
            },
            OutputError::NotEmpty(path) => {
                push_str(&mut s, "output directory `");
                push_str(&mut s, path.as_str());
                push_str(
                    &mut s,
                    "` is not empty: pass the `--overwrite-outputs` if you wish to ignore non-empty output directories",
                );
            },
        }
        s
    }
}

/// The message of a failed connection attempt.
pub open spec fn attempt_error_message(e: ConnectAttemptError) -> Seq<char> {
    match e {
        ConnectAttemptError::TimedOut => "connection attempt timed out after "@ + decimal(CONNECT_TIMEOUT_SECS as nat)
            + "s"@,
        ConnectAttemptError::Failed { message } => message@,
    }
}

/// The message of a connection error.
pub open spec fn connect_error_message(e: ConnectError) -> Seq<char> {
    match e {
        ConnectError::Failed { addr, attempt, source } => "failed to connect to `"@ + addr@ + "` after "@ + decimal(
            attempt as nat,
        ) + " attempts: "@ + attempt_error_message(source),
    }
}

/// The message of a connection error.
pub fn connect_message(e: &ConnectError) -> (s: String)
    ensures
        s@ == connect_error_message(*e),
{
    let mut s = String::new();
    match e {
        ConnectError::Failed { addr, attempt, source } => {
            push_str(&mut s, "failed to connect to `");
            push_str(&mut s, addr.as_str());
            push_str(&mut s, "` after ");
            push_decimal(&mut s, *attempt as u64);
            push_str(&mut s, " attempts: ");
            match source {
                ConnectAttemptError::TimedOut => {
                    push_str(&mut s, "connection attempt timed out after ");
                    push_decimal(&mut s, CONNECT_TIMEOUT_SECS);
                    push_str(&mut s, "s");
                },
                ConnectAttemptError::Failed { message } => {
                    push_str(&mut s, message.as_str());
                },
            }
        },
    }
    s
}

/// The `Debug` rendering of a configuration response.
pub open spec fn response_debug(r: ConfigResponse) -> Seq<char> {
    match r {
        ConfigResponse::Ready => "Ready"@,
        ConfigResponse::SetupFailed { reason } => "SetupFailed { reason: "@ + str_debug(reason@) + " }"@,
        ConfigResponse::Aborted => "Aborted"@,
    }
}

/// The message of a configuration error.
pub open spec fn configure_error_message(e: ConfigureError) -> Seq<char> {
    match e {
        ConfigureError::SendFailed { address, message } => "failed to send config to `"@ + address@ + "`: "@
            + message@,
        ConfigureError::UnexpectedDisconnect { address } => "unexpected disconnect from `"@ + address@
            + "`: did not receive a response"@,
        ConfigureError::ReceiveError { address, message } => "failed to receive a response from `"@ + address@
            + "`: "@ + message@,
        ConfigureError::SetupFailed(reason) => reason@,
        ConfigureError::Aborted { address } => "load generator `"@ + address@ + "` was aborted during configuration"@,
        ConfigureError::UnexpectedResponse { address, response } => "unexpected response from `"@ + address@
            + "`: "@ + response_debug(response),
    }
}

/// The message of a configuration error.
pub fn configure_message(e: &ConfigureError) -> (s: String)
    ensures
        s@ == configure_error_message(*e),
{
    let mut s = String::new();
    match e {
        ConfigureError::SendFailed { address, message } => {
            push_str(&mut s, "failed to send config to `");
            push_str(&mut s, address.as_str());
            push_str(&mut s, "`: ");
            push_str(&mut s, message.as_str());
        },
        ConfigureError::UnexpectedDisconnect { address } => {
            push_str(&mut s, "unexpected disconnect from `");
            push_str(&mut s, address.as_str());
            push_str(&mut s, "`: did not receive a response");
        },
        ConfigureError::ReceiveError { address, message } => {
            push_str(&mut s, "failed to receive a response from `");
            push_str(&mut s, address.as_str());
            push_str(&mut s, "`: ");
            push_str(&mut s, message.as_str());
        },
        ConfigureError::SetupFailed(reason) => {
            push_str(&mut s, reason.as_str());
        },
        ConfigureError::Aborted { address } => {
            push_str(&mut s, "load generator `");
            push_str(&mut s, address.as_str());
            push_str(&mut s, "` was aborted during configuration");
        },
        ConfigureError::UnexpectedResponse { address, response } => {
            push_str(&mut s, "unexpected response from `");
            push_str(&mut s, address.as_str());
            push_str(&mut s, "`: ");
            match response {
                ConfigResponse::Ready => push_str(&mut s, "Ready"),
                ConfigResponse::SetupFailed { reason } => {
                    push_str(&mut s, "SetupFailed { reason: ");
                    let quoted = debug_str(reason.as_str());
                    push_str(&mut s, quoted.as_str());
                    push_str(&mut s, " }");
                },
                ConfigResponse::Aborted => push_str(&mut s, "Aborted"),
            }
        },
    }
    s
}

/// The message of a load test error.
pub open spec fn error_message(e: Error) -> Seq<char> {
    match e {
        Error::Clap(m) => "failed to parse command line arguments: "@ + m@,
        Error::Config(c) => config_error_message(c),
        Error::Output(o) => output_error_message(o),
        Error::Connect(c) => connect_error_message(c),
        Error::Configure(c) => configure_error_message(c),
        Error::Start(s) => start_error_message(s),
        Error::Collect(c) => collect_error_message(c),
        Error::Persist(p) => persist_error_message(p),
        Error::Abort => "load test aborted"@,
        Error::LoadGeneratorOverflow(n) => "the orchestrator can only drive `255` load generator instances, but `"@
            + decimal(n as nat) + "` were given"@,
    }
}

impl Error {
    /// The message of the error.
    pub fn message(&self) -> (s: String)
        ensures
            s@ == error_message(*self),
    {
        match self {
            Error::Clap(m) => {
                let mut s = String::new();
                push_str(&mut s, "failed to parse command line arguments: ");
                push_str(&mut s, m.as_str());
                s
            },
            Error::Config(c) => c.message(),
            Error::Output(o) => o.message(),
            Error::Connect(c) => connect_message(c),
            Error::Configure(c) => configure_message(c),
            Error::Start(e) => e.message(),
            Error::Collect(c) => c.message(),
            Error::Persist(p) => p.describe(),
            Error::Abort => "load test aborted".to_owned(),
            Error::LoadGeneratorOverflow(n) => {
                let mut s = String::new();
                push_str(&mut s, "the orchestrator can only drive `255` load generator instances, but `");
                push_decimal(&mut s, *n as u64);
                push_str(&mut s, "` were given");
                s
            },
        }
    }
}

} // verus!
