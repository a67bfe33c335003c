//! Interpreting a generator's answers in the configuration phase.
use vstd::prelude::*;
use crate::wire::ConfigResponse;

verus! {

/// Why configuring a generator, or aborting it during configuration,
/// failed.
#[derive(Debug, Clone, PartialEq, Eq)]
pub enum ConfigureError {
    /// Sending the message failed.
    SendFailed { address: String, message: String },
    /// The generator closed the connection without answering.
    UnexpectedDisconnect { address: String },
    /// The answer could not be received or decoded.
    ReceiveError { address: String, message: String },
    /// The generator's setup failed; its reason.
    SetupFailed(String),
    /// The generator aborted during configuration.
    Aborted { address: String },
    /// The generator answered an abort with something else than `Aborted`.
    UnexpectedResponse { address: String, response: ConfigResponse },
}

/// The outcome of configuring the generator at `address`, given what was
/// received after the configuration was sent: `Ready` succeeds; a setup
/// failure or an abort fail with it; a receive error or a closed
/// connection fail too.
pub fn configure_outcome(address: String, received: Option<Result<ConfigResponse, String>>) -> (r: Result<(), ConfigureError>)
    ensures
        match received {
            Some(Ok(ConfigResponse::Ready)) => r is Ok,
            Some(Ok(ConfigResponse::SetupFailed { reason })) => r == (Err::<(), ConfigureError>(ConfigureError::SetupFailed(reason))),
            Some(Ok(ConfigResponse::Aborted)) => r == (Err::<(), ConfigureError>(ConfigureError::Aborted { address })),
            Some(Err(message)) => r == (Err::<(), ConfigureError>(ConfigureError::ReceiveError { address, message })),
            None => r == (Err::<(), ConfigureError>(ConfigureError::UnexpectedDisconnect { address })),
        },
{
    match received {
        Some(Ok(response)) => match response {
            ConfigResponse::Ready => Ok(()),
            ConfigResponse::SetupFailed { reason } => Err(ConfigureError::SetupFailed(reason)),
            ConfigResponse::Aborted => Err(ConfigureError::Aborted { address }),
        },
        Some(Err(message)) => Err(ConfigureError::ReceiveError { address, message }),
        None => Err(ConfigureError::UnexpectedDisconnect { address }),
    }
}

/// The outcome of aborting the generator at `address` during
/// configuration, given what was received after the abort was sent: only
/// `Aborted` succeeds.
pub fn abort_outcome(address: String, received: Option<Result<ConfigResponse, String>>) -> (r: Result<(), ConfigureError>)
    ensures
        match received {
            Some(Ok(ConfigResponse::Aborted)) => r is Ok,
            Some(Ok(response)) => r == (Err::<(), ConfigureError>(ConfigureError::UnexpectedResponse { address, response })),
            Some(Err(message)) => r == (Err::<(), ConfigureError>(ConfigureError::ReceiveError { address, message })),
            None => r == (Err::<(), ConfigureError>(ConfigureError::UnexpectedDisconnect { address })),
        },
{
    match received {
        Some(Ok(response)) => match response {
            ConfigResponse::Aborted => Ok(()),
            unexpected => Err(ConfigureError::UnexpectedResponse { address, response: unexpected }),
        },
        Some(Err(message)) => Err(ConfigureError::ReceiveError { address, message }),
        None => Err(ConfigureError::UnexpectedDisconnect { address }),
    }
}

} // verus!
