//! Talking to a running generator.
use vstd::prelude::*;
use crate::text::push_str;

verus! {

/// A command could not be sent to a running generator.
#[derive(Debug, Clone, PartialEq, Eq)]
pub enum SendCommandError {
    /// The generator at `address` is no longer connected.
    Disconnected { address: String },
}

/// The message of a send error.
pub open spec fn send_error_message(e: SendCommandError) -> Seq<char> {
    match e {
        SendCommandError::Disconnected { address } => "failed to send command to `"@ + address@
            + "`: load generator is no longer connected"@,
    }
}

impl SendCommandError {
    /// The message of the error.
    pub fn message(&self) -> (s: String)
        ensures
            s@ == send_error_message(*self),
    {
        let mut s = String::new();
        match self {
            SendCommandError::Disconnected { address } => {
                push_str(&mut s, "failed to send command to `");
                push_str(&mut s, address.as_str());
                push_str(&mut s, "`: load generator is no longer connected");
            },
        }
        s
    }
}

} // verus!
