//! Starting a configured generator.
use vstd::prelude::*;
use crate::text::push_str;

verus! {

/// Why a start (or abort) command could not be sent.
#[derive(Debug, Clone, PartialEq, Eq)]
pub enum StartError {
    /// Sending the command to `address` failed; the transport's message.
    SendFailed { address: String, message: String },
}

/// The message of a start error.
pub open spec fn start_error_message(e: StartError) -> Seq<char> {
    match e {
        StartError::SendFailed { address, message } => "failed to send command to `"@ + address@ + "`: "@ + message@,
    }
}

impl StartError {
    /// The message of the error.
    pub fn message(&self) -> (s: String)
        ensures
            s@ == start_error_message(*self),
    {
        let mut s = String::new();
        match self {
            StartError::SendFailed { address, message } => {
                push_str(&mut s, "failed to send command to `");
                push_str(&mut s, address.as_str());
                push_str(&mut s, "`: ");
                push_str(&mut s, message.as_str());
            },
        }
        s
    }
}

} // verus!
