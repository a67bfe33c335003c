//! Virtual users: their identifiers, the phases of their life, and the
//! mapping of request outcomes to transaction results.
use vstd::prelude::*;
use crate::text::decimal;

pub mod http;
pub mod pool;
pub mod cookies;

verus! {

/// Identifies a virtual user within a load generator process.
#[derive(Debug, Clone, Copy, PartialEq, Eq, PartialOrd, Ord, Hash, Structural)]
pub struct VirtualUserId(u32);

impl VirtualUserId {
    pub closed spec fn spec_get(self) -> u32 {
        self.0
    }

    /// Wraps a virtual user number.
    pub fn new(value: u32) -> (id: Self)
        ensures
            id.spec_get() == value,
    {
        VirtualUserId(value)
    }

    /// The wrapped virtual user number.
    pub fn get(self) -> (v: u32)
        ensures
            v == self.spec_get(),
    {
        self.0
    }

    /// The number in decimal.
    pub fn to_string(&self) -> (s: String)
        ensures
            s@ == decimal(self.spec_get() as nat),
    {
        crate::text::u64_to_decimal(self.0 as u64)
    }
}

/// A phase in the life of a virtual user.
pub trait UserState {}

/// The phase in which a virtual user runs its script's setup requests.
#[derive(Debug)]
pub struct Setup;

/// The phase in which a virtual user cycles through its script's requests.
#[derive(Debug)]
pub struct Loop;

impl UserState for Setup {}

impl UserState for Loop {}

} // verus!
