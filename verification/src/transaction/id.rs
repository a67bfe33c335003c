//! Identifiers of request specs and load generators.
use vstd::prelude::*;
use crate::text::decimal;

verus! {

/// Identifies a request spec by its index in the script's request table.
#[derive(Debug, Clone, Copy, PartialEq, Eq, Hash, Structural)]
pub struct SpecId(usize);

impl SpecId {
    pub closed spec fn spec_get(self) -> usize {
        self.0
    }

    /// Wraps an index.
    pub fn new(value: usize) -> (id: Self)
        ensures
            id.spec_get() == value,
    {
        SpecId(value)
    }

    /// The wrapped index.
    pub fn get(self) -> (v: usize)
        ensures
            v == self.spec_get(),
    {
        self.0
    }

    /// The index in decimal.
    pub fn to_string(&self) -> (s: String)
        ensures
            s@ == decimal(self.spec_get() as nat),
    {
        crate::text::u64_to_decimal(self.0 as u64)
    }
}

/// Identifies the load generator process that issued a request.
#[derive(Debug, Clone, Copy, PartialEq, Eq, Hash, Structural)]
pub struct LoadGeneratorId(u8);

impl LoadGeneratorId {
    pub closed spec fn spec_get(self) -> u8 {
        self.0
    }

    /// Wraps a generator number.
    pub fn new(value: u8) -> (id: Self)
        ensures
            id.spec_get() == value,
    {
        LoadGeneratorId(value)
    }

    /// The wrapped generator number.
    pub fn get(self) -> (v: u8)
        ensures
            v == self.spec_get(),
    {
        self.0
    }
}

} // verus!
