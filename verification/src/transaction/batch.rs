//! A batch of transactions sent together.
use vstd::prelude::*;

verus! {

/// A batch of `size` transactions.
pub struct Batch {
    size: u32,
}

impl Batch {
    pub closed spec fn spec_size(self) -> u32 {
        self.size
    }

    pub fn new(size: u32) -> (b: Self)
        ensures
            b.spec_size() == size,
    {
        Batch { size }
    }

    pub fn size(&self) -> (s: u32)
        ensures
            s == self.spec_size(),
    {
        self.size
    }
}

} // verus!
