//! The constant multiplier generator.

use vstd::prelude::*;

verus! {

/// Yields the multiplier `1` forever.
#[derive(Debug, Clone)]
pub struct FixedInterval {}

impl FixedInterval {
    /// A generator at the start of its sequence.
    pub fn new() -> (generator: FixedInterval) {
        FixedInterval {  }
    }

    /// Yields `1`. The sequence never ends.
    pub fn next(&mut self) -> (factor: Option<u32>)
        ensures
            factor == Some(1u32),
    {
        Some(1)
    }
}

} // verus!
