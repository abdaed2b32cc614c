//! Model-specific register indices, as the kernel lists them.
use crate::error::Error;
use vstd::prelude::*;

verus! {

/// The index of a model-specific register.
#[derive(Debug, Clone, Copy, PartialEq, Eq, Hash, PartialOrd, Ord, Structural)]
pub struct MsrIndex(pub u32);

impl MsrIndex {
    /// The register with index `value`.  Every value is accepted.
    pub fn new(value: u32) -> (r: Result<MsrIndex, Error>)
        ensures
            r == Ok::<MsrIndex, Error>(MsrIndex(value)),
    {
        Ok(MsrIndex(value))
    }

    /// The index as a number.
    pub fn value(&self) -> (r: u32)
        ensures
            r == self.0,
    {
        self.0
    }
}

} // verus!
