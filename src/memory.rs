//! Backing storage for guest memory, as this library sees it: the host
//! address and length of a mapping.  The mapping itself is made, accessed
//! and released by the caller, since the kernel and the guest write into it
//! behind the library's back.
use vstd::prelude::*;

verus! {

/// A mapped host byte range that can back guest memory.  Several regions
/// may name the same slab, for example a writable and a read-only view.
#[derive(Debug, Clone, Copy, PartialEq, Eq, Hash, Structural)]
pub struct Slab {
    address: u64,
    len: usize,
}

impl Slab {
    pub closed spec fn spec_address(&self) -> u64 {
        self.address
    }

    pub closed spec fn spec_len(&self) -> usize {
        self.len
    }

    /// The slab of `len` bytes mapped at host address `address`.
    pub fn from_mapping(address: u64, len: usize) -> (r: Slab)
        ensures
            r.spec_address() == address,
            r.spec_len() == len,
    {
        Slab { address, len }
    }

    /// The host address of the first byte.
    pub fn address(&self) -> (r: u64)
        ensures
            r == self.spec_address(),
    {
        self.address
    }

    /// The number of bytes.
    pub fn len(&self) -> (r: usize)
        ensures
            r == self.spec_len(),
    {
        self.len
    }
}

} // verus!
