//! Kernel features that may be absent, and the checks that decide from a
//! reported value whether the feature may be used.
use crate::error::Error;
use vstd::prelude::*;

verus! {

/// A capability checked through the generic query-style gate.
#[derive(Debug, Clone, Copy, PartialEq, Eq, Hash, Structural)]
pub enum CapabilityKind {
    IoEventFd,
    IrqChip,
    IrqFd,
    SetTssAddr,
    SetIdentityMapAddr,
    MemorySlotCount,
}

impl CapabilityKind {
    pub open spec fn spec_code(self) -> i32 {
        match self {
            CapabilityKind::IoEventFd => 36,
            CapabilityKind::IrqChip => 0,
            CapabilityKind::IrqFd => 32,
            CapabilityKind::SetTssAddr => 4,
            CapabilityKind::SetIdentityMapAddr => 37,
            CapabilityKind::MemorySlotCount => 10,
        }
    }

    /// The number the kernel knows this capability by.
    pub fn code(&self) -> (r: i32)
        ensures
            r == self.spec_code(),
    {
        match self {
            CapabilityKind::IoEventFd => 36,
            CapabilityKind::IrqChip => 0,
            CapabilityKind::IrqFd => 32,
            CapabilityKind::SetTssAddr => 4,
            CapabilityKind::SetIdentityMapAddr => 37,
            CapabilityKind::MemorySlotCount => 10,
        }
    }

    /// Decides an `ensure` from what the query reported: success only when
    /// it reported exactly one.
    pub fn ensure(&self, reported: i32) -> (r: Result<(), Error>)
        ensures
            r == (if reported == 1 {
                Ok::<(), Error>(())
            } else {
                Err(Error::MissingCapability(*self))
            }),
    {
        if reported != 1 {
            Err(Error::MissingCapability(*self))
        } else {
            Ok(())
        }
    }
}

/// The 32-bit pattern of `v` read as an unsigned number.
pub open spec fn as_unsigned(v: i32) -> u32 {
    if v >= 0 {
        v as u32
    } else {
        (v + 0x1_0000_0000) as u32
    }
}

/// A capability of a machine.
#[derive(Debug, Clone, Copy, PartialEq, Eq, Hash, Structural)]
pub enum Capability {
    NumberCores,
    NumberMemorySlots,
    MaxCores,
    MaxCoreId,
    MultiAddressSpace,
    IrqChip,
    SyncMmu,
    SetTssAddress,
    SetIdentityMapAddress,
    IoEventFd,
    IoEventFdAnyLength,
    IoEventFdNoLength,
}

impl Capability {
    pub open spec fn spec_code(self) -> i32 {
        match self {
            Capability::NumberCores => 9,
            Capability::NumberMemorySlots => 10,
            Capability::MaxCores => 66,
            Capability::MaxCoreId => 128,
            Capability::MultiAddressSpace => 118,
            Capability::IrqChip => 0,
            Capability::SyncMmu => 16,
            Capability::SetTssAddress => 4,
            Capability::SetIdentityMapAddress => 37,
            Capability::IoEventFd => 36,
            Capability::IoEventFdAnyLength => 122,
            Capability::IoEventFdNoLength => 100,
        }
    }

    /// The number the kernel knows this capability by.
    pub fn code(&self) -> (r: i32)
        ensures
            r == self.spec_code(),
    {
        match self {
            Capability::NumberCores => 9,
            Capability::NumberMemorySlots => 10,
            Capability::MaxCores => 66,
            Capability::MaxCoreId => 128,
            Capability::MultiAddressSpace => 118,
            Capability::IrqChip => 0,
            Capability::SyncMmu => 16,
            Capability::SetTssAddress => 4,
            Capability::SetIdentityMapAddress => 37,
            Capability::IoEventFd => 36,
            Capability::IoEventFdAnyLength => 122,
            Capability::IoEventFdNoLength => 100,
        }
    }

    /// Decides an `assert_extension` from what the query reported: any
    /// non-zero value is present and is handed back as an unsigned number.
    pub fn require(&self, reported: i32) -> (r: Result<u32, Error>)
        ensures
            r == (if reported != 0 {
                Ok::<u32, Error>(as_unsigned(reported))
            } else {
                Err(Error::MissingExtension(*self))
            }),
            r matches Ok(v) ==> v != 0,
    {
        if reported == 0 {
            Err(Error::MissingExtension(*self))
        } else if reported > 0 {
            Ok(reported as u32)
        } else {
            Ok((reported as i64 + 0x1_0000_0000i64) as u32)
        }
    }
}

} // verus!
