//! What the library decides for a machine beyond its regions: fallbacks
//! between capability answers, the size of a dirty-page bitmap, and the
//! numbers of the machine-wide requests.
use crate::error::{Error, Request};
use vstd::prelude::*;

verus! {

/// Bytes in a guest page.
pub const PAGE_SIZE: usize = 4096;

/// Clock flag: the value is consistent across all cores.
pub const CLOCK_TSC_STABLE: u32 = 2;

/// Interval timer flag: emulate the PC speaker port as a dummy.
pub const PIT_SPEAKER_DUMMY: u32 = 1;

/// The level of an interrupt line; `Active` is always the asserted level,
/// whatever the line's electrical polarity.
#[derive(Debug, Clone, Copy, PartialEq, Eq, Hash, Structural)]
pub enum IrqLevel {
    Inactive,
    Active,
}

impl IrqLevel {
    /// The number the kernel uses for this level.
    pub fn code(&self) -> (r: u32)
        ensures
            r == (if *self is Active {
                1u32
            } else {
                0u32
            }),
    {
        match self {
            IrqLevel::Inactive => 0,
            IrqLevel::Active => 1,
        }
    }
}

/// The type of machine to create; the kernel knows only the default.
#[derive(Debug, Clone, Copy, PartialEq, Eq, Hash, Structural)]
pub enum MachineKind {
    Default,
}

impl MachineKind {
    /// The number the kernel uses for this type.
    pub fn code(&self) -> (r: i32)
        ensures
            r == 0,
    {
        0
    }
}

/// The absolute maximum number of cores, from the answers to the
/// maximum-cores query and the recommended-cores query: the first, unless
/// the kernel does not know it (zero).
pub fn max_cores(reported_max: i32, reported_number: i32) -> (r: i32)
    ensures
        r == (if reported_max == 0 {
            reported_number
        } else {
            reported_max
        }),
{
    if reported_max == 0 {
        reported_number
    } else {
        reported_max
    }
}

/// The maximum core id, from the answer to the maximum-id query and the
/// maximum number of cores: the first, unless the kernel does not know it.
pub fn max_core_id(reported_max_id: i32, cores: i32) -> (r: i32)
    ensures
        r == (if reported_max_id == 0 {
            cores
        } else {
            reported_max_id
        }),
{
    if reported_max_id == 0 {
        cores
    } else {
        reported_max_id
    }
}

/// Number of 64-bit words in the dirty-page bitmap of a region of `size`
/// bytes: one bit per page, a partial page counting as a page.
pub fn dirty_log_words(size: usize) -> (r: usize)
    ensures
        r == ((size + 4095) / 4096 + 63) / 64,
{
    let pages = size / PAGE_SIZE + if size % PAGE_SIZE == 0 {
        0
    } else {
        1
    };
    pages / 64 + if pages % 64 == 0 {
        0
    } else {
        1
    }
}

/// Takes in the kernel's answer to a machine request that returns a count
/// or status: the value, or the request's error.
pub fn machine_reply(request: Request, reply: Result<i32, i32>) -> (r: Result<i32, Error>)
    ensures
        reply matches Ok(v) ==> r == Ok::<i32, Error>(v),
        reply matches Err(e) ==> r == Err::<i32, Error>(Error::MachineApi(request, e)),
{
    match reply {
        Ok(v) => Ok(v),
        Err(e) => Err(Error::MachineApi(request, e)),
    }
}

} // verus!
