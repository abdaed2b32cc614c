//! The lifecycle state of a virtual CPU.  The numbers pass through in both
//! directions unchanged: which of them are legal on a host is the kernel's
//! business, not this library's.
use crate::error::{Error, Request};
use vstd::prelude::*;

verus! {

#[derive(Debug, Clone, Copy, PartialEq, Eq, Hash, Structural)]
pub enum MpState {
    /// Running; x86, ARM and arm64.
    Runnable,
    /// An application processor that has not received INIT yet; x86.
    Uninitialized,
    /// INIT received, waiting for SIPI; x86.
    InitReceived,
    /// Halted, waiting for an interrupt; x86.
    Halted,
    /// SIPI just received; x86.
    SipiReceived,
    /// Stopped; s390, ARM and arm64.
    Stopped,
    /// A special error state; s390.
    CheckStop,
    /// Running or halted; s390.
    Operating,
    /// A special load or start-up state; s390.
    Load,
    /// A number this library has no name for, kept as it is.
    Other(u32),
}

impl MpState {
    /// The number the kernel uses for this state.
    pub open spec fn spec_raw(self) -> u32 {
        match self {
            MpState::Runnable => 0,
            MpState::Uninitialized => 1,
            MpState::InitReceived => 2,
            MpState::Halted => 3,
            MpState::SipiReceived => 4,
            MpState::Stopped => 5,
            MpState::CheckStop => 6,
            MpState::Operating => 7,
            MpState::Load => 8,
            MpState::Other(v) => v,
        }
    }

    /// The state a number stands for.
    pub open spec fn spec_from_raw(v: u32) -> MpState {
        if v == 0 {
            MpState::Runnable
        } else if v == 1 {
            MpState::Uninitialized
        } else if v == 2 {
            MpState::InitReceived
        } else if v == 3 {
            MpState::Halted
        } else if v == 4 {
            MpState::SipiReceived
        } else if v == 5 {
            MpState::Stopped
        } else if v == 6 {
            MpState::CheckStop
        } else if v == 7 {
            MpState::Operating
        } else if v == 8 {
            MpState::Load
        } else {
            MpState::Other(v)
        }
    }

    /// True unless the state is `Other` with a number that has a name.
    pub open spec fn is_canonical(self) -> bool {
        self matches MpState::Other(v) ==> v > 8
    }

    /// The number the kernel uses for this state.
    pub fn into_raw(&self) -> (r: u32)
        ensures
            r == self.spec_raw(),
    {
        match self {
            MpState::Runnable => 0,
            MpState::Uninitialized => 1,
            MpState::InitReceived => 2,
            MpState::Halted => 3,
            MpState::SipiReceived => 4,
            MpState::Stopped => 5,
            MpState::CheckStop => 6,
            MpState::Operating => 7,
            MpState::Load => 8,
            MpState::Other(v) => *v,
        }
    }

    /// The state a number stands for.
    pub fn from_raw(v: u32) -> (r: MpState)
        ensures
            r == Self::spec_from_raw(v),
    {
        if v == 0 {
            MpState::Runnable
        } else if v == 1 {
            MpState::Uninitialized
        } else if v == 2 {
            MpState::InitReceived
        } else if v == 3 {
            MpState::Halted
        } else if v == 4 {
            MpState::SipiReceived
        } else if v == 5 {
            MpState::Stopped
        } else if v == 6 {
            MpState::CheckStop
        } else if v == 7 {
            MpState::Operating
        } else if v == 8 {
            MpState::Load
        } else {
            MpState::Other(v)
        }
    }

    /// Takes in what the get-state call returned: the state number, or the
    /// error number of the call.
    pub fn from_reply(reply: Result<u32, i32>) -> (r: Result<MpState, Error>)
        ensures
            reply matches Ok(v) ==> r == Ok::<MpState, Error>(Self::spec_from_raw(v)),
            reply matches Err(e) ==> r == Err::<MpState, Error>(Error::CoreApi(Request::GetMpState, e)),
    {
        match reply {
            Ok(v) => Ok(MpState::from_raw(v)),
            Err(e) => Err(Error::CoreApi(Request::GetMpState, e)),
        }
    }
}

/// Every number survives the trip through `MpState`, and every canonical
/// state survives the trip through its number.
pub proof fn lemma_mp_state_round_trip(v: u32, s: MpState)
    ensures
        MpState::spec_from_raw(v).spec_raw() == v,
        MpState::spec_from_raw(v).is_canonical(),
        s.is_canonical() ==> MpState::spec_from_raw(s.spec_raw()) == s,
{
}

} // verus!
