//! What the library decides about the system handle: the interface version
//! check and the size of the per-core control page.
use crate::error::Error;
use vstd::prelude::*;

verus! {

/// The only kernel interface version this library speaks.
pub const API_VERSION: i32 = 12;

/// Decides the version check from the version the kernel reported.
pub fn verify_api_version(reported: i32) -> (r: Result<(), Error>)
    ensures
        r == (if reported == API_VERSION {
            Ok::<(), Error>(())
        } else {
            Err(Error::InvalidVersion { got: reported, expected: API_VERSION })
        }),
{
    if reported != API_VERSION {
        Err(Error::InvalidVersion { got: reported, expected: API_VERSION })
    } else {
        Ok(())
    }
}

} // verus!
