//! The start of the system setup.
use vstd::prelude::*;
use crate::error::InstallError;

verus! {

/// Initializes the system. There is nothing to prepare, so it succeeds.
pub fn initialize_system() -> (r: Result<(), InstallError>)
    ensures
        r is Ok,
{
    Ok(())
}

} // verus!
