//! Legacy timing mutation is disabled for fixed-rule instances.
use super::error::Error;
use vstd::prelude::*;

verus! {

/// The legacy reveal-window change: fixed-rule lotteries never change their windows.
pub fn process(
    _program_id: &[u8; 32],
    _attestation_secs: u32,
    _upload_secs: u32,
) -> (r: Result<(), Error>)
    ensures
        r == Err::<(), Error>(Error::InvalidPhaseTransition),
{
    Err(Error::InvalidPhaseTransition)
}

} // verus!
