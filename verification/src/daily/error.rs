use vstd::prelude::*;

verus! {

/// Errors of the daily-lottery program that its registry instructions return.
#[derive(Clone, Copy, Debug, PartialEq, Eq)]
pub enum Error {
    MissingAccount,
    Unauthorized,
    IncorrectOwner,
    InvalidAccountData,
    InvalidSeeds,
    InvalidInstruction,
    InvalidPhaseTransition,
}

} // verus!
