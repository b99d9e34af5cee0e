use vstd::prelude::*;

verus! {

/// Errors of the giveaway program that these instructions return.
#[derive(Clone, Copy, Debug, PartialEq, Eq)]
pub enum GiveawayError {
    InvalidInstruction,
    GiveawayAlreadySettled,
    Unauthorized,
    CreatorMismatch,
}

/// Refusals of the account checks that the program's framework makes before a handler
/// runs, named as that framework names them.
#[derive(Clone, Copy, Debug, PartialEq, Eq)]
pub enum AccountError {
    /// A program account is not owned by this program.
    AccountOwnedByWrongProgram,
    /// An account that must sign did not.
    AccountNotSigner,
    /// An account is not at the address its seeds give.
    ConstraintSeeds,
    /// An account that must be writable is not.
    ConstraintMut,
    /// An account's stored key differs from the account passed for it.
    ConstraintHasOne,
}

} // verus!
