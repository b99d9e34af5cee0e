//! Active deadlines are immutable: changed terms need a new instance.
use super::error::GiveawayError;
use super::state::GiveawayView;
use crate::bytes::eq32;
use vstd::prelude::*;

verus! {

/// The accounts of `extend_active_deadline`: the giveaway and the signing creator.
#[derive(Clone, Copy, Debug, PartialEq, Eq)]
pub struct ExtendActiveDeadline {
    pub giveaway: GiveawayView,
    pub creator: [u8; 32],
}

impl ExtendActiveDeadline {
    /// The account constraints, in order: the giveaway is not settled, the signer is its
    /// creator.
    pub fn validate(&self) -> (r: Result<(), GiveawayError>)
        ensures
            self.giveaway.settled ==> r == Err::<(), GiveawayError>(
                GiveawayError::GiveawayAlreadySettled,
            ),
            !self.giveaway.settled && self.creator@ != self.giveaway.creator@ ==> r == Err::<
                (),
                GiveawayError,
            >(GiveawayError::CreatorMismatch),
            !self.giveaway.settled && self.creator@ == self.giveaway.creator@ ==> r is Ok,
    {
        if self.giveaway.settled {
            return Err(GiveawayError::GiveawayAlreadySettled);
        }
        if !eq32(&self.creator, &self.giveaway.creator) {
            return Err(GiveawayError::CreatorMismatch);
        }
        Ok(())
    }
}

/// Deadlines are fixed at creation: always refused, whatever the new deadline.
pub fn process(_ctx: &ExtendActiveDeadline, _new_deadline_unix: i64) -> (r: Result<
    (),
    GiveawayError,
>)
    ensures
        r == Err::<(), GiveawayError>(GiveawayError::InvalidInstruction),
{
    Err(GiveawayError::InvalidInstruction)
}

} // verus!
