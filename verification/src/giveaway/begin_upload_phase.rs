//! Legacy timing mutation is rejected for all fixed-rule builds.
use super::error::GiveawayError;
use super::state::GiveawayView;
use crate::bytes::eq32;
use vstd::prelude::*;

verus! {

/// The accounts of `begin_upload_phase`: the configuration's authority, the giveaway and
/// the signing authority.
#[derive(Clone, Copy, Debug, PartialEq, Eq)]
pub struct BeginUploadPhase {
    pub config_authority: [u8; 32],
    pub giveaway: GiveawayView,
    pub authority: [u8; 32],
}

impl BeginUploadPhase {
    /// The account constraints, in order: the giveaway is not settled, the signer is the
    /// configuration's authority.
    pub fn validate(&self) -> (r: Result<(), GiveawayError>)
        ensures
            self.giveaway.settled ==> r == Err::<(), GiveawayError>(
                GiveawayError::GiveawayAlreadySettled,
            ),
            !self.giveaway.settled && self.authority@ != self.config_authority@ ==> r == Err::<
                (),
                GiveawayError,
            >(GiveawayError::Unauthorized),
            !self.giveaway.settled && self.authority@ == self.config_authority@ ==> r is Ok,
    {
        if self.giveaway.settled {
            return Err(GiveawayError::GiveawayAlreadySettled);
        }
        if !eq32(&self.authority, &self.config_authority) {
            return Err(GiveawayError::Unauthorized);
        }
        Ok(())
    }
}

/// Fixed-rule releases expose no authority timing override: always refused.
pub fn process(_ctx: &BeginUploadPhase) -> (r: Result<(), GiveawayError>)
    ensures
        r == Err::<(), GiveawayError>(GiveawayError::InvalidInstruction),
{
    Err(GiveawayError::InvalidInstruction)
}

} // verus!
