use vstd::prelude::*;

verus! {

/// What the giveaway configuration holds about its registry binding.
#[derive(Clone, Copy, Debug, PartialEq, Eq)]
pub struct RegistryBinding {
    /// The configuration's authority.
    pub authority: [u8; 32],
    /// The bound registry executable; all zeros while unbound.
    pub registry_program: [u8; 32],
    /// The bound registry configuration.
    pub registry_config: [u8; 32],
    /// The id the next giveaway gets; 1 before any giveaway exists.
    pub next_giveaway_id: u64,
}

/// What a giveaway's timing instructions read of the giveaway.
#[derive(Clone, Copy, Debug, PartialEq, Eq)]
pub struct GiveawayView {
    pub creator: [u8; 32],
    pub settled: bool,
}

} // verus!
