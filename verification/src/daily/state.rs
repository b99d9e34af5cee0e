use vstd::prelude::*;

verus! {

/// What the daily-lottery configuration holds about its registry binding.
#[derive(Clone, Copy, Debug, PartialEq, Eq)]
pub struct RegistryBinding {
    /// The lottery configuration's authority.
    pub authority: [u8; 32],
    /// The bound registry executable; all zeros while unbound.
    pub registry_program: [u8; 32],
    /// The bound registry configuration.
    pub registry_config: [u8; 32],
    /// How many lotteries have been created.
    pub lottery_count: u64,
}

} // verus!
