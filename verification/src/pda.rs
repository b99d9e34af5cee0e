//! Program-derived addresses.
use crate::registry::Error;
use vstd::prelude::*;

verus! {

/// The address and bump seed that `Pubkey::try_find_program_address` returns for the
/// seeds and program id, when it finds one.
pub uninterp spec fn program_address(seeds: Seq<Seq<u8>>, program: Seq<u8>) -> (Seq<u8>, u8);

/// Whether `Pubkey::try_find_program_address` finds an address for the seeds and program
/// id: it does not when the seeds are too many or too long, nor, improbably, when no bump
/// seed gives an address off the curve.
pub uninterp spec fn derivable(seeds: Seq<Seq<u8>>, program: Seq<u8>) -> bool;

/// Seeds of an accepted shape: fewer than 16 seeds of at most 32 bytes.
pub open spec fn seeds_ok(seeds: Seq<Seq<u8>>) -> bool {
    &&& seeds.len() < 16
    &&& forall|i: int| 0 <= i < seeds.len() ==> #[trigger] seeds[i].len() <= 32
}

/// The address derived from `seeds` under `program`.
pub open spec fn pda(seeds: Seq<Seq<u8>>, program: Seq<u8>) -> Seq<u8> {
    program_address(seeds, program).0
}

/// The bump seed found for `seeds` under `program`.
pub open spec fn pda_bump(seeds: Seq<Seq<u8>>, program: Seq<u8>) -> u8 {
    program_address(seeds, program).1
}

/// Calls `solana_program::pubkey::Pubkey::try_find_program_address`. Trusted: it returns
/// `None` (never panics) when there are 16 or more seeds, when a seed is longer than 32
/// bytes, or when no bump seed gives an address off the curve; whether it finds one is
/// named `derivable`, and what it finds is named `program_address`, both of the seeds and
/// the program id.
#[verifier::external_body]
pub(crate) fn find_program_address(seeds: &Vec<Vec<u8>>, program: &[u8; 32]) -> (r: Option<
    ([u8; 32], u8),
>)
    ensures
        r is Some <==> derivable(crate::bytes::views(seeds@), program@),
        !seeds_ok(crate::bytes::views(seeds@)) ==> r is None,
        r matches Some(x) ==> (x.0@, x.1) == program_address(crate::bytes::views(seeds@), program@),
{
    let slices: Vec<&[u8]> = seeds.iter().map(|s| s.as_slice()).collect();
    solana_program::pubkey::Pubkey::try_find_program_address(
        &slices,
        &solana_program::pubkey::Pubkey::new_from_array(*program),
    ).map(|(address, bump)| (address.to_bytes(), bump))
}

/// The bump seed when `account` is the address derived from `seeds` under `program`;
/// `Invalid` when it is another address or none can be derived.
pub fn key(program: &[u8; 32], account: &[u8; 32], seeds: &Vec<Vec<u8>>) -> (r: Result<u8, Error>)
    ensures
        r == spec_key(program@, account@, crate::bytes::views(seeds@)),
{
    let (expected, bump) = match find_program_address(seeds, program) {
        Some(found) => found,
        None => return Err(Error::Invalid),
    };
    if crate::bytes::eq32(&expected, account) {
        Ok(bump)
    } else {
        Err(Error::Invalid)
    }
}

pub open spec fn spec_key(program: Seq<u8>, account: Seq<u8>, seeds: Seq<Seq<u8>>) -> Result<
    u8,
    Error,
> {
    if derivable(seeds, program) && pda(seeds, program) == account {
        Ok(pda_bump(seeds, program))
    } else {
        Err(Error::Invalid)
    }
}

} // verus!
