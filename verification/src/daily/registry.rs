//! Binding a daily-lottery configuration to the registry, and the registry call that
//! records each new lottery.
use super::error::Error;
use super::state::RegistryBinding;
use crate::binding::{
    check_registry, domain_config_seeds, make_domain_config_seeds, record_call, record_call_model, release_signer, spec_check_registry, RecordCallModel,
    RecordCall, RegistryCheck,
};
use crate::bytes::{eq32, is_zero32};
use crate::hashing::{sha256, solana_sha256v};
use crate::pda::{derivable, key, pda, pda_bump, spec_key};
use crate::registry::{signer_seeds, zero32, AccountView};
use crate::wire::DAILY;
use vstd::prelude::*;

verus! {

/// Seconds in a UTC day.
pub const SECONDS_PER_DAY: u64 = 86400;

pub open spec fn spec_validate_registry(
    program: Seq<u8>,
    registry_program: AccountView,
    cfg: AccountView,
    release: AccountView,
) -> Result<(), Error> {
    match spec_check_registry(program, registry_program, cfg, release, DAILY) {
        Ok(_) => Ok(()),
        Err(RegistryCheck::Ownership) => Err(Error::IncorrectOwner),
        Err(RegistryCheck::Data) => Err(Error::InvalidAccountData),
    }
}

/// The registry accounts hold a daily release of this program: `IncorrectOwner` unless
/// the registry is an executable owning both accounts, `InvalidAccountData` unless they
/// hold a schema-1 configuration at its namespace address and this program's daily
/// release at its release address.
pub fn validate_registry(
    program_id: &[u8; 32],
    registry_program: &AccountView,
    cfg: &AccountView,
    release: &AccountView,
) -> (r: Result<(), Error>)
    ensures
        r == spec_validate_registry(program_id@, *registry_program, *cfg, *release),
{
    match check_registry(program_id, registry_program, cfg, release, DAILY) {
        Ok(_) => Ok(()),
        Err(RegistryCheck::Ownership) => Err(Error::IncorrectOwner),
        Err(RegistryCheck::Data) => Err(Error::InvalidAccountData),
    }
}

pub open spec fn spec_bind(
    program: Seq<u8>,
    accounts: Seq<AccountView>,
    config: RegistryBinding,
) -> Result<RegistryBinding, Error> {
    if accounts.len() < 5 {
        Err(Error::MissingAccount)
    } else if spec_key(program, accounts[0].key@, domain_config_seeds()) is Err {
        Err(Error::InvalidSeeds)
    } else if accounts[0].owner@ != program {
        Err(Error::IncorrectOwner)
    } else if !accounts[1].is_signer || accounts[1].key@ != config.authority@
        || config.registry_program@ != zero32() || config.lottery_count != 0 {
        Err(Error::Unauthorized)
    } else {
        match spec_validate_registry(program, accounts[2], accounts[3], accounts[4]) {
            Err(e) => Err(e),
            Ok(_) => Ok(
                RegistryBinding {
                    registry_program: accounts[2].key,
                    registry_config: accounts[3].key,
                    ..config
                },
            ),
        }
    }
}

/// Binds the configuration, once and before any lottery exists, to the registry.
/// Accounts: config, authority (signer), registry executable, registry config, release;
/// `config` is what the config account holds. The config account must be this program's
/// `[config]` address (`InvalidSeeds`) and owned by it (`IncorrectOwner`).
/// Returns the configuration's new binding.
pub fn bind(program_id: &[u8; 32], accounts: &Vec<AccountView>, config: &RegistryBinding) -> (r:
    Result<RegistryBinding, Error>)
    ensures
        r == spec_bind(program_id@, accounts@, *config),
{
    if accounts.len() < 5 {
        return Err(Error::MissingAccount);
    }
    if key(program_id, &accounts[0].key, &make_domain_config_seeds()).is_err() {
        return Err(Error::InvalidSeeds);
    }
    if !eq32(&accounts[0].owner, program_id) {
        return Err(Error::IncorrectOwner);
    }
    let authority = &accounts[1];
    if !authority.is_signer || !eq32(&authority.key, &config.authority) || !is_zero32(
        &config.registry_program,
    ) || config.lottery_count != 0 {
        return Err(Error::Unauthorized);
    }
    validate_registry(program_id, &accounts[2], &accounts[3], &accounts[4])?;
    Ok(
        RegistryBinding {
            registry_program: accounts[2].key,
            registry_config: accounts[3].key,
            ..*config
        },
    )
}

pub open spec fn spec_record(
    program: Seq<u8>,
    config: RegistryBinding,
    lottery: [u8; 32],
    creator: [u8; 32],
    system: [u8; 32],
    accounts: Seq<AccountView>,
    lottery_state: Seq<u8>,
    buy_start_unix: i64,
) -> Result<RecordCallModel, Error> {
    if accounts.len() < 6 {
        Err(Error::MissingAccount)
    } else if accounts[0].key@ != config.registry_program@ || accounts[1].key@
        != config.registry_config@ {
        Err(Error::InvalidAccountData)
    } else {
        match spec_validate_registry(program, accounts[0], accounts[1], accounts[2]) {
            Err(e) => Err(e),
            Ok(_) => if !derivable(signer_seeds(accounts[1].key@), program) || accounts[3].key@
                != pda(signer_seeds(accounts[1].key@), program) {
                Err(Error::InvalidSeeds)
            } else if buy_start_unix < 0 {
                Err(Error::InvalidInstruction)
            } else {
                let rules_hash = crate::processor::key_array(solana_sha256v(seq![lottery_state]));
                let day = ((buy_start_unix as int) / (SECONDS_PER_DAY as int)) as u64;
                Ok(
                    record_call_model(
                        accounts[0].key,
                        day,
                        rules_hash,
                        accounts[1].key,
                        accounts[2].key,
                        accounts[3].key,
                        pda_bump(signer_seeds(accounts[1].key@), program),
                        lottery,
                        creator,
                        system,
                        accounts[4].key,
                        accounts[5].key,
                    ),
                )
            },
        }
    }
}

/// The registry call that records a new lottery. `accounts` are the registry executable,
/// registry config, release, release signer, new entry and business key; the release
/// signer must be this program's `[chance-release, registry_config]` address
/// (`InvalidSeeds` otherwise, also when no such address can be derived); `lottery_state`
/// is the lottery's Borsh state at creation, whose SHA-256 is the rules hash; the day
/// index is the buy start's UTC day, which must not be negative.
pub fn record(
    program_id: &[u8; 32],
    config: &RegistryBinding,
    lottery: &[u8; 32],
    creator: &[u8; 32],
    system: &[u8; 32],
    accounts: &Vec<AccountView>,
    lottery_state: &[u8],
    buy_start_unix: i64,
) -> (r: Result<RecordCall, Error>)
    ensures
        match r {
            Ok(call) => spec_record(
                program_id@,
                *config,
                *lottery,
                *creator,
                *system,
                accounts@,
                lottery_state@,
                buy_start_unix,
            ) == Ok::<RecordCallModel, Error>(call@),
            Err(e) => spec_record(
                program_id@,
                *config,
                *lottery,
                *creator,
                *system,
                accounts@,
                lottery_state@,
                buy_start_unix,
            ) == Err::<RecordCallModel, Error>(e),
        },
{
    if accounts.len() < 6 {
        return Err(Error::MissingAccount);
    }
    if !eq32(&accounts[0].key, &config.registry_program) || !eq32(
        &accounts[1].key,
        &config.registry_config,
    ) {
        return Err(Error::InvalidAccountData);
    }
    validate_registry(program_id, &accounts[0], &accounts[1], &accounts[2])?;
    let (expected, bump) = match release_signer(program_id, &accounts[1].key) {
        Some(found) => found,
        None => return Err(Error::InvalidSeeds),
    };
    if !eq32(&accounts[3].key, &expected) {
        return Err(Error::InvalidSeeds);
    }
    let rules_hash = sha256(lottery_state);
    proof {
        crate::processor::lemma_key_array(rules_hash, solana_sha256v(seq![lottery_state@]));
    }
    if buy_start_unix < 0 {
        return Err(Error::InvalidInstruction);
    }
    let day = (buy_start_unix as u64) / SECONDS_PER_DAY;
    Ok(
        record_call(
            accounts[0].key,
            day,
            rules_hash,
            accounts[1].key,
            accounts[2].key,
            accounts[3].key,
            bump,
            *lottery,
            *creator,
            *system,
            accounts[4].key,
            accounts[5].key,
        ),
    )
}

} // verus!
