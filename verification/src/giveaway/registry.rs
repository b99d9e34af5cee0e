//! Binding a giveaway configuration to the registry, and the registry call that records
//! each new giveaway.
use super::error::{AccountError, GiveawayError};
use super::state::RegistryBinding;
use crate::binding::{
    check_registry, domain_config_seeds, make_domain_config_seeds, record_call, record_call_model, release_signer, spec_check_registry, RecordCallModel,
    RecordCall,
};
use crate::bytes::{eq32, is_zero32};
use crate::hashing::{sha2_digest, sha2_sha256};
use crate::pda::{derivable, key, pda, pda_bump, spec_key};
use crate::registry::{signer_seeds, zero32, AccountView};
use crate::wire::GIVEAWAY;
use vstd::prelude::*;

verus! {

/// The accounts of `bind`: the configuration account and what it holds, the signing
/// authority, registry executable, registry config and release.
#[derive(Clone, Debug)]
pub struct BindRegistry {
    pub config_account: AccountView,
    pub config: RegistryBinding,
    pub authority: AccountView,
    pub registry_program: AccountView,
    pub registry_config: AccountView,
    pub release: AccountView,
}

/// The account checks of `bind`, in the order they are made: the configuration account
/// is owned by the program, the authority signs, the configuration is at the program's
/// `[config]` address, it is writable, and its stored authority is the signer.
pub open spec fn spec_validate_bind(program: Seq<u8>, ctx: BindRegistry) -> Result<(), AccountError> {
    if ctx.config_account.owner@ != program {
        Err(AccountError::AccountOwnedByWrongProgram)
    } else if !ctx.authority.is_signer {
        Err(AccountError::AccountNotSigner)
    } else if spec_key(program, ctx.config_account.key@, domain_config_seeds()) is Err {
        Err(AccountError::ConstraintSeeds)
    } else if !ctx.config_account.is_writable {
        Err(AccountError::ConstraintMut)
    } else if ctx.config.authority@ != ctx.authority.key@ {
        Err(AccountError::ConstraintHasOne)
    } else {
        Ok(())
    }
}

impl BindRegistry {
    /// The account checks made before `bind` runs (see `spec_validate_bind`).
    pub fn validate(&self, program_id: &[u8; 32]) -> (r: Result<(), AccountError>)
        ensures
            r == spec_validate_bind(program_id@, *self),
    {
        if !eq32(&self.config_account.owner, program_id) {
            return Err(AccountError::AccountOwnedByWrongProgram);
        }
        if !self.authority.is_signer {
            return Err(AccountError::AccountNotSigner);
        }
        if key(program_id, &self.config_account.key, &make_domain_config_seeds()).is_err() {
            return Err(AccountError::ConstraintSeeds);
        }
        if !self.config_account.is_writable {
            return Err(AccountError::ConstraintMut);
        }
        if !eq32(&self.config.authority, &self.authority.key) {
            return Err(AccountError::ConstraintHasOne);
        }
        Ok(())
    }
}

pub open spec fn spec_validate_registry(
    program: Seq<u8>,
    registry_program: AccountView,
    cfg: AccountView,
    release: AccountView,
) -> Result<(), GiveawayError> {
    if spec_check_registry(program, registry_program, cfg, release, GIVEAWAY) is Ok {
        Ok(())
    } else {
        Err(GiveawayError::InvalidInstruction)
    }
}

/// The registry accounts hold a giveaway release of this program (see
/// `check_registry`); any failure is `InvalidInstruction`.
pub fn validate_registry(
    program_id: &[u8; 32],
    registry_program: &AccountView,
    cfg: &AccountView,
    release: &AccountView,
) -> (r: Result<(), GiveawayError>)
    ensures
        r == spec_validate_registry(program_id@, *registry_program, *cfg, *release),
{
    match check_registry(program_id, registry_program, cfg, release, GIVEAWAY) {
        Ok(_) => Ok(()),
        Err(_) => Err(GiveawayError::InvalidInstruction),
    }
}

/// Binds the configuration, once and before any giveaway exists, to the registry.
/// Runs after the account checks of `BindRegistry::validate` have passed.
/// Returns the configuration's new binding.
pub fn bind(program_id: &[u8; 32], ctx: &BindRegistry) -> (r: Result<RegistryBinding, GiveawayError>)
    ensures
        !(ctx.config.registry_program@ == zero32() && ctx.config.next_giveaway_id == 1) ==> r
            == Err::<RegistryBinding, GiveawayError>(GiveawayError::InvalidInstruction),
        ctx.config.registry_program@ == zero32() && ctx.config.next_giveaway_id == 1 ==> r == (
        match spec_validate_registry(
            program_id@,
            ctx.registry_program,
            ctx.registry_config,
            ctx.release,
        ) {
            Err(e) => Err(e),
            Ok(_) => Ok(
                RegistryBinding {
                    registry_program: ctx.registry_program.key,
                    registry_config: ctx.registry_config.key,
                    ..ctx.config
                },
            ),
        }),
{
    if !(is_zero32(&ctx.config.registry_program) && ctx.config.next_giveaway_id == 1) {
        return Err(GiveawayError::InvalidInstruction);
    }
    validate_registry(program_id, &ctx.registry_program, &ctx.registry_config, &ctx.release)?;
    Ok(
        RegistryBinding {
            registry_program: ctx.registry_program.key,
            registry_config: ctx.registry_config.key,
            ..ctx.config
        },
    )
}

pub open spec fn spec_record(
    program: Seq<u8>,
    config: RegistryBinding,
    giveaway: [u8; 32],
    creator: [u8; 32],
    system: [u8; 32],
    registry_program: AccountView,
    cfg: AccountView,
    release: AccountView,
    signer: [u8; 32],
    entry: [u8; 32],
    business: [u8; 32],
    giveaway_state: Seq<u8>,
    nonce: u64,
) -> Result<RecordCallModel, GiveawayError> {
    if !(registry_program.key@ == config.registry_program@ && cfg.key@ == config.registry_config@) {
        Err(GiveawayError::InvalidInstruction)
    } else if spec_validate_registry(program, registry_program, cfg, release) is Err {
        Err(GiveawayError::InvalidInstruction)
    } else if !derivable(signer_seeds(cfg.key@), program) || signer@ != pda(
        signer_seeds(cfg.key@),
        program,
    ) {
        Err(GiveawayError::InvalidInstruction)
    } else {
        let rules_hash = crate::processor::key_array(sha2_digest(giveaway_state));
        Ok(
            record_call_model(
                registry_program.key,
                nonce,
                rules_hash,
                cfg.key,
                release.key,
                signer,
                pda_bump(signer_seeds(cfg.key@), program),
                giveaway,
                creator,
                system,
                entry,
                business,
            ),
        )
    }
}

/// The registry call that records a new giveaway under the creator's nonce;
/// `giveaway_state` is the giveaway's Borsh state at creation, whose SHA-256 is the
/// rules hash.
pub fn record(
    program_id: &[u8; 32],
    config: &RegistryBinding,
    giveaway: &[u8; 32],
    creator: &[u8; 32],
    system: &[u8; 32],
    registry_program: &AccountView,
    cfg: &AccountView,
    release: &AccountView,
    signer: &[u8; 32],
    entry: &[u8; 32],
    business: &[u8; 32],
    giveaway_state: &[u8],
    nonce: u64,
) -> (r: Result<RecordCall, GiveawayError>)
    ensures
        match r {
            Ok(call) => spec_record(
                program_id@,
                *config,
                *giveaway,
                *creator,
                *system,
                *registry_program,
                *cfg,
                *release,
                *signer,
                *entry,
                *business,
                giveaway_state@,
                nonce,
            ) == Ok::<RecordCallModel, GiveawayError>(call@),
            Err(e) => spec_record(
                program_id@,
                *config,
                *giveaway,
                *creator,
                *system,
                *registry_program,
                *cfg,
                *release,
                *signer,
                *entry,
                *business,
                giveaway_state@,
                nonce,
            ) == Err::<RecordCallModel, GiveawayError>(e),
        },
{
    if !(eq32(&registry_program.key, &config.registry_program) && eq32(
        &cfg.key,
        &config.registry_config,
    )) {
        return Err(GiveawayError::InvalidInstruction);
    }
    validate_registry(program_id, registry_program, cfg, release)?;
    let (expected, bump) = match release_signer(program_id, &cfg.key) {
        Some(found) => found,
        None => return Err(GiveawayError::InvalidInstruction),
    };
    if !eq32(signer, &expected) {
        return Err(GiveawayError::InvalidInstruction);
    }
    let rules_hash = sha2_sha256(giveaway_state);
    proof {
        crate::processor::lemma_key_array(rules_hash, sha2_digest(giveaway_state@));
    }
    Ok(
        record_call(
            registry_program.key,
            nonce,
            rules_hash,
            cfg.key,
            release.key,
            *signer,
            bump,
            *giveaway,
            *creator,
            *system,
            *entry,
            *business,
        ),
    )
}

} // verus!
