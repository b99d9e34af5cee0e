//! What a domain program checks before it binds to, or records an instance in, the
//! registry; shared by the daily-lottery and giveaway programs.
use crate::bytes::{eq32, eq8, views};
use crate::codec::{
    config_bytes, decode_config, decode_release, encode_instruction, instruction_bytes,
    lemma_config_injective, lemma_release_injective, parse_config, parse_release, release_bytes,
};
use crate::pda::{derivable, find_program_address, pda, pda_bump};
use crate::registry::{
    make_registry_seeds, make_release_seeds, make_signer_seeds, registry_seeds, release_seeds,
    signer_seeds, AccountView,
};
use crate::wire::{Instruction, InstructionModel, CONFIG_TAG, RELEASE_TAG, SCHEMA};
use vstd::prelude::*;

verus! {

/// Why registry accounts are refused.
#[derive(Clone, Copy, Debug, PartialEq, Eq)]
pub enum RegistryCheck {
    /// The registry is not an executable owning both the configuration and the release.
    Ownership,
    /// The accounts do not hold this program's release in that registry.
    Data,
}

/// The registry accounts hold a schema-1 configuration at its namespace address and a
/// release of `domain` for `program` at its release address (an address that cannot be
/// derived matches no account).
pub open spec fn spec_check_registry(
    program: Seq<u8>,
    registry_program: AccountView,
    cfg: AccountView,
    release: AccountView,
    domain: u8,
) -> Result<(), RegistryCheck> {
    if !(registry_program.executable && cfg.owner@ == registry_program.key@ && release.owner@
        == registry_program.key@) {
        Err(RegistryCheck::Ownership)
    } else {
        match (parse_config(cfg.data@), parse_release(release.data@)) {
            (Some(c), Some(r)) => if c.tag@ == CONFIG_TAG@ && c.schema == SCHEMA && r.tag@
                == RELEASE_TAG@ && r.domain == domain && r.program@ == program && r.registry@
                == cfg.key@ && derivable(registry_seeds(c.authority@), registry_program.key@) && pda(
                registry_seeds(c.authority@),
                registry_program.key@,
            ) == cfg.key@ && derivable(release_seeds(cfg.key@, program), registry_program.key@)
                && pda(release_seeds(cfg.key@, program), registry_program.key@) == release.key@ {
                Ok(())
            } else {
                Err(RegistryCheck::Data)
            },
            _ => Err(RegistryCheck::Data),
        }
    }
}

pub fn check_registry(
    program: &[u8; 32],
    registry_program: &AccountView,
    cfg: &AccountView,
    release: &AccountView,
    domain: u8,
) -> (r: Result<(), RegistryCheck>)
    ensures
        r == spec_check_registry(program@, *registry_program, *cfg, *release, domain),
{
    if !(registry_program.executable && eq32(&cfg.owner, &registry_program.key) && eq32(
        &release.owner,
        &registry_program.key,
    )) {
        return Err(RegistryCheck::Ownership);
    }
    let c = match decode_config(cfg.data.as_slice()) {
        Some(c) => c,
        None => return Err(RegistryCheck::Data),
    };
    let r = match decode_release(release.data.as_slice()) {
        Some(r) => r,
        None => {
            proof {
                let d = choose|x: crate::wire::Config| config_bytes(x) == cfg.data@;
                lemma_config_injective(c, d);
            }
            return Err(RegistryCheck::Data);
        },
    };
    proof {
        let d = choose|x: crate::wire::Config| config_bytes(x) == cfg.data@;
        lemma_config_injective(c, d);
        let e = choose|x: crate::wire::Release| release_bytes(x) == release.data@;
        lemma_release_injective(r, e);
    }
    if !(eq8(&c.tag, &CONFIG_TAG) && c.schema == SCHEMA && eq8(&r.tag, &RELEASE_TAG) && r.domain == domain
        && eq32(&r.program, program) && eq32(&r.registry, &cfg.key)) {
        return Err(RegistryCheck::Data);
    }
    let namespace = match find_program_address(
        &make_registry_seeds(&c.authority),
        &registry_program.key,
    ) {
        Some((address, _)) => address,
        None => return Err(RegistryCheck::Data),
    };
    if !eq32(&namespace, &cfg.key) {
        return Err(RegistryCheck::Data);
    }
    let release_address = match find_program_address(
        &make_release_seeds(&cfg.key, program),
        &registry_program.key,
    ) {
        Some((address, _)) => address,
        None => return Err(RegistryCheck::Data),
    };
    if !eq32(&release_address, &release.key) {
        return Err(RegistryCheck::Data);
    }
    Ok(())
}

/// One account of the `RecordInstance` call: its key, whether it signs, whether it is
/// writable.
#[derive(Clone, Copy, Debug, PartialEq, Eq)]
pub struct Meta {
    pub key: [u8; 32],
    pub is_signer: bool,
    pub is_writable: bool,
}

/// The `RecordInstance` call a domain program makes to the registry: the registry
/// executable it goes to, its instruction data, its accounts in order, the seeds the
/// program signs with as its release signer (`[chance-release, registry_config, [bump]]`)
/// and that bump.
#[derive(Clone, Debug)]
pub struct RecordCall {
    pub program: [u8; 32],
    pub data: Vec<u8>,
    pub accounts: Vec<Meta>,
    pub signer_seeds: Vec<Vec<u8>>,
    pub signer_bump: u8,
}

/// A `RecordInstance` call as values.
pub struct RecordCallModel {
    pub program: [u8; 32],
    pub data: Seq<u8>,
    pub accounts: Seq<Meta>,
    pub signer_seeds: Seq<Seq<u8>>,
    pub signer_bump: u8,
}

impl View for RecordCall {
    type V = RecordCallModel;

    open spec fn view(&self) -> RecordCallModel {
        RecordCallModel {
            program: self.program,
            data: self.data@,
            accounts: self.accounts@,
            signer_seeds: views(self.signer_seeds@),
            signer_bump: self.signer_bump,
        }
    }
}

/// The call that records `instance` in registry config `cfg` through `program`, signed as
/// the release signer with bump `bump`.
pub open spec fn record_call_model(
    program: [u8; 32],
    day_or_nonce: u64,
    rules_hash: [u8; 32],
    cfg: [u8; 32],
    release: [u8; 32],
    signer: [u8; 32],
    bump: u8,
    instance: [u8; 32],
    creator: [u8; 32],
    system: [u8; 32],
    entry: [u8; 32],
    business: [u8; 32],
) -> RecordCallModel {
    RecordCallModel {
        program,
        data: instruction_bytes(InstructionModel::RecordInstance { day_or_nonce, rules_hash }),
        accounts: record_metas(cfg, release, signer, instance, creator, system, entry, business),
        signer_seeds: signer_seeds(cfg@).push(seq![bump]),
        signer_bump: bump,
    }
}

/// The accounts of `RecordInstance`: registry config (writable), release, release signer
/// (signer), instance, creator (signer), creator again as payer (signer, writable),
/// system, new entry (writable), business key (writable).
pub open spec fn record_metas(
    cfg: [u8; 32],
    release: [u8; 32],
    signer: [u8; 32],
    instance: [u8; 32],
    creator: [u8; 32],
    system: [u8; 32],
    entry: [u8; 32],
    business: [u8; 32],
) -> Seq<Meta> {
    seq![
        Meta { key: cfg, is_signer: false, is_writable: true },
        Meta { key: release, is_signer: false, is_writable: false },
        Meta { key: signer, is_signer: true, is_writable: false },
        Meta { key: instance, is_signer: false, is_writable: false },
        Meta { key: creator, is_signer: true, is_writable: false },
        Meta { key: creator, is_signer: true, is_writable: true },
        Meta { key: system, is_signer: false, is_writable: false },
        Meta { key: entry, is_signer: false, is_writable: true },
        Meta { key: business, is_signer: false, is_writable: true },
    ]
}

/// Builds the `RecordInstance` call to `program`, signed with the release signer's bump
/// `signer_bump`.
pub fn record_call(
    program: [u8; 32],
    day_or_nonce: u64,
    rules_hash: [u8; 32],
    cfg: [u8; 32],
    release: [u8; 32],
    signer: [u8; 32],
    signer_bump: u8,
    instance: [u8; 32],
    creator: [u8; 32],
    system: [u8; 32],
    entry: [u8; 32],
    business: [u8; 32],
) -> (r: RecordCall)
    ensures
        r@ == record_call_model(
            program,
            day_or_nonce,
            rules_hash,
            cfg,
            release,
            signer,
            signer_bump,
            instance,
            creator,
            system,
            entry,
            business,
        ),
{
    let ix = Instruction::RecordInstance { day_or_nonce, rules_hash };
    let data = match encode_instruction(&ix) {
        Some(d) => d,
        None => Vec::new(),
    };
    let mut accounts: Vec<Meta> = Vec::new();
    accounts.push(Meta { key: cfg, is_signer: false, is_writable: true });
    accounts.push(Meta { key: release, is_signer: false, is_writable: false });
    accounts.push(Meta { key: signer, is_signer: true, is_writable: false });
    accounts.push(Meta { key: instance, is_signer: false, is_writable: false });
    accounts.push(Meta { key: creator, is_signer: true, is_writable: false });
    accounts.push(Meta { key: creator, is_signer: true, is_writable: true });
    accounts.push(Meta { key: system, is_signer: false, is_writable: false });
    accounts.push(Meta { key: entry, is_signer: false, is_writable: true });
    accounts.push(Meta { key: business, is_signer: false, is_writable: true });
    assert(accounts@ =~= record_metas(cfg, release, signer, instance, creator, system, entry, business));
    let mut signer_seeds = make_signer_seeds(&cfg);
    let ghost before = signer_seeds@;
    let bump_seed = vec![signer_bump];
    assert(bump_seed@ =~= seq![signer_bump]);
    signer_seeds.push(bump_seed);
    proof {
        assert(views(before).len() == 2);
        assert(signer_seeds@ == before.push(bump_seed));
        assert(views(signer_seeds@) =~= views(before).push(seq![signer_bump]));
    }
    RecordCall { program, data, accounts, signer_seeds, signer_bump }
}

/// Seeds of a domain program's configuration: `[config]`.
pub open spec fn domain_config_seeds() -> Seq<Seq<u8>> {
    seq![seq![99u8, 111, 110, 102, 105, 103]]
}

pub fn make_domain_config_seeds() -> (r: Vec<Vec<u8>>)
    ensures
        views(r@) == domain_config_seeds(),
{
    let mut r: Vec<Vec<u8>> = Vec::new();
    let seed = vec![99u8, 111, 110, 102, 105, 103];
    assert(seed@ =~= seq![99u8, 111, 110, 102, 105, 103]);
    r.push(seed);
    assert(views(r@) =~= domain_config_seeds());
    r
}

/// The release signer of `program` for registry config `cfg`, with its bump; `None` when
/// no address can be derived.
pub fn release_signer(program: &[u8; 32], cfg: &[u8; 32]) -> (r: Option<([u8; 32], u8)>)
    ensures
        r is Some <==> derivable(signer_seeds(cfg@), program@),
        r matches Some(x) ==> x.0@ == pda(signer_seeds(cfg@), program@) && x.1 == pda_bump(
            signer_seeds(cfg@),
            program@,
        ),
{
    find_program_address(&make_signer_seeds(cfg), program)
}

} // verus!
