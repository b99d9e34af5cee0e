use crate::bytes::{eq32, starts_with, vec32, views};
use crate::codec::{
    config_bytes, decode_config, decode_release, le64, lemma_config_injective,
    lemma_release_injective, parse_config, parse_release, release_bytes,
};
use crate::pda::{key, spec_key};
use crate::wire::{
    Config, Release, CONFIG_TAG, RELEASE_TAG, SCHEMA,
};
use vstd::prelude::*;

verus! {

/// Errors of the registry program. `code` gives the number that the program reports.
#[derive(Clone, Copy, Debug, PartialEq, Eq)]
pub enum Error {
    Invalid,
    Unauthorized,
    WrongState,
    Duplicate,
    MutableProgram,
    Delay,
    Overflow,
}

impl Error {
    /// The custom program error code: variants are numbered from 1 in declaration order.
    pub open spec fn spec_code(self) -> u32 {
        match self {
            Error::Invalid => 1,
            Error::Unauthorized => 2,
            Error::WrongState => 3,
            Error::Duplicate => 4,
            Error::MutableProgram => 5,
            Error::Delay => 6,
            Error::Overflow => 7,
        }
    }

    pub fn code(&self) -> (c: u32)
        ensures
            c == self.spec_code(),
    {
        match self {
            Error::Invalid => 1,
            Error::Unauthorized => 2,
            Error::WrongState => 3,
            Error::Duplicate => 4,
            Error::MutableProgram => 5,
            Error::Delay => 6,
            Error::Overflow => 7,
        }
    }
}

/// `Ok(())` when `ok` holds, else the given error.
pub fn require(ok: bool, err: Error) -> (r: Result<(), Error>)
    ensures
        r == (if ok { Ok::<(), Error>(()) } else { Err(err) }),
{
    if ok {
        Ok(())
    } else {
        Err(err)
    }
}

/// The next value of a sequence counter; `Overflow` at the top of `u64`.
pub fn checked_next(value: u64) -> (r: Result<u64, Error>)
    ensures
        value < u64::MAX ==> r == Ok::<u64, Error>((value + 1) as u64),
        value == u64::MAX ==> r == Err::<u64, Error>(Error::Overflow),
{
    if value < u64::MAX {
        Ok(value + 1)
    } else {
        Err(Error::Overflow)
    }
}


/// The system program's id: 32 zero bytes.
pub const SYSTEM_PROGRAM: [u8; 32] = [
    0, 0, 0, 0, 0, 0, 0, 0, 0, 0, 0, 0, 0, 0, 0, 0, 0, 0, 0, 0, 0, 0, 0, 0, 0, 0, 0, 0, 0, 0, 0, 0,
];

/// The all-zero address: no successor.
pub const ZERO_KEY: [u8; 32] = [
    0, 0, 0, 0, 0, 0, 0, 0, 0, 0, 0, 0, 0, 0, 0, 0, 0, 0, 0, 0, 0, 0, 0, 0, 0, 0, 0, 0, 0, 0, 0, 0,
];

/// The id of the upgradeable BPF loader, `BPFLoaderUpgradeab1e11111111111111111111111`.
pub const BPF_LOADER_UPGRADEABLE: [u8; 32] = [
    2, 168, 246, 145, 78, 136, 161, 176, 226, 16, 21, 62, 247, 99, 174, 43, 0, 194, 185, 61, 22,
    193, 36, 210, 192, 83, 122, 16, 4, 128, 0, 0,
];

/// What the registry reads of one account passed to an instruction.
#[derive(Clone, Debug)]
pub struct AccountView {
    pub key: [u8; 32],
    pub owner: [u8; 32],
    pub lamports: u64,
    pub is_signer: bool,
    pub is_writable: bool,
    pub executable: bool,
    pub data: Vec<u8>,
}

/// The cluster clock as the instruction sees it.
#[derive(Clone, Copy, Debug, PartialEq, Eq)]
pub struct Clock {
    pub slot: u64,
    pub unix_timestamp: i64,
}

/// Why an instruction fails.
#[derive(Clone, Copy, Debug, PartialEq, Eq)]
pub enum Fault {
    /// A registry error, reported as its custom code.
    Program(Error),
    /// Fewer accounts than the instruction reads.
    MissingAccount,
}

/// One state change of a successful instruction; they are applied in order, and a
/// failing instruction applies none.
#[derive(Clone, Debug)]
pub enum Effect {
    /// Make `account` (system-owned and empty) a program-owned account holding `data`,
    /// paid by `payer`, signing for the address with `seeds` and `bump`.
    Create { account: usize, payer: usize, system: usize, seeds: Vec<Vec<u8>>, bump: u8, data: Vec<u8> },
    /// Overwrite the start of `account`'s data with `data`.
    Write { account: usize, data: Vec<u8> },
    /// Emit `data` as program log data.
    Log { data: Vec<u8> },
}

pub enum EffectModel {
    Create { account: usize, payer: usize, system: usize, seeds: Seq<Seq<u8>>, bump: u8, data: Seq<u8> },
    Write { account: usize, data: Seq<u8> },
    Log { data: Seq<u8> },
}

impl View for Effect {
    type V = EffectModel;

    open spec fn view(&self) -> EffectModel {
        match self {
            Effect::Create { account, payer, system, seeds, bump, data } => EffectModel::Create {
                account: *account,
                payer: *payer,
                system: *system,
                seeds: views(seeds@),
                bump: *bump,
                data: data@,
            },
            Effect::Write { account, data } => EffectModel::Write { account: *account, data: data@ },
            Effect::Log { data } => EffectModel::Log { data: data@ },
        }
    }
}

pub open spec fn effects_view(v: Seq<Effect>) -> Seq<EffectModel> {
    v.map_values(|e: Effect| e@)
}

pub open spec fn outcome(r: Result<Vec<Effect>, Fault>) -> Result<Seq<EffectModel>, Fault> {
    match r {
        Ok(v) => Ok(effects_view(v@)),
        Err(f) => Err(f),
    }
}

// ---------------------------------------------------------------- seeds

pub open spec fn zero32() -> Seq<u8> {
    Seq::new(32, |_i: int| 0u8)
}

pub open spec fn registry_seed() -> Seq<u8> {
    seq![114u8, 101, 103, 105, 115, 116, 114, 121]
}

pub open spec fn release_seed() -> Seq<u8> {
    seq![114u8, 101, 108, 101, 97, 115, 101]
}

pub open spec fn record_seed() -> Seq<u8> {
    seq![114u8, 101, 99, 111, 114, 100]
}

pub open spec fn instance_seed() -> Seq<u8> {
    seq![105u8, 110, 115, 116, 97, 110, 99, 101]
}

pub open spec fn business_seed() -> Seq<u8> {
    seq![98u8, 117, 115, 105, 110, 101, 115, 115]
}

pub open spec fn chance_release_seed() -> Seq<u8> {
    seq![99u8, 104, 97, 110, 99, 101, 45, 114, 101, 108, 101, 97, 115, 101]
}

/// Seeds of a registry namespace: `[registry, governance]`.
pub open spec fn registry_seeds(authority: Seq<u8>) -> Seq<Seq<u8>> {
    seq![registry_seed(), authority]
}

/// Seeds of a release: `[release, registry_config, target_program]`.
pub open spec fn release_seeds(config: Seq<u8>, program: Seq<u8>) -> Seq<Seq<u8>> {
    seq![release_seed(), config, program]
}

/// Seeds of a lifecycle record: `[record, registry_config, sequence_u64_le]`.
pub open spec fn record_seeds(config: Seq<u8>, sequence: u64) -> Seq<Seq<u8>> {
    seq![record_seed(), config, le64(sequence)]
}

/// Seeds of an inventory entry: `[instance, registry_config, sequence_u64_le]`.
pub open spec fn instance_seeds(config: Seq<u8>, sequence: u64) -> Seq<Seq<u8>> {
    seq![instance_seed(), config, le64(sequence)]
}

/// Seeds of a business key: `[business, registry_config, domain_byte, business_key]`.
pub open spec fn business_seeds(config: Seq<u8>, domain: u8, key: Seq<u8>) -> Seq<Seq<u8>> {
    seq![business_seed(), config, seq![domain], key]
}

/// Seeds of a domain program's release signer: `[chance-release, registry_config]`.
pub open spec fn signer_seeds(config: Seq<u8>) -> Seq<Seq<u8>> {
    seq![chance_release_seed(), config]
}

proof fn lemma_views2(v: Vec<Vec<u8>>, a: Seq<u8>, b: Seq<u8>)
    requires
        v@.len() == 2,
        v@[0]@ == a,
        v@[1]@ == b,
    ensures
        views(v@) == seq![a, b],
{
    assert(views(v@) =~= seq![a, b]);
}

proof fn lemma_views3(v: Vec<Vec<u8>>, a: Seq<u8>, b: Seq<u8>, c: Seq<u8>)
    requires
        v@.len() == 3,
        v@[0]@ == a,
        v@[1]@ == b,
        v@[2]@ == c,
    ensures
        views(v@) == seq![a, b, c],
{
    assert(views(v@) =~= seq![a, b, c]);
}

proof fn lemma_views4(v: Vec<Vec<u8>>, a: Seq<u8>, b: Seq<u8>, c: Seq<u8>, d: Seq<u8>)
    requires
        v@.len() == 4,
        v@[0]@ == a,
        v@[1]@ == b,
        v@[2]@ == c,
        v@[3]@ == d,
    ensures
        views(v@) == seq![a, b, c, d],
{
    assert(views(v@) =~= seq![a, b, c, d]);
}

pub fn make_registry_seeds(authority: &[u8; 32]) -> (r: Vec<Vec<u8>>)
    ensures
        views(r@) == registry_seeds(authority@),
{
    let mut r: Vec<Vec<u8>> = Vec::new();
    r.push(vec![114u8, 101, 103, 105, 115, 116, 114, 121]);
    r.push(vec32(authority));
    proof {
        assert(r@[0]@ =~= registry_seed());
        lemma_views2(r, registry_seed(), authority@);
    }
    r
}

pub fn make_release_seeds(config: &[u8; 32], program: &[u8; 32]) -> (r: Vec<Vec<u8>>)
    ensures
        views(r@) == release_seeds(config@, program@),
{
    let mut r: Vec<Vec<u8>> = Vec::new();
    r.push(vec![114u8, 101, 108, 101, 97, 115, 101]);
    r.push(vec32(config));
    r.push(vec32(program));
    proof {
        assert(r@[0]@ =~= release_seed());
        lemma_views3(r, release_seed(), config@, program@);
    }
    r
}

pub fn make_record_seeds(config: &[u8; 32], sequence: u64) -> (r: Vec<Vec<u8>>)
    ensures
        views(r@) == record_seeds(config@, sequence),
{
    let mut r: Vec<Vec<u8>> = Vec::new();
    r.push(vec![114u8, 101, 99, 111, 114, 100]);
    r.push(vec32(config));
    r.push(vstd::bytes::u64_to_le_bytes(sequence));
    proof {
        assert(r@[0]@ =~= record_seed());
        lemma_views3(r, record_seed(), config@, le64(sequence));
    }
    r
}

pub fn make_instance_seeds(config: &[u8; 32], sequence: u64) -> (r: Vec<Vec<u8>>)
    ensures
        views(r@) == instance_seeds(config@, sequence),
{
    let mut r: Vec<Vec<u8>> = Vec::new();
    r.push(vec![105u8, 110, 115, 116, 97, 110, 99, 101]);
    r.push(vec32(config));
    r.push(vstd::bytes::u64_to_le_bytes(sequence));
    proof {
        assert(r@[0]@ =~= instance_seed());
        lemma_views3(r, instance_seed(), config@, le64(sequence));
    }
    r
}

pub fn make_business_seeds(config: &[u8; 32], domain: u8, business_key: &[u8; 32]) -> (r: Vec<
    Vec<u8>,
>)
    ensures
        views(r@) == business_seeds(config@, domain, business_key@),
{
    let mut r: Vec<Vec<u8>> = Vec::new();
    r.push(vec![98u8, 117, 115, 105, 110, 101, 115, 115]);
    r.push(vec32(config));
    r.push(vec![domain]);
    r.push(vec32(business_key));
    proof {
        assert(r@[0]@ =~= business_seed());
        assert(r@[2]@ =~= seq![domain]);
        lemma_views4(r, business_seed(), config@, seq![domain], business_key@);
    }
    r
}

pub fn make_signer_seeds(config: &[u8; 32]) -> (r: Vec<Vec<u8>>)
    ensures
        views(r@) == signer_seeds(config@),
{
    let mut r: Vec<Vec<u8>> = Vec::new();
    r.push(vec![99u8, 104, 97, 110, 99, 101, 45, 114, 101, 108, 101, 97, 115, 101]);
    r.push(vec32(config));
    proof {
        assert(r@[0]@ =~= chance_release_seed());
        lemma_views2(r, chance_release_seed(), config@);
    }
    r
}


// ---------------------------------------------------------------- reading accounts

/// An account owned by `program` whose data starts with `tag` and decodes as a configuration.
pub open spec fn spec_read_config(program: Seq<u8>, ai: AccountView) -> Result<Config, Error> {
    if ai.owner@ != program {
        Err(Error::Invalid)
    } else if !(8 <= ai.data@.len() && ai.data@.subrange(0, 8) == CONFIG_TAG@) {
        Err(Error::Invalid)
    } else {
        match parse_config(ai.data@) {
            Some(c) => Ok(c),
            None => Err(Error::Invalid),
        }
    }
}

/// An account owned by `program` whose data starts with `tag` and decodes as a release.
pub open spec fn spec_read_release(program: Seq<u8>, ai: AccountView) -> Result<Release, Error> {
    if ai.owner@ != program {
        Err(Error::Invalid)
    } else if !(8 <= ai.data@.len() && ai.data@.subrange(0, 8) == RELEASE_TAG@) {
        Err(Error::Invalid)
    } else {
        match parse_release(ai.data@) {
            Some(r) => Ok(r),
            None => Err(Error::Invalid),
        }
    }
}

pub fn read_config(program: &[u8; 32], ai: &AccountView) -> (r: Result<Config, Error>)
    ensures
        r == spec_read_config(program@, *ai),
{
    if !eq32(&ai.owner, program) {
        return Err(Error::Invalid);
    }
    if !starts_with(ai.data.as_slice(), CONFIG_TAG.as_slice()) {
        return Err(Error::Invalid);
    }
    match decode_config(ai.data.as_slice()) {
        Some(c) => {
            proof {
                let d = choose|x: Config| config_bytes(x) == ai.data@;
                lemma_config_injective(c, d);
            }
            Ok(c)
        },
        None => Err(Error::Invalid),
    }
}

pub fn read_release(program: &[u8; 32], ai: &AccountView) -> (r: Result<Release, Error>)
    ensures
        r == spec_read_release(program@, *ai),
{
    if !eq32(&ai.owner, program) {
        return Err(Error::Invalid);
    }
    if !starts_with(ai.data.as_slice(), RELEASE_TAG.as_slice()) {
        return Err(Error::Invalid);
    }
    match decode_release(ai.data.as_slice()) {
        Some(x) => {
            proof {
                let d = choose|y: Release| release_bytes(y) == ai.data@;
                lemma_release_injective(x, d);
            }
            Ok(x)
        },
        None => Err(Error::Invalid),
    }
}

/// The registry configuration held by `ai`: schema 1, at the namespace address of its
/// governance authority.
pub open spec fn spec_config(program: Seq<u8>, ai: AccountView) -> Result<Config, Error> {
    match spec_read_config(program, ai) {
        Err(e) => Err(e),
        Ok(cfg) => if cfg.schema != SCHEMA {
            Err(Error::Invalid)
        } else {
            match spec_key(program, ai.key@, registry_seeds(cfg.authority@)) {
                Err(e) => Err(e),
                Ok(_) => Ok(cfg),
            }
        },
    }
}

pub fn config(program: &[u8; 32], ai: &AccountView) -> (r: Result<Config, Error>)
    ensures
        r == spec_config(program@, *ai),
{
    let cfg = read_config(program, ai)?;
    if cfg.schema != SCHEMA {
        return Err(Error::Invalid);
    }
    let seeds = make_registry_seeds(&cfg.authority);
    key(program, &ai.key, &seeds)?;
    Ok(cfg)
}

/// The release held by `ai`: it names the configuration `cfg` as its registry and sits at
/// the release address of its program.
pub open spec fn spec_release(program: Seq<u8>, cfg: AccountView, ai: AccountView) -> Result<
    Release,
    Error,
> {
    match spec_read_release(program, ai) {
        Err(e) => Err(e),
        Ok(rel) => if rel.registry@ != cfg.key@ {
            Err(Error::Invalid)
        } else {
            match spec_key(program, ai.key@, release_seeds(cfg.key@, rel.program@)) {
                Err(e) => Err(e),
                Ok(_) => Ok(rel),
            }
        },
    }
}

pub fn release(program: &[u8; 32], cfg: &AccountView, ai: &AccountView) -> (r: Result<
    Release,
    Error,
>)
    ensures
        r == spec_release(program@, *cfg, *ai),
{
    let rel = read_release(program, ai)?;
    if !eq32(&rel.registry, &cfg.key) {
        return Err(Error::Invalid);
    }
    let seeds = make_release_seeds(&cfg.key, &rel.program);
    key(program, &ai.key, &seeds)?;
    Ok(rel)
}

/// A signing actor that is the governance authority, or the guardian where allowed.
pub open spec fn spec_authorize(cfg: Config, actor: AccountView, guardian: bool) -> Result<
    (),
    Error,
> {
    if actor.is_signer && (actor.key@ == cfg.authority@ || (guardian && actor.key@
        == cfg.guardian@)) {
        Ok(())
    } else {
        Err(Error::Unauthorized)
    }
}

pub fn authorize(cfg: &Config, actor: &AccountView, guardian: bool) -> (r: Result<(), Error>)
    ensures
        r == spec_authorize(*cfg, *actor, guardian),
{
    if actor.is_signer && (eq32(&actor.key, &cfg.authority) || (guardian && eq32(
        &actor.key,
        &cfg.guardian,
    ))) {
        Ok(())
    } else {
        Err(Error::Unauthorized)
    }
}

// ---------------------------------------------------------------- creating and writing

pub open spec fn effect_outcome(r: Result<Effect, Error>) -> Result<EffectModel, Error> {
    match r {
        Ok(e) => Ok(e@),
        Err(x) => Err(x),
    }
}

/// Creation of the program-owned account `ai` at the address of `seeds`, holding `data`
/// and paid by `payer`. `taken` marks an account that this instruction already created.
pub open spec fn spec_create(
    program: Seq<u8>,
    accts: Seq<AccountView>,
    ai: usize,
    payer: usize,
    system: usize,
    seeds: Seq<Seq<u8>>,
    data: Seq<u8>,
    taken: bool,
) -> Result<EffectModel, Error> {
    let a = accts[ai as int];
    let p = accts[payer as int];
    if !(p.is_signer && p.is_writable && a.is_writable) {
        Err(Error::Unauthorized)
    } else if accts[system as int].key@ != SYSTEM_PROGRAM@ {
        Err(Error::Invalid)
    } else if !(a.owner@ == SYSTEM_PROGRAM@ && a.data@.len() == 0 && !taken) {
        Err(Error::Duplicate)
    } else {
        match spec_key(program, a.key@, seeds) {
            Err(e) => Err(e),
            Ok(bump) => Ok(EffectModel::Create { account: ai, payer, system, seeds, bump, data }),
        }
    }
}

pub fn create(
    program: &[u8; 32],
    accounts: &Vec<AccountView>,
    ai: usize,
    payer: usize,
    system: usize,
    seeds: Vec<Vec<u8>>,
    data: Vec<u8>,
    taken: bool,
) -> (r: Result<Effect, Error>)
    requires
        ai < accounts@.len(),
        payer < accounts@.len(),
        system < accounts@.len(),
    ensures
        effect_outcome(r) == spec_create(
            program@,
            accounts@,
            ai,
            payer,
            system,
            views(seeds@),
            data@,
            taken,
        ),
{
    let a = &accounts[ai];
    let p = &accounts[payer];
    if !(p.is_signer && p.is_writable && a.is_writable) {
        return Err(Error::Unauthorized);
    }
    if !eq32(&accounts[system].key, &SYSTEM_PROGRAM) {
        return Err(Error::Invalid);
    }
    if !(eq32(&a.owner, &SYSTEM_PROGRAM) && a.data.len() == 0 && !taken) {
        return Err(Error::Duplicate);
    }
    let bump = key(program, &a.key, &seeds)?;
    Ok(Effect::Create { account: ai, payer, system, seeds, bump, data })
}

/// Rewriting the start of `ai`'s data with `data`.
pub open spec fn spec_write(accts: Seq<AccountView>, ai: usize, data: Seq<u8>) -> Result<
    EffectModel,
    Error,
> {
    let a = accts[ai as int];
    if !a.is_writable || a.data@.len() < data.len() {
        Err(Error::Invalid)
    } else {
        Ok(EffectModel::Write { account: ai, data })
    }
}

pub fn write(accounts: &Vec<AccountView>, ai: usize, data: Vec<u8>) -> (r: Result<Effect, Error>)
    requires
        ai < accounts@.len(),
    ensures
        effect_outcome(r) == spec_write(accounts@, ai, data@),
{
    let a = &accounts[ai];
    if !a.is_writable || a.data.len() < data.len() {
        return Err(Error::Invalid);
    }
    Ok(Effect::Write { account: ai, data })
}

/// How a created account is funded, given its lamports and the rent-exempt minimum
/// for its size.
#[derive(Clone, Copy, Debug, PartialEq, Eq)]
pub enum Funding {
    /// The account holds no lamports: create it with the rent-exempt minimum.
    CreateAccount { lamports: u64 },
    /// The account was prefunded: transfer what is missing (nothing when `transfer` is 0),
    /// then allocate and assign it.
    TopUp { transfer: u64 },
}

/// Funding of a new account: a prefunded address is topped up and then allocated and
/// assigned, so a lamport donation cannot squat a canonical address.
pub fn funding(lamports: u64, rent: u64) -> (r: Funding)
    ensures
        lamports == 0 ==> r == (Funding::CreateAccount { lamports: rent }),
        lamports != 0 && lamports < rent ==> r == (Funding::TopUp {
            transfer: (rent - lamports) as u64,
        }),
        lamports != 0 && lamports >= rent ==> r == (Funding::TopUp { transfer: 0 }),
{
    if lamports == 0 {
        Funding::CreateAccount { lamports: rent }
    } else {
        Funding::TopUp { transfer: rent.saturating_sub(lamports) }
    }
}

} // verus!
