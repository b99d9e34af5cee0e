//! The registry program's instruction processing: decisions over the accounts it is
//! given, producing the account changes it makes.
use crate::bytes::{eq32, is_zero32, vec32, views};
use crate::codec::{
    business_key_bytes, config_bytes, decode_instruction, encode_business_key, encode_config,
    encode_instance, encode_record, encode_release, instance_bytes, instruction_bytes,
    instruction_encodable, le64, lemma_instruction_injective, parse_instruction, record_bytes,
    release_bytes,
};
use crate::hashing::{sha256v, solana_sha256v};
use crate::loader::{executable_digest, executable_hash, require_immutable, spec_require_immutable};
use crate::pda::{key, spec_key};
use crate::registry::{
    authorize, business_seeds, checked_next, config, create, instance_seeds, make_business_seeds,
    make_instance_seeds, make_record_seeds, make_registry_seeds, make_release_seeds,
    make_signer_seeds, record_seeds, registry_seeds, release, signer_seeds, spec_authorize,
    spec_config, spec_create, spec_release, spec_write, zero32, AccountView, Clock, Effect,
    EffectModel, Error, Fault, ZERO_KEY,
};
use crate::text::{has_content, not_blank};
use crate::wire::{
    BusinessKey, Config, Instance, Instruction, InstructionModel, Record, RecordModel, Release,
    ACTIVE, CONFIG_TAG, DAILY, DISCONTINUED, GIVEAWAY, INSTANCE_TAG, KEY_TAG, MAX_REASON, PAUSED,
    RECORD_TAG, REGISTERED, RELEASE_TAG, SCHEMA,
};
use vstd::prelude::*;
use vstd::utf8::encode_utf8;

verus! {

// ---------------------------------------------------------------- Initialize

/// The configuration that `Initialize` creates.
pub open spec fn initial_config(authority: [u8; 32], guardian: [u8; 32], activation_delay: u32) -> Config {
    Config {
        tag: CONFIG_TAG,
        schema: SCHEMA,
        authority,
        guardian,
        activation_delay,
        release_count: 0,
        record_count: 0,
        instance_count: 0,
    }
}

/// `Initialize`: accounts config, governance (signer, payer), system. The guardian must
/// be nonzero and the activation delay positive.
pub open spec fn spec_initialize(
    program: Seq<u8>,
    accts: Seq<AccountView>,
    guardian: [u8; 32],
    activation_delay: u32,
) -> Result<Seq<EffectModel>, Fault> {
    if accts.len() < 3 {
        Err(Fault::MissingAccount)
    } else if !(guardian@ != zero32() && activation_delay > 0) {
        Err(Fault::Program(Error::Invalid))
    } else {
        let cfg = initial_config(accts[1].key, guardian, activation_delay);
        match spec_create(
            program,
            accts,
            0,
            1,
            2,
            registry_seeds(accts[1].key@),
            config_bytes(cfg),
            false,
        ) {
            Err(e) => Err(Fault::Program(e)),
            Ok(e) => Ok(seq![e]),
        }
    }
}

fn initialize(
    program: &[u8; 32],
    accounts: &Vec<AccountView>,
    guardian: [u8; 32],
    activation_delay: u32,
) -> (r: Result<Vec<Effect>, Fault>)
    ensures
        crate::registry::outcome(r) == spec_initialize(program@, accounts@, guardian, activation_delay),
{
    if accounts.len() < 3 {
        return Err(Fault::MissingAccount);
    }
    if !(!is_zero32(&guardian) && activation_delay > 0) {
        return Err(Fault::Program(Error::Invalid));
    }
    let authority = accounts[1].key;
    let cfg = Config {
        tag: CONFIG_TAG,
        schema: SCHEMA,
        authority,
        guardian,
        activation_delay,
        release_count: 0,
        record_count: 0,
        instance_count: 0,
    };
    let seeds = make_registry_seeds(&authority);
    match create(program, accounts, 0, 1, 2, seeds, encode_config(&cfg), false) {
        Err(e) => Err(Fault::Program(e)),
        Ok(e) => {
            let mut v: Vec<Effect> = Vec::new();
            v.push(e);
            assert(crate::registry::effects_view(v@) =~= seq![e@]);
            Ok(v)
        },
    }
}


// ---------------------------------------------------------------- Register

/// `now + delay`, or `None` when it does not fit an `i64`.
pub open spec fn spec_after_delay(now: i64, delay: u32) -> Option<i64> {
    if now + delay <= i64::MAX {
        Some((now + delay) as i64)
    } else {
        None
    }
}

fn after_delay(now: i64, delay: u32) -> (r: Option<i64>)
    ensures
        r == spec_after_delay(now, delay),
{
    if now > i64::MAX - (delay as i64) {
        None
    } else {
        Some(now + delay as i64)
    }
}

/// The release that `Register` creates.
pub open spec fn registered_release(
    registry: [u8; 32],
    program: [u8; 32],
    domain: u8,
    series: [u8; 32],
    source_hash: [u8; 32],
    executable_hash: [u8; 32],
    sequence: u64,
    slot: u64,
    eligible_at: i64,
) -> Release {
    Release {
        tag: RELEASE_TAG,
        registry,
        program,
        domain,
        series,
        source_hash,
        executable_hash,
        sequence,
        registered_slot: slot,
        eligible_at,
        status: REGISTERED,
        successor: ZERO_KEY,
    }
}

/// `Register`: accounts config, release, governance (signer, payer), system, target
/// executable. Governance alone registers; the domain is daily or giveaway; series,
/// source and executable hashes are nonzero. The release gets the next release sequence
/// and may be activated once the activation delay has passed.
pub open spec fn spec_register(
    program: Seq<u8>,
    accts: Seq<AccountView>,
    cfg: Config,
    domain: u8,
    series: [u8; 32],
    source_hash: [u8; 32],
    executable_hash: [u8; 32],
    clock: Clock,
) -> Result<Seq<EffectModel>, Fault> {
    if accts.len() < 5 {
        Err(Fault::MissingAccount)
    } else if spec_authorize(cfg, accts[2], false) is Err {
        Err(Fault::Program(Error::Unauthorized))
    } else if !(accts[4].executable && (domain == DAILY || domain == GIVEAWAY) && series@ != zero32()
        && source_hash@ != zero32() && executable_hash@ != zero32()) {
        Err(Fault::Program(Error::Invalid))
    } else if cfg.release_count == u64::MAX {
        Err(Fault::Program(Error::Overflow))
    } else {
        let n = (cfg.release_count + 1) as u64;
        match spec_after_delay(clock.unix_timestamp, cfg.activation_delay) {
            None => Err(Fault::Program(Error::Overflow)),
            Some(eligible_at) => {
                let rel = registered_release(
                    accts[0].key,
                    accts[4].key,
                    domain,
                    series,
                    source_hash,
                    executable_hash,
                    n,
                    clock.slot,
                    eligible_at,
                );
                match spec_create(
                    program,
                    accts,
                    1,
                    2,
                    3,
                    crate::registry::release_seeds(accts[0].key@, accts[4].key@),
                    release_bytes(rel),
                    false,
                ) {
                    Err(e) => Err(Fault::Program(e)),
                    Ok(e1) => match spec_write(
                        accts,
                        0,
                        config_bytes(Config { release_count: n, ..cfg }),
                    ) {
                        Err(e) => Err(Fault::Program(e)),
                        Ok(e2) => Ok(seq![e1, e2]),
                    },
                }
            },
        }
    }
}

fn register(
    program: &[u8; 32],
    accounts: &Vec<AccountView>,
    cfg: Config,
    domain: u8,
    series: [u8; 32],
    source_hash: [u8; 32],
    executable_hash: [u8; 32],
    clock: &Clock,
) -> (r: Result<Vec<Effect>, Fault>)
    requires
        accounts@.len() >= 3,
    ensures
        crate::registry::outcome(r) == spec_register(
            program@,
            accounts@,
            cfg,
            domain,
            series,
            source_hash,
            executable_hash,
            *clock,
        ),
{
    if accounts.len() < 5 {
        return Err(Fault::MissingAccount);
    }
    if let Err(e) = authorize(&cfg, &accounts[2], false) {
        return Err(Fault::Program(e));
    }
    if !(accounts[4].executable && (domain == DAILY || domain == GIVEAWAY) && !is_zero32(&series)
        && !is_zero32(&source_hash) && !is_zero32(&executable_hash)) {
        return Err(Fault::Program(Error::Invalid));
    }
    let n = match checked_next(cfg.release_count) {
        Ok(n) => n,
        Err(e) => return Err(Fault::Program(e)),
    };
    let eligible_at = match after_delay(clock.unix_timestamp, cfg.activation_delay) {
        Some(t) => t,
        None => return Err(Fault::Program(Error::Overflow)),
    };
    let rel = Release {
        tag: RELEASE_TAG,
        registry: accounts[0].key,
        program: accounts[4].key,
        domain,
        series,
        source_hash,
        executable_hash,
        sequence: n,
        registered_slot: clock.slot,
        eligible_at,
        status: REGISTERED,
        successor: ZERO_KEY,
    };
    assert(rel == registered_release(
        accounts@[0].key,
        accounts@[4].key,
        domain,
        series,
        source_hash,
        executable_hash,
        n,
        clock.slot,
        eligible_at,
    ));
    let seeds = make_release_seeds(&accounts[0].key, &accounts[4].key);
    let e1 = match create(program, accounts, 1, 2, 3, seeds, encode_release(&rel), false) {
        Ok(e) => e,
        Err(e) => return Err(Fault::Program(e)),
    };
    let new_cfg = Config { release_count: n, ..cfg };
    let e2 = match crate::registry::write(accounts, 0, encode_config(&new_cfg)) {
        Ok(e) => e,
        Err(e) => return Err(Fault::Program(e)),
    };
    let mut v: Vec<Effect> = Vec::new();
    v.push(e1);
    v.push(e2);
    assert(crate::registry::effects_view(v@) =~= seq![e1@, e2@]);
    Ok(v)
}


// ---------------------------------------------------------------- business keys

/// `chance-daily-key-v1`
pub open spec fn daily_key_prefix() -> Seq<u8> {
    seq![99u8, 104, 97, 110, 99, 101, 45, 100, 97, 105, 108, 121, 45, 107, 101, 121, 45, 118, 49]
}

/// `chance-giveaway-key-v1`
pub open spec fn giveaway_key_prefix() -> Seq<u8> {
    seq![
        99u8, 104, 97, 110, 99, 101, 45, 103, 105, 118, 101, 97, 119, 97, 121, 45, 107, 101, 121,
        45, 118, 49,
    ]
}

/// The canonical business key of an instance: for a daily release the SHA-256 of
/// `chance-daily-key-v1 || series || day_u64_le`, otherwise of
/// `chance-giveaway-key-v1 || creator || nonce_u64_le`.
pub open spec fn spec_business_key(release: Release, creator: Seq<u8>, day_or_nonce: u64) -> Seq<u8> {
    if release.domain == DAILY {
        solana_sha256v(seq![daily_key_prefix(), release.series@, le64(day_or_nonce)])
    } else {
        solana_sha256v(seq![giveaway_key_prefix(), creator, le64(day_or_nonce)])
    }
}

pub fn business_key(release: &Release, creator: &[u8], day_or_nonce: u64) -> (r: [u8; 32])
    ensures
        r@ == spec_business_key(*release, creator@, day_or_nonce),
{
    let index = vstd::bytes::u64_to_le_bytes(day_or_nonce);
    let mut pieces: Vec<Vec<u8>> = Vec::new();
    if release.domain == DAILY {
        pieces.push(
            vec![99u8, 104, 97, 110, 99, 101, 45, 100, 97, 105, 108, 121, 45, 107, 101, 121, 45, 118, 49],
        );
        pieces.push(vec32(&release.series));
        pieces.push(index);
        proof {
            assert(pieces@[0]@ =~= daily_key_prefix());
            assert(views(pieces@) =~= seq![daily_key_prefix(), release.series@, le64(day_or_nonce)]);
        }
    } else {
        pieces.push(
            vec![
                99u8, 104, 97, 110, 99, 101, 45, 103, 105, 118, 101, 97, 119, 97, 121, 45, 107,
                101, 121, 45, 118, 49,
            ],
        );
        pieces.push(vstd::slice::slice_to_vec(creator));
        pieces.push(index);
        proof {
            assert(pieces@[0]@ =~= giveaway_key_prefix());
            assert(views(pieces@) =~= seq![giveaway_key_prefix(), creator@, le64(day_or_nonce)]);
        }
    }
    sha256v(&pieces)
}

/// The 32-byte array holding `s`.
pub open spec fn key_array(s: Seq<u8>) -> [u8; 32] {
    choose|a: [u8; 32]| a@ == s
}

pub proof fn lemma_key_array(a: [u8; 32], s: Seq<u8>)
    requires
        a@ == s,
    ensures
        key_array(s) == a,
{
    let b = key_array(s);
    assert(b@ == s);
    assert(a =~= b);
}

// ---------------------------------------------------------------- RecordInstance

/// The inventory entry that `RecordInstance` creates.
pub open spec fn new_instance(
    registry: [u8; 32],
    sequence: u64,
    release: [u8; 32],
    owner_program: [u8; 32],
    instance: [u8; 32],
    creator: [u8; 32],
    business_key: [u8; 32],
    rules_hash: [u8; 32],
    slot: u64,
) -> Instance {
    Instance {
        tag: INSTANCE_TAG,
        registry,
        sequence,
        release,
        owner_program,
        instance,
        creator,
        business_key,
        rules_hash,
        created_slot: slot,
    }
}

/// `RecordInstance`, a call from a domain program: accounts config, release, the owner
/// program's release signer, instance, creator (signer), payer (signer), system, new
/// inventory entry, business key. The release must be active, the signer must be the
/// owner program's `[chance-release, config]` address and sign, the instance must be a
/// non-empty account of the owner program and the rules hash nonzero. The business key
/// account is created first (so a repeated key fails as a duplicate), then the entry
/// with the next instance sequence; the entry is also logged.
pub open spec fn spec_record_instance(
    program: Seq<u8>,
    accts: Seq<AccountView>,
    cfg: Config,
    rel: Release,
    day_or_nonce: u64,
    rules_hash: [u8; 32],
    clock: Clock,
) -> Result<Seq<EffectModel>, Fault> {
    if accts.len() < 9 {
        Err(Fault::MissingAccount)
    } else if rel.status != ACTIVE {
        Err(Fault::Program(Error::WrongState))
    } else if spec_key(rel.program@, accts[2].key@, signer_seeds(accts[0].key@)) is Err {
        Err(Fault::Program(Error::Invalid))
    } else if !(accts[2].is_signer && accts[4].is_signer && accts[3].owner@ == rel.program@
        && accts[3].data@.len() != 0 && rules_hash@ != zero32()) {
        Err(Fault::Program(Error::Unauthorized))
    } else if cfg.instance_count == u64::MAX {
        Err(Fault::Program(Error::Overflow))
    } else {
        let n = (cfg.instance_count + 1) as u64;
        let bkey = key_array(spec_business_key(rel, accts[4].key@, day_or_nonce));
        let entry = new_instance(
            accts[0].key,
            n,
            accts[1].key,
            rel.program,
            accts[3].key,
            accts[4].key,
            bkey,
            rules_hash,
            clock.slot,
        );
        match spec_create(
            program,
            accts,
            8,
            5,
            6,
            business_seeds(accts[0].key@, rel.domain, bkey@),
            business_key_bytes(BusinessKey { tag: KEY_TAG, entry: accts[7].key }),
            false,
        ) {
            Err(e) => Err(Fault::Program(e)),
            Ok(e1) => match spec_create(
                program,
                accts,
                7,
                5,
                6,
                instance_seeds(accts[0].key@, n),
                instance_bytes(entry),
                accts[7].key@ == accts[8].key@,
            ) {
                Err(e) => Err(Fault::Program(e)),
                Ok(e2) => match spec_write(
                    accts,
                    0,
                    config_bytes(Config { instance_count: n, ..cfg }),
                ) {
                    Err(e) => Err(Fault::Program(e)),
                    Ok(e3) => Ok(seq![e1, e2, e3, EffectModel::Log { data: instance_bytes(entry) }]),
                },
            },
        }
    }
}

fn record_instance(
    program: &[u8; 32],
    accounts: &Vec<AccountView>,
    cfg: Config,
    rel: Release,
    day_or_nonce: u64,
    rules_hash: [u8; 32],
    clock: &Clock,
) -> (r: Result<Vec<Effect>, Fault>)
    requires
        accounts@.len() >= 3,
    ensures
        crate::registry::outcome(r) == spec_record_instance(
            program@,
            accounts@,
            cfg,
            rel,
            day_or_nonce,
            rules_hash,
            *clock,
        ),
{
    if accounts.len() < 9 {
        return Err(Fault::MissingAccount);
    }
    if rel.status != ACTIVE {
        return Err(Fault::Program(Error::WrongState));
    }
    let signer_seeds = make_signer_seeds(&accounts[0].key);
    if let Err(e) = key(&rel.program, &accounts[2].key, &signer_seeds) {
        return Err(Fault::Program(e));
    }
    if !(accounts[2].is_signer && accounts[4].is_signer && eq32(&accounts[3].owner, &rel.program)
        && accounts[3].data.len() != 0 && !is_zero32(&rules_hash)) {
        return Err(Fault::Program(Error::Unauthorized));
    }
    let bkey = business_key(&rel, accounts[4].key.as_slice(), day_or_nonce);
    proof {
        lemma_key_array(bkey, spec_business_key(rel, accounts@[4].key@, day_or_nonce));
    }
    let n = match checked_next(cfg.instance_count) {
        Ok(n) => n,
        Err(e) => return Err(Fault::Program(e)),
    };
    let entry = Instance {
        tag: INSTANCE_TAG,
        registry: accounts[0].key,
        sequence: n,
        release: accounts[1].key,
        owner_program: rel.program,
        instance: accounts[3].key,
        creator: accounts[4].key,
        business_key: bkey,
        rules_hash,
        created_slot: clock.slot,
    };
    let marker = BusinessKey { tag: KEY_TAG, entry: accounts[7].key };
    let seeds1 = make_business_seeds(&accounts[0].key, rel.domain, &bkey);
    let e1 = match create(program, accounts, 8, 5, 6, seeds1, encode_business_key(&marker), false) {
        Ok(e) => e,
        Err(e) => return Err(Fault::Program(e)),
    };
    let taken = eq32(&accounts[7].key, &accounts[8].key);
    let seeds2 = make_instance_seeds(&accounts[0].key, n);
    let e2 = match create(program, accounts, 7, 5, 6, seeds2, encode_instance(&entry), taken) {
        Ok(e) => e,
        Err(e) => return Err(Fault::Program(e)),
    };
    let new_cfg = Config { instance_count: n, ..cfg };
    let e3 = match crate::registry::write(accounts, 0, encode_config(&new_cfg)) {
        Ok(e) => e,
        Err(e) => return Err(Fault::Program(e)),
    };
    let e4 = Effect::Log { data: encode_instance(&entry) };
    let mut v: Vec<Effect> = Vec::new();
    v.push(e1);
    v.push(e2);
    v.push(e3);
    v.push(e4);
    assert(crate::registry::effects_view(v@) =~= seq![e1@, e2@, e3@, e4@]);
    Ok(v)
}


// ---------------------------------------------------------------- lifecycle

/// A lifecycle reason: some character that is not whitespace, at most 384 UTF-8 bytes.
pub open spec fn reason_ok(reason: Seq<char>) -> bool {
    has_content(reason) && encode_utf8(reason).len() <= MAX_REASON
}

pub fn validate_reason(reason: &str) -> (r: Result<(), Error>)
    ensures
        r == (if reason_ok(reason@) {
            Ok::<(), Error>(())
        } else {
            Err(Error::Invalid)
        }),
{
    let n = reason.as_bytes().len();
    if n <= MAX_REASON && not_blank(reason) {
        Ok(())
    } else {
        Err(Error::Invalid)
    }
}

/// The release after a lifecycle instruction, and its reason.
/// Activate (governance): from registered or paused, once `eligible_at` has passed, with
/// the target and the registry itself immutable and the target's executable digest equal
/// to the registered hash. Pause (governance or guardian): from active; eligibility moves
/// to a full activation delay from now. Discontinue (governance or guardian): from any
/// status but discontinued. SetSuccessor (governance): on a discontinued release, naming a
/// later release of the same domain and series.
pub open spec fn spec_transition(
    program: Seq<u8>,
    accts: Seq<AccountView>,
    cfg: Config,
    rel: Release,
    ix: InstructionModel,
    clock: Clock,
) -> Result<(Release, Seq<char>), Fault> {
    match ix {
        InstructionModel::Activate { reason } => {
            if spec_authorize(cfg, accts[2], false) is Err {
                Err(Fault::Program(Error::Unauthorized))
            } else if !(rel.status == REGISTERED || rel.status == PAUSED) {
                Err(Fault::Program(Error::WrongState))
            } else if clock.unix_timestamp < rel.eligible_at {
                Err(Fault::Program(Error::Delay))
            } else if accts.len() < 9 {
                Err(Fault::MissingAccount)
            } else if !(accts[5].key@ == rel.program@ && accts[7].key@ == program) {
                Err(Fault::Program(Error::Invalid))
            } else {
                match spec_require_immutable(accts[5], accts[6]) {
                    Err(e) => Err(Fault::Program(e)),
                    Ok(_) => if executable_digest(accts[6].data@) != rel.executable_hash@ {
                        Err(Fault::Program(Error::Invalid))
                    } else {
                        match spec_require_immutable(accts[7], accts[8]) {
                            Err(e) => Err(Fault::Program(e)),
                            Ok(_) => Ok((Release { status: ACTIVE, ..rel }, reason)),
                        }
                    },
                }
            }
        },
        InstructionModel::Pause { reason } => {
            if spec_authorize(cfg, accts[2], true) is Err {
                Err(Fault::Program(Error::Unauthorized))
            } else if rel.status != ACTIVE {
                Err(Fault::Program(Error::WrongState))
            } else {
                match spec_after_delay(clock.unix_timestamp, cfg.activation_delay) {
                    None => Err(Fault::Program(Error::Overflow)),
                    Some(t) => Ok((Release { status: PAUSED, eligible_at: t, ..rel }, reason)),
                }
            }
        },
        InstructionModel::Discontinue { reason } => {
            if spec_authorize(cfg, accts[2], true) is Err {
                Err(Fault::Program(Error::Unauthorized))
            } else if rel.status == DISCONTINUED {
                Err(Fault::Program(Error::WrongState))
            } else {
                Ok((Release { status: DISCONTINUED, ..rel }, reason))
            }
        },
        InstructionModel::SetSuccessor { reason } => {
            if spec_authorize(cfg, accts[2], false) is Err {
                Err(Fault::Program(Error::Unauthorized))
            } else if rel.status != DISCONTINUED {
                Err(Fault::Program(Error::WrongState))
            } else if accts.len() < 6 {
                Err(Fault::MissingAccount)
            } else {
                match spec_release(program, accts[0], accts[5]) {
                    Err(e) => Err(Fault::Program(e)),
                    Ok(next) => if !(next.sequence > rel.sequence && next.domain == rel.domain
                        && next.series@ == rel.series@) {
                        Err(Fault::Program(Error::Invalid))
                    } else {
                        Ok((Release { successor: accts[5].key, ..rel }, reason))
                    },
                }
            }
        },
        _ => Err(Fault::Program(Error::Invalid)),
    }
}

/// The record that a lifecycle change appends.
pub open spec fn new_record(
    registry: [u8; 32],
    sequence: u64,
    release: [u8; 32],
    actor: [u8; 32],
    clock: Clock,
    rel: Release,
    reason: Seq<char>,
) -> RecordModel {
    RecordModel {
        tag: RECORD_TAG,
        registry,
        sequence,
        release,
        actor,
        slot: clock.slot,
        timestamp: clock.unix_timestamp,
        status: rel.status,
        successor: rel.successor,
        reason,
    }
}

/// A lifecycle instruction: accounts config, release, actor (signer, payer), system, new
/// record, then what the change itself reads. After the transition, the reason is
/// checked, a permanent record with the next record sequence is created, the release and
/// the configuration are rewritten and the record is logged.
pub open spec fn spec_lifecycle(
    program: Seq<u8>,
    accts: Seq<AccountView>,
    cfg: Config,
    rel: Release,
    ix: InstructionModel,
    clock: Clock,
) -> Result<Seq<EffectModel>, Fault> {
    if accts.len() < 5 {
        Err(Fault::MissingAccount)
    } else {
        match spec_transition(program, accts, cfg, rel, ix, clock) {
            Err(f) => Err(f),
            Ok((rel2, reason)) => if !reason_ok(reason) {
                Err(Fault::Program(Error::Invalid))
            } else if cfg.record_count == u64::MAX {
                Err(Fault::Program(Error::Overflow))
            } else {
                let n = (cfg.record_count + 1) as u64;
                let rec = new_record(
                    accts[0].key,
                    n,
                    accts[1].key,
                    accts[2].key,
                    clock,
                    rel2,
                    reason,
                );
                match spec_create(
                    program,
                    accts,
                    4,
                    2,
                    3,
                    record_seeds(accts[0].key@, n),
                    record_bytes(rec),
                    false,
                ) {
                    Err(e) => Err(Fault::Program(e)),
                    Ok(e1) => match spec_write(accts, 1, release_bytes(rel2)) {
                        Err(e) => Err(Fault::Program(e)),
                        Ok(e2) => match spec_write(
                            accts,
                            0,
                            config_bytes(Config { record_count: n, ..cfg }),
                        ) {
                            Err(e) => Err(Fault::Program(e)),
                            Ok(e3) => Ok(seq![e1, e2, e3, EffectModel::Log { data: record_bytes(rec) }]),
                        },
                    },
                }
            },
        }
    }
}

fn transition(
    program: &[u8; 32],
    accounts: &Vec<AccountView>,
    cfg: &Config,
    rel: Release,
    ix: Instruction,
    clock: &Clock,
) -> (r: Result<(Release, String), Fault>)
    requires
        accounts@.len() >= 5,
    ensures
        match r {
            Ok((rel2, reason)) => spec_transition(program@, accounts@, *cfg, rel, ix@, *clock) == Ok::<
                (Release, Seq<char>),
                Fault,
            >((rel2, reason@)),
            Err(f) => spec_transition(program@, accounts@, *cfg, rel, ix@, *clock) == Err::<
                (Release, Seq<char>),
                Fault,
            >(f),
        },
{
    match ix {
        Instruction::Activate { reason } => {
            if authorize(cfg, &accounts[2], false).is_err() {
                return Err(Fault::Program(Error::Unauthorized));
            }
            if !(rel.status == REGISTERED || rel.status == PAUSED) {
                return Err(Fault::Program(Error::WrongState));
            }
            if clock.unix_timestamp < rel.eligible_at {
                return Err(Fault::Program(Error::Delay));
            }
            if accounts.len() < 9 {
                return Err(Fault::MissingAccount);
            }
            if !(eq32(&accounts[5].key, &rel.program) && eq32(&accounts[7].key, program)) {
                return Err(Fault::Program(Error::Invalid));
            }
            if let Err(e) = require_immutable(&accounts[5], &accounts[6]) {
                return Err(Fault::Program(e));
            }
            let digest = executable_hash(accounts[6].data.as_slice());
            if !eq32(&digest, &rel.executable_hash) {
                return Err(Fault::Program(Error::Invalid));
            }
            if let Err(e) = require_immutable(&accounts[7], &accounts[8]) {
                return Err(Fault::Program(e));
            }
            Ok((Release { status: ACTIVE, ..rel }, reason))
        },
        Instruction::Pause { reason } => {
            if authorize(cfg, &accounts[2], true).is_err() {
                return Err(Fault::Program(Error::Unauthorized));
            }
            if rel.status != ACTIVE {
                return Err(Fault::Program(Error::WrongState));
            }
            match after_delay(clock.unix_timestamp, cfg.activation_delay) {
                None => Err(Fault::Program(Error::Overflow)),
                Some(t) => Ok((Release { status: PAUSED, eligible_at: t, ..rel }, reason)),
            }
        },
        Instruction::Discontinue { reason } => {
            if authorize(cfg, &accounts[2], true).is_err() {
                return Err(Fault::Program(Error::Unauthorized));
            }
            if rel.status == DISCONTINUED {
                return Err(Fault::Program(Error::WrongState));
            }
            Ok((Release { status: DISCONTINUED, ..rel }, reason))
        },
        Instruction::SetSuccessor { reason } => {
            if authorize(cfg, &accounts[2], false).is_err() {
                return Err(Fault::Program(Error::Unauthorized));
            }
            if rel.status != DISCONTINUED {
                return Err(Fault::Program(Error::WrongState));
            }
            if accounts.len() < 6 {
                return Err(Fault::MissingAccount);
            }
            let next = match release(program, &accounts[0], &accounts[5]) {
                Ok(x) => x,
                Err(e) => return Err(Fault::Program(e)),
            };
            if !(next.sequence > rel.sequence && next.domain == rel.domain && eq32(
                &next.series,
                &rel.series,
            )) {
                return Err(Fault::Program(Error::Invalid));
            }
            Ok((Release { successor: accounts[5].key, ..rel }, reason))
        },
        _ => Err(Fault::Program(Error::Invalid)),
    }
}

fn lifecycle(
    program: &[u8; 32],
    accounts: &Vec<AccountView>,
    cfg: Config,
    rel: Release,
    ix: Instruction,
    clock: &Clock,
) -> (r: Result<Vec<Effect>, Fault>)
    requires
        accounts@.len() >= 3,
    ensures
        crate::registry::outcome(r) == spec_lifecycle(program@, accounts@, cfg, rel, ix@, *clock),
{
    if accounts.len() < 5 {
        return Err(Fault::MissingAccount);
    }
    let (rel2, reason) = transition(program, accounts, &cfg, rel, ix, clock)?;
    if let Err(e) = validate_reason(reason.as_str()) {
        return Err(Fault::Program(e));
    }
    let n = match checked_next(cfg.record_count) {
        Ok(n) => n,
        Err(e) => return Err(Fault::Program(e)),
    };
    let rec = Record {
        tag: RECORD_TAG,
        registry: accounts[0].key,
        sequence: n,
        release: accounts[1].key,
        actor: accounts[2].key,
        slot: clock.slot,
        timestamp: clock.unix_timestamp,
        status: rel2.status,
        successor: rel2.successor,
        reason,
    };
    let ghost model = new_record(
        accounts@[0].key,
        n,
        accounts@[1].key,
        accounts@[2].key,
        *clock,
        rel2,
        rec.reason@,
    );
    assert(rec@ == model);
    let bytes = match encode_record(&rec) {
        Some(b) => b,
        None => return Err(Fault::Program(Error::Invalid)),
    };
    let seeds = make_record_seeds(&accounts[0].key, n);
    let logged = bytes.clone();
    let e1 = match create(program, accounts, 4, 2, 3, seeds, bytes, false) {
        Ok(e) => e,
        Err(e) => return Err(Fault::Program(e)),
    };
    let e2 = match crate::registry::write(accounts, 1, encode_release(&rel2)) {
        Ok(e) => e,
        Err(e) => return Err(Fault::Program(e)),
    };
    let new_cfg = Config { record_count: n, ..cfg };
    let e3 = match crate::registry::write(accounts, 0, encode_config(&new_cfg)) {
        Ok(e) => e,
        Err(e) => return Err(Fault::Program(e)),
    };
    let e4 = Effect::Log { data: logged };
    let mut v: Vec<Effect> = Vec::new();
    v.push(e1);
    v.push(e2);
    v.push(e3);
    v.push(e4);
    assert(crate::registry::effects_view(v@) =~= seq![e1@, e2@, e3@, e4@]);
    Ok(v)
}


// ---------------------------------------------------------------- the program

/// What the registry does with an instruction: decode it (else `Invalid`), then read the
/// configuration (except for `Initialize`), the release (except for `Register`) and
/// hand over to the instruction's own rules.
pub open spec fn spec_process(
    program: Seq<u8>,
    accts: Seq<AccountView>,
    input: Seq<u8>,
    clock: Clock,
) -> Result<Seq<EffectModel>, Fault> {
    match parse_instruction(input) {
        None => Err(Fault::Program(Error::Invalid)),
        Some(ix) => if accts.len() < 1 {
            Err(Fault::MissingAccount)
        } else {
            match ix {
                InstructionModel::Initialize { guardian, activation_delay } => spec_initialize(
                    program,
                    accts,
                    guardian,
                    activation_delay,
                ),
                _ => match spec_config(program, accts[0]) {
                    Err(e) => Err(Fault::Program(e)),
                    Ok(cfg) => if accts.len() < 3 {
                        Err(Fault::MissingAccount)
                    } else {
                        match ix {
                            InstructionModel::Register {
                                domain,
                                series,
                                source_hash,
                                executable_hash,
                            } => spec_register(
                                program,
                                accts,
                                cfg,
                                domain,
                                series,
                                source_hash,
                                executable_hash,
                                clock,
                            ),
                            _ => match spec_release(program, accts[0], accts[1]) {
                                Err(e) => Err(Fault::Program(e)),
                                Ok(rel) => match ix {
                                    InstructionModel::RecordInstance { day_or_nonce, rules_hash } =>
                                        spec_record_instance(
                                        program,
                                        accts,
                                        cfg,
                                        rel,
                                        day_or_nonce,
                                        rules_hash,
                                        clock,
                                    ),
                                    _ => spec_lifecycle(program, accts, cfg, rel, ix, clock),
                                },
                            },
                        }
                    },
                },
            }
        },
    }
}

/// Processes one registry instruction: what it changes, in order, or why it fails.
pub fn process_instruction(
    program_id: &[u8; 32],
    accounts: &Vec<AccountView>,
    input: &[u8],
    clock: &Clock,
) -> (r: Result<Vec<Effect>, Fault>)
    ensures
        crate::registry::outcome(r) == spec_process(program_id@, accounts@, input@, *clock),
{
    let ix = match decode_instruction(input) {
        Some(ix) => ix,
        None => return Err(Fault::Program(Error::Invalid)),
    };
    proof {
        let m = choose|m: InstructionModel| instruction_encodable(m) && instruction_bytes(m) == input@;
        lemma_instruction_injective(ix@, m);
        assert(parse_instruction(input@) == Some(ix@));
    }
    if accounts.len() < 1 {
        return Err(Fault::MissingAccount);
    }
    if let Instruction::Initialize { guardian, activation_delay } = ix {
        return initialize(program_id, accounts, guardian, activation_delay);
    }
    let cfg = match config(program_id, &accounts[0]) {
        Ok(c) => c,
        Err(e) => return Err(Fault::Program(e)),
    };
    if accounts.len() < 3 {
        return Err(Fault::MissingAccount);
    }
    if let Instruction::Register { domain, series, source_hash, executable_hash } = ix {
        return register(
            program_id,
            accounts,
            cfg,
            domain,
            series,
            source_hash,
            executable_hash,
            clock,
        );
    }
    let rel = match release(program_id, &accounts[0], &accounts[1]) {
        Ok(r) => r,
        Err(e) => return Err(Fault::Program(e)),
    };
    if let Instruction::RecordInstance { day_or_nonce, rules_hash } = ix {
        return record_instance(program_id, accounts, cfg, rel, day_or_nonce, rules_hash, clock);
    }
    lifecycle(program_id, accounts, cfg, rel, ix, clock)
}

} // verus!
