//! Properties of the registry that hold across its functions and instructions.
use crate::codec::{
    business_key_bytes, config_bytes, instance_bytes, instruction_bytes, instruction_encodable,
    lemma_business_key_injective, lemma_config_injective, lemma_instance_injective,
    instruction_reason, lemma_instruction_injective, lemma_record_injective,
    lemma_release_injective,
    parse_business_key, parse_config, parse_instance, parse_instruction, parse_record,
    parse_release, record_bytes, release_bytes, str_encodable,
};
use crate::loader::spec_require_immutable;
use crate::processor::{
    initial_config, key_array, new_instance, new_record, reason_ok, registered_release,
    spec_business_key, spec_initialize, spec_lifecycle, spec_record_instance, spec_register,
    spec_process, spec_transition,
};
use crate::registry::{
    business_seeds, instance_seeds, record_seeds, registry_seeds, release_seeds, signer_seeds,
    spec_config, spec_create, spec_release, zero32, AccountView, Clock, EffectModel, Fault, SYSTEM_PROGRAM,
};
use crate::wire::{
    BusinessKey, Config, Instance, InstructionModel, RecordModel, Release, ACTIVE, CONFIG_TAG, DAILY,
    DISCONTINUED, GIVEAWAY, INSTANCE_TAG, KEY_TAG, PAUSED, RECORD_TAG, REGISTERED, RELEASE_TAG,
    SCHEMA,
};
use vstd::prelude::*;

verus! {

// ---------------------------------------------------------------- the wire schema

/// Decoding a configuration's bytes gives back that configuration.
pub proof fn law_config_roundtrip(c: Config)
    ensures
        parse_config(config_bytes(c)) == Some(c),
{
    let d = choose|x: Config| config_bytes(x) == config_bytes(c);
    lemma_config_injective(c, d);
}

/// Decoding a release's bytes gives back that release.
pub proof fn law_release_roundtrip(r: Release)
    ensures
        parse_release(release_bytes(r)) == Some(r),
{
    let d = choose|x: Release| release_bytes(x) == release_bytes(r);
    lemma_release_injective(r, d);
}

/// Decoding an inventory entry's bytes gives back that entry.
pub proof fn law_instance_roundtrip(i: Instance)
    ensures
        parse_instance(instance_bytes(i)) == Some(i),
{
    let d = choose|x: Instance| instance_bytes(x) == instance_bytes(i);
    lemma_instance_injective(i, d);
}

/// Decoding a business-key account's bytes gives back that account.
pub proof fn law_business_key_roundtrip(k: BusinessKey)
    ensures
        parse_business_key(business_key_bytes(k)) == Some(k),
{
    let d = choose|x: BusinessKey| business_key_bytes(x) == business_key_bytes(k);
    lemma_business_key_injective(k, d);
}

/// Decoding a record's bytes gives back that record, when its reason fits the prefix.
pub proof fn law_record_roundtrip(r: RecordModel)
    requires
        str_encodable(r.reason),
    ensures
        parse_record(record_bytes(r)) == Some(r),
{
    let d = choose|x: RecordModel| str_encodable(x.reason) && record_bytes(x) == record_bytes(r);
    lemma_record_injective(r, d);
}

/// Decoding an instruction's bytes gives back that instruction, when its reason fits.
pub proof fn law_instruction_roundtrip(ix: InstructionModel)
    requires
        instruction_encodable(ix),
    ensures
        parse_instruction(instruction_bytes(ix)) == Some(ix),
{
    let d = choose|x: InstructionModel|
        instruction_encodable(x) && instruction_bytes(x) == instruction_bytes(ix);
    lemma_instruction_injective(ix, d);
}

// ---------------------------------------------------------------- release lifecycle

/// Discontinuation is terminal: on a discontinued release only `SetSuccessor` can
/// succeed, and the release stays discontinued.
pub proof fn law_discontinued_is_terminal(
    program: Seq<u8>,
    accts: Seq<AccountView>,
    cfg: Config,
    rel: Release,
    ix: InstructionModel,
    clock: Clock,
)
    requires
        rel.status == DISCONTINUED,
    ensures
        spec_transition(program, accts, cfg, rel, ix, clock) matches Ok((r2, _)) ==> r2.status
            == DISCONTINUED && ix is SetSuccessor,
{
}

/// Only the governance authority, signing, activates a release or sets its successor;
/// pausing and discontinuing also accept the guardian.
pub proof fn law_authority_of_changes(
    program: Seq<u8>,
    accts: Seq<AccountView>,
    cfg: Config,
    rel: Release,
    ix: InstructionModel,
    clock: Clock,
)
    ensures
        spec_transition(program, accts, cfg, rel, ix, clock) is Ok ==> accts[2].is_signer && (
        accts[2].key@ == cfg.authority@ || ((ix is Pause || ix is Discontinue) && accts[2].key@
            == cfg.guardian@)),
{
}

/// Activation happens only from registered or paused, once the release's eligibility
/// time has come, for an immutable target whose executable digest is the registered
/// hash, through an immutable registry.
pub proof fn law_activation_gate(
    program: Seq<u8>,
    accts: Seq<AccountView>,
    cfg: Config,
    rel: Release,
    reason: Seq<char>,
    clock: Clock,
)
    ensures
        spec_transition(program, accts, cfg, rel, InstructionModel::Activate { reason }, clock) matches Ok((r2, _))
            ==> {
            &&& rel.status == REGISTERED || rel.status == PAUSED
            &&& clock.unix_timestamp >= rel.eligible_at
            &&& accts[5].key@ == rel.program@
            &&& accts[7].key@ == program
            &&& spec_require_immutable(accts[5], accts[6]) is Ok
            &&& spec_require_immutable(accts[7], accts[8]) is Ok
            &&& crate::loader::executable_digest(accts[6].data@) == rel.executable_hash@
            &&& r2.status == ACTIVE
        },
{
}

/// Resuming waits another activation delay: a release paused at one time can only be
/// activated again a full activation delay later.
pub proof fn law_resume_waits_a_full_delay(
    program: Seq<u8>,
    accts1: Seq<AccountView>,
    accts2: Seq<AccountView>,
    cfg: Config,
    rel: Release,
    paused: Release,
    reason1: Seq<char>,
    reason2: Seq<char>,
    clock1: Clock,
    clock2: Clock,
)
    requires
        spec_transition(program, accts1, cfg, rel, InstructionModel::Pause { reason: reason1 }, clock1)
            == Ok::<(Release, Seq<char>), Fault>((paused, reason1)),
        spec_transition(program, accts2, cfg, paused, InstructionModel::Activate { reason: reason2 }, clock2) is Ok,
    ensures
        clock2.unix_timestamp >= clock1.unix_timestamp + cfg.activation_delay,
{
}

/// A lifecycle change keeps what identifies a release: only its status, its eligibility
/// time and its successor can change.
pub proof fn law_transition_keeps_identity(
    program: Seq<u8>,
    accts: Seq<AccountView>,
    cfg: Config,
    rel: Release,
    ix: InstructionModel,
    clock: Clock,
)
    ensures
        spec_transition(program, accts, cfg, rel, ix, clock) matches Ok((r2, _)) ==> {
            &&& r2.tag == rel.tag
            &&& r2.registry == rel.registry
            &&& r2.program == rel.program
            &&& r2.domain == rel.domain
            &&& r2.series == rel.series
            &&& r2.source_hash == rel.source_hash
            &&& r2.executable_hash == rel.executable_hash
            &&& r2.sequence == rel.sequence
            &&& r2.registered_slot == rel.registered_slot
        },
{
}

/// A successor is a later registration of the same domain and series.
pub proof fn law_successor_is_later(
    program: Seq<u8>,
    accts: Seq<AccountView>,
    cfg: Config,
    rel: Release,
    reason: Seq<char>,
    clock: Clock,
)
    ensures
        spec_transition(program, accts, cfg, rel, InstructionModel::SetSuccessor { reason }, clock) matches Ok((r2, _))
            ==> {
            &&& spec_release(program, accts[0], accts[5]) is Ok
            &&& spec_release(program, accts[0], accts[5])->Ok_0.sequence > rel.sequence
            &&& spec_release(program, accts[0], accts[5])->Ok_0.domain == rel.domain
            &&& spec_release(program, accts[0], accts[5])->Ok_0.series@ == rel.series@
            &&& r2.successor == accts[5].key
        },
{
}

/// Successor links cannot form a cycle: along a chain of releases in which each names the
/// next as successor (so each next one has a higher sequence), the last has a higher
/// sequence than the first, so no release is its own successor, directly or not.
pub proof fn law_successor_chains_are_acyclic(chain: Seq<Release>)
    requires
        chain.len() >= 2,
        forall|i: int| 0 <= i < chain.len() - 1 ==> #[trigger] chain[i + 1].sequence > chain[i].sequence,
    ensures
        chain.last().sequence > chain[0].sequence,
        chain.last() != chain[0],
    decreases chain.len(),
{
    if chain.len() > 2 {
        let shorter = chain.drop_last();
        assert forall|i: int| 0 <= i < shorter.len() - 1 implies #[trigger] shorter[i + 1].sequence
            > shorter[i].sequence by {
            assert(shorter[i + 1] == chain[i + 1]);
            assert(shorter[i] == chain[i]);
        }
        law_successor_chains_are_acyclic(shorter);
        let k = chain.len() - 2;
        assert(chain[k + 1].sequence > chain[k].sequence);
    } else {
        let k = 0int;
        assert(chain[k + 1].sequence > chain[k].sequence);
    }
}

// ---------------------------------------------------------------- records and inventory

/// Lifecycle history is append-only: a successful lifecycle instruction creates exactly
/// one new record, at the next record sequence, carrying the resulting status, successor
/// and reason; it rewrites the release with the transition's result and the
/// configuration with only its record count advanced.
pub proof fn law_lifecycle_appends_one_record(
    program: Seq<u8>,
    accts: Seq<AccountView>,
    cfg: Config,
    rel: Release,
    ix: InstructionModel,
    clock: Clock,
)
    ensures
        spec_lifecycle(program, accts, cfg, rel, ix, clock) matches Ok(effs) ==> {
            let (rel2, reason) = spec_transition(program, accts, cfg, rel, ix, clock)->Ok_0;
            let n = (cfg.record_count + 1) as u64;
            let rec = new_record(accts[0].key, n, accts[1].key, accts[2].key, clock, rel2, reason);
            &&& cfg.record_count < u64::MAX
            &&& reason_ok(reason)
            &&& effs.len() == 4
            &&& effs[0] matches EffectModel::Create { account, seeds, data, .. } && account == 4
                && seeds == record_seeds(accts[0].key@, n) && data == record_bytes(rec)
            &&& effs[1] == (EffectModel::Write { account: 1, data: release_bytes(rel2) })
            &&& effs[2] == (EffectModel::Write {
                account: 0,
                data: config_bytes(Config { record_count: n, ..cfg }),
            })
            &&& effs[3] == (EffectModel::Log { data: record_bytes(rec) })
        },
{
}

/// Instances are recorded only for active releases, with a creator signature and the
/// owner program's release signer; the entry takes the next inventory sequence, and the
/// business-key account, which points to the entry, must not exist yet, so a business key
/// is recorded at most once.
pub proof fn law_record_instance_gate(
    program: Seq<u8>,
    accts: Seq<AccountView>,
    cfg: Config,
    rel: Release,
    day_or_nonce: u64,
    rules_hash: [u8; 32],
    clock: Clock,
)
    ensures
        spec_record_instance(program, accts, cfg, rel, day_or_nonce, rules_hash, clock) matches Ok(effs)
            ==> {
            let n = (cfg.instance_count + 1) as u64;
            let key = key_array(spec_business_key(rel, accts[4].key@, day_or_nonce));
            &&& rel.status == ACTIVE
            &&& accts[2].is_signer && accts[4].is_signer
            &&& crate::pda::derivable(signer_seeds(accts[0].key@), rel.program@)
            &&& accts[2].key@ == crate::pda::pda(signer_seeds(accts[0].key@), rel.program@)
            &&& accts[3].owner@ == rel.program@
            &&& accts[8].owner@ == SYSTEM_PROGRAM@ && accts[8].data@.len() == 0
            &&& accts[7].owner@ == SYSTEM_PROGRAM@ && accts[7].data@.len() == 0
            &&& accts[7].key@ != accts[8].key@
            &&& effs[0] matches EffectModel::Create { account, seeds, data, .. } && account == 8
                && seeds == business_seeds(accts[0].key@, rel.domain, key@) && data
                == business_key_bytes(BusinessKey { tag: KEY_TAG, entry: accts[7].key })
            &&& effs[1] matches EffectModel::Create { account, seeds, data, .. } && account == 7
                && seeds == instance_seeds(accts[0].key@, n) && data == instance_bytes(
                new_instance(
                    accts[0].key,
                    n,
                    accts[1].key,
                    rel.program,
                    accts[3].key,
                    accts[4].key,
                    key,
                    rules_hash,
                    clock.slot,
                ),
            )
            &&& effs[2] == (EffectModel::Write {
                account: 0,
                data: config_bytes(Config { instance_count: n, ..cfg }),
            })
        },
{
}

/// Daily business keys depend only on the series and the day: two daily releases of one
/// series, whatever their programs and creators, give one key for one day, so a day is
/// recorded once per series across releases.
pub proof fn law_daily_keys_shared_across_releases(
    r1: Release,
    r2: Release,
    creator1: Seq<u8>,
    creator2: Seq<u8>,
    day: u64,
)
    requires
        r1.domain == DAILY,
        r2.domain == DAILY,
        r1.series == r2.series,
    ensures
        spec_business_key(r1, creator1, day) == spec_business_key(r2, creator2, day),
{
}

/// Giveaway business keys depend only on the creator and the nonce.
pub proof fn law_giveaway_keys_follow_creator_and_nonce(
    r1: Release,
    r2: Release,
    creator: Seq<u8>,
    nonce: u64,
)
    requires
        r1.domain == GIVEAWAY,
        r2.domain == GIVEAWAY,
    ensures
        spec_business_key(r1, creator, nonce) == spec_business_key(r2, creator, nonce),
{
}

/// The bytes an effect creates, writes or logs.
pub open spec fn effect_data(e: EffectModel) -> Seq<u8> {
    match e {
        EffectModel::Create { data, .. } => data,
        EffectModel::Write { data, .. } => data,
        EffectModel::Log { data } => data,
    }
}

/// What each lifecycle instruction makes of a release: `Activate` makes it active, `Pause`
/// makes it paused and moves its eligibility a full activation delay past now,
/// `Discontinue` makes it discontinued, `SetSuccessor` names the release in account 5 as
/// its successor; nothing else about the release changes, and the reason is the
/// instruction's own.
pub proof fn law_transition_results(
    program: Seq<u8>,
    accts: Seq<AccountView>,
    cfg: Config,
    rel: Release,
    ix: InstructionModel,
    clock: Clock,
)
    ensures
        spec_transition(program, accts, cfg, rel, ix, clock) matches Ok((r2, reason)) ==> {
            &&& instruction_reason(ix) == Some(reason)
            &&& r2.tag == rel.tag && r2.registry == rel.registry && r2.program == rel.program
            &&& r2.domain == rel.domain && r2.series == rel.series
            &&& r2.source_hash == rel.source_hash && r2.executable_hash == rel.executable_hash
            &&& r2.sequence == rel.sequence && r2.registered_slot == rel.registered_slot
            &&& ix is Activate ==> r2.status == ACTIVE && r2.eligible_at == rel.eligible_at
                && r2.successor == rel.successor
            &&& ix is Pause ==> r2.status == PAUSED && r2.eligible_at == clock.unix_timestamp
                + cfg.activation_delay && r2.successor == rel.successor
            &&& ix is Discontinue ==> r2.status == DISCONTINUED && r2.eligible_at
                == rel.eligible_at && r2.successor == rel.successor
            &&& ix is SetSuccessor ==> r2.status == DISCONTINUED && r2.eligible_at
                == rel.eligible_at && r2.successor == accts[5].key
        },
{
}

/// Every lifecycle change leaves a permanent record, created at account 4 and logged, that
/// decodes to: the registry config (account 0), the next record sequence, the release
/// (account 1), the actor that signed (account 2), the slot and time of the change, the
/// instruction's reason, and the status and successor that the release is rewritten with.
pub proof fn law_lifecycle_record_says_who_and_what(
    program: Seq<u8>,
    accts: Seq<AccountView>,
    cfg: Config,
    rel: Release,
    ix: InstructionModel,
    clock: Clock,
)
    ensures
        spec_lifecycle(program, accts, cfg, rel, ix, clock) matches Ok(effs) ==> {
            let rec = parse_record(effect_data(effs[0]))->Some_0;
            let r2 = parse_release(effect_data(effs[1]))->Some_0;
            &&& effs.len() == 4
            &&& effs[0] matches EffectModel::Create { account, .. } && account == 4
            &&& effs[1] matches EffectModel::Write { account, .. } && account == 1
            &&& effs[3] == (EffectModel::Log { data: effect_data(effs[0]) })
            &&& parse_record(effect_data(effs[0])) is Some
            &&& parse_release(effect_data(effs[1])) is Some
            &&& rec.tag == RECORD_TAG
            &&& rec.registry == accts[0].key
            &&& rec.sequence == cfg.record_count + 1
            &&& rec.release == accts[1].key
            &&& rec.actor == accts[2].key
            &&& rec.slot == clock.slot
            &&& rec.timestamp == clock.unix_timestamp
            &&& instruction_reason(ix) == Some(rec.reason)
            &&& rec.status == r2.status
            &&& rec.successor == r2.successor
            &&& ix is Activate ==> r2.status == ACTIVE
            &&& ix is Pause ==> r2.status == PAUSED && r2.eligible_at == clock.unix_timestamp
                + cfg.activation_delay
            &&& ix is Discontinue ==> r2.status == DISCONTINUED
            &&& ix is SetSuccessor ==> r2.status == DISCONTINUED && r2.successor == accts[5].key
            &&& r2.program == rel.program && r2.sequence == rel.sequence
            &&& r2.source_hash == rel.source_hash && r2.executable_hash == rel.executable_hash
        },
{
    if let Ok(effs) = spec_lifecycle(program, accts, cfg, rel, ix, clock) {
        let (rel2, reason) = spec_transition(program, accts, cfg, rel, ix, clock)->Ok_0;
        let n = (cfg.record_count + 1) as u64;
        let rec = new_record(accts[0].key, n, accts[1].key, accts[2].key, clock, rel2, reason);
        law_record_roundtrip(rec);
        law_release_roundtrip(rel2);
        law_transition_results(program, accts, cfg, rel, ix, clock);
    }
}

/// A recorded instance leaves a business-key account (account 8) that points to the new
/// inventory entry (account 7), and an entry, also logged, that decodes to: the registry
/// config (account 0), the next instance sequence, the release (account 1), the release's
/// program as owner, the instance (account 3), the creator that signed (account 4), the
/// business key of that creator and day or nonce, the rules hash and the slot.
pub proof fn law_record_instance_entry_fields(
    program: Seq<u8>,
    accts: Seq<AccountView>,
    cfg: Config,
    rel: Release,
    day_or_nonce: u64,
    rules_hash: [u8; 32],
    clock: Clock,
)
    ensures
        spec_record_instance(program, accts, cfg, rel, day_or_nonce, rules_hash, clock) matches Ok(effs)
            ==> {
            let key = parse_business_key(effect_data(effs[0]))->Some_0;
            let entry = parse_instance(effect_data(effs[1]))->Some_0;
            &&& effs.len() == 4
            &&& effs[0] matches EffectModel::Create { account, .. } && account == 8
            &&& effs[1] matches EffectModel::Create { account, .. } && account == 7
            &&& effs[3] == (EffectModel::Log { data: effect_data(effs[1]) })
            &&& parse_business_key(effect_data(effs[0])) is Some
            &&& parse_instance(effect_data(effs[1])) is Some
            &&& key.tag == KEY_TAG && key.entry == accts[7].key
            &&& entry.tag == INSTANCE_TAG
            &&& entry.registry == accts[0].key
            &&& entry.sequence == cfg.instance_count + 1
            &&& entry.release == accts[1].key
            &&& entry.owner_program == rel.program
            &&& entry.instance == accts[3].key
            &&& entry.creator == accts[4].key
            &&& entry.business_key == key_array(spec_business_key(rel, accts[4].key@, day_or_nonce))
            &&& entry.rules_hash == rules_hash
            &&& entry.created_slot == clock.slot
        },
{
    if let Ok(effs) = spec_record_instance(program, accts, cfg, rel, day_or_nonce, rules_hash, clock) {
        let n = (cfg.instance_count + 1) as u64;
        let bkey = key_array(spec_business_key(rel, accts[4].key@, day_or_nonce));
        law_instance_roundtrip(
            new_instance(accts[0].key, n, accts[1].key, rel.program, accts[3].key, accts[4].key, bkey, rules_hash, clock.slot),
        );
        law_business_key_roundtrip(BusinessKey { tag: KEY_TAG, entry: accts[7].key });
    }
}

// ---------------------------------------------------------------- registration
/// A registered release, created at account 1, decodes to exactly what was asked for: the
/// registry config (account 0), the target program (account 4), the instruction's domain,
/// series, source hash and executable hash, the next release sequence, the slot, an
/// eligibility one activation delay from now, registered status and no successor.
pub proof fn law_register_release_fields(
    program: Seq<u8>,
    accts: Seq<AccountView>,
    cfg: Config,
    domain: u8,
    series: [u8; 32],
    source_hash: [u8; 32],
    executable_hash: [u8; 32],
    clock: Clock,
)
    ensures
        spec_register(program, accts, cfg, domain, series, source_hash, executable_hash, clock) matches Ok(effs)
            ==> {
            let r = parse_release(effect_data(effs[0]))->Some_0;
            &&& effs[0] matches EffectModel::Create { account, .. } && account == 1
            &&& parse_release(effect_data(effs[0])) is Some
            &&& r.tag == RELEASE_TAG
            &&& r.registry == accts[0].key
            &&& r.program == accts[4].key
            &&& r.domain == domain
            &&& r.series == series
            &&& r.source_hash == source_hash
            &&& r.executable_hash == executable_hash
            &&& r.sequence == cfg.release_count + 1
            &&& r.registered_slot == clock.slot
            &&& r.eligible_at == clock.unix_timestamp + cfg.activation_delay
            &&& r.status == REGISTERED
            &&& r.successor@ == zero32()
        },
{
    if let Ok(effs) = spec_register(program, accts, cfg, domain, series, source_hash, executable_hash, clock) {
        let n = (cfg.release_count + 1) as u64;
        law_release_roundtrip(
            registered_release(
                accts[0].key,
                accts[4].key,
                domain,
                series,
                source_hash,
                executable_hash,
                n,
                clock.slot,
                (clock.unix_timestamp + cfg.activation_delay) as i64,
            ),
        );
    }
}


/// Registration is by governance alone and creates a registered release with the next
/// release sequence, no successor, eligible one activation delay after registration; the
/// configuration changes only in its release count.
pub proof fn law_register_creates_registered_release(
    program: Seq<u8>,
    accts: Seq<AccountView>,
    cfg: Config,
    domain: u8,
    series: [u8; 32],
    source_hash: [u8; 32],
    executable_hash: [u8; 32],
    clock: Clock,
)
    ensures
        spec_register(program, accts, cfg, domain, series, source_hash, executable_hash, clock) matches Ok(effs)
            ==> {
            let n = (cfg.release_count + 1) as u64;
            &&& accts[2].is_signer && accts[2].key@ == cfg.authority@
            &&& domain == DAILY || domain == GIVEAWAY
            &&& clock.unix_timestamp + cfg.activation_delay <= i64::MAX
            &&& effs.len() == 2
            &&& effs[0] matches EffectModel::Create { account, seeds, data, .. } && account == 1
                && seeds == release_seeds(accts[0].key@, accts[4].key@) && data == release_bytes(
                registered_release(
                    accts[0].key,
                    accts[4].key,
                    domain,
                    series,
                    source_hash,
                    executable_hash,
                    n,
                    clock.slot,
                    (clock.unix_timestamp + cfg.activation_delay) as i64,
                ),
            )
            &&& effs[1] == (EffectModel::Write {
                account: 0,
                data: config_bytes(Config { release_count: n, ..cfg }),
            })
        },
{
}

/// A namespace starts with a nonzero guardian, a positive activation delay, the signing
/// governance as authority and no releases, records or instances.
pub proof fn law_initialize(
    program: Seq<u8>,
    accts: Seq<AccountView>,
    guardian: [u8; 32],
    activation_delay: u32,
)
    ensures
        spec_initialize(program, accts, guardian, activation_delay) matches Ok(effs) ==> {
            &&& guardian@ != zero32()
            &&& activation_delay > 0
            &&& accts[1].is_signer
            &&& effs.len() == 1
            &&& effs[0] matches EffectModel::Create { account, seeds, data, .. } && account == 0
                && seeds == registry_seeds(accts[1].key@) && data == config_bytes(
                initial_config(accts[1].key, guardian, activation_delay),
            )
        },
{
}

/// A new namespace's configuration, created at account 0, decodes to: the signing
/// governance (account 1) as authority, the given guardian and activation delay, the
/// current schema, and zero releases, records and instances.
pub proof fn law_initialize_config_fields(
    program: Seq<u8>,
    accts: Seq<AccountView>,
    guardian: [u8; 32],
    activation_delay: u32,
)
    ensures
        spec_initialize(program, accts, guardian, activation_delay) matches Ok(effs) ==> {
            let c = parse_config(effect_data(effs[0]))->Some_0;
            &&& effs.len() == 1
            &&& effs[0] matches EffectModel::Create { account, .. } && account == 0
            &&& parse_config(effect_data(effs[0])) is Some
            &&& c.tag == CONFIG_TAG
            &&& c.schema == SCHEMA
            &&& c.authority == accts[1].key
            &&& c.guardian == guardian
            &&& c.activation_delay == activation_delay
            &&& c.release_count == 0 && c.record_count == 0 && c.instance_count == 0
        },
{
    if let Ok(effs) = spec_initialize(program, accts, guardian, activation_delay) {
        law_config_roundtrip(initial_config(accts[1].key, guardian, activation_delay));
    }
}

// ---------------------------------------------------------------- account creation

/// Registry accounts are never overwritten: creation succeeds only on an account that is
/// system-owned, empty and not created earlier in the same instruction.
pub proof fn law_create_never_overwrites(
    program: Seq<u8>,
    accts: Seq<AccountView>,
    ai: usize,
    payer: usize,
    system: usize,
    seeds: Seq<Seq<u8>>,
    data: Seq<u8>,
    taken: bool,
)
    ensures
        spec_create(program, accts, ai, payer, system, seeds, data, taken) is Ok ==> {
            &&& accts[ai as int].owner@ == SYSTEM_PROGRAM@
            &&& accts[ai as int].data@.len() == 0
            &&& !taken
            &&& crate::pda::derivable(seeds, program)
            &&& accts[ai as int].key@ == crate::pda::pda(seeds, program)
        },
{
}

/// A lamport donation cannot squat a canonical address: whether an account can be
/// created does not depend on the lamports it already holds.
pub proof fn law_prefunding_does_not_block_creation(
    program: Seq<u8>,
    accts: Seq<AccountView>,
    ai: usize,
    payer: usize,
    system: usize,
    seeds: Seq<Seq<u8>>,
    data: Seq<u8>,
    lamports: u64,
)
    requires
        ai < accts.len(),
        payer < accts.len(),
        system < accts.len(),
        ai != payer,
        ai != system,
    ensures
        spec_create(
            program,
            accts.update(ai as int, AccountView { lamports, ..accts[ai as int] }),
            ai,
            payer,
            system,
            seeds,
            data,
            false,
        ) == spec_create(program, accts, ai, payer, system, seeds, data, false),
{
    let changed = accts.update(ai as int, AccountView { lamports, ..accts[ai as int] });
    assert(changed[payer as int] == accts[payer as int]);
    assert(changed[system as int] == accts[system as int]);
    assert(changed[ai as int].key == accts[ai as int].key);
    assert(changed[ai as int].owner == accts[ai as int].owner);
    assert(changed[ai as int].data == accts[ai as int].data);
}

// ---------------------------------------------------------------- governance

/// A write that, if it rewrites the configuration account, keeps its governance: the
/// same tag, schema, authority, guardian and activation delay.
pub open spec fn keeps_governance(e: EffectModel, cfg: Config) -> bool {
    match e {
        EffectModel::Write { account, data } => account == 0 ==> match parse_config(data) {
            Some(c) => c.tag == cfg.tag && c.schema == cfg.schema && c.authority == cfg.authority
                && c.guardian == cfg.guardian && c.activation_delay == cfg.activation_delay,
            None => false,
        },
        _ => true,
    }
}

proof fn lemma_counter_write_keeps_governance(cfg: Config, next: Config)
    requires
        next.tag == cfg.tag,
        next.schema == cfg.schema,
        next.authority == cfg.authority,
        next.guardian == cfg.guardian,
        next.activation_delay == cfg.activation_delay,
    ensures
        keeps_governance(EffectModel::Write { account: 0, data: config_bytes(next) }, cfg),
{
    law_config_roundtrip(next);
}

/// Governance is fixed for a namespace: once initialized, no instruction writes a
/// configuration with another authority, guardian or activation delay; only counters move.
#[verifier::rlimit(40)]
pub proof fn law_governance_is_fixed(
    program: Seq<u8>,
    accts: Seq<AccountView>,
    input: Seq<u8>,
    clock: Clock,
)
    ensures
        spec_process(program, accts, input, clock) matches Ok(effs) ==> (parse_instruction(
            input,
        )->Some_0 is Initialize || forall|i: int|
            0 <= i < effs.len() ==> keeps_governance(
                #[trigger] effs[i],
                spec_config(program, accts[0])->Ok_0,
            )),
{
    if let Ok(effs) = spec_process(program, accts, input, clock) {
        let ix = parse_instruction(input)->Some_0;
        if !(ix is Initialize) {
            let cfg = spec_config(program, accts[0])->Ok_0;
            let rel = spec_release(program, accts[0], accts[1])->Ok_0;
            match ix {
                InstructionModel::Register { .. } => {
                    let n = (cfg.release_count + 1) as u64;
                    lemma_counter_write_keeps_governance(cfg, Config { release_count: n, ..cfg });
                    assert(effs[0] is Create);
                },
                InstructionModel::RecordInstance { .. } => {
                    let n = (cfg.instance_count + 1) as u64;
                    lemma_counter_write_keeps_governance(cfg, Config { instance_count: n, ..cfg });
                    assert(effs[0] is Create);
                    assert(effs[1] is Create);
                    assert(effs[3] is Log);
                },
                _ => {
                    let n = (cfg.record_count + 1) as u64;
                    lemma_counter_write_keeps_governance(cfg, Config { record_count: n, ..cfg });
                    assert(effs[0] is Create);
                    assert(effs[3] is Log);
                },
            }
        }
    }
}

} // verus!
