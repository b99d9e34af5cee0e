//! The byte layout of the wire schema: little-endian integers, raw fixed arrays,
//! `u32`-length-prefixed UTF-8 strings and a one-byte variant index for instructions.
//! Each decoder accepts exactly the byte strings that some value encodes to.
use crate::wire::{
    BusinessKey, Config, Instance, Instruction, InstructionModel, Record, RecordModel, Release,
};
use vstd::bytes::*;
use vstd::prelude::*;
use vstd::slice::slice_subrange;
use vstd::utf8::*;
use crate::text::utf8_string;

verus! {

broadcast use vstd::utf8::encode_utf8_valid_utf8, vstd::utf8::decode_utf8_encode_utf8;

// ---------------------------------------------------------------- layout of fields

pub open spec fn le16(v: u16) -> Seq<u8> {
    spec_u16_to_le_bytes(v)
}

pub open spec fn le32(v: u32) -> Seq<u8> {
    spec_u32_to_le_bytes(v)
}

pub open spec fn le64(v: u64) -> Seq<u8> {
    spec_u64_to_le_bytes(v)
}

/// Two's-complement little-endian bytes of an `i64`.
pub open spec fn le_i64(v: i64) -> Seq<u8> {
    spec_u64_to_le_bytes(v as u64)
}

/// A string whose UTF-8 length fits the `u32` length prefix.
pub open spec fn str_encodable(s: Seq<char>) -> bool {
    encode_utf8(s).len() <= u32::MAX
}

/// `u32` byte length, then the UTF-8 bytes.
pub open spec fn str_bytes(s: Seq<char>) -> Seq<u8> {
    le32(encode_utf8(s).len() as u32) + encode_utf8(s)
}

// ---------------------------------------------------------------- layout of values

pub open spec fn config_bytes(c: Config) -> Seq<u8> {
    c.tag@ + le16(c.schema) + c.authority@ + c.guardian@ + le32(c.activation_delay) + le64(
        c.release_count,
    ) + le64(c.record_count) + le64(c.instance_count)
}

pub open spec fn release_bytes(r: Release) -> Seq<u8> {
    r.tag@ + r.registry@ + r.program@ + seq![r.domain] + r.series@ + r.source_hash@
        + r.executable_hash@ + le64(r.sequence) + le64(r.registered_slot) + le_i64(r.eligible_at)
        + seq![r.status] + r.successor@
}

/// The fixed-size part of a record, everything before its reason.
pub open spec fn record_head_bytes(r: RecordModel) -> Seq<u8> {
    r.tag@ + r.registry@ + le64(r.sequence) + r.release@ + r.actor@ + le64(r.slot) + le_i64(
        r.timestamp,
    ) + seq![r.status] + r.successor@
}

pub open spec fn record_bytes(r: RecordModel) -> Seq<u8> {
    record_head_bytes(r) + str_bytes(r.reason)
}

pub open spec fn instance_bytes(i: Instance) -> Seq<u8> {
    i.tag@ + i.registry@ + le64(i.sequence) + i.release@ + i.owner_program@ + i.instance@
        + i.creator@ + i.business_key@ + i.rules_hash@ + le64(i.created_slot)
}

pub open spec fn business_key_bytes(k: BusinessKey) -> Seq<u8> {
    k.tag@ + k.entry@
}

/// The reason carried by a lifecycle instruction, if any.
pub open spec fn instruction_reason(ix: InstructionModel) -> Option<Seq<char>> {
    match ix {
        InstructionModel::Activate { reason } => Some(reason),
        InstructionModel::Pause { reason } => Some(reason),
        InstructionModel::Discontinue { reason } => Some(reason),
        InstructionModel::SetSuccessor { reason } => Some(reason),
        _ => None,
    }
}

/// An instruction whose reason, if any, fits the length prefix.
pub open spec fn instruction_encodable(ix: InstructionModel) -> bool {
    match instruction_reason(ix) {
        Some(s) => str_encodable(s),
        None => true,
    }
}

pub open spec fn instruction_bytes(ix: InstructionModel) -> Seq<u8> {
    match ix {
        InstructionModel::Initialize { guardian, activation_delay } => seq![0u8] + guardian@
            + le32(activation_delay),
        InstructionModel::Register { domain, series, source_hash, executable_hash } => seq![1u8]
            + seq![domain] + series@ + source_hash@ + executable_hash@,
        InstructionModel::Activate { reason } => seq![2u8] + str_bytes(reason),
        InstructionModel::Pause { reason } => seq![3u8] + str_bytes(reason),
        InstructionModel::Discontinue { reason } => seq![4u8] + str_bytes(reason),
        InstructionModel::SetSuccessor { reason } => seq![5u8] + str_bytes(reason),
        InstructionModel::RecordInstance { day_or_nonce, rules_hash } => seq![6u8] + le64(
            day_or_nonce,
        ) + rules_hash@,
    }
}

/// The instruction that `b` encodes, if any (there is at most one: see `lemma_instruction_injective`).
pub open spec fn parse_instruction(b: Seq<u8>) -> Option<InstructionModel> {
    if exists|ix: InstructionModel| instruction_encodable(ix) && instruction_bytes(ix) == b {
        Some(choose|ix: InstructionModel| instruction_encodable(ix) && instruction_bytes(ix) == b)
    } else {
        None
    }
}

/// The configuration that `b` encodes, if any.
pub open spec fn parse_config(b: Seq<u8>) -> Option<Config> {
    if exists|c: Config| config_bytes(c) == b {
        Some(choose|c: Config| config_bytes(c) == b)
    } else {
        None
    }
}

/// The inventory entry that `b` encodes, if any.
pub open spec fn parse_instance(b: Seq<u8>) -> Option<Instance> {
    if exists|i: Instance| instance_bytes(i) == b {
        Some(choose|i: Instance| instance_bytes(i) == b)
    } else {
        None
    }
}

/// The business-key account that `b` encodes, if any.
pub open spec fn parse_business_key(b: Seq<u8>) -> Option<BusinessKey> {
    if exists|k: BusinessKey| business_key_bytes(k) == b {
        Some(choose|k: BusinessKey| business_key_bytes(k) == b)
    } else {
        None
    }
}

/// The record that `b` encodes, if any.
pub open spec fn parse_record(b: Seq<u8>) -> Option<RecordModel> {
    if exists|r: RecordModel| str_encodable(r.reason) && record_bytes(r) == b {
        Some(choose|r: RecordModel| str_encodable(r.reason) && record_bytes(r) == b)
    } else {
        None
    }
}

/// The release that `b` encodes, if any.
pub open spec fn parse_release(b: Seq<u8>) -> Option<Release> {
    if exists|r: Release| release_bytes(r) == b {
        Some(choose|r: Release| release_bytes(r) == b)
    } else {
        None
    }
}

// ---------------------------------------------------------------- integer lemmas

pub proof fn lemma_le_lengths()
    ensures
        forall|v: u16| #[trigger] le16(v).len() == 2,
        forall|v: u32| #[trigger] le32(v).len() == 4,
        forall|v: u64| #[trigger] le64(v).len() == 8,
        forall|v: i64| #[trigger] le_i64(v).len() == 8,
{
    lemma_auto_spec_u16_to_from_le_bytes();
    lemma_auto_spec_u32_to_from_le_bytes();
    lemma_auto_spec_u64_to_from_le_bytes();
    assert forall|v: i64| #[trigger] le_i64(v).len() == 8 by {
        assert(spec_u64_to_le_bytes(v as u64).len() == 8);
    }
}

proof fn lemma_i64_bits(v: i64)
    ensures
        ((v as u64) as i64) == v,
{
    assert(((v as u64) as i64) == v) by (bit_vector);
}

proof fn lemma_u64_bits(v: u64)
    ensures
        ((v as i64) as u64) == v,
{
    assert(((v as i64) as u64) == v) by (bit_vector);
}

/// Distinct integers have distinct encodings.
pub proof fn lemma_le_injective()
    ensures
        forall|a: u16, b: u16| #[trigger] le16(a) == #[trigger] le16(b) ==> a == b,
        forall|a: u32, b: u32| #[trigger] le32(a) == #[trigger] le32(b) ==> a == b,
        forall|a: u64, b: u64| #[trigger] le64(a) == #[trigger] le64(b) ==> a == b,
        forall|a: i64, b: i64| #[trigger] le_i64(a) == #[trigger] le_i64(b) ==> a == b,
{
    lemma_auto_spec_u16_to_from_le_bytes();
    lemma_auto_spec_u32_to_from_le_bytes();
    lemma_auto_spec_u64_to_from_le_bytes();
    assert forall|a: u16, b: u16| #[trigger] le16(a) == #[trigger] le16(b) implies a == b by {
        assert(spec_u16_to_le_bytes(a).len() == 2);
        assert(spec_u16_to_le_bytes(b).len() == 2);
    }
    assert forall|a: u32, b: u32| #[trigger] le32(a) == #[trigger] le32(b) implies a == b by {
        assert(spec_u32_to_le_bytes(a).len() == 4);
        assert(spec_u32_to_le_bytes(b).len() == 4);
    }
    assert forall|a: i64, b: i64| #[trigger] le_i64(a) == #[trigger] le_i64(b) implies a == b by {
        assert(spec_u64_from_le_bytes(spec_u64_to_le_bytes(a as u64)) == a as u64);
        assert(spec_u64_from_le_bytes(spec_u64_to_le_bytes(b as u64)) == b as u64);
        lemma_i64_bits(a);
        lemma_i64_bits(b);
    }
}

// ---------------------------------------------------------------- field readers

fn get_u8(b: &[u8], pos: usize) -> (r: u8)
    requires
        pos + 1 <= b@.len(),
    ensures
        seq![r] == b@.subrange(pos as int, pos + 1),
{
    let r = b[pos];
    assert(seq![r] =~= b@.subrange(pos as int, pos + 1));
    r
}

fn get_u16(b: &[u8], pos: usize) -> (r: u16)
    requires
        pos + 2 <= b@.len(),
    ensures
        le16(r) == b@.subrange(pos as int, pos + 2),
{
    let _n = b.len();
    proof {
        lemma_auto_spec_u16_to_from_le_bytes();
    }
    u16_from_le_bytes(slice_subrange(b, pos, pos + 2))
}

fn get_u32(b: &[u8], pos: usize) -> (r: u32)
    requires
        pos + 4 <= b@.len(),
    ensures
        le32(r) == b@.subrange(pos as int, pos + 4),
{
    let _n = b.len();
    proof {
        lemma_auto_spec_u32_to_from_le_bytes();
    }
    u32_from_le_bytes(slice_subrange(b, pos, pos + 4))
}

fn get_u64(b: &[u8], pos: usize) -> (r: u64)
    requires
        pos + 8 <= b@.len(),
    ensures
        le64(r) == b@.subrange(pos as int, pos + 8),
{
    let _n = b.len();
    proof {
        lemma_auto_spec_u64_to_from_le_bytes();
    }
    u64_from_le_bytes(slice_subrange(b, pos, pos + 8))
}

fn get_i64(b: &[u8], pos: usize) -> (r: i64)
    requires
        pos + 8 <= b@.len(),
    ensures
        le_i64(r) == b@.subrange(pos as int, pos + 8),
{
    let u = get_u64(b, pos);
    proof {
        lemma_u64_bits(u);
    }
    u as i64
}

fn get_array8(b: &[u8], pos: usize) -> (r: [u8; 8])
    requires
        pos + 8 <= b@.len(),
    ensures
        r@ == b@.subrange(pos as int, pos + 8),
{
    let n = b.len();
    let mut a: [u8; 8] = [0u8; 8];
    let mut i: usize = 0;
    while i < 8
        invariant
            i <= 8,
            pos + 8 <= b@.len(),
            n == b@.len(),
            forall|k: int| 0 <= k < i ==> a@[k] == b@[pos + k],
        decreases 8 - i,
    {
        a[i] = b[pos + i];
        i = i + 1;
    }
    assert(a@ =~= b@.subrange(pos as int, pos + 8));
    a
}

fn get_array32(b: &[u8], pos: usize) -> (r: [u8; 32])
    requires
        pos + 32 <= b@.len(),
    ensures
        r@ == b@.subrange(pos as int, pos + 32),
{
    let n = b.len();
    let mut a: [u8; 32] = [0u8; 32];
    let mut i: usize = 0;
    while i < 32
        invariant
            i <= 32,
            pos + 32 <= b@.len(),
            n == b@.len(),
            forall|k: int| 0 <= k < i ==> a@[k] == b@[pos + k],
        decreases 32 - i,
    {
        a[i] = b[pos + i];
        i = i + 1;
    }
    assert(a@ =~= b@.subrange(pos as int, pos + 32));
    a
}

// ---------------------------------------------------------------- field writers

/// Appends every byte of `s` to `out`.
pub fn push_bytes(out: &mut Vec<u8>, s: &[u8])
    ensures
        final(out)@ == old(out)@ + s@,
{
    let n = s.len();
    let mut i: usize = 0;
    while i < n
        invariant
            i <= n,
            n == s@.len(),
            out@ == old(out)@ + s@.subrange(0, i as int),
        decreases n - i,
    {
        out.push(s[i]);
        i = i + 1;
        assert(out@ =~= old(out)@ + s@.subrange(0, i as int));
    }
    assert(s@.subrange(0, n as int) =~= s@);
}

fn push_u16(out: &mut Vec<u8>, v: u16)
    ensures
        final(out)@ == old(out)@ + le16(v),
{
    let b = u16_to_le_bytes(v);
    push_bytes(out, b.as_slice());
}

fn push_u32(out: &mut Vec<u8>, v: u32)
    ensures
        final(out)@ == old(out)@ + le32(v),
{
    let b = u32_to_le_bytes(v);
    push_bytes(out, b.as_slice());
}

fn push_u64(out: &mut Vec<u8>, v: u64)
    ensures
        final(out)@ == old(out)@ + le64(v),
{
    let b = u64_to_le_bytes(v);
    push_bytes(out, b.as_slice());
}

fn push_i64(out: &mut Vec<u8>, v: i64)
    ensures
        final(out)@ == old(out)@ + le_i64(v),
{
    let b = u64_to_le_bytes(v as u64);
    push_bytes(out, b.as_slice());
}

// ---------------------------------------------------------------- encoders

pub fn encode_config(c: &Config) -> (out: Vec<u8>)
    ensures
        out@ == config_bytes(*c),
{
    let mut out: Vec<u8> = Vec::new();
    push_bytes(&mut out, c.tag.as_slice());
    push_u16(&mut out, c.schema);
    push_bytes(&mut out, c.authority.as_slice());
    push_bytes(&mut out, c.guardian.as_slice());
    push_u32(&mut out, c.activation_delay);
    push_u64(&mut out, c.release_count);
    push_u64(&mut out, c.record_count);
    push_u64(&mut out, c.instance_count);
    assert(out@ =~= config_bytes(*c));
    out
}


fn get_str_to_end(b: &[u8], pos: usize) -> (r: Option<String>)
    requires
        pos <= b@.len(),
    ensures
        r matches Some(s) ==> str_encodable(s@) && str_bytes(s@) == b@.subrange(
            pos as int,
            b@.len() as int,
        ),
        r is None ==> forall|s: Seq<char>|
            str_encodable(s) ==> str_bytes(s) != b@.subrange(pos as int, b@.len() as int),
{
    let n = b.len();
    let ghost rest = b@.subrange(pos as int, n as int);
    proof {
        lemma_le_lengths();
        lemma_le_injective();
    }
    if n - pos < 4 {
        assert forall|s: Seq<char>| str_encodable(s) implies str_bytes(s) != rest by {
            assert(le32(encode_utf8(s).len() as u32).len() == 4);
            assert(str_bytes(s).len() >= 4);
            assert(rest.len() < 4);
        }
        return None;
    }
    let len = get_u32(b, pos);
    assert(le32(len) == rest.subrange(0, 4));
    if (n - pos - 4) as u64 != len as u64 {
        assert forall|s: Seq<char>| str_encodable(s) implies str_bytes(s) != rest by {
            if str_bytes(s) == rest {
                assert(str_bytes(s).subrange(0, 4) =~= le32(encode_utf8(s).len() as u32));
                assert(le32(encode_utf8(s).len() as u32) == le32(len));
            }
        }
        return None;
    }
    let mut v: Vec<u8> = Vec::new();
    push_bytes(&mut v, slice_subrange(b, pos + 4, n));
    assert(v@ == rest.subrange(4, rest.len() as int));
    match utf8_string(v) {
        Some(s) => {
            assert(encode_utf8(s@) == v@);
            assert(str_bytes(s@) =~= rest);
            Some(s)
        },
        None => {
            assert forall|t: Seq<char>| str_encodable(t) implies str_bytes(t) != rest by {
                if str_bytes(t) == rest {
                    assert(str_bytes(t).subrange(4, str_bytes(t).len() as int) =~= encode_utf8(t));
                    assert(valid_utf8(encode_utf8(t)));
                }
            }
            None
        },
    }
}

/// Appends the length-prefixed UTF-8 bytes of `s`; `false`, leaving `out` as it was,
/// when they do not fit the `u32` prefix.
fn push_str(out: &mut Vec<u8>, s: &String) -> (ok: bool)
    ensures
        ok == str_encodable(s@),
        ok ==> final(out)@ == old(out)@ + str_bytes(s@),
        !ok ==> final(out)@ == old(out)@,
{
    let bytes = s.as_str().as_bytes();
    let n = bytes.len();
    if n as u64 > 0xffff_ffffu64 {
        return false;
    }
    push_u32(out, n as u32);
    push_bytes(out, bytes);
    true
}

pub fn decode_config(b: &[u8]) -> (r: Option<Config>)
    ensures
        r matches Some(c) ==> config_bytes(c) == b@,
        r is None ==> forall|c: Config| config_bytes(c) != b@,
{
    proof {
        lemma_le_lengths();
    }
    if b.len() != 102 {
        assert forall|c: Config| config_bytes(c) != b@ by {
            assert(config_bytes(c).len() == 102);
        }
        return None;
    }
    let c = Config {
        tag: get_array8(b, 0),
        schema: get_u16(b, 8),
        authority: get_array32(b, 10),
        guardian: get_array32(b, 42),
        activation_delay: get_u32(b, 74),
        release_count: get_u64(b, 78),
        record_count: get_u64(b, 86),
        instance_count: get_u64(b, 94),
    };
    assert(config_bytes(c) =~= b@);
    Some(c)
}


pub fn decode_release(b: &[u8]) -> (r: Option<Release>)
    ensures
        r matches Some(x) ==> release_bytes(x) == b@,
        r is None ==> forall|x: Release| release_bytes(x) != b@,
{
    proof {
        lemma_le_lengths();
    }
    if b.len() != 226 {
        assert forall|x: Release| release_bytes(x) != b@ by {
            assert(release_bytes(x).len() == 226);
        }
        return None;
    }
    let x = Release {
        tag: get_array8(b, 0),
        registry: get_array32(b, 8),
        program: get_array32(b, 40),
        domain: get_u8(b, 72),
        series: get_array32(b, 73),
        source_hash: get_array32(b, 105),
        executable_hash: get_array32(b, 137),
        sequence: get_u64(b, 169),
        registered_slot: get_u64(b, 177),
        eligible_at: get_i64(b, 185),
        status: get_u8(b, 193),
        successor: get_array32(b, 194),
    };
    assert(release_bytes(x) =~= b@);
    Some(x)
}

pub fn encode_release(x: &Release) -> (out: Vec<u8>)
    ensures
        out@ == release_bytes(*x),
{
    let mut out: Vec<u8> = Vec::new();
    push_bytes(&mut out, x.tag.as_slice());
    push_bytes(&mut out, x.registry.as_slice());
    push_bytes(&mut out, x.program.as_slice());
    out.push(x.domain);
    push_bytes(&mut out, x.series.as_slice());
    push_bytes(&mut out, x.source_hash.as_slice());
    push_bytes(&mut out, x.executable_hash.as_slice());
    push_u64(&mut out, x.sequence);
    push_u64(&mut out, x.registered_slot);
    push_i64(&mut out, x.eligible_at);
    out.push(x.status);
    push_bytes(&mut out, x.successor.as_slice());
    assert(out@ =~= release_bytes(*x));
    out
}

pub fn decode_instance(b: &[u8]) -> (r: Option<Instance>)
    ensures
        r matches Some(x) ==> instance_bytes(x) == b@,
        r is None ==> forall|x: Instance| instance_bytes(x) != b@,
{
    proof {
        lemma_le_lengths();
    }
    if b.len() != 248 {
        assert forall|x: Instance| instance_bytes(x) != b@ by {
            assert(instance_bytes(x).len() == 248);
        }
        return None;
    }
    let x = Instance {
        tag: get_array8(b, 0),
        registry: get_array32(b, 8),
        sequence: get_u64(b, 40),
        release: get_array32(b, 48),
        owner_program: get_array32(b, 80),
        instance: get_array32(b, 112),
        creator: get_array32(b, 144),
        business_key: get_array32(b, 176),
        rules_hash: get_array32(b, 208),
        created_slot: get_u64(b, 240),
    };
    assert(instance_bytes(x) =~= b@);
    Some(x)
}

pub fn encode_instance(x: &Instance) -> (out: Vec<u8>)
    ensures
        out@ == instance_bytes(*x),
{
    let mut out: Vec<u8> = Vec::new();
    push_bytes(&mut out, x.tag.as_slice());
    push_bytes(&mut out, x.registry.as_slice());
    push_u64(&mut out, x.sequence);
    push_bytes(&mut out, x.release.as_slice());
    push_bytes(&mut out, x.owner_program.as_slice());
    push_bytes(&mut out, x.instance.as_slice());
    push_bytes(&mut out, x.creator.as_slice());
    push_bytes(&mut out, x.business_key.as_slice());
    push_bytes(&mut out, x.rules_hash.as_slice());
    push_u64(&mut out, x.created_slot);
    assert(out@ =~= instance_bytes(*x));
    out
}

pub fn decode_business_key(b: &[u8]) -> (r: Option<BusinessKey>)
    ensures
        r matches Some(x) ==> business_key_bytes(x) == b@,
        r is None ==> forall|x: BusinessKey| business_key_bytes(x) != b@,
{
    if b.len() != 40 {
        assert forall|x: BusinessKey| business_key_bytes(x) != b@ by {
            assert(business_key_bytes(x).len() == 40);
        }
        return None;
    }
    let x = BusinessKey { tag: get_array8(b, 0), entry: get_array32(b, 8) };
    assert(business_key_bytes(x) =~= b@);
    Some(x)
}

pub fn encode_business_key(x: &BusinessKey) -> (out: Vec<u8>)
    ensures
        out@ == business_key_bytes(*x),
{
    let mut out: Vec<u8> = Vec::new();
    push_bytes(&mut out, x.tag.as_slice());
    push_bytes(&mut out, x.entry.as_slice());
    out
}

pub fn decode_record(b: &[u8]) -> (r: Option<Record>)
    ensures
        r matches Some(x) ==> str_encodable(x.reason@) && record_bytes(x@) == b@,
        r is None ==> forall|x: RecordModel| str_encodable(x.reason) ==> record_bytes(x) != b@,
{
    proof {
        lemma_le_lengths();
    }
    if b.len() < 161 {
        assert forall|x: RecordModel| str_encodable(x.reason) implies record_bytes(x) != b@ by {
            assert(record_head_bytes(x).len() == 161);
        }
        return None;
    }
    let tag = get_array8(b, 0);
    let registry = get_array32(b, 8);
    let sequence = get_u64(b, 40);
    let release = get_array32(b, 48);
    let actor = get_array32(b, 80);
    let slot = get_u64(b, 112);
    let timestamp = get_i64(b, 120);
    let status = get_u8(b, 128);
    let successor = get_array32(b, 129);
    match get_str_to_end(b, 161) {
        Some(reason) => {
            let x = Record {
                tag,
                registry,
                sequence,
                release,
                actor,
                slot,
                timestamp,
                status,
                successor,
                reason,
            };
            assert(record_head_bytes(x@) =~= b@.subrange(0, 161));
            assert(record_bytes(x@) =~= b@);
            Some(x)
        },
        None => {
            assert forall|x: RecordModel| str_encodable(x.reason) implies record_bytes(x) != b@ by {
                if record_bytes(x) == b@ {
                    assert(record_head_bytes(x).len() == 161);
                    assert(record_bytes(x).subrange(161, record_bytes(x).len() as int)
                        =~= str_bytes(x.reason));
                    assert(b@.subrange(161, b@.len() as int) == str_bytes(x.reason));
                }
            }
            None
        },
    }
}

/// The record's bytes; `None` when its reason is too long for the length prefix.
pub fn encode_record(x: &Record) -> (out: Option<Vec<u8>>)
    ensures
        out is Some <==> str_encodable(x.reason@),
        out matches Some(v) ==> v@ == record_bytes(x@),
{
    let mut out: Vec<u8> = Vec::new();
    push_bytes(&mut out, x.tag.as_slice());
    push_bytes(&mut out, x.registry.as_slice());
    push_u64(&mut out, x.sequence);
    push_bytes(&mut out, x.release.as_slice());
    push_bytes(&mut out, x.actor.as_slice());
    push_u64(&mut out, x.slot);
    push_i64(&mut out, x.timestamp);
    out.push(x.status);
    push_bytes(&mut out, x.successor.as_slice());
    assert(out@ =~= record_head_bytes(x@));
    if push_str(&mut out, &x.reason) {
        assert(out@ =~= record_bytes(x@));
        Some(out)
    } else {
        None
    }
}


/// The instruction that `b` encodes, if any.
pub fn decode_instruction(b: &[u8]) -> (r: Option<Instruction>)
    ensures
        r matches Some(ix) ==> instruction_encodable(ix@) && instruction_bytes(ix@) == b@,
        r is None ==> forall|ix: InstructionModel|
            instruction_encodable(ix) ==> instruction_bytes(ix) != b@,
{
    proof {
        lemma_le_lengths();
    }
    let n = b.len();
    if n == 0 {
        assert forall|ix: InstructionModel| instruction_encodable(ix) implies instruction_bytes(ix)
            != b@ by {
            assert(instruction_bytes(ix).len() > 0);
        }
        return None;
    }
    let variant = b[0];
    if variant == 0 {
        if n != 37 {
            assert forall|ix: InstructionModel| instruction_encodable(ix) implies instruction_bytes(ix)
                != b@ by {
                if instruction_bytes(ix) == b@ {
                    assert(instruction_bytes(ix)[0] == 0);
                }
            }
            return None;
        }
        let ix = Instruction::Initialize {
            guardian: get_array32(b, 1),
            activation_delay: get_u32(b, 33),
        };
        assert(instruction_bytes(ix@) =~= b@);
        return Some(ix);
    }
    if variant == 1 {
        if n != 98 {
            assert forall|ix: InstructionModel| instruction_encodable(ix) implies instruction_bytes(ix)
                != b@ by {
                if instruction_bytes(ix) == b@ {
                    assert(instruction_bytes(ix)[0] == 1);
                }
            }
            return None;
        }
        let ix = Instruction::Register {
            domain: get_u8(b, 1),
            series: get_array32(b, 2),
            source_hash: get_array32(b, 34),
            executable_hash: get_array32(b, 66),
        };
        assert(instruction_bytes(ix@) =~= b@);
        return Some(ix);
    }
    if variant == 6 {
        if n != 41 {
            assert forall|ix: InstructionModel| instruction_encodable(ix) implies instruction_bytes(ix)
                != b@ by {
                if instruction_bytes(ix) == b@ {
                    assert(instruction_bytes(ix)[0] == 6);
                }
            }
            return None;
        }
        let ix = Instruction::RecordInstance {
            day_or_nonce: get_u64(b, 1),
            rules_hash: get_array32(b, 9),
        };
        assert(instruction_bytes(ix@) =~= b@);
        return Some(ix);
    }
    if variant > 6 {
        assert forall|ix: InstructionModel| instruction_encodable(ix) implies instruction_bytes(ix)
            != b@ by {
            if instruction_bytes(ix) == b@ {
                assert(instruction_bytes(ix)[0] <= 6);
            }
        }
        return None;
    }
    match get_str_to_end(b, 1) {
        Some(reason) => {
            let ghost rv = reason@;
            let ix = if variant == 2 {
                Instruction::Activate { reason }
            } else if variant == 3 {
                Instruction::Pause { reason }
            } else if variant == 4 {
                Instruction::Discontinue { reason }
            } else {
                Instruction::SetSuccessor { reason }
            };
            assert(instruction_reason(ix@) == Some(rv));
            assert(instruction_bytes(ix@) =~= seq![variant] + str_bytes(rv));
            assert(instruction_bytes(ix@) =~= b@);
            Some(ix)
        },
        None => {
            assert forall|ix: InstructionModel| instruction_encodable(ix) implies instruction_bytes(ix)
                != b@ by {
                if instruction_bytes(ix) == b@ {
                    assert(instruction_bytes(ix)[0] == variant);
                    let s = instruction_reason(ix)->0;
                    assert(instruction_bytes(ix) == seq![variant] + str_bytes(s));
                    assert(b@.subrange(1, n as int) =~= str_bytes(s));
                }
            }
            None
        },
    }
}

/// The instruction's bytes; `None` when its reason is too long for the length prefix.
pub fn encode_instruction(ix: &Instruction) -> (out: Option<Vec<u8>>)
    ensures
        out is Some <==> instruction_encodable(ix@),
        out matches Some(v) ==> v@ == instruction_bytes(ix@),
{
    let mut out: Vec<u8> = Vec::new();
    match ix {
        Instruction::Initialize { guardian, activation_delay } => {
            out.push(0u8);
            push_bytes(&mut out, guardian.as_slice());
            push_u32(&mut out, *activation_delay);
        },
        Instruction::Register { domain, series, source_hash, executable_hash } => {
            out.push(1u8);
            out.push(*domain);
            push_bytes(&mut out, series.as_slice());
            push_bytes(&mut out, source_hash.as_slice());
            push_bytes(&mut out, executable_hash.as_slice());
        },
        Instruction::Activate { reason } => {
            out.push(2u8);
            if !push_str(&mut out, reason) {
                return None;
            }
        },
        Instruction::Pause { reason } => {
            out.push(3u8);
            if !push_str(&mut out, reason) {
                return None;
            }
        },
        Instruction::Discontinue { reason } => {
            out.push(4u8);
            if !push_str(&mut out, reason) {
                return None;
            }
        },
        Instruction::SetSuccessor { reason } => {
            out.push(5u8);
            if !push_str(&mut out, reason) {
                return None;
            }
        },
        Instruction::RecordInstance { day_or_nonce, rules_hash } => {
            out.push(6u8);
            push_u64(&mut out, *day_or_nonce);
            push_bytes(&mut out, rules_hash.as_slice());
        },
    }
    assert(out@ =~= instruction_bytes(ix@));
    Some(out)
}


// ---------------------------------------------------------------- each encoding is injective

proof fn lemma_arrays8(a: [u8; 8], b: [u8; 8])
    requires
        a@ == b@,
    ensures
        a == b,
{
    assert(a =~= b);
}

proof fn lemma_arrays32(a: [u8; 32], b: [u8; 32])
    requires
        a@ == b@,
    ensures
        a == b,
{
    assert(a =~= b);
}

/// Two configurations with the same bytes are the same configuration.
pub proof fn lemma_config_injective(a: Config, b: Config)
    requires
        config_bytes(a) == config_bytes(b),
    ensures
        a == b,
{
    lemma_le_lengths();
    lemma_le_injective();
    let x = config_bytes(a);
    let y = config_bytes(b);
    assert(x.subrange(0, 8) =~= a.tag@ && y.subrange(0, 8) =~= b.tag@);
    assert(x.subrange(8, 10) =~= le16(a.schema) && y.subrange(8, 10) =~= le16(b.schema));
    assert(x.subrange(10, 42) =~= a.authority@ && y.subrange(10, 42) =~= b.authority@);
    assert(x.subrange(42, 74) =~= a.guardian@ && y.subrange(42, 74) =~= b.guardian@);
    assert(x.subrange(74, 78) =~= le32(a.activation_delay) && y.subrange(74, 78) =~= le32(
        b.activation_delay,
    ));
    assert(x.subrange(78, 86) =~= le64(a.release_count) && y.subrange(78, 86) =~= le64(
        b.release_count,
    ));
    assert(x.subrange(86, 94) =~= le64(a.record_count) && y.subrange(86, 94) =~= le64(
        b.record_count,
    ));
    assert(x.subrange(94, 102) =~= le64(a.instance_count) && y.subrange(94, 102) =~= le64(
        b.instance_count,
    ));
    lemma_arrays8(a.tag, b.tag);
    lemma_arrays32(a.authority, b.authority);
    lemma_arrays32(a.guardian, b.guardian);
}

/// Two releases with the same bytes are the same release.
pub proof fn lemma_release_injective(a: Release, b: Release)
    requires
        release_bytes(a) == release_bytes(b),
    ensures
        a == b,
{
    lemma_le_lengths();
    lemma_le_injective();
    let x = release_bytes(a);
    let y = release_bytes(b);
    assert(x.subrange(0, 8) =~= a.tag@ && y.subrange(0, 8) =~= b.tag@);
    assert(x.subrange(8, 40) =~= a.registry@ && y.subrange(8, 40) =~= b.registry@);
    assert(x.subrange(40, 72) =~= a.program@ && y.subrange(40, 72) =~= b.program@);
    assert(x[72] == a.domain && y[72] == b.domain);
    assert(x.subrange(73, 105) =~= a.series@ && y.subrange(73, 105) =~= b.series@);
    assert(x.subrange(105, 137) =~= a.source_hash@ && y.subrange(105, 137) =~= b.source_hash@);
    assert(x.subrange(137, 169) =~= a.executable_hash@ && y.subrange(137, 169)
        =~= b.executable_hash@);
    assert(x.subrange(169, 177) =~= le64(a.sequence) && y.subrange(169, 177) =~= le64(
        b.sequence,
    ));
    assert(x.subrange(177, 185) =~= le64(a.registered_slot) && y.subrange(177, 185) =~= le64(
        b.registered_slot,
    ));
    assert(x.subrange(185, 193) =~= le_i64(a.eligible_at) && y.subrange(185, 193) =~= le_i64(
        b.eligible_at,
    ));
    assert(x[193] == a.status && y[193] == b.status);
    assert(x.subrange(194, 226) =~= a.successor@ && y.subrange(194, 226) =~= b.successor@);
    lemma_arrays8(a.tag, b.tag);
    lemma_arrays32(a.registry, b.registry);
    lemma_arrays32(a.program, b.program);
    lemma_arrays32(a.series, b.series);
    lemma_arrays32(a.source_hash, b.source_hash);
    lemma_arrays32(a.executable_hash, b.executable_hash);
    lemma_arrays32(a.successor, b.successor);
}

/// Two inventory entries with the same bytes are the same entry.
pub proof fn lemma_instance_injective(a: Instance, b: Instance)
    requires
        instance_bytes(a) == instance_bytes(b),
    ensures
        a == b,
{
    lemma_le_lengths();
    lemma_le_injective();
    let x = instance_bytes(a);
    let y = instance_bytes(b);
    assert(x.subrange(0, 8) =~= a.tag@ && y.subrange(0, 8) =~= b.tag@);
    assert(x.subrange(8, 40) =~= a.registry@ && y.subrange(8, 40) =~= b.registry@);
    assert(x.subrange(40, 48) =~= le64(a.sequence) && y.subrange(40, 48) =~= le64(b.sequence));
    assert(x.subrange(48, 80) =~= a.release@ && y.subrange(48, 80) =~= b.release@);
    assert(x.subrange(80, 112) =~= a.owner_program@ && y.subrange(80, 112) =~= b.owner_program@);
    assert(x.subrange(112, 144) =~= a.instance@ && y.subrange(112, 144) =~= b.instance@);
    assert(x.subrange(144, 176) =~= a.creator@ && y.subrange(144, 176) =~= b.creator@);
    assert(x.subrange(176, 208) =~= a.business_key@ && y.subrange(176, 208) =~= b.business_key@);
    assert(x.subrange(208, 240) =~= a.rules_hash@ && y.subrange(208, 240) =~= b.rules_hash@);
    assert(x.subrange(240, 248) =~= le64(a.created_slot) && y.subrange(240, 248) =~= le64(
        b.created_slot,
    ));
    lemma_arrays8(a.tag, b.tag);
    lemma_arrays32(a.registry, b.registry);
    lemma_arrays32(a.release, b.release);
    lemma_arrays32(a.owner_program, b.owner_program);
    lemma_arrays32(a.instance, b.instance);
    lemma_arrays32(a.creator, b.creator);
    lemma_arrays32(a.business_key, b.business_key);
    lemma_arrays32(a.rules_hash, b.rules_hash);
}

/// Two business-key accounts with the same bytes are the same.
pub proof fn lemma_business_key_injective(a: BusinessKey, b: BusinessKey)
    requires
        business_key_bytes(a) == business_key_bytes(b),
    ensures
        a == b,
{
    let x = business_key_bytes(a);
    let y = business_key_bytes(b);
    assert(x.subrange(0, 8) =~= a.tag@ && y.subrange(0, 8) =~= b.tag@);
    assert(x.subrange(8, 40) =~= a.entry@ && y.subrange(8, 40) =~= b.entry@);
    lemma_arrays8(a.tag, b.tag);
    lemma_arrays32(a.entry, b.entry);
}

/// Two encodable strings with the same bytes are the same string.
pub proof fn lemma_str_injective(a: Seq<char>, b: Seq<char>)
    requires
        str_encodable(a),
        str_encodable(b),
        str_bytes(a) == str_bytes(b),
    ensures
        a == b,
{
    lemma_le_lengths();
    lemma_le_injective();
    let x = str_bytes(a);
    assert(x.subrange(0, 4) =~= le32(encode_utf8(a).len() as u32));
    assert(str_bytes(b).subrange(0, 4) =~= le32(encode_utf8(b).len() as u32));
    assert(encode_utf8(a).len() == encode_utf8(b).len());
    assert(x.subrange(4, x.len() as int) =~= encode_utf8(a));
    assert(str_bytes(b).subrange(4, x.len() as int) =~= encode_utf8(b));
    vstd::utf8::encode_utf8_decode_utf8(a);
    vstd::utf8::encode_utf8_decode_utf8(b);
}

/// Two encodable records with the same bytes are the same record.
pub proof fn lemma_record_injective(a: RecordModel, b: RecordModel)
    requires
        str_encodable(a.reason),
        str_encodable(b.reason),
        record_bytes(a) == record_bytes(b),
    ensures
        a == b,
{
    lemma_le_lengths();
    lemma_le_injective();
    let x = record_bytes(a);
    let y = record_bytes(b);
    assert(x.subrange(0, 8) =~= a.tag@ && y.subrange(0, 8) =~= b.tag@);
    assert(x.subrange(8, 40) =~= a.registry@ && y.subrange(8, 40) =~= b.registry@);
    assert(x.subrange(40, 48) =~= le64(a.sequence) && y.subrange(40, 48) =~= le64(b.sequence));
    assert(x.subrange(48, 80) =~= a.release@ && y.subrange(48, 80) =~= b.release@);
    assert(x.subrange(80, 112) =~= a.actor@ && y.subrange(80, 112) =~= b.actor@);
    assert(x.subrange(112, 120) =~= le64(a.slot) && y.subrange(112, 120) =~= le64(b.slot));
    assert(x.subrange(120, 128) =~= le_i64(a.timestamp) && y.subrange(120, 128) =~= le_i64(
        b.timestamp,
    ));
    assert(x[128] == a.status && y[128] == b.status);
    assert(x.subrange(129, 161) =~= a.successor@ && y.subrange(129, 161) =~= b.successor@);
    assert(x.subrange(161, x.len() as int) =~= str_bytes(a.reason));
    assert(y.subrange(161, y.len() as int) =~= str_bytes(b.reason));
    lemma_str_injective(a.reason, b.reason);
    lemma_arrays8(a.tag, b.tag);
    lemma_arrays32(a.registry, b.registry);
    lemma_arrays32(a.release, b.release);
    lemma_arrays32(a.actor, b.actor);
    lemma_arrays32(a.successor, b.successor);
}

/// Two encodable instructions with the same bytes are the same instruction.
pub proof fn lemma_instruction_injective(a: InstructionModel, b: InstructionModel)
    requires
        instruction_encodable(a),
        instruction_encodable(b),
        instruction_bytes(a) == instruction_bytes(b),
    ensures
        a == b,
{
    lemma_le_lengths();
    lemma_le_injective();
    let x = instruction_bytes(a);
    let y = instruction_bytes(b);
    assert(x[0] == y[0]);
    match a {
        InstructionModel::Initialize { guardian, activation_delay } => {
            assert(b is Initialize);
            let g2 = b->guardian;
            let d2 = b->activation_delay;
            assert(x.subrange(1, 33) =~= guardian@ && y.subrange(1, 33) =~= g2@);
            assert(x.subrange(33, 37) =~= le32(activation_delay) && y.subrange(33, 37) =~= le32(
                d2,
            ));
            lemma_arrays32(guardian, g2);
        },
        InstructionModel::Register { domain, series, source_hash, executable_hash } => {
            assert(b is Register);
            let d2 = b->domain;
            let s2 = b->series;
            let h2 = b->source_hash;
            let e2 = b->executable_hash;
            assert(x[1] == domain && y[1] == d2);
            assert(x.subrange(2, 34) =~= series@ && y.subrange(2, 34) =~= s2@);
            assert(x.subrange(34, 66) =~= source_hash@ && y.subrange(34, 66) =~= h2@);
            assert(x.subrange(66, 98) =~= executable_hash@ && y.subrange(66, 98) =~= e2@);
            lemma_arrays32(series, s2);
            lemma_arrays32(source_hash, h2);
            lemma_arrays32(executable_hash, e2);
        },
        InstructionModel::RecordInstance { day_or_nonce, rules_hash } => {
            assert(b is RecordInstance);
            let n2 = b->day_or_nonce;
            let r2 = b->rules_hash;
            assert(x.subrange(1, 9) =~= le64(day_or_nonce) && y.subrange(1, 9) =~= le64(n2));
            assert(x.subrange(9, 41) =~= rules_hash@ && y.subrange(9, 41) =~= r2@);
            lemma_arrays32(rules_hash, r2);
        },
        _ => {
            let ra = instruction_reason(a)->0;
            let rb = instruction_reason(b)->0;
            assert(instruction_reason(b) is Some);
            assert(x.subrange(1, x.len() as int) =~= str_bytes(ra));
            assert(y.subrange(1, y.len() as int) =~= str_bytes(rb));
            lemma_str_injective(ra, rb);
        },
    }
}

} // verus!
