//! Upgradeable-loader accounts: the immutability gate and the executable digest.
use crate::bytes::{eq32, vec32, views};
use crate::hashing::{sha256v, solana_sha256v};
use crate::pda::{key, spec_key};
use crate::registry::{AccountView, Error, BPF_LOADER_UPGRADEABLE};
use vstd::prelude::*;
use vstd::slice::slice_subrange;

verus! {

/// Length of the ProgramData metadata that precedes the executable bytes.
pub const PROGRAM_DATA_METADATA: usize = 45;

/// `s` without its trailing zero bytes.
pub open spec fn trim_trailing_zeros(s: Seq<u8>) -> Seq<u8>
    decreases s.len(),
{
    if s.len() == 0 {
        s
    } else if s.last() == 0 {
        trim_trailing_zeros(s.drop_last())
    } else {
        s
    }
}

/// The digest that activation compares with a release's executable hash: SHA-256 of the
/// ProgramData bytes after the 45-byte metadata, with trailing zero padding stripped.
pub open spec fn executable_digest(program_data: Seq<u8>) -> Seq<u8> {
    solana_sha256v(seq![trim_trailing_zeros(program_data.subrange(45, program_data.len() as int))])
}

/// The length of `s` once its trailing zero bytes are stripped.
pub fn trimmed_len(s: &[u8]) -> (end: usize)
    ensures
        end <= s@.len(),
        s@.subrange(0, end as int) == trim_trailing_zeros(s@),
{
    let n = s.len();
    let mut i: usize = n;
    assert(s@.subrange(0, n as int) =~= s@);
    while i > 0 && s[i - 1] == 0
        invariant
            i <= n,
            n == s@.len(),
            trim_trailing_zeros(s@.subrange(0, i as int)) == trim_trailing_zeros(s@),
        decreases i,
    {
        assert(s@.subrange(0, i as int).drop_last() =~= s@.subrange(0, i - 1));
        i = i - 1;
    }
    i
}

/// `executable_digest` of the ProgramData bytes `data`, which are longer than the metadata.
pub fn executable_hash(data: &[u8]) -> (r: [u8; 32])
    requires
        data@.len() > 45,
    ensures
        r@ == executable_digest(data@),
{
    let payload = slice_subrange(data, PROGRAM_DATA_METADATA, data.len());
    let end = trimmed_len(payload);
    let mut pieces: Vec<Vec<u8>> = Vec::new();
    pieces.push(vstd::slice::slice_to_vec(slice_subrange(payload, 0, end)));
    assert(views(pieces@) =~= seq![trim_trailing_zeros(data@.subrange(45, data@.len() as int))]);
    sha256v(&pieces)
}

/// The ProgramData address of `program` under the upgradeable loader: `[program]`.
pub open spec fn program_data_seeds(program: Seq<u8>) -> Seq<Seq<u8>> {
    seq![program]
}

/// An executable of the upgradeable loader whose ProgramData account is `data` and is
/// immutable: the program account holds variant 2 and the data address; the data account
/// sits at the loader address of the program, holds variant 3 and no upgrade authority
/// (byte 12 is zero), and is longer than its metadata.
pub open spec fn spec_require_immutable(program: AccountView, data: AccountView) -> Result<(), Error> {
    let p = program.data@;
    let d = data.data@;
    if !(program.executable && program.owner@ == BPF_LOADER_UPGRADEABLE@ && data.owner@
        == BPF_LOADER_UPGRADEABLE@) {
        Err(Error::MutableProgram)
    } else if !(p.len() == 36 && p.subrange(0, 4) == seq![2u8, 0, 0, 0] && p.subrange(4, 36)
        == data.key@) {
        Err(Error::MutableProgram)
    } else if spec_key(BPF_LOADER_UPGRADEABLE@, data.key@, program_data_seeds(program.key@)) is Err {
        Err(Error::Invalid)
    } else if !(d.len() > 45 && d.subrange(0, 4) == seq![3u8, 0, 0, 0] && d[12] == 0) {
        Err(Error::MutableProgram)
    } else {
        Ok(())
    }
}

fn variant_is(b: &[u8], v: u8) -> (r: bool)
    requires
        b@.len() >= 4,
    ensures
        r == (b@.subrange(0, 4) == seq![v, 0u8, 0, 0]),
{
    let r = b[0] == v && b[1] == 0 && b[2] == 0 && b[3] == 0;
    assert(r ==> b@.subrange(0, 4) =~= seq![v, 0u8, 0, 0]);
    assert(b@.subrange(0, 4) == seq![v, 0u8, 0, 0] ==> b@.subrange(0, 4)[0] == v && b@.subrange(
        0,
        4,
    )[1] == 0 && b@.subrange(0, 4)[2] == 0 && b@.subrange(0, 4)[3] == 0);
    r
}

fn tail_is_key(b: &[u8], k: &[u8; 32]) -> (r: bool)
    requires
        b@.len() == 36,
    ensures
        r == (b@.subrange(4, 36) == k@),
{
    let mut i: usize = 0;
    while i < 32
        invariant
            i <= 32,
            b@.len() == 36,
            forall|j: int| 0 <= j < i ==> b@[4 + j] == k@[j],
        decreases 32 - i,
    {
        if b[4 + i] != k[i] {
            assert(b@.subrange(4, 36)[i as int] != k@[i as int]);
            return false;
        }
        i = i + 1;
    }
    assert(b@.subrange(4, 36) =~= k@);
    true
}

pub fn require_immutable(program: &AccountView, data: &AccountView) -> (r: Result<(), Error>)
    ensures
        r == spec_require_immutable(*program, *data),
{
    if !(program.executable && eq32(&program.owner, &BPF_LOADER_UPGRADEABLE) && eq32(
        &data.owner,
        &BPF_LOADER_UPGRADEABLE,
    )) {
        return Err(Error::MutableProgram);
    }
    let p = program.data.as_slice();
    let d = data.data.as_slice();
    if !(p.len() == 36 && variant_is(p, 2) && tail_is_key(p, &data.key)) {
        return Err(Error::MutableProgram);
    }
    let mut seeds: Vec<Vec<u8>> = Vec::new();
    seeds.push(vec32(&program.key));
    assert(views(seeds@) =~= program_data_seeds(program.key@));
    key(&BPF_LOADER_UPGRADEABLE, &data.key, &seeds)?;
    if !(d.len() > 45 && variant_is(d, 3) && d[12] == 0) {
        return Err(Error::MutableProgram);
    }
    Ok(())
}

} // verus!
