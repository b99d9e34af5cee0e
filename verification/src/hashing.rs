//! SHA-256 as the registry and the domain programs compute it.
use sha2::Digest;
use vstd::prelude::*;

verus! {

/// What `solana_sha256_hasher::hashv` returns for the given pieces, in order.
pub uninterp spec fn solana_sha256v(pieces: Seq<Seq<u8>>) -> Seq<u8>;

/// What `sha2::Sha256::digest` returns for the given bytes.
pub uninterp spec fn sha2_digest(data: Seq<u8>) -> Seq<u8>;

/// Calls `solana_sha256_hasher::hashv` on the pieces and returns the digest's bytes.
/// Trusted: the result is named `solana_sha256v` of the pieces; the function reads
/// nothing but its argument (off-chain it feeds each piece to a SHA-256 hasher).
#[verifier::external_body]
pub(crate) fn sha256v(pieces: &Vec<Vec<u8>>) -> (r: [u8; 32])
    ensures
        r@ == solana_sha256v(crate::bytes::views(pieces@)),
{
    let slices: Vec<&[u8]> = pieces.iter().map(|p| p.as_slice()).collect();
    solana_sha256_hasher::hashv(&slices).to_bytes()
}

/// Calls `solana_sha256_hasher::hash` on `data`. Trusted: the crate defines `hash(val)`
/// as `hashv(&[val])`, so the result is `solana_sha256v` of the one piece `data`.
#[verifier::external_body]
pub(crate) fn sha256(data: &[u8]) -> (r: [u8; 32])
    ensures
        r@ == solana_sha256v(seq![data@]),
{
    solana_sha256_hasher::hash(data).to_bytes()
}

/// Calls `sha2::Sha256::digest` on `data`. Trusted: the result is named `sha2_digest`
/// of the bytes; the digest is 32 bytes and reads nothing but its argument.
#[verifier::external_body]
pub(crate) fn sha2_sha256(data: &[u8]) -> (r: [u8; 32])
    ensures
        r@ == sha2_digest(data@),
{
    sha2::Sha256::digest(data).into()
}

} // verus!
