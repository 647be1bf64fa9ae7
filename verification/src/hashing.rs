//! The digests the programs commit to: Keccak-256 (as solana-program
//! computes it) and SHA-256 (as the sha2 crate computes it).
use vstd::prelude::*;

verus! {

/// The Keccak-256 digest of `data`.
pub uninterp spec fn keccak256(data: Seq<u8>) -> Seq<u8>;

/// The Keccak-256 digest of the concatenation of `parts`.
pub uninterp spec fn keccak256_of_parts(parts: Seq<Seq<u8>>) -> Seq<u8>;

/// The SHA-256 digest of `data`.
pub uninterp spec fn sha256(data: Seq<u8>) -> Seq<u8>;

/// `keccak::hash` of solana-program, taken to its 32 bytes: the result is
/// named, not stated, and depends on `data` alone.
#[verifier::external_body]
pub(crate) fn keccak_hash(data: &[u8]) -> (digest: [u8; 32])
    ensures
        digest@ == keccak256(data@),
{
    anchor_lang::solana_program::keccak::hash(data).to_bytes()
}

/// `keccak::hashv` of solana-program on a single part, taken to its 32
/// bytes: the result is named, not stated, and depends on `data` alone.
#[verifier::external_body]
pub(crate) fn keccak_hashv_one(data: &[u8]) -> (digest: [u8; 32])
    ensures
        digest@ == keccak256_of_parts(seq![data@]),
{
    anchor_lang::solana_program::keccak::hashv(&[data]).to_bytes()
}

/// `Sha256::digest` of sha2, taken to a vector: the result is named, not
/// stated, and depends on `data` alone; its 32-byte length is stated.
#[verifier::external_body]
pub(crate) fn sha256_digest(data: &[u8]) -> (digest: Vec<u8>)
    ensures
        digest@ == sha256(data@),
        digest@.len() == 32,
{
    <sha2::Sha256 as sha2::Digest>::digest(data).to_vec()
}

} // verus!
