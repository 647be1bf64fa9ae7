//! Program-derived account addresses: the address (and bump seed) that a
//! list of seeds and a program's id determine.
use vstd::prelude::*;
use crate::common::Pubkey;

verus! {

/// What the search for a program-derived address gives for `seeds` (each a
/// byte string) and the program id `program_id`: the address's bytes and its
/// bump seed, or nothing where no bump seed yields an address.
pub uninterp spec fn program_address_search(seeds: Seq<Seq<u8>>, program_id: Seq<u8>) -> Option<(Seq<u8>, u8)>;

/// A found address and bump seed, as values.
pub open spec fn found_address(found: Option<(Pubkey, u8)>) -> Option<(Seq<u8>, u8)> {
    match found {
        Some(f) => Some((f.0.bytes@, f.1)),
        None => None,
    }
}

/// The seed lists that the search refuses outright: sixteen seeds or more
/// (the bump seed makes one more), or a seed longer than 32 bytes.
pub open spec fn seeds_over_limits(seeds: Seq<Seq<u8>>) -> bool {
    seeds.len() >= 16 || exists|i: int| 0 <= i < seeds.len() && #[trigger] seeds[i].len() > 32
}

/// `Pubkey::try_find_program_address` of solana-program. Its result is
/// named, not stated: it searches the bump seeds from 255 down for the first
/// one that, appended to `seeds`, hashes with the program id to a point off
/// the ed25519 curve. The one fact stated is the source's refusal (no address)
/// of seed lists over the limits. It never panics.
#[verifier::external_body]
pub(crate) fn try_find_program_address(seeds: &Vec<Vec<u8>>, program_id: &Pubkey) -> (r: Option<(Pubkey, u8)>)
    ensures
        program_address_search(seeds.deep_view(), program_id.bytes@) == found_address(r),
        seeds_over_limits(seeds.deep_view()) ==> r is None,
{
    let slices: Vec<&[u8]> = seeds.iter().map(|s| s.as_slice()).collect();
    let id = anchor_lang::prelude::Pubkey::new_from_array(program_id.bytes);
    match anchor_lang::prelude::Pubkey::try_find_program_address(&slices, &id) {
        Some((address, bump)) => Some((Pubkey { bytes: address.to_bytes() }, bump)),
        None => None,
    }
}

/// The bytes of a key, as a seed.
pub fn key_seed(key: &Pubkey) -> (seed: Vec<u8>)
    ensures
        seed@ == key.bytes@,
        seed.deep_view() == key.bytes@,
{
    let mut seed: Vec<u8> = Vec::new();
    let mut i: usize = 0;
    while i < 32
        invariant
            0 <= i <= 32,
            key.bytes@.len() == 32,
            seed@ == key.bytes@.subrange(0, i as int),
        decreases 32 - i,
    {
        seed.push(key.bytes[i]);
        i = i + 1;
    }
    assert(seed@ =~= key.bytes@);
    assert(seed.deep_view() =~= seed@);
    seed
}

} // verus!
