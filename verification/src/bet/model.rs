//! What every bet program shares: the lamports an instruction moves, the
//! participant check, and the seeds of a bet's address.
use vstd::prelude::*;
use crate::common::{Pubkey, same_key};
use crate::address::key_seed;

verus! {

/// Lamports that each participant moves into the bet's account on joining.
#[derive(Clone, Copy, Debug, PartialEq, Eq, Structural)]
pub struct Wagers {
    pub from_participant1: u64,
    pub from_participant2: u64,
}

/// Lamports that leave the bet's account for the account `to`.
#[derive(Clone, Copy, Debug, PartialEq, Eq)]
pub struct Payment {
    pub to: Pubkey,
    pub amount: u64,
}

/// Lamports that leave the bet's account for each participant.
#[derive(Clone, Copy, Debug, PartialEq, Eq, Structural)]
pub struct Refund {
    pub to_participant1: u64,
    pub to_participant2: u64,
}

/// `key` names one of the two accounts `a` and `b`.
pub open spec fn one_of(key: Pubkey, a: Pubkey, b: Pubkey) -> bool {
    same_key(key, a) || same_key(key, b)
}

/// Checks that `key` names one of the two accounts `a` and `b`.
pub fn is_one_of(key: &Pubkey, a: &Pubkey, b: &Pubkey) -> (r: bool)
    ensures
        r == one_of(*key, *a, *b),
{
    key.key_eq(a) || key.key_eq(b)
}

/// The seeds of a bet's address: the keys of its two participants.
pub open spec fn pair_seeds(participant1: Pubkey, participant2: Pubkey) -> Seq<Seq<u8>> {
    seq![participant1.bytes@, participant2.bytes@]
}

/// The seeds of the address of the bet between two participants.
pub fn pair_seed_list(participant1: &Pubkey, participant2: &Pubkey) -> (seeds: Vec<Vec<u8>>)
    ensures
        seeds.deep_view() == pair_seeds(*participant1, *participant2),
{
    let mut seeds: Vec<Vec<u8>> = Vec::new();
    seeds.push(key_seed(participant1));
    seeds.push(key_seed(participant2));
    assert(seeds.deep_view() =~= pair_seeds(*participant1, *participant2));
    seeds
}

/// `a` comes before `b` in the byte-wise (lexicographic) order of keys.
pub open spec fn key_before(a: Seq<u8>, b: Seq<u8>) -> bool {
    exists|i: int|
        0 <= i < a.len() && i < b.len() && a[i] < b[i] && (forall|j: int| 0 <= j < i ==> a[j] == b[j])
}

/// Compares two keys byte by byte: `a` comes strictly before `b`.
pub fn key_less(a: &Pubkey, b: &Pubkey) -> (r: bool)
    ensures
        r == key_before(a.bytes@, b.bytes@),
{
    let mut i: usize = 0;
    while i < 32
        invariant
            0 <= i <= 32,
            a.bytes@.len() == 32,
            b.bytes@.len() == 32,
            forall|j: int| 0 <= j < i ==> a.bytes@[j] == b.bytes@[j],
        decreases 32 - i,
    {
        if a.bytes[i] != b.bytes[i] {
            if a.bytes[i] < b.bytes[i] {
                assert(key_before(a.bytes@, b.bytes@));
                return true;
            } else {
                assert forall|k: int|
                    0 <= k < a.bytes@.len() && k < b.bytes@.len() && (forall|j: int|
                        0 <= j < k ==> a.bytes@[j] == b.bytes@[j]) implies !(a.bytes@[k] < b.bytes@[k]) by {
                    if k > i {
                        assert(a.bytes@[i as int] == b.bytes@[i as int]);
                    }
                }
                return false;
            }
        }
        i = i + 1;
    }
    assert forall|k: int|
        0 <= k < a.bytes@.len() && k < b.bytes@.len() implies !(a.bytes@[k] < b.bytes@[k]) by {
        assert(a.bytes@[k] == b.bytes@[k]);
    }
    false
}

} // verus!
