//! What every lottery program shares: the two players, the lamports an
//! instruction moves, the commitment check and the parity rule that picks
//! the winner.
use vstd::prelude::*;
use crate::common::bytes32_eq;
use crate::hashing::{keccak256, keccak_hash};

verus! {

/// One of the two players.
#[derive(Clone, Copy, Debug, PartialEq, Eq, Structural)]
pub enum Player {
    Player1,
    Player2,
}

/// Lamports that leave the lottery's account for a player.
#[derive(Clone, Copy, Debug, PartialEq, Eq, Structural)]
pub struct Payout {
    pub to: Player,
    pub amount: u64,
}

/// Lamports that each player moves into the lottery's account on joining.
#[derive(Clone, Copy, Debug, PartialEq, Eq, Structural)]
pub struct Stakes {
    pub from_player1: u64,
    pub from_player2: u64,
}

/// The UTF-8 bytes of a string, given by its characters.
pub open spec fn utf8_bytes(s: Seq<char>) -> Seq<u8> {
    vstd::utf8::encode_utf8(s)
}

/// The length of a string in bytes.
pub fn byte_len(s: &String) -> (n: usize)
    ensures
        n == utf8_bytes(s@).len(),
{
    s.as_str().as_bytes().len()
}

/// The string is empty.
pub fn is_empty_string(s: &String) -> (b: bool)
    ensures
        b == (utf8_bytes(s@).len() == 0),
{
    byte_len(s) == 0
}

/// The Keccak-256 digest of the secret's bytes is the commitment.
pub open spec fn opens(secret: Seq<char>, hashlock: Seq<u8>) -> bool {
    keccak256(utf8_bytes(secret)) == hashlock
}

/// Checks a revealed secret against a commitment: the Keccak-256 digest of
/// its bytes must be the 32 committed bytes.
pub fn commitment_matches(secret: &String, hashlock: &[u8; 32]) -> (b: bool)
    ensures
        b == opens(secret@, hashlock@),
{
    let digest = keccak_hash(secret.as_str().as_bytes());
    bytes32_eq(&digest, hashlock)
}

/// The winner by the parity rule: player1 when the total length of the two
/// secrets is even, player2 when it is odd.
pub open spec fn parity_winner(len1: int, len2: int) -> Player {
    if (len1 + len2) % 2 == 0 {
        Player::Player1
    } else {
        Player::Player2
    }
}

/// The winner by the parity rule, for two byte lengths (the parity of their
/// sum, taken without forming the sum).
pub fn winner_by_parity(len1: usize, len2: usize) -> (w: Player)
    ensures
        w == parity_winner(len1 as int, len2 as int),
{
    if (len1 % 2 + len2 % 2) % 2 == 0 {
        Player::Player1
    } else {
        Player::Player2
    }
}

/// Two secrets of `len1` and `len2` bytes fit together in the `space` bytes
/// that a lottery's account keeps for them.
pub open spec fn secrets_fit(len1: int, len2: int, space: int) -> bool {
    len1 + len2 <= space
}

/// Checks that two secrets of `len1` and `len2` bytes fit together in
/// `space` bytes.
pub fn check_secrets_fit(len1: usize, len2: usize, space: usize) -> (b: bool)
    ensures
        b == secrets_fit(len1 as int, len2 as int, space as int),
{
    len1 <= space && len2 <= space - len1
}

/// Law: the parity rule is fair to both players: whatever the length of
/// one secret, one more byte in the other hands the win to the other player.
pub proof fn lemma_parity_rule_flips(len1: int, len2: int)
    ensures
        parity_winner(len1, len2) != parity_winner(len1, len2 + 1),
        parity_winner(len1, len2) != parity_winner(len1 + 1, len2),
        parity_winner(len1, len2) == parity_winner(len2, len1),
{
}

} // verus!
