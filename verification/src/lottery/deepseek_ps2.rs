//! Lottery timed in slots: both players stake `amount` (which must be
//! positive) and commit to the Keccak-256 digests of their secrets; both
//! reveal by the deadline slot, player1 first. The winner by the parity rule
//! takes the lottery's whole balance; a player who has not revealed after the
//! deadline forfeits it to the other. The state is kept as a number.
use vstd::prelude::*;
use crate::common::{Pubkey, applied, applied_with, bytes32_eq};
use crate::hashing::{keccak256_of_parts, keccak_hashv_one};
use crate::lottery::model::{Player, Payout, Stakes, utf8_bytes, byte_len, parity_winner, secrets_fit, check_secrets_fit};

verus! {

/// The numbers that name the lottery's states.
pub struct LotteryState;

impl LotteryState {
    #[allow(non_upper_case_globals)]
    pub const Init: u8 = 0;

    #[allow(non_upper_case_globals)]
    pub const RevealP1: u8 = 1;

    #[allow(non_upper_case_globals)]
    pub const RevealP2: u8 = 2;
}

/// The lottery's account.
#[derive(Debug)]
pub struct LotteryInfo {
    pub state: u8,
    pub player1: Pubkey,
    pub player2: Pubkey,
    pub hashlock1: [u8; 32],
    pub secret1: String,
    pub hashlock2: [u8; 32],
    pub secret2: String,
    pub end_reveal: u64,
}

/// The lottery's account as values: byte strings and character strings.
pub struct LotteryView {
    pub state: u8,
    pub player1: Pubkey,
    pub player2: Pubkey,
    pub hashlock1: Seq<u8>,
    pub secret1: Seq<char>,
    pub hashlock2: Seq<u8>,
    pub secret2: Seq<char>,
    pub end_reveal: u64,
}

impl View for LotteryInfo {
    type V = LotteryView;

    open spec fn view(&self) -> LotteryView {
        LotteryView {
            state: self.state,
            player1: self.player1,
            player2: self.player2,
            hashlock1: self.hashlock1@,
            secret1: self.secret1@,
            hashlock2: self.hashlock2@,
            secret2: self.secret2@,
            end_reveal: self.end_reveal,
        }
    }
}

impl LotteryInfo {
    /// Bytes of the lottery's account: discriminator, state, two keys, two
    /// commitments, two secrets of up to 100 bytes with their length
    /// prefixes, and the deadline.
    pub const LEN: usize = 8 + 1 + 32 + 32 + 32 + (4 + 100) + 32 + (4 + 100) + 8;
}

#[derive(Clone, Copy, Debug, PartialEq, Eq, Structural)]
pub enum LotteryError {
    DuplicateHashes,
    InvalidDelay,
    InvalidAmount,
    InvalidEndReveal,
    InvalidState,
    RevealPeriodEnded,
    RevealPeriodNotEnded,
    InvalidSecret,
    MathOverflow,
    /// The framework's refusal to write the account back when the secrets on
    /// record no longer fit in its space; nothing the instruction did takes
    /// effect.
    AccountDidNotSerialize,
}

/// Bytes that the lottery's account keeps for the two secrets together: its
/// space less the fixed fields and the two length prefixes.
pub const SECRET_SPACE: usize = 200;

/// The Keccak-256 digest (computed over the one part that is the secret's
/// bytes) is the commitment.
pub open spec fn opens(secret: Seq<char>, hashlock: Seq<u8>) -> bool {
    keccak256_of_parts(seq![utf8_bytes(secret)]) == hashlock
}

/// The Keccak-256 digest of the bytes of `input`.
fn keccak_hash(input: &str) -> (digest: [u8; 32])
    ensures
        digest@ == keccak256_of_parts(seq![utf8_bytes(input@)]),
{
    keccak_hashv_one(input.as_bytes())
}

/// The winner's number: 0 (player1) when the total length of the two
/// secrets is even, 1 (player2) when it is odd. (The parity is taken
/// without forming the sum.)
fn determine_winner(secret1_len: usize, secret2_len: usize) -> (w: u8)
    ensures
        w == (secret1_len + secret2_len) % 2,
{
    ((secret1_len % 2 + secret2_len % 2) % 2) as u8
}

/// Outcome of two players joining at slot `slot`.
pub open spec fn join_result(
    player1: Pubkey,
    player2: Pubkey,
    hashlock1: Seq<u8>,
    hashlock2: Seq<u8>,
    delay: u64,
    amount: u64,
    slot: u64,
) -> Result<(LotteryView, Stakes), LotteryError> {
    if hashlock1 == hashlock2 {
        Err(LotteryError::DuplicateHashes)
    } else if !(delay > 0) {
        Err(LotteryError::InvalidDelay)
    } else if !(amount > 0) {
        Err(LotteryError::InvalidAmount)
    } else if !(slot + delay > slot) {
        Err(LotteryError::InvalidEndReveal)
    } else {
        Ok(
            (
                LotteryView {
                    state: LotteryState::Init,
                    player1,
                    player2,
                    hashlock1,
                    secret1: Seq::empty(),
                    hashlock2,
                    secret2: Seq::empty(),
                    end_reveal: (slot + delay) as u64,
                },
                Stakes { from_player1: amount, from_player2: amount },
            ),
        )
    }
}

/// Opens a lottery between `player1` and `player2` at slot `slot`: the two
/// commitments, the deadline slot `slot + delay`, and the stake `amount` that
/// each player pays in. The instruction aborts where the deadline does not fit
/// in 64 bits; those inputs are left out.
pub fn join(
    player1: Pubkey,
    player2: Pubkey,
    hashlock1: [u8; 32],
    hashlock2: [u8; 32],
    delay: u64,
    amount: u64,
    slot: u64,
) -> (r: Result<(LotteryInfo, Stakes), LotteryError>)
    requires
        hashlock1@ != hashlock2@ && delay > 0 && amount > 0 ==> slot + delay <= u64::MAX,
    ensures
        match join_result(player1, player2, hashlock1@, hashlock2@, delay, amount, slot) {
            Ok((v, s)) => r matches Ok(out) && out.0@ == v && out.1 == s,
            Err(e) => r == Err::<(LotteryInfo, Stakes), LotteryError>(e),
        },
{
    if bytes32_eq(&hashlock1, &hashlock2) {
        return Err(LotteryError::DuplicateHashes);
    }
    if !(delay > 0) {
        return Err(LotteryError::InvalidDelay);
    }
    if !(amount > 0) {
        return Err(LotteryError::InvalidAmount);
    }
    let end_reveal = slot + delay;
    if !(end_reveal > slot) {
        return Err(LotteryError::InvalidEndReveal);
    }
    let info = LotteryInfo {
        state: LotteryState::Init,
        player1,
        player2,
        hashlock1,
        secret1: String::new(),
        hashlock2,
        secret2: String::new(),
        end_reveal,
    };
    Ok((info, Stakes { from_player1: amount, from_player2: amount }))
}

/// Outcome of player1 revealing `secret` at slot `slot`.
pub open spec fn reveal_p1_result(l: LotteryView, secret: Seq<char>, slot: u64) -> Result<LotteryView, LotteryError> {
    if l.state != LotteryState::Init {
        Err(LotteryError::InvalidState)
    } else if !(slot <= l.end_reveal) {
        Err(LotteryError::RevealPeriodEnded)
    } else if !opens(secret, l.hashlock1) {
        Err(LotteryError::InvalidSecret)
    } else if !secrets_fit(utf8_bytes(secret).len() as int, utf8_bytes(l.secret2).len() as int, SECRET_SPACE as int) {
        Err(LotteryError::AccountDidNotSerialize)
    } else {
        Ok(LotteryView { state: LotteryState::RevealP1, secret1: secret, ..l })
    }
}

/// Player1 reveals `secret`, which must open the first commitment, by the
/// deadline slot.
/// Refused, after every other check, when the two secrets on record would
/// take more than `SECRET_SPACE` bytes together.
pub fn reveal_p1(lottery: &mut LotteryInfo, secret: String, slot: u64) -> (r: Result<(), LotteryError>)
    ensures
        applied(r, old(lottery)@, final(lottery)@, reveal_p1_result(old(lottery)@, secret@, slot)),
{
    if !(lottery.state == LotteryState::Init) {
        return Err(LotteryError::InvalidState);
    }
    if !(slot <= lottery.end_reveal) {
        return Err(LotteryError::RevealPeriodEnded);
    }
    let computed_hash = keccak_hash(secret.as_str());
    if !bytes32_eq(&computed_hash, &lottery.hashlock1) {
        return Err(LotteryError::InvalidSecret);
    }
    if !check_secrets_fit(byte_len(&secret), byte_len(&lottery.secret2), SECRET_SPACE) {
        return Err(LotteryError::AccountDidNotSerialize);
    }
    lottery.state = LotteryState::RevealP1;
    lottery.secret1 = secret;
    Ok(())
}

/// Outcome of player2 revealing `secret` at slot `slot`, with the lottery's
/// balance.
pub open spec fn reveal_p2_result(l: LotteryView, secret: Seq<char>, slot: u64, lottery_lamports: u64) -> Result<
    (LotteryView, Payout),
    LotteryError,
> {
    if l.state != LotteryState::RevealP1 {
        Err(LotteryError::InvalidState)
    } else if !(slot <= l.end_reveal) {
        Err(LotteryError::RevealPeriodEnded)
    } else if !opens(secret, l.hashlock2) {
        Err(LotteryError::InvalidSecret)
    } else if !secrets_fit(utf8_bytes(l.secret1).len() as int, utf8_bytes(secret).len() as int, SECRET_SPACE as int) {
        Err(LotteryError::AccountDidNotSerialize)
    } else {
        Ok(
            (
                LotteryView { state: LotteryState::RevealP2, secret2: secret, ..l },
                Payout {
                    to: parity_winner(utf8_bytes(l.secret1).len() as int, utf8_bytes(secret).len() as int),
                    amount: lottery_lamports,
                },
            ),
        )
    }
}

/// Player2 reveals `secret`, which must open the second commitment, by the
/// deadline slot; the winner by the parity rule of the two secrets' byte
/// lengths is paid the lottery's whole balance.
/// Refused, after every other check, when the two secrets on record would
/// take more than `SECRET_SPACE` bytes together.
pub fn reveal_p2(lottery: &mut LotteryInfo, secret: String, slot: u64, lottery_lamports: u64) -> (r: Result<
    Payout,
    LotteryError,
>)
    ensures
        applied_with(r, old(lottery)@, final(lottery)@, reveal_p2_result(old(lottery)@, secret@, slot, lottery_lamports)),
{
    if !(lottery.state == LotteryState::RevealP1) {
        return Err(LotteryError::InvalidState);
    }
    if !(slot <= lottery.end_reveal) {
        return Err(LotteryError::RevealPeriodEnded);
    }
    let computed_hash = keccak_hash(secret.as_str());
    if !bytes32_eq(&computed_hash, &lottery.hashlock2) {
        return Err(LotteryError::InvalidSecret);
    }
    if !check_secrets_fit(byte_len(&lottery.secret1), byte_len(&secret), SECRET_SPACE) {
        return Err(LotteryError::AccountDidNotSerialize);
    }
    lottery.state = LotteryState::RevealP2;
    lottery.secret2 = secret;
    let winner = determine_winner(byte_len(&lottery.secret1), byte_len(&lottery.secret2));
    let to = if winner == 0 {
        Player::Player1
    } else {
        Player::Player2
    };
    Ok(Payout { to, amount: lottery_lamports })
}

/// Outcome of player2 claiming the pot because player1 did not reveal.
pub open spec fn redeem_if_p1_no_reveal_result(l: LotteryView, slot: u64, lottery_lamports: u64) -> Result<
    Payout,
    LotteryError,
> {
    if l.state != LotteryState::Init {
        Err(LotteryError::InvalidState)
    } else if !(slot > l.end_reveal) {
        Err(LotteryError::RevealPeriodNotEnded)
    } else {
        Ok(Payout { to: Player::Player2, amount: lottery_lamports })
    }
}

/// After the deadline slot, while player1 has not revealed, player2 takes
/// the lottery's whole balance. The lottery's state is unchanged.
pub fn redeem_if_p1_no_reveal(lottery: &LotteryInfo, slot: u64, lottery_lamports: u64) -> (r: Result<
    Payout,
    LotteryError,
>)
    ensures
        r == redeem_if_p1_no_reveal_result(lottery@, slot, lottery_lamports),
{
    if !(lottery.state == LotteryState::Init) {
        return Err(LotteryError::InvalidState);
    }
    if !(slot > lottery.end_reveal) {
        return Err(LotteryError::RevealPeriodNotEnded);
    }
    Ok(Payout { to: Player::Player2, amount: lottery_lamports })
}

/// Outcome of player1 claiming the pot because player2 did not reveal.
pub open spec fn redeem_if_p2_no_reveal_result(l: LotteryView, slot: u64, lottery_lamports: u64) -> Result<
    Payout,
    LotteryError,
> {
    if l.state != LotteryState::RevealP1 {
        Err(LotteryError::InvalidState)
    } else if !(slot > l.end_reveal) {
        Err(LotteryError::RevealPeriodNotEnded)
    } else {
        Ok(Payout { to: Player::Player1, amount: lottery_lamports })
    }
}

/// After the deadline slot, once player1 has revealed and while player2 has
/// not, player1 takes the lottery's whole balance. The lottery's state is
/// unchanged.
pub fn redeem_if_p2_no_reveal(lottery: &LotteryInfo, slot: u64, lottery_lamports: u64) -> (r: Result<
    Payout,
    LotteryError,
>)
    ensures
        r == redeem_if_p2_no_reveal_result(lottery@, slot, lottery_lamports),
{
    if !(lottery.state == LotteryState::RevealP1) {
        return Err(LotteryError::InvalidState);
    }
    if !(slot > lottery.end_reveal) {
        return Err(LotteryError::RevealPeriodNotEnded);
    }
    Ok(Payout { to: Player::Player1, amount: lottery_lamports })
}

/// Law: once player2 has revealed, the lottery is settled: no reveal and no
/// claim succeeds any more.
pub proof fn lemma_settled_is_final(l: LotteryView, secret: Seq<char>, slot: u64, lamports: u64)
    requires
        l.state == LotteryState::RevealP2,
    ensures
        reveal_p1_result(l, secret, slot) is Err,
        reveal_p2_result(l, secret, slot, lamports) is Err,
        redeem_if_p1_no_reveal_result(l, slot, lamports) is Err,
        redeem_if_p2_no_reveal_result(l, slot, lamports) is Err,
{
}

/// Law: the deadline separates each reveal from the other player's claim:
/// they are never both open.
pub proof fn lemma_reveal_or_forfeit(l: LotteryView, secret: Seq<char>, slot: u64, lamports: u64)
    ensures
        !(reveal_p2_result(l, secret, slot, lamports) is Ok && redeem_if_p2_no_reveal_result(l, slot, lamports)
            is Ok),
        !(reveal_p1_result(l, secret, slot) is Ok && redeem_if_p1_no_reveal_result(l, slot, lamports) is Ok),
{
}

/// Law: the pot goes to the right player. Player2's successful reveal keeps
/// the secret and pays player1 exactly when the two secrets together are an
/// even number of bytes long, player2 when odd; a claim because player2 did
/// not reveal pays player1, and one because player1 did not reveal pays
/// player2: the player who failed to reveal is never paid. Each pays
/// the lottery's whole balance.
pub proof fn lemma_pot_goes_to_the_right_player(l: LotteryView, secret: Seq<char>, slot: u64, lamports: u64)
    ensures
        reveal_p2_result(l, secret, slot, lamports) matches Ok((after, p)) ==> {
            &&& (p.to == Player::Player1 <==> (utf8_bytes(l.secret1).len() + utf8_bytes(secret).len()) % 2 == 0)
            &&& (p.to == Player::Player2 <==> (utf8_bytes(l.secret1).len() + utf8_bytes(secret).len()) % 2 == 1)
            &&& p.amount == lamports
            &&& after.secret2 == secret && after.secret1 == l.secret1
        },
        redeem_if_p2_no_reveal_result(l, slot, lamports) matches Ok(p) ==> p.to == Player::Player1 && p.amount == lamports,
        redeem_if_p1_no_reveal_result(l, slot, lamports) matches Ok(p) ==> p.to == Player::Player2 && p.amount == lamports,
{
}

} // verus!
