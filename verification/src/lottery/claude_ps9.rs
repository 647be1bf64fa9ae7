//! Lottery in which both players stake `amount` and commit to the Keccak-256
//! digests of their secrets; player1 must reveal before the deadline (unix
//! time), player2 before the deadline plus the delay. The winner by the parity rule
//! takes the lottery's whole balance; a player who does not reveal in time
//! forfeits it to the other.
//!
//! The state keeps one value more than the account's stored layout: the
//! `delay` given at joining, which bounds player2's window.
use vstd::prelude::*;
use crate::common::{Pubkey, applied, applied_with, bytes32_eq, same_key};
use crate::lottery::model::{Player, Payout, Stakes, utf8_bytes, byte_len, opens, commitment_matches,
    parity_winner, winner_by_parity, secrets_fit, check_secrets_fit};

verus! {

#[derive(Clone, Copy, Debug, PartialEq, Eq, Structural)]
pub enum LotteryState {
    Init,
    RevealP1,
    RevealP2,
}

/// The lottery's account.
#[derive(Debug)]
pub struct LotteryInfo {
    pub state: LotteryState,
    pub player1: Pubkey,
    pub player2: Pubkey,
    pub hashlock1: [u8; 32],
    pub secret1: String,
    pub hashlock2: [u8; 32],
    pub secret2: String,
    pub end_reveal: u64,
    pub delay: u64,
}

/// The lottery's account as values: byte strings and character strings.
pub struct LotteryView {
    pub state: LotteryState,
    pub player1: Pubkey,
    pub player2: Pubkey,
    pub hashlock1: Seq<u8>,
    pub secret1: Seq<char>,
    pub hashlock2: Seq<u8>,
    pub secret2: Seq<char>,
    pub end_reveal: u64,
    pub delay: u64,
}

impl View for LotteryInfo {
    type V = LotteryView;

    open spec fn view(&self) -> LotteryView {
        LotteryView {
            state: self.state,
            player1: self.player1,
            player2: self.player2,
            hashlock1: self.hashlock1@,
            secret1: self.secret1@,
            hashlock2: self.hashlock2@,
            secret2: self.secret2@,
            end_reveal: self.end_reveal,
            delay: self.delay,
        }
    }
}

#[derive(Clone, Copy, Debug, PartialEq, Eq, Structural)]
pub enum LotteryError {
    IdenticalHashlocks,
    DeadlineInPast,
    InvalidState,
    DeadlinePassed,
    InvalidSecret,
    DeadlineNotPassed,
    InvalidPlayer,
    /// The framework's refusal to write the account back when the secrets on
    /// record no longer fit in its space; nothing the instruction did takes
    /// effect.
    AccountDidNotSerialize,
}

/// Bytes that the lottery's account keeps for the two secrets together: its
/// space less the fixed fields and the two length prefixes.
pub const SECRET_SPACE: usize = 200;

/// Outcome of two players joining at unix time `now`.
pub open spec fn join_result(
    player1: Pubkey,
    player2: Pubkey,
    hashlock1: Seq<u8>,
    hashlock2: Seq<u8>,
    delay: u64,
    amount: u64,
    now: i64,
) -> Result<(LotteryView, Stakes), LotteryError> {
    let end_reveal = (now as u64) + delay;
    if hashlock1 == hashlock2 {
        Err(LotteryError::IdenticalHashlocks)
    } else if !(end_reveal > now as u64) {
        Err(LotteryError::DeadlineInPast)
    } else {
        Ok(
            (
                LotteryView {
                    state: LotteryState::Init,
                    player1,
                    player2,
                    hashlock1,
                    secret1: Seq::empty(),
                    hashlock2,
                    secret2: Seq::empty(),
                    end_reveal: end_reveal as u64,
                    delay,
                },
                Stakes { from_player1: amount, from_player2: amount },
            ),
        )
    }
}

/// Opens a lottery between `player1` and `player2` at unix time `now`: the
/// two commitments, the deadline `now + delay`, and the stake `amount` that
/// each player pays in. The instruction aborts where the deadline does not fit
/// in 64 bits; those inputs are left out.
pub fn join(
    player1: Pubkey,
    player2: Pubkey,
    hashlock1: [u8; 32],
    hashlock2: [u8; 32],
    delay: u64,
    amount: u64,
    now: i64,
) -> (r: Result<(LotteryInfo, Stakes), LotteryError>)
    requires
        hashlock1@ != hashlock2@ ==> (now as u64) + delay <= u64::MAX,
    ensures
        match join_result(player1, player2, hashlock1@, hashlock2@, delay, amount, now) {
            Ok((v, s)) => r matches Ok(out) && out.0@ == v && out.1 == s,
            Err(e) => r == Err::<(LotteryInfo, Stakes), LotteryError>(e),
        },
{
    if bytes32_eq(&hashlock1, &hashlock2) {
        return Err(LotteryError::IdenticalHashlocks);
    }
    let end_reveal = now as u64 + delay;
    if !(end_reveal > now as u64) {
        return Err(LotteryError::DeadlineInPast);
    }
    let info = LotteryInfo {
        state: LotteryState::Init,
        player1,
        player2,
        hashlock1,
        secret1: String::new(),
        hashlock2,
        secret2: String::new(),
        end_reveal,
        delay,
    };
    Ok((info, Stakes { from_player1: amount, from_player2: amount }))
}

/// Outcome of player1 revealing `secret` at unix time `now`.
pub open spec fn reveal_p1_result(l: LotteryView, secret: Seq<char>, now: i64) -> Result<LotteryView, LotteryError> {
    if l.state != LotteryState::Init {
        Err(LotteryError::InvalidState)
    } else if !((now as u64) < l.end_reveal) {
        Err(LotteryError::DeadlinePassed)
    } else if !opens(secret, l.hashlock1) {
        Err(LotteryError::InvalidSecret)
    } else if !secrets_fit(utf8_bytes(secret).len() as int, utf8_bytes(l.secret2).len() as int, SECRET_SPACE as int) {
        Err(LotteryError::AccountDidNotSerialize)
    } else {
        Ok(LotteryView { state: LotteryState::RevealP1, secret1: secret, ..l })
    }
}

/// Player1 reveals `secret`, which must open the first commitment, before
/// the deadline.
/// Refused, after every other check, when the two secrets on record would
/// take more than `SECRET_SPACE` bytes together.
pub fn reveal_p1(lottery: &mut LotteryInfo, secret: String, now: i64) -> (r: Result<(), LotteryError>)
    ensures
        applied(r, old(lottery)@, final(lottery)@, reveal_p1_result(old(lottery)@, secret@, now)),
{
    if !(lottery.state == LotteryState::Init) {
        return Err(LotteryError::InvalidState);
    }
    if !((now as u64) < lottery.end_reveal) {
        return Err(LotteryError::DeadlinePassed);
    }
    if !commitment_matches(&secret, &lottery.hashlock1) {
        return Err(LotteryError::InvalidSecret);
    }
    if !check_secrets_fit(byte_len(&secret), byte_len(&lottery.secret2), SECRET_SPACE) {
        return Err(LotteryError::AccountDidNotSerialize);
    }
    lottery.state = LotteryState::RevealP1;
    lottery.secret1 = secret;
    Ok(())
}

/// Outcome of player2 revealing `secret` at unix time `now`, with the
/// lottery's balance.
pub open spec fn reveal_p2_result(
    l: LotteryView,
    secret: Seq<char>,
    now: i64,
    lottery_lamports: u64,
) -> Result<(LotteryView, Payout), LotteryError> {
    if l.state != LotteryState::RevealP1 {
        Err(LotteryError::InvalidState)
    } else if !((now as u64) < l.end_reveal + l.delay) {
        Err(LotteryError::DeadlinePassed)
    } else if !opens(secret, l.hashlock2) {
        Err(LotteryError::InvalidSecret)
    } else if !secrets_fit(utf8_bytes(l.secret1).len() as int, utf8_bytes(secret).len() as int, SECRET_SPACE as int) {
        Err(LotteryError::AccountDidNotSerialize)
    } else {
        Ok(
            (
                LotteryView { state: LotteryState::RevealP2, secret2: secret, ..l },
                Payout {
                    to: parity_winner(utf8_bytes(l.secret1).len() as int, utf8_bytes(secret).len() as int),
                    amount: lottery_lamports,
                },
            ),
        )
    }
}

/// Player2 reveals `secret`, which must open the second commitment, before
/// the deadline plus the delay; the winner by the parity rule of the two secrets' byte
/// lengths is paid the lottery's whole balance. The instruction aborts where
/// the deadline plus the delay does not fit in 64 bits; those inputs are left out.
/// Refused, after every other check, when the two secrets on record would
/// take more than `SECRET_SPACE` bytes together.
pub fn reveal_p2(lottery: &mut LotteryInfo, secret: String, now: i64, lottery_lamports: u64) -> (r: Result<
    Payout,
    LotteryError,
>)
    requires
        old(lottery).state == LotteryState::RevealP1 ==> old(lottery).end_reveal + old(lottery).delay
            <= u64::MAX,
    ensures
        applied_with(r, old(lottery)@, final(lottery)@, reveal_p2_result(old(lottery)@, secret@, now, lottery_lamports)),
{
    if !(lottery.state == LotteryState::RevealP1) {
        return Err(LotteryError::InvalidState);
    }
    let extended_deadline = lottery.end_reveal + lottery.delay;
    if !((now as u64) < extended_deadline) {
        return Err(LotteryError::DeadlinePassed);
    }
    if !commitment_matches(&secret, &lottery.hashlock2) {
        return Err(LotteryError::InvalidSecret);
    }
    if !check_secrets_fit(byte_len(&lottery.secret1), byte_len(&secret), SECRET_SPACE) {
        return Err(LotteryError::AccountDidNotSerialize);
    }
    lottery.state = LotteryState::RevealP2;
    lottery.secret2 = secret;
    let winner = winner_by_parity(byte_len(&lottery.secret1), byte_len(&lottery.secret2));
    Ok(Payout { to: winner, amount: lottery_lamports })
}

/// Outcome of player2 claiming the pot because player1 did not reveal.
pub open spec fn redeem_if_p1_no_reveal_result(l: LotteryView, now: i64, lottery_lamports: u64) -> Result<
    Payout,
    LotteryError,
> {
    if l.state != LotteryState::Init {
        Err(LotteryError::InvalidState)
    } else if !((now as u64) >= l.end_reveal) {
        Err(LotteryError::DeadlineNotPassed)
    } else {
        Ok(Payout { to: Player::Player2, amount: lottery_lamports })
    }
}

/// From the deadline on, while player1 has not revealed, player2 takes the
/// lottery's whole balance. The lottery's state is unchanged.
pub fn redeem_if_p1_no_reveal(lottery: &LotteryInfo, now: i64, lottery_lamports: u64) -> (r: Result<
    Payout,
    LotteryError,
>)
    ensures
        r == redeem_if_p1_no_reveal_result(lottery@, now, lottery_lamports),
{
    if !(lottery.state == LotteryState::Init) {
        return Err(LotteryError::InvalidState);
    }
    if !((now as u64) >= lottery.end_reveal) {
        return Err(LotteryError::DeadlineNotPassed);
    }
    Ok(Payout { to: Player::Player2, amount: lottery_lamports })
}

/// Outcome of player1 claiming the pot because player2 did not reveal.
pub open spec fn redeem_if_p2_no_reveal_result(l: LotteryView, now: i64, lottery_lamports: u64) -> Result<
    Payout,
    LotteryError,
> {
    if l.state != LotteryState::RevealP1 {
        Err(LotteryError::InvalidState)
    } else if !((now as u64) >= l.end_reveal + l.delay) {
        Err(LotteryError::DeadlineNotPassed)
    } else {
        Ok(Payout { to: Player::Player1, amount: lottery_lamports })
    }
}

/// From the deadline plus the delay on, once player1 has revealed and while player2
/// has not, player1 takes the lottery's whole balance. The lottery's state is
/// unchanged. The instruction aborts where the deadline plus the delay does not fit in 64
/// bits; those inputs are left out.
pub fn redeem_if_p2_no_reveal(lottery: &LotteryInfo, now: i64, lottery_lamports: u64) -> (r: Result<
    Payout,
    LotteryError,
>)
    requires
        lottery.state == LotteryState::RevealP1 ==> lottery.end_reveal + lottery.delay <= u64::MAX,
    ensures
        r == redeem_if_p2_no_reveal_result(lottery@, now, lottery_lamports),
{
    if !(lottery.state == LotteryState::RevealP1) {
        return Err(LotteryError::InvalidState);
    }
    let extended_deadline = lottery.end_reveal + lottery.delay;
    if !((now as u64) >= extended_deadline) {
        return Err(LotteryError::DeadlineNotPassed);
    }
    Ok(Payout { to: Player::Player1, amount: lottery_lamports })
}

/// Law: once player2 has revealed, the lottery is settled: no reveal and no
/// claim succeeds any more.
pub proof fn lemma_settled_is_final(l: LotteryView, secret: Seq<char>, now: i64, lamports: u64)
    requires
        l.state == LotteryState::RevealP2,
    ensures
        reveal_p1_result(l, secret, now) is Err,
        reveal_p2_result(l, secret, now, lamports) is Err,
        redeem_if_p1_no_reveal_result(l, now, lamports) is Err,
        redeem_if_p2_no_reveal_result(l, now, lamports) is Err,
{
}

/// Law: a reveal is accepted only with a secret that opens the player's
/// commitment, and player2's only after player1's.
pub proof fn lemma_reveal_needs_opening(l: LotteryView, secret: Seq<char>, now: i64, lamports: u64)
    ensures
        reveal_p1_result(l, secret, now) is Ok ==> opens(secret, l.hashlock1),
        reveal_p2_result(l, secret, now, lamports) is Ok ==> opens(secret, l.hashlock2)
            && l.state == LotteryState::RevealP1,
{
}

/// Law: the deadlines separate each reveal from the other player's claim:
/// they are never both open.
pub proof fn lemma_reveal_or_forfeit(l: LotteryView, secret: Seq<char>, now: i64, lamports: u64)
    ensures
        !(reveal_p2_result(l, secret, now, lamports) is Ok && redeem_if_p2_no_reveal_result(l, now, lamports)
            is Ok),
        !(reveal_p1_result(l, secret, now) is Ok && redeem_if_p1_no_reveal_result(l, now, lamports) is Ok),
{
}

/// Checks the accounts given as the two players, as every reveal and redeem
/// checks them with its accounts before the instruction runs: they must be
/// the stored players, each in its place; the payouts go to these accounts.
pub fn check_players(lottery: &LotteryInfo, player1: &Pubkey, player2: &Pubkey) -> (r: Result<(), LotteryError>)
    ensures
        same_key(*player1, lottery.player1) && same_key(*player2, lottery.player2) ==> r is Ok,
        !(same_key(*player1, lottery.player1) && same_key(*player2, lottery.player2)) ==> r
            == Err::<(), LotteryError>(LotteryError::InvalidPlayer),
{
    if !(player1.key_eq(&lottery.player1) && player2.key_eq(&lottery.player2)) {
        return Err(LotteryError::InvalidPlayer);
    }
    Ok(())
}

/// Law: the pot goes to the right player. Player2's successful reveal keeps
/// the secret and pays player1 exactly when the two secrets together are an
/// even number of bytes long, player2 when odd; a claim because player2 did
/// not reveal pays player1, and one because player1 did not reveal pays
/// player2: the player who failed to reveal is never paid. Each pays
/// the lottery's whole balance.
pub proof fn lemma_pot_goes_to_the_right_player(l: LotteryView, secret: Seq<char>, now: i64, lamports: u64)
    ensures
        reveal_p2_result(l, secret, now, lamports) matches Ok((after, p)) ==> {
            &&& (p.to == Player::Player1 <==> (utf8_bytes(l.secret1).len() + utf8_bytes(secret).len()) % 2 == 0)
            &&& (p.to == Player::Player2 <==> (utf8_bytes(l.secret1).len() + utf8_bytes(secret).len()) % 2 == 1)
            &&& p.amount == lamports
            &&& after.secret2 == secret && after.secret1 == l.secret1
        },
        redeem_if_p2_no_reveal_result(l, now, lamports) matches Ok(p) ==> p.to == Player::Player1 && p.amount == lamports,
        redeem_if_p1_no_reveal_result(l, now, lamports) matches Ok(p) ==> p.to == Player::Player2 && p.amount == lamports,
{
}

} // verus!
