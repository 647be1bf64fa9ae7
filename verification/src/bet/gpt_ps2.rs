//! Bet in which two participants each stake `wager` (positive); the
//! designated oracle gives the bet's whole balance to one of them, and after
//! the deadline slot both wagers are refunded. Either outcome settles the
//! bet.
use vstd::prelude::*;
use crate::common::{Pubkey, same_key, applied_with};
use crate::bet::model::{Wagers, Payment, Refund, one_of, is_one_of};

verus! {

/// The bet's account.
#[derive(Clone, Copy, Debug, PartialEq, Eq)]
pub struct BetInfo {
    pub participant1: Pubkey,
    pub participant2: Pubkey,
    pub oracle: Pubkey,
    pub wager: u64,
    pub deadline: u64,
    pub settled: bool,
}

impl BetInfo {
    /// Bytes reserved for the bet's account: discriminator, three keys, two
    /// numbers, the flag, a bump byte and padding.
    pub const LEN: usize = 8 + 32 * 3 + 8 * 2 + 1 + 1 + 6;
}

#[derive(Clone, Copy, Debug, PartialEq, Eq, Structural)]
pub enum ErrorCode {
    InvalidWager,
    Unauthorized,
    DeadlineNotReached,
    AlreadySettled,
    InvalidParticipants,
    InvalidWinner,
    NumericOverflow,
}

/// Outcome of `participant1` and `participant2` joining at slot `slot`.
pub open spec fn join_result(
    participant1: Pubkey,
    participant2: Pubkey,
    oracle: Pubkey,
    delay: u64,
    wager: u64,
    slot: u64,
) -> Result<(BetInfo, Wagers), ErrorCode> {
    if !(wager > 0) {
        Err(ErrorCode::InvalidWager)
    } else if slot + delay > u64::MAX {
        Err(ErrorCode::NumericOverflow)
    } else {
        Ok(
            (
                BetInfo { participant1, participant2, oracle, wager, deadline: (slot + delay) as u64, settled: false },
                Wagers { from_participant1: wager, from_participant2: wager },
            ),
        )
    }
}

/// Opens the bet at slot `slot`, with deadline `slot + delay`; each
/// participant pays in `wager`.
pub fn join(
    participant1: Pubkey,
    participant2: Pubkey,
    oracle: Pubkey,
    delay: u64,
    wager: u64,
    slot: u64,
) -> (r: Result<(BetInfo, Wagers), ErrorCode>)
    ensures
        r == join_result(participant1, participant2, oracle, delay, wager, slot),
{
    if !(wager > 0) {
        return Err(ErrorCode::InvalidWager);
    }
    let deadline = match slot.checked_add(delay) {
        Some(v) => v,
        None => return Err(ErrorCode::NumericOverflow),
    };
    let bet = BetInfo { participant1, participant2, oracle, wager, deadline, settled: false };
    Ok((bet, Wagers { from_participant1: wager, from_participant2: wager }))
}

/// Outcome of the signer `oracle` declaring `winner`, where the bet's
/// address was derived from the accounts `participant1` and `participant2`
/// and holds `bet_lamports`.
pub open spec fn win_result(
    bet: BetInfo,
    oracle: Pubkey,
    winner: Pubkey,
    participant1: Pubkey,
    participant2: Pubkey,
    bet_lamports: u64,
) -> Result<(BetInfo, Payment), ErrorCode> {
    if !same_key(oracle, bet.oracle) {
        Err(ErrorCode::Unauthorized)
    } else if bet.settled {
        Err(ErrorCode::AlreadySettled)
    } else if !one_of(winner, participant1, participant2) {
        Err(ErrorCode::InvalidWinner)
    } else {
        Ok((BetInfo { settled: true, ..bet }, Payment { to: winner, amount: bet_lamports }))
    }
}

/// The designated oracle settles the bet for `winner`, one of the two
/// participants, who receives the bet's whole balance as the account is
/// closed to it.
pub fn win(
    bet: &mut BetInfo,
    oracle: Pubkey,
    winner: Pubkey,
    participant1: Pubkey,
    participant2: Pubkey,
    bet_lamports: u64,
) -> (r: Result<Payment, ErrorCode>)
    ensures
        applied_with(
            r,
            *old(bet),
            *final(bet),
            win_result(*old(bet), oracle, winner, participant1, participant2, bet_lamports),
        ),
{
    if !oracle.key_eq(&bet.oracle) {
        return Err(ErrorCode::Unauthorized);
    }
    if bet.settled {
        return Err(ErrorCode::AlreadySettled);
    }
    if !is_one_of(&winner, &participant1, &participant2) {
        return Err(ErrorCode::InvalidWinner);
    }
    bet.settled = true;
    Ok(Payment { to: winner, amount: bet_lamports })
}

/// Outcome of a timeout at slot `slot` with the accounts `participant1` and
/// `participant2`.
pub open spec fn timeout_result(bet: BetInfo, participant1: Pubkey, participant2: Pubkey, slot: u64) -> Result<
    (BetInfo, Refund),
    ErrorCode,
> {
    if !(same_key(participant1, bet.participant1) && same_key(participant2, bet.participant2)) {
        Err(ErrorCode::InvalidParticipants)
    } else if !(slot > bet.deadline) {
        Err(ErrorCode::DeadlineNotReached)
    } else if bet.settled {
        Err(ErrorCode::AlreadySettled)
    } else {
        Ok((BetInfo { settled: true, ..bet }, Refund { to_participant1: bet.wager, to_participant2: bet.wager }))
    }
}

/// After the deadline, each participant gets its wager back and the bet is
/// settled (the rest of the balance goes to the first participant as the
/// account is closed).
pub fn timeout(bet: &mut BetInfo, participant1: Pubkey, participant2: Pubkey, slot: u64) -> (r: Result<
    Refund,
    ErrorCode,
>)
    ensures
        applied_with(r, *old(bet), *final(bet), timeout_result(*old(bet), participant1, participant2, slot)),
{
    if !(participant1.key_eq(&bet.participant1) && participant2.key_eq(&bet.participant2)) {
        return Err(ErrorCode::InvalidParticipants);
    }
    if !(slot > bet.deadline) {
        return Err(ErrorCode::DeadlineNotReached);
    }
    if bet.settled {
        return Err(ErrorCode::AlreadySettled);
    }
    let wager = bet.wager;
    bet.settled = true;
    Ok(Refund { to_participant1: wager, to_participant2: wager })
}

/// Law: a settled bet stays settled: neither a decision nor a refund
/// succeeds any more, and each success settles the bet.
pub proof fn lemma_settled_is_final(
    bet: BetInfo,
    oracle: Pubkey,
    winner: Pubkey,
    participant1: Pubkey,
    participant2: Pubkey,
    bet_lamports: u64,
    slot: u64,
)
    ensures
        bet.settled ==> win_result(bet, oracle, winner, participant1, participant2, bet_lamports) is Err
            && timeout_result(bet, participant1, participant2, slot) is Err,
        win_result(bet, oracle, winner, participant1, participant2, bet_lamports) matches Ok((b, _)) ==> b.settled,
        timeout_result(bet, participant1, participant2, slot) matches Ok((b, _)) ==> b.settled,
{
}

/// Law: the refund of a joined bet returns to each participant what it paid
/// in.
pub proof fn lemma_refund_matches_wagers(
    participant1: Pubkey,
    participant2: Pubkey,
    oracle: Pubkey,
    delay: u64,
    wager: u64,
    slot: u64,
    later: u64,
)
    ensures
        join_result(participant1, participant2, oracle, delay, wager, slot) matches Ok((bet, w)) ==> (
        timeout_result(bet, participant1, participant2, later) matches Ok((_, r)) ==> r.to_participant1
            == w.from_participant1 && r.to_participant2 == w.from_participant2),
{
}

/// Law: each payment goes where it should. A successful decision pays the
/// declared winner, `winner`, and nobody else, the full pot; a successful
/// refund pays each participant its own share.
pub proof fn lemma_payments_go_where_they_should(
    bet: BetInfo,
    oracle: Pubkey,
    winner: Pubkey,
    participant1: Pubkey,
    participant2: Pubkey,
    bet_lamports: u64,
    slot: u64,
)
    ensures
        win_result(bet, oracle, winner, participant1, participant2, bet_lamports) matches Ok((_, p)) ==> p.to == winner && p.amount == bet_lamports,
        timeout_result(bet, participant1, participant2, slot) matches Ok((_, r)) ==> r.to_participant1 == bet.wager && r.to_participant2 == bet.wager,
{
}

} // verus!
