//! Bet in which two participants each stake `wager` until a deadline slot;
//! before it the stored oracle may pay both wagers to one of them, from it on
//! both are refunded. Neither marks the bet settled.
use vstd::prelude::*;
use crate::common::{Pubkey, same_key};
use crate::bet::model::{Wagers, Payment, Refund, one_of, is_one_of};

verus! {

/// The bet's account.
#[derive(Clone, Copy, Debug, PartialEq, Eq)]
pub struct BetInfo {
    pub oracle: Pubkey,
    pub participant1: Pubkey,
    pub participant2: Pubkey,
    pub wager: u64,
    pub deadline: u64,
    pub bump: u8,
}

#[derive(Clone, Copy, Debug, PartialEq, Eq, Structural)]
pub enum BetError {
    DeadlineNotReached,
    DeadlinePassed,
    InvalidOracle,
    InvalidWinner,
    /// The framework's refusal of an oracle account other than the stored
    /// oracle, checked with the accounts before the instruction runs.
    ConstraintHasOne,
}

/// Opens a bet between `participant1` and `participant2`, settled by
/// `oracle`, at slot `slot`, at the address with bump `bump`: the deadline
/// `slot + delay`, and `wager` paid in by each participant. Nothing is
/// refused. The instruction aborts where the deadline does not fit in 64 bits;
/// those inputs are left out.
pub fn join(
    participant1: Pubkey,
    participant2: Pubkey,
    oracle: Pubkey,
    delay: u64,
    wager: u64,
    slot: u64,
    bump: u8,
) -> (out: (BetInfo, Wagers))
    requires
        slot + delay <= u64::MAX,
    ensures
        out == (
            BetInfo { oracle, participant1, participant2, wager, deadline: (slot + delay) as u64, bump },
            Wagers { from_participant1: wager, from_participant2: wager },
        ),
{
    (
        BetInfo { oracle, participant1, participant2, wager, deadline: slot + delay, bump },
        Wagers { from_participant1: wager, from_participant2: wager },
    )
}

/// Outcome of the signer `oracle` declaring `winner` at slot `slot`.
pub open spec fn win_result(bet: BetInfo, oracle: Pubkey, winner: Pubkey, slot: u64) -> Result<Payment, BetError> {
    if !same_key(oracle, bet.oracle) {
        Err(BetError::ConstraintHasOne)
    } else if !(slot < bet.deadline) {
        Err(BetError::DeadlinePassed)
    } else if !one_of(winner, bet.participant1, bet.participant2) {
        Err(BetError::InvalidWinner)
    } else {
        Ok(Payment { to: winner, amount: (bet.wager * 2) as u64 })
    }
}

/// The stored oracle (the signer `oracle`, checked before anything else)
/// pays both wagers to `winner`, one of the participants, before the
/// deadline. (The bet is not marked settled.) The instruction aborts where twice
/// the wager does not fit in 64 bits; those inputs are left out.
pub fn win(bet: &BetInfo, oracle: Pubkey, winner: Pubkey, slot: u64) -> (r: Result<Payment, BetError>)
    requires
        win_result(*bet, oracle, winner, slot) is Ok ==> bet.wager * 2 <= u64::MAX,
    ensures
        r == win_result(*bet, oracle, winner, slot),
{
    if !oracle.key_eq(&bet.oracle) {
        return Err(BetError::ConstraintHasOne);
    }
    if !(slot < bet.deadline) {
        return Err(BetError::DeadlinePassed);
    }
    if !is_one_of(&winner, &bet.participant1, &bet.participant2) {
        return Err(BetError::InvalidWinner);
    }
    Ok(Payment { to: winner, amount: bet.wager * 2 })
}

/// Outcome of a timeout at slot `slot`.
pub open spec fn timeout_result(bet: BetInfo, slot: u64) -> Result<Refund, BetError> {
    if !(slot >= bet.deadline) {
        Err(BetError::DeadlineNotReached)
    } else {
        Ok(Refund { to_participant1: bet.wager, to_participant2: bet.wager })
    }
}

/// From the deadline on, both wagers go back to the participants. (The bet
/// is not marked settled.)
pub fn timeout(bet: &BetInfo, slot: u64) -> (r: Result<Refund, BetError>)
    ensures
        r == timeout_result(*bet, slot),
{
    if !(slot >= bet.deadline) {
        return Err(BetError::DeadlineNotReached);
    }
    let wager_amount = bet.wager;
    Ok(Refund { to_participant1: wager_amount, to_participant2: wager_amount })
}

/// Law: the deadline separates the decision (strictly before it) from the
/// refund (from it on).
pub proof fn lemma_win_or_timeout(bet: BetInfo, oracle: Pubkey, winner: Pubkey, slot: u64)
    ensures
        !(win_result(bet, oracle, winner, slot) is Ok && timeout_result(bet, slot) is Ok),
{
}

/// Law: each payment goes where it should. A successful decision pays the
/// declared winner, `winner`, and nobody else, the full pot; a successful
/// refund pays each participant its own share.
pub proof fn lemma_payments_go_where_they_should(
    bet: BetInfo,
    oracle: Pubkey,
    winner: Pubkey,
    slot: u64,
)
    ensures
        win_result(bet, oracle, winner, slot) matches Ok(p) ==> p.to == winner && (bet.wager * 2 <= u64::MAX ==> p.amount == bet.wager * 2),
        timeout_result(bet, slot) matches Ok(r) ==> r.to_participant1 == bet.wager && r.to_participant2 == bet.wager,
{
}

} // verus!
