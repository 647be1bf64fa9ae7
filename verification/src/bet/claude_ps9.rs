//! Bet between two distinct participants who each stake `wager` (positive,
//! and covered by their balances) for a positive delay; until the deadline
//! slot the designated oracle may pay both wagers to one of them; after it
//! both wagers are refunded.
use vstd::prelude::*;
use crate::common::{Pubkey, same_key, applied_with};
use crate::bet::model::{Wagers, Payment, Refund, one_of, is_one_of};

verus! {

/// The bet's account.
#[derive(Clone, Copy, Debug, PartialEq, Eq)]
pub struct BetInfo {
    pub participant1: Pubkey,
    pub participant2: Pubkey,
    pub oracle: Pubkey,
    pub wager: u64,
    pub deadline: u64,
    pub is_active: bool,
}

impl BetInfo {
    /// Bytes of the bet's account: discriminator, three keys, two numbers and
    /// the flag.
    pub const SIZE: usize = 8 + 32 + 32 + 32 + 8 + 8 + 1;
}

#[derive(Clone, Copy, Debug, PartialEq, Eq, Structural)]
pub enum BettingError {
    InvalidWager,
    InvalidDelay,
    InsufficientFunds,
    SameParticipant,
    BetNotActive,
    UnauthorizedOracle,
    InvalidWinner,
    DeadlinePassed,
    DeadlineNotReached,
    InvalidParticipant,
}

/// The checks of `join` that come before the deadline is computed.
pub open spec fn join_check(
    participant1: Pubkey,
    participant2: Pubkey,
    delay: u64,
    wager: u64,
    participant1_lamports: u64,
    participant2_lamports: u64,
) -> Result<(), BettingError> {
    if !(wager > 0) {
        Err(BettingError::InvalidWager)
    } else if !(delay > 0) {
        Err(BettingError::InvalidDelay)
    } else if !(participant1_lamports >= wager) || !(participant2_lamports >= wager) {
        Err(BettingError::InsufficientFunds)
    } else if same_key(participant1, participant2) {
        Err(BettingError::SameParticipant)
    } else {
        Ok(())
    }
}

/// Outcome of two participants, holding the given balances, joining at slot
/// `slot`.
pub open spec fn join_result(
    participant1: Pubkey,
    participant2: Pubkey,
    oracle: Pubkey,
    delay: u64,
    wager: u64,
    slot: u64,
    participant1_lamports: u64,
    participant2_lamports: u64,
) -> Result<(BetInfo, Wagers), BettingError> {
    match join_check(participant1, participant2, delay, wager, participant1_lamports, participant2_lamports) {
        Err(e) => Err(e),
        Ok(_) => Ok(
            (
                BetInfo {
                    participant1,
                    participant2,
                    oracle,
                    wager,
                    deadline: (slot + delay) as u64,
                    is_active: true,
                },
                Wagers { from_participant1: wager, from_participant2: wager },
            ),
        ),
    }
}

/// Opens a bet between `participant1` and `participant2`, settled by
/// `oracle`, at slot `slot`: the deadline `slot + delay`, and `wager` paid in
/// by each participant. The instruction aborts where the deadline does not fit
/// in 64 bits; those inputs are left out.
pub fn join(
    participant1: Pubkey,
    participant2: Pubkey,
    oracle: Pubkey,
    delay: u64,
    wager: u64,
    slot: u64,
    participant1_lamports: u64,
    participant2_lamports: u64,
) -> (r: Result<(BetInfo, Wagers), BettingError>)
    requires
        join_check(participant1, participant2, delay, wager, participant1_lamports, participant2_lamports) is Ok
            ==> slot + delay <= u64::MAX,
    ensures
        r == join_result(
            participant1,
            participant2,
            oracle,
            delay,
            wager,
            slot,
            participant1_lamports,
            participant2_lamports,
        ),
{
    if !(wager > 0) {
        return Err(BettingError::InvalidWager);
    }
    if !(delay > 0) {
        return Err(BettingError::InvalidDelay);
    }
    if !(participant1_lamports >= wager) {
        return Err(BettingError::InsufficientFunds);
    }
    if !(participant2_lamports >= wager) {
        return Err(BettingError::InsufficientFunds);
    }
    if participant1.key_eq(&participant2) {
        return Err(BettingError::SameParticipant);
    }
    let bet = BetInfo { participant1, participant2, oracle, wager, deadline: slot + delay, is_active: true };
    Ok((bet, Wagers { from_participant1: wager, from_participant2: wager }))
}

/// The oracle's decision passes every check of the instruction.
pub open spec fn win_allowed(bet: BetInfo, oracle: Pubkey, winner: Pubkey, slot: u64) -> bool {
    &&& bet.is_active
    &&& same_key(oracle, bet.oracle)
    &&& one_of(winner, bet.participant1, bet.participant2)
    &&& slot <= bet.deadline
}

/// Outcome of the signer `oracle` declaring `winner` at slot `slot`.
pub open spec fn win_result(bet: BetInfo, oracle: Pubkey, winner: Pubkey, slot: u64) -> Result<
    (BetInfo, Payment),
    BettingError,
> {
    if !bet.is_active {
        Err(BettingError::BetNotActive)
    } else if !same_key(oracle, bet.oracle) {
        Err(BettingError::UnauthorizedOracle)
    } else if !one_of(winner, bet.participant1, bet.participant2) {
        Err(BettingError::InvalidWinner)
    } else if !(slot <= bet.deadline) {
        Err(BettingError::DeadlinePassed)
    } else {
        Ok((BetInfo { is_active: false, ..bet }, Payment { to: winner, amount: (bet.wager * 2) as u64 }))
    }
}

/// The oracle (the signer `oracle`) pays both wagers to `winner`, one of the
/// participants, by the deadline. The instruction aborts where twice the wager
/// does not fit in 64 bits; those inputs are left out.
pub fn win(bet: &mut BetInfo, oracle: Pubkey, winner: Pubkey, slot: u64) -> (r: Result<Payment, BettingError>)
    requires
        win_allowed(*old(bet), oracle, winner, slot) ==> old(bet).wager * 2 <= u64::MAX,
    ensures
        applied_with(r, *old(bet), *final(bet), win_result(*old(bet), oracle, winner, slot)),
{
    if !bet.is_active {
        return Err(BettingError::BetNotActive);
    }
    if !oracle.key_eq(&bet.oracle) {
        return Err(BettingError::UnauthorizedOracle);
    }
    if !is_one_of(&winner, &bet.participant1, &bet.participant2) {
        return Err(BettingError::InvalidWinner);
    }
    if !(slot <= bet.deadline) {
        return Err(BettingError::DeadlinePassed);
    }
    let total_pot = bet.wager * 2;
    bet.is_active = false;
    Ok(Payment { to: winner, amount: total_pot })
}

/// Outcome of a timeout at slot `slot`.
pub open spec fn timeout_result(bet: BetInfo, participant1: Pubkey, participant2: Pubkey, slot: u64) -> Result<(BetInfo, Refund), BettingError> {
    if !(one_of(bet.participant1, participant1, participant2) && one_of(bet.participant2, participant1, participant2)) {
        Err(BettingError::InvalidParticipant)
    } else if !bet.is_active {
        Err(BettingError::BetNotActive)
    } else if !(slot > bet.deadline) {
        Err(BettingError::DeadlineNotReached)
    } else {
        Ok(
            (
                BetInfo { is_active: false, ..bet },
                Refund { to_participant1: bet.wager, to_participant2: bet.wager },
            ),
        )
    }
}

/// After the deadline, both wagers go back to the participants.
/// Each of the bet's participants must be one of the two accounts given,
/// `participant1` and `participant2`.
pub fn timeout(bet: &mut BetInfo, participant1: Pubkey, participant2: Pubkey, slot: u64) -> (r: Result<Refund, BettingError>)
    ensures
        applied_with(r, *old(bet), *final(bet), timeout_result(*old(bet), participant1, participant2, slot)),
{
    if !(is_one_of(&bet.participant1, &participant1, &participant2) && is_one_of(&bet.participant2, &participant1, &participant2)) {
        return Err(BettingError::InvalidParticipant);
    }
    if !bet.is_active {
        return Err(BettingError::BetNotActive);
    }
    if !(slot > bet.deadline) {
        return Err(BettingError::DeadlineNotReached);
    }
    let wager = bet.wager;
    bet.is_active = false;
    Ok(Refund { to_participant1: wager, to_participant2: wager })
}

/// Law: the deadline separates the oracle's decision from the refund, and a
/// settled bet stays settled.
pub proof fn lemma_settlement(bet: BetInfo, oracle: Pubkey, winner: Pubkey, slot: u64, refunded1: Pubkey, refunded2: Pubkey)
    ensures
        !(win_result(bet, oracle, winner, slot) is Ok && timeout_result(bet, refunded1, refunded2, slot) is Ok),
        !bet.is_active ==> win_result(bet, oracle, winner, slot) is Err && timeout_result(bet, refunded1, refunded2, slot) is Err,
        win_result(bet, oracle, winner, slot) matches Ok((b, p)) ==> !b.is_active && one_of(
            p.to,
            bet.participant1,
            bet.participant2,
        ),
        timeout_result(bet, refunded1, refunded2, slot) matches Ok((b, _)) ==> !b.is_active,
{
}

/// Law: a bet is only opened between two distinct participants who can
/// both cover the wager.
pub proof fn lemma_join_needs_two_funded_participants(
    participant1: Pubkey,
    participant2: Pubkey,
    oracle: Pubkey,
    delay: u64,
    wager: u64,
    slot: u64,
    participant1_lamports: u64,
    participant2_lamports: u64,
)
    ensures
        join_result(participant1, participant2, oracle, delay, wager, slot, participant1_lamports, participant2_lamports)
            is Ok ==> !same_key(participant1, participant2) && participant1_lamports >= wager
            && participant2_lamports >= wager && wager > 0,
{
}

/// Law: each payment goes where it should. A successful decision pays the
/// declared winner, `winner`, and nobody else, the full pot; a successful
/// refund pays each participant its own share.
pub proof fn lemma_payments_go_where_they_should(
    bet: BetInfo,
    oracle: Pubkey,
    winner: Pubkey,
    slot: u64,
    participant1: Pubkey,
    participant2: Pubkey,
)
    ensures
        win_result(bet, oracle, winner, slot) matches Ok((_, p)) ==> p.to == winner && (bet.wager * 2 <= u64::MAX ==> p.amount == bet.wager * 2),
        timeout_result(bet, participant1, participant2, slot) matches Ok((_, r)) ==> r.to_participant1 == bet.wager && r.to_participant2 == bet.wager,
{
}

} // verus!
