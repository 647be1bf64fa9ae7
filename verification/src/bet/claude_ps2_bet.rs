//! Bet in which two participants each stake `wager` (positive) until a
//! deadline slot; until then the designated oracle may pay both wagers to
//! one of them; after the deadline both wagers are refunded. Every movement
//! of lamports is checked against the balances involved.
use vstd::prelude::*;
use crate::common::{Pubkey, same_key, applied_with};
use crate::bet::model::{Wagers, Payment, Refund, one_of, is_one_of};

verus! {

#[derive(Clone, Copy, Debug, PartialEq, Eq, Structural)]
pub enum BetState {
    Active,
    Resolved,
}

/// The bet's account.
#[derive(Clone, Copy, Debug, PartialEq, Eq)]
pub struct BetInfo {
    pub participant1: Pubkey,
    pub participant2: Pubkey,
    pub oracle: Pubkey,
    pub wager: u64,
    pub deadline: u64,
    pub state: BetState,
    pub bump: u8,
}

impl BetInfo {
    /// Bytes of the bet's account: discriminator, three keys, two numbers,
    /// the state and the bump.
    pub const SPACE: usize = 8 + 32 + 32 + 32 + 8 + 8 + 1 + 1;
}

#[derive(Clone, Copy, Debug, PartialEq, Eq, Structural)]
pub enum BettingError {
    InvalidWager,
    BetAlreadyResolved,
    DeadlinePassed,
    DeadlineNotReached,
    UnauthorizedOracle,
    InvalidWinner,
    InvalidParticipant,
    InsufficientFunds,
    ArithmeticOverflow,
}

/// Outcome of two participants joining at slot `slot`, at the address with
/// bump `bump`.
pub open spec fn join_result(
    participant1: Pubkey,
    participant2: Pubkey,
    oracle: Pubkey,
    delay: u64,
    wager: u64,
    slot: u64,
    bump: u8,
) -> Result<(BetInfo, Wagers), BettingError> {
    if !(wager > 0) {
        Err(BettingError::InvalidWager)
    } else if slot + delay > u64::MAX {
        Err(BettingError::ArithmeticOverflow)
    } else {
        Ok(
            (
                BetInfo {
                    participant1,
                    participant2,
                    oracle,
                    wager,
                    deadline: (slot + delay) as u64,
                    state: BetState::Active,
                    bump,
                },
                Wagers { from_participant1: wager, from_participant2: wager },
            ),
        )
    }
}

/// Opens a bet between `participant1` and `participant2`, settled by
/// `oracle`, at slot `slot`: the deadline `slot + delay`, and `wager` paid in
/// by each participant.
pub fn join(
    participant1: Pubkey,
    participant2: Pubkey,
    oracle: Pubkey,
    delay: u64,
    wager: u64,
    slot: u64,
    bump: u8,
) -> (r: Result<(BetInfo, Wagers), BettingError>)
    ensures
        r == join_result(participant1, participant2, oracle, delay, wager, slot, bump),
{
    if !(wager > 0) {
        return Err(BettingError::InvalidWager);
    }
    let deadline = match slot.checked_add(delay) {
        Some(v) => v,
        None => return Err(BettingError::ArithmeticOverflow),
    };
    let bet = BetInfo {
        participant1,
        participant2,
        oracle,
        wager,
        deadline,
        state: BetState::Active,
        bump,
    };
    Ok((bet, Wagers { from_participant1: wager, from_participant2: wager }))
}

/// Outcome of the signer `oracle` declaring `winner` at slot `slot`, with
/// the balances of the bet and of the winner.
pub open spec fn win_result(
    bet: BetInfo,
    oracle: Pubkey,
    winner: Pubkey,
    slot: u64,
    bet_lamports: u64,
    winner_lamports: u64,
) -> Result<(BetInfo, Payment), BettingError> {
    if bet.state != BetState::Active {
        Err(BettingError::BetAlreadyResolved)
    } else if !(slot <= bet.deadline) {
        Err(BettingError::DeadlinePassed)
    } else if !same_key(oracle, bet.oracle) {
        Err(BettingError::UnauthorizedOracle)
    } else if !one_of(winner, bet.participant1, bet.participant2) {
        Err(BettingError::InvalidWinner)
    } else if bet.wager * 2 > u64::MAX {
        Err(BettingError::ArithmeticOverflow)
    } else if bet_lamports < bet.wager * 2 {
        Err(BettingError::InsufficientFunds)
    } else if winner_lamports + bet.wager * 2 > u64::MAX {
        Err(BettingError::ArithmeticOverflow)
    } else {
        Ok((BetInfo { state: BetState::Resolved, ..bet }, Payment { to: winner, amount: (bet.wager * 2) as u64 }))
    }
}

/// The oracle (the signer `oracle`) pays both wagers to `winner`, one of the
/// participants, by the deadline.
pub fn win(
    bet: &mut BetInfo,
    oracle: Pubkey,
    winner: Pubkey,
    slot: u64,
    bet_lamports: u64,
    winner_lamports: u64,
) -> (r: Result<Payment, BettingError>)
    ensures
        applied_with(r, *old(bet), *final(bet), win_result(*old(bet), oracle, winner, slot, bet_lamports, winner_lamports)),
{
    if !(bet.state == BetState::Active) {
        return Err(BettingError::BetAlreadyResolved);
    }
    if !(slot <= bet.deadline) {
        return Err(BettingError::DeadlinePassed);
    }
    if !oracle.key_eq(&bet.oracle) {
        return Err(BettingError::UnauthorizedOracle);
    }
    if !is_one_of(&winner, &bet.participant1, &bet.participant2) {
        return Err(BettingError::InvalidWinner);
    }
    let total_pot = match bet.wager.checked_mul(2) {
        Some(v) => v,
        None => return Err(BettingError::ArithmeticOverflow),
    };
    if bet_lamports.checked_sub(total_pot).is_none() {
        return Err(BettingError::InsufficientFunds);
    }
    if winner_lamports.checked_add(total_pot).is_none() {
        return Err(BettingError::ArithmeticOverflow);
    }
    bet.state = BetState::Resolved;
    Ok(Payment { to: winner, amount: total_pot })
}

/// Outcome of a timeout at slot `slot`, with the balances of the bet and of
/// the two participants.
pub open spec fn timeout_result(
    bet: BetInfo,
    participant1: Pubkey,
    participant2: Pubkey,
    slot: u64,
    bet_lamports: u64,
    participant1_lamports: u64,
    participant2_lamports: u64,
) -> Result<(BetInfo, Refund), BettingError> {
    if !(one_of(bet.participant1, participant1, participant2) && one_of(bet.participant2, participant1, participant2)) {
        Err(BettingError::InvalidParticipant)
    } else if bet.state != BetState::Active {
        Err(BettingError::BetAlreadyResolved)
    } else if !(slot > bet.deadline) {
        Err(BettingError::DeadlineNotReached)
    } else if bet.wager * 2 > u64::MAX {
        Err(BettingError::ArithmeticOverflow)
    } else if bet_lamports < bet.wager * 2 {
        Err(BettingError::InsufficientFunds)
    } else if participant1_lamports + bet.wager > u64::MAX || participant2_lamports + bet.wager > u64::MAX {
        Err(BettingError::ArithmeticOverflow)
    } else {
        Ok(
            (
                BetInfo { state: BetState::Resolved, ..bet },
                Refund { to_participant1: bet.wager, to_participant2: bet.wager },
            ),
        )
    }
}

/// After the deadline, both wagers go back to the participants.
/// Each of the bet's participants must be one of the two accounts given,
/// `participant1` and `participant2`.
pub fn timeout(
    bet: &mut BetInfo,
    participant1: Pubkey,
    participant2: Pubkey,
    slot: u64,
    bet_lamports: u64,
    participant1_lamports: u64,
    participant2_lamports: u64,
) -> (r: Result<Refund, BettingError>)
    ensures
        applied_with(
            r,
            *old(bet),
            *final(bet),
            timeout_result(*old(bet), participant1, participant2, slot, bet_lamports, participant1_lamports, participant2_lamports),
        ),
{
    if !(is_one_of(&bet.participant1, &participant1, &participant2) && is_one_of(&bet.participant2, &participant1, &participant2)) {
        return Err(BettingError::InvalidParticipant);
    }
    if !(bet.state == BetState::Active) {
        return Err(BettingError::BetAlreadyResolved);
    }
    if !(slot > bet.deadline) {
        return Err(BettingError::DeadlineNotReached);
    }
    let wager = bet.wager;
    let total_refund = match wager.checked_mul(2) {
        Some(v) => v,
        None => return Err(BettingError::ArithmeticOverflow),
    };
    if bet_lamports.checked_sub(total_refund).is_none() {
        return Err(BettingError::InsufficientFunds);
    }
    if participant1_lamports.checked_add(wager).is_none() {
        return Err(BettingError::ArithmeticOverflow);
    }
    if participant2_lamports.checked_add(wager).is_none() {
        return Err(BettingError::ArithmeticOverflow);
    }
    bet.state = BetState::Resolved;
    Ok(Refund { to_participant1: wager, to_participant2: wager })
}

/// Law: the deadline separates the oracle's decision from the refund: at
/// no slot are both open.
pub proof fn lemma_win_or_timeout(
    bet: BetInfo,
    oracle: Pubkey,
    winner: Pubkey,
    slot: u64,
    bet_lamports: u64,
    winner_lamports: u64,
    participant1_lamports: u64,
    participant2_lamports: u64,
    refunded1: Pubkey,
    refunded2: Pubkey,
)
    ensures
        !(win_result(bet, oracle, winner, slot, bet_lamports, winner_lamports) is Ok && timeout_result(
            bet, refunded1, refunded2,
            slot,
            bet_lamports,
            participant1_lamports,
            participant2_lamports,
        ) is Ok),
{
}

/// Law: a resolved bet stays resolved: neither a decision nor a refund
/// succeeds any more; a payment never exceeds the bet's balance and always
/// goes to a participant.
pub proof fn lemma_resolved_is_final(
    bet: BetInfo,
    oracle: Pubkey,
    winner: Pubkey,
    slot: u64,
    bet_lamports: u64,
    winner_lamports: u64,
    participant1_lamports: u64,
    participant2_lamports: u64,
    refunded1: Pubkey,
    refunded2: Pubkey,
)
    ensures
        bet.state == BetState::Resolved ==> win_result(bet, oracle, winner, slot, bet_lamports, winner_lamports)
            is Err && timeout_result(bet, refunded1, refunded2, slot, bet_lamports, participant1_lamports, participant2_lamports) is Err,
        win_result(bet, oracle, winner, slot, bet_lamports, winner_lamports) matches Ok((b, p)) ==> b.state
            == BetState::Resolved && p.amount <= bet_lamports && one_of(p.to, bet.participant1, bet.participant2),
        timeout_result(bet, refunded1, refunded2, slot, bet_lamports, participant1_lamports, participant2_lamports) matches Ok((b, r))
            ==> b.state == BetState::Resolved && r.to_participant1 + r.to_participant2 <= bet_lamports,
{
}

/// Law: each payment goes where it should. A successful decision pays the
/// declared winner, `winner`, and nobody else, the full pot; a successful
/// refund pays each participant its own share.
pub proof fn lemma_payments_go_where_they_should(
    bet: BetInfo,
    oracle: Pubkey,
    winner: Pubkey,
    slot: u64,
    bet_lamports: u64,
    winner_lamports: u64,
    participant1: Pubkey,
    participant2: Pubkey,
    participant1_lamports: u64,
    participant2_lamports: u64,
)
    ensures
        win_result(bet, oracle, winner, slot, bet_lamports, winner_lamports) matches Ok((_, p)) ==> p.to == winner && p.amount == bet.wager * 2,
        timeout_result(bet, participant1, participant2, slot, bet_lamports, participant1_lamports, participant2_lamports) matches Ok((_, r)) ==> r.to_participant1 == bet.wager && r.to_participant2 == bet.wager,
{
}

} // verus!
