//! Bet in which two participants each stake `wager` until a deadline slot;
//! before it the designated oracle may pay both wagers to one of them; from
//! the deadline on both wagers are refunded. Every movement of lamports is
//! checked against the balances involved.
use vstd::prelude::*;
use crate::common::{Pubkey, same_key, applied_with};
use crate::bet::model::{Wagers, Payment, Refund, one_of, is_one_of};

verus! {

#[derive(Clone, Copy, Debug, PartialEq, Eq, Structural)]
pub enum BetState {
    Active,
    Resolved,
}

/// The bet's account.
#[derive(Clone, Copy, Debug, PartialEq, Eq)]
pub struct BetInfo {
    pub participant1: Pubkey,
    pub participant2: Pubkey,
    pub oracle: Pubkey,
    pub wager: u64,
    pub deadline: u64,
    pub state: BetState,
    pub bump: u8,
}

#[derive(Clone, Copy, Debug, PartialEq, Eq, Structural)]
pub enum BetError {
    AlreadyResolved,
    DeadlineNotReached,
    DeadlinePassed,
    InvalidOracle,
    InvalidParticipants,
    InvalidWinner,
    Overflow,
    InsufficientFunds,
}

/// Opens a bet between `participant1` and `participant2`, settled by
/// `oracle`, at slot `slot`, at the address with bump `bump`: the deadline
/// `slot + delay`, and `wager` paid in by each participant. Nothing is
/// refused. The instruction aborts where the deadline does not fit in 64 bits;
/// those inputs are left out.
pub fn join(
    participant1: Pubkey,
    participant2: Pubkey,
    oracle: Pubkey,
    delay: u64,
    wager: u64,
    slot: u64,
    bump: u8,
) -> (out: (BetInfo, Wagers))
    requires
        slot + delay <= u64::MAX,
    ensures
        out == (
            BetInfo {
                participant1,
                participant2,
                oracle,
                wager,
                deadline: (slot + delay) as u64,
                state: BetState::Active,
                bump,
            },
            Wagers { from_participant1: wager, from_participant2: wager },
        ),
{
    (
        BetInfo {
            participant1,
            participant2,
            oracle,
            wager,
            deadline: slot + delay,
            state: BetState::Active,
            bump,
        },
        Wagers { from_participant1: wager, from_participant2: wager },
    )
}

/// The decision passes the instruction's checks before the pot is computed.
pub open spec fn win_allowed(
    bet: BetInfo,
    oracle: Pubkey,
    winner: Pubkey,
    participant1_key: Pubkey,
    participant2_key: Pubkey,
    slot: u64,
) -> bool {
    &&& bet.state == BetState::Active
    &&& slot < bet.deadline
    &&& same_key(oracle, bet.oracle)
    &&& same_key(participant1_key, bet.participant1) && same_key(participant2_key, bet.participant2)
    &&& one_of(winner, bet.participant1, bet.participant2)
}

/// Outcome of the signer `oracle` declaring `winner` at slot `slot`, given
/// the keys of the participant accounts passed and the balances of the bet
/// and of the winner.
pub open spec fn win_result(
    bet: BetInfo,
    oracle: Pubkey,
    winner: Pubkey,
    participant1_key: Pubkey,
    participant2_key: Pubkey,
    slot: u64,
    bet_lamports: u64,
    winner_lamports: u64,
) -> Result<(BetInfo, Payment), BetError> {
    if bet.state != BetState::Active {
        Err(BetError::AlreadyResolved)
    } else if !(slot < bet.deadline) {
        Err(BetError::DeadlinePassed)
    } else if !same_key(oracle, bet.oracle) {
        Err(BetError::InvalidOracle)
    } else if !(same_key(participant1_key, bet.participant1) && same_key(participant2_key, bet.participant2)) {
        Err(BetError::InvalidParticipants)
    } else if !one_of(winner, bet.participant1, bet.participant2) {
        Err(BetError::InvalidWinner)
    } else if winner_lamports + bet.wager * 2 > u64::MAX {
        Err(BetError::Overflow)
    } else if bet_lamports < bet.wager * 2 {
        Err(BetError::InsufficientFunds)
    } else {
        Ok((BetInfo { state: BetState::Resolved, ..bet }, Payment { to: winner, amount: (bet.wager * 2) as u64 }))
    }
}

/// The oracle (the signer `oracle`) pays both wagers to `winner`, one of the
/// participants, before the deadline; the participant accounts passed must
/// be the bet's. The instruction aborts where twice the wager does not fit in 64
/// bits; those inputs are left out.
pub fn win(
    bet: &mut BetInfo,
    oracle: Pubkey,
    winner: Pubkey,
    participant1_key: Pubkey,
    participant2_key: Pubkey,
    slot: u64,
    bet_lamports: u64,
    winner_lamports: u64,
) -> (r: Result<Payment, BetError>)
    requires
        win_allowed(*old(bet), oracle, winner, participant1_key, participant2_key, slot) ==> old(bet).wager * 2
            <= u64::MAX,
    ensures
        applied_with(
            r,
            *old(bet),
            *final(bet),
            win_result(
                *old(bet),
                oracle,
                winner,
                participant1_key,
                participant2_key,
                slot,
                bet_lamports,
                winner_lamports,
            ),
        ),
{
    if !(bet.state == BetState::Active) {
        return Err(BetError::AlreadyResolved);
    }
    if !(slot < bet.deadline) {
        return Err(BetError::DeadlinePassed);
    }
    if !oracle.key_eq(&bet.oracle) {
        return Err(BetError::InvalidOracle);
    }
    if !(participant1_key.key_eq(&bet.participant1) && participant2_key.key_eq(&bet.participant2)) {
        return Err(BetError::InvalidParticipants);
    }
    if !is_one_of(&winner, &bet.participant1, &bet.participant2) {
        return Err(BetError::InvalidWinner);
    }
    let amount = bet.wager * 2;
    if winner_lamports.checked_add(amount).is_none() {
        return Err(BetError::Overflow);
    }
    if bet_lamports.checked_sub(amount).is_none() {
        return Err(BetError::InsufficientFunds);
    }
    bet.state = BetState::Resolved;
    Ok(Payment { to: winner, amount })
}

/// Outcome of a timeout at slot `slot`, with the balances of the bet and of
/// the two participants.
pub open spec fn timeout_result(
    bet: BetInfo,
    slot: u64,
    bet_lamports: u64,
    participant1_lamports: u64,
    participant2_lamports: u64,
) -> Result<(BetInfo, Refund), BetError> {
    if bet.state != BetState::Active {
        Err(BetError::AlreadyResolved)
    } else if !(slot >= bet.deadline) {
        Err(BetError::DeadlineNotReached)
    } else if participant1_lamports + bet.wager > u64::MAX {
        Err(BetError::Overflow)
    } else if bet_lamports < bet.wager {
        Err(BetError::InsufficientFunds)
    } else if participant2_lamports + bet.wager > u64::MAX {
        Err(BetError::Overflow)
    } else if bet_lamports - bet.wager < bet.wager {
        Err(BetError::InsufficientFunds)
    } else {
        Ok(
            (
                BetInfo { state: BetState::Resolved, ..bet },
                Refund { to_participant1: bet.wager, to_participant2: bet.wager },
            ),
        )
    }
}

/// From the deadline on, both wagers go back to the participants.
pub fn timeout(
    bet: &mut BetInfo,
    slot: u64,
    bet_lamports: u64,
    participant1_lamports: u64,
    participant2_lamports: u64,
) -> (r: Result<Refund, BetError>)
    ensures
        applied_with(
            r,
            *old(bet),
            *final(bet),
            timeout_result(*old(bet), slot, bet_lamports, participant1_lamports, participant2_lamports),
        ),
{
    if !(bet.state == BetState::Active) {
        return Err(BetError::AlreadyResolved);
    }
    if !(slot >= bet.deadline) {
        return Err(BetError::DeadlineNotReached);
    }
    let wager = bet.wager;
    if participant1_lamports.checked_add(wager).is_none() {
        return Err(BetError::Overflow);
    }
    let after_first = match bet_lamports.checked_sub(wager) {
        Some(v) => v,
        None => return Err(BetError::InsufficientFunds),
    };
    if participant2_lamports.checked_add(wager).is_none() {
        return Err(BetError::Overflow);
    }
    if after_first.checked_sub(wager).is_none() {
        return Err(BetError::InsufficientFunds);
    }
    bet.state = BetState::Resolved;
    Ok(Refund { to_participant1: wager, to_participant2: wager })
}

/// Law: the deadline separates the decision (strictly before it) from the
/// refund (from it on), a resolved bet stays resolved, and no payout exceeds
/// the bet's balance.
pub proof fn lemma_settlement(
    bet: BetInfo,
    oracle: Pubkey,
    winner: Pubkey,
    participant1_key: Pubkey,
    participant2_key: Pubkey,
    slot: u64,
    bet_lamports: u64,
    winner_lamports: u64,
    participant1_lamports: u64,
    participant2_lamports: u64,
)
    ensures
        !(win_result(
            bet,
            oracle,
            winner,
            participant1_key,
            participant2_key,
            slot,
            bet_lamports,
            winner_lamports,
        ) is Ok && timeout_result(bet, slot, bet_lamports, participant1_lamports, participant2_lamports) is Ok),
        bet.state == BetState::Resolved ==> win_result(
            bet,
            oracle,
            winner,
            participant1_key,
            participant2_key,
            slot,
            bet_lamports,
            winner_lamports,
        ) is Err && timeout_result(bet, slot, bet_lamports, participant1_lamports, participant2_lamports) is Err,
        win_result(bet, oracle, winner, participant1_key, participant2_key, slot, bet_lamports, winner_lamports) matches Ok(
            (b, p),
        ) ==> b.state == BetState::Resolved && p.amount <= bet_lamports,
        timeout_result(bet, slot, bet_lamports, participant1_lamports, participant2_lamports) matches Ok((b, r))
            ==> b.state == BetState::Resolved && r.to_participant1 + r.to_participant2 <= bet_lamports,
{
}

/// Law: each payment goes where it should. A successful decision pays the
/// declared winner, `winner`, and nobody else, the full pot; a successful
/// refund pays each participant its own share.
pub proof fn lemma_payments_go_where_they_should(
    bet: BetInfo,
    oracle: Pubkey,
    winner: Pubkey,
    participant1_key: Pubkey,
    participant2_key: Pubkey,
    slot: u64,
    bet_lamports: u64,
    winner_lamports: u64,
    participant1_lamports: u64,
    participant2_lamports: u64,
)
    ensures
        win_result(bet, oracle, winner, participant1_key, participant2_key, slot, bet_lamports, winner_lamports) matches Ok((_, p)) ==> p.to == winner && p.amount == bet.wager * 2,
        timeout_result(bet, slot, bet_lamports, participant1_lamports, participant2_lamports) matches Ok((_, r)) ==> r.to_participant1 == bet.wager && r.to_participant2 == bet.wager,
{
}

} // verus!
