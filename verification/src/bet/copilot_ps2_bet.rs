//! Bet in which two participants each stake `wager` until a deadline slot;
//! until then the designated oracle may pay both wagers to one of them; after
//! it both wagers are refunded. Every movement of lamports is checked against
//! the balances involved, and every failed check is an overflow error.
use vstd::prelude::*;
use crate::common::{Pubkey, same_key, applied_with};
use crate::bet::model::{Wagers, Payment, Refund, one_of, is_one_of};

verus! {

/// The bet's account.
#[derive(Clone, Copy, Debug, PartialEq, Eq)]
pub struct BetInfo {
    pub participant1: Pubkey,
    pub participant2: Pubkey,
    pub oracle: Pubkey,
    pub wager: u64,
    pub deadline: u64,
    pub is_resolved: bool,
    pub bump: u8,
}

#[derive(Clone, Copy, Debug, PartialEq, Eq, Structural)]
pub enum ErrorCode {
    AlreadyResolved,
    DeadlineNotReached,
    DeadlinePassed,
    InvalidOracle,
    Overflow,
    InvalidWinner,
    /// The framework's refusal of a participant account other than the
    /// stored participant in its place, checked with the accounts before the
    /// instruction runs.
    ConstraintHasOne,
}

/// Outcome of two participants joining at slot `slot`, at the address with
/// bump `bump`.
pub open spec fn join_result(
    participant1: Pubkey,
    participant2: Pubkey,
    oracle: Pubkey,
    delay: u64,
    wager: u64,
    slot: u64,
    bump: u8,
) -> Result<(BetInfo, Wagers), ErrorCode> {
    if slot + delay > u64::MAX {
        Err(ErrorCode::Overflow)
    } else {
        Ok(
            (
                BetInfo {
                    participant1,
                    participant2,
                    oracle,
                    wager,
                    deadline: (slot + delay) as u64,
                    is_resolved: false,
                    bump,
                },
                Wagers { from_participant1: wager, from_participant2: wager },
            ),
        )
    }
}

/// Opens a bet between `participant1` and `participant2`, settled by
/// `oracle`, at slot `slot`: the deadline `slot + delay`, and `wager` paid in
/// by each participant.
pub fn join(
    participant1: Pubkey,
    participant2: Pubkey,
    oracle: Pubkey,
    delay: u64,
    wager: u64,
    slot: u64,
    bump: u8,
) -> (r: Result<(BetInfo, Wagers), ErrorCode>)
    ensures
        r == join_result(participant1, participant2, oracle, delay, wager, slot, bump),
{
    let deadline = match slot.checked_add(delay) {
        Some(v) => v,
        None => return Err(ErrorCode::Overflow),
    };
    let bet = BetInfo { participant1, participant2, oracle, wager, deadline, is_resolved: false, bump };
    Ok((bet, Wagers { from_participant1: wager, from_participant2: wager }))
}

/// Outcome of the signer `oracle` declaring `winner` at slot `slot`, with
/// the balances of the bet and of the winner.
pub open spec fn win_result(
    bet: BetInfo,
    oracle: Pubkey,
    winner: Pubkey,
    slot: u64,
    bet_lamports: u64,
    winner_lamports: u64,
) -> Result<(BetInfo, Payment), ErrorCode> {
    if bet.is_resolved {
        Err(ErrorCode::AlreadyResolved)
    } else if !(slot <= bet.deadline) {
        Err(ErrorCode::DeadlinePassed)
    } else if !same_key(oracle, bet.oracle) {
        Err(ErrorCode::InvalidOracle)
    } else if !one_of(winner, bet.participant1, bet.participant2) {
        Err(ErrorCode::InvalidWinner)
    } else if bet.wager * 2 > u64::MAX || bet_lamports < bet.wager * 2 || winner_lamports + bet.wager * 2
        > u64::MAX {
        Err(ErrorCode::Overflow)
    } else {
        Ok((BetInfo { is_resolved: true, ..bet }, Payment { to: winner, amount: (bet.wager * 2) as u64 }))
    }
}

/// The oracle (the signer `oracle`) pays both wagers to `winner`, one of the
/// participants, by the deadline.
pub fn win(
    bet: &mut BetInfo,
    oracle: Pubkey,
    winner: Pubkey,
    slot: u64,
    bet_lamports: u64,
    winner_lamports: u64,
) -> (r: Result<Payment, ErrorCode>)
    ensures
        applied_with(r, *old(bet), *final(bet), win_result(*old(bet), oracle, winner, slot, bet_lamports, winner_lamports)),
{
    if bet.is_resolved {
        return Err(ErrorCode::AlreadyResolved);
    }
    if !(slot <= bet.deadline) {
        return Err(ErrorCode::DeadlinePassed);
    }
    if !oracle.key_eq(&bet.oracle) {
        return Err(ErrorCode::InvalidOracle);
    }
    if !is_one_of(&winner, &bet.participant1, &bet.participant2) {
        return Err(ErrorCode::InvalidWinner);
    }
    let total = match bet.wager.checked_mul(2) {
        Some(v) => v,
        None => return Err(ErrorCode::Overflow),
    };
    if bet_lamports.checked_sub(total).is_none() {
        return Err(ErrorCode::Overflow);
    }
    if winner_lamports.checked_add(total).is_none() {
        return Err(ErrorCode::Overflow);
    }
    bet.is_resolved = true;
    Ok(Payment { to: winner, amount: total })
}

/// Outcome of a timeout at slot `slot`, with the balances of the bet and of
/// the two participants.
pub open spec fn timeout_result(
    bet: BetInfo,
    participant1: Pubkey,
    participant2: Pubkey,
    slot: u64,
    bet_lamports: u64,
    participant1_lamports: u64,
    participant2_lamports: u64,
) -> Result<(BetInfo, Refund), ErrorCode> {
    if !(same_key(participant1, bet.participant1) && same_key(participant2, bet.participant2)) {
        Err(ErrorCode::ConstraintHasOne)
    } else if bet.is_resolved {
        Err(ErrorCode::AlreadyResolved)
    } else if !(slot > bet.deadline) {
        Err(ErrorCode::DeadlineNotReached)
    } else if bet_lamports < bet.wager * 2 || participant1_lamports + bet.wager > u64::MAX
        || participant2_lamports + bet.wager > u64::MAX {
        Err(ErrorCode::Overflow)
    } else {
        Ok(
            (
                BetInfo { is_resolved: true, ..bet },
                Refund { to_participant1: bet.wager, to_participant2: bet.wager },
            ),
        )
    }
}

/// After the deadline, both wagers go back to the participants.
/// The two accounts given, `participant1` and `participant2`, must be the
/// bet's participants, each in its place.
pub fn timeout(
    bet: &mut BetInfo,
    participant1: Pubkey,
    participant2: Pubkey,
    slot: u64,
    bet_lamports: u64,
    participant1_lamports: u64,
    participant2_lamports: u64,
) -> (r: Result<Refund, ErrorCode>)
    ensures
        applied_with(
            r,
            *old(bet),
            *final(bet),
            timeout_result(*old(bet), participant1, participant2, slot, bet_lamports, participant1_lamports, participant2_lamports),
        ),
{
    if !(participant1.key_eq(&bet.participant1) && participant2.key_eq(&bet.participant2)) {
        return Err(ErrorCode::ConstraintHasOne);
    }
    if bet.is_resolved {
        return Err(ErrorCode::AlreadyResolved);
    }
    if !(slot > bet.deadline) {
        return Err(ErrorCode::DeadlineNotReached);
    }
    let wager = bet.wager;
    let after_first = match bet_lamports.checked_sub(wager) {
        Some(v) => v,
        None => return Err(ErrorCode::Overflow),
    };
    if participant1_lamports.checked_add(wager).is_none() {
        return Err(ErrorCode::Overflow);
    }
    if after_first.checked_sub(wager).is_none() {
        return Err(ErrorCode::Overflow);
    }
    if participant2_lamports.checked_add(wager).is_none() {
        return Err(ErrorCode::Overflow);
    }
    bet.is_resolved = true;
    Ok(Refund { to_participant1: wager, to_participant2: wager })
}

/// Law: the deadline separates the oracle's decision from the refund, a
/// resolved bet stays resolved, and no payout exceeds the bet's balance.
pub proof fn lemma_settlement(
    bet: BetInfo,
    oracle: Pubkey,
    winner: Pubkey,
    slot: u64,
    bet_lamports: u64,
    winner_lamports: u64,
    participant1_lamports: u64,
    participant2_lamports: u64,
    refunded1: Pubkey,
    refunded2: Pubkey,
)
    ensures
        !(win_result(bet, oracle, winner, slot, bet_lamports, winner_lamports) is Ok && timeout_result(
            bet, refunded1, refunded2,
            slot,
            bet_lamports,
            participant1_lamports,
            participant2_lamports,
        ) is Ok),
        bet.is_resolved ==> win_result(bet, oracle, winner, slot, bet_lamports, winner_lamports) is Err
            && timeout_result(bet, refunded1, refunded2, slot, bet_lamports, participant1_lamports, participant2_lamports) is Err,
        win_result(bet, oracle, winner, slot, bet_lamports, winner_lamports) matches Ok((b, p)) ==> b.is_resolved
            && p.amount <= bet_lamports && one_of(p.to, bet.participant1, bet.participant2),
        timeout_result(bet, refunded1, refunded2, slot, bet_lamports, participant1_lamports, participant2_lamports) matches Ok((b, r))
            ==> b.is_resolved && r.to_participant1 + r.to_participant2 <= bet_lamports,
{
}

/// Checks the accounts given as the two participants to the oracle's
/// decision, as the decision checks them with its accounts before the
/// instruction runs: they must be the stored participants, each in its place.
pub fn check_participants(bet: &BetInfo, participant1: &Pubkey, participant2: &Pubkey) -> (r: Result<(), ErrorCode>)
    ensures
        same_key(*participant1, bet.participant1) && same_key(*participant2, bet.participant2) ==> r is Ok,
        !(same_key(*participant1, bet.participant1) && same_key(*participant2, bet.participant2)) ==> r
            == Err::<(), ErrorCode>(ErrorCode::ConstraintHasOne),
{
    if !(participant1.key_eq(&bet.participant1) && participant2.key_eq(&bet.participant2)) {
        return Err(ErrorCode::ConstraintHasOne);
    }
    Ok(())
}

/// Law: each payment goes where it should. A successful decision pays the
/// declared winner, `winner`, and nobody else, the full pot; a successful
/// refund pays each participant its own share.
pub proof fn lemma_payments_go_where_they_should(
    bet: BetInfo,
    oracle: Pubkey,
    winner: Pubkey,
    slot: u64,
    bet_lamports: u64,
    winner_lamports: u64,
    participant1: Pubkey,
    participant2: Pubkey,
    participant1_lamports: u64,
    participant2_lamports: u64,
)
    ensures
        win_result(bet, oracle, winner, slot, bet_lamports, winner_lamports) matches Ok((_, p)) ==> p.to == winner && p.amount == bet.wager * 2,
        timeout_result(bet, participant1, participant2, slot, bet_lamports, participant1_lamports, participant2_lamports) matches Ok((_, r)) ==> r.to_participant1 == bet.wager && r.to_participant2 == bet.wager,
{
}

} // verus!
