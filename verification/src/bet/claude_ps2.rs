//! Bet in which two participants each stake `wager` (positive) until a
//! deadline slot; until then the designated oracle may pay the stored pot to
//! one of them, and the winner is recorded; after the deadline both wagers
//! are refunded.
use vstd::prelude::*;
use crate::common::{Pubkey, same_key, applied_with};
use crate::bet::model::{Wagers, Payment, Refund, one_of, is_one_of};

verus! {

/// The bet's account.
#[derive(Clone, Copy, Debug, PartialEq, Eq)]
pub struct BetInfo {
    pub participant1: Pubkey,
    pub participant2: Pubkey,
    pub oracle: Pubkey,
    pub wager: u64,
    pub deadline: u64,
    pub pot: u64,
    pub is_active: bool,
    pub winner: Option<Pubkey>,
}

impl BetInfo {
    /// Bytes of the bet's account: discriminator, three keys, three numbers,
    /// the flag and the optional winner.
    pub const SPACE: usize = 8 + 32 + 32 + 32 + 8 + 8 + 8 + 1 + (1 + 32);
}

#[derive(Clone, Copy, Debug, PartialEq, Eq, Structural)]
pub enum BettingError {
    InvalidWager,
    BetNotActive,
    BetExpired,
    BetNotExpired,
    UnauthorizedOracle,
    InvalidWinner,
    InvalidParticipant,
}

/// Outcome of two participants joining at slot `slot`.
pub open spec fn join_result(
    participant1: Pubkey,
    participant2: Pubkey,
    oracle: Pubkey,
    delay: u64,
    wager: u64,
    slot: u64,
) -> Result<(BetInfo, Wagers), BettingError> {
    if !(wager > 0) {
        Err(BettingError::InvalidWager)
    } else {
        Ok(
            (
                BetInfo {
                    participant1,
                    participant2,
                    oracle,
                    wager,
                    deadline: (slot + delay) as u64,
                    pot: (wager * 2) as u64,
                    is_active: true,
                    winner: None,
                },
                Wagers { from_participant1: wager, from_participant2: wager },
            ),
        )
    }
}

/// Opens a bet between `participant1` and `participant2`, settled by
/// `oracle`, at slot `slot`: the deadline `slot + delay`, the pot of both
/// wagers, and `wager` paid in by each participant. The instruction aborts where
/// the deadline or the pot does not fit in 64 bits; those inputs are left
/// out.
pub fn join(
    participant1: Pubkey,
    participant2: Pubkey,
    oracle: Pubkey,
    delay: u64,
    wager: u64,
    slot: u64,
) -> (r: Result<(BetInfo, Wagers), BettingError>)
    requires
        wager > 0 ==> slot + delay <= u64::MAX && wager * 2 <= u64::MAX,
    ensures
        r == join_result(participant1, participant2, oracle, delay, wager, slot),
{
    if !(wager > 0) {
        return Err(BettingError::InvalidWager);
    }
    let deadline = slot + delay;
    let pot = wager * 2;
    let bet = BetInfo {
        participant1,
        participant2,
        oracle,
        wager,
        deadline,
        pot,
        is_active: true,
        winner: None,
    };
    Ok((bet, Wagers { from_participant1: wager, from_participant2: wager }))
}

/// Outcome of the signer `oracle` declaring `winner` at slot `slot`.
pub open spec fn win_result(bet: BetInfo, oracle: Pubkey, winner: Pubkey, slot: u64) -> Result<
    (BetInfo, Payment),
    BettingError,
> {
    if !same_key(oracle, bet.oracle) {
        Err(BettingError::UnauthorizedOracle)
    } else if !bet.is_active {
        Err(BettingError::BetNotActive)
    } else if !(slot <= bet.deadline) {
        Err(BettingError::BetExpired)
    } else if !one_of(winner, bet.participant1, bet.participant2) {
        Err(BettingError::InvalidWinner)
    } else {
        Ok((BetInfo { is_active: false, winner: Some(winner), ..bet }, Payment { to: winner, amount: bet.pot }))
    }
}

/// The oracle (the signer `oracle`, checked against the stored oracle before
/// anything else) pays the stored pot to `winner`, one of the participants,
/// by the deadline, and the winner is recorded.
pub fn win(bet: &mut BetInfo, oracle: Pubkey, winner: Pubkey, slot: u64) -> (r: Result<Payment, BettingError>)
    ensures
        applied_with(r, *old(bet), *final(bet), win_result(*old(bet), oracle, winner, slot)),
{
    if !oracle.key_eq(&bet.oracle) {
        return Err(BettingError::UnauthorizedOracle);
    }
    if !bet.is_active {
        return Err(BettingError::BetNotActive);
    }
    if !(slot <= bet.deadline) {
        return Err(BettingError::BetExpired);
    }
    if !is_one_of(&winner, &bet.participant1, &bet.participant2) {
        return Err(BettingError::InvalidWinner);
    }
    let pot_amount = bet.pot;
    bet.is_active = false;
    bet.winner = Some(winner);
    Ok(Payment { to: winner, amount: pot_amount })
}

/// Outcome of a timeout at slot `slot`.
pub open spec fn timeout_result(bet: BetInfo, participant1: Pubkey, participant2: Pubkey, slot: u64) -> Result<(BetInfo, Refund), BettingError> {
    if !(same_key(participant1, bet.participant1) && same_key(participant2, bet.participant2)) {
        Err(BettingError::InvalidParticipant)
    } else if !bet.is_active {
        Err(BettingError::BetNotActive)
    } else if !(slot > bet.deadline) {
        Err(BettingError::BetNotExpired)
    } else {
        Ok(
            (
                BetInfo { is_active: false, ..bet },
                Refund { to_participant1: bet.wager, to_participant2: bet.wager },
            ),
        )
    }
}

/// After the deadline, both wagers go back to the participants.
/// The two accounts given, `participant1` and `participant2`, must be the
/// bet's participants, each in its place.
pub fn timeout(bet: &mut BetInfo, participant1: Pubkey, participant2: Pubkey, slot: u64) -> (r: Result<Refund, BettingError>)
    ensures
        applied_with(r, *old(bet), *final(bet), timeout_result(*old(bet), participant1, participant2, slot)),
{
    if !(participant1.key_eq(&bet.participant1) && participant2.key_eq(&bet.participant2)) {
        return Err(BettingError::InvalidParticipant);
    }
    if !bet.is_active {
        return Err(BettingError::BetNotActive);
    }
    if !(slot > bet.deadline) {
        return Err(BettingError::BetNotExpired);
    }
    let wager_amount = bet.wager;
    bet.is_active = false;
    Ok(Refund { to_participant1: wager_amount, to_participant2: wager_amount })
}

/// Law: the deadline separates the oracle's decision from the refund, a
/// settled bet stays settled, and the recorded winner is the one paid.
pub proof fn lemma_settlement(bet: BetInfo, oracle: Pubkey, winner: Pubkey, slot: u64, refunded1: Pubkey, refunded2: Pubkey)
    ensures
        !(win_result(bet, oracle, winner, slot) is Ok && timeout_result(bet, refunded1, refunded2, slot) is Ok),
        !bet.is_active ==> win_result(bet, oracle, winner, slot) is Err && timeout_result(bet, refunded1, refunded2, slot) is Err,
        win_result(bet, oracle, winner, slot) matches Ok((b, p)) ==> b.winner == Some(p.to) && !b.is_active
            && one_of(p.to, bet.participant1, bet.participant2),
{
}

/// Law: what a bet opened by `join` pays out is what was paid in.
pub proof fn lemma_payouts_match_wagers(
    participant1: Pubkey,
    participant2: Pubkey,
    oracle: Pubkey,
    delay: u64,
    wager: u64,
    slot: u64,
    caller: Pubkey,
    winner: Pubkey,
    later: u64,
    refunded1: Pubkey,
    refunded2: Pubkey,
)
    requires
        wager > 0 ==> slot + delay <= u64::MAX && wager * 2 <= u64::MAX,
    ensures
        join_result(participant1, participant2, oracle, delay, wager, slot) matches Ok((bet, w)) ==> {
            &&& win_result(bet, caller, winner, later) matches Ok((_, p)) ==> p.amount == w.from_participant1
                + w.from_participant2
            &&& timeout_result(bet, refunded1, refunded2, later) matches Ok((_, r)) ==> r.to_participant1 == w.from_participant1
                && r.to_participant2 == w.from_participant2
        },
{
}

/// Law: each payment goes where it should. A successful decision pays the
/// declared winner, `winner`, and nobody else, the full pot; a successful
/// refund pays each participant its own share.
pub proof fn lemma_payments_go_where_they_should(
    bet: BetInfo,
    oracle: Pubkey,
    winner: Pubkey,
    slot: u64,
    participant1: Pubkey,
    participant2: Pubkey,
)
    ensures
        win_result(bet, oracle, winner, slot) matches Ok((_, p)) ==> p.to == winner && p.amount == bet.pot,
        timeout_result(bet, participant1, participant2, slot) matches Ok((_, r)) ==> r.to_participant1 == bet.wager && r.to_participant2 == bet.wager,
{
}

} // verus!
