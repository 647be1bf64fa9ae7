//! Bet in which two participants each stake `wager` (positive) for a
//! positive delay; until the deadline slot the designated oracle may pay both
//! wagers to one of them; after it both wagers are refunded.
use vstd::prelude::*;
use crate::common::{Pubkey, same_key, applied_with};
use crate::bet::model::{Wagers, Payment, Refund, one_of, is_one_of};

verus! {

/// The bet's account.
#[derive(Clone, Copy, Debug, PartialEq, Eq)]
pub struct BetInfo {
    pub participant1: Pubkey,
    pub participant2: Pubkey,
    pub oracle: Pubkey,
    pub wager: u64,
    pub deadline: u64,
    pub is_resolved: bool,
}

impl BetInfo {
    /// Bytes of the bet's account: discriminator, three keys, two numbers and
    /// the flag.
    pub const LEN: usize = 8 + 32 + 32 + 32 + 8 + 8 + 1;
}

#[derive(Clone, Copy, Debug, PartialEq, Eq, Structural)]
pub enum BettingError {
    InvalidWager,
    InvalidDelay,
    InvalidOracle,
    BetAlreadyResolved,
    DeadlinePassed,
    DeadlineNotReached,
    InvalidWinner,
}

/// Outcome of two participants joining at slot `slot`.
pub open spec fn join_result(
    participant1: Pubkey,
    participant2: Pubkey,
    oracle: Pubkey,
    delay: u64,
    wager: u64,
    slot: u64,
) -> Result<(BetInfo, Wagers), BettingError> {
    if !(wager > 0) {
        Err(BettingError::InvalidWager)
    } else if !(delay > 0) {
        Err(BettingError::InvalidDelay)
    } else {
        Ok(
            (
                BetInfo {
                    participant1,
                    participant2,
                    oracle,
                    wager,
                    deadline: (slot + delay) as u64,
                    is_resolved: false,
                },
                Wagers { from_participant1: wager, from_participant2: wager },
            ),
        )
    }
}

/// Opens a bet between `participant1` and `participant2`, settled by
/// `oracle`, at slot `slot`: the deadline `slot + delay`, and `wager` paid in
/// by each participant. The instruction aborts where the deadline does not fit
/// in 64 bits; those inputs are left out.
pub fn join(
    participant1: Pubkey,
    participant2: Pubkey,
    oracle: Pubkey,
    delay: u64,
    wager: u64,
    slot: u64,
) -> (r: Result<(BetInfo, Wagers), BettingError>)
    requires
        wager > 0 && delay > 0 ==> slot + delay <= u64::MAX,
    ensures
        r == join_result(participant1, participant2, oracle, delay, wager, slot),
{
    if !(wager > 0) {
        return Err(BettingError::InvalidWager);
    }
    if !(delay > 0) {
        return Err(BettingError::InvalidDelay);
    }
    let bet = BetInfo {
        participant1,
        participant2,
        oracle,
        wager,
        deadline: slot + delay,
        is_resolved: false,
    };
    Ok((bet, Wagers { from_participant1: wager, from_participant2: wager }))
}

/// The oracle's decision passes every check of the instruction.
pub open spec fn win_allowed(bet: BetInfo, oracle: Pubkey, winner: Pubkey, slot: u64) -> bool {
    &&& same_key(oracle, bet.oracle)
    &&& !bet.is_resolved
    &&& slot <= bet.deadline
    &&& one_of(winner, bet.participant1, bet.participant2)
}

/// Outcome of the signer `oracle` declaring `winner` at slot `slot`.
pub open spec fn win_result(bet: BetInfo, oracle: Pubkey, winner: Pubkey, slot: u64) -> Result<
    (BetInfo, Payment),
    BettingError,
> {
    if !same_key(oracle, bet.oracle) {
        Err(BettingError::InvalidOracle)
    } else if bet.is_resolved {
        Err(BettingError::BetAlreadyResolved)
    } else if !(slot <= bet.deadline) {
        Err(BettingError::DeadlinePassed)
    } else if !one_of(winner, bet.participant1, bet.participant2) {
        Err(BettingError::InvalidWinner)
    } else {
        Ok((BetInfo { is_resolved: true, ..bet }, Payment { to: winner, amount: (bet.wager * 2) as u64 }))
    }
}

/// The oracle (the signer `oracle`) pays both wagers to `winner`, one of the
/// participants, by the deadline. The instruction aborts where twice the wager
/// does not fit in 64 bits; those inputs are left out.
pub fn win(bet: &mut BetInfo, oracle: Pubkey, winner: Pubkey, slot: u64) -> (r: Result<Payment, BettingError>)
    requires
        win_allowed(*old(bet), oracle, winner, slot) ==> old(bet).wager * 2 <= u64::MAX,
    ensures
        applied_with(r, *old(bet), *final(bet), win_result(*old(bet), oracle, winner, slot)),
{
    if !oracle.key_eq(&bet.oracle) {
        return Err(BettingError::InvalidOracle);
    }
    if bet.is_resolved {
        return Err(BettingError::BetAlreadyResolved);
    }
    if !(slot <= bet.deadline) {
        return Err(BettingError::DeadlinePassed);
    }
    if !is_one_of(&winner, &bet.participant1, &bet.participant2) {
        return Err(BettingError::InvalidWinner);
    }
    let total_pot = bet.wager * 2;
    bet.is_resolved = true;
    Ok(Payment { to: winner, amount: total_pot })
}

/// Outcome of a timeout at slot `slot`.
pub open spec fn timeout_result(bet: BetInfo, slot: u64) -> Result<(BetInfo, Refund), BettingError> {
    if bet.is_resolved {
        Err(BettingError::BetAlreadyResolved)
    } else if !(slot > bet.deadline) {
        Err(BettingError::DeadlineNotReached)
    } else {
        Ok(
            (
                BetInfo { is_resolved: true, ..bet },
                Refund { to_participant1: bet.wager, to_participant2: bet.wager },
            ),
        )
    }
}

/// After the deadline, both wagers go back to the participants. The instruction
/// aborts where twice the wager does not fit in 64 bits; those inputs are
/// left out.
pub fn timeout(bet: &mut BetInfo, slot: u64) -> (r: Result<Refund, BettingError>)
    requires
        !old(bet).is_resolved && slot > old(bet).deadline ==> old(bet).wager * 2 <= u64::MAX,
    ensures
        applied_with(r, *old(bet), *final(bet), timeout_result(*old(bet), slot)),
{
    if bet.is_resolved {
        return Err(BettingError::BetAlreadyResolved);
    }
    if !(slot > bet.deadline) {
        return Err(BettingError::DeadlineNotReached);
    }
    let wager = bet.wager;
    bet.is_resolved = true;
    Ok(Refund { to_participant1: wager, to_participant2: wager })
}

/// Law: the deadline separates the oracle's decision from the refund, and a
/// resolved bet stays resolved.
pub proof fn lemma_settlement(bet: BetInfo, oracle: Pubkey, winner: Pubkey, slot: u64)
    ensures
        !(win_result(bet, oracle, winner, slot) is Ok && timeout_result(bet, slot) is Ok),
        bet.is_resolved ==> win_result(bet, oracle, winner, slot) is Err && timeout_result(bet, slot) is Err,
        win_result(bet, oracle, winner, slot) matches Ok((b, p)) ==> b.is_resolved && one_of(
            p.to,
            bet.participant1,
            bet.participant2,
        ),
        timeout_result(bet, slot) matches Ok((b, _)) ==> b.is_resolved,
{
}

/// Law: each payment goes where it should. A successful decision pays the
/// declared winner, `winner`, and nobody else, the full pot; a successful
/// refund pays each participant its own share.
pub proof fn lemma_payments_go_where_they_should(
    bet: BetInfo,
    oracle: Pubkey,
    winner: Pubkey,
    slot: u64,
)
    ensures
        win_result(bet, oracle, winner, slot) matches Ok((_, p)) ==> p.to == winner && (bet.wager * 2 <= u64::MAX ==> p.amount == bet.wager * 2),
        timeout_result(bet, slot) matches Ok((_, r)) ==> r.to_participant1 == bet.wager && r.to_participant2 == bet.wager,
{
}

} // verus!
