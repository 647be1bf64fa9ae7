//! Bet in which two participants, both signing, each stake `wager` until a
//! deadline slot; until then the designated oracle may pay both wagers to
//! one of them; after it both wagers are refunded.
use vstd::prelude::*;
use crate::common::{Pubkey, same_key, applied_with};
use crate::bet::model::{Wagers, Payment, Refund, one_of, is_one_of};

verus! {

/// The bet's account.
#[derive(Clone, Copy, Debug, PartialEq, Eq)]
pub struct BetInfo {
    pub oracle: Pubkey,
    pub participant1: Pubkey,
    pub participant2: Pubkey,
    pub wager: u64,
    pub deadline: u64,
    pub resolved: bool,
}

#[derive(Clone, Copy, Debug, PartialEq, Eq, Structural)]
pub enum ErrorCode {
    InvalidOracle,
    DeadlineNotReached,
    DeadlinePassed,
    AlreadyResolved,
    MissingRequiredSignatures,
    InvalidWinner,
    /// The framework's refusal of a participant account other than the
    /// stored participant in its place, checked with the accounts before the
    /// instruction runs.
    ConstraintHasOne,
}

/// Outcome of two participants (signing or not) joining at slot `slot`.
pub open spec fn join_result(
    participant1: Pubkey,
    participant2: Pubkey,
    oracle: Pubkey,
    delay: u64,
    wager: u64,
    slot: u64,
    participant1_signed: bool,
    participant2_signed: bool,
) -> Result<(BetInfo, Wagers), ErrorCode> {
    if !(participant1_signed && participant2_signed) {
        Err(ErrorCode::MissingRequiredSignatures)
    } else {
        Ok(
            (
                BetInfo {
                    oracle,
                    participant1,
                    participant2,
                    wager,
                    deadline: (slot + delay) as u64,
                    resolved: false,
                },
                Wagers { from_participant1: wager, from_participant2: wager },
            ),
        )
    }
}

/// Opens a bet between `participant1` and `participant2`, both signing,
/// settled by `oracle`, at slot `slot`: the deadline `slot + delay`, and
/// `wager` paid in by each. The instruction aborts where the deadline does not
/// fit in 64 bits; those inputs are left out.
pub fn join(
    participant1: Pubkey,
    participant2: Pubkey,
    oracle: Pubkey,
    delay: u64,
    wager: u64,
    slot: u64,
    participant1_signed: bool,
    participant2_signed: bool,
) -> (r: Result<(BetInfo, Wagers), ErrorCode>)
    requires
        participant1_signed && participant2_signed ==> slot + delay <= u64::MAX,
    ensures
        r == join_result(
            participant1,
            participant2,
            oracle,
            delay,
            wager,
            slot,
            participant1_signed,
            participant2_signed,
        ),
{
    if !(participant1_signed && participant2_signed) {
        return Err(ErrorCode::MissingRequiredSignatures);
    }
    let bet = BetInfo { oracle, participant1, participant2, wager, deadline: slot + delay, resolved: false };
    Ok((bet, Wagers { from_participant1: wager, from_participant2: wager }))
}

/// The oracle's decision passes every check of the instruction.
pub open spec fn win_allowed(bet: BetInfo, oracle: Pubkey, winner: Pubkey, slot: u64) -> bool {
    &&& same_key(oracle, bet.oracle)
    &&& !bet.resolved
    &&& slot <= bet.deadline
    &&& one_of(winner, bet.participant1, bet.participant2)
}

/// Outcome of the signer `oracle` declaring `winner` at slot `slot`.
pub open spec fn win_result(bet: BetInfo, oracle: Pubkey, winner: Pubkey, slot: u64) -> Result<
    (BetInfo, Payment),
    ErrorCode,
> {
    if !same_key(oracle, bet.oracle) {
        Err(ErrorCode::InvalidOracle)
    } else if bet.resolved {
        Err(ErrorCode::AlreadyResolved)
    } else if !(slot <= bet.deadline) {
        Err(ErrorCode::DeadlinePassed)
    } else if !one_of(winner, bet.participant1, bet.participant2) {
        Err(ErrorCode::InvalidWinner)
    } else {
        Ok((BetInfo { resolved: true, ..bet }, Payment { to: winner, amount: (bet.wager * 2) as u64 }))
    }
}

/// The oracle (the signer `oracle`) pays both wagers to `winner`, one of the
/// participants, by the deadline. The instruction aborts where twice the wager
/// does not fit in 64 bits; those inputs are left out.
pub fn win(bet: &mut BetInfo, oracle: Pubkey, winner: Pubkey, slot: u64) -> (r: Result<Payment, ErrorCode>)
    requires
        win_allowed(*old(bet), oracle, winner, slot) ==> old(bet).wager * 2 <= u64::MAX,
    ensures
        applied_with(r, *old(bet), *final(bet), win_result(*old(bet), oracle, winner, slot)),
{
    if !oracle.key_eq(&bet.oracle) {
        return Err(ErrorCode::InvalidOracle);
    }
    if bet.resolved {
        return Err(ErrorCode::AlreadyResolved);
    }
    if !(slot <= bet.deadline) {
        return Err(ErrorCode::DeadlinePassed);
    }
    if !is_one_of(&winner, &bet.participant1, &bet.participant2) {
        return Err(ErrorCode::InvalidWinner);
    }
    let amount = bet.wager * 2;
    bet.resolved = true;
    Ok(Payment { to: winner, amount })
}

/// Outcome of a timeout at slot `slot`.
pub open spec fn timeout_result(bet: BetInfo, slot: u64) -> Result<(BetInfo, Refund), ErrorCode> {
    if bet.resolved {
        Err(ErrorCode::AlreadyResolved)
    } else if !(slot > bet.deadline) {
        Err(ErrorCode::DeadlineNotReached)
    } else {
        Ok(
            (
                BetInfo { resolved: true, ..bet },
                Refund { to_participant1: bet.wager, to_participant2: bet.wager },
            ),
        )
    }
}

/// After the deadline, both wagers go back to the participants. The instruction
/// aborts where twice the wager does not fit in 64 bits; those inputs are
/// left out.
pub fn timeout(bet: &mut BetInfo, slot: u64) -> (r: Result<Refund, ErrorCode>)
    requires
        !old(bet).resolved && slot > old(bet).deadline ==> old(bet).wager * 2 <= u64::MAX,
    ensures
        applied_with(r, *old(bet), *final(bet), timeout_result(*old(bet), slot)),
{
    if bet.resolved {
        return Err(ErrorCode::AlreadyResolved);
    }
    if !(slot > bet.deadline) {
        return Err(ErrorCode::DeadlineNotReached);
    }
    let amount = bet.wager;
    bet.resolved = true;
    Ok(Refund { to_participant1: amount, to_participant2: amount })
}

/// Law: the deadline separates the oracle's decision from the refund, and a
/// resolved bet stays resolved.
pub proof fn lemma_settlement(bet: BetInfo, oracle: Pubkey, winner: Pubkey, slot: u64)
    ensures
        !(win_result(bet, oracle, winner, slot) is Ok && timeout_result(bet, slot) is Ok),
        bet.resolved ==> win_result(bet, oracle, winner, slot) is Err && timeout_result(bet, slot) is Err,
        win_result(bet, oracle, winner, slot) matches Ok((b, _)) ==> b.resolved,
        timeout_result(bet, slot) matches Ok((b, _)) ==> b.resolved,
{
}

/// Checks the accounts given as the two participants to the oracle's
/// decision, as the decision checks them with its accounts before the
/// instruction runs: they must be the stored participants, each in its place.
pub fn check_participants(bet: &BetInfo, participant1: &Pubkey, participant2: &Pubkey) -> (r: Result<(), ErrorCode>)
    ensures
        same_key(*participant1, bet.participant1) && same_key(*participant2, bet.participant2) ==> r is Ok,
        !(same_key(*participant1, bet.participant1) && same_key(*participant2, bet.participant2)) ==> r
            == Err::<(), ErrorCode>(ErrorCode::ConstraintHasOne),
{
    if !(participant1.key_eq(&bet.participant1) && participant2.key_eq(&bet.participant2)) {
        return Err(ErrorCode::ConstraintHasOne);
    }
    Ok(())
}

/// Law: each payment goes where it should. A successful decision pays the
/// declared winner, `winner`, and nobody else, the full pot; a successful
/// refund pays each participant its own share.
pub proof fn lemma_payments_go_where_they_should(
    bet: BetInfo,
    oracle: Pubkey,
    winner: Pubkey,
    slot: u64,
)
    ensures
        win_result(bet, oracle, winner, slot) matches Ok((_, p)) ==> p.to == winner && (bet.wager * 2 <= u64::MAX ==> p.amount == bet.wager * 2),
        timeout_result(bet, slot) matches Ok((_, r)) ==> r.to_participant1 == bet.wager && r.to_participant2 == bet.wager,
{
}

} // verus!
