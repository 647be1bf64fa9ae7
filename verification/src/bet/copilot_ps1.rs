//! Bet in which two participants each stake `wager` until a deadline slot;
//! a wager of zero marks the bet settled. Until the deadline the stored
//! oracle may pay both wagers to the winner (one of the participants); after
//! it, on a participant's signature, both wagers are refunded.
use vstd::prelude::*;
use crate::common::{Pubkey, same_key, applied_with};
use crate::bet::model::{Wagers, Payment, Refund, one_of, is_one_of};

verus! {

/// The bet's account.
#[derive(Clone, Copy, Debug, PartialEq, Eq)]
pub struct BetInfo {
    pub participant1: Pubkey,
    pub participant2: Pubkey,
    pub oracle: Pubkey,
    pub deadline: u64,
    pub wager: u64,
    pub bump: u8,
}

#[derive(Clone, Copy, Debug, PartialEq, Eq, Structural)]
pub enum ErrorCode {
    AlreadySettled,
    TooLateForWin,
    TooEarlyForTimeout,
    UnauthorizedOracle,
    InvalidWinner,
    Unauthorized,
    /// The framework's refusal of a participant account other than the
    /// stored participant in its place, checked with the accounts before the
    /// instruction runs.
    ConstraintHasOne,
}

/// Opens a bet between `participant1` and `participant2`, settled by
/// `oracle`, at slot `slot`, at the address with bump `bump`: the deadline
/// `slot + delay`, and `wager` paid in by each participant. Nothing is
/// refused. The instruction aborts where the deadline does not fit in 64 bits;
/// those inputs are left out.
pub fn join(
    participant1: Pubkey,
    participant2: Pubkey,
    oracle: Pubkey,
    delay: u64,
    wager: u64,
    slot: u64,
    bump: u8,
) -> (out: (BetInfo, Wagers))
    requires
        slot + delay <= u64::MAX,
    ensures
        out == (
            BetInfo { participant1, participant2, oracle, deadline: (slot + delay) as u64, wager, bump },
            Wagers { from_participant1: wager, from_participant2: wager },
        ),
{
    let deadline = slot + delay;
    (
        BetInfo { participant1, participant2, oracle, deadline, wager, bump },
        Wagers { from_participant1: wager, from_participant2: wager },
    )
}

/// The decision passes every check of the instruction.
pub open spec fn win_allowed(bet: BetInfo, oracle: Pubkey, winner: Pubkey, slot: u64) -> bool {
    same_key(oracle, bet.oracle) && bet.wager > 0 && slot <= bet.deadline && one_of(
        winner,
        bet.participant1,
        bet.participant2,
    )
}

/// Outcome of the signer `oracle` declaring `winner` at slot `slot`.
pub open spec fn win_result(bet: BetInfo, oracle: Pubkey, winner: Pubkey, slot: u64) -> Result<
    (BetInfo, Payment),
    ErrorCode,
> {
    if !same_key(oracle, bet.oracle) {
        Err(ErrorCode::UnauthorizedOracle)
    } else if !(bet.wager > 0) {
        Err(ErrorCode::AlreadySettled)
    } else if !(slot <= bet.deadline) {
        Err(ErrorCode::TooLateForWin)
    } else if !one_of(winner, bet.participant1, bet.participant2) {
        Err(ErrorCode::InvalidWinner)
    } else {
        Ok((BetInfo { wager: 0, ..bet }, Payment { to: winner, amount: (bet.wager * 2) as u64 }))
    }
}

/// The stored oracle (the signer `oracle`, checked before anything else)
/// pays both wagers to `winner`, one of the participants, by the deadline,
/// and settles the bet. The instruction aborts where twice the wager does not
/// fit in 64 bits; those inputs are left out.
pub fn win(bet: &mut BetInfo, oracle: Pubkey, winner: Pubkey, slot: u64) -> (r: Result<Payment, ErrorCode>)
    requires
        win_allowed(*old(bet), oracle, winner, slot) ==> old(bet).wager * 2 <= u64::MAX,
    ensures
        applied_with(r, *old(bet), *final(bet), win_result(*old(bet), oracle, winner, slot)),
{
    if !oracle.key_eq(&bet.oracle) {
        return Err(ErrorCode::UnauthorizedOracle);
    }
    if !(bet.wager > 0) {
        return Err(ErrorCode::AlreadySettled);
    }
    if !(slot <= bet.deadline) {
        return Err(ErrorCode::TooLateForWin);
    }
    if !is_one_of(&winner, &bet.participant1, &bet.participant2) {
        return Err(ErrorCode::InvalidWinner);
    }
    let pot = bet.wager * 2;
    bet.wager = 0;
    Ok(Payment { to: winner, amount: pot })
}

/// Outcome of a timeout at slot `slot`, with the signatures of the two
/// participants.
pub open spec fn timeout_result(bet: BetInfo, participant1: Pubkey, participant2: Pubkey, slot: u64, participant1_signed: bool, participant2_signed: bool) -> Result<
    (BetInfo, Refund),
    ErrorCode,
> {
    if !(same_key(participant1, bet.participant1) && same_key(participant2, bet.participant2)) {
        Err(ErrorCode::ConstraintHasOne)
    } else if !(bet.wager > 0) {
        Err(ErrorCode::AlreadySettled)
    } else if !(slot > bet.deadline) {
        Err(ErrorCode::TooEarlyForTimeout)
    } else if !(participant1_signed || participant2_signed) {
        Err(ErrorCode::Unauthorized)
    } else {
        Ok((BetInfo { wager: 0, ..bet }, Refund { to_participant1: bet.wager, to_participant2: bet.wager }))
    }
}

/// After the deadline, on the signature of either participant, both wagers
/// go back to the participants and the bet is settled.
/// The two accounts given, `participant1` and `participant2`, must be the
/// bet's participants, each in its place.
pub fn timeout(bet: &mut BetInfo, participant1: Pubkey, participant2: Pubkey, slot: u64, participant1_signed: bool, participant2_signed: bool) -> (r: Result<
    Refund,
    ErrorCode,
>)
    ensures
        applied_with(
            r,
            *old(bet),
            *final(bet),
            timeout_result(*old(bet), participant1, participant2, slot, participant1_signed, participant2_signed),
        ),
{
    if !(participant1.key_eq(&bet.participant1) && participant2.key_eq(&bet.participant2)) {
        return Err(ErrorCode::ConstraintHasOne);
    }
    if !(bet.wager > 0) {
        return Err(ErrorCode::AlreadySettled);
    }
    if !(slot > bet.deadline) {
        return Err(ErrorCode::TooEarlyForTimeout);
    }
    if !(participant1_signed || participant2_signed) {
        return Err(ErrorCode::Unauthorized);
    }
    let w = bet.wager;
    bet.wager = 0;
    Ok(Refund { to_participant1: w, to_participant2: w })
}

/// Law: the deadline separates the decision from the refund, a settled bet
/// (wager zero) stays settled (every success settles it), and the pot is paid
/// only on the stored oracle's word.
pub proof fn lemma_settlement(
    bet: BetInfo,
    oracle: Pubkey,
    winner: Pubkey,
    slot: u64,
    participant1_signed: bool,
    participant2_signed: bool,
    refunded1: Pubkey,
    refunded2: Pubkey,
)
    ensures
        !(win_result(bet, oracle, winner, slot) is Ok && timeout_result(
            bet, refunded1, refunded2,
            slot,
            participant1_signed,
            participant2_signed,
        ) is Ok),
        bet.wager == 0 ==> win_result(bet, oracle, winner, slot) is Err && timeout_result(
            bet, refunded1, refunded2,
            slot,
            participant1_signed,
            participant2_signed,
        ) is Err,
        win_result(bet, oracle, winner, slot) matches Ok((b, _)) ==> b.wager == 0 && same_key(oracle, bet.oracle),
        timeout_result(bet, refunded1, refunded2, slot, participant1_signed, participant2_signed) matches Ok((b, _)) ==> b.wager == 0,
{
}

/// Checks the accounts given as the two participants to the oracle's
/// decision, as the decision checks them with its accounts before the
/// instruction runs: they must be the stored participants, each in its place.
pub fn check_participants(bet: &BetInfo, participant1: &Pubkey, participant2: &Pubkey) -> (r: Result<(), ErrorCode>)
    ensures
        same_key(*participant1, bet.participant1) && same_key(*participant2, bet.participant2) ==> r is Ok,
        !(same_key(*participant1, bet.participant1) && same_key(*participant2, bet.participant2)) ==> r
            == Err::<(), ErrorCode>(ErrorCode::ConstraintHasOne),
{
    if !(participant1.key_eq(&bet.participant1) && participant2.key_eq(&bet.participant2)) {
        return Err(ErrorCode::ConstraintHasOne);
    }
    Ok(())
}

/// Law: each payment goes where it should. A successful decision pays the
/// declared winner, `winner`, and nobody else, the full pot; a successful
/// refund pays each participant its own share.
pub proof fn lemma_payments_go_where_they_should(
    bet: BetInfo,
    oracle: Pubkey,
    winner: Pubkey,
    slot: u64,
    participant1: Pubkey,
    participant2: Pubkey,
    participant1_signed: bool,
    participant2_signed: bool,
)
    ensures
        win_result(bet, oracle, winner, slot) matches Ok((_, p)) ==> p.to == winner && (bet.wager * 2 <= u64::MAX ==> p.amount == bet.wager * 2),
        timeout_result(bet, participant1, participant2, slot, participant1_signed, participant2_signed) matches Ok((_, r)) ==> r.to_participant1 == bet.wager && r.to_participant2 == bet.wager,
{
}

} // verus!
