//! Bet in which two participants each stake `wager` until a deadline slot.
//! The designated oracle may at any time pay the bet's whole balance to one
//! of them; after the deadline, on a participant's signature, both wagers are
//! refunded. Neither marks the bet settled.
use vstd::prelude::*;
use crate::common::{Pubkey, same_key};
use crate::bet::model::{Wagers, Payment, Refund, one_of, is_one_of};

verus! {

/// The bet's account.
#[derive(Clone, Copy, Debug, PartialEq, Eq)]
pub struct BetInfo {
    pub participant1: Pubkey,
    pub participant2: Pubkey,
    pub oracle: Pubkey,
    pub wager: u64,
    pub deadline: u64,
    pub bump: u8,
}

#[derive(Clone, Copy, Debug, PartialEq, Eq, Structural)]
pub enum BetError {
    DeadlineNotReached,
    UnauthorizedOracle,
    Unauthorized,
    WinnerNotParticipant,
}

/// Opens a bet between `participant1` and `participant2`, settled by
/// `oracle`, at slot `slot`, at the address with bump `bump`: the deadline
/// `slot + delay`, and `wager` paid in by each participant. Nothing is
/// refused. The instruction aborts where the deadline does not fit in 64 bits;
/// those inputs are left out.
pub fn join(
    participant1: Pubkey,
    participant2: Pubkey,
    oracle: Pubkey,
    delay: u64,
    wager: u64,
    slot: u64,
    bump: u8,
) -> (out: (BetInfo, Wagers))
    requires
        slot + delay <= u64::MAX,
    ensures
        out == (
            BetInfo { participant1, participant2, oracle, wager, deadline: (slot + delay) as u64, bump },
            Wagers { from_participant1: wager, from_participant2: wager },
        ),
{
    (
        BetInfo { participant1, participant2, oracle, wager, deadline: slot + delay, bump },
        Wagers { from_participant1: wager, from_participant2: wager },
    )
}

/// Outcome of the signer `oracle` declaring `winner`, with the bet's
/// balance.
pub open spec fn win_result(bet: BetInfo, oracle: Pubkey, winner: Pubkey, bet_lamports: u64) -> Result<
    Payment,
    BetError,
> {
    if !same_key(oracle, bet.oracle) {
        Err(BetError::UnauthorizedOracle)
    } else if !one_of(winner, bet.participant1, bet.participant2) {
        Err(BetError::WinnerNotParticipant)
    } else {
        Ok(Payment { to: winner, amount: bet_lamports })
    }
}

/// The oracle (the signer `oracle`) pays the bet's whole balance to
/// `winner`, one of the participants. (No deadline is checked and the bet is
/// not marked settled.)
pub fn win(bet: &BetInfo, oracle: Pubkey, winner: Pubkey, bet_lamports: u64) -> (r: Result<Payment, BetError>)
    ensures
        r == win_result(*bet, oracle, winner, bet_lamports),
{
    if !oracle.key_eq(&bet.oracle) {
        return Err(BetError::UnauthorizedOracle);
    }
    if !is_one_of(&winner, &bet.participant1, &bet.participant2) {
        return Err(BetError::WinnerNotParticipant);
    }
    Ok(Payment { to: winner, amount: bet_lamports })
}

/// Outcome of a timeout at slot `slot`, with the signatures of the two
/// participants.
pub open spec fn timeout_result(bet: BetInfo, slot: u64, participant1_signed: bool, participant2_signed: bool) -> Result<
    Refund,
    BetError,
> {
    if !(slot > bet.deadline) {
        Err(BetError::DeadlineNotReached)
    } else if !(participant1_signed || participant2_signed) {
        Err(BetError::Unauthorized)
    } else {
        Ok(Refund { to_participant1: bet.wager, to_participant2: bet.wager })
    }
}

/// After the deadline, on the signature of either participant, both wagers
/// go back to the participants. (The bet is not marked settled.) The instruction
/// aborts where twice the wager does not fit in 64 bits; those inputs are
/// left out.
pub fn timeout(bet: &BetInfo, slot: u64, participant1_signed: bool, participant2_signed: bool) -> (r: Result<
    Refund,
    BetError,
>)
    requires
        slot > bet.deadline && (participant1_signed || participant2_signed) ==> bet.wager * 2 <= u64::MAX,
    ensures
        r == timeout_result(*bet, slot, participant1_signed, participant2_signed),
{
    if !(slot > bet.deadline) {
        return Err(BetError::DeadlineNotReached);
    }
    if !(participant1_signed || participant2_signed) {
        return Err(BetError::Unauthorized);
    }
    let refund_amount = bet.wager;
    Ok(Refund { to_participant1: refund_amount, to_participant2: refund_amount })
}

/// Law: the oracle's payment goes to a participant and is the bet's whole
/// balance; a refund returns each wager.
pub proof fn lemma_payouts(
    bet: BetInfo,
    oracle: Pubkey,
    winner: Pubkey,
    bet_lamports: u64,
    slot: u64,
    participant1_signed: bool,
    participant2_signed: bool,
)
    ensures
        win_result(bet, oracle, winner, bet_lamports) matches Ok(p) ==> p.amount == bet_lamports && one_of(
            p.to,
            bet.participant1,
            bet.participant2,
        ),
        timeout_result(bet, slot, participant1_signed, participant2_signed) matches Ok(r) ==> r.to_participant1
            == bet.wager && r.to_participant2 == bet.wager,
{
}

/// Law: each payment goes where it should. A successful decision pays the
/// declared winner, `winner`, and nobody else, the full pot; a successful
/// refund pays each participant its own share.
pub proof fn lemma_payments_go_where_they_should(
    bet: BetInfo,
    oracle: Pubkey,
    winner: Pubkey,
    bet_lamports: u64,
    slot: u64,
    participant1_signed: bool,
    participant2_signed: bool,
)
    ensures
        win_result(bet, oracle, winner, bet_lamports) matches Ok(p) ==> p.to == winner && p.amount == bet_lamports,
        timeout_result(bet, slot, participant1_signed, participant2_signed) matches Ok(r) ==> r.to_participant1 == bet.wager && r.to_participant2 == bet.wager,
{
}

} // verus!
