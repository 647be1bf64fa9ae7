//! Bet in which two participants each stake `wager` until a deadline slot.
//! The designated oracle may at any time pay the bet's whole balance to one
//! of them; after the deadline an even balance is split in halves between
//! the two (an odd one cannot be: the runtime refuses an instruction that
//! would lose the odd lamport). Neither marks the bet settled.
use vstd::prelude::*;
use crate::common::{Pubkey, same_key};
use crate::bet::model::{Wagers, Payment, Refund, one_of, is_one_of};

verus! {

/// The bet's account.
#[derive(Clone, Copy, Debug, PartialEq, Eq)]
pub struct BetInfo {
    pub participant1: Pubkey,
    pub participant2: Pubkey,
    pub oracle: Pubkey,
    pub wager: u64,
    pub deadline: u64,
}

impl BetInfo {
    /// Bytes of the bet's fields: three keys and two numbers.
    pub const LEN: usize = 32 + 32 + 32 + 8 + 8;
}

#[derive(Clone, Copy, Debug, PartialEq, Eq, Structural)]
pub enum ErrorCode {
    InvalidOracle,
    InvalidWinner,
    DeadlineNotReached,
    /// The runtime's refusal of an instruction after which the accounts hold
    /// fewer lamports than before: a timeout that empties an odd balance but
    /// pays out only its two rounded-down halves.
    UnbalancedInstruction,
}

/// Opens a bet between `participant1` and `participant2`, settled by
/// `oracle`, at slot `slot`: the deadline `slot + delay`, and `wager` paid in
/// by each participant. Nothing is refused. The instruction aborts where the
/// deadline does not fit in 64 bits; those inputs are left out.
pub fn join(
    participant1: Pubkey,
    participant2: Pubkey,
    oracle: Pubkey,
    delay: u64,
    wager: u64,
    slot: u64,
) -> (out: (BetInfo, Wagers))
    requires
        slot + delay <= u64::MAX,
    ensures
        out == (
            BetInfo { participant1, participant2, oracle, wager, deadline: (slot + delay) as u64 },
            Wagers { from_participant1: wager, from_participant2: wager },
        ),
{
    let deadline = slot + delay;
    (
        BetInfo { participant1, participant2, oracle, wager, deadline },
        Wagers { from_participant1: wager, from_participant2: wager },
    )
}

/// Outcome of the signer `oracle` declaring `winner`, with the bet's
/// balance.
pub open spec fn win_result(bet: BetInfo, oracle: Pubkey, winner: Pubkey, bet_lamports: u64) -> Result<
    Payment,
    ErrorCode,
> {
    if !same_key(oracle, bet.oracle) {
        Err(ErrorCode::InvalidOracle)
    } else if !one_of(winner, bet.participant1, bet.participant2) {
        Err(ErrorCode::InvalidWinner)
    } else {
        Ok(Payment { to: winner, amount: bet_lamports })
    }
}

/// The oracle (the signer `oracle`) pays the bet's whole balance to
/// `winner`, one of the participants. (No deadline is checked and the bet is
/// not marked settled.)
pub fn win(bet: &BetInfo, oracle: Pubkey, winner: Pubkey, bet_lamports: u64) -> (r: Result<Payment, ErrorCode>)
    ensures
        r == win_result(*bet, oracle, winner, bet_lamports),
{
    if !oracle.key_eq(&bet.oracle) {
        return Err(ErrorCode::InvalidOracle);
    }
    if !is_one_of(&winner, &bet.participant1, &bet.participant2) {
        return Err(ErrorCode::InvalidWinner);
    }
    Ok(Payment { to: winner, amount: bet_lamports })
}

/// Outcome of a timeout at slot `slot`, with the bet's balance.
pub open spec fn timeout_result(bet: BetInfo, slot: u64, bet_lamports: u64) -> Result<Refund, ErrorCode> {
    if !(slot > bet.deadline) {
        Err(ErrorCode::DeadlineNotReached)
    } else if bet_lamports % 2 != 0 {
        Err(ErrorCode::UnbalancedInstruction)
    } else {
        Ok(Refund { to_participant1: bet_lamports / 2, to_participant2: bet_lamports / 2 })
    }
}

/// After the deadline, each participant receives half of the bet's balance,
/// which is emptied. Refused when the balance is odd: the instruction would
/// empty it but hand out one lamport less, and the runtime rejects that.
pub fn timeout(bet: &BetInfo, slot: u64, bet_lamports: u64) -> (r: Result<Refund, ErrorCode>)
    ensures
        r == timeout_result(*bet, slot, bet_lamports),
{
    if !(slot > bet.deadline) {
        return Err(ErrorCode::DeadlineNotReached);
    }
    if bet_lamports % 2 != 0 {
        return Err(ErrorCode::UnbalancedInstruction);
    }
    let refund_amount = bet_lamports / 2;
    Ok(Refund { to_participant1: refund_amount, to_participant2: refund_amount })
}

/// Law: the refund hands out exactly the bet's whole balance, and the
/// oracle's payment goes to a participant.
pub proof fn lemma_payouts(bet: BetInfo, oracle: Pubkey, winner: Pubkey, slot: u64, bet_lamports: u64)
    ensures
        timeout_result(bet, slot, bet_lamports) matches Ok(r) ==> r.to_participant1 + r.to_participant2
            == bet_lamports,
        win_result(bet, oracle, winner, bet_lamports) matches Ok(p) ==> p.amount == bet_lamports && one_of(
            p.to,
            bet.participant1,
            bet.participant2,
        ),
{
}

/// Law: each payment goes where it should. A successful decision pays the
/// declared winner, `winner`, and nobody else, the full pot; a successful
/// refund pays each participant its own share.
pub proof fn lemma_payments_go_where_they_should(
    bet: BetInfo,
    oracle: Pubkey,
    winner: Pubkey,
    bet_lamports: u64,
    slot: u64,
)
    ensures
        win_result(bet, oracle, winner, bet_lamports) matches Ok(p) ==> p.to == winner && p.amount == bet_lamports,
        timeout_result(bet, slot, bet_lamports) matches Ok(r) ==> r.to_participant1 == bet_lamports / 2 && r.to_participant2 == bet_lamports / 2,
{
}

} // verus!
