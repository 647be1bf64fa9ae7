//! Bet between two distinct participants who each stake `wager` until a
//! deadline slot; until then the designated oracle may pay both wagers to
//! one of them (with every movement of lamports checked); after it, on a
//! participant's signature, both wagers are refunded.
use vstd::prelude::*;
use crate::common::{Pubkey, same_key, applied_with};
use crate::bet::model::{Wagers, Payment, Refund, one_of, is_one_of};

verus! {

/// The bet's account.
#[derive(Clone, Copy, Debug, PartialEq, Eq)]
pub struct BetInfo {
    pub bump: u8,
    pub participant1: Pubkey,
    pub participant2: Pubkey,
    pub oracle: Pubkey,
    pub wager: u64,
    pub deadline: u64,
    pub resolved: bool,
}

impl BetInfo {
    /// Bytes of the bet's fields: the bump, three keys, two numbers and the
    /// flag.
    pub const LEN: usize = 114;
}

#[derive(Clone, Copy, Debug, PartialEq, Eq, Structural)]
pub enum ErrorCode {
    SameParticipant,
    NumericalOverflow,
    AlreadyResolved,
    InvalidOracle,
    DeadlinePassed,
    DeadlineNotReached,
    MissingSigner,
    InvalidWinner,
}

/// Outcome of two participants joining at slot `slot`, at the address with
/// bump `bump`.
pub open spec fn join_result(
    participant1: Pubkey,
    participant2: Pubkey,
    oracle: Pubkey,
    delay: u64,
    wager: u64,
    slot: u64,
    bump: u8,
) -> Result<(BetInfo, Wagers), ErrorCode> {
    if same_key(participant1, participant2) {
        Err(ErrorCode::SameParticipant)
    } else if slot + delay > u64::MAX {
        Err(ErrorCode::NumericalOverflow)
    } else {
        Ok(
            (
                BetInfo {
                    bump,
                    participant1,
                    participant2,
                    oracle,
                    wager,
                    deadline: (slot + delay) as u64,
                    resolved: false,
                },
                Wagers { from_participant1: wager, from_participant2: wager },
            ),
        )
    }
}

/// Opens a bet between two distinct participants, settled by `oracle`, at
/// slot `slot`: the deadline `slot + delay`, and `wager` paid in by each.
pub fn join(
    participant1: Pubkey,
    participant2: Pubkey,
    oracle: Pubkey,
    delay: u64,
    wager: u64,
    slot: u64,
    bump: u8,
) -> (r: Result<(BetInfo, Wagers), ErrorCode>)
    ensures
        r == join_result(participant1, participant2, oracle, delay, wager, slot, bump),
{
    if participant1.key_eq(&participant2) {
        return Err(ErrorCode::SameParticipant);
    }
    let deadline = match slot.checked_add(delay) {
        Some(v) => v,
        None => return Err(ErrorCode::NumericalOverflow),
    };
    let bet = BetInfo { bump, participant1, participant2, oracle, wager, deadline, resolved: false };
    Ok((bet, Wagers { from_participant1: wager, from_participant2: wager }))
}

/// Outcome of the signer `oracle` declaring `winner` at slot `slot`, with
/// the balances of the bet and of the winner.
pub open spec fn win_result(
    bet: BetInfo,
    oracle: Pubkey,
    winner: Pubkey,
    slot: u64,
    bet_lamports: u64,
    winner_lamports: u64,
) -> Result<(BetInfo, Payment), ErrorCode> {
    if !same_key(oracle, bet.oracle) {
        Err(ErrorCode::InvalidOracle)
    } else if bet.resolved {
        Err(ErrorCode::AlreadyResolved)
    } else if !(slot <= bet.deadline) {
        Err(ErrorCode::DeadlinePassed)
    } else if !one_of(winner, bet.participant1, bet.participant2) {
        Err(ErrorCode::InvalidWinner)
    } else if bet.wager * 2 > u64::MAX || bet_lamports < bet.wager * 2 || winner_lamports + bet.wager * 2
        > u64::MAX {
        Err(ErrorCode::NumericalOverflow)
    } else {
        Ok((BetInfo { resolved: true, ..bet }, Payment { to: winner, amount: (bet.wager * 2) as u64 }))
    }
}

/// The oracle (the signer `oracle`) pays both wagers to `winner`, one of the
/// participants, by the deadline.
pub fn win(
    bet: &mut BetInfo,
    oracle: Pubkey,
    winner: Pubkey,
    slot: u64,
    bet_lamports: u64,
    winner_lamports: u64,
) -> (r: Result<Payment, ErrorCode>)
    ensures
        applied_with(r, *old(bet), *final(bet), win_result(*old(bet), oracle, winner, slot, bet_lamports, winner_lamports)),
{
    if !oracle.key_eq(&bet.oracle) {
        return Err(ErrorCode::InvalidOracle);
    }
    if bet.resolved {
        return Err(ErrorCode::AlreadyResolved);
    }
    if !(slot <= bet.deadline) {
        return Err(ErrorCode::DeadlinePassed);
    }
    if !is_one_of(&winner, &bet.participant1, &bet.participant2) {
        return Err(ErrorCode::InvalidWinner);
    }
    let pot = match bet.wager.checked_mul(2) {
        Some(v) => v,
        None => return Err(ErrorCode::NumericalOverflow),
    };
    if bet_lamports.checked_sub(pot).is_none() {
        return Err(ErrorCode::NumericalOverflow);
    }
    if winner_lamports.checked_add(pot).is_none() {
        return Err(ErrorCode::NumericalOverflow);
    }
    bet.resolved = true;
    Ok(Payment { to: winner, amount: pot })
}

/// Outcome of a timeout at slot `slot`, with the signatures of the two
/// participants.
pub open spec fn timeout_result(bet: BetInfo, slot: u64, participant1_signed: bool, participant2_signed: bool) -> Result<
    (BetInfo, Refund),
    ErrorCode,
> {
    if !participant1_signed && !participant2_signed {
        Err(ErrorCode::MissingSigner)
    } else if bet.resolved {
        Err(ErrorCode::AlreadyResolved)
    } else if !(slot > bet.deadline) {
        Err(ErrorCode::DeadlineNotReached)
    } else {
        Ok(
            (
                BetInfo { resolved: true, ..bet },
                Refund { to_participant1: bet.wager, to_participant2: bet.wager },
            ),
        )
    }
}

/// After the deadline, on the signature of either participant, both wagers
/// go back to the participants.
pub fn timeout(bet: &mut BetInfo, slot: u64, participant1_signed: bool, participant2_signed: bool) -> (r: Result<
    Refund,
    ErrorCode,
>)
    ensures
        applied_with(
            r,
            *old(bet),
            *final(bet),
            timeout_result(*old(bet), slot, participant1_signed, participant2_signed),
        ),
{
    if !participant1_signed && !participant2_signed {
        return Err(ErrorCode::MissingSigner);
    }
    if bet.resolved {
        return Err(ErrorCode::AlreadyResolved);
    }
    if !(slot > bet.deadline) {
        return Err(ErrorCode::DeadlineNotReached);
    }
    let wager = bet.wager;
    bet.resolved = true;
    Ok(Refund { to_participant1: wager, to_participant2: wager })
}

/// Law: the deadline separates the oracle's decision from the refund, and a
/// resolved bet stays resolved.
pub proof fn lemma_settlement(
    bet: BetInfo,
    oracle: Pubkey,
    winner: Pubkey,
    slot: u64,
    bet_lamports: u64,
    winner_lamports: u64,
    participant1_signed: bool,
    participant2_signed: bool,
)
    ensures
        !(win_result(bet, oracle, winner, slot, bet_lamports, winner_lamports) is Ok && timeout_result(
            bet,
            slot,
            participant1_signed,
            participant2_signed,
        ) is Ok),
        bet.resolved ==> win_result(bet, oracle, winner, slot, bet_lamports, winner_lamports) is Err
            && timeout_result(bet, slot, participant1_signed, participant2_signed) is Err,
        win_result(bet, oracle, winner, slot, bet_lamports, winner_lamports) matches Ok((b, p)) ==> b.resolved
            && p.amount <= bet_lamports && one_of(p.to, bet.participant1, bet.participant2),
{
}

/// Law: each payment goes where it should. A successful decision pays the
/// declared winner, `winner`, and nobody else, the full pot; a successful
/// refund pays each participant its own share.
pub proof fn lemma_payments_go_where_they_should(
    bet: BetInfo,
    oracle: Pubkey,
    winner: Pubkey,
    slot: u64,
    bet_lamports: u64,
    winner_lamports: u64,
    participant1_signed: bool,
    participant2_signed: bool,
)
    ensures
        win_result(bet, oracle, winner, slot, bet_lamports, winner_lamports) matches Ok((_, p)) ==> p.to == winner && p.amount == bet.wager * 2,
        timeout_result(bet, slot, participant1_signed, participant2_signed) matches Ok((_, r)) ==> r.to_participant1 == bet.wager && r.to_participant2 == bet.wager,
{
}

} // verus!
