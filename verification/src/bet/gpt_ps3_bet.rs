//! Bet in which two participants, signing together, each stake `wager`
//! (positive) for `delay` (positive) slots; by the deadline the designated,
//! signing oracle gives the whole balance of a fully funded bet to one of
//! them, and after it either participant has both wagers refunded. Either
//! outcome resolves the bet.
use vstd::prelude::*;
use crate::common::{Pubkey, same_key, applied_with};
use crate::bet::model::{Wagers, Payment, Refund, one_of, is_one_of};

verus! {

/// The bet's account.
#[derive(Clone, Copy, Debug, PartialEq, Eq)]
pub struct BetInfo {
    pub participant1: Pubkey,
    pub participant2: Pubkey,
    pub oracle: Pubkey,
    pub wager: u64,
    pub deadline: u64,
    pub resolved: bool,
    pub initialized: bool,
    pub bump: u8,
}

impl BetInfo {
    /// Bytes of the bet's account: discriminator, three keys, two numbers,
    /// two flags and the bump.
    pub const SPACE: usize = 8 + 32 + 32 + 32 + 8 + 8 + 1 + 1 + 1;
}

#[derive(Clone, Copy, Debug, PartialEq, Eq, Structural)]
pub enum BetError {
    MissingParticipantSignatures,
    MissingOracleSignature,
    MathOverflow,
    AlreadyInitialized,
    AlreadyResolved,
    InvalidOracle,
    InvalidWinner,
    DeadlinePassed,
    DeadlineNotReached,
    NotFunded,
    InvalidWager,
    InvalidDelay,
}

/// Outcome of `participant1` and `participant2` joining at slot `slot` on
/// the account `bet`, whose address has bump `bump`.
pub open spec fn join_result(
    bet: BetInfo,
    participant1: Pubkey,
    participant2: Pubkey,
    oracle: Pubkey,
    participant1_signed: bool,
    participant2_signed: bool,
    delay: u64,
    wager: u64,
    slot: u64,
    bump: u8,
) -> Result<(BetInfo, Wagers), BetError> {
    if !(participant1_signed && participant2_signed) {
        Err(BetError::MissingParticipantSignatures)
    } else if !(wager > 0) {
        Err(BetError::InvalidWager)
    } else if !(delay > 0) {
        Err(BetError::InvalidDelay)
    } else if bet.initialized {
        Err(BetError::AlreadyInitialized)
    } else if slot + delay > u64::MAX {
        Err(BetError::MathOverflow)
    } else {
        Ok(
            (
                BetInfo {
                    participant1,
                    participant2,
                    oracle,
                    wager,
                    deadline: (slot + delay) as u64,
                    resolved: false,
                    initialized: true,
                    bump,
                },
                Wagers { from_participant1: wager, from_participant2: wager },
            ),
        )
    }
}

/// Both participants, signing together, pay in `wager` each and open the
/// bet on `bet` at slot `slot`, with deadline `slot + delay`.
pub fn join(
    bet: &mut BetInfo,
    participant1: Pubkey,
    participant2: Pubkey,
    oracle: Pubkey,
    participant1_signed: bool,
    participant2_signed: bool,
    delay: u64,
    wager: u64,
    slot: u64,
    bump: u8,
) -> (r: Result<Wagers, BetError>)
    ensures
        applied_with(
            r,
            *old(bet),
            *final(bet),
            join_result(
                *old(bet),
                participant1,
                participant2,
                oracle,
                participant1_signed,
                participant2_signed,
                delay,
                wager,
                slot,
                bump,
            ),
        ),
{
    if !(participant1_signed && participant2_signed) {
        return Err(BetError::MissingParticipantSignatures);
    }
    if !(wager > 0) {
        return Err(BetError::InvalidWager);
    }
    if !(delay > 0) {
        return Err(BetError::InvalidDelay);
    }
    if bet.initialized {
        return Err(BetError::AlreadyInitialized);
    }
    let deadline = match slot.checked_add(delay) {
        Some(v) => v,
        None => return Err(BetError::MathOverflow),
    };
    bet.participant1 = participant1;
    bet.participant2 = participant2;
    bet.oracle = oracle;
    bet.wager = wager;
    bet.deadline = deadline;
    bet.resolved = false;
    bet.initialized = true;
    bet.bump = bump;
    Ok(Wagers { from_participant1: wager, from_participant2: wager })
}

/// Outcome of `oracle` (signing or not) declaring `winner` at slot `slot`,
/// with `bet_lamports` in the bet's account.
pub open spec fn win_result(
    bet: BetInfo,
    oracle: Pubkey,
    oracle_signed: bool,
    winner: Pubkey,
    slot: u64,
    bet_lamports: u64,
) -> Result<(BetInfo, Payment), BetError> {
    if !oracle_signed {
        Err(BetError::MissingOracleSignature)
    } else if !same_key(oracle, bet.oracle) {
        Err(BetError::InvalidOracle)
    } else if bet.resolved {
        Err(BetError::AlreadyResolved)
    } else if !(slot <= bet.deadline) {
        Err(BetError::DeadlinePassed)
    } else if !one_of(winner, bet.participant1, bet.participant2) {
        Err(BetError::InvalidWinner)
    } else if bet.wager * 2 > u64::MAX {
        Err(BetError::MathOverflow)
    } else if bet_lamports < bet.wager * 2 {
        Err(BetError::NotFunded)
    } else {
        Ok((BetInfo { resolved: true, ..bet }, Payment { to: winner, amount: bet_lamports }))
    }
}

/// The designated oracle, signing, resolves the bet by the deadline for
/// `winner`, one of the participants, who receives the bet's whole balance
/// as the account is closed to it; refused unless the balance covers both
/// wagers.
pub fn win(
    bet: &mut BetInfo,
    oracle: Pubkey,
    oracle_signed: bool,
    winner: Pubkey,
    slot: u64,
    bet_lamports: u64,
) -> (r: Result<Payment, BetError>)
    ensures
        applied_with(r, *old(bet), *final(bet), win_result(*old(bet), oracle, oracle_signed, winner, slot, bet_lamports)),
{
    if !oracle_signed {
        return Err(BetError::MissingOracleSignature);
    }
    if !oracle.key_eq(&bet.oracle) {
        return Err(BetError::InvalidOracle);
    }
    if bet.resolved {
        return Err(BetError::AlreadyResolved);
    }
    if !(slot <= bet.deadline) {
        return Err(BetError::DeadlinePassed);
    }
    if !is_one_of(&winner, &bet.participant1, &bet.participant2) {
        return Err(BetError::InvalidWinner);
    }
    let expected = match bet.wager.checked_mul(2) {
        Some(v) => v,
        None => return Err(BetError::MathOverflow),
    };
    if !(bet_lamports >= expected) {
        return Err(BetError::NotFunded);
    }
    bet.resolved = true;
    Ok(Payment { to: winner, amount: bet_lamports })
}

/// Outcome of a timeout at slot `slot` with the participants' signatures and
/// `bet_lamports` in the bet's account.
pub open spec fn timeout_result(
    bet: BetInfo,
    participant1_signed: bool,
    participant2_signed: bool,
    slot: u64,
    bet_lamports: u64,
) -> Result<(BetInfo, Refund), BetError> {
    if !(participant1_signed || participant2_signed) {
        Err(BetError::MissingParticipantSignatures)
    } else if bet.resolved {
        Err(BetError::AlreadyResolved)
    } else if !(slot > bet.deadline) {
        Err(BetError::DeadlineNotReached)
    } else if !(bet.wager > 0) {
        Err(BetError::InvalidWager)
    } else if bet.wager * 2 > u64::MAX {
        Err(BetError::MathOverflow)
    } else if bet_lamports < bet.wager * 2 {
        Err(BetError::NotFunded)
    } else {
        Ok(
            (
                BetInfo { resolved: true, ..bet },
                Refund { to_participant1: bet.wager, to_participant2: bet.wager },
            ),
        )
    }
}

/// After the deadline, either participant (signing) has both wagers
/// refunded, which resolves the bet (the rest of the balance goes to the
/// first participant as the account is closed); refused unless the balance
/// covers both wagers.
pub fn timeout(
    bet: &mut BetInfo,
    participant1_signed: bool,
    participant2_signed: bool,
    slot: u64,
    bet_lamports: u64,
) -> (r: Result<Refund, BetError>)
    ensures
        applied_with(
            r,
            *old(bet),
            *final(bet),
            timeout_result(*old(bet), participant1_signed, participant2_signed, slot, bet_lamports),
        ),
{
    if !(participant1_signed || participant2_signed) {
        return Err(BetError::MissingParticipantSignatures);
    }
    if bet.resolved {
        return Err(BetError::AlreadyResolved);
    }
    if !(slot > bet.deadline) {
        return Err(BetError::DeadlineNotReached);
    }
    let refund = bet.wager;
    if !(refund > 0) {
        return Err(BetError::InvalidWager);
    }
    let expected = match refund.checked_mul(2) {
        Some(v) => v,
        None => return Err(BetError::MathOverflow),
    };
    if !(bet_lamports >= expected) {
        return Err(BetError::NotFunded);
    }
    bet.resolved = true;
    Ok(Refund { to_participant1: refund, to_participant2: refund })
}

/// Law: the deadline separates the oracle's decision (up to it) from the
/// refund (after it): at no slot are both open.
pub proof fn lemma_win_or_timeout(
    bet: BetInfo,
    oracle: Pubkey,
    oracle_signed: bool,
    winner: Pubkey,
    participant1_signed: bool,
    participant2_signed: bool,
    slot: u64,
    bet_lamports: u64,
)
    ensures
        !(win_result(bet, oracle, oracle_signed, winner, slot, bet_lamports) is Ok && timeout_result(
            bet,
            participant1_signed,
            participant2_signed,
            slot,
            bet_lamports,
        ) is Ok),
{
}

/// Law: a resolved bet stays resolved: neither a decision nor a refund
/// succeeds any more, and each success resolves the bet.
pub proof fn lemma_resolved_is_final(
    bet: BetInfo,
    oracle: Pubkey,
    oracle_signed: bool,
    winner: Pubkey,
    participant1_signed: bool,
    participant2_signed: bool,
    slot: u64,
    bet_lamports: u64,
)
    ensures
        bet.resolved ==> win_result(bet, oracle, oracle_signed, winner, slot, bet_lamports) is Err
            && timeout_result(bet, participant1_signed, participant2_signed, slot, bet_lamports) is Err,
        win_result(bet, oracle, oracle_signed, winner, slot, bet_lamports) matches Ok((b, _)) ==> b.resolved,
        timeout_result(bet, participant1_signed, participant2_signed, slot, bet_lamports) matches Ok((b, _))
            ==> b.resolved,
{
}

/// Law: a payout never exceeds what the bet's account holds, and whatever
/// succeeds leaves the wagers covered: the winner's payment is at least both
/// wagers, the refund returns each wager.
pub proof fn lemma_payouts_covered(
    bet: BetInfo,
    oracle: Pubkey,
    oracle_signed: bool,
    winner: Pubkey,
    participant1_signed: bool,
    participant2_signed: bool,
    slot: u64,
    bet_lamports: u64,
)
    ensures
        win_result(bet, oracle, oracle_signed, winner, slot, bet_lamports) matches Ok((_, p)) ==> bet.wager * 2
            <= p.amount && p.amount == bet_lamports,
        timeout_result(bet, participant1_signed, participant2_signed, slot, bet_lamports) matches Ok((_, r))
            ==> r.to_participant1 == bet.wager && r.to_participant2 == bet.wager && r.to_participant1
            + r.to_participant2 <= bet_lamports,
{
}

/// Law: each payment goes where it should. A successful decision pays the
/// declared winner, `winner`, and nobody else, the full pot; a successful
/// refund pays each participant its own share.
pub proof fn lemma_payments_go_where_they_should(
    bet: BetInfo,
    oracle: Pubkey,
    oracle_signed: bool,
    winner: Pubkey,
    slot: u64,
    bet_lamports: u64,
    participant1_signed: bool,
    participant2_signed: bool,
)
    ensures
        win_result(bet, oracle, oracle_signed, winner, slot, bet_lamports) matches Ok((_, p)) ==> p.to == winner && p.amount == bet_lamports,
        timeout_result(bet, participant1_signed, participant2_signed, slot, bet_lamports) matches Ok((_, r)) ==> r.to_participant1 == bet.wager && r.to_participant2 == bet.wager,
{
}

} // verus!
