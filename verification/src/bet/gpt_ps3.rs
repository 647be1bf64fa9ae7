//! Bet in which two distinct participants each stake `wager` (positive);
//! up to the deadline slot the designated oracle pays both wagers to one of
//! them, from the deadline on both are refunded; either way the rest of the
//! bet's balance goes to the first participant and the bet is settled.
use vstd::prelude::*;
use crate::common::{Pubkey, same_key, applied_with};
use crate::bet::model::{Wagers, Payment, Refund, one_of, is_one_of};

verus! {

/// The bet's account.
#[derive(Clone, Copy, Debug, PartialEq, Eq)]
pub struct BetInfo {
    pub participant1: Pubkey,
    pub participant2: Pubkey,
    pub oracle: Pubkey,
    pub wager: u64,
    pub deadline: u64,
    pub bump: u8,
    pub settled: bool,
}

impl BetInfo {
    /// Bytes of the bet's account: discriminator, three keys, two numbers,
    /// the bump and the flag.
    pub const SPACE: usize = 8 + 32 + 32 + 32 + 8 + 8 + 1 + 1;
}

#[derive(Clone, Copy, Debug, PartialEq, Eq, Structural)]
pub enum BetError {
    InvalidWager,
    SameParticipant,
    MathOverflow,
    InvalidOracle,
    AlreadySettled,
    DeadlineNotReached,
    DeadlinePassed,
    InvalidWinner,
    InsufficientPot,
    Unauthorized,
}

/// Outcome of `participant1` and `participant2` joining at slot `slot`, at
/// the address with bump `bump`.
pub open spec fn join_result(
    participant1: Pubkey,
    participant2: Pubkey,
    oracle: Pubkey,
    delay: u64,
    wager: u64,
    slot: u64,
    bump: u8,
) -> Result<(BetInfo, Wagers), BetError> {
    if !(wager > 0) {
        Err(BetError::InvalidWager)
    } else if same_key(participant1, participant2) {
        Err(BetError::SameParticipant)
    } else if slot + delay > u64::MAX {
        Err(BetError::MathOverflow)
    } else {
        Ok(
            (
                BetInfo {
                    participant1,
                    participant2,
                    oracle,
                    wager,
                    deadline: (slot + delay) as u64,
                    bump,
                    settled: false,
                },
                Wagers { from_participant1: wager, from_participant2: wager },
            ),
        )
    }
}

/// Opens the bet between two distinct participants at slot `slot`, with
/// deadline `slot + delay`; each pays in `wager`.
pub fn join(
    participant1: Pubkey,
    participant2: Pubkey,
    oracle: Pubkey,
    delay: u64,
    wager: u64,
    slot: u64,
    bump: u8,
) -> (r: Result<(BetInfo, Wagers), BetError>)
    ensures
        r == join_result(participant1, participant2, oracle, delay, wager, slot, bump),
{
    if !(wager > 0) {
        return Err(BetError::InvalidWager);
    }
    if participant1.key_eq(&participant2) {
        return Err(BetError::SameParticipant);
    }
    let deadline = match slot.checked_add(delay) {
        Some(v) => v,
        None => return Err(BetError::MathOverflow),
    };
    let bet = BetInfo { participant1, participant2, oracle, wager, deadline, bump, settled: false };
    Ok((bet, Wagers { from_participant1: wager, from_participant2: wager }))
}

/// Outcome of the signer `oracle` declaring `winner` at slot `slot`, where
/// the bet's address was derived from the accounts `participant1` and
/// `participant2` and holds `bet_lamports`: the pot to the winner, then the
/// rest to the first participant.
pub open spec fn win_result(
    bet: BetInfo,
    oracle: Pubkey,
    winner: Pubkey,
    participant1: Pubkey,
    participant2: Pubkey,
    slot: u64,
    bet_lamports: u64,
) -> Result<(BetInfo, (Payment, Payment)), BetError> {
    if !same_key(oracle, bet.oracle) {
        Err(BetError::InvalidOracle)
    } else if bet.settled {
        Err(BetError::AlreadySettled)
    } else if !(slot <= bet.deadline) {
        Err(BetError::DeadlinePassed)
    } else if !one_of(winner, participant1, participant2) {
        Err(BetError::InvalidWinner)
    } else if bet.wager * 2 > u64::MAX {
        Err(BetError::MathOverflow)
    } else if bet_lamports < bet.wager * 2 {
        Err(BetError::InsufficientPot)
    } else {
        Ok(
            (
                BetInfo { settled: true, wager: 0, ..bet },
                (
                    Payment { to: winner, amount: (bet.wager * 2) as u64 },
                    Payment { to: participant1, amount: (bet_lamports - bet.wager * 2) as u64 },
                ),
            ),
        )
    }
}

/// The designated oracle pays both wagers to `winner`, one of the two
/// participants, by the deadline, drains the rest of the balance to the
/// first participant, and settles the bet; refused unless the balance covers
/// both wagers.
pub fn win(
    bet: &mut BetInfo,
    oracle: Pubkey,
    winner: Pubkey,
    participant1: Pubkey,
    participant2: Pubkey,
    slot: u64,
    bet_lamports: u64,
) -> (r: Result<(Payment, Payment), BetError>)
    ensures
        applied_with(
            r,
            *old(bet),
            *final(bet),
            win_result(*old(bet), oracle, winner, participant1, participant2, slot, bet_lamports),
        ),
{
    if !oracle.key_eq(&bet.oracle) {
        return Err(BetError::InvalidOracle);
    }
    if bet.settled {
        return Err(BetError::AlreadySettled);
    }
    if !(slot <= bet.deadline) {
        return Err(BetError::DeadlinePassed);
    }
    if !is_one_of(&winner, &participant1, &participant2) {
        return Err(BetError::InvalidWinner);
    }
    let pot = match bet.wager.checked_mul(2) {
        Some(v) => v,
        None => return Err(BetError::MathOverflow),
    };
    if !(bet_lamports >= pot) {
        return Err(BetError::InsufficientPot);
    }
    let remainder = bet_lamports - pot;
    bet.settled = true;
    bet.wager = 0;
    Ok((Payment { to: winner, amount: pot }, Payment { to: participant1, amount: remainder }))
}

/// Outcome of a timeout at slot `slot` with the participants' signatures and
/// `bet_lamports` in the bet's account: each wager back, then the rest to
/// the first participant (the account `participant1`).
pub open spec fn timeout_result(
    bet: BetInfo,
    participant1: Pubkey,
    participant1_signed: bool,
    participant2_signed: bool,
    slot: u64,
    bet_lamports: u64,
) -> Result<(BetInfo, (Refund, Payment)), BetError> {
    if !(participant1_signed || participant2_signed) {
        Err(BetError::Unauthorized)
    } else if bet.settled {
        Err(BetError::AlreadySettled)
    } else if !(slot >= bet.deadline) {
        Err(BetError::DeadlineNotReached)
    } else if bet.wager * 2 > u64::MAX {
        Err(BetError::MathOverflow)
    } else if bet_lamports < bet.wager * 2 {
        Err(BetError::InsufficientPot)
    } else {
        Ok(
            (
                BetInfo { settled: true, wager: 0, ..bet },
                (
                    Refund { to_participant1: bet.wager, to_participant2: bet.wager },
                    Payment { to: participant1, amount: (bet_lamports - bet.wager * 2) as u64 },
                ),
            ),
        )
    }
}

/// From the deadline on, either participant (signing) has both wagers
/// refunded; the rest of the balance goes to the first participant and the
/// bet is settled; refused unless the balance covers both wagers.
pub fn timeout(
    bet: &mut BetInfo,
    participant1: Pubkey,
    participant1_signed: bool,
    participant2_signed: bool,
    slot: u64,
    bet_lamports: u64,
) -> (r: Result<(Refund, Payment), BetError>)
    ensures
        applied_with(
            r,
            *old(bet),
            *final(bet),
            timeout_result(*old(bet), participant1, participant1_signed, participant2_signed, slot, bet_lamports),
        ),
{
    if !(participant1_signed || participant2_signed) {
        return Err(BetError::Unauthorized);
    }
    if bet.settled {
        return Err(BetError::AlreadySettled);
    }
    if !(slot >= bet.deadline) {
        return Err(BetError::DeadlineNotReached);
    }
    let wager = bet.wager;
    let pot_needed = match wager.checked_mul(2) {
        Some(v) => v,
        None => return Err(BetError::MathOverflow),
    };
    if !(bet_lamports >= pot_needed) {
        return Err(BetError::InsufficientPot);
    }
    let remainder = bet_lamports - pot_needed;
    bet.settled = true;
    bet.wager = 0;
    Ok(
        (
            Refund { to_participant1: wager, to_participant2: wager },
            Payment { to: participant1, amount: remainder },
        ),
    )
}

/// Law: whichever way the bet ends, its whole balance is paid out, nothing
/// more or less.
pub proof fn lemma_balance_fully_paid(
    bet: BetInfo,
    oracle: Pubkey,
    winner: Pubkey,
    participant1: Pubkey,
    participant2: Pubkey,
    participant1_signed: bool,
    participant2_signed: bool,
    slot: u64,
    bet_lamports: u64,
)
    ensures
        win_result(bet, oracle, winner, participant1, participant2, slot, bet_lamports) matches Ok((_, (p, rest)))
            ==> p.amount + rest.amount == bet_lamports,
        timeout_result(bet, participant1, participant1_signed, participant2_signed, slot, bet_lamports) matches Ok(
            (_, (r, rest)),
        ) ==> r.to_participant1 + r.to_participant2 + rest.amount == bet_lamports,
{
}

/// Law: a settled bet stays settled: neither a decision nor a refund
/// succeeds any more, and each success settles the bet.
pub proof fn lemma_settled_is_final(
    bet: BetInfo,
    oracle: Pubkey,
    winner: Pubkey,
    participant1: Pubkey,
    participant2: Pubkey,
    participant1_signed: bool,
    participant2_signed: bool,
    slot: u64,
    bet_lamports: u64,
)
    ensures
        bet.settled ==> win_result(bet, oracle, winner, participant1, participant2, slot, bet_lamports) is Err
            && timeout_result(bet, participant1, participant1_signed, participant2_signed, slot, bet_lamports) is Err,
        win_result(bet, oracle, winner, participant1, participant2, slot, bet_lamports) matches Ok((b, _))
            ==> b.settled,
        timeout_result(bet, participant1, participant1_signed, participant2_signed, slot, bet_lamports) matches Ok(
            (b, _),
        ) ==> b.settled,
{
}

/// Law: away from the deadline slot itself, the oracle's decision (before
/// it) and the refund (after it) are never both open.
pub proof fn lemma_win_or_timeout(
    bet: BetInfo,
    oracle: Pubkey,
    winner: Pubkey,
    participant1: Pubkey,
    participant2: Pubkey,
    participant1_signed: bool,
    participant2_signed: bool,
    slot: u64,
    bet_lamports: u64,
)
    requires
        slot != bet.deadline,
    ensures
        !(win_result(bet, oracle, winner, participant1, participant2, slot, bet_lamports) is Ok && timeout_result(
            bet,
            participant1,
            participant1_signed,
            participant2_signed,
            slot,
            bet_lamports,
        ) is Ok),
{
}

/// Law: each payment goes where it should. A successful decision pays the
/// declared winner, `winner`, and nobody else, the full pot; a successful
/// refund pays each participant its own share.
pub proof fn lemma_payments_go_where_they_should(
    bet: BetInfo,
    oracle: Pubkey,
    winner: Pubkey,
    participant1: Pubkey,
    participant2: Pubkey,
    slot: u64,
    bet_lamports: u64,
    participant1_signed: bool,
    participant2_signed: bool,
)
    ensures
        win_result(bet, oracle, winner, participant1, participant2, slot, bet_lamports) matches Ok((_, (p, _))) ==> p.to == winner && p.amount == bet.wager * 2,
        timeout_result(bet, participant1, participant1_signed, participant2_signed, slot, bet_lamports) matches Ok((_, (r, _))) ==> r.to_participant1 == bet.wager && r.to_participant2 == bet.wager,
{
}

} // verus!
