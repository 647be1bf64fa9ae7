//! Bet in which two participants each stake `wager` (positive) until a
//! deadline slot; until then the designated oracle may pay the whole pot to
//! one of them, as long as the bet's balance above its rent-exempt minimum
//! covers it; after the deadline both wagers are refunded on the same
//! condition.
use vstd::prelude::*;
use crate::common::{Pubkey, same_key, applied_with};
use crate::bet::model::{Wagers, Payment, Refund, one_of, is_one_of};

verus! {

#[derive(Clone, Copy, Debug, PartialEq, Eq, Structural)]
pub enum BetState {
    Active,
    Resolved,
}

/// The bet's account.
#[derive(Clone, Copy, Debug, PartialEq, Eq)]
pub struct BetInfo {
    pub participant1: Pubkey,
    pub participant2: Pubkey,
    pub oracle: Pubkey,
    pub wager: u64,
    pub total_pot: u64,
    pub deadline: u64,
    pub state: BetState,
}

impl BetInfo {
    /// Bytes of the bet's account: discriminator, three keys, three numbers
    /// and the state.
    pub const LEN: usize = 8 + 32 + 32 + 32 + 8 + 8 + 8 + 1;
}

#[derive(Clone, Copy, Debug, PartialEq, Eq, Structural)]
pub enum BettingError {
    InvalidWager,
    InvalidDelay,
    ArithmeticOverflow,
    InvalidOracle,
    BetAlreadyResolved,
    InvalidWinner,
    DeadlinePassed,
    DeadlineNotReached,
    InvalidParticipant,
    InsufficientFunds,
    /// The framework's refusal of a timeout whose first account did not
    /// sign, checked with the accounts before the instruction runs.
    AccountNotSigner,
}

/// Outcome of two participants joining at slot `slot`.
pub open spec fn join_result(
    participant1: Pubkey,
    participant2: Pubkey,
    oracle: Pubkey,
    delay: u64,
    wager: u64,
    slot: u64,
) -> Result<(BetInfo, Wagers), BettingError> {
    if !(wager > 0) {
        Err(BettingError::InvalidWager)
    } else if !(delay > 0) {
        Err(BettingError::InvalidDelay)
    } else if slot + delay > u64::MAX || wager * 2 > u64::MAX {
        Err(BettingError::ArithmeticOverflow)
    } else {
        Ok(
            (
                BetInfo {
                    participant1,
                    participant2,
                    oracle,
                    wager,
                    deadline: (slot + delay) as u64,
                    state: BetState::Active,
                    total_pot: (wager * 2) as u64,
                },
                Wagers { from_participant1: wager, from_participant2: wager },
            ),
        )
    }
}

/// Opens a bet between `participant1` and `participant2`, settled by
/// `oracle`, at slot `slot`: the deadline `slot + delay`, and `wager` paid in
/// by each participant.
pub fn join(
    participant1: Pubkey,
    participant2: Pubkey,
    oracle: Pubkey,
    delay: u64,
    wager: u64,
    slot: u64,
) -> (r: Result<(BetInfo, Wagers), BettingError>)
    ensures
        r == join_result(participant1, participant2, oracle, delay, wager, slot),
{
    if !(wager > 0) {
        return Err(BettingError::InvalidWager);
    }
    if !(delay > 0) {
        return Err(BettingError::InvalidDelay);
    }
    let deadline = match slot.checked_add(delay) {
        Some(v) => v,
        None => return Err(BettingError::ArithmeticOverflow),
    };
    let total_pot = match wager.checked_mul(2) {
        Some(v) => v,
        None => return Err(BettingError::ArithmeticOverflow),
    };
    let bet = BetInfo {
        participant1,
        participant2,
        oracle,
        wager,
        deadline,
        state: BetState::Active,
        total_pot,
    };
    Ok((bet, Wagers { from_participant1: wager, from_participant2: wager }))
}

/// Outcome of the signer `oracle` declaring `winner` at slot `slot`, with
/// the bet's balance and rent-exempt minimum.
pub open spec fn win_result(
    bet: BetInfo,
    oracle: Pubkey,
    winner: Pubkey,
    slot: u64,
    bet_lamports: u64,
    rent_exempt: u64,
) -> Result<(BetInfo, Payment), BettingError> {
    if !same_key(oracle, bet.oracle) {
        Err(BettingError::InvalidOracle)
    } else if bet.state != BetState::Active {
        Err(BettingError::BetAlreadyResolved)
    } else if !one_of(winner, bet.participant1, bet.participant2) {
        Err(BettingError::InvalidWinner)
    } else if !(slot <= bet.deadline) {
        Err(BettingError::DeadlinePassed)
    } else if bet_lamports < rent_exempt || bet_lamports - rent_exempt < bet.total_pot {
        Err(BettingError::InsufficientFunds)
    } else {
        Ok((BetInfo { state: BetState::Resolved, ..bet }, Payment { to: winner, amount: bet.total_pot }))
    }
}

/// The oracle (the signer `oracle`) pays the whole pot to `winner`, one of
/// the participants, by the deadline; refused when the balance above the
/// rent-exempt minimum does not cover the pot.
pub fn win(
    bet: &mut BetInfo,
    oracle: Pubkey,
    winner: Pubkey,
    slot: u64,
    bet_lamports: u64,
    rent_exempt: u64,
) -> (r: Result<Payment, BettingError>)
    ensures
        applied_with(r, *old(bet), *final(bet), win_result(*old(bet), oracle, winner, slot, bet_lamports, rent_exempt)),
{
    if !oracle.key_eq(&bet.oracle) {
        return Err(BettingError::InvalidOracle);
    }
    if !(bet.state == BetState::Active) {
        return Err(BettingError::BetAlreadyResolved);
    }
    if !is_one_of(&winner, &bet.participant1, &bet.participant2) {
        return Err(BettingError::InvalidWinner);
    }
    if !(slot <= bet.deadline) {
        return Err(BettingError::DeadlinePassed);
    }
    let total_pot = bet.total_pot;
    let available_lamports = match bet_lamports.checked_sub(rent_exempt) {
        Some(v) => v,
        None => return Err(BettingError::InsufficientFunds),
    };
    if !(available_lamports >= total_pot) {
        return Err(BettingError::InsufficientFunds);
    }
    bet.state = BetState::Resolved;
    Ok(Payment { to: winner, amount: total_pot })
}

/// The two accounts given for a refund are the bet's two participants, in
/// either order.
pub open spec fn refund_accounts(bet: BetInfo, participant1: Pubkey, participant2: Pubkey) -> bool {
    (same_key(participant1, bet.participant1) && same_key(participant2, bet.participant2)) || (same_key(
        participant1,
        bet.participant2,
    ) && same_key(participant2, bet.participant1))
}

/// Outcome of a timeout at slot `slot` refunding the accounts `participant1`
/// and `participant2` (the first of which signed when `participant1_signed`),
/// with the bet's balance and rent-exempt minimum.
pub open spec fn timeout_result(
    bet: BetInfo,
    participant1: Pubkey,
    participant2: Pubkey,
    participant1_signed: bool,
    slot: u64,
    bet_lamports: u64,
    rent_exempt: u64,
) -> Result<
    (BetInfo, Refund),
    BettingError,
> {
    if !participant1_signed {
        Err(BettingError::AccountNotSigner)
    } else if !refund_accounts(bet, participant1, participant2) {
        Err(BettingError::InvalidParticipant)
    } else if bet.state != BetState::Active {
        Err(BettingError::BetAlreadyResolved)
    } else if !(slot > bet.deadline) {
        Err(BettingError::DeadlineNotReached)
    } else if bet_lamports < rent_exempt {
        Err(BettingError::InsufficientFunds)
    } else if bet.wager * 2 > u64::MAX {
        Err(BettingError::ArithmeticOverflow)
    } else if bet_lamports - rent_exempt < bet.wager * 2 {
        Err(BettingError::InsufficientFunds)
    } else {
        Ok(
            (
                BetInfo { state: BetState::Resolved, ..bet },
                Refund { to_participant1: bet.wager, to_participant2: bet.wager },
            ),
        )
    }
}

/// After the deadline, both wagers go back to the participants, to the two
/// accounts given, which must be the bet's two participants in either order.
/// Either participant can call it: the first account given, which may be
/// either one, must sign (`participant1_signed`), checked before anything
/// else. Refused when the balance above the rent-exempt minimum does not
/// cover the two wagers.
pub fn timeout(
    bet: &mut BetInfo,
    participant1: Pubkey,
    participant2: Pubkey,
    participant1_signed: bool,
    slot: u64,
    bet_lamports: u64,
    rent_exempt: u64,
) -> (r: Result<
    Refund,
    BettingError,
>)
    ensures
        applied_with(
            r,
            *old(bet),
            *final(bet),
            timeout_result(*old(bet), participant1, participant2, participant1_signed, slot, bet_lamports, rent_exempt),
        ),
{
    if !participant1_signed {
        return Err(BettingError::AccountNotSigner);
    }
    let same_order = participant1.key_eq(&bet.participant1) && participant2.key_eq(&bet.participant2);
    let swapped = participant1.key_eq(&bet.participant2) && participant2.key_eq(&bet.participant1);
    if !(same_order || swapped) {
        return Err(BettingError::InvalidParticipant);
    }
    if !(bet.state == BetState::Active) {
        return Err(BettingError::BetAlreadyResolved);
    }
    if !(slot > bet.deadline) {
        return Err(BettingError::DeadlineNotReached);
    }
    let wager = bet.wager;
    let available_lamports = match bet_lamports.checked_sub(rent_exempt) {
        Some(v) => v,
        None => return Err(BettingError::InsufficientFunds),
    };
    let total_refund = match wager.checked_mul(2) {
        Some(v) => v,
        None => return Err(BettingError::ArithmeticOverflow),
    };
    if !(available_lamports >= total_refund) {
        return Err(BettingError::InsufficientFunds);
    }
    bet.state = BetState::Resolved;
    Ok(Refund { to_participant1: wager, to_participant2: wager })
}

/// Law: the deadline separates the oracle's decision from the refund: at
/// no slot are both open.
pub proof fn lemma_win_or_timeout(
    bet: BetInfo,
    oracle: Pubkey,
    winner: Pubkey,
    participant1: Pubkey,
    participant2: Pubkey,
    participant1_signed: bool,
    slot: u64,
    bet_lamports: u64,
    rent_exempt: u64,
)
    ensures
        !(win_result(bet, oracle, winner, slot, bet_lamports, rent_exempt) is Ok && timeout_result(
            bet,
            participant1,
            participant2,
            participant1_signed,
            slot,
            bet_lamports,
            rent_exempt,
        ) is Ok),
{
}

/// Law: a resolved bet stays resolved: neither a decision nor a refund
/// succeeds any more, and each success resolves the bet.
pub proof fn lemma_resolved_is_final(
    bet: BetInfo,
    oracle: Pubkey,
    winner: Pubkey,
    participant1: Pubkey,
    participant2: Pubkey,
    participant1_signed: bool,
    slot: u64,
    bet_lamports: u64,
    rent_exempt: u64,
)
    ensures
        bet.state == BetState::Resolved ==> win_result(bet, oracle, winner, slot, bet_lamports, rent_exempt) is Err
            && timeout_result(bet, participant1, participant2, participant1_signed, slot, bet_lamports, rent_exempt) is Err,
        win_result(bet, oracle, winner, slot, bet_lamports, rent_exempt) matches Ok((b, _)) ==> b.state
            == BetState::Resolved,
        timeout_result(bet, participant1, participant2, participant1_signed, slot, bet_lamports, rent_exempt) matches Ok((b, _)) ==> b.state == BetState::Resolved,
{
}

/// Law: what a bet opened by `join` pays out is what was paid in: the
/// oracle's payment is both wagers, the refund returns each wager.
pub proof fn lemma_payouts_match_wagers(
    participant1: Pubkey,
    participant2: Pubkey,
    participant1_signed: bool,
    oracle: Pubkey,
    delay: u64,
    wager: u64,
    slot: u64,
    caller: Pubkey,
    winner: Pubkey,
    later: u64,
    bet_lamports: u64,
    rent_exempt: u64,
)
    ensures
        join_result(participant1, participant2, oracle, delay, wager, slot) matches Ok((bet, w)) ==> {
            &&& win_result(bet, caller, winner, later, bet_lamports, rent_exempt) matches Ok((_, p)) ==> p.amount
                == w.from_participant1 + w.from_participant2 && one_of(p.to, participant1, participant2)
            &&& timeout_result(bet, participant1, participant2, participant1_signed, later, bet_lamports, rent_exempt) matches Ok((_, r)) ==> r.to_participant1
                == w.from_participant1 && r.to_participant2 == w.from_participant2
        },
{
}

/// Law: the timeout can be called by either participant: with the bet's two
/// participants given in either order and the first one signing, the outcome
/// is the same, and neither signer nor accounts are refused.
pub proof fn lemma_either_participant_may_call(bet: BetInfo, slot: u64, bet_lamports: u64, rent_exempt: u64)
    ensures
        timeout_result(bet, bet.participant1, bet.participant2, true, slot, bet_lamports, rent_exempt)
            == timeout_result(bet, bet.participant2, bet.participant1, true, slot, bet_lamports, rent_exempt),
        timeout_result(bet, bet.participant1, bet.participant2, true, slot, bet_lamports, rent_exempt)
            != Err::<(BetInfo, Refund), BettingError>(BettingError::InvalidParticipant),
        timeout_result(bet, bet.participant1, bet.participant2, true, slot, bet_lamports, rent_exempt)
            != Err::<(BetInfo, Refund), BettingError>(BettingError::AccountNotSigner),
{
}

/// Law: each payment goes where it should. A successful decision pays the
/// declared winner, `winner`, and nobody else, the full pot; a successful
/// refund pays each participant its own share.
pub proof fn lemma_payments_go_where_they_should(
    bet: BetInfo,
    oracle: Pubkey,
    winner: Pubkey,
    slot: u64,
    bet_lamports: u64,
    rent_exempt: u64,
    participant1: Pubkey,
    participant2: Pubkey,
    participant1_signed: bool,
)
    ensures
        win_result(bet, oracle, winner, slot, bet_lamports, rent_exempt) matches Ok((_, p)) ==> p.to == winner && p.amount == bet.total_pot,
        timeout_result(bet, participant1, participant2, participant1_signed, slot, bet_lamports, rent_exempt) matches Ok((_, r)) ==> r.to_participant1 == bet.wager && r.to_participant2 == bet.wager,
{
}

} // verus!
