//! Bet in which two participants each stake `wager` (positive) until a
//! deadline slot. The stored oracle gives the pot to a winner (one of the
//! participants) and, after the deadline, on a participant's signature, both
//! wagers go back; each instruction checks that the bet's account is at the
//! address derived from the two participants' keys. Either settles the bet,
//! and a settled bet pays nothing more.
//!
//! The state keeps one value more than the account's stored layout: the
//! `settled` flag, which makes the pot payable only once.
use vstd::prelude::*;
use crate::common::{Pubkey, same_key, applied_with};
use crate::address::{program_address_search, found_address, try_find_program_address};
use crate::bet::model::{Wagers, Payment, Refund, one_of, is_one_of, pair_seeds, pair_seed_list};

verus! {

/// The bet's account.
#[derive(Clone, Copy, Debug, PartialEq, Eq)]
pub struct BetInfo {
    pub oracle: Pubkey,
    pub participant1: Pubkey,
    pub participant2: Pubkey,
    pub wager: u64,
    pub deadline: u64,
    pub settled: bool,
}

#[derive(Clone, Copy, Debug, PartialEq, Eq, Structural)]
pub enum ErrorCode {
    InvalidWager,
    CalculationOverflow,
    UnauthorizedOracle,
    DeadlineNotReached,
    UnauthorizedParticipant,
    InvalidPda,
    InvalidWinner,
    /// No bump seed yields the bet's address (where the instruction aborts).
    AddressNotFound,
    /// The bet has already been paid out or refunded.
    AlreadySettled,
}

/// Outcome of two participants joining at slot `slot`.
pub open spec fn join_result(
    participant1: Pubkey,
    participant2: Pubkey,
    oracle: Pubkey,
    delay: u64,
    wager: u64,
    slot: u64,
) -> Result<(BetInfo, Wagers), ErrorCode> {
    if !(wager > 0) {
        Err(ErrorCode::InvalidWager)
    } else if slot + delay > u64::MAX {
        Err(ErrorCode::CalculationOverflow)
    } else {
        Ok(
            (
                BetInfo { oracle, participant1, participant2, wager, deadline: (slot + delay) as u64, settled: false },
                Wagers { from_participant1: wager, from_participant2: wager },
            ),
        )
    }
}

/// Opens a bet between `participant1` and `participant2`, settled by
/// `oracle`, at slot `slot`: the deadline `slot + delay`, and `wager` paid in
/// by each participant.
pub fn join(
    participant1: Pubkey,
    participant2: Pubkey,
    oracle: Pubkey,
    delay: u64,
    wager: u64,
    slot: u64,
) -> (r: Result<(BetInfo, Wagers), ErrorCode>)
    ensures
        r == join_result(participant1, participant2, oracle, delay, wager, slot),
{
    if !(wager > 0) {
        return Err(ErrorCode::InvalidWager);
    }
    let deadline = match slot.checked_add(delay) {
        Some(v) => v,
        None => return Err(ErrorCode::CalculationOverflow),
    };
    Ok(
        (
            BetInfo { oracle, participant1, participant2, wager, deadline, settled: false },
            Wagers { from_participant1: wager, from_participant2: wager },
        ),
    )
}

/// The check of the bet's address `bet_key` against the outcome `found` of
/// the address search.
pub open spec fn address_check(bet_key: Pubkey, found: Option<(Seq<u8>, u8)>) -> Result<(), ErrorCode> {
    match found {
        None => Err(ErrorCode::AddressNotFound),
        Some(f) => if f.0 != bet_key.bytes@ {
            Err(ErrorCode::InvalidPda)
        } else {
            Ok(())
        },
    }
}

/// Checks the bet's address against the outcome of the address search.
fn check_address(bet_key: &Pubkey, found: Option<(Pubkey, u8)>) -> (r: Result<(), ErrorCode>)
    ensures
        r == address_check(*bet_key, found_address(found)),
{
    match found {
        None => Err(ErrorCode::AddressNotFound),
        Some((pda, _bump)) => if pda.key_eq(bet_key) {
            Ok(())
        } else {
            Err(ErrorCode::InvalidPda)
        },
    }
}

/// Outcome of the signer `oracle` paying `winner` from the bet's account at
/// `bet_key`, given the outcome `found` of the address search.
pub open spec fn win_result(
    bet: BetInfo,
    oracle: Pubkey,
    winner: Pubkey,
    bet_key: Pubkey,
    found: Option<(Seq<u8>, u8)>,
) -> Result<(BetInfo, Payment), ErrorCode> {
    if !same_key(oracle, bet.oracle) {
        Err(ErrorCode::UnauthorizedOracle)
    } else if bet.settled {
        Err(ErrorCode::AlreadySettled)
    } else if !one_of(winner, bet.participant1, bet.participant2) {
        Err(ErrorCode::InvalidWinner)
    } else {
        match address_check(bet_key, found) {
            Err(e) => Err(e),
            Ok(_) => if bet.wager * 2 > u64::MAX {
                Err(ErrorCode::CalculationOverflow)
            } else {
                Ok((BetInfo { settled: true, ..bet }, Payment { to: winner, amount: (bet.wager * 2) as u64 }))
            },
        }
    }
}

/// The payment to `winner` given the outcome `found` of the search for the
/// bet's address.
pub fn win_with_address(
    bet: &mut BetInfo,
    oracle: Pubkey,
    winner: Pubkey,
    bet_key: Pubkey,
    found: Option<(Pubkey, u8)>,
) -> (r: Result<Payment, ErrorCode>)
    ensures
        applied_with(r, *old(bet), *final(bet), win_result(*old(bet), oracle, winner, bet_key, found_address(found))),
{
    if !oracle.key_eq(&bet.oracle) {
        return Err(ErrorCode::UnauthorizedOracle);
    }
    if bet.settled {
        return Err(ErrorCode::AlreadySettled);
    }
    if !is_one_of(&winner, &bet.participant1, &bet.participant2) {
        return Err(ErrorCode::InvalidWinner);
    }
    match check_address(&bet_key, found) {
        Ok(_) => {},
        Err(e) => return Err(e),
    }
    match bet.wager.checked_mul(2) {
        Some(pot) => {
            bet.settled = true;
            Ok(Payment { to: winner, amount: pot })
        },
        None => Err(ErrorCode::CalculationOverflow),
    }
}

/// The stored oracle (the signer `oracle`, checked before anything else)
/// pays both wagers to `winner`, one of the participants, once; the bet's
/// account at `bet_key` must be at the address derived for program
/// `program_id` from the participants' keys. The bet is then settled.
pub fn win(bet: &mut BetInfo, oracle: Pubkey, winner: Pubkey, program_id: Pubkey, bet_key: Pubkey) -> (r: Result<
    Payment,
    ErrorCode,
>)
    ensures
        applied_with(
            r,
            *old(bet),
            *final(bet),
            win_result(
                *old(bet),
                oracle,
                winner,
                bet_key,
                program_address_search(pair_seeds(old(bet).participant1, old(bet).participant2), program_id.bytes@),
            ),
        ),
{
    let seeds = pair_seed_list(&bet.participant1, &bet.participant2);
    let found = try_find_program_address(&seeds, &program_id);
    win_with_address(bet, oracle, winner, bet_key, found)
}

/// Outcome of a timeout at slot `slot`, with the signatures of the two
/// participants, for the bet's account at `bet_key`, given the outcome
/// `found` of the address search.
pub open spec fn timeout_result(
    bet: BetInfo,
    slot: u64,
    participant1_signed: bool,
    participant2_signed: bool,
    bet_key: Pubkey,
    found: Option<(Seq<u8>, u8)>,
) -> Result<(BetInfo, Refund), ErrorCode> {
    if bet.settled {
        Err(ErrorCode::AlreadySettled)
    } else if !(slot > bet.deadline) {
        Err(ErrorCode::DeadlineNotReached)
    } else if !(participant1_signed || participant2_signed) {
        Err(ErrorCode::UnauthorizedParticipant)
    } else {
        match address_check(bet_key, found) {
            Err(e) => Err(e),
            Ok(_) => Ok(
                (
                    BetInfo { settled: true, ..bet },
                    Refund { to_participant1: bet.wager, to_participant2: bet.wager },
                ),
            ),
        }
    }
}

/// The refund given the outcome `found` of the search for the bet's address.
pub fn timeout_with_address(
    bet: &mut BetInfo,
    slot: u64,
    participant1_signed: bool,
    participant2_signed: bool,
    bet_key: Pubkey,
    found: Option<(Pubkey, u8)>,
) -> (r: Result<Refund, ErrorCode>)
    ensures
        applied_with(
            r,
            *old(bet),
            *final(bet),
            timeout_result(*old(bet), slot, participant1_signed, participant2_signed, bet_key, found_address(found)),
        ),
{
    if bet.settled {
        return Err(ErrorCode::AlreadySettled);
    }
    if !(slot > bet.deadline) {
        return Err(ErrorCode::DeadlineNotReached);
    }
    if !(participant1_signed || participant2_signed) {
        return Err(ErrorCode::UnauthorizedParticipant);
    }
    match check_address(&bet_key, found) {
        Ok(_) => {
            bet.settled = true;
            Ok(Refund { to_participant1: bet.wager, to_participant2: bet.wager })
        },
        Err(e) => Err(e),
    }
}

/// After the deadline, on the signature of either participant, both wagers
/// go back, once; the bet's account at `bet_key` must be at the address
/// derived for program `program_id` from the participants' keys. The bet is
/// then settled.
pub fn timeout(
    bet: &mut BetInfo,
    slot: u64,
    participant1_signed: bool,
    participant2_signed: bool,
    program_id: Pubkey,
    bet_key: Pubkey,
) -> (r: Result<Refund, ErrorCode>)
    ensures
        applied_with(
            r,
            *old(bet),
            *final(bet),
            timeout_result(
                *old(bet),
                slot,
                participant1_signed,
                participant2_signed,
                bet_key,
                program_address_search(pair_seeds(old(bet).participant1, old(bet).participant2), program_id.bytes@),
            ),
        ),
{
    let seeds = pair_seed_list(&bet.participant1, &bet.participant2);
    let found = try_find_program_address(&seeds, &program_id);
    timeout_with_address(bet, slot, participant1_signed, participant2_signed, bet_key, found)
}

/// Law: nothing is paid from an account that is not at the address derived
/// from the participants' keys, the pot is paid only on the stored oracle's
/// word, and it goes to a participant.
pub proof fn lemma_paid_only_at_derived_address(
    bet: BetInfo,
    oracle: Pubkey,
    winner: Pubkey,
    slot: u64,
    participant1_signed: bool,
    participant2_signed: bool,
    bet_key: Pubkey,
    found: Option<(Seq<u8>, u8)>,
)
    ensures
        win_result(bet, oracle, winner, bet_key, found) is Ok ==> (found matches Some(f) && f.0 == bet_key.bytes@)
            && same_key(oracle, bet.oracle),
        win_result(bet, oracle, winner, bet_key, found) matches Ok((_, p)) ==> one_of(
            p.to,
            bet.participant1,
            bet.participant2,
        ),
        timeout_result(bet, slot, participant1_signed, participant2_signed, bet_key, found) is Ok ==> (found matches Some(
            f,
        ) && f.0 == bet_key.bytes@),
{
}

/// Law: a bet is settled once: every success settles it, and a settled bet
/// is neither paid out nor refunded again.
pub proof fn lemma_settled_is_final(
    bet: BetInfo,
    oracle: Pubkey,
    winner: Pubkey,
    slot: u64,
    participant1_signed: bool,
    participant2_signed: bool,
    bet_key: Pubkey,
    found: Option<(Seq<u8>, u8)>,
)
    ensures
        bet.settled ==> win_result(bet, oracle, winner, bet_key, found) is Err && timeout_result(
            bet,
            slot,
            participant1_signed,
            participant2_signed,
            bet_key,
            found,
        ) is Err,
        win_result(bet, oracle, winner, bet_key, found) matches Ok((b, _)) ==> b.settled,
        timeout_result(bet, slot, participant1_signed, participant2_signed, bet_key, found) matches Ok((b, _))
            ==> b.settled,
{
}

/// Law: each payment goes where it should. A successful decision pays the
/// declared winner, `winner`, and nobody else, the full pot; a successful
/// refund pays each participant its own share.
pub proof fn lemma_payments_go_where_they_should(
    bet: BetInfo,
    oracle: Pubkey,
    winner: Pubkey,
    bet_key: Pubkey,
    found: Option<(Seq<u8>, u8)>,
    slot: u64,
    participant1_signed: bool,
    participant2_signed: bool,
)
    ensures
        win_result(bet, oracle, winner, bet_key, found) matches Ok((_, p)) ==> p.to == winner && p.amount == bet.wager * 2,
        timeout_result(bet, slot, participant1_signed, participant2_signed, bet_key, found) matches Ok((_, r)) ==> r.to_participant1 == bet.wager && r.to_participant2 == bet.wager,
{
}

} // verus!
