//! Bet in which two participants each stake `wager` (positive); before the
//! deadline slot the designated oracle may pay the stored pot to one of
//! them, from the deadline on both wagers are refunded; both instructions
//! first check that the bet's account is at the address derived from the two
//! participants' keys.
use vstd::prelude::*;
use crate::common::{Pubkey, same_key, applied_with};
use crate::address::{program_address_search, found_address, try_find_program_address};
use crate::bet::model::{Wagers, Payment, Refund, one_of, is_one_of, pair_seeds, pair_seed_list};

verus! {

/// The bet's account.
#[derive(Clone, Copy, Debug, PartialEq, Eq)]
pub struct BetInfo {
    pub participant1: Pubkey,
    pub participant2: Pubkey,
    pub oracle: Pubkey,
    pub deadline: u64,
    pub wager: u64,
    pub total_pot: u64,
    pub is_active: bool,
}

impl BetInfo {
    /// Bytes of the bet's account: discriminator, three keys, three numbers
    /// and the flag.
    pub const LEN: usize = 8 + 32 + 32 + 32 + 8 + 8 + 8 + 1;
}

#[derive(Clone, Copy, Debug, PartialEq, Eq, Structural)]
pub enum BettingError {
    InvalidWager,
    InvalidOracle,
    BetNotActive,
    InvalidWinner,
    DeadlinePassed,
    DeadlineNotPassed,
    InvalidPDA,
    /// No bump seed yields the bet's address (where the instruction aborts).
    AddressNotFound,
}

/// Outcome of two participants joining at slot `slot`.
pub open spec fn join_result(
    participant1: Pubkey,
    participant2: Pubkey,
    oracle: Pubkey,
    delay: u64,
    wager: u64,
    slot: u64,
) -> Result<(BetInfo, Wagers), BettingError> {
    if !(wager > 0) {
        Err(BettingError::InvalidWager)
    } else {
        Ok(
            (
                BetInfo {
                    participant1,
                    participant2,
                    oracle,
                    deadline: (slot + delay) as u64,
                    wager,
                    total_pot: (wager * 2) as u64,
                    is_active: true,
                },
                Wagers { from_participant1: wager, from_participant2: wager },
            ),
        )
    }
}

/// Opens a bet between `participant1` and `participant2`, settled by
/// `oracle`, at slot `slot`: the deadline `slot + delay`, the pot of both
/// wagers, and `wager` paid in by each participant. The instruction aborts where
/// the deadline or the pot does not fit in 64 bits; those inputs are left
/// out.
pub fn join(
    participant1: Pubkey,
    participant2: Pubkey,
    oracle: Pubkey,
    delay: u64,
    wager: u64,
    slot: u64,
) -> (r: Result<(BetInfo, Wagers), BettingError>)
    requires
        wager > 0 ==> slot + delay <= u64::MAX && wager * 2 <= u64::MAX,
    ensures
        r == join_result(participant1, participant2, oracle, delay, wager, slot),
{
    if !(wager > 0) {
        return Err(BettingError::InvalidWager);
    }
    let bet = BetInfo {
        participant1,
        participant2,
        oracle,
        deadline: slot + delay,
        wager,
        total_pot: wager * 2,
        is_active: true,
    };
    Ok((bet, Wagers { from_participant1: wager, from_participant2: wager }))
}

/// The check of the bet's address `bet_key` against the outcome `found` of
/// the address search.
pub open spec fn address_check(bet_key: Pubkey, found: Option<(Seq<u8>, u8)>) -> Result<(), BettingError> {
    match found {
        None => Err(BettingError::AddressNotFound),
        Some(f) => if f.0 != bet_key.bytes@ {
            Err(BettingError::InvalidPDA)
        } else {
            Ok(())
        },
    }
}

/// Checks the bet's address against the outcome of the address search.
fn check_address(bet_key: &Pubkey, found: Option<(Pubkey, u8)>) -> (r: Result<(), BettingError>)
    ensures
        r == address_check(*bet_key, found_address(found)),
{
    match found {
        None => Err(BettingError::AddressNotFound),
        Some((pda, _bump)) => if pda.key_eq(bet_key) {
            Ok(())
        } else {
            Err(BettingError::InvalidPDA)
        },
    }
}

/// Outcome of the signer `oracle` declaring `winner` at slot `slot`, for
/// the bet's account at `bet_key`, given the outcome `found` of the address
/// search.
pub open spec fn win_result(
    bet: BetInfo,
    oracle: Pubkey,
    winner: Pubkey,
    slot: u64,
    bet_key: Pubkey,
    found: Option<(Seq<u8>, u8)>,
) -> Result<(BetInfo, Payment), BettingError> {
    if !same_key(oracle, bet.oracle) {
        Err(BettingError::InvalidOracle)
    } else if !bet.is_active {
        Err(BettingError::BetNotActive)
    } else if !one_of(winner, bet.participant1, bet.participant2) {
        Err(BettingError::InvalidWinner)
    } else if !(slot < bet.deadline) {
        Err(BettingError::DeadlinePassed)
    } else {
        match address_check(bet_key, found) {
            Err(e) => Err(e),
            Ok(_) => Ok((BetInfo { is_active: false, ..bet }, Payment { to: winner, amount: bet.total_pot })),
        }
    }
}

/// The oracle's decision given the outcome `found` of the search for the
/// bet's address.
pub fn win_with_address(
    bet: &mut BetInfo,
    oracle: Pubkey,
    winner: Pubkey,
    slot: u64,
    bet_key: Pubkey,
    found: Option<(Pubkey, u8)>,
) -> (r: Result<Payment, BettingError>)
    ensures
        applied_with(r, *old(bet), *final(bet), win_result(*old(bet), oracle, winner, slot, bet_key, found_address(found))),
{
    if !oracle.key_eq(&bet.oracle) {
        return Err(BettingError::InvalidOracle);
    }
    if !bet.is_active {
        return Err(BettingError::BetNotActive);
    }
    if !is_one_of(&winner, &bet.participant1, &bet.participant2) {
        return Err(BettingError::InvalidWinner);
    }
    if !(slot < bet.deadline) {
        return Err(BettingError::DeadlinePassed);
    }
    match check_address(&bet_key, found) {
        Ok(_) => {},
        Err(e) => return Err(e),
    }
    let total_pot = bet.total_pot;
    bet.is_active = false;
    Ok(Payment { to: winner, amount: total_pot })
}

/// The oracle (the signer `oracle`) pays the stored pot to `winner`, one of
/// the participants, before the deadline; the bet's account at `bet_key` must
/// be at the address derived for program `program_id` from the keys of the
/// participant accounts given, `participant1_key` and `participant2_key`.
pub fn win(
    bet: &mut BetInfo,
    oracle: Pubkey,
    winner: Pubkey,
    participant1_key: Pubkey,
    participant2_key: Pubkey,
    program_id: Pubkey,
    bet_key: Pubkey,
    slot: u64,
) -> (r: Result<Payment, BettingError>)
    ensures
        applied_with(
            r,
            *old(bet),
            *final(bet),
            win_result(
                *old(bet),
                oracle,
                winner,
                slot,
                bet_key,
                program_address_search(pair_seeds(participant1_key, participant2_key), program_id.bytes@),
            ),
        ),
{
    let seeds = pair_seed_list(&participant1_key, &participant2_key);
    let found = try_find_program_address(&seeds, &program_id);
    win_with_address(bet, oracle, winner, slot, bet_key, found)
}

/// Outcome of a timeout at slot `slot`, for the bet's account at `bet_key`,
/// given the outcome `found` of the address search.
pub open spec fn timeout_result(bet: BetInfo, slot: u64, bet_key: Pubkey, found: Option<(Seq<u8>, u8)>) -> Result<
    (BetInfo, Refund),
    BettingError,
> {
    if !bet.is_active {
        Err(BettingError::BetNotActive)
    } else if !(slot >= bet.deadline) {
        Err(BettingError::DeadlineNotPassed)
    } else {
        match address_check(bet_key, found) {
            Err(e) => Err(e),
            Ok(_) => Ok(
                (
                    BetInfo { is_active: false, ..bet },
                    Refund { to_participant1: bet.wager, to_participant2: bet.wager },
                ),
            ),
        }
    }
}

/// The refund given the outcome `found` of the search for the bet's
/// address.
pub fn timeout_with_address(bet: &mut BetInfo, slot: u64, bet_key: Pubkey, found: Option<(Pubkey, u8)>) -> (r:
    Result<Refund, BettingError>)
    ensures
        applied_with(r, *old(bet), *final(bet), timeout_result(*old(bet), slot, bet_key, found_address(found))),
{
    if !bet.is_active {
        return Err(BettingError::BetNotActive);
    }
    if !(slot >= bet.deadline) {
        return Err(BettingError::DeadlineNotPassed);
    }
    match check_address(&bet_key, found) {
        Ok(_) => {},
        Err(e) => return Err(e),
    }
    let wager = bet.wager;
    bet.is_active = false;
    Ok(Refund { to_participant1: wager, to_participant2: wager })
}

/// From the deadline on, both wagers go back to the participants; the bet's
/// account at `bet_key` must be at the address derived for program
/// `program_id` from the keys of the participant accounts given.
pub fn timeout(
    bet: &mut BetInfo,
    participant1_key: Pubkey,
    participant2_key: Pubkey,
    program_id: Pubkey,
    bet_key: Pubkey,
    slot: u64,
) -> (r: Result<Refund, BettingError>)
    ensures
        applied_with(
            r,
            *old(bet),
            *final(bet),
            timeout_result(
                *old(bet),
                slot,
                bet_key,
                program_address_search(pair_seeds(participant1_key, participant2_key), program_id.bytes@),
            ),
        ),
{
    let seeds = pair_seed_list(&participant1_key, &participant2_key);
    let found = try_find_program_address(&seeds, &program_id);
    timeout_with_address(bet, slot, bet_key, found)
}

/// Law: the deadline separates the oracle's decision from the refund, a
/// settled bet stays settled, and neither pays out from an account that is
/// not at the derived address.
pub proof fn lemma_settlement(
    bet: BetInfo,
    oracle: Pubkey,
    winner: Pubkey,
    slot: u64,
    bet_key: Pubkey,
    found: Option<(Seq<u8>, u8)>,
)
    ensures
        !(win_result(bet, oracle, winner, slot, bet_key, found) is Ok && timeout_result(bet, slot, bet_key, found)
            is Ok),
        !bet.is_active ==> win_result(bet, oracle, winner, slot, bet_key, found) is Err && timeout_result(
            bet,
            slot,
            bet_key,
            found,
        ) is Err,
        win_result(bet, oracle, winner, slot, bet_key, found) is Ok ==> (found matches Some(f) && f.0
            == bet_key.bytes@),
        timeout_result(bet, slot, bet_key, found) is Ok ==> (found matches Some(f) && f.0 == bet_key.bytes@),
{
}

/// Law: each payment goes where it should. A successful decision pays the
/// declared winner, `winner`, and nobody else, the full pot; a successful
/// refund pays each participant its own share.
pub proof fn lemma_payments_go_where_they_should(
    bet: BetInfo,
    oracle: Pubkey,
    winner: Pubkey,
    slot: u64,
    bet_key: Pubkey,
    found: Option<(Seq<u8>, u8)>,
)
    ensures
        win_result(bet, oracle, winner, slot, bet_key, found) matches Ok((_, p)) ==> p.to == winner && p.amount == bet.total_pot,
        timeout_result(bet, slot, bet_key, found) matches Ok((_, r)) ==> r.to_participant1 == bet.wager && r.to_participant2 == bet.wager,
{
}

} // verus!
