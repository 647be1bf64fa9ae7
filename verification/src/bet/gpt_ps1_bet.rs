//! Bet in which two distinct participants, signing together, each stake
//! `wager` (positive) with a non-default oracle; the designated oracle pays
//! the whole pot to one of them, and once the deadline slot has passed
//! either participant may have both wagers refunded. Either outcome resolves
//! the bet.
use vstd::prelude::*;
use crate::common::{Pubkey, same_key, is_default_key, applied_with};
use crate::bet::model::{Wagers, Payment, Refund, one_of, is_one_of};

verus! {

/// The bet's account.
#[derive(Clone, Copy, Debug, PartialEq, Eq)]
pub struct BetInfo {
    pub participant1: Pubkey,
    pub participant2: Pubkey,
    pub oracle: Pubkey,
    pub resolved: bool,
    pub winner: Pubkey,
    pub bump: u8,
    pub initialized: bool,
    pub wager: u64,
    pub deadline_slot: u64,
}

#[derive(Clone, Copy, Debug, PartialEq, Eq, Structural)]
pub enum BetError {
    AlreadyInitialized,
    AlreadyResolved,
    InvalidWager,
    InvalidOracle,
    MathOverflow,
    DeadlinePassedForWin,
    DeadlineNotReached,
    MissingOracleSignature,
    MissingParticipantSignature,
    Uninitialized,
    InvalidWinner,
    InsufficientPot,
}

#[derive(Clone, Copy, Debug, PartialEq, Eq, Structural)]
pub enum CustomError {
    AlreadyResolved,
    InvalidWinner,
}

/// Why an instruction is refused: an error of either of the program's two
/// error sets, or the framework's refusal of two equal keys that must differ.
#[derive(Clone, Copy, Debug, PartialEq, Eq, Structural)]
pub enum Failure {
    Bet(BetError),
    Custom(CustomError),
    RequireKeysNeqViolated,
}

/// Outcome of `participant1` and `participant2` joining at slot `slot` on the
/// freshly created account `bet`, whose address has bump `bump`.
pub open spec fn join_result(
    bet: BetInfo,
    participant1: Pubkey,
    participant2: Pubkey,
    oracle: Pubkey,
    participant1_signed: bool,
    participant2_signed: bool,
    delay: u64,
    wager: u64,
    slot: u64,
    bump: u8,
) -> Result<(BetInfo, Wagers), Failure> {
    if !participant1_signed || !participant2_signed {
        Err(Failure::Bet(BetError::MissingParticipantSignature))
    } else if !(wager > 0) {
        Err(Failure::Bet(BetError::InvalidWager))
    } else if same_key(participant1, participant2) {
        Err(Failure::RequireKeysNeqViolated)
    } else if is_default_key(oracle) {
        Err(Failure::Bet(BetError::InvalidOracle))
    } else if bet.initialized {
        Err(Failure::Bet(BetError::AlreadyInitialized))
    } else if slot + delay > u64::MAX {
        Err(Failure::Bet(BetError::MathOverflow))
    } else {
        Ok(
            (
                BetInfo {
                    participant1,
                    participant2,
                    oracle,
                    wager,
                    deadline_slot: (slot + delay) as u64,
                    resolved: false,
                    initialized: true,
                    bump,
                    ..bet
                },
                Wagers { from_participant1: wager, from_participant2: wager },
            ),
        )
    }
}

/// Both participants, signing together, open the bet on `bet` at slot
/// `slot`: the deadline `slot + delay`, and `wager` paid in by each.
pub fn join(
    bet: &mut BetInfo,
    participant1: Pubkey,
    participant2: Pubkey,
    oracle: Pubkey,
    participant1_signed: bool,
    participant2_signed: bool,
    delay: u64,
    wager: u64,
    slot: u64,
    bump: u8,
) -> (r: Result<Wagers, Failure>)
    ensures
        applied_with(
            r,
            *old(bet),
            *final(bet),
            join_result(
                *old(bet),
                participant1,
                participant2,
                oracle,
                participant1_signed,
                participant2_signed,
                delay,
                wager,
                slot,
                bump,
            ),
        ),
{
    if !participant1_signed {
        return Err(Failure::Bet(BetError::MissingParticipantSignature));
    }
    if !participant2_signed {
        return Err(Failure::Bet(BetError::MissingParticipantSignature));
    }
    if !(wager > 0) {
        return Err(Failure::Bet(BetError::InvalidWager));
    }
    if participant1.key_eq(&participant2) {
        return Err(Failure::RequireKeysNeqViolated);
    }
    if oracle.is_default() {
        return Err(Failure::Bet(BetError::InvalidOracle));
    }
    if bet.initialized {
        return Err(Failure::Bet(BetError::AlreadyInitialized));
    }
    let deadline = match slot.checked_add(delay) {
        Some(v) => v,
        None => return Err(Failure::Bet(BetError::MathOverflow)),
    };
    bet.participant1 = participant1;
    bet.participant2 = participant2;
    bet.oracle = oracle;
    bet.wager = wager;
    bet.deadline_slot = deadline;
    bet.resolved = false;
    bet.initialized = true;
    bet.bump = bump;
    Ok(Wagers { from_participant1: wager, from_participant2: wager })
}

/// Outcome of the signer `oracle` declaring `winner`, where the bet's
/// address was derived from the accounts `participant1` and `participant2`.
pub open spec fn win_result(
    bet: BetInfo,
    oracle: Pubkey,
    winner: Pubkey,
    participant1: Pubkey,
    participant2: Pubkey,
) -> Result<(BetInfo, Payment), Failure> {
    if !same_key(oracle, bet.oracle) {
        Err(Failure::Bet(BetError::InvalidOracle))
    } else if bet.resolved {
        Err(Failure::Custom(CustomError::AlreadyResolved))
    } else if !one_of(winner, participant1, participant2) {
        Err(Failure::Custom(CustomError::InvalidWinner))
    } else {
        Ok((BetInfo { resolved: true, ..bet }, Payment { to: winner, amount: (bet.wager * 2) as u64 }))
    }
}

/// The designated oracle pays the whole pot, twice the wager, to `winner`,
/// one of the two participants, and resolves the bet. The instruction aborts
/// where twice the wager does not fit in 64 bits; those inputs are left out.
pub fn win(bet: &mut BetInfo, oracle: Pubkey, winner: Pubkey, participant1: Pubkey, participant2: Pubkey) -> (r:
    Result<Payment, Failure>)
    requires
        win_result(*old(bet), oracle, winner, participant1, participant2) is Ok ==> old(bet).wager * 2 <= u64::MAX,
    ensures
        applied_with(r, *old(bet), *final(bet), win_result(*old(bet), oracle, winner, participant1, participant2)),
{
    if !oracle.key_eq(&bet.oracle) {
        return Err(Failure::Bet(BetError::InvalidOracle));
    }
    if bet.resolved {
        return Err(Failure::Custom(CustomError::AlreadyResolved));
    }
    if !is_one_of(&winner, &participant1, &participant2) {
        return Err(Failure::Custom(CustomError::InvalidWinner));
    }
    let total_pot = bet.wager * 2;
    bet.resolved = true;
    Ok(Payment { to: winner, amount: total_pot })
}

/// Outcome of a timeout at slot `slot`, with the participants' signatures.
pub open spec fn timeout_result(
    bet: BetInfo,
    participant1_signed: bool,
    participant2_signed: bool,
    slot: u64,
) -> Result<(BetInfo, Refund), Failure> {
    if !(participant1_signed || participant2_signed) {
        Err(Failure::Bet(BetError::MissingParticipantSignature))
    } else if bet.resolved {
        Err(Failure::Custom(CustomError::AlreadyResolved))
    } else if !(slot > bet.deadline_slot) {
        Err(Failure::Bet(BetError::DeadlineNotReached))
    } else {
        Ok(
            (
                BetInfo { resolved: true, ..bet },
                Refund { to_participant1: bet.wager, to_participant2: bet.wager },
            ),
        )
    }
}

/// Once the deadline slot has passed, either participant (signing) has
/// both wagers refunded, which resolves the bet.
pub fn timeout(bet: &mut BetInfo, participant1_signed: bool, participant2_signed: bool, slot: u64) -> (r: Result<
    Refund,
    Failure,
>)
    ensures
        applied_with(r, *old(bet), *final(bet), timeout_result(*old(bet), participant1_signed, participant2_signed, slot)),
{
    if !(participant1_signed || participant2_signed) {
        return Err(Failure::Bet(BetError::MissingParticipantSignature));
    }
    if bet.resolved {
        return Err(Failure::Custom(CustomError::AlreadyResolved));
    }
    if !(slot > bet.deadline_slot) {
        return Err(Failure::Bet(BetError::DeadlineNotReached));
    }
    let wager = bet.wager;
    bet.resolved = true;
    Ok(Refund { to_participant1: wager, to_participant2: wager })
}

/// Law: a resolved bet stays resolved: neither a decision nor a refund
/// succeeds any more, and each success resolves the bet.
pub proof fn lemma_resolved_is_final(
    bet: BetInfo,
    oracle: Pubkey,
    winner: Pubkey,
    participant1: Pubkey,
    participant2: Pubkey,
    participant1_signed: bool,
    participant2_signed: bool,
    slot: u64,
)
    ensures
        bet.resolved ==> win_result(bet, oracle, winner, participant1, participant2) is Err && timeout_result(
            bet,
            participant1_signed,
            participant2_signed,
            slot,
        ) is Err,
        win_result(bet, oracle, winner, participant1, participant2) matches Ok((b, _)) ==> b.resolved,
        timeout_result(bet, participant1_signed, participant2_signed, slot) matches Ok((b, _)) ==> b.resolved,
{
}

/// Law: what a joined bet pays out is what was paid in: the oracle's
/// payment is both wagers, and the refund returns each wager.
pub proof fn lemma_payouts_match_wagers(
    bet: BetInfo,
    participant1: Pubkey,
    participant2: Pubkey,
    oracle: Pubkey,
    participant1_signed: bool,
    participant2_signed: bool,
    delay: u64,
    wager: u64,
    slot: u64,
    bump: u8,
    caller: Pubkey,
    winner: Pubkey,
    later: u64,
)
    ensures
        join_result(
            bet,
            participant1,
            participant2,
            oracle,
            participant1_signed,
            participant2_signed,
            delay,
            wager,
            slot,
            bump,
        ) matches Ok((joined, w)) ==> {
            &&& win_result(joined, caller, winner, participant1, participant2) matches Ok((_, p)) ==> (joined.wager * 2
                <= u64::MAX ==> p.amount == w.from_participant1 + w.from_participant2)
            &&& timeout_result(joined, participant1_signed, participant2_signed, later) matches Ok((_, r))
                ==> r.to_participant1 == w.from_participant1 && r.to_participant2 == w.from_participant2
        },
{
}

/// Law: each payment goes where it should. A successful decision pays the
/// declared winner, `winner`, and nobody else, the full pot; a successful
/// refund pays each participant its own share.
pub proof fn lemma_payments_go_where_they_should(
    bet: BetInfo,
    oracle: Pubkey,
    winner: Pubkey,
    participant1: Pubkey,
    participant2: Pubkey,
    participant1_signed: bool,
    participant2_signed: bool,
    slot: u64,
)
    ensures
        win_result(bet, oracle, winner, participant1, participant2) matches Ok((_, p)) ==> p.to == winner && (bet.wager * 2 <= u64::MAX ==> p.amount == bet.wager * 2),
        timeout_result(bet, participant1_signed, participant2_signed, slot) matches Ok((_, r)) ==> r.to_participant1 == bet.wager && r.to_participant2 == bet.wager,
{
}

} // verus!
