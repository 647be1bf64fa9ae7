//! Bet between two distinct participants, neither of them the oracle, who
//! each stake `wager` (positive) until a deadline slot; until then the
//! oracle, signing, may pay both wagers to one of them; after it, on a
//! participant's signature, both wagers are refunded. Every movement of
//! lamports is checked against the balances involved.
use vstd::prelude::*;
use crate::common::{Pubkey, same_key, applied_with};
use crate::bet::model::{Wagers, Payment, Refund, one_of, is_one_of};

verus! {

/// The bet's account.
#[derive(Clone, Copy, Debug, PartialEq, Eq)]
pub struct BetInfo {
    pub participant1: Pubkey,
    pub participant2: Pubkey,
    pub oracle: Pubkey,
    pub deadline: u64,
    pub wager: u64,
    pub bump: u8,
    pub settled: bool,
}

impl BetInfo {
    /// Bytes of the bet's fields: three keys, two numbers, the bump and the
    /// flag.
    pub const LEN: usize = 32 * 3 + 8 * 2 + 1 + 1;
}

#[derive(Clone, Copy, Debug, PartialEq, Eq, Structural)]
pub enum ErrorCode {
    InvalidWager,
    SameParticipant,
    DeadlineOverflow,
    NotAuthorized,
    AlreadySettled,
    DeadlineNotReached,
    DeadlinePassed,
    InvalidWinner,
    Underflow,
    LamportOverflow,
    /// The framework's refusal of an oracle account other than the stored
    /// oracle, checked with the accounts before the instruction runs.
    ConstraintHasOne,
    /// A refund account other than the stored participant in its place,
    /// checked with the accounts before the instruction runs.
    InvalidParticipant,
}

/// Outcome of two participants joining at slot `slot`, at the address with
/// bump `bump`.
pub open spec fn join_result(
    participant1: Pubkey,
    participant2: Pubkey,
    oracle: Pubkey,
    delay: u64,
    wager: u64,
    slot: u64,
    bump: u8,
) -> Result<(BetInfo, Wagers), ErrorCode> {
    if !(wager > 0) {
        Err(ErrorCode::InvalidWager)
    } else if same_key(participant1, participant2) {
        Err(ErrorCode::SameParticipant)
    } else if same_key(oracle, participant1) || same_key(oracle, participant2) {
        Err(ErrorCode::NotAuthorized)
    } else if slot + delay > u64::MAX {
        Err(ErrorCode::DeadlineOverflow)
    } else {
        Ok(
            (
                BetInfo {
                    participant1,
                    participant2,
                    oracle,
                    wager,
                    deadline: (slot + delay) as u64,
                    bump,
                    settled: false,
                },
                Wagers { from_participant1: wager, from_participant2: wager },
            ),
        )
    }
}

/// Opens a bet between two distinct participants, settled by a third party
/// `oracle`, at slot `slot`: the deadline `slot + delay`, and `wager` paid in
/// by each participant.
pub fn join(
    participant1: Pubkey,
    participant2: Pubkey,
    oracle: Pubkey,
    delay: u64,
    wager: u64,
    slot: u64,
    bump: u8,
) -> (r: Result<(BetInfo, Wagers), ErrorCode>)
    ensures
        r == join_result(participant1, participant2, oracle, delay, wager, slot, bump),
{
    if !(wager > 0) {
        return Err(ErrorCode::InvalidWager);
    }
    if participant1.key_eq(&participant2) {
        return Err(ErrorCode::SameParticipant);
    }
    if oracle.key_eq(&participant1) {
        return Err(ErrorCode::NotAuthorized);
    }
    if oracle.key_eq(&participant2) {
        return Err(ErrorCode::NotAuthorized);
    }
    let deadline = match slot.checked_add(delay) {
        Some(v) => v,
        None => return Err(ErrorCode::DeadlineOverflow),
    };
    let bet = BetInfo { participant1, participant2, oracle, wager, deadline, bump, settled: false };
    Ok((bet, Wagers { from_participant1: wager, from_participant2: wager }))
}

/// The decision passes the instruction's checks before the pot is computed.
pub open spec fn win_allowed(bet: BetInfo, oracle: Pubkey, oracle_signed: bool, winner: Pubkey, slot: u64) -> bool {
    &&& !bet.settled
    &&& oracle_signed
    &&& same_key(oracle, bet.oracle)
    &&& one_of(winner, bet.participant1, bet.participant2)
    &&& slot <= bet.deadline
}

/// Outcome of `oracle` (signing or not) declaring `winner` at slot `slot`,
/// with the balances of the bet and of the winner.
pub open spec fn win_result(
    bet: BetInfo,
    oracle: Pubkey,
    oracle_signed: bool,
    winner: Pubkey,
    slot: u64,
    bet_lamports: u64,
    winner_lamports: u64,
) -> Result<(BetInfo, Payment), ErrorCode> {
    if !same_key(oracle, bet.oracle) {
        Err(ErrorCode::ConstraintHasOne)
    } else if bet.settled {
        Err(ErrorCode::AlreadySettled)
    } else if !oracle_signed {
        Err(ErrorCode::NotAuthorized)
    } else if !one_of(winner, bet.participant1, bet.participant2) {
        Err(ErrorCode::InvalidWinner)
    } else if !(slot <= bet.deadline) {
        Err(ErrorCode::DeadlinePassed)
    } else if bet_lamports < bet.wager * 2 {
        Err(ErrorCode::Underflow)
    } else if winner_lamports + bet.wager * 2 > u64::MAX {
        Err(ErrorCode::LamportOverflow)
    } else {
        Ok((BetInfo { settled: true, ..bet }, Payment { to: winner, amount: (bet.wager * 2) as u64 }))
    }
}

/// The stored oracle (checked before anything else), signing, pays both
/// wagers to `winner`, one of the participants, by the deadline. The instruction aborts where twice the wager
/// does not fit in 64 bits; those inputs are left out.
pub fn win(
    bet: &mut BetInfo,
    oracle: Pubkey,
    oracle_signed: bool,
    winner: Pubkey,
    slot: u64,
    bet_lamports: u64,
    winner_lamports: u64,
) -> (r: Result<Payment, ErrorCode>)
    requires
        win_allowed(*old(bet), oracle, oracle_signed, winner, slot) ==> old(bet).wager * 2 <= u64::MAX,
    ensures
        applied_with(
            r,
            *old(bet),
            *final(bet),
            win_result(*old(bet), oracle, oracle_signed, winner, slot, bet_lamports, winner_lamports),
        ),
{
    if !oracle.key_eq(&bet.oracle) {
        return Err(ErrorCode::ConstraintHasOne);
    }
    if bet.settled {
        return Err(ErrorCode::AlreadySettled);
    }
    if !oracle_signed {
        return Err(ErrorCode::NotAuthorized);
    }
    if !is_one_of(&winner, &bet.participant1, &bet.participant2) {
        return Err(ErrorCode::InvalidWinner);
    }
    if !(slot <= bet.deadline) {
        return Err(ErrorCode::DeadlinePassed);
    }
    let pot = bet.wager * 2;
    if bet_lamports.checked_sub(pot).is_none() {
        return Err(ErrorCode::Underflow);
    }
    if winner_lamports.checked_add(pot).is_none() {
        return Err(ErrorCode::LamportOverflow);
    }
    bet.settled = true;
    Ok(Payment { to: winner, amount: pot })
}

/// Outcome of a timeout at slot `slot`, with the accounts passed as the two
/// participants, their signatures, and the balances of the bet and of the
/// participants.
pub open spec fn timeout_result(
    bet: BetInfo,
    participant1: Pubkey,
    participant2: Pubkey,
    slot: u64,
    participant1_signed: bool,
    participant2_signed: bool,
    bet_lamports: u64,
    participant1_lamports: u64,
    participant2_lamports: u64,
) -> Result<(BetInfo, Refund), ErrorCode> {
    if !(same_key(participant1, bet.participant1) && same_key(participant2, bet.participant2)) {
        Err(ErrorCode::InvalidParticipant)
    } else if bet.settled {
        Err(ErrorCode::AlreadySettled)
    } else if !(slot > bet.deadline) {
        Err(ErrorCode::DeadlineNotReached)
    } else if !(participant1_signed || participant2_signed) {
        Err(ErrorCode::NotAuthorized)
    } else if bet_lamports < bet.wager {
        Err(ErrorCode::Underflow)
    } else if participant1_lamports + bet.wager > u64::MAX {
        Err(ErrorCode::LamportOverflow)
    } else if bet_lamports - bet.wager < bet.wager {
        Err(ErrorCode::Underflow)
    } else if participant2_lamports + bet.wager > u64::MAX {
        Err(ErrorCode::LamportOverflow)
    } else {
        Ok(
            (
                BetInfo { settled: true, ..bet },
                Refund { to_participant1: bet.wager, to_participant2: bet.wager },
            ),
        )
    }
}

/// After the deadline, on the signature of either participant, both wagers
/// go back to the participants; the two accounts passed, `participant1` and
/// `participant2`, must be the bet's own participants, each in its place.
pub fn timeout(
    bet: &mut BetInfo,
    participant1: Pubkey,
    participant2: Pubkey,
    slot: u64,
    participant1_signed: bool,
    participant2_signed: bool,
    bet_lamports: u64,
    participant1_lamports: u64,
    participant2_lamports: u64,
) -> (r: Result<Refund, ErrorCode>)
    ensures
        applied_with(
            r,
            *old(bet),
            *final(bet),
            timeout_result(
                *old(bet),
                participant1,
                participant2,
                slot,
                participant1_signed,
                participant2_signed,
                bet_lamports,
                participant1_lamports,
                participant2_lamports,
            ),
        ),
{
    if !(participant1.key_eq(&bet.participant1) && participant2.key_eq(&bet.participant2)) {
        return Err(ErrorCode::InvalidParticipant);
    }
    if bet.settled {
        return Err(ErrorCode::AlreadySettled);
    }
    if !(slot > bet.deadline) {
        return Err(ErrorCode::DeadlineNotReached);
    }
    if !(participant1_signed || participant2_signed) {
        return Err(ErrorCode::NotAuthorized);
    }
    let wager = bet.wager;
    let after_first = match bet_lamports.checked_sub(wager) {
        Some(v) => v,
        None => return Err(ErrorCode::Underflow),
    };
    if participant1_lamports.checked_add(wager).is_none() {
        return Err(ErrorCode::LamportOverflow);
    }
    if after_first.checked_sub(wager).is_none() {
        return Err(ErrorCode::Underflow);
    }
    if participant2_lamports.checked_add(wager).is_none() {
        return Err(ErrorCode::LamportOverflow);
    }
    bet.settled = true;
    Ok(Refund { to_participant1: wager, to_participant2: wager })
}

/// Law: the deadline separates the decision from the refund, a settled bet
/// stays settled, no payout exceeds the bet's balance, refunds go only to
/// the bet's own participants, and an opened bet has two distinct
/// participants apart from the oracle.
pub proof fn lemma_settlement(
    bet: BetInfo,
    oracle: Pubkey,
    oracle_signed: bool,
    winner: Pubkey,
    slot: u64,
    bet_lamports: u64,
    winner_lamports: u64,
    participant1: Pubkey,
    participant2: Pubkey,
    participant1_signed: bool,
    participant2_signed: bool,
    participant1_lamports: u64,
    participant2_lamports: u64,
)
    ensures
        !(win_result(bet, oracle, oracle_signed, winner, slot, bet_lamports, winner_lamports) is Ok
            && timeout_result(
            bet,
            participant1,
            participant2,
            slot,
            participant1_signed,
            participant2_signed,
            bet_lamports,
            participant1_lamports,
            participant2_lamports,
        ) is Ok),
        bet.settled ==> win_result(bet, oracle, oracle_signed, winner, slot, bet_lamports, winner_lamports) is Err,
        win_result(bet, oracle, oracle_signed, winner, slot, bet_lamports, winner_lamports) matches Ok((b, p))
            ==> b.settled && p.amount <= bet_lamports,
        timeout_result(
            bet,
            participant1,
            participant2,
            slot,
            participant1_signed,
            participant2_signed,
            bet_lamports,
            participant1_lamports,
            participant2_lamports,
        ) matches Ok((b, r)) ==> b.settled && r.to_participant1 + r.to_participant2 <= bet_lamports
            && same_key(participant1, bet.participant1) && same_key(participant2, bet.participant2),
{
}

/// Law: each payment goes where it should. A successful decision pays the
/// declared winner, `winner`, and nobody else, the full pot; a successful
/// refund pays each participant its own share.
pub proof fn lemma_payments_go_where_they_should(
    bet: BetInfo,
    oracle: Pubkey,
    oracle_signed: bool,
    winner: Pubkey,
    slot: u64,
    bet_lamports: u64,
    winner_lamports: u64,
    participant1: Pubkey,
    participant2: Pubkey,
    participant1_signed: bool,
    participant2_signed: bool,
    participant1_lamports: u64,
    participant2_lamports: u64,
)
    ensures
        win_result(bet, oracle, oracle_signed, winner, slot, bet_lamports, winner_lamports) matches Ok((_, p)) ==> p.to == winner && p.amount == bet.wager * 2,
        timeout_result(bet, participant1, participant2, slot, participant1_signed, participant2_signed, bet_lamports, participant1_lamports, participant2_lamports) matches Ok((_, r)) ==> r.to_participant1 == bet.wager && r.to_participant2 == bet.wager,
{
}

} // verus!
