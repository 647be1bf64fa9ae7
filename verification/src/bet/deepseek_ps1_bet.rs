//! Bet in which two participants, both signing, each stake `wager`
//! (positive) until a deadline slot; until then the oracle, signing, may pay
//! both wagers to one of them; after it, on a participant's signature, both
//! wagers are refunded. Every movement of lamports is checked against the
//! balances involved.
use vstd::prelude::*;
use crate::common::{Pubkey, same_key, applied_with};
use crate::bet::model::{Wagers, Payment, Refund, one_of, is_one_of};

verus! {

#[derive(Clone, Copy, Debug, PartialEq, Eq, Structural)]
pub enum BetState {
    Active,
    Resolved,
}

/// The bet's account.
#[derive(Clone, Copy, Debug, PartialEq, Eq)]
pub struct BetInfo {
    pub participant1: Pubkey,
    pub participant2: Pubkey,
    pub oracle: Pubkey,
    pub wager: u64,
    pub deadline: u64,
    pub state: BetState,
    pub bump: u8,
}

impl BetInfo {
    /// Bytes of the bet's account: discriminator, three keys, two numbers,
    /// the state and the bump.
    pub const LEN: usize = 8 + 32 + 32 + 32 + 8 + 8 + 1 + 1;
}

#[derive(Clone, Copy, Debug, PartialEq, Eq, Structural)]
pub enum BetError {
    MissingRequiredSignatures,
    UnauthOracle,
    InvalidOracle,
    BetAlreadyResolved,
    DeadlineNotReached,
    DeadlinePassed,
    InvalidWager,
    InsufficientFunds,
    TransferFailed,
    InvalidWinner,
}

/// The checks of `join` that come before the deadline is computed.
pub open spec fn join_check(wager: u64, participant1_signed: bool, participant2_signed: bool) -> Result<(), BetError> {
    if !(participant1_signed && participant2_signed) {
        Err(BetError::MissingRequiredSignatures)
    } else if !(wager > 0) {
        Err(BetError::InvalidWager)
    } else {
        Ok(())
    }
}

/// Outcome of two participants (signing or not) joining at slot `slot`, at
/// the address with bump `bump`.
pub open spec fn join_result(
    participant1: Pubkey,
    participant2: Pubkey,
    oracle: Pubkey,
    delay: u64,
    wager: u64,
    slot: u64,
    bump: u8,
    participant1_signed: bool,
    participant2_signed: bool,
) -> Result<(BetInfo, Wagers), BetError> {
    match join_check(wager, participant1_signed, participant2_signed) {
        Err(e) => Err(e),
        Ok(_) => Ok(
            (
                BetInfo {
                    participant1,
                    participant2,
                    oracle,
                    wager,
                    deadline: (slot + delay) as u64,
                    state: BetState::Active,
                    bump,
                },
                Wagers { from_participant1: wager, from_participant2: wager },
            ),
        ),
    }
}

/// Opens a bet between `participant1` and `participant2`, both signing,
/// settled by `oracle`, at slot `slot`: the deadline `slot + delay`, and
/// `wager` paid in by each. The instruction aborts where the deadline does not
/// fit in 64 bits; those inputs are left out.
pub fn join(
    participant1: Pubkey,
    participant2: Pubkey,
    oracle: Pubkey,
    delay: u64,
    wager: u64,
    slot: u64,
    bump: u8,
    participant1_signed: bool,
    participant2_signed: bool,
) -> (r: Result<(BetInfo, Wagers), BetError>)
    requires
        join_check(wager, participant1_signed, participant2_signed) is Ok ==> slot + delay <= u64::MAX,
    ensures
        r == join_result(
            participant1,
            participant2,
            oracle,
            delay,
            wager,
            slot,
            bump,
            participant1_signed,
            participant2_signed,
        ),
{
    if !(participant1_signed && participant2_signed) {
        return Err(BetError::MissingRequiredSignatures);
    }
    if !(wager > 0) {
        return Err(BetError::InvalidWager);
    }
    let bet = BetInfo {
        participant1,
        participant2,
        oracle,
        wager,
        deadline: slot + delay,
        state: BetState::Active,
        bump,
    };
    Ok((bet, Wagers { from_participant1: wager, from_participant2: wager }))
}

/// The decision passes the instruction's checks before the pot is computed.
pub open spec fn win_allowed(bet: BetInfo, oracle: Pubkey, oracle_signed: bool, winner: Pubkey, slot: u64) -> bool {
    &&& oracle_signed
    &&& bet.state == BetState::Active
    &&& slot <= bet.deadline
    &&& same_key(oracle, bet.oracle)
    &&& one_of(winner, bet.participant1, bet.participant2)
}

/// Outcome of `oracle` (signing or not) declaring `winner` at slot `slot`,
/// with the balances of the bet and of the winner.
pub open spec fn win_result(
    bet: BetInfo,
    oracle: Pubkey,
    oracle_signed: bool,
    winner: Pubkey,
    slot: u64,
    bet_lamports: u64,
    winner_lamports: u64,
) -> Result<(BetInfo, Payment), BetError> {
    if !oracle_signed {
        Err(BetError::UnauthOracle)
    } else if bet.state != BetState::Active {
        Err(BetError::BetAlreadyResolved)
    } else if !(slot <= bet.deadline) {
        Err(BetError::DeadlinePassed)
    } else if !same_key(oracle, bet.oracle) {
        Err(BetError::InvalidOracle)
    } else if !one_of(winner, bet.participant1, bet.participant2) {
        Err(BetError::InvalidWinner)
    } else if bet_lamports < bet.wager * 2 {
        Err(BetError::InsufficientFunds)
    } else if winner_lamports + bet.wager * 2 > u64::MAX {
        Err(BetError::TransferFailed)
    } else {
        Ok((BetInfo { state: BetState::Resolved, ..bet }, Payment { to: winner, amount: (bet.wager * 2) as u64 }))
    }
}

/// The oracle, signing, pays both wagers to `winner`, one of the
/// participants, by the deadline. The instruction aborts where twice the wager
/// does not fit in 64 bits; those inputs are left out.
pub fn win(
    bet: &mut BetInfo,
    oracle: Pubkey,
    oracle_signed: bool,
    winner: Pubkey,
    slot: u64,
    bet_lamports: u64,
    winner_lamports: u64,
) -> (r: Result<Payment, BetError>)
    requires
        win_allowed(*old(bet), oracle, oracle_signed, winner, slot) ==> old(bet).wager * 2 <= u64::MAX,
    ensures
        applied_with(
            r,
            *old(bet),
            *final(bet),
            win_result(*old(bet), oracle, oracle_signed, winner, slot, bet_lamports, winner_lamports),
        ),
{
    if !oracle_signed {
        return Err(BetError::UnauthOracle);
    }
    if !(bet.state == BetState::Active) {
        return Err(BetError::BetAlreadyResolved);
    }
    if !(slot <= bet.deadline) {
        return Err(BetError::DeadlinePassed);
    }
    if !bet.oracle.key_eq(&oracle) {
        return Err(BetError::InvalidOracle);
    }
    if !is_one_of(&winner, &bet.participant1, &bet.participant2) {
        return Err(BetError::InvalidWinner);
    }
    let total_pot = bet.wager * 2;
    if !(bet_lamports >= total_pot) {
        return Err(BetError::InsufficientFunds);
    }
    if winner_lamports.checked_add(total_pot).is_none() {
        return Err(BetError::TransferFailed);
    }
    bet.state = BetState::Resolved;
    Ok(Payment { to: winner, amount: total_pot })
}

/// The refund passes the instruction's checks before the total is computed.
pub open spec fn timeout_allowed(bet: BetInfo, slot: u64, participant1_signed: bool, participant2_signed: bool) -> bool {
    (participant1_signed || participant2_signed) && bet.state == BetState::Active && slot > bet.deadline
}

/// Outcome of a timeout at slot `slot`, with the signatures of the two
/// participants and the balances of the bet and of the participants.
pub open spec fn timeout_result(
    bet: BetInfo,
    slot: u64,
    participant1_signed: bool,
    participant2_signed: bool,
    bet_lamports: u64,
    participant1_lamports: u64,
    participant2_lamports: u64,
) -> Result<(BetInfo, Refund), BetError> {
    if !(participant1_signed || participant2_signed) {
        Err(BetError::MissingRequiredSignatures)
    } else if bet.state != BetState::Active {
        Err(BetError::BetAlreadyResolved)
    } else if !(slot > bet.deadline) {
        Err(BetError::DeadlineNotReached)
    } else if bet_lamports < bet.wager * 2 {
        Err(BetError::InsufficientFunds)
    } else if participant1_lamports + bet.wager > u64::MAX || participant2_lamports + bet.wager > u64::MAX {
        Err(BetError::TransferFailed)
    } else {
        Ok(
            (
                BetInfo { state: BetState::Resolved, ..bet },
                Refund { to_participant1: bet.wager, to_participant2: bet.wager },
            ),
        )
    }
}

/// After the deadline, on the signature of either participant, both wagers
/// go back to the participants. The instruction aborts where twice the wager
/// does not fit in 64 bits; those inputs are left out.
pub fn timeout(
    bet: &mut BetInfo,
    slot: u64,
    participant1_signed: bool,
    participant2_signed: bool,
    bet_lamports: u64,
    participant1_lamports: u64,
    participant2_lamports: u64,
) -> (r: Result<Refund, BetError>)
    requires
        timeout_allowed(*old(bet), slot, participant1_signed, participant2_signed) ==> old(bet).wager * 2
            <= u64::MAX,
    ensures
        applied_with(
            r,
            *old(bet),
            *final(bet),
            timeout_result(
                *old(bet),
                slot,
                participant1_signed,
                participant2_signed,
                bet_lamports,
                participant1_lamports,
                participant2_lamports,
            ),
        ),
{
    if !(participant1_signed || participant2_signed) {
        return Err(BetError::MissingRequiredSignatures);
    }
    if !(bet.state == BetState::Active) {
        return Err(BetError::BetAlreadyResolved);
    }
    if !(slot > bet.deadline) {
        return Err(BetError::DeadlineNotReached);
    }
    let refund_amount = bet.wager;
    let total_refund = refund_amount * 2;
    if !(bet_lamports >= total_refund) {
        return Err(BetError::InsufficientFunds);
    }
    if participant1_lamports.checked_add(refund_amount).is_none() {
        return Err(BetError::TransferFailed);
    }
    if participant2_lamports.checked_add(refund_amount).is_none() {
        return Err(BetError::TransferFailed);
    }
    bet.state = BetState::Resolved;
    Ok(Refund { to_participant1: refund_amount, to_participant2: refund_amount })
}

/// Law: the deadline separates the decision from the refund, a resolved bet
/// stays resolved, and no payout exceeds the bet's balance.
pub proof fn lemma_settlement(
    bet: BetInfo,
    oracle: Pubkey,
    oracle_signed: bool,
    winner: Pubkey,
    slot: u64,
    bet_lamports: u64,
    winner_lamports: u64,
    participant1_signed: bool,
    participant2_signed: bool,
    participant1_lamports: u64,
    participant2_lamports: u64,
)
    ensures
        !(win_result(bet, oracle, oracle_signed, winner, slot, bet_lamports, winner_lamports) is Ok
            && timeout_result(
            bet,
            slot,
            participant1_signed,
            participant2_signed,
            bet_lamports,
            participant1_lamports,
            participant2_lamports,
        ) is Ok),
        bet.state == BetState::Resolved ==> win_result(
            bet,
            oracle,
            oracle_signed,
            winner,
            slot,
            bet_lamports,
            winner_lamports,
        ) is Err,
        win_result(bet, oracle, oracle_signed, winner, slot, bet_lamports, winner_lamports) matches Ok((b, p))
            ==> b.state == BetState::Resolved && p.amount <= bet_lamports,
        timeout_result(
            bet,
            slot,
            participant1_signed,
            participant2_signed,
            bet_lamports,
            participant1_lamports,
            participant2_lamports,
        ) matches Ok((b, r)) ==> b.state == BetState::Resolved && r.to_participant1 + r.to_participant2
            <= bet_lamports,
{
}

/// Law: each payment goes where it should. A successful decision pays the
/// declared winner, `winner`, and nobody else, the full pot; a successful
/// refund pays each participant its own share.
pub proof fn lemma_payments_go_where_they_should(
    bet: BetInfo,
    oracle: Pubkey,
    oracle_signed: bool,
    winner: Pubkey,
    slot: u64,
    bet_lamports: u64,
    winner_lamports: u64,
    participant1_signed: bool,
    participant2_signed: bool,
    participant1_lamports: u64,
    participant2_lamports: u64,
)
    ensures
        win_result(bet, oracle, oracle_signed, winner, slot, bet_lamports, winner_lamports) matches Ok((_, p)) ==> p.to == winner && p.amount == bet.wager * 2,
        timeout_result(bet, slot, participant1_signed, participant2_signed, bet_lamports, participant1_lamports, participant2_lamports) matches Ok((_, r)) ==> r.to_participant1 == bet.wager && r.to_participant2 == bet.wager,
{
}

} // verus!
