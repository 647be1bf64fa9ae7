//! Bet in which two participants each stake `wager` (positive), stored with
//! the smaller key first; on the stored oracle's word the winner, one of the
//! two accounts the bet's address comes from, gets both wagers, and once the
//! deadline slot has passed the bet's whole balance is split between the
//! participants.
use vstd::prelude::*;
use crate::common::{Pubkey, same_key};
use crate::bet::model::{Wagers, Payment, Refund, one_of, is_one_of, key_before, key_less};

verus! {

/// The bet's account; `participant1` holds the smaller of the two keys.
#[derive(Clone, Copy, Debug, PartialEq, Eq)]
pub struct BetInfo {
    pub participant1: Pubkey,
    pub participant2: Pubkey,
    pub oracle: Pubkey,
    pub wager: u64,
    pub deadline: u64,
    pub bump: u8,
}

impl BetInfo {
    /// Bytes of the bet's account: discriminator, three keys, two numbers
    /// and the bump.
    pub const LEN: usize = 8 + 32 + 32 + 32 + 8 + 8 + 1;
}

#[derive(Clone, Copy, Debug, PartialEq, Eq, Structural)]
pub enum BetError {
    InvalidWager,
    DeadlineNotPassed,
    InvalidWinner,
    /// The framework's refusal of an oracle account other than the stored
    /// oracle, checked with the accounts before the instruction runs.
    ConstraintHasOne,
}

/// The two keys in byte-wise order, the smaller first.
pub open spec fn ordered(a: Pubkey, b: Pubkey) -> (Pubkey, Pubkey) {
    if key_before(a.bytes@, b.bytes@) {
        (a, b)
    } else {
        (b, a)
    }
}

/// Outcome of `participant1` and `participant2` joining at slot `slot`, at
/// the address with bump `bump`.
pub open spec fn join_result(
    participant1: Pubkey,
    participant2: Pubkey,
    oracle: Pubkey,
    delay: u64,
    wager: u64,
    slot: u64,
    bump: u8,
) -> Result<(BetInfo, Wagers), BetError> {
    if !(wager > 0) {
        Err(BetError::InvalidWager)
    } else {
        Ok(
            (
                BetInfo {
                    participant1: ordered(participant1, participant2).0,
                    participant2: ordered(participant1, participant2).1,
                    oracle,
                    wager,
                    deadline: (slot + delay) as u64,
                    bump,
                },
                Wagers { from_participant1: wager, from_participant2: wager },
            ),
        )
    }
}

/// Opens the bet at slot `slot`, with deadline `slot + delay`; each
/// participant pays in `wager`. The instruction aborts where the deadline does
/// not fit in 64 bits; those inputs are left out.
pub fn join(
    participant1: Pubkey,
    participant2: Pubkey,
    oracle: Pubkey,
    delay: u64,
    wager: u64,
    slot: u64,
    bump: u8,
) -> (r: Result<(BetInfo, Wagers), BetError>)
    requires
        wager > 0 ==> slot + delay <= u64::MAX,
    ensures
        r == join_result(participant1, participant2, oracle, delay, wager, slot, bump),
{
    if !(wager > 0) {
        return Err(BetError::InvalidWager);
    }
    let (smaller, larger) = if key_less(&participant1, &participant2) {
        (participant1, participant2)
    } else {
        (participant2, participant1)
    };
    let bet = BetInfo {
        participant1: smaller,
        participant2: larger,
        oracle,
        wager,
        deadline: slot + delay,
        bump,
    };
    Ok((bet, Wagers { from_participant1: wager, from_participant2: wager }))
}

/// Outcome of the signer `oracle` declaring `winner`, where the bet's address
/// was derived from the accounts `participant1` and `participant2`.
pub open spec fn win_result(
    bet: BetInfo,
    oracle: Pubkey,
    winner: Pubkey,
    participant1: Pubkey,
    participant2: Pubkey,
) -> Result<Payment, BetError> {
    if !same_key(oracle, bet.oracle) {
        Err(BetError::ConstraintHasOne)
    } else if !one_of(winner, participant1, participant2) {
        Err(BetError::InvalidWinner)
    } else {
        Ok(Payment { to: winner, amount: (bet.wager * 2) as u64 })
    }
}

/// The stored oracle (the signer `oracle`, checked before anything else)
/// pays both wagers to `winner`, one of the two participants. The instruction
/// aborts where twice the wager does not fit in 64 bits; those inputs are
/// left out.
pub fn win(bet: &BetInfo, oracle: Pubkey, winner: Pubkey, participant1: Pubkey, participant2: Pubkey) -> (r:
    Result<Payment, BetError>)
    requires
        win_result(*bet, oracle, winner, participant1, participant2) is Ok ==> bet.wager * 2 <= u64::MAX,
    ensures
        r == win_result(*bet, oracle, winner, participant1, participant2),
{
    if !oracle.key_eq(&bet.oracle) {
        return Err(BetError::ConstraintHasOne);
    }
    if !is_one_of(&winner, &participant1, &participant2) {
        return Err(BetError::InvalidWinner);
    }
    Ok(Payment { to: winner, amount: bet.wager * 2 })
}

/// Outcome of a timeout at slot `slot` with `bet_lamports` in the bet's
/// account: half of the balance (rounded down) to the first participant, the
/// rest to the second.
pub open spec fn timeout_result(bet: BetInfo, slot: u64, bet_lamports: u64) -> Result<Refund, BetError> {
    if !(slot > bet.deadline) {
        Err(BetError::DeadlineNotPassed)
    } else {
        Ok(
            Refund {
                to_participant1: bet_lamports / 2,
                to_participant2: (bet_lamports - bet_lamports / 2) as u64,
            },
        )
    }
}

/// Once the deadline slot has passed, the bet's whole balance goes back to
/// the participants, half each, the odd lamport to the second.
pub fn timeout(bet: &BetInfo, slot: u64, bet_lamports: u64) -> (r: Result<Refund, BetError>)
    ensures
        r == timeout_result(*bet, slot, bet_lamports),
{
    if !(slot > bet.deadline) {
        return Err(BetError::DeadlineNotPassed);
    }
    let refund = bet_lamports / 2;
    Ok(Refund { to_participant1: refund, to_participant2: bet_lamports - refund })
}

/// Law: a joined bet stores its two participants in byte-wise order, and
/// they are the two that joined.
pub proof fn lemma_participants_ordered(
    participant1: Pubkey,
    participant2: Pubkey,
    oracle: Pubkey,
    delay: u64,
    wager: u64,
    slot: u64,
    bump: u8,
)
    ensures
        join_result(participant1, participant2, oracle, delay, wager, slot, bump) matches Ok((bet, _)) ==> {
            &&& !key_before(bet.participant2.bytes@, bet.participant1.bytes@)
            &&& (bet.participant1, bet.participant2) == (participant1, participant2) || (
            bet.participant1,
            bet.participant2,
        ) == (participant2, participant1)
        },
{
    let a = participant1.bytes@;
    let b = participant2.bytes@;
    if key_before(a, b) && key_before(b, a) {
        let i = choose|i: int|
            0 <= i < a.len() && i < b.len() && a[i] < b[i] && (forall|j: int| 0 <= j < i ==> a[j] == b[j]);
        let k = choose|k: int|
            0 <= k < b.len() && k < a.len() && b[k] < a[k] && (forall|j: int| 0 <= j < k ==> b[j] == a[j]);
        if i < k {
            assert(b[i] == a[i]);
        } else if k < i {
            assert(a[k] == b[k]);
        }
    }
}

/// Law: the refund hands out the bet's whole balance, nothing more or less.
pub proof fn lemma_refund_is_whole_balance(bet: BetInfo, slot: u64, bet_lamports: u64)
    ensures
        timeout_result(bet, slot, bet_lamports) matches Ok(r) ==> r.to_participant1 + r.to_participant2
            == bet_lamports,
{
}

/// Law: the winner's payment is both wagers paid in on joining.
pub proof fn lemma_payment_matches_wagers(
    participant1: Pubkey,
    participant2: Pubkey,
    oracle: Pubkey,
    delay: u64,
    wager: u64,
    slot: u64,
    bump: u8,
    winner: Pubkey,
)
    ensures
        join_result(participant1, participant2, oracle, delay, wager, slot, bump) matches Ok((bet, w)) ==> (
        win_result(bet, oracle, winner, participant1, participant2) matches Ok(p) ==> (bet.wager * 2 <= u64::MAX
            ==> p.amount == w.from_participant1 + w.from_participant2)),
{
}

/// Law: each payment goes where it should. A successful decision pays the
/// declared winner, `winner`, and nobody else, the full pot; a successful
/// refund pays each participant its own share.
pub proof fn lemma_payments_go_where_they_should(
    bet: BetInfo,
    oracle: Pubkey,
    winner: Pubkey,
    participant1: Pubkey,
    participant2: Pubkey,
    slot: u64,
    bet_lamports: u64,
)
    ensures
        win_result(bet, oracle, winner, participant1, participant2) matches Ok(p) ==> p.to == winner && (bet.wager * 2 <= u64::MAX ==> p.amount == bet.wager * 2),
        timeout_result(bet, slot, bet_lamports) matches Ok(r) ==> r.to_participant1 == bet_lamports / 2 && r.to_participant2 == bet_lamports - bet_lamports / 2,
{
}

} // verus!
