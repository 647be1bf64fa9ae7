//! Bet in which two participants each stake `wager` (positive, and covered
//! by their balances); until the deadline slot the designated oracle may pay
//! both wagers to one of them, reading and writing the bet's account as raw
//! bytes in the layout of its fields (three keys, two little-endian numbers,
//! a state byte and a bump byte, 114 bytes in all); after the deadline, on a
//! participant's signature, both wagers are refunded.
use vstd::prelude::*;
use crate::common::{Pubkey, same_key, applied_with, le_value, read_key, read_u64_le};
use crate::bet::model::{Wagers, Payment, Refund, one_of, is_one_of};

verus! {

#[derive(Clone, Copy, Debug, PartialEq, Eq, Structural)]
pub enum BetState {
    Active,
    Resolved,
}

/// The bet's account.
#[derive(Clone, Copy, Debug, PartialEq, Eq)]
pub struct BetInfo {
    pub participant1: Pubkey,
    pub participant2: Pubkey,
    pub oracle: Pubkey,
    pub wager: u64,
    pub deadline: u64,
    pub state: BetState,
    pub bump: u8,
}

impl BetInfo {
    /// Bytes of the bet's fields: three keys, two numbers, the state and the
    /// bump.
    pub const LEN: usize = 32 * 3 + 8 * 2 + 1 + 1;
}

#[derive(Clone, Copy, Debug, PartialEq, Eq, Structural)]
pub enum BetError {
    InvalidWager,
    InsufficientFunds,
    ArithmeticOverflow,
    AlreadyResolved,
    UnauthorizedOracle,
    UnauthorizedParticipant,
    DeadlineNotReached,
    DeadlinePassed,
    InvalidWinner,
    InvalidBetAccount,
    /// The framework's refusal of a participant account other than the
    /// stored participant in its place, checked with the accounts before the
    /// instruction runs.
    ConstraintHasOne,
}

/// The checks of `join` that come before the deadline is computed.
pub open spec fn join_check(wager: u64, participant1_lamports: u64, participant2_lamports: u64) -> Result<
    (),
    BetError,
> {
    if !(wager > 0) {
        Err(BetError::InvalidWager)
    } else if !(participant1_lamports >= wager) || !(participant2_lamports >= wager) {
        Err(BetError::InsufficientFunds)
    } else {
        Ok(())
    }
}

/// Outcome of two participants, holding the given balances, joining at slot
/// `slot`, at the address with bump `bump`.
pub open spec fn join_result(
    participant1: Pubkey,
    participant2: Pubkey,
    oracle: Pubkey,
    delay: u64,
    wager: u64,
    slot: u64,
    bump: u8,
    participant1_lamports: u64,
    participant2_lamports: u64,
) -> Result<(BetInfo, Wagers), BetError> {
    match join_check(wager, participant1_lamports, participant2_lamports) {
        Err(e) => Err(e),
        Ok(_) => Ok(
            (
                BetInfo {
                    participant1,
                    participant2,
                    oracle,
                    wager,
                    deadline: (slot + delay) as u64,
                    state: BetState::Active,
                    bump,
                },
                Wagers { from_participant1: wager, from_participant2: wager },
            ),
        ),
    }
}

/// Opens a bet between `participant1` and `participant2`, settled by
/// `oracle`, at slot `slot`: the deadline `slot + delay`, and `wager` paid in
/// by each participant. The instruction aborts where the deadline does not fit
/// in 64 bits; those inputs are left out.
pub fn join(
    participant1: Pubkey,
    participant2: Pubkey,
    oracle: Pubkey,
    delay: u64,
    wager: u64,
    slot: u64,
    bump: u8,
    participant1_lamports: u64,
    participant2_lamports: u64,
) -> (r: Result<(BetInfo, Wagers), BetError>)
    requires
        join_check(wager, participant1_lamports, participant2_lamports) is Ok ==> slot + delay <= u64::MAX,
    ensures
        r == join_result(
            participant1,
            participant2,
            oracle,
            delay,
            wager,
            slot,
            bump,
            participant1_lamports,
            participant2_lamports,
        ),
{
    if !(wager > 0) {
        return Err(BetError::InvalidWager);
    }
    if !(participant1_lamports >= wager) {
        return Err(BetError::InsufficientFunds);
    }
    if !(participant2_lamports >= wager) {
        return Err(BetError::InsufficientFunds);
    }
    let bet = BetInfo {
        participant1,
        participant2,
        oracle,
        wager,
        deadline: slot + delay,
        state: BetState::Active,
        bump,
    };
    Ok((bet, Wagers { from_participant1: wager, from_participant2: wager }))
}

/// The bytes read as a bet: exactly 114 of them, with a state byte of 0
/// (active) or 1 (resolved).
pub open spec fn well_encoded(data: Seq<u8>) -> bool {
    data.len() == 114 && data[112] <= 1
}

/// The bet whose fields the bytes `data` hold.
pub open spec fn decodes_to(data: Seq<u8>, b: BetInfo) -> bool {
    &&& well_encoded(data)
    &&& b.participant1.bytes@ == data.subrange(0, 32)
    &&& b.participant2.bytes@ == data.subrange(32, 64)
    &&& b.oracle.bytes@ == data.subrange(64, 96)
    &&& b.wager == le_value(data.subrange(96, 104))
    &&& b.deadline == le_value(data.subrange(104, 112))
    &&& (b.state == BetState::Active <==> data[112] == 0)
    &&& b.bump == data[113]
}

/// Reads a bet from its bytes: `None` unless they are well encoded.
pub fn decode_bet_info(data: &Vec<u8>) -> (r: Option<BetInfo>)
    ensures
        r is Some <==> well_encoded(data@),
        r matches Some(b) ==> decodes_to(data@, b),
{
    if data.len() != 114 {
        return None;
    }
    let tag = data[112];
    if tag > 1 {
        return None;
    }
    let state = if tag == 0 {
        BetState::Active
    } else {
        BetState::Resolved
    };
    Some(
        BetInfo {
            participant1: read_key(data, 0),
            participant2: read_key(data, 32),
            oracle: read_key(data, 64),
            wager: read_u64_le(data, 96),
            deadline: read_u64_le(data, 104),
            state,
            bump: data[113],
        },
    )
}

/// The number held in eight bytes of the bet's data.
pub open spec fn field_u64(data: Seq<u8>, offset: int) -> int {
    le_value(data.subrange(offset, offset + 8)) as int
}

/// Outcome of the signer `oracle` declaring `winner` at slot `slot` on the
/// bet whose account bytes are `data`: the bytes after, and the payment.
pub open spec fn win_result(data: Seq<u8>, oracle: Pubkey, winner: Pubkey, slot: u64) -> Result<
    (Seq<u8>, Payment),
    BetError,
> {
    if !well_encoded(data) {
        Err(BetError::InvalidBetAccount)
    } else if data[112] != 0 {
        Err(BetError::AlreadyResolved)
    } else if oracle.bytes@ != data.subrange(64, 96) {
        Err(BetError::UnauthorizedOracle)
    } else if !(slot <= field_u64(data, 104)) {
        Err(BetError::DeadlinePassed)
    } else if winner.bytes@ != data.subrange(0, 32) && winner.bytes@ != data.subrange(32, 64) {
        Err(BetError::InvalidWinner)
    } else if field_u64(data, 96) * 2 > u64::MAX {
        Err(BetError::ArithmeticOverflow)
    } else {
        Ok((data.update(112, 1), Payment { to: winner, amount: (field_u64(data, 96) * 2) as u64 }))
    }
}

/// The oracle (the signer `oracle`) pays both wagers to `winner`, one of the
/// participants, by the deadline, on the bet's account bytes `data`, whose
/// state byte then records the bet as resolved. Bytes that do not hold a bet
/// in the fields' layout (such as an account that begins with a type tag)
/// are refused.
pub fn win(data: &mut Vec<u8>, oracle: Pubkey, winner: Pubkey, slot: u64) -> (r: Result<Payment, BetError>)
    ensures
        applied_with(r, old(data)@, final(data)@, win_result(old(data)@, oracle, winner, slot)),
{
    let bet_data = match decode_bet_info(data) {
        Some(b) => b,
        None => return Err(BetError::InvalidBetAccount),
    };
    if !(bet_data.state == BetState::Active) {
        return Err(BetError::AlreadyResolved);
    }
    if !oracle.key_eq(&bet_data.oracle) {
        return Err(BetError::UnauthorizedOracle);
    }
    if !(slot <= bet_data.deadline) {
        return Err(BetError::DeadlinePassed);
    }
    if !is_one_of(&winner, &bet_data.participant1, &bet_data.participant2) {
        return Err(BetError::InvalidWinner);
    }
    let pot = match bet_data.wager.checked_mul(2) {
        Some(v) => v,
        None => return Err(BetError::ArithmeticOverflow),
    };
    data.set(112, 1u8);
    Ok(Payment { to: winner, amount: pot })
}

/// Outcome of a timeout at slot `slot`, with the signatures of the two
/// participants.
pub open spec fn timeout_result(
    bet: BetInfo,
    participant1: Pubkey,
    participant2: Pubkey,
    slot: u64,
    participant1_signed: bool,
    participant2_signed: bool,
) -> Result<(BetInfo, Refund), BetError> {
    if !(same_key(participant1, bet.participant1) && same_key(participant2, bet.participant2)) {
        Err(BetError::ConstraintHasOne)
    } else if bet.state != BetState::Active {
        Err(BetError::AlreadyResolved)
    } else if !(slot > bet.deadline) {
        Err(BetError::DeadlineNotReached)
    } else if !(participant1_signed || participant2_signed) {
        Err(BetError::UnauthorizedParticipant)
    } else {
        Ok(
            (
                BetInfo { state: BetState::Resolved, ..bet },
                Refund { to_participant1: bet.wager, to_participant2: bet.wager },
            ),
        )
    }
}

/// After the deadline, on the signature of either participant, both wagers
/// go back to the participants.
/// The two accounts given, `participant1` and `participant2`, must be the
/// bet's participants, each in its place.
pub fn timeout(bet: &mut BetInfo, participant1: Pubkey, participant2: Pubkey, slot: u64, participant1_signed: bool, participant2_signed: bool) -> (r: Result<
    Refund,
    BetError,
>)
    ensures
        applied_with(
            r,
            *old(bet),
            *final(bet),
            timeout_result(*old(bet), participant1, participant2, slot, participant1_signed, participant2_signed),
        ),
{
    if !(participant1.key_eq(&bet.participant1) && participant2.key_eq(&bet.participant2)) {
        return Err(BetError::ConstraintHasOne);
    }
    if !(bet.state == BetState::Active) {
        return Err(BetError::AlreadyResolved);
    }
    if !(slot > bet.deadline) {
        return Err(BetError::DeadlineNotReached);
    }
    if !(participant1_signed || participant2_signed) {
        return Err(BetError::UnauthorizedParticipant);
    }
    let wager = bet.wager;
    bet.state = BetState::Resolved;
    Ok(Refund { to_participant1: wager, to_participant2: wager })
}

/// Law: the oracle's decision and the refund are never both open for one
/// bet (read from its bytes) at one slot, and each leaves it resolved.
pub proof fn lemma_settlement(
    data: Seq<u8>,
    bet: BetInfo,
    oracle: Pubkey,
    winner: Pubkey,
    slot: u64,
    participant1_signed: bool,
    participant2_signed: bool,
    refunded1: Pubkey,
    refunded2: Pubkey,
)
    requires
        decodes_to(data, bet),
    ensures
        !(win_result(data, oracle, winner, slot) is Ok && timeout_result(
            bet, refunded1, refunded2,
            slot,
            participant1_signed,
            participant2_signed,
        ) is Ok),
        win_result(data, oracle, winner, slot) matches Ok((after, p)) ==> decodes_to(
            after,
            BetInfo { state: BetState::Resolved, ..bet },
        ) && p.amount == bet.wager * 2 && one_of(p.to, bet.participant1, bet.participant2),
        timeout_result(bet, refunded1, refunded2, slot, participant1_signed, participant2_signed) matches Ok((b, _)) ==> b.state
            == BetState::Resolved,
{
    if win_result(data, oracle, winner, slot) is Ok {
        let after = data.update(112, 1);
        assert(after.subrange(0, 32) =~= data.subrange(0, 32));
        assert(after.subrange(32, 64) =~= data.subrange(32, 64));
        assert(after.subrange(64, 96) =~= data.subrange(64, 96));
        assert(after.subrange(96, 104) =~= data.subrange(96, 104));
        assert(after.subrange(104, 112) =~= data.subrange(104, 112));
    }
}

/// Checks the accounts given as the two participants to the oracle's
/// decision, as the decision checks them with its accounts before the
/// instruction runs: they must be the stored participants, each in its place.
pub fn check_participants(bet: &BetInfo, participant1: &Pubkey, participant2: &Pubkey) -> (r: Result<(), BetError>)
    ensures
        same_key(*participant1, bet.participant1) && same_key(*participant2, bet.participant2) ==> r is Ok,
        !(same_key(*participant1, bet.participant1) && same_key(*participant2, bet.participant2)) ==> r
            == Err::<(), BetError>(BetError::ConstraintHasOne),
{
    if !(participant1.key_eq(&bet.participant1) && participant2.key_eq(&bet.participant2)) {
        return Err(BetError::ConstraintHasOne);
    }
    Ok(())
}

/// Law: each payment goes where it should. A successful decision pays the
/// declared winner, `winner`, and nobody else, the full pot; a successful
/// refund pays each participant its own share.
pub proof fn lemma_payments_go_where_they_should(
    data: Seq<u8>,
    oracle: Pubkey,
    winner: Pubkey,
    slot: u64,
    bet: BetInfo,
    participant1: Pubkey,
    participant2: Pubkey,
    participant1_signed: bool,
    participant2_signed: bool,
)
    ensures
        win_result(data, oracle, winner, slot) matches Ok((_, p)) ==> p.to == winner && p.amount == field_u64(data, 96) * 2,
        timeout_result(bet, participant1, participant2, slot, participant1_signed, participant2_signed) matches Ok((_, r)) ==> r.to_participant1 == bet.wager && r.to_participant2 == bet.wager,
{
}

} // verus!
