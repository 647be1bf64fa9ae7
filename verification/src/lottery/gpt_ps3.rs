//! Lottery in which both players bet the same amount and commit to the
//! Keccak-256 digests of their secrets; player1 then player2 reveal (no
//! deadline), and player2's reveal pays the lottery's balance to the winner,
//! checked against the account given for it; the winner rule is the parity
//! of the exclusive-or of the secrets' first bytes. Ten seconds after joining, player2 may take the balance instead.
use vstd::prelude::*;
use crate::common::{Pubkey, same_key, applied, applied_with, bytes32_eq};
use crate::lottery::model::{Player, Stakes, utf8_bytes, opens, commitment_matches, secrets_fit, check_secrets_fit};

verus! {

#[derive(Clone, Copy, Debug, PartialEq, Eq, Structural)]
pub enum LotteryState {
    Waiting,
    RevealP1,
    RevealP2,
    Finished,
}

/// The lottery's account.
#[derive(Debug)]
pub struct Lottery {
    pub player1: Pubkey,
    pub player2: Pubkey,
    pub bet_amount: u64,
    pub commitment1: [u8; 32],
    pub commitment2: [u8; 32],
    pub secret1: Vec<u8>,
    pub secret2: Vec<u8>,
    pub state: LotteryState,
    pub reveal_deadline: i64,
}

/// The lottery's account as values.
pub struct LotteryView {
    pub player1: Pubkey,
    pub player2: Pubkey,
    pub bet_amount: u64,
    pub commitment1: Seq<u8>,
    pub commitment2: Seq<u8>,
    pub secret1: Seq<u8>,
    pub secret2: Seq<u8>,
    pub state: LotteryState,
    pub reveal_deadline: i64,
}

impl View for Lottery {
    type V = LotteryView;

    open spec fn view(&self) -> LotteryView {
        LotteryView {
            player1: self.player1,
            player2: self.player2,
            bet_amount: self.bet_amount,
            commitment1: self.commitment1@,
            commitment2: self.commitment2@,
            secret1: self.secret1@,
            secret2: self.secret2@,
            state: self.state,
            reveal_deadline: self.reveal_deadline,
        }
    }
}

impl Lottery {
    /// Bytes of the lottery's data: two keys, the bet, two commitments, room
    /// for two 64-byte secrets, the state and the deadline.
    pub const SIZE: usize = 32 + 32 + 8 + 32 + 32 + 64 + 64 + 1 + 8;
}

#[derive(Clone, Copy, Debug, PartialEq, Eq, Structural)]
pub enum LotteryError {
    UnequalBets,
    InvalidReveal,
    TooEarly,
    InvalidState,
    /// The account given to receive the pot is not the winner's.
    InvalidWinner,
    /// The framework's refusal to write the account back when the secrets on
    /// record no longer fit in its space; nothing the instruction did takes
    /// effect.
    AccountDidNotSerialize,
}

/// Bytes that the lottery's account keeps for the two secrets together: its
/// space less the fixed fields and the two length prefixes.
pub const SECRET_SPACE: usize = 120;

/// The end of a reveal: the lottery's balance `pot` leaves it for the
/// winner, `rule_winner`, the player the winner rule names.
#[derive(Clone, Copy, Debug, PartialEq, Eq, Structural)]
pub struct Settlement {
    pub rule_winner: Player,
    pub pot: u64,
}

/// Outcome of two players joining at unix time `now` with their bets.
pub open spec fn join_result(
    player1: Pubkey,
    player2: Pubkey,
    bet_amount_p1: u64,
    player1_commitment: Seq<u8>,
    bet_amount_p2: u64,
    player2_commitment: Seq<u8>,
    now: i64,
) -> Result<(LotteryView, Stakes), LotteryError> {
    if bet_amount_p1 != bet_amount_p2 {
        Err(LotteryError::UnequalBets)
    } else {
        Ok(
            (
                LotteryView {
                    player1,
                    player2,
                    bet_amount: bet_amount_p1,
                    commitment1: player1_commitment,
                    commitment2: player2_commitment,
                    secret1: Seq::empty(),
                    secret2: Seq::empty(),
                    state: LotteryState::RevealP1,
                    reveal_deadline: (now + 10) as i64,
                },
                Stakes { from_player1: bet_amount_p1, from_player2: bet_amount_p2 },
            ),
        )
    }
}

/// Opens a lottery between `player1` and `player2` at unix time `now`, with
/// equal bets (each player pays its bet in) and the two commitments; the
/// deadline is `now + 10`. The instruction aborts where that does not fit in 64
/// bits; those inputs are left out.
pub fn join(
    player1: Pubkey,
    player2: Pubkey,
    bet_amount_p1: u64,
    player1_commitment: [u8; 32],
    bet_amount_p2: u64,
    player2_commitment: [u8; 32],
    now: i64,
) -> (r: Result<(Lottery, Stakes), LotteryError>)
    requires
        bet_amount_p1 == bet_amount_p2 ==> now + 10 <= i64::MAX,
    ensures
        match join_result(
            player1,
            player2,
            bet_amount_p1,
            player1_commitment@,
            bet_amount_p2,
            player2_commitment@,
            now,
        ) {
            Ok((v, s)) => r matches Ok(out) && out.0@ == v && out.1 == s,
            Err(e) => r == Err::<(Lottery, Stakes), LotteryError>(e),
        },
{
    if !(bet_amount_p1 == bet_amount_p2) {
        return Err(LotteryError::UnequalBets);
    }
    let lottery = Lottery {
        player1,
        player2,
        bet_amount: bet_amount_p1,
        commitment1: player1_commitment,
        commitment2: player2_commitment,
        secret1: Vec::new(),
        secret2: Vec::new(),
        state: LotteryState::RevealP1,
        reveal_deadline: now + 10,
    };
    Ok((lottery, Stakes { from_player1: bet_amount_p1, from_player2: bet_amount_p2 }))
}

/// The bytes of a string, as a vector.
fn string_bytes(s: String) -> (v: Vec<u8>)
    ensures
        v@ == utf8_bytes(s@),
{
    let bytes = s.as_str().as_bytes();
    let mut v: Vec<u8> = Vec::new();
    let mut i: usize = 0;
    while i < bytes.len()
        invariant
            0 <= i <= bytes.len(),
            bytes@ == utf8_bytes(s@),
            v@ == bytes@.subrange(0, i as int),
        decreases bytes.len() - i,
    {
        v.push(bytes[i]);
        i = i + 1;
    }
    assert(v@ =~= bytes@);
    v
}

/// Outcome of player1 revealing `secret`.
pub open spec fn reveal_p1_result(l: LotteryView, secret: Seq<char>) -> Result<LotteryView, LotteryError> {
    if l.state != LotteryState::RevealP1 {
        Err(LotteryError::InvalidState)
    } else if !opens(secret, l.commitment1) {
        Err(LotteryError::InvalidReveal)
    } else if !secrets_fit(utf8_bytes(secret).len() as int, l.secret2.len() as int, SECRET_SPACE as int) {
        Err(LotteryError::AccountDidNotSerialize)
    } else {
        Ok(LotteryView { secret1: utf8_bytes(secret), state: LotteryState::RevealP2, ..l })
    }
}

/// Player1 reveals `secret`, which must open the first commitment; its bytes
/// are kept. Refused, after every other check, when the two secrets on record
/// would take more than `SECRET_SPACE` bytes together.
pub fn reveal_p1(lottery: &mut Lottery, secret: String) -> (r: Result<(), LotteryError>)
    ensures
        applied(r, old(lottery)@, final(lottery)@, reveal_p1_result(old(lottery)@, secret@)),
{
    if !(lottery.state == LotteryState::RevealP1) {
        return Err(LotteryError::InvalidState);
    }
    if !commitment_matches(&secret, &lottery.commitment1) {
        return Err(LotteryError::InvalidReveal);
    }
    let bytes = string_bytes(secret);
    if !check_secrets_fit(bytes.len(), lottery.secret2.len(), SECRET_SPACE) {
        return Err(LotteryError::AccountDidNotSerialize);
    }
    lottery.secret1 = bytes;
    lottery.state = LotteryState::RevealP2;
    Ok(())
}

/// The winner rule: player1 when the exclusive-or of the two first bytes
/// is even, player2 when it is odd.
pub open spec fn xor_winner(first1: u8, first2: u8) -> Player {
    if (first1 ^ first2) % 2 == 0 {
        Player::Player1
    } else {
        Player::Player2
    }
}

/// The inputs on which the instruction aborts in player2's reveal: the reveal
/// passes its checks, but one of the two secrets is empty and has no first
/// byte.
pub open spec fn reveal_p2_aborts(l: LotteryView, secret: Seq<char>) -> bool {
    &&& l.state == LotteryState::RevealP2
    &&& opens(secret, l.commitment2)
    &&& (l.secret1.len() == 0 || utf8_bytes(secret).len() == 0)
}

/// The key of the given player.
pub open spec fn player_key(l: LotteryView, p: Player) -> Pubkey {
    match p {
        Player::Player1 => l.player1,
        Player::Player2 => l.player2,
    }
}

/// Outcome of player2 revealing `secret`, with the lottery's balance, to be
/// paid to the account `payee`.
pub open spec fn reveal_p2_result(l: LotteryView, secret: Seq<char>, payee: Pubkey, lottery_lamports: u64) -> Result<
    (LotteryView, Settlement),
    LotteryError,
> {
    if l.state != LotteryState::RevealP2 {
        Err(LotteryError::InvalidState)
    } else if !opens(secret, l.commitment2) {
        Err(LotteryError::InvalidReveal)
    } else {
        let w = xor_winner(l.secret1[0], utf8_bytes(secret)[0]);
        if !same_key(payee, player_key(l, w)) {
            Err(LotteryError::InvalidWinner)
        } else if !secrets_fit(l.secret1.len() as int, utf8_bytes(secret).len() as int, SECRET_SPACE as int) {
            Err(LotteryError::AccountDidNotSerialize)
        } else {
            Ok(
                (
                    LotteryView { secret2: utf8_bytes(secret), state: LotteryState::Finished, ..l },
                    Settlement { rule_winner: w, pot: lottery_lamports },
                ),
            )
        }
    }
}

/// Player2 reveals `secret`, which must open the second commitment; the
/// account `payee` must be the winner's; its bytes are kept, the lottery's
/// balance is paid out and the lottery is finished. The instruction aborts where a secret is empty (see
/// `reveal_p2_aborts`); those inputs are left out, and `checked_reveal_p2`
/// takes any input. Refused, after every other check, when the two secrets on
/// record would take more than `SECRET_SPACE` bytes together.
pub fn reveal_p2(lottery: &mut Lottery, secret: String, payee: Pubkey, lottery_lamports: u64) -> (r: Result<
    Settlement,
    LotteryError,
>)
    requires
        !reveal_p2_aborts(old(lottery)@, secret@),
    ensures
        applied_with(
            r,
            old(lottery)@,
            final(lottery)@,
            reveal_p2_result(old(lottery)@, secret@, payee, lottery_lamports),
        ),
{
    if !(lottery.state == LotteryState::RevealP2) {
        return Err(LotteryError::InvalidState);
    }
    if !commitment_matches(&secret, &lottery.commitment2) {
        return Err(LotteryError::InvalidReveal);
    }
    let secret2 = string_bytes(secret);
    let s1 = lottery.secret1[0];
    let s2 = secret2[0];
    let rule_winner = if (s1 ^ s2) % 2 == 0 {
        Player::Player1
    } else {
        Player::Player2
    };
    let winner_key = match rule_winner {
        Player::Player1 => &lottery.player1,
        Player::Player2 => &lottery.player2,
    };
    if !payee.key_eq(winner_key) {
        return Err(LotteryError::InvalidWinner);
    }
    if !check_secrets_fit(lottery.secret1.len(), secret2.len(), SECRET_SPACE) {
        return Err(LotteryError::AccountDidNotSerialize);
    }
    lottery.secret2 = secret2;
    lottery.state = LotteryState::Finished;
    Ok(Settlement { rule_winner, pot: lottery_lamports })
}

/// Player2's reveal on any input: `None` (and the lottery unchanged) where the
/// program would abort, else the outcome of `reveal_p2`.
pub fn checked_reveal_p2(lottery: &mut Lottery, secret: String, payee: Pubkey, lottery_lamports: u64) -> (r: Option<
    Result<Settlement, LotteryError>,
>)
    ensures
        reveal_p2_aborts(old(lottery)@, secret@) ==> r is None && final(lottery)@ == old(lottery)@,
        !reveal_p2_aborts(old(lottery)@, secret@) ==> (r matches Some(out) && applied_with(
            out,
            old(lottery)@,
            final(lottery)@,
            reveal_p2_result(old(lottery)@, secret@, payee, lottery_lamports),
        )),
{
    if lottery.state == LotteryState::RevealP2 && commitment_matches(&secret, &lottery.commitment2) {
        if lottery.secret1.len() == 0 || secret.as_str().as_bytes().len() == 0 {
            return None;
        }
    }
    Some(reveal_p2(lottery, secret, payee, lottery_lamports))
}

/// Outcome of player2 claiming the balance at unix time `now`.
pub open spec fn redeem_if_p1_no_reveal_result(l: LotteryView, now: i64, lottery_lamports: u64) -> Result<
    (LotteryView, u64),
    LotteryError,
> {
    if !(now > l.reveal_deadline) {
        Err(LotteryError::TooEarly)
    } else {
        Ok((LotteryView { state: LotteryState::Finished, ..l }, lottery_lamports))
    }
}

/// After the deadline, player2 takes the lottery's whole balance (returned)
/// and the lottery is finished. (The instruction checks neither the state nor
/// the reveals.)
pub fn redeem_if_p1_no_reveal(lottery: &mut Lottery, now: i64, lottery_lamports: u64) -> (r: Result<
    u64,
    LotteryError,
>)
    ensures
        applied_with(r, old(lottery)@, final(lottery)@, redeem_if_p1_no_reveal_result(old(lottery)@, now, lottery_lamports)),
{
    if !(now > lottery.reveal_deadline) {
        return Err(LotteryError::TooEarly);
    }
    lottery.state = LotteryState::Finished;
    Ok(lottery_lamports)
}

/// Law: each reveal is accepted only in its turn and with a secret that
/// opens the player's commitment; player1's reveal hands the turn to player2
/// and player2's finishes the lottery, paying only the winner's account.
pub proof fn lemma_reveals_in_turn(l: LotteryView, secret: Seq<char>, payee: Pubkey, lamports: u64)
    ensures
        reveal_p1_result(l, secret) matches Ok(n) ==> l.state == LotteryState::RevealP1 && opens(
            secret,
            l.commitment1,
        ) && n.state == LotteryState::RevealP2,
        reveal_p2_result(l, secret, payee, lamports) matches Ok((n, t)) ==> l.state == LotteryState::RevealP2
            && opens(secret, l.commitment2) && n.state == LotteryState::Finished && same_key(
            payee,
            player_key(l, t.rule_winner),
        ),
{
}

/// Law: player2's successful reveal keeps the secret's bytes and sends the
/// whole balance to the account of the player that the two first bytes name:
/// player1 when their exclusive-or is even, player2 when it is odd; no other
/// payee is accepted.
pub proof fn lemma_pot_goes_to_the_right_player(l: LotteryView, secret: Seq<char>, payee: Pubkey, lamports: u64)
    ensures
        reveal_p2_result(l, secret, payee, lamports) matches Ok((after, st)) ==> {
            &&& (st.rule_winner == Player::Player1 <==> (l.secret1[0] ^ utf8_bytes(secret)[0]) % 2 == 0)
            &&& st.rule_winner == Player::Player1 ==> same_key(payee, l.player1)
            &&& st.rule_winner == Player::Player2 ==> same_key(payee, l.player2)
            &&& st.pot == lamports
            &&& after.secret2 == utf8_bytes(secret) && after.secret1 == l.secret1
        },
{
}

} // verus!
