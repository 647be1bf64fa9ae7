//! Lottery in which both players stake `amount` and commit to the Keccak-256
//! digests of their secrets; player1 reveals by the deadline (unix time),
//! player2 after player1 and by the deadline plus 300 seconds.
//! The winner by the parity rule takes the lottery's whole balance; a player
//! who does not reveal in time forfeits it to the other. Every payout is
//! refused on an empty pot and on a recipient balance that would overflow.
use vstd::prelude::*;
use crate::common::{Pubkey, same_key, applied_with, bytes32_eq};
use crate::lottery::model::{Player, Payout, Stakes, utf8_bytes, byte_len, is_empty_string, opens,
    commitment_matches, parity_winner, winner_by_parity, secrets_fit, check_secrets_fit};

verus! {

/// Seconds that player2 has to reveal after the deadline.
pub const DEFAULT_EXTENSION: u64 = 300;

#[derive(Clone, Copy, Debug, PartialEq, Eq, Structural)]
pub enum LotteryState {
    Init,
    RevealP1,
    RevealP2,
}

/// The lottery's account.
#[derive(Debug)]
pub struct LotteryInfo {
    pub state: LotteryState,
    pub player1: Pubkey,
    pub player2: Pubkey,
    pub hashlock1: [u8; 32],
    pub secret1: String,
    pub hashlock2: [u8; 32],
    pub secret2: String,
    pub end_reveal: u64,
}

/// The lottery's account as values: byte strings and character strings.
pub struct LotteryView {
    pub state: LotteryState,
    pub player1: Pubkey,
    pub player2: Pubkey,
    pub hashlock1: Seq<u8>,
    pub secret1: Seq<char>,
    pub hashlock2: Seq<u8>,
    pub secret2: Seq<char>,
    pub end_reveal: u64,
}

impl View for LotteryInfo {
    type V = LotteryView;

    open spec fn view(&self) -> LotteryView {
        LotteryView {
            state: self.state,
            player1: self.player1,
            player2: self.player2,
            hashlock1: self.hashlock1@,
            secret1: self.secret1@,
            hashlock2: self.hashlock2@,
            secret2: self.secret2@,
            end_reveal: self.end_reveal,
        }
    }
}

impl LotteryInfo {
    /// The longest secret the account has room for, in bytes.
    pub const MAX_SECRET_LEN: usize = 64;

    /// Bytes of the lottery's account: discriminator, state, two keys, two
    /// commitments, two secrets of up to 64 bytes with their length prefixes,
    /// and the deadline.
    pub const LEN: usize = 8 + 1 + 32 + 32 + 32 + (4 + 64) + 32 + (4 + 64) + 8;
}

impl Default for LotteryState {
    fn default() -> (s: Self)
        ensures
            s == LotteryState::Init,
    {
        LotteryState::Init
    }
}

impl Default for LotteryInfo {
    fn default() -> (l: Self)
        ensures
            l.state == LotteryState::Init,
            l.player1.bytes@ == Seq::new(32, |i: int| 0u8),
            l.player2.bytes@ == Seq::new(32, |i: int| 0u8),
            l.hashlock1@ == Seq::new(32, |i: int| 0u8),
            l.secret1@ == Seq::<char>::empty(),
            l.hashlock2@ == Seq::new(32, |i: int| 0u8),
            l.secret2@ == Seq::<char>::empty(),
            l.end_reveal == 0,
    {
        LotteryInfo {
            state: LotteryState::Init,
            player1: Pubkey { bytes: [0u8; 32] },
            player2: Pubkey { bytes: [0u8; 32] },
            hashlock1: [0u8; 32],
            secret1: String::new(),
            hashlock2: [0u8; 32],
            secret2: String::new(),
            end_reveal: 0,
        }
    }
}

#[derive(Clone, Copy, Debug, PartialEq, Eq, Structural)]
pub enum LotteryError {
    IdenticalHashlocks,
    EndRevealInPast,
    DeadlineOverflow,
    InvalidSecret,
    InvalidStateForRevealP1,
    InvalidStateForRevealP2,
    RevealDeadlinePassed,
    RevealDeadlineNotPassed,
    Player1AlreadyRevealed,
    Player2AlreadyRevealed,
    NoPot,
    LamportOverflow,
    InvalidStateForRedeemIfP1NoReveal,
    InvalidStateForRedeemIfP2NoReveal,
    /// The framework's refusal to write the account back when the secrets on
    /// record no longer fit in its space; nothing the instruction did takes
    /// effect.
    AccountDidNotSerialize,
}

/// Bytes that the lottery's account keeps for the two secrets together: its
/// space less the fixed fields and the two length prefixes.
pub const SECRET_SPACE: usize = 128;

/// Outcome of two players joining at unix time `now`.
pub open spec fn join_result(
    player1: Pubkey,
    player2: Pubkey,
    hashlock1: Seq<u8>,
    hashlock2: Seq<u8>,
    delay: u64,
    amount: u64,
    now: i64,
) -> Result<(LotteryView, Stakes), LotteryError> {
    let start = now as u64;
    if hashlock1 == hashlock2 {
        Err(LotteryError::IdenticalHashlocks)
    } else if start + delay > u64::MAX {
        Err(LotteryError::DeadlineOverflow)
    } else if !(start + delay > start) {
        Err(LotteryError::EndRevealInPast)
    } else {
        Ok(
            (
                LotteryView {
                    state: LotteryState::Init,
                    player1,
                    player2,
                    hashlock1,
                    secret1: Seq::empty(),
                    hashlock2,
                    secret2: Seq::empty(),
                    end_reveal: (start + delay) as u64,
                },
                Stakes { from_player1: amount, from_player2: amount },
            ),
        )
    }
}

/// Opens a lottery between `player1` and `player2` at unix time `now`: the
/// two commitments, the deadline `now + delay`, and the stake `amount` that
/// each player pays in.
pub fn join(
    player1: Pubkey,
    player2: Pubkey,
    hashlock1: [u8; 32],
    hashlock2: [u8; 32],
    delay: u64,
    amount: u64,
    now: i64,
) -> (r: Result<(LotteryInfo, Stakes), LotteryError>)
    ensures
        match join_result(player1, player2, hashlock1@, hashlock2@, delay, amount, now) {
            Ok((v, s)) => r matches Ok(out) && out.0@ == v && out.1 == s,
            Err(e) => r == Err::<(LotteryInfo, Stakes), LotteryError>(e),
        },
{
    if bytes32_eq(&hashlock1, &hashlock2) {
        return Err(LotteryError::IdenticalHashlocks);
    }
    let start = now as u64;
    let end_reveal = match start.checked_add(delay) {
        Some(v) => v,
        None => return Err(LotteryError::DeadlineOverflow),
    };
    if !(end_reveal > start) {
        return Err(LotteryError::EndRevealInPast);
    }
    let info = LotteryInfo {
        state: LotteryState::Init,
        player1,
        player2,
        hashlock1,
        secret1: String::new(),
        hashlock2,
        secret2: String::new(),
        end_reveal,
    };
    Ok((info, Stakes { from_player1: amount, from_player2: amount }))
}

/// Outcome of player1 revealing `secret` at unix time `now`.
pub open spec fn reveal_p1_result(l: LotteryView, secret: Seq<char>, now: i64) -> Result<LotteryView, LotteryError> {
    if l.state != LotteryState::Init {
        Err(LotteryError::InvalidStateForRevealP1)
    } else if !((now as u64) <= l.end_reveal) {
        Err(LotteryError::RevealDeadlinePassed)
    } else if !opens(secret, l.hashlock1) {
        Err(LotteryError::InvalidSecret)
    } else if !secrets_fit(utf8_bytes(secret).len() as int, utf8_bytes(l.secret2).len() as int, SECRET_SPACE as int) {
        Err(LotteryError::AccountDidNotSerialize)
    } else {
        Ok(LotteryView { state: LotteryState::RevealP1, secret1: secret, ..l })
    }
}

/// Player1 reveals `secret`, which must open the first commitment, by the
/// deadline.
/// Refused, after every other check, when the two secrets on record would
/// take more than `SECRET_SPACE` bytes together.
pub fn reveal_p1(lottery: &mut LotteryInfo, secret: String, now: i64) -> (r: Result<(), LotteryError>)
    ensures
        crate::common::applied(r, old(lottery)@, final(lottery)@, reveal_p1_result(old(lottery)@, secret@, now)),
{
    if !(lottery.state == LotteryState::Init) {
        return Err(LotteryError::InvalidStateForRevealP1);
    }
    if !((now as u64) <= lottery.end_reveal) {
        return Err(LotteryError::RevealDeadlinePassed);
    }
    if !commitment_matches(&secret, &lottery.hashlock1) {
        return Err(LotteryError::InvalidSecret);
    }
    if !check_secrets_fit(byte_len(&secret), byte_len(&lottery.secret2), SECRET_SPACE) {
        return Err(LotteryError::AccountDidNotSerialize);
    }
    lottery.secret1 = secret;
    lottery.state = LotteryState::RevealP1;
    Ok(())
}

/// The check of a payout of the lottery's whole balance to a recipient
/// holding `recipient_lamports`: refused on an empty pot and on a balance that
/// would overflow.
pub open spec fn payout_check(to: Player, lottery_lamports: u64, recipient_lamports: u64) -> Result<
    Payout,
    LotteryError,
> {
    if !(lottery_lamports > 0) {
        Err(LotteryError::NoPot)
    } else if recipient_lamports + lottery_lamports > u64::MAX {
        Err(LotteryError::LamportOverflow)
    } else {
        Ok(Payout { to, amount: lottery_lamports })
    }
}

/// Pays the lottery's whole balance to a recipient holding
/// `recipient_lamports`.
fn pay_out(to: Player, lottery_lamports: u64, recipient_lamports: u64) -> (r: Result<Payout, LotteryError>)
    ensures
        r == payout_check(to, lottery_lamports, recipient_lamports),
{
    if !(lottery_lamports > 0) {
        return Err(LotteryError::NoPot);
    }
    match recipient_lamports.checked_add(lottery_lamports) {
        Some(_) => Ok(Payout { to, amount: lottery_lamports }),
        None => Err(LotteryError::LamportOverflow),
    }
}

/// The balance of the given player.
pub open spec fn balance_of(to: Player, player1_lamports: u64, player2_lamports: u64) -> u64 {
    match to {
        Player::Player1 => player1_lamports,
        Player::Player2 => player2_lamports,
    }
}

/// Outcome of player2 revealing `secret` at unix time `now`, given the
/// balances of the lottery and of the two players.
pub open spec fn reveal_p2_result(
    l: LotteryView,
    secret: Seq<char>,
    now: i64,
    lottery_lamports: u64,
    player1_lamports: u64,
    player2_lamports: u64,
) -> Result<(LotteryView, Payout), LotteryError> {
    let to = parity_winner(utf8_bytes(l.secret1).len() as int, utf8_bytes(secret).len() as int);
    if l.state != LotteryState::RevealP1 {
        Err(LotteryError::InvalidStateForRevealP2)
    } else if l.end_reveal + DEFAULT_EXTENSION > u64::MAX {
        Err(LotteryError::DeadlineOverflow)
    } else if !((now as u64) <= l.end_reveal + DEFAULT_EXTENSION) {
        Err(LotteryError::RevealDeadlinePassed)
    } else if !opens(secret, l.hashlock2) {
        Err(LotteryError::InvalidSecret)
    } else {
        match payout_check(to, lottery_lamports, balance_of(to, player1_lamports, player2_lamports)) {
            Err(e) => Err(e),
            Ok(p) => if !secrets_fit(utf8_bytes(l.secret1).len() as int, utf8_bytes(secret).len() as int, SECRET_SPACE as int) {
                Err(LotteryError::AccountDidNotSerialize)
            } else {
                Ok((LotteryView { state: LotteryState::RevealP2, secret2: secret, ..l }, p))
            },
        }
    }
}

/// Player2 reveals `secret`, which must open the second commitment, after
/// player1 and by the deadline plus the extension; the winner by the parity
/// rule of the two secrets' byte lengths is paid the lottery's whole balance.
/// Refused, after every other check, when the two secrets on record would
/// take more than `SECRET_SPACE` bytes together.
pub fn reveal_p2(
    lottery: &mut LotteryInfo,
    secret: String,
    now: i64,
    lottery_lamports: u64,
    player1_lamports: u64,
    player2_lamports: u64,
) -> (r: Result<Payout, LotteryError>)
    ensures
        applied_with(
            r,
            old(lottery)@,
            final(lottery)@,
            reveal_p2_result(
                old(lottery)@,
                secret@,
                now,
                lottery_lamports,
                player1_lamports,
                player2_lamports,
            ),
        ),
{
    if !(lottery.state == LotteryState::RevealP1) {
        return Err(LotteryError::InvalidStateForRevealP2);
    }
    let cutoff = match lottery.end_reveal.checked_add(DEFAULT_EXTENSION) {
        Some(v) => v,
        None => return Err(LotteryError::DeadlineOverflow),
    };
    if !((now as u64) <= cutoff) {
        return Err(LotteryError::RevealDeadlinePassed);
    }
    if !commitment_matches(&secret, &lottery.hashlock2) {
        return Err(LotteryError::InvalidSecret);
    }
    let to = winner_by_parity(byte_len(&lottery.secret1), byte_len(&secret));
    let recipient_lamports = match to {
        Player::Player1 => player1_lamports,
        Player::Player2 => player2_lamports,
    };
    let payout = match pay_out(to, lottery_lamports, recipient_lamports) {
        Ok(p) => p,
        Err(e) => return Err(e),
    };
    if !check_secrets_fit(byte_len(&lottery.secret1), byte_len(&secret), SECRET_SPACE) {
        return Err(LotteryError::AccountDidNotSerialize);
    }
    lottery.secret2 = secret;
    lottery.state = LotteryState::RevealP2;
    Ok(payout)
}

/// Outcome of player2 claiming the pot because player1 did not reveal.
pub open spec fn redeem_if_p1_no_reveal_result(
    l: LotteryView,
    now: i64,
    lottery_lamports: u64,
    player2_lamports: u64,
) -> Result<Payout, LotteryError> {
    if l.state != LotteryState::Init {
        Err(LotteryError::InvalidStateForRedeemIfP1NoReveal)
    } else if !((now as u64) >= l.end_reveal) {
        Err(LotteryError::RevealDeadlineNotPassed)
    } else if utf8_bytes(l.secret1).len() != 0 {
        Err(LotteryError::Player1AlreadyRevealed)
    } else {
        payout_check(Player::Player2, lottery_lamports, player2_lamports)
    }
}

/// From the deadline on, while player1's secret is not on record, player2
/// takes the lottery's whole balance. The lottery's state is unchanged.
pub fn redeem_if_p1_no_reveal(lottery: &LotteryInfo, now: i64, lottery_lamports: u64, player2_lamports: u64) -> (r:
    Result<Payout, LotteryError>)
    ensures
        r == redeem_if_p1_no_reveal_result(lottery@, now, lottery_lamports, player2_lamports),
{
    if !(lottery.state == LotteryState::Init) {
        return Err(LotteryError::InvalidStateForRedeemIfP1NoReveal);
    }
    if !((now as u64) >= lottery.end_reveal) {
        return Err(LotteryError::RevealDeadlineNotPassed);
    }
    if !is_empty_string(&lottery.secret1) {
        return Err(LotteryError::Player1AlreadyRevealed);
    }
    pay_out(Player::Player2, lottery_lamports, player2_lamports)
}

/// Outcome of player1 claiming the pot because player2 did not reveal.
pub open spec fn redeem_if_p2_no_reveal_result(
    l: LotteryView,
    now: i64,
    lottery_lamports: u64,
    player1_lamports: u64,
) -> Result<Payout, LotteryError> {
    if l.state != LotteryState::RevealP1 {
        Err(LotteryError::InvalidStateForRedeemIfP2NoReveal)
    } else if l.end_reveal + DEFAULT_EXTENSION > u64::MAX {
        Err(LotteryError::DeadlineOverflow)
    } else if !((now as u64) >= l.end_reveal + DEFAULT_EXTENSION) {
        Err(LotteryError::RevealDeadlineNotPassed)
    } else if utf8_bytes(l.secret2).len() != 0 {
        Err(LotteryError::Player2AlreadyRevealed)
    } else {
        payout_check(Player::Player1, lottery_lamports, player1_lamports)
    }
}

/// From the deadline plus the extension on, while player2's secret is not
/// on record, player1 takes the lottery's whole balance. The lottery's state
/// is unchanged.
pub fn redeem_if_p2_no_reveal(lottery: &LotteryInfo, now: i64, lottery_lamports: u64, player1_lamports: u64) -> (r:
    Result<Payout, LotteryError>)
    ensures
        r == redeem_if_p2_no_reveal_result(lottery@, now, lottery_lamports, player1_lamports),
{
    if !(lottery.state == LotteryState::RevealP1) {
        return Err(LotteryError::InvalidStateForRedeemIfP2NoReveal);
    }
    let cutoff = match lottery.end_reveal.checked_add(DEFAULT_EXTENSION) {
        Some(v) => v,
        None => return Err(LotteryError::DeadlineOverflow),
    };
    if !((now as u64) >= cutoff) {
        return Err(LotteryError::RevealDeadlineNotPassed);
    }
    if !is_empty_string(&lottery.secret2) {
        return Err(LotteryError::Player2AlreadyRevealed);
    }
    pay_out(Player::Player1, lottery_lamports, player1_lamports)
}

/// Law: nothing is paid from an empty pot, whoever asks and whenever.
pub proof fn lemma_empty_pot_pays_nothing(
    l: LotteryView,
    secret: Seq<char>,
    now: i64,
    player1_lamports: u64,
    player2_lamports: u64,
)
    ensures
        reveal_p2_result(l, secret, now, 0, player1_lamports, player2_lamports) is Err,
        redeem_if_p1_no_reveal_result(l, now, 0, player2_lamports) is Err,
        redeem_if_p2_no_reveal_result(l, now, 0, player1_lamports) is Err,
{
}

/// Law: once player2 has revealed, the lottery is settled: no reveal and no
/// claim succeeds any more.
pub proof fn lemma_settled_is_final(
    l: LotteryView,
    secret: Seq<char>,
    now: i64,
    lottery_lamports: u64,
    player1_lamports: u64,
    player2_lamports: u64,
)
    requires
        l.state == LotteryState::RevealP2,
    ensures
        reveal_p1_result(l, secret, now) is Err,
        reveal_p2_result(l, secret, now, lottery_lamports, player1_lamports, player2_lamports) is Err,
        redeem_if_p1_no_reveal_result(l, now, lottery_lamports, player2_lamports) is Err,
        redeem_if_p2_no_reveal_result(l, now, lottery_lamports, player1_lamports) is Err,
{
}

/// Law: the pot goes to the right player. Player2's successful reveal keeps
/// the secret and pays player1 exactly when the two secrets together are an
/// even number of bytes long, player2 when odd; a claim because player2 did
/// not reveal pays player1, and one because player1 did not reveal pays
/// player2: the player who failed to reveal is never paid. Each pays the
/// lottery's whole balance, and only where the recipient's balance can take
/// it.
pub proof fn lemma_pot_goes_to_the_right_player(
    l: LotteryView,
    secret: Seq<char>,
    now: i64,
    lamports: u64,
    player1_lamports: u64,
    player2_lamports: u64,
)
    ensures
        reveal_p2_result(l, secret, now, lamports, player1_lamports, player2_lamports) matches Ok((after, p)) ==> {
            &&& (p.to == Player::Player1 <==> (utf8_bytes(l.secret1).len() + utf8_bytes(secret).len()) % 2 == 0)
            &&& p.amount == lamports
            &&& p.to == Player::Player1 ==> player1_lamports + lamports <= u64::MAX
            &&& p.to == Player::Player2 ==> player2_lamports + lamports <= u64::MAX
            &&& after.secret2 == secret && after.secret1 == l.secret1
        },
        redeem_if_p2_no_reveal_result(l, now, lamports, player1_lamports) matches Ok(p) ==> p.to == Player::Player1
            && p.amount == lamports && player1_lamports + lamports <= u64::MAX,
        redeem_if_p1_no_reveal_result(l, now, lamports, player2_lamports) matches Ok(p) ==> p.to == Player::Player2
            && p.amount == lamports && player2_lamports + lamports <= u64::MAX,
{
}

} // verus!
