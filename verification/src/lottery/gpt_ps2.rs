//! Lottery whose players commit to the SHA-256 digests of their secrets
//! (kept as byte vectors) and pay their wagers by direct moves of lamports.
//! Reveals record each player's secret, player1 first; once both are on
//! record, the winner by the parity rule of the two secrets' lengths redeems
//! the lottery's whole balance and the lottery is finished.
//!
//! Two choices are this library's own. The account's stored fields name no
//! winner and keep no secret, while its redeem pays "the winner": here the
//! state also keeps the two revealed secrets (`secret1`, `secret2`), and a
//! redeem is refused before both reveals and for any signer but the winner
//! by the parity rule that the other lotteries use. Where the stored layout
//! matters to a caller, these two fields are the difference.
use vstd::prelude::*;
use crate::common::{Pubkey, same_key};
use crate::hashing::{sha256, sha256_digest};
use crate::lottery::model::{Player, parity_winner, winner_by_parity};

verus! {

#[derive(Clone, Copy, Debug, PartialEq, Eq, Structural)]
pub enum LotteryState {
    WaitingForReveal,
    Finished,
}

/// The lottery's account.
#[derive(Debug)]
pub struct LotteryInfo {
    pub player1: Pubkey,
    pub player2: Pubkey,
    pub hashlock1: Vec<u8>,
    pub hashlock2: Vec<u8>,
    pub revealed1: bool,
    pub revealed2: bool,
    pub secret1: Vec<u8>,
    pub secret2: Vec<u8>,
    pub state: LotteryState,
    pub end_reveal: u64,
    pub bump: u8,
}

/// The lottery's account as values.
pub struct LotteryView {
    pub player1: Pubkey,
    pub player2: Pubkey,
    pub hashlock1: Seq<u8>,
    pub hashlock2: Seq<u8>,
    pub revealed1: bool,
    pub revealed2: bool,
    pub secret1: Seq<u8>,
    pub secret2: Seq<u8>,
    pub state: LotteryState,
    pub end_reveal: u64,
    pub bump: u8,
}

impl View for LotteryInfo {
    type V = LotteryView;

    open spec fn view(&self) -> LotteryView {
        LotteryView {
            player1: self.player1,
            player2: self.player2,
            hashlock1: self.hashlock1@,
            hashlock2: self.hashlock2@,
            revealed1: self.revealed1,
            revealed2: self.revealed2,
            secret1: self.secret1@,
            secret2: self.secret2@,
            state: self.state,
            end_reveal: self.end_reveal,
            bump: self.bump,
        }
    }
}

#[derive(Clone, Copy, Debug, PartialEq, Eq, Structural)]
pub enum LotteryError {
    InvalidReveal,
    RevealSequence,
    InsufficientFunds,
    /// A redeem before both players revealed.
    NotRevealed,
    /// A redeem signed by another account than the winner's.
    NotWinner,
}

/// Lamports held by the two players and the lottery.
#[derive(Clone, Copy, Debug, PartialEq, Eq, Structural)]
pub struct Balances {
    pub player1: u64,
    pub player2: u64,
    pub lottery: u64,
}

/// The SHA-256 digest of `secret`.
fn hash(secret: Vec<u8>) -> (digest: Vec<u8>)
    ensures
        digest@ == sha256(secret@),
        digest@.len() == 32,
{
    sha256_digest(secret.as_slice())
}

/// Byte-wise equality of two vectors.
fn bytes_eq(a: &Vec<u8>, b: &Vec<u8>) -> (r: bool)
    ensures
        r == (a@ == b@),
{
    if a.len() != b.len() {
        return false;
    }
    let mut i: usize = 0;
    while i < a.len()
        invariant
            0 <= i <= a.len(),
            a.len() == b.len(),
            forall|j: int| 0 <= j < i ==> a@[j] == b@[j],
        decreases a.len() - i,
    {
        if a[i] != b[i] {
            return false;
        }
        i = i + 1;
    }
    assert(a@ =~= b@);
    true
}

/// Outcome of two players joining at unix time `now` with `wager` each,
/// given their balances and the lottery's.
pub open spec fn join_result(
    player1: Pubkey,
    player2: Pubkey,
    hashlock1: Seq<u8>,
    hashlock2: Seq<u8>,
    delay: u64,
    wager: u64,
    now: i64,
    bump: u8,
    balances: Balances,
) -> Result<(LotteryView, Balances), LotteryError> {
    if balances.player1 < wager || balances.player2 < wager {
        Err(LotteryError::InsufficientFunds)
    } else {
        Ok(
            (
                LotteryView {
                    player1,
                    player2,
                    hashlock1,
                    hashlock2,
                    revealed1: false,
                    revealed2: false,
                    secret1: Seq::empty(),
                    secret2: Seq::empty(),
                    state: LotteryState::WaitingForReveal,
                    end_reveal: ((now as u64) + delay) as u64,
                    bump,
                },
                Balances {
                    player1: (balances.player1 - wager) as u64,
                    player2: (balances.player2 - wager) as u64,
                    lottery: (balances.lottery + wager * 2) as u64,
                },
            ),
        )
    }
}

/// Opens a lottery between `player1` and `player2` at unix time `now`, at
/// the address with bump `bump`: the two commitments, the deadline
/// `now + delay`, and `wager` lamports moved from each player to the lottery.
/// Refused when a player holds less than `wager`. The instruction aborts where the
/// deadline, twice the wager, or the lottery's new balance does not fit in 64
/// bits; those inputs are left out.
pub fn join(
    player1: Pubkey,
    player2: Pubkey,
    hashlock1: Vec<u8>,
    hashlock2: Vec<u8>,
    delay: u64,
    wager: u64,
    now: i64,
    bump: u8,
    balances: Balances,
) -> (r: Result<(LotteryInfo, Balances), LotteryError>)
    requires
        (now as u64) + delay <= u64::MAX,
        balances.player1 >= wager && balances.player2 >= wager ==> wager * 2 <= u64::MAX && balances.lottery
            + wager * 2 <= u64::MAX,
    ensures
        match join_result(player1, player2, hashlock1@, hashlock2@, delay, wager, now, bump, balances) {
            Ok((v, b)) => r matches Ok(out) && out.0@ == v && out.1 == b,
            Err(e) => r == Err::<(LotteryInfo, Balances), LotteryError>(e),
        },
{
    let end_reveal = now as u64 + delay;
    let info = LotteryInfo {
        player1,
        player2,
        hashlock1,
        hashlock2,
        revealed1: false,
        revealed2: false,
        secret1: Vec::new(),
        secret2: Vec::new(),
        state: LotteryState::WaitingForReveal,
        end_reveal,
        bump,
    };
    let from_p1 = match balances.player1.checked_sub(wager) {
        Some(v) => v,
        None => return Err(LotteryError::InsufficientFunds),
    };
    let from_p2 = match balances.player2.checked_sub(wager) {
        Some(v) => v,
        None => return Err(LotteryError::InsufficientFunds),
    };
    let to_pda = balances.lottery + wager * 2;
    Ok((info, Balances { player1: from_p1, player2: from_p2, lottery: to_pda }))
}

/// Outcome of player1 revealing `secret`.
pub open spec fn reveal_p1_result(l: LotteryView, secret: Seq<u8>) -> Result<LotteryView, LotteryError> {
    if sha256(secret) != l.hashlock1 {
        Err(LotteryError::InvalidReveal)
    } else {
        Ok(LotteryView { revealed1: true, secret1: secret, ..l })
    }
}

/// Player1 reveals `secret`, whose SHA-256 digest must be the first
/// commitment; the secret is kept on record. (No deadline and no state is
/// checked.)
pub fn reveal_p1(lottery: &mut LotteryInfo, secret: Vec<u8>) -> (r: Result<(), LotteryError>)
    ensures
        crate::common::applied(r, old(lottery)@, final(lottery)@, reveal_p1_result(old(lottery)@, secret@)),
{
    let digest = hash(secret.clone());
    if !bytes_eq(&digest, &lottery.hashlock1) {
        return Err(LotteryError::InvalidReveal);
    }
    lottery.revealed1 = true;
    lottery.secret1 = secret;
    Ok(())
}

/// Outcome of player2 revealing `secret`.
pub open spec fn reveal_p2_result(l: LotteryView, secret: Seq<u8>) -> Result<LotteryView, LotteryError> {
    if !l.revealed1 {
        Err(LotteryError::RevealSequence)
    } else if sha256(secret) != l.hashlock2 {
        Err(LotteryError::InvalidReveal)
    } else {
        Ok(LotteryView { revealed2: true, secret2: secret, ..l })
    }
}

/// Player2 reveals `secret`, after player1; its SHA-256 digest must be the
/// second commitment; the secret is kept on record. (No deadline and no state
/// is checked.)
pub fn reveal_p2(lottery: &mut LotteryInfo, secret: Vec<u8>) -> (r: Result<(), LotteryError>)
    ensures
        crate::common::applied(r, old(lottery)@, final(lottery)@, reveal_p2_result(old(lottery)@, secret@)),
{
    if !lottery.revealed1 {
        return Err(LotteryError::RevealSequence);
    }
    let digest = hash(secret.clone());
    if !bytes_eq(&digest, &lottery.hashlock2) {
        return Err(LotteryError::InvalidReveal);
    }
    lottery.revealed2 = true;
    lottery.secret2 = secret;
    Ok(())
}

/// The winner's key: by the parity rule of the two revealed secrets' lengths,
/// player1 when their total is even, player2 when it is odd.
pub open spec fn winner_key(l: LotteryView) -> Pubkey {
    match parity_winner(l.secret1.len() as int, l.secret2.len() as int) {
        Player::Player1 => l.player1,
        Player::Player2 => l.player2,
    }
}

/// Outcome of `caller` redeeming a lottery that holds `lottery_lamports`:
/// the new state and the lamports paid to the caller.
pub open spec fn redeem_result(l: LotteryView, caller: Pubkey, lottery_lamports: u64) -> Result<
    (LotteryView, u64),
    LotteryError,
> {
    if !(l.revealed1 && l.revealed2) {
        Err(LotteryError::NotRevealed)
    } else if !same_key(caller, winner_key(l)) {
        Err(LotteryError::NotWinner)
    } else {
        Ok((LotteryView { state: LotteryState::Finished, ..l }, lottery_lamports))
    }
}

/// The signer `caller` redeems the lottery: once both players revealed, the
/// winner by the parity rule is paid the lottery's whole balance,
/// `lottery_lamports`, and the lottery is finished; returns the amount paid.
/// Refused before both reveals, and for any signer but the winner.
pub fn redeem(lottery: &mut LotteryInfo, caller: Pubkey, lottery_lamports: u64) -> (r: Result<u64, LotteryError>)
    ensures
        crate::common::applied_with(r, old(lottery)@, final(lottery)@, redeem_result(old(lottery)@, caller, lottery_lamports)),
{
    if !(lottery.revealed1 && lottery.revealed2) {
        return Err(LotteryError::NotRevealed);
    }
    let winner = match winner_by_parity(lottery.secret1.len(), lottery.secret2.len()) {
        Player::Player1 => lottery.player1,
        Player::Player2 => lottery.player2,
    };
    if !caller.key_eq(&winner) {
        return Err(LotteryError::NotWinner);
    }
    lottery.state = LotteryState::Finished;
    Ok(lottery_lamports)
}

/// Law: joining moves lamports without creating or losing any: the three
/// balances add up to the same total before and after.
pub proof fn lemma_join_conserves_lamports(
    player1: Pubkey,
    player2: Pubkey,
    hashlock1: Seq<u8>,
    hashlock2: Seq<u8>,
    delay: u64,
    wager: u64,
    now: i64,
    bump: u8,
    balances: Balances,
)
    requires
        balances.player1 >= wager && balances.player2 >= wager ==> wager * 2 <= u64::MAX && balances.lottery
            + wager * 2 <= u64::MAX,
    ensures
        join_result(player1, player2, hashlock1, hashlock2, delay, wager, now, bump, balances) matches Ok((_, b))
            ==> b.player1 + b.player2 + b.lottery == balances.player1 + balances.player2 + balances.lottery,
{
}

/// Law: player2's reveal is accepted only after player1's, and each reveal
/// only with a secret whose digest is the player's commitment.
pub proof fn lemma_reveals_in_order(l: LotteryView, secret: Seq<u8>)
    ensures
        reveal_p1_result(l, secret) is Ok ==> sha256(secret) == l.hashlock1,
        reveal_p2_result(l, secret) is Ok ==> l.revealed1 && sha256(secret) == l.hashlock2,
{
}

/// Law: the pot goes only to the winner of the revealed secrets: a redeem
/// succeeds only after both reveals and only for the winner's key, and then
/// pays out the whole balance.
pub proof fn lemma_only_winner_redeems(l: LotteryView, caller: Pubkey, lottery_lamports: u64)
    ensures
        redeem_result(l, caller, lottery_lamports) is Ok <==> (l.revealed1 && l.revealed2 && same_key(
            caller,
            winner_key(l),
        )),
        redeem_result(l, caller, lottery_lamports) matches Ok((_, paid)) ==> paid == lottery_lamports,
{
}

/// Law: only the winner redeems, and gets the whole balance: a successful
/// redeem follows both reveals, and its caller is player1 when the two
/// revealed secrets together are an even number of bytes long, player2 when
/// odd.
pub proof fn lemma_redeem_pays_the_parity_winner(l: LotteryView, caller: Pubkey, lottery_lamports: u64)
    ensures
        redeem_result(l, caller, lottery_lamports) matches Ok((after, paid)) ==> {
            &&& l.revealed1 && l.revealed2
            &&& (l.secret1.len() + l.secret2.len()) % 2 == 0 ==> same_key(caller, l.player1)
            &&& (l.secret1.len() + l.secret2.len()) % 2 == 1 ==> same_key(caller, l.player2)
            &&& paid == lottery_lamports
            &&& after.state == LotteryState::Finished
        },
{
}

} // verus!
