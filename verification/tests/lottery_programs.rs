use chain_contracts::common::Pubkey;
use chain_contracts::lottery::claude_ps2;
use chain_contracts::lottery::claude_ps7;
use chain_contracts::lottery::claude_ps9;
use chain_contracts::lottery::copilot_ps1;
use chain_contracts::lottery::copilot_ps3;
use chain_contracts::lottery::deepseek_ps7;
use chain_contracts::lottery::deepseek_ps9;
use chain_contracts::lottery::model::{Payout, Player, Stakes};

fn key(b: u8) -> Pubkey {
    Pubkey { bytes: [b; 32] }
}

fn keccak(data: &str) -> [u8; 32] {
    anchor_lang::solana_program::keccak::hash(data.as_bytes()).to_bytes()
}

#[test]
fn claude_ps2_pays_balance_above_rent() {
    let (mut l, stakes) = claude_ps2::join(key(1), key(2), keccak("red"), keccak("blue"), 50, 9, 100).unwrap();
    assert_eq!(stakes, Stakes { from_player1: 9, from_player2: 9 });
    assert_eq!(l.end_reveal, 150);
    assert_eq!(claude_ps2::reveal_p1(&mut l, "green".to_string(), 120), Err(claude_ps2::LotteryError::InvalidSecret));
    assert_eq!(claude_ps2::reveal_p1(&mut l, "red".to_string(), 151), Err(claude_ps2::LotteryError::RevealDeadlinePassed));
    assert_eq!(claude_ps2::reveal_p1(&mut l, "red".to_string(), 150), Ok(()));
    let r = claude_ps2::reveal_p2(&mut l, "blue".to_string(), 150, 1018, 1000);
    assert_eq!(r, Ok(Payout { to: Player::Player2, amount: 18 }));
    assert_eq!(
        claude_ps2::redeem_if_p2_no_reveal(&l, 200, 1018, 1000),
        Err(claude_ps2::LotteryError::InvalidState)
    );
}

#[test]
fn claude_ps2_forfeit_pays_nothing_below_rent() {
    let (l, _) = claude_ps2::join(key(1), key(2), keccak("red"), keccak("blue"), 50, 9, 100).unwrap();
    assert_eq!(
        claude_ps2::redeem_if_p1_no_reveal(&l, 149, 1018, 1000),
        Err(claude_ps2::LotteryError::DeadlineNotPassed)
    );
    assert_eq!(
        claude_ps2::redeem_if_p1_no_reveal(&l, 150, 1018, 1000),
        Ok(Payout { to: Player::Player2, amount: 18 })
    );
    assert_eq!(
        claude_ps2::redeem_if_p1_no_reveal(&l, 150, 900, 1000),
        Ok(Payout { to: Player::Player2, amount: 0 })
    );
}

#[test]
fn claude_ps7_round() {
    let (mut l, _) = claude_ps7::join(key(1), key(2), keccak("sun"), keccak("moon"), 50, 9, 100).unwrap();
    assert_eq!(claude_ps7::reveal_p2(&mut l, "moon".to_string(), 120, 1018, 1000), Err(claude_ps7::LotteryError::InvalidState));
    assert_eq!(claude_ps7::reveal_p1(&mut l, "sun".to_string(), 120), Ok(()));
    let r = claude_ps7::reveal_p2(&mut l, "moon".to_string(), 120, 1018, 1000);
    assert_eq!(r, Ok(Payout { to: Player::Player2, amount: 18 }));
    assert_eq!(claude_ps7::reveal_p1(&mut l, "sun".to_string(), 120), Err(claude_ps7::LotteryError::InvalidState));
}

#[test]
fn claude_ps7_player2_window_is_deadline_plus_delay() {
    let (mut l, _) = claude_ps7::join(key(1), key(2), keccak("sun"), keccak("moon"), 50, 9, 100).unwrap();
    assert_eq!((l.end_reveal, l.delay), (150, 50));
    claude_ps7::reveal_p1(&mut l, "sun".to_string(), 150).unwrap();
    assert_eq!(
        claude_ps7::redeem_if_p2_no_reveal(&l, 200, 1018, 1000),
        Err(claude_ps7::LotteryError::DeadlineNotPassed)
    );
    assert_eq!(
        claude_ps7::reveal_p2(&mut l, "moon".to_string(), 201, 1018, 1000),
        Err(claude_ps7::LotteryError::DeadlinePassed)
    );
    assert_eq!(
        claude_ps7::redeem_if_p2_no_reveal(&l, 201, 1018, 1000),
        Ok(Payout { to: Player::Player1, amount: 18 })
    );
    assert_eq!(
        claude_ps7::reveal_p2(&mut l, "moon".to_string(), 200, 1018, 1000),
        Ok(Payout { to: Player::Player2, amount: 18 })
    );
}

#[test]
fn claude_ps9_extended_reveal_for_player2() {
    let (mut l, _) = claude_ps9::join(key(1), key(2), keccak("ab"), keccak("cd"), 50, 9, 100).unwrap();
    assert_eq!(claude_ps9::reveal_p1(&mut l, "ab".to_string(), 150), Err(claude_ps9::LotteryError::DeadlinePassed));
    assert_eq!(claude_ps9::reveal_p1(&mut l, "ab".to_string(), 149), Ok(()));
    assert_eq!(
        claude_ps9::redeem_if_p2_no_reveal(&l, 199, 40),
        Err(claude_ps9::LotteryError::DeadlineNotPassed)
    );
    assert_eq!(claude_ps9::redeem_if_p2_no_reveal(&l, 200, 40), Ok(Payout { to: Player::Player1, amount: 40 }));
    assert_eq!(claude_ps9::reveal_p2(&mut l, "cd".to_string(), 200, 40), Err(claude_ps9::LotteryError::DeadlinePassed));
    assert_eq!(claude_ps9::reveal_p2(&mut l, "cd".to_string(), 199, 40), Ok(Payout { to: Player::Player1, amount: 40 }));
    assert!(matches!(
        claude_ps9::join(key(1), key(2), keccak("x"), keccak("x"), 50, 9, 100),
        Err(claude_ps9::LotteryError::IdenticalHashlocks)
    ));
    assert!(matches!(
        claude_ps9::join(key(1), key(2), keccak("x"), keccak("y"), 0, 9, 100),
        Err(claude_ps9::LotteryError::DeadlineInPast)
    ));
}

#[test]
fn copilot_ps1_callers_and_balances() {
    let (mut l, _) = copilot_ps1::join(key(1), key(2), keccak("one"), keccak("three"), 50, 9, 100).unwrap();
    assert_eq!(copilot_ps1::reveal_p1(&mut l, "one".to_string(), 120, key(2)), Err(copilot_ps1::LotteryError::InvalidPlayer));
    assert_eq!(copilot_ps1::reveal_p1(&mut l, "one".to_string(), 120, key(1)), Ok(()));
    assert_eq!(
        copilot_ps1::reveal_p2(&mut l, "three".to_string(), 120, key(2), 0, 5, 5),
        Err(copilot_ps1::LotteryError::EmptyPot)
    );
    assert_eq!(
        copilot_ps1::reveal_p2(&mut l, "three".to_string(), 120, key(2), 10, u64::MAX, 5),
        Err(copilot_ps1::LotteryError::LamportOverflow)
    );
    assert_eq!(
        copilot_ps1::reveal_p2(&mut l, "three".to_string(), 120, key(2), 10, 5, 5),
        Ok(Payout { to: Player::Player1, amount: 10 })
    );
}

#[test]
fn copilot_ps3_round() {
    let (mut l, _) = copilot_ps3::join(key(1), key(2), keccak("a"), keccak("bb"), 50, 9, 100).unwrap();
    assert_eq!(copilot_ps3::reveal_p2(&mut l, "bb".to_string(), 120, 10, 0, 0), Err(copilot_ps3::LotteryError::InvalidStateForRevealP2));
    assert_eq!(copilot_ps3::reveal_p1(&mut l, "a".to_string(), 150), Ok(()));
    assert_eq!(copilot_ps3::reveal_p1(&mut l, "a".to_string(), 150), Err(copilot_ps3::LotteryError::InvalidStateForRevealP1));
    assert_eq!(
        copilot_ps3::reveal_p2(&mut l, "bb".to_string(), 451, 10, 0, 0),
        Err(copilot_ps3::LotteryError::RevealDeadlinePassed)
    );
    assert_eq!(
        copilot_ps3::reveal_p2(&mut l, "bb".to_string(), 450, 10, 0, 0),
        Ok(Payout { to: Player::Player2, amount: 10 })
    );
}

#[test]
fn deepseek_ps7_forfeits() {
    let (mut l, _) = deepseek_ps7::join(key(1), key(2), keccak("p"), keccak("q"), 50, 9, 100).unwrap();
    assert_eq!(
        deepseek_ps7::redeem_if_p1_no_reveal(&l, 150, 20),
        Err(deepseek_ps7::LotteryError::RevealPeriodNotEnded)
    );
    assert_eq!(deepseek_ps7::redeem_if_p1_no_reveal(&l, 151, 20), Ok(Payout { to: Player::Player2, amount: 20 }));
    assert_eq!(deepseek_ps7::reveal_p1(&mut l, "p".to_string(), 150), Ok(()));
    assert_eq!(
        deepseek_ps7::redeem_if_p1_no_reveal(&l, 151, 20),
        Err(deepseek_ps7::LotteryError::PlayerAlreadyRevealed)
    );
    assert_eq!(deepseek_ps7::reveal_p2(&mut l, "q".to_string(), 151, 20), Ok(Payout { to: Player::Player1, amount: 20 }));
    assert!(matches!(
        deepseek_ps7::join(key(1), key(2), keccak("p"), keccak("q"), 50, 0, 100),
        Err(deepseek_ps7::LotteryError::InvalidAmount)
    ));
}

#[test]
fn deepseek_ps9_parity_winner_paid_and_state_checked() {
    let (mut l, _) = deepseek_ps9::join(key(1), key(2), keccak("aa"), keccak("bb"), 50, 9, 100).unwrap();
    assert_eq!(deepseek_ps9::reveal_p1(&mut l, "aa".to_string(), 150), Ok(()));
    assert_eq!(deepseek_ps9::reveal_p1(&mut l, "aa".to_string(), 150), Err(deepseek_ps9::LotteryError::InvalidState));
    assert_eq!(deepseek_ps9::reveal_p2(&mut l, "bb".to_string(), 150, 20), Ok(Payout { to: Player::Player1, amount: 20 }));
    assert_eq!(deepseek_ps9::redeem_if_p2_no_reveal(&l, 200, 20), Err(deepseek_ps9::LotteryError::InvalidState));
    let (l2, _) = deepseek_ps9::join(key(1), key(2), keccak("aa"), keccak("bb"), 50, 9, 100).unwrap();
    assert_eq!(
        deepseek_ps9::redeem_if_p1_no_reveal(&l2, 147, 20),
        Err(deepseek_ps9::LotteryError::RevealPeriodNotEnded)
    );
    assert_eq!(deepseek_ps9::redeem_if_p1_no_reveal(&l2, 148, 20), Ok(Payout { to: Player::Player2, amount: 20 }));
}

#[test]
fn deepseek_ps9_odd_total_pays_player2() {
    let (mut l, _) = deepseek_ps9::join(key(1), key(2), keccak("a"), keccak("bb"), 50, 9, 100).unwrap();
    assert_eq!(deepseek_ps9::reveal_p1(&mut l, "a".to_string(), 120), Ok(()));
    assert_eq!(deepseek_ps9::reveal_p2(&mut l, "bb".to_string(), 120, 20), Ok(Payout { to: Player::Player2, amount: 20 }));
}

#[test]
fn claude_ps7_secrets_must_fit_the_account() {
    // The account keeps 128 bytes for both secrets: 100 + 28 fit, 100 + 29 do not.
    let long = "a".repeat(100);
    let fits = "b".repeat(28);
    let too_long = "c".repeat(29);
    let (mut l, _) = claude_ps7::join(key(1), key(2), keccak(&long), keccak(&too_long), 50, 9, 100).unwrap();
    assert_eq!(claude_ps7::reveal_p1(&mut l, long.clone(), 120), Ok(()));
    assert_eq!(
        claude_ps7::reveal_p2(&mut l, too_long, 120, 1018, 1000),
        Err(claude_ps7::LotteryError::AccountDidNotSerialize)
    );
    assert_eq!(l.state, claude_ps7::LotteryState::RevealP1);
    let (mut m, _) = claude_ps7::join(key(1), key(2), keccak(&long), keccak(&fits), 50, 9, 100).unwrap();
    assert_eq!(claude_ps7::reveal_p1(&mut m, long, 120), Ok(()));
    assert_eq!(claude_ps7::reveal_p2(&mut m, fits, 120, 1018, 1000), Ok(Payout { to: Player::Player1, amount: 18 }));
    let huge = "d".repeat(129);
    let (mut n, _) = claude_ps7::join(key(1), key(2), keccak(&huge), keccak("x"), 50, 9, 100).unwrap();
    assert_eq!(claude_ps7::reveal_p1(&mut n, huge, 120), Err(claude_ps7::LotteryError::AccountDidNotSerialize));
    assert_eq!(n.state, claude_ps7::LotteryState::Init);
}

#[test]
fn player_accounts_are_checked_against_the_stored_players() {
    let (l, _) = claude_ps2::join(key(1), key(2), keccak("red"), keccak("blue"), 50, 9, 100).unwrap();
    assert_eq!(claude_ps2::check_players(&l, &key(1), &key(2)), Ok(()));
    assert_eq!(claude_ps2::check_players(&l, &key(2), &key(1)), Err(claude_ps2::LotteryError::UnauthorizedPlayer));
    assert_eq!(claude_ps2::check_players(&l, &key(1), &key(7)), Err(claude_ps2::LotteryError::UnauthorizedPlayer));
    let (m, _) = claude_ps9::join(key(1), key(2), keccak("red"), keccak("blue"), 50, 9, 100).unwrap();
    assert_eq!(claude_ps9::check_players(&m, &key(1), &key(1)), Err(claude_ps9::LotteryError::InvalidPlayer));
    assert_eq!(claude_ps9::check_players(&m, &key(1), &key(2)), Ok(()));
}
