use chain_contracts::common::Pubkey;
use chain_contracts::lottery::deepseek_ps2;
use chain_contracts::lottery::gpt_ps1;
use chain_contracts::lottery::gpt_ps2;
use chain_contracts::lottery::model::{winner_by_parity, Payout, Player, Stakes};
use sha2::Digest;

fn key(b: u8) -> Pubkey {
    Pubkey { bytes: [b; 32] }
}

fn keccak(data: &[u8]) -> [u8; 32] {
    anchor_lang::solana_program::keccak::hash(data).to_bytes()
}

fn hex32(s: &str) -> [u8; 32] {
    let mut out = [0u8; 32];
    for i in 0..32 {
        out[i] = u8::from_str_radix(&s[2 * i..2 * i + 2], 16).unwrap();
    }
    out
}

fn joined_gpt_ps1(secret1: &str, secret2: &str) -> gpt_ps1::LotteryInfo {
    let (info, stakes) =
        gpt_ps1::join(key(1), key(2), keccak(secret1.as_bytes()), keccak(secret2.as_bytes()), 100, 250, 1000)
            .unwrap();
    assert_eq!(stakes, Stakes { from_player1: 250, from_player2: 250 });
    assert_eq!(info.end_reveal, 1100);
    assert_eq!(info.state, gpt_ps1::LotteryState::Init);
    info
}

#[test]
fn gpt_ps1_full_round_pays_parity_winner() {
    let mut lottery = joined_gpt_ps1("alpha", "beta");
    assert_eq!(gpt_ps1::reveal_p1(&mut lottery, "alpha".to_string(), 1050), Ok(()));
    assert_eq!(lottery.state, gpt_ps1::LotteryState::RevealP1);
    let r = gpt_ps1::reveal_p2(&mut lottery, "beta".to_string(), 1150, 500);
    assert_eq!(r, Ok(Payout { to: Player::Player2, amount: 500 }));
    assert_eq!(lottery.state, gpt_ps1::LotteryState::RevealP2);
    assert_eq!(lottery.secret2, "beta");
}

#[test]
fn gpt_ps1_even_total_length_pays_player1() {
    let mut lottery = joined_gpt_ps1("ab", "cdef");
    gpt_ps1::reveal_p1(&mut lottery, "ab".to_string(), 1000).unwrap();
    let r = gpt_ps1::reveal_p2(&mut lottery, "cdef".to_string(), 1000, 77);
    assert_eq!(r, Ok(Payout { to: Player::Player1, amount: 77 }));
}

#[test]
fn gpt_ps1_reveal_checks_known_keccak_digests() {
    let empty = hex32("c5d2460186f7233c927e7db2dcc703c0e500b653ca82273b7bfad8045d85a470");
    let abc = hex32("4e03657aea45a94fc7d47ba826c8d667c0d1e6e33a64a036ec44f58fa12d6c45");
    let (mut lottery, _) = gpt_ps1::join(key(1), key(2), empty, abc, 10, 1, 0).unwrap();
    assert_eq!(gpt_ps1::reveal_p1(&mut lottery, String::new(), 5), Ok(()));
    let r = gpt_ps1::reveal_p2(&mut lottery, "abc".to_string(), 5, 2);
    assert_eq!(r, Ok(Payout { to: Player::Player2, amount: 2 }));
}

#[test]
fn gpt_ps1_wrong_secret_is_refused_and_changes_nothing() {
    let mut lottery = joined_gpt_ps1("alpha", "beta");
    let r = gpt_ps1::reveal_p1(&mut lottery, "alphA".to_string(), 1050);
    assert_eq!(r, Err(gpt_ps1::LotteryError::HashMismatch));
    assert_eq!(lottery.state, gpt_ps1::LotteryState::Init);
    assert_eq!(lottery.secret1, "");
}

#[test]
fn gpt_ps1_identical_commitments_are_refused() {
    let h = keccak(b"same");
    let r = gpt_ps1::join(key(1), key(2), h, h, 100, 1, 0);
    assert!(matches!(r, Err(gpt_ps1::LotteryError::IdenticalHashlocks)));
}

#[test]
fn gpt_ps1_player2_cannot_reveal_first() {
    let mut lottery = joined_gpt_ps1("alpha", "beta");
    let r = gpt_ps1::reveal_p2(&mut lottery, "beta".to_string(), 1000, 500);
    assert_eq!(r, Err(gpt_ps1::LotteryError::InvalidState));
}

#[test]
fn gpt_ps1_forfeit_when_player1_is_silent() {
    let lottery = joined_gpt_ps1("alpha", "beta");
    assert_eq!(
        gpt_ps1::redeem_if_p1_no_reveal(&lottery, 1100, 500),
        Err(gpt_ps1::LotteryError::RevealNotExpired)
    );
    assert_eq!(
        gpt_ps1::redeem_if_p1_no_reveal(&lottery, 1101, 500),
        Ok(Payout { to: Player::Player2, amount: 500 })
    );
}

#[test]
fn gpt_ps1_forfeit_when_player2_is_late() {
    let mut lottery = joined_gpt_ps1("alpha", "beta");
    gpt_ps1::reveal_p1(&mut lottery, "alpha".to_string(), 1100).unwrap();
    let r = gpt_ps1::reveal_p2(&mut lottery, "beta".to_string(), 1161, 500);
    assert_eq!(r, Err(gpt_ps1::LotteryError::RevealDeadlinePassed));
    assert_eq!(
        gpt_ps1::redeem_if_p2_no_reveal(&lottery, 1160, 500),
        Err(gpt_ps1::LotteryError::RevealNotExpired)
    );
    assert_eq!(
        gpt_ps1::redeem_if_p2_no_reveal(&lottery, 1161, 500),
        Ok(Payout { to: Player::Player1, amount: 500 })
    );
}

#[test]
fn parity_rule_values() {
    assert_eq!(winner_by_parity(2, 2), Player::Player1);
    assert_eq!(winner_by_parity(2, 3), Player::Player2);
    assert_eq!(winner_by_parity(0, 0), Player::Player1);
    assert_eq!(winner_by_parity(usize::MAX, 1), Player::Player1);
    assert_eq!(winner_by_parity(usize::MAX, 0), Player::Player2);
}

#[test]
fn deepseek_ps2_round_with_keccak_of_one_part() {
    let h1 = anchor_lang::solana_program::keccak::hashv(&[b"heads".as_ref()]).to_bytes();
    let h2 = anchor_lang::solana_program::keccak::hashv(&[b"tail".as_ref()]).to_bytes();
    let (mut lottery, stakes) = deepseek_ps2::join(key(1), key(2), h1, h2, 20, 9, 300).unwrap();
    assert_eq!(stakes, Stakes { from_player1: 9, from_player2: 9 });
    assert_eq!(lottery.end_reveal, 320);
    assert_eq!(deepseek_ps2::reveal_p1(&mut lottery, "heads".to_string(), 320), Ok(()));
    assert_eq!(lottery.state, deepseek_ps2::LotteryState::RevealP1);
    let r = deepseek_ps2::reveal_p2(&mut lottery, "tail".to_string(), 320, 18);
    assert_eq!(r, Ok(Payout { to: Player::Player2, amount: 18 }));
}

#[test]
fn deepseek_ps2_join_refusals() {
    let h1 = keccak(b"a");
    let h2 = keccak(b"b");
    assert!(matches!(deepseek_ps2::join(key(1), key(2), h1, h1, 1, 1, 0), Err(deepseek_ps2::LotteryError::DuplicateHashes)));
    assert!(matches!(deepseek_ps2::join(key(1), key(2), h1, h2, 0, 1, 0), Err(deepseek_ps2::LotteryError::InvalidDelay)));
    assert!(matches!(deepseek_ps2::join(key(1), key(2), h1, h2, 1, 0, 0), Err(deepseek_ps2::LotteryError::InvalidAmount)));
}

#[test]
fn gpt_ps2_reveals_check_sha256_digests() {
    let abc: Vec<u8> = hex32("ba7816bf8f01cfea414140de5dae2223b00361a396177a9cb410ff61f20015ad").to_vec();
    let other: Vec<u8> = sha2::Sha256::digest(b"xyz").to_vec();
    let balances = gpt_ps2::Balances { player1: 100, player2: 50, lottery: 3 };
    let (mut lottery, after) =
        gpt_ps2::join(key(1), key(2), abc, other, 60, 40, 1000, 254, balances).unwrap();
    assert_eq!(after, gpt_ps2::Balances { player1: 60, player2: 10, lottery: 83 });
    assert_eq!(lottery.end_reveal, 1060);
    assert_eq!(gpt_ps2::reveal_p2(&mut lottery, b"xyz".to_vec()), Err(gpt_ps2::LotteryError::RevealSequence));
    assert_eq!(gpt_ps2::reveal_p1(&mut lottery, b"abd".to_vec()), Err(gpt_ps2::LotteryError::InvalidReveal));
    assert!(!lottery.revealed1);
    assert_eq!(gpt_ps2::reveal_p1(&mut lottery, b"abc".to_vec()), Ok(()));
    assert_eq!(gpt_ps2::redeem(&mut lottery, key(1), 83), Err(gpt_ps2::LotteryError::NotRevealed));
    assert_eq!(gpt_ps2::reveal_p2(&mut lottery, b"xyz".to_vec()), Ok(()));
    assert!(lottery.revealed1 && lottery.revealed2);
    assert_eq!(lottery.secret1, b"abc".to_vec());
    assert_eq!(lottery.secret2, b"xyz".to_vec());
    // Six bytes in all: an even total, so player1 wins.
    assert_eq!(gpt_ps2::redeem(&mut lottery, key(2), 83), Err(gpt_ps2::LotteryError::NotWinner));
    assert_eq!(lottery.state, gpt_ps2::LotteryState::WaitingForReveal);
    assert_eq!(gpt_ps2::redeem(&mut lottery, key(1), 83), Ok(83));
    assert_eq!(lottery.state, gpt_ps2::LotteryState::Finished);
}

#[test]
fn gpt_ps2_odd_total_lets_player2_redeem() {
    let h1: Vec<u8> = sha2::Sha256::digest(b"abc").to_vec();
    let h2: Vec<u8> = sha2::Sha256::digest(b"xy").to_vec();
    let balances = gpt_ps2::Balances { player1: 10, player2: 10, lottery: 0 };
    let (mut lottery, _) = gpt_ps2::join(key(1), key(2), h1, h2, 60, 10, 0, 1, balances).unwrap();
    assert_eq!(gpt_ps2::reveal_p1(&mut lottery, b"abc".to_vec()), Ok(()));
    assert_eq!(gpt_ps2::reveal_p2(&mut lottery, b"xy".to_vec()), Ok(()));
    assert_eq!(gpt_ps2::redeem(&mut lottery, key(1), 20), Err(gpt_ps2::LotteryError::NotWinner));
    assert_eq!(gpt_ps2::redeem(&mut lottery, key(2), 20), Ok(20));
    assert_eq!(lottery.state, gpt_ps2::LotteryState::Finished);
}

#[test]
fn gpt_ps2_join_refuses_short_balance() {
    let balances = gpt_ps2::Balances { player1: 100, player2: 39, lottery: 0 };
    let r = gpt_ps2::join(key(1), key(2), vec![0u8; 32], vec![1u8; 32], 60, 40, 0, 1, balances);
    assert!(matches!(r, Err(gpt_ps2::LotteryError::InsufficientFunds)));
}
