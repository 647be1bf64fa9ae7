use chain_contracts::amm::gpt_ps9;
use chain_contracts::amm::model::{Deposit, SwapTransfers};
use chain_contracts::common::Pubkey;
use chain_contracts::lottery::gpt_ps3;
use chain_contracts::lottery::model::{Player, Stakes};

fn key(b: u8) -> Pubkey {
    Pubkey { bytes: [b; 32] }
}

fn keccak(data: &str) -> [u8; 32] {
    anchor_lang::solana_program::keccak::hash(data.as_bytes()).to_bytes()
}

fn gpt_ps9_pool() -> gpt_ps9::AmmInfo {
    let program_id = key(60);
    let id = anchor_lang::prelude::Pubkey::new_from_array(program_id.bytes);
    let (pda, bump) =
        anchor_lang::prelude::Pubkey::find_program_address(&[b"amm".as_ref(), &[1u8; 32], &[2u8; 32]], &id);
    let amm_key = Pubkey { bytes: pda.to_bytes() };
    let (amm, handover) = gpt_ps9::initialize(key(1), key(2), key(3), key(4), amm_key, program_id).unwrap();
    assert_eq!(amm.bump, bump);
    assert_eq!(handover.new_owner, amm_key);
    assert_eq!((handover.token_account0, handover.token_account1), (key(3), key(4)));
    amm
}

#[test]
fn gpt_ps9_initialize_only_at_derived_address() {
    let amm = gpt_ps9_pool();
    assert_eq!((amm.reserve0, amm.reserve1, amm.supply, amm.ever_deposited), (0, 0, 0, false));
    let r = gpt_ps9::initialize(key(1), key(2), key(3), key(4), key(8), key(60));
    assert_eq!(r, Err(gpt_ps9::AmmError::InvalidAccount));
}

#[test]
fn gpt_ps9_deposit_and_swap_in_whole_units() {
    let mut amm = gpt_ps9_pool();
    let mut minted = gpt_ps9::MintedPDA { minted: 0 };
    assert_eq!(
        gpt_ps9::deposit(&mut amm, &mut minted, key(2), key(1), 2, 3, 4, 9),
        Err(gpt_ps9::AmmError::MintMismatch)
    );
    assert_eq!(
        gpt_ps9::deposit(&mut amm, &mut minted, key(1), key(2), 2, 3, 0, 9),
        Err(gpt_ps9::AmmError::ZeroDeposit)
    );
    assert_eq!(
        gpt_ps9::deposit(&mut amm, &mut minted, key(1), key(2), 2, 3, 4, 9),
        Ok(Deposit { amount0: 400, amount1: 9000 })
    );
    assert_eq!((amm.reserve0, amm.reserve1, amm.supply, minted.minted), (400, 9000, 4, 4));
    assert_eq!(
        gpt_ps9::swap(&mut amm, 2, 3, true, 1, 0),
        Ok(SwapTransfers { is_mint0: true, amount_in: 100, amount_out: 1800 })
    );
    assert_eq!((amm.reserve0, amm.reserve1), (500, 7200));
    assert_eq!(gpt_ps9::swap(&mut amm, 2, 3, true, 0, 0), Err(gpt_ps9::AmmError::ZeroSwapAmount));
    assert_eq!(
        gpt_ps9::check_accounts(&amm, &key(1), &key(2), &key(1), &key(2), &key(3), &key(4)),
        Ok(())
    );
    assert_eq!(
        gpt_ps9::check_accounts(&amm, &key(1), &key(2), &key(2), &key(2), &key(3), &key(4)),
        Err(gpt_ps9::AmmError::ConstraintRaw)
    );
}

#[test]
fn gpt_ps3_reveals_in_turn_and_settles_by_first_bytes() {
    assert!(matches!(
        gpt_ps3::join(key(1), key(2), 5, keccak("a"), 6, keccak("b"), 100),
        Err(gpt_ps3::LotteryError::UnequalBets)
    ));
    let (mut l, stakes) = gpt_ps3::join(key(1), key(2), 5, keccak("apple"), 5, keccak("cherry"), 100).unwrap();
    assert_eq!(stakes, Stakes { from_player1: 5, from_player2: 5 });
    assert_eq!(l.reveal_deadline, 110);
    assert_eq!(gpt_ps3::reveal_p2(&mut l, "cherry".to_string(), key(1), 10), Err(gpt_ps3::LotteryError::InvalidState));
    assert_eq!(gpt_ps3::reveal_p1(&mut l, "pear".to_string()), Err(gpt_ps3::LotteryError::InvalidReveal));
    assert_eq!(gpt_ps3::reveal_p1(&mut l, "apple".to_string()), Ok(()));
    assert_eq!(l.secret1, b"apple".to_vec());
    assert_eq!(
        gpt_ps3::reveal_p2(&mut l, "cherry".to_string(), key(2), 10),
        Err(gpt_ps3::LotteryError::InvalidWinner)
    );
    assert_eq!(l.state, gpt_ps3::LotteryState::RevealP2);
    assert!(l.secret2.is_empty());
    let r = gpt_ps3::reveal_p2(&mut l, "cherry".to_string(), key(1), 10);
    assert_eq!(r, Ok(gpt_ps3::Settlement { rule_winner: Player::Player1, pot: 10 }));
    assert_eq!(l.state, gpt_ps3::LotteryState::Finished);
}

#[test]
fn gpt_ps3_checked_reveal_refuses_empty_secret() {
    let (mut l, _) = gpt_ps3::join(key(1), key(2), 5, keccak(""), 5, keccak("x"), 100).unwrap();
    assert_eq!(gpt_ps3::reveal_p1(&mut l, String::new()), Ok(()));
    assert_eq!(gpt_ps3::checked_reveal_p2(&mut l, "x".to_string(), key(1), 10), None);
    assert_eq!(l.state, gpt_ps3::LotteryState::RevealP2);
    assert_eq!(
        gpt_ps3::checked_reveal_p2(&mut l, "y".to_string(), key(1), 10),
        Some(Err(gpt_ps3::LotteryError::InvalidReveal))
    );
}

#[test]
fn gpt_ps3_redeem_after_deadline() {
    let (mut l, _) = gpt_ps3::join(key(1), key(2), 5, keccak("a"), 5, keccak("b"), 100).unwrap();
    assert_eq!(gpt_ps3::redeem_if_p1_no_reveal(&mut l, 110, 10), Err(gpt_ps3::LotteryError::TooEarly));
    assert_eq!(gpt_ps3::redeem_if_p1_no_reveal(&mut l, 111, 10), Ok(10));
    assert_eq!(l.state, gpt_ps3::LotteryState::Finished);
}
