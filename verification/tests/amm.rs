use chain_contracts::amm::claude_ps2;
use chain_contracts::amm::claude_ps7;
use chain_contracts::amm::copilot_ps2;
use chain_contracts::amm::gpt_ps9;
use chain_contracts::amm::model::{Handover, fee_quote, Deposit, QuoteFailure, SwapTransfers, Withdrawal};
use chain_contracts::common::Pubkey;

fn key(b: u8) -> Pubkey {
    Pubkey { bytes: [b; 32] }
}

fn fresh_claude_ps2() -> claude_ps2::AmmInfo {
    claude_ps2::initialize(key(1), key(2), key(3), key(4), key(5)).0
}

#[test]
fn claude_ps2_initialize_hands_token_accounts_to_pool() {
    let (amm, handover) = claude_ps2::initialize(key(1), key(2), key(3), key(4), key(5));
    assert_eq!(handover, Handover { token_account0: key(3), token_account1: key(4), new_owner: key(5) });
    assert_eq!((amm.reserve0, amm.reserve1, amm.supply, amm.ever_deposited), (0, 0, 0, false));
}

#[test]
fn claude_ps2_first_deposit_mints_root_less_locked_unit() {
    let mut amm = fresh_claude_ps2();
    let mut minted = claude_ps2::MintedPda { minted: 0 };
    let r = claude_ps2::deposit(&mut amm, &mut minted, 100, 400);
    assert_eq!(r, Ok(Deposit { amount0: 100, amount1: 400 }));
    assert_eq!(minted.minted, 199);
    assert_eq!(amm.supply, 200);
    assert_eq!((amm.reserve0, amm.reserve1), (100, 400));
    assert!(amm.ever_deposited);
}

#[test]
fn claude_ps2_later_deposit_mints_proportional_share() {
    let mut amm = fresh_claude_ps2();
    let mut minted = claude_ps2::MintedPda { minted: 0 };
    claude_ps2::deposit(&mut amm, &mut minted, 100, 400).unwrap();
    let r = claude_ps2::deposit(&mut amm, &mut minted, 50, 200);
    assert_eq!(r, Ok(Deposit { amount0: 50, amount1: 200 }));
    assert_eq!(minted.minted, 299);
    assert_eq!(amm.supply, 300);
    assert_eq!((amm.reserve0, amm.reserve1), (150, 600));
}

#[test]
fn claude_ps2_deposit_refuses_zero_amount() {
    let mut amm = fresh_claude_ps2();
    let before = amm;
    let mut minted = claude_ps2::MintedPda { minted: 0 };
    let r = claude_ps2::deposit(&mut amm, &mut minted, 0, 5);
    assert_eq!(r, Err(claude_ps2::ErrorCode::InvalidAmount));
    assert_eq!(amm, before);
    assert_eq!(minted.minted, 0);
}

#[test]
fn claude_ps2_first_deposit_too_small_for_locked_unit() {
    let mut amm = fresh_claude_ps2();
    let mut minted = claude_ps2::MintedPda { minted: 0 };
    let r = claude_ps2::deposit(&mut amm, &mut minted, 1, 1);
    assert_eq!(r, Err(claude_ps2::ErrorCode::InsufficientLiquidity));
}

#[test]
fn claude_ps2_swap_keeps_fee() {
    let mut amm = fresh_claude_ps2();
    let mut minted = claude_ps2::MintedPda { minted: 0 };
    claude_ps2::deposit(&mut amm, &mut minted, 150, 600).unwrap();
    let r = claude_ps2::swap(&mut amm, true, 100, 1);
    assert_eq!(r, Ok(SwapTransfers { is_mint0: true, amount_in: 100, amount_out: 239 }));
    assert_eq!((amm.reserve0, amm.reserve1), (250, 361));
}

#[test]
fn claude_ps2_swap_refuses_short_output() {
    let mut amm = fresh_claude_ps2();
    let mut minted = claude_ps2::MintedPda { minted: 0 };
    claude_ps2::deposit(&mut amm, &mut minted, 150, 600).unwrap();
    let before = amm;
    let r = claude_ps2::swap(&mut amm, true, 100, 240);
    assert_eq!(r, Err(claude_ps2::ErrorCode::SlippageExceeded));
    assert_eq!(amm, before);
}

#[test]
fn claude_ps2_redeem_reads_and_writes_raw_balance() {
    let mut amm = fresh_claude_ps2();
    let mut minted = claude_ps2::MintedPda { minted: 0 };
    claude_ps2::deposit(&mut amm, &mut minted, 100, 400).unwrap();
    let mut data = vec![9u8; 8];
    data.extend_from_slice(&199u64.to_le_bytes());
    data.push(7);
    let mut account = claude_ps2::MintedAccount { owned_by_program: true, data };
    let r = claude_ps2::redeem(&mut amm, &mut account, 50);
    assert_eq!(r, Ok(Withdrawal { amount0: 25, amount1: 100 }));
    assert_eq!((amm.reserve0, amm.reserve1, amm.supply), (75, 300, 150));
    assert_eq!(&account.data[0..8], &[9u8; 8]);
    assert_eq!(&account.data[8..16], &149u64.to_le_bytes());
    assert_eq!(account.data[16], 7);
}

#[test]
fn claude_ps2_redeem_refuses_more_than_recorded() {
    let mut amm = fresh_claude_ps2();
    let mut minted = claude_ps2::MintedPda { minted: 0 };
    claude_ps2::deposit(&mut amm, &mut minted, 100, 400).unwrap();
    let mut data = vec![0u8; 8];
    data.extend_from_slice(&10u64.to_le_bytes());
    let mut account = claude_ps2::MintedAccount { owned_by_program: true, data };
    let r = claude_ps2::redeem(&mut amm, &mut account, 11);
    assert_eq!(r, Err(claude_ps2::ErrorCode::InsufficientLiquidity));
    assert_eq!(&account.data[8..16], &10u64.to_le_bytes());
}

#[test]
fn claude_ps2_redeem_refuses_foreign_account() {
    let mut amm = fresh_claude_ps2();
    let mut account = claude_ps2::MintedAccount { owned_by_program: false, data: vec![0u8; 16] };
    let r = claude_ps2::redeem(&mut amm, &mut account, 1);
    assert_eq!(r, Err(claude_ps2::ErrorCode::AccountNotInitialized));
}

#[test]
fn claude_ps2_round_trip_returns_no_more_than_deposited() {
    let mut amm = fresh_claude_ps2();
    let mut first = claude_ps2::MintedPda { minted: 0 };
    claude_ps2::deposit(&mut amm, &mut first, 100, 400).unwrap();
    let mut second = claude_ps2::MintedPda { minted: 0 };
    claude_ps2::deposit(&mut amm, &mut second, 33, 100).unwrap();
    assert_eq!(second.minted, 50);
    // The supply is the locked unit plus both balances.
    assert_eq!(amm.supply, 1 + first.minted + second.minted);
    let mut data = vec![0u8; 8];
    data.extend_from_slice(&second.minted.to_le_bytes());
    let mut account = claude_ps2::MintedAccount { owned_by_program: true, data };
    let r = claude_ps2::redeem(&mut amm, &mut account, 50);
    assert_eq!(r, Ok(Withdrawal { amount0: 26, amount1: 100 }));
    assert_eq!((amm.reserve0, amm.reserve1), (107, 400));
    assert_eq!(amm.supply, 1 + first.minted);
    assert_eq!(&account.data[8..16], &0u64.to_le_bytes());
}

#[test]
fn integer_square_roots() {
    assert_eq!(claude_ps7::integer_sqrt(0), 0);
    assert_eq!(claude_ps7::integer_sqrt(1), 1);
    assert_eq!(claude_ps7::integer_sqrt(1_000_000), 1000);
    assert_eq!(claude_ps7::integer_sqrt(999_999), 999);
    assert_eq!(claude_ps7::integer_sqrt(u128::MAX - 1), u64::MAX as u128);
}

#[test]
fn copilot_ps2_floor_square_root() {
    assert_eq!(copilot_ps2::sqrt_u128(0), 0);
    assert_eq!(copilot_ps2::sqrt_u128(2), 1);
    assert_eq!(copilot_ps2::sqrt_u128(4), 2);
    assert_eq!(copilot_ps2::sqrt_u128(3), 1);
    assert_eq!(copilot_ps2::sqrt_u128(17), 4);
    assert_eq!(copilot_ps2::sqrt_u128(40_000), 200);
}

#[test]
fn copilot_ps2_powers_of_ten() {
    assert_eq!(copilot_ps2::pow10(0), Ok(1));
    assert_eq!(copilot_ps2::pow10(18), Ok(1_000_000_000_000_000_000));
    assert_eq!(copilot_ps2::pow10(38), Ok(10u128.pow(38)));
    assert_eq!(copilot_ps2::pow10(39), Err(copilot_ps2::AmmError::DecimalsTooLarge));
}

#[test]
fn copilot_ps2_initialize_stores_derived_bump() {
    let program_id = key(42);
    let (mint0, mint1) = (key(1), key(2));
    let r = copilot_ps2::initialize(mint0, mint1, key(3), key(4), mint0, mint1, program_id, key(5));
    let id = anchor_lang::prelude::Pubkey::new_from_array(program_id.bytes);
    let (_, bump) = anchor_lang::prelude::Pubkey::find_program_address(
        &[b"amm".as_ref(), &mint0.bytes, &mint1.bytes],
        &id,
    );
    let (amm, handover) = r.unwrap();
    assert_eq!(amm.bump, bump);
    assert_eq!(handover, Handover { token_account0: key(3), token_account1: key(4), new_owner: key(5) });
    assert_eq!((amm.reserve0, amm.reserve1, amm.supply), (0, 0, 0));
}

#[test]
fn copilot_ps2_initialize_refuses_foreign_token_account() {
    let r = copilot_ps2::initialize(key(1), key(2), key(3), key(4), key(9), key(2), key(42), key(5));
    assert_eq!(r, Err(copilot_ps2::AmmError::TokenAccountMintMismatch));
}

#[test]
fn gpt_ps9_unit_conversions() {
    assert_eq!(gpt_ps9::human_to_native(5, 6), Ok(5_000_000));
    assert_eq!(gpt_ps9::human_to_native(0, 200), Ok(0));
    assert_eq!(gpt_ps9::human_to_native(19, 18), Err(gpt_ps9::AmmError::Overflow));
    assert_eq!(gpt_ps9::human_to_native(18, 18), Ok(18_000_000_000_000_000_000));
    assert_eq!(gpt_ps9::native_to_human_u128(5_999_999, 6), Ok(5));
    assert_eq!(gpt_ps9::pow10_u128(39), Err(gpt_ps9::AmmError::Overflow));
}

#[test]
fn fee_quote_values() {
    assert_eq!(fee_quote(100, 150, 600), Ok(239));
    assert_eq!(fee_quote(1000, 1000, 2000), Ok(998));
    assert_eq!(fee_quote(0, 0, 10), Err(QuoteFailure::ZeroDivisor));
    assert_eq!(fee_quote(u64::MAX, 1, u64::MAX), Err(QuoteFailure::Overflow));
}
