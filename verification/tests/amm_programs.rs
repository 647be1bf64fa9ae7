use chain_contracts::amm::claude_ps7;
use chain_contracts::amm::claude_ps9;
use chain_contracts::amm::deepseek_ps1;
use chain_contracts::amm::deepseek_ps7;
use chain_contracts::amm::gpt_ps1;
use chain_contracts::amm::gpt_ps2;
use chain_contracts::amm::model::{Handover, Deposit, SwapTransfers, Withdrawal};
use chain_contracts::common::Pubkey;

fn key(b: u8) -> Pubkey {
    Pubkey { bytes: [b; 32] }
}

fn product(r0: u64, r1: u64) -> u128 {
    r0 as u128 * r1 as u128
}

#[test]
fn deepseek_ps1_round() {
    let mut amm = deepseek_ps1::initialize(key(1), key(2), key(3), key(4));
    let mut minted = deepseek_ps1::MintedPDA { minted: 0 };
    assert_eq!(deepseek_ps1::deposit(&mut amm, &mut minted, 400, 0), Err(deepseek_ps1::AmmError::InvalidDepositAmount));
    assert_eq!(deepseek_ps1::deposit(&mut amm, &mut minted, 400, 900), Ok(Deposit { amount0: 400, amount1: 900 }));
    assert_eq!((minted.minted, amm.supply), (600, 600));
    let k = product(amm.reserve0, amm.reserve1);
    assert_eq!(deepseek_ps1::swap(&mut amm, true, 100, 180), Err(deepseek_ps1::AmmError::SlippageExceeded));
    assert_eq!(
        deepseek_ps1::swap(&mut amm, true, 100, 179),
        Ok(SwapTransfers { is_mint0: true, amount_in: 100, amount_out: 179 })
    );
    assert_eq!((amm.reserve0, amm.reserve1), (500, 721));
    assert!(product(amm.reserve0, amm.reserve1) >= k);
    assert_eq!(deepseek_ps1::redeem(&mut amm, &mut minted, 601), Err(deepseek_ps1::AmmError::InsufficientLiquidityTokens));
    assert_eq!(deepseek_ps1::redeem(&mut amm, &mut minted, 300), Ok(Withdrawal { amount0: 250, amount1: 360 }));
    assert_eq!((amm.reserve0, amm.reserve1, amm.supply, minted.minted), (250, 361, 300, 300));
}

#[test]
fn deepseek_ps7_round_and_pool_accounts() {
    let mut amm = deepseek_ps7::initialize(key(1), key(2), key(3), key(4));
    let mut minted = deepseek_ps7::MintedPDA { minted: 0 };
    assert_eq!(deepseek_ps7::check_pool_accounts(&amm, &key(3), &key(4)), Ok(()));
    assert_eq!(deepseek_ps7::check_pool_accounts(&amm, &key(4), &key(3)), Err(deepseek_ps7::AmmError::InvalidTokenAccount));
    deepseek_ps7::deposit(&mut amm, &mut minted, 400, 900).unwrap();
    assert_eq!(amm.supply, 600);
    assert_eq!(
        deepseek_ps7::swap(&mut amm, false, 225, 1),
        Ok(SwapTransfers { is_mint0: false, amount_in: 225, amount_out: 79 })
    );
    assert_eq!((amm.reserve0, amm.reserve1), (321, 1125));
    assert_eq!(deepseek_ps7::swap(&mut amm, true, 0, 0), Err(deepseek_ps7::AmmError::InvalidSwapAmount));
    assert_eq!(deepseek_ps7::redeem(&mut amm, &mut minted, 0), Err(deepseek_ps7::AmmError::InvalidRedeemAmount));
}

#[test]
fn claude_ps7_two_phase_deposit() {
    let (mut amm, handover) = claude_ps7::initialize(key(1), key(2), key(3), key(4), key(5));
    assert_eq!(handover, Handover { token_account0: key(3), token_account1: key(4), new_owner: key(5) });
    let (d, liquidity) = claude_ps7::deposit(&amm, 400, 900).unwrap();
    assert_eq!((d, liquidity), (Deposit { amount0: 400, amount1: 900 }, 600));
    let mut minted = claude_ps7::MintedPDA { minted: 0 };
    assert_eq!(claude_ps7::deposit_settle(&mut amm, &mut minted, liquidity, 400, 900), Ok(()));
    assert_eq!((amm.reserve0, amm.reserve1, amm.supply, amm.ever_deposited, minted.minted), (400, 900, 600, 1, 600));
    assert_eq!(
        claude_ps7::swap(&mut amm, true, 100, 0),
        Ok(SwapTransfers { is_mint0: true, amount_in: 100, amount_out: 180 })
    );
    assert_eq!((amm.reserve0, amm.reserve1), (500, 720));
    assert_eq!(claude_ps7::deposit(&amm, 0, 1), Err(claude_ps7::AmmError::InvalidAmount));
    assert_eq!(claude_ps7::check_pool_accounts(&amm, &key(3), &key(9)), Err(claude_ps7::AmmError::InvalidTokenAccount));
    assert_eq!(claude_ps7::redeem(&mut amm, &mut minted, 300), Ok(Withdrawal { amount0: 250, amount1: 360 }));
}

#[test]
fn claude_ps9_scales_by_decimals() {
    let (mut amm, _) = claude_ps9::initialize(key(1), key(2), key(3), key(4), 2, 3, key(5));
    let mut minted = claude_ps9::MintedPda { minted: 0 };
    assert_eq!(claude_ps9::deposit(&mut amm, &mut minted, 4, 9), Ok(Deposit { amount0: 400, amount1: 9000 }));
    assert_eq!((amm.reserve0, amm.reserve1, amm.supply, minted.minted), (4, 9, 4, 4));
    assert_eq!(claude_ps9::redeem(&mut amm, &mut minted, 5), Err(claude_ps9::AmmError::InsufficientMintedBalance));
    assert_eq!(claude_ps9::redeem(&mut amm, &mut minted, 2), Ok(Withdrawal { amount0: 200, amount1: 4500 }));
    assert_eq!((amm.reserve0, amm.reserve1, amm.supply), (2, 5, 2));
    assert_eq!(claude_ps9::check_pool_accounts(&amm, &key(3), &key(4)), Ok(()));
    assert_eq!(claude_ps9::check_pool_accounts(&amm, &key(1), &key(4)), Err(claude_ps9::AmmError::ConstraintRaw));
}

#[test]
fn gpt_ps1_product_swap() {
    let (mut amm, handover) = gpt_ps1::initialize(key(1), key(2), key(3), key(4), 255, key(5));
    assert_eq!(handover.new_owner, key(5));
    let mut minted = gpt_ps1::MintedPDA { minted: 0, bump: 1 };
    assert_eq!(gpt_ps1::deposit(&mut amm, &mut minted, 400, 900), Deposit { amount0: 400, amount1: 900 });
    assert_eq!((amm.supply, minted.minted), (600, 600));
    assert_eq!(
        gpt_ps1::swap(&mut amm, true, 100, 180),
        Ok(SwapTransfers { is_mint0: true, amount_in: 100, amount_out: 180 })
    );
    assert_eq!((amm.reserve0, amm.reserve1), (500, 720));
    assert_eq!(gpt_ps1::swap(&mut amm, true, 100, 1000), Err(gpt_ps1::ErrorCode::SlippageExceeded));
    assert_eq!(gpt_ps1::redeem(&mut amm, &mut minted, 300), Ok(Withdrawal { amount0: 250, amount1: 360 }));
    assert_eq!(gpt_ps1::redeem(&mut amm, &mut minted, 301), Err(gpt_ps1::ErrorCode::InsufficientLPTokens));
}

#[test]
fn gpt_ps2_round() {
    let mut amm = gpt_ps2::initialize(7);
    assert_eq!(gpt_ps2::deposit(&mut amm, 400, 900, 600), 600);
    assert_eq!(gpt_ps2::deposit(&mut amm, 40, 100, 0), 60);
    assert_eq!((amm.reserve0, amm.reserve1, amm.supply), (440, 1000, 660));
    let mut other = gpt_ps2::initialize(7);
    gpt_ps2::deposit(&mut other, 400, 900, 600);
    assert_eq!(gpt_ps2::swap(&mut other, 100, true), 178);
    assert_eq!((other.reserve0, other.reserve1), (500, 722));
    assert_eq!(gpt_ps2::redeem(&mut other, 300), (250, 361));
    assert_eq!((other.reserve0, other.reserve1, other.supply), (250, 361, 300));
}
