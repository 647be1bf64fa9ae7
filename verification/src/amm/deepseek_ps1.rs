//! Pool whose first deposit mints the square root of the product of the two
//! amounts, whose later deposits mint the smaller proportional share, and
//! whose swaps keep a 0.3% fee.
use vstd::prelude::*;
use crate::common::{Pubkey, applied_with};
use crate::math::{lemma_root_of_product, floor_sqrt, lemma_u64_product, newton_isqrt};
use crate::amm::model::{lemma_proportional_shares, lemma_within_share, lemma_fee_out_is_floor, Deposit, Withdrawal, SwapTransfers, mul_div, min_int, fee_out, mul_div_wide,
    fee_quote, QuoteFailure};

verus! {

/// The pool's state.
#[derive(Clone, Copy, Debug, PartialEq, Eq)]
pub struct AmmInfo {
    pub mint0: Pubkey,
    pub mint1: Pubkey,
    pub token_account0: Pubkey,
    pub token_account1: Pubkey,
    pub reserve0: u64,
    pub reserve1: u64,
    pub ever_deposited: bool,
    pub supply: u64,
}

/// Liquidity minted to one depositor.
#[derive(Clone, Copy, Debug, PartialEq, Eq)]
pub struct MintedPDA {
    pub minted: u64,
}

#[derive(Clone, Copy, Debug, PartialEq, Eq)]
pub enum AmmError {
    InvalidDepositAmount,
    InvalidRedeemAmount,
    InvalidSwapAmount,
    MathOverflow,
    InsufficientLiquidityMinted,
    InsufficientLiquidityTokens,
    InsufficientLiquidity,
    SlippageExceeded,
}

/// Floor square root by Newton's iteration (below the largest 128-bit
/// number, whose first guess would overflow).
pub fn integer_sqrt(n: u128) -> (r: u128)
    requires
        n < u128::MAX,
    ensures
        r == floor_sqrt(n as int),
        crate::math::is_isqrt(r as int, n as int),
{
    if n == 0 {
        proof {
            assert(crate::math::is_isqrt(0, 0));
            crate::math::lemma_floor_sqrt_is(0, 0);
        }
        return 0;
    }
    newton_isqrt(n)
}

/// A new pool for two mints and the two token accounts that hold its reserves.
pub fn initialize(mint0: Pubkey, mint1: Pubkey, token_account0: Pubkey, token_account1: Pubkey) -> (amm: AmmInfo)
    ensures
        amm == (AmmInfo {
            mint0,
            mint1,
            token_account0,
            token_account1,
            reserve0: 0,
            reserve1: 0,
            ever_deposited: false,
            supply: 0,
        }),
{
    AmmInfo {
        mint0,
        mint1,
        token_account0,
        token_account1,
        reserve0: 0,
        reserve1: 0,
        ever_deposited: false,
        supply: 0,
    }
}

/// Outcome of a deposit of `amount0` and `amount1`.
pub open spec fn deposit_result(amm: AmmInfo, minted: MintedPDA, amount0: u64, amount1: u64) -> Result<
    ((AmmInfo, MintedPDA), Deposit),
    AmmError,
> {
    if !(amount0 > 0 && amount1 > 0) {
        Err(AmmError::InvalidDepositAmount)
    } else {
        let minted_now: Result<u64, AmmError> = if !amm.ever_deposited {
            Ok(floor_sqrt(amount0 * amount1) as u64)
        } else if amm.reserve0 == 0 || amm.reserve1 == 0 {
            Err(AmmError::MathOverflow)
        } else {
            let l0 = mul_div(amount0 as int, amm.supply as int, amm.reserve0 as int);
            let l1 = mul_div(amount1 as int, amm.supply as int, amm.reserve1 as int);
            if l0 > u64::MAX || l1 > u64::MAX {
                Err(AmmError::MathOverflow)
            } else {
                Ok(min_int(l0, l1) as u64)
            }
        };
        match minted_now {
            Err(e) => Err(e),
            Ok(l) => if l == 0 {
                Err(AmmError::InsufficientLiquidityMinted)
            } else if amm.reserve0 + amount0 > u64::MAX || amm.reserve1 + amount1 > u64::MAX
                || amm.supply + l > u64::MAX || minted.minted + l > u64::MAX {
                Err(AmmError::MathOverflow)
            } else {
                Ok(
                    (
                        (
                            AmmInfo {
                                ever_deposited: true,
                                reserve0: (amm.reserve0 + amount0) as u64,
                                reserve1: (amm.reserve1 + amount1) as u64,
                                supply: (amm.supply + l) as u64,
                                ..amm
                            },
                            MintedPDA { minted: (minted.minted + l) as u64 },
                        ),
                        Deposit { amount0, amount1 },
                    ),
                )
            },
        }
    }
}

/// Deposits `amount0` of mint0 and `amount1` of mint1 and credits the minted
/// liquidity to the depositor.
pub fn deposit(amm: &mut AmmInfo, minted: &mut MintedPDA, amount0: u64, amount1: u64) -> (r: Result<Deposit, AmmError>)
    ensures
        applied_with(
            r,
            (*old(amm), *old(minted)),
            (*final(amm), *final(minted)),
            deposit_result(*old(amm), *old(minted), amount0, amount1),
        ),
{
    if !(amount0 > 0 && amount1 > 0) {
        return Err(AmmError::InvalidDepositAmount);
    }
    let liquidity_tokens: u64;
    if !amm.ever_deposited {
        proof {
            lemma_u64_product(amount0, amount1);
        }
        let product = (amount0 as u128) * (amount1 as u128);
        let root = integer_sqrt(product);
        if root > u64::MAX as u128 {
            return Err(AmmError::MathOverflow);
        }
        liquidity_tokens = root as u64;
    } else {
        let liquidity_from_0 = match mul_div_wide(amount0, amm.supply, amm.reserve0) {
            Some(v) => v,
            None => return Err(AmmError::MathOverflow),
        };
        let liquidity_from_1 = match mul_div_wide(amount1, amm.supply, amm.reserve1) {
            Some(v) => v,
            None => return Err(AmmError::MathOverflow),
        };
        if liquidity_from_0 > u64::MAX as u128 {
            return Err(AmmError::MathOverflow);
        }
        if liquidity_from_1 > u64::MAX as u128 {
            return Err(AmmError::MathOverflow);
        }
        let l0 = liquidity_from_0 as u64;
        let l1 = liquidity_from_1 as u64;
        liquidity_tokens = if l0 <= l1 {
            l0
        } else {
            l1
        };
    }
    if !(liquidity_tokens > 0) {
        return Err(AmmError::InsufficientLiquidityMinted);
    }
    let reserve0 = match amm.reserve0.checked_add(amount0) {
        Some(v) => v,
        None => return Err(AmmError::MathOverflow),
    };
    let reserve1 = match amm.reserve1.checked_add(amount1) {
        Some(v) => v,
        None => return Err(AmmError::MathOverflow),
    };
    let supply = match amm.supply.checked_add(liquidity_tokens) {
        Some(v) => v,
        None => return Err(AmmError::MathOverflow),
    };
    let new_minted = match minted.minted.checked_add(liquidity_tokens) {
        Some(v) => v,
        None => return Err(AmmError::MathOverflow),
    };
    amm.ever_deposited = true;
    amm.reserve0 = reserve0;
    amm.reserve1 = reserve1;
    amm.supply = supply;
    minted.minted = new_minted;
    Ok(Deposit { amount0, amount1 })
}

/// Outcome of redeeming `amount` liquidity.
pub open spec fn redeem_result(amm: AmmInfo, minted: MintedPDA, amount: u64) -> Result<
    ((AmmInfo, MintedPDA), Withdrawal),
    AmmError,
> {
    if amount == 0 {
        Err(AmmError::InvalidRedeemAmount)
    } else if minted.minted < amount {
        Err(AmmError::InsufficientLiquidityTokens)
    } else if amm.supply == 0 {
        Err(AmmError::MathOverflow)
    } else {
        let out0 = mul_div(amm.reserve0 as int, amount as int, amm.supply as int);
        let out1 = mul_div(amm.reserve1 as int, amount as int, amm.supply as int);
        if out0 > u64::MAX || out1 > u64::MAX {
            Err(AmmError::MathOverflow)
        } else if !(out0 > 0 && out1 > 0) {
            Err(AmmError::InsufficientLiquidity)
        } else if amm.reserve0 < out0 || amm.reserve1 < out1 || amm.supply < amount {
            Err(AmmError::MathOverflow)
        } else {
            Ok(
                (
                    (
                        AmmInfo {
                            reserve0: (amm.reserve0 - out0) as u64,
                            reserve1: (amm.reserve1 - out1) as u64,
                            supply: (amm.supply - amount) as u64,
                            ..amm
                        },
                        MintedPDA { minted: (minted.minted - amount) as u64 },
                    ),
                    Withdrawal { amount0: out0 as u64, amount1: out1 as u64 },
                ),
            )
        }
    }
}

/// Redeems `amount` liquidity for the proportional share of both reserves.
pub fn redeem(amm: &mut AmmInfo, minted: &mut MintedPDA, amount: u64) -> (r: Result<Withdrawal, AmmError>)
    ensures
        applied_with(
            r,
            (*old(amm), *old(minted)),
            (*final(amm), *final(minted)),
            redeem_result(*old(amm), *old(minted), amount),
        ),
{
    if !(amount > 0) {
        return Err(AmmError::InvalidRedeemAmount);
    }
    if !(minted.minted >= amount) {
        return Err(AmmError::InsufficientLiquidityTokens);
    }
    let amount0_wide = match mul_div_wide(amm.reserve0, amount, amm.supply) {
        Some(v) => v,
        None => return Err(AmmError::MathOverflow),
    };
    if amount0_wide > u64::MAX as u128 {
        return Err(AmmError::MathOverflow);
    }
    let amount1_wide = match mul_div_wide(amm.reserve1, amount, amm.supply) {
        Some(v) => v,
        None => return Err(AmmError::MathOverflow),
    };
    if amount1_wide > u64::MAX as u128 {
        return Err(AmmError::MathOverflow);
    }
    let amount0 = amount0_wide as u64;
    let amount1 = amount1_wide as u64;
    if !(amount0 > 0 && amount1 > 0) {
        return Err(AmmError::InsufficientLiquidity);
    }
    let reserve0 = match amm.reserve0.checked_sub(amount0) {
        Some(v) => v,
        None => return Err(AmmError::MathOverflow),
    };
    let reserve1 = match amm.reserve1.checked_sub(amount1) {
        Some(v) => v,
        None => return Err(AmmError::MathOverflow),
    };
    let supply = match amm.supply.checked_sub(amount) {
        Some(v) => v,
        None => return Err(AmmError::MathOverflow),
    };
    amm.reserve0 = reserve0;
    amm.reserve1 = reserve1;
    amm.supply = supply;
    minted.minted = minted.minted - amount;
    Ok(Withdrawal { amount0, amount1 })
}

/// Outcome of swapping `amount_in` of the input mint.
pub open spec fn swap_result(amm: AmmInfo, is_mint0: bool, amount_in: u64, min_out_amount: u64) -> Result<
    (AmmInfo, SwapTransfers),
    AmmError,
> {
    let (reserve_in, reserve_out) = if is_mint0 {
        (amm.reserve0, amm.reserve1)
    } else {
        (amm.reserve1, amm.reserve0)
    };
    let out = fee_out(amount_in as int, reserve_in as int, reserve_out as int);
    if amount_in == 0 {
        Err(AmmError::InvalidSwapAmount)
    } else if amount_in * 997 * reserve_out > u128::MAX || out > u64::MAX {
        Err(AmmError::MathOverflow)
    } else if out < min_out_amount {
        Err(AmmError::SlippageExceeded)
    } else if out > reserve_out {
        Err(AmmError::InsufficientLiquidity)
    } else if reserve_in + amount_in > u64::MAX {
        Err(AmmError::MathOverflow)
    } else {
        let new_in = (reserve_in + amount_in) as u64;
        let new_out = (reserve_out - out) as u64;
        Ok(
            (
                if is_mint0 {
                    AmmInfo { reserve0: new_in, reserve1: new_out, ..amm }
                } else {
                    AmmInfo { reserve1: new_in, reserve0: new_out, ..amm }
                },
                SwapTransfers { is_mint0, amount_in, amount_out: out as u64 },
            ),
        )
    }
}

/// Swaps `amount_in` of mint0 (when `is_mint0`) or of mint1 for the other
/// mint, priced by the constant product with a 0.3% fee, refusing an output
/// below `min_out_amount`.
pub fn swap(amm: &mut AmmInfo, is_mint0: bool, amount_in: u64, min_out_amount: u64) -> (r: Result<SwapTransfers, AmmError>)
    ensures
        applied_with(r, *old(amm), *final(amm), swap_result(*old(amm), is_mint0, amount_in, min_out_amount)),
{
    if !(amount_in > 0) {
        return Err(AmmError::InvalidSwapAmount);
    }
    let (reserve_in, reserve_out) = if is_mint0 {
        (amm.reserve0, amm.reserve1)
    } else {
        (amm.reserve1, amm.reserve0)
    };
    let quote = match fee_quote(amount_in, reserve_in, reserve_out) {
        Ok(v) => v,
        Err(QuoteFailure::Overflow) => return Err(AmmError::MathOverflow),
        Err(QuoteFailure::ZeroDivisor) => return Err(AmmError::MathOverflow),
    };
    if quote > u64::MAX as u128 {
        return Err(AmmError::MathOverflow);
    }
    let amount_out = quote as u64;
    if !(amount_out >= min_out_amount) {
        return Err(AmmError::SlippageExceeded);
    }
    if !(amount_out <= reserve_out) {
        return Err(AmmError::InsufficientLiquidity);
    }
    let new_in = match reserve_in.checked_add(amount_in) {
        Some(v) => v,
        None => return Err(AmmError::MathOverflow),
    };
    let new_out = reserve_out - amount_out;
    if is_mint0 {
        amm.reserve0 = new_in;
        amm.reserve1 = new_out;
    } else {
        amm.reserve1 = new_in;
        amm.reserve0 = new_out;
    }
    Ok(SwapTransfers { is_mint0, amount_in, amount_out })
}

/// Law: a successful swap never lowers the product of the two reserves.
pub proof fn lemma_swap_keeps_product(amm: AmmInfo, is_mint0: bool, amount_in: u64, min_out_amount: u64)
    ensures
        swap_result(amm, is_mint0, amount_in, min_out_amount) matches Ok((after, _)) ==> after.reserve0
            * after.reserve1 >= amm.reserve0 * amm.reserve1,
{
    let (reserve_in, reserve_out) = if is_mint0 {
        (amm.reserve0, amm.reserve1)
    } else {
        (amm.reserve1, amm.reserve0)
    };
    if let Ok((after, _)) = swap_result(amm, is_mint0, amount_in, min_out_amount) {
        crate::amm::model::lemma_fee_swap_keeps_product(amount_in as int, reserve_in as int, reserve_out as int);
        vstd::arithmetic::mul::lemma_mul_is_commutative(amm.reserve0 as int, amm.reserve1 as int);
        vstd::arithmetic::mul::lemma_mul_is_commutative(after.reserve0 as int, after.reserve1 as int);
    }
}

/// Law: a redemption of `amount` out of the supply pays, of each token, the
/// floor of `amount / supply` of that token's own reserve
/// (`out_i * supply <= amount * reserve_i < (out_i + 1) * supply`), takes it
/// out of that reserve, and burns exactly `amount` from the supply and from
/// the redeemer's balance.
pub proof fn lemma_redeem_pays_proportional_share(amm: AmmInfo, minted: MintedPDA, amount: u64)
    ensures
        redeem_result(amm, minted, amount) matches Ok(((after, m), w)) ==> {
            &&& w.amount0 * amm.supply <= amount * amm.reserve0 < (w.amount0 + 1) * amm.supply
            &&& w.amount1 * amm.supply <= amount * amm.reserve1 < (w.amount1 + 1) * amm.supply
            &&& after.reserve0 + w.amount0 == amm.reserve0
            &&& after.reserve1 + w.amount1 == amm.reserve1
            &&& after.supply + amount == amm.supply
            &&& m.minted + amount == minted.minted
        },
{
    if let Ok(_) = redeem_result(amm, minted, amount) {
        assert(amount * amm.reserve0 >= 0 && amount * amm.reserve1 >= 0) by (nonlinear_arith);
        vstd::arithmetic::mul::lemma_mul_is_commutative(amount as int, amm.reserve0 as int);
        vstd::arithmetic::mul::lemma_mul_is_commutative(amount as int, amm.reserve1 as int);
        crate::math::lemma_div_bounds(amount * amm.reserve0, amm.supply as int);
        crate::math::lemma_div_bounds(amount * amm.reserve1, amm.supply as int);
    }
}

/// Law: a swap pays out at least the caller's minimum `min_out_amount`, and
/// the largest output that the 0.3% fee price allows:
/// `out * (1000 * reserve_in + 997 * in) <= 997 * in * reserve_out`, with one
/// more unit exceeding it. The input reserve grows by the input, the output
/// reserve shrinks by the output, and the supply is unchanged.
pub proof fn lemma_swap_pays_priced_output(amm: AmmInfo, is_mint0: bool, amount_in: u64, min_out_amount: u64)
    ensures
        swap_result(amm, is_mint0, amount_in, min_out_amount) matches Ok((after, t)) ==> {
            let (reserve_in, reserve_out) = if is_mint0 {
                (amm.reserve0 as int, amm.reserve1 as int)
            } else {
                (amm.reserve1 as int, amm.reserve0 as int)
            };
            let (after_in, after_out) = if is_mint0 {
                (after.reserve0 as int, after.reserve1 as int)
            } else {
                (after.reserve1 as int, after.reserve0 as int)
            };
            &&& t.is_mint0 == is_mint0
            &&& t.amount_in == amount_in
            &&& t.amount_out >= min_out_amount
            &&& t.amount_out * (reserve_in * 1000 + amount_in * 997) <= amount_in * 997 * reserve_out
            &&& amount_in * 997 * reserve_out < (t.amount_out + 1) * (reserve_in * 1000 + amount_in * 997)
            &&& after_in == reserve_in + amount_in
            &&& after_out == reserve_out - t.amount_out
            &&& after.supply == amm.supply
        },
{
    let (reserve_in, reserve_out) = if is_mint0 {
        (amm.reserve0, amm.reserve1)
    } else {
        (amm.reserve1, amm.reserve0)
    };
    if let Ok(_) = swap_result(amm, is_mint0, amount_in, min_out_amount) {
        lemma_fee_out_is_floor(amount_in as int, reserve_in as int, reserve_out as int);
    }
}

/// Law: a deposit credits the depositor with exactly what it adds to the
/// supply, and adds the deposited amounts to the reserves. Into an empty pool it mints the floor square root of the product of the two amounts (`l * l <= a0 * a1 < (l + 1) * (l + 1)`). Into a
/// funded pool it never mints more than either proportional share
/// (`l * reserve_i <= amount_i * supply`), and one unit more would
/// exceed one of them: it mints the smaller share.
pub proof fn lemma_deposit_mints_fair_share(amm: AmmInfo, minted: MintedPDA, amount0: u64, amount1: u64)
    ensures
        deposit_result(amm, minted, amount0, amount1) matches Ok(((after, m), d)) ==> {
            let l = after.supply - amm.supply;
            &&& m.minted - minted.minted == l
            &&& after.reserve0 == amm.reserve0 + amount0 && after.reserve1 == amm.reserve1 + amount1
            &&& l > 0
            &&& !amm.ever_deposited ==> l * l <= amount0 * amount1 < (l + 1) * (l + 1)
            &&& amm.ever_deposited ==> l * amm.reserve0 <= amount0 * amm.supply && l * amm.reserve1 <= amount1
                * amm.supply
            &&& amm.ever_deposited ==> (l + 1) * amm.reserve0 > amount0 * amm.supply || (l + 1)
                * amm.reserve1 > amount1 * amm.supply
        },
{
    if let Ok(((after, m), d)) = deposit_result(amm, minted, amount0, amount1) {
        
        if !amm.ever_deposited {
            lemma_root_of_product(amount0, amount1);
        } else {
            lemma_proportional_shares(amount0 as int, amount1 as int, amm.supply as int, amm.reserve0 as int, amm.reserve1 as int);
            let m0 = mul_div(amount0 as int, amm.supply as int, amm.reserve0 as int);
            let m1 = mul_div(amount1 as int, amm.supply as int, amm.reserve1 as int);
            let l = after.supply - amm.supply;
            lemma_within_share(l, m0, amount0 as int, amm.supply as int, amm.reserve0 as int);
            lemma_within_share(l, m1, amount1 as int, amm.supply as int, amm.reserve1 as int);
        }
    }
}

} // verus!
