//! Pool that multiplies every amount it is given by `10^6` before using it:
//! the first deposit mints the square root of the product of the two scaled
//! amounts, later deposits the smaller proportional share, and swaps keep a
//! 0.3% fee.
use vstd::prelude::*;
use crate::common::{Pubkey, applied_with};
use crate::math::{floor_sqrt, lemma_u64_product, newton_isqrt, lemma_div_bounds, lemma_floor_sqrt_exists,
    lemma_low_bits_at_most};
use crate::amm::model::{lemma_share_is_floor, lemma_fee_out_is_floor, lemma_minted_within_both_shares, Deposit, Withdrawal, SwapTransfers, mul_div, min_int, fee_out, mul_div_wide,
    fee_quote, QuoteFailure, Handover};

verus! {

/// The pool's state.
#[derive(Clone, Copy, Debug, PartialEq, Eq)]
pub struct AMMInfo {
    pub mint0: Pubkey,
    pub mint1: Pubkey,
    pub token_account0: Pubkey,
    pub token_account1: Pubkey,
    pub reserve0: u64,
    pub reserve1: u64,
    pub ever_deposited: bool,
    pub supply: u64,
}

/// Liquidity minted to one depositor.
#[derive(Clone, Copy, Debug, PartialEq, Eq)]
pub struct MintedPDA {
    pub minted: u64,
}

#[derive(Clone, Copy, Debug, PartialEq, Eq)]
pub enum AmmError {
    InsufficientLiquidityTokens,
    InsufficientLiquidity,
    InvalidAmount,
    SlippageExceeded,
    CalculationError,
    DivisionByZero,
}

/// The factor by which every amount is scaled.
pub const SCALE: u64 = 1_000_000;

/// Floor square root by Newton's iteration (below the largest 128-bit
/// number, whose first guess would overflow).
pub fn integer_sqrt(n: u128) -> (r: u128)
    requires
        n < u128::MAX,
    ensures
        r == floor_sqrt(n as int),
        crate::math::is_isqrt(r as int, n as int),
{
    if n == 0 {
        proof {
            assert(crate::math::is_isqrt(0, 0));
            crate::math::lemma_floor_sqrt_is(0, 0);
        }
        return 0;
    }
    newton_isqrt(n)
}

/// A new pool for two mints and the two token accounts that hold its reserves.
/// Both token accounts are handed over to the pool's address `pool`: the
/// returned `Handover` names them and their new owner.
pub fn initialize(mint0: Pubkey, mint1: Pubkey, token_account0: Pubkey, token_account1: Pubkey, pool: Pubkey) -> (r: (AMMInfo, Handover))
    ensures
        r.0 == (AMMInfo {
            mint0,
            mint1,
            token_account0,
            token_account1,
            reserve0: 0,
            reserve1: 0,
            ever_deposited: false,
            supply: 0,
        }),
        r.1 == (Handover { token_account0, token_account1, new_owner: pool }),
{
    let amm = AMMInfo {
        mint0,
        mint1,
        token_account0,
        token_account1,
        reserve0: 0,
        reserve1: 0,
        ever_deposited: false,
        supply: 0,
    };
    (amm, Handover { token_account0, token_account1, new_owner: pool })
}

/// Outcome of a deposit of `amount0` and `amount1`, both scaled by `10^6`.
pub open spec fn deposit_result(amm: AMMInfo, minted: MintedPDA, amount0: u64, amount1: u64) -> Result<
    ((AMMInfo, MintedPDA), Deposit),
    AmmError,
> {
    let scaled0 = amount0 * SCALE;
    let scaled1 = amount1 * SCALE;
    if scaled0 > u64::MAX || scaled1 > u64::MAX {
        Err(AmmError::CalculationError)
    } else {
        let minted_now: Result<u64, AmmError> = if !amm.ever_deposited {
            Ok(floor_sqrt(scaled0 * scaled1) as u64)
        } else if amm.reserve0 == 0 || amm.reserve1 == 0 {
            Err(AmmError::DivisionByZero)
        } else {
            Ok(
                min_int(
                    mul_div(scaled0, amm.supply as int, amm.reserve0 as int),
                    mul_div(scaled1, amm.supply as int, amm.reserve1 as int),
                ) as u64,
            )
        };
        match minted_now {
            Err(e) => Err(e),
            Ok(l) => if l == 0 {
                Err(AmmError::InvalidAmount)
            } else if amm.reserve0 + scaled0 > u64::MAX || amm.reserve1 + scaled1 > u64::MAX
                || amm.supply + l > u64::MAX || minted.minted + l > u64::MAX {
                Err(AmmError::CalculationError)
            } else {
                Ok(
                    (
                        (
                            AMMInfo {
                                ever_deposited: true,
                                reserve0: (amm.reserve0 + scaled0) as u64,
                                reserve1: (amm.reserve1 + scaled1) as u64,
                                supply: (amm.supply + l) as u64,
                                ..amm
                            },
                            MintedPDA { minted: (minted.minted + l) as u64 },
                        ),
                        Deposit { amount0: scaled0 as u64, amount1: scaled1 as u64 },
                    ),
                )
            },
        }
    }
}

/// Deposits `amount0` and `amount1` scaled by `10^6` and credits the minted
/// liquidity to the depositor.
pub fn deposit(amm: &mut AMMInfo, minted: &mut MintedPDA, amount0: u64, amount1: u64) -> (r: Result<Deposit, AmmError>)
    ensures
        applied_with(
            r,
            (*old(amm), *old(minted)),
            (*final(amm), *final(minted)),
            deposit_result(*old(amm), *old(minted), amount0, amount1),
        ),
{
    let scaled_amount0 = match amount0.checked_mul(SCALE) {
        Some(v) => v,
        None => return Err(AmmError::CalculationError),
    };
    let scaled_amount1 = match amount1.checked_mul(SCALE) {
        Some(v) => v,
        None => return Err(AmmError::CalculationError),
    };
    let liquidity_tokens: u64;
    if !amm.ever_deposited {
        proof {
            lemma_u64_product(scaled_amount0, scaled_amount1);
        }
        let product = (scaled_amount0 as u128) * (scaled_amount1 as u128);
        liquidity_tokens = integer_sqrt(product) as u64;
    } else {
        let liquidity0 = match mul_div_wide(scaled_amount0, amm.supply, amm.reserve0) {
            Some(v) => v,
            None => return Err(AmmError::DivisionByZero),
        };
        let liquidity1 = match mul_div_wide(scaled_amount1, amm.supply, amm.reserve1) {
            Some(v) => v,
            None => return Err(AmmError::DivisionByZero),
        };
        liquidity_tokens = if liquidity0 <= liquidity1 {
            liquidity0
        } else {
            liquidity1
        } as u64;
    }
    if !(liquidity_tokens > 0) {
        return Err(AmmError::InvalidAmount);
    }
    let reserve0 = match amm.reserve0.checked_add(scaled_amount0) {
        Some(v) => v,
        None => return Err(AmmError::CalculationError),
    };
    let reserve1 = match amm.reserve1.checked_add(scaled_amount1) {
        Some(v) => v,
        None => return Err(AmmError::CalculationError),
    };
    let supply = match amm.supply.checked_add(liquidity_tokens) {
        Some(v) => v,
        None => return Err(AmmError::CalculationError),
    };
    let new_minted = match minted.minted.checked_add(liquidity_tokens) {
        Some(v) => v,
        None => return Err(AmmError::CalculationError),
    };
    amm.ever_deposited = true;
    amm.reserve0 = reserve0;
    amm.reserve1 = reserve1;
    amm.supply = supply;
    minted.minted = new_minted;
    Ok(Deposit { amount0: scaled_amount0, amount1: scaled_amount1 })
}

/// Outcome of redeeming `amount` liquidity.
pub open spec fn redeem_result(amm: AMMInfo, minted: MintedPDA, amount: u64) -> Result<
    ((AMMInfo, MintedPDA), Withdrawal),
    AmmError,
> {
    if minted.minted < amount {
        Err(AmmError::InsufficientLiquidityTokens)
    } else if amount == 0 {
        Err(AmmError::InvalidAmount)
    } else if amm.supply == 0 {
        Err(AmmError::DivisionByZero)
    } else {
        let out0 = mul_div(amount as int, amm.reserve0 as int, amm.supply as int) as u64;
        let out1 = mul_div(amount as int, amm.reserve1 as int, amm.supply as int) as u64;
        if !(out0 > 0 && out1 > 0) {
            Err(AmmError::InsufficientLiquidity)
        } else if amm.reserve0 < out0 || amm.reserve1 < out1 || amm.supply < amount {
            Err(AmmError::CalculationError)
        } else {
            Ok(
                (
                    (
                        AMMInfo {
                            reserve0: (amm.reserve0 - out0) as u64,
                            reserve1: (amm.reserve1 - out1) as u64,
                            supply: (amm.supply - amount) as u64,
                            ..amm
                        },
                        MintedPDA { minted: (minted.minted - amount) as u64 },
                    ),
                    Withdrawal { amount0: out0, amount1: out1 },
                ),
            )
        }
    }
}

/// Redeems `amount` liquidity for the proportional share of both reserves.
pub fn redeem(amm: &mut AMMInfo, minted: &mut MintedPDA, amount: u64) -> (r: Result<Withdrawal, AmmError>)
    ensures
        applied_with(
            r,
            (*old(amm), *old(minted)),
            (*final(amm), *final(minted)),
            redeem_result(*old(amm), *old(minted), amount),
        ),
{
    if !(amount <= minted.minted) {
        return Err(AmmError::InsufficientLiquidityTokens);
    }
    if !(amount > 0) {
        return Err(AmmError::InvalidAmount);
    }
    if !(amm.supply > 0) {
        return Err(AmmError::DivisionByZero);
    }
    let amount0_out = match mul_div_wide(amount, amm.reserve0, amm.supply) {
        Some(v) => v as u64,
        None => return Err(AmmError::DivisionByZero),
    };
    let amount1_out = match mul_div_wide(amount, amm.reserve1, amm.supply) {
        Some(v) => v as u64,
        None => return Err(AmmError::DivisionByZero),
    };
    if !(amount0_out > 0 && amount1_out > 0) {
        return Err(AmmError::InsufficientLiquidity);
    }
    let reserve0 = match amm.reserve0.checked_sub(amount0_out) {
        Some(v) => v,
        None => return Err(AmmError::CalculationError),
    };
    let reserve1 = match amm.reserve1.checked_sub(amount1_out) {
        Some(v) => v,
        None => return Err(AmmError::CalculationError),
    };
    let supply = match amm.supply.checked_sub(amount) {
        Some(v) => v,
        None => return Err(AmmError::CalculationError),
    };
    amm.reserve0 = reserve0;
    amm.reserve1 = reserve1;
    amm.supply = supply;
    minted.minted = minted.minted - amount;
    Ok(Withdrawal { amount0: amount0_out, amount1: amount1_out })
}

/// Outcome of swapping `amount_in` (scaled by `10^6`) of the input mint.
pub open spec fn swap_result(amm: AMMInfo, is_mint0: bool, amount_in: u64, min_out_amount: u64) -> Result<
    (AMMInfo, SwapTransfers),
    AmmError,
> {
    let (reserve_in, reserve_out) = if is_mint0 {
        (amm.reserve0, amm.reserve1)
    } else {
        (amm.reserve1, amm.reserve0)
    };
    let scaled_in = amount_in * SCALE;
    let scaled_min = min_out_amount * SCALE;
    let out = fee_out(scaled_in, reserve_in as int, reserve_out as int) as u64;
    if scaled_in > u64::MAX || scaled_min > u64::MAX {
        Err(AmmError::CalculationError)
    } else if scaled_in == 0 {
        Err(AmmError::InvalidAmount)
    } else if !(reserve_in > 0 && reserve_out > 0) {
        Err(AmmError::InsufficientLiquidity)
    } else if scaled_in * 997 * reserve_out > u128::MAX {
        Err(AmmError::CalculationError)
    } else if out < scaled_min {
        Err(AmmError::SlippageExceeded)
    } else if out == 0 {
        Err(AmmError::InsufficientLiquidity)
    } else if reserve_in + scaled_in > u64::MAX || reserve_out < out {
        Err(AmmError::CalculationError)
    } else {
        let new_in = (reserve_in + scaled_in) as u64;
        let new_out = (reserve_out - out) as u64;
        Ok(
            (
                if is_mint0 {
                    AMMInfo { reserve0: new_in, reserve1: new_out, ..amm }
                } else {
                    AMMInfo { reserve1: new_in, reserve0: new_out, ..amm }
                },
                SwapTransfers { is_mint0, amount_in: scaled_in as u64, amount_out: out },
            ),
        )
    }
}

/// Swaps `amount_in` (scaled by `10^6`) of mint0 (when `is_mint0`) or of mint1
/// for the other mint, priced by the constant product with a 0.3% fee,
/// refusing an output below `min_out_amount` scaled by `10^6`.
pub fn swap(amm: &mut AMMInfo, is_mint0: bool, amount_in: u64, min_out_amount: u64) -> (r: Result<SwapTransfers, AmmError>)
    ensures
        applied_with(r, *old(amm), *final(amm), swap_result(*old(amm), is_mint0, amount_in, min_out_amount)),
{
    let scaled_amount_in = match amount_in.checked_mul(SCALE) {
        Some(v) => v,
        None => return Err(AmmError::CalculationError),
    };
    let scaled_min_out = match min_out_amount.checked_mul(SCALE) {
        Some(v) => v,
        None => return Err(AmmError::CalculationError),
    };
    if !(scaled_amount_in > 0) {
        return Err(AmmError::InvalidAmount);
    }
    let (reserve_in, reserve_out) = if is_mint0 {
        (amm.reserve0, amm.reserve1)
    } else {
        (amm.reserve1, amm.reserve0)
    };
    if !(reserve_in > 0 && reserve_out > 0) {
        return Err(AmmError::InsufficientLiquidity);
    }
    let amount_out = match fee_quote(scaled_amount_in, reserve_in, reserve_out) {
        Ok(v) => v as u64,
        Err(QuoteFailure::Overflow) => return Err(AmmError::CalculationError),
        Err(QuoteFailure::ZeroDivisor) => return Err(AmmError::DivisionByZero),
    };
    if !(amount_out >= scaled_min_out) {
        return Err(AmmError::SlippageExceeded);
    }
    if !(amount_out > 0) {
        return Err(AmmError::InsufficientLiquidity);
    }
    let new_in = match reserve_in.checked_add(scaled_amount_in) {
        Some(v) => v,
        None => return Err(AmmError::CalculationError),
    };
    let new_out = match reserve_out.checked_sub(amount_out) {
        Some(v) => v,
        None => return Err(AmmError::CalculationError),
    };
    if is_mint0 {
        amm.reserve0 = new_in;
        amm.reserve1 = new_out;
    } else {
        amm.reserve1 = new_in;
        amm.reserve0 = new_out;
    }
    Ok(SwapTransfers { is_mint0, amount_in: scaled_amount_in, amount_out })
}

/// Law: a successful swap never lowers the product of the two reserves.
pub proof fn lemma_swap_keeps_product(amm: AMMInfo, is_mint0: bool, amount_in: u64, min_out_amount: u64)
    ensures
        swap_result(amm, is_mint0, amount_in, min_out_amount) matches Ok((after, _)) ==> after.reserve0
            * after.reserve1 >= amm.reserve0 * amm.reserve1,
{
    let (reserve_in, reserve_out) = if is_mint0 {
        (amm.reserve0, amm.reserve1)
    } else {
        (amm.reserve1, amm.reserve0)
    };
    if let Ok((after, _)) = swap_result(amm, is_mint0, amount_in, min_out_amount) {
        crate::amm::model::lemma_fee_swap_keeps_product(amount_in * SCALE, reserve_in as int, reserve_out as int);
        vstd::arithmetic::mul::lemma_mul_is_commutative(amm.reserve0 as int, amm.reserve1 as int);
        vstd::arithmetic::mul::lemma_mul_is_commutative(after.reserve0 as int, after.reserve1 as int);
    }
}

/// Law: a redemption of `amount` out of the supply pays, of each token, the
/// floor of `amount / supply` of that token's own reserve
/// (`out_i * supply <= amount * reserve_i < (out_i + 1) * supply`), takes it
/// out of that reserve, and burns exactly `amount` from the supply and from
/// the redeemer's balance.
pub proof fn lemma_redeem_pays_proportional_share(amm: AMMInfo, minted: MintedPDA, amount: u64)
    ensures
        redeem_result(amm, minted, amount) matches Ok(((after, m), w)) ==> {
            &&& w.amount0 * amm.supply <= amount * amm.reserve0 < (w.amount0 + 1) * amm.supply
            &&& w.amount1 * amm.supply <= amount * amm.reserve1 < (w.amount1 + 1) * amm.supply
            &&& after.reserve0 + w.amount0 == amm.reserve0
            &&& after.reserve1 + w.amount1 == amm.reserve1
            &&& after.supply + amount == amm.supply
            &&& m.minted + amount == minted.minted
        },
{
    if let Ok(_) = redeem_result(amm, minted, amount) {
        lemma_share_is_floor(amount as int, amm.reserve0 as int, amm.supply as int);
        lemma_share_is_floor(amount as int, amm.reserve1 as int, amm.supply as int);
    }
}

/// Law: a swap of `amount_in` whole units takes in `amount_in * 10^6`, pays
/// out at least the caller's minimum `min_out_amount * 10^6`, and pays the
/// largest output that the 0.3% fee price allows:
/// `out * (1000 * reserve_in + 997 * in) <= 997 * in * reserve_out`, with one
/// more unit exceeding it. The input reserve grows by the input, the output
/// reserve shrinks by the output, and the supply is unchanged.
pub proof fn lemma_swap_pays_priced_output(amm: AMMInfo, is_mint0: bool, amount_in: u64, min_out_amount: u64)
    ensures
        swap_result(amm, is_mint0, amount_in, min_out_amount) matches Ok((after, t)) ==> {
            let (reserve_in, reserve_out) = if is_mint0 {
                (amm.reserve0 as int, amm.reserve1 as int)
            } else {
                (amm.reserve1 as int, amm.reserve0 as int)
            };
            let (after_in, after_out) = if is_mint0 {
                (after.reserve0 as int, after.reserve1 as int)
            } else {
                (after.reserve1 as int, after.reserve0 as int)
            };
            &&& t.is_mint0 == is_mint0
            &&& t.amount_in == amount_in * SCALE
            &&& t.amount_out >= min_out_amount * SCALE
            &&& t.amount_out > 0
            &&& t.amount_out * (reserve_in * 1000 + t.amount_in * 997) <= t.amount_in * 997 * reserve_out
            &&& t.amount_in * 997 * reserve_out < (t.amount_out + 1) * (reserve_in * 1000 + t.amount_in * 997)
            &&& after_in == reserve_in + t.amount_in
            &&& after_out == reserve_out - t.amount_out
            &&& after.supply == amm.supply
        },
{
    let (reserve_in, reserve_out) = if is_mint0 {
        (amm.reserve0, amm.reserve1)
    } else {
        (amm.reserve1, amm.reserve0)
    };
    if let Ok(_) = swap_result(amm, is_mint0, amount_in, min_out_amount) {
        lemma_fee_out_is_floor(amount_in * SCALE, reserve_in as int, reserve_out as int);
    }
}

/// Law: a deposit takes in both amounts scaled by `10^6` and credits the
/// depositor with exactly what it adds to the supply. Into an empty pool it
/// mints the floor square root of the product of the two scaled amounts
/// (`l * l <= s0 * s1 < (l + 1) * (l + 1)`); into a funded pool it never mints
/// more than either proportional share (`l * reserve_i <= s_i * supply`), and,
/// where the first share fits in 64 bits, one unit more would exceed one of
/// them: it mints the smaller share.
pub proof fn lemma_deposit_mints_fair_share(amm: AMMInfo, minted: MintedPDA, amount0: u64, amount1: u64)
    ensures
        deposit_result(amm, minted, amount0, amount1) matches Ok(((after, m), d)) ==> {
            let s0 = amount0 * SCALE;
            let s1 = amount1 * SCALE;
            let l = after.supply - amm.supply;
            &&& d.amount0 == s0 && d.amount1 == s1
            &&& after.reserve0 == amm.reserve0 + s0
            &&& after.reserve1 == amm.reserve1 + s1
            &&& m.minted - minted.minted == l
            &&& l > 0
            &&& !amm.ever_deposited ==> l * l <= s0 * s1 < (l + 1) * (l + 1)
            &&& amm.ever_deposited ==> l * amm.reserve0 <= s0 * amm.supply && l * amm.reserve1 <= s1
                * amm.supply
            &&& amm.ever_deposited && s0 * amm.supply <= u64::MAX * amm.reserve0 ==> (l + 1) * amm.reserve0
                > s0 * amm.supply || (l + 1) * amm.reserve1 > s1 * amm.supply
        },
{
    if let Ok(((after, m), d)) = deposit_result(amm, minted, amount0, amount1) {
        let s0 = amount0 * SCALE;
        let s1 = amount1 * SCALE;
        if !amm.ever_deposited {
            lemma_u64_product(s0 as u64, s1 as u64);
            assert(s0 * s1 >= 0) by (nonlinear_arith)
                requires
                    s0 >= 0,
                    s1 >= 0,
            ;
            lemma_floor_sqrt_exists(s0 * s1);
        } else {
            let m0 = mul_div(s0, amm.supply as int, amm.reserve0 as int);
            let m1 = mul_div(s1, amm.supply as int, amm.reserve1 as int);
            lemma_u64_product(s0 as u64, amm.supply);
            lemma_u64_product(s1 as u64, amm.supply);
            assert(s0 * amm.supply >= 0 && s1 * amm.supply >= 0) by (nonlinear_arith)
                requires
                    s0 >= 0,
                    s1 >= 0,
            ;
            lemma_div_bounds(s0 * amm.supply, amm.reserve0 as int);
            lemma_div_bounds(s1 * amm.supply, amm.reserve1 as int);
            assert(m0 <= s0 * amm.supply && m1 <= s1 * amm.supply) by (nonlinear_arith)
                requires
                    m0 * amm.reserve0 <= s0 * amm.supply,
                    m1 * amm.reserve1 <= s1 * amm.supply,
                    m0 >= 0,
                    m1 >= 0,
                    amm.reserve0 >= 1,
                    amm.reserve1 >= 1,
            ;
            let mn = min_int(m0, m1);
            lemma_low_bits_at_most(mn);
            lemma_minted_within_both_shares(s0, s1, amm.supply as int, amm.reserve0 as int, amm.reserve1 as int);
            let l = mn as u64 as int;
            assert(l * amm.reserve0 <= mn * amm.reserve0 && l * amm.reserve1 <= mn * amm.reserve1)
                by (nonlinear_arith)
                requires
                    l <= mn,
                    amm.reserve0 >= 0,
                    amm.reserve1 >= 0,
            ;
            if s0 * amm.supply <= u64::MAX * amm.reserve0 {
                assert(m0 <= u64::MAX) by (nonlinear_arith)
                    requires
                        m0 * amm.reserve0 <= s0 * amm.supply,
                        s0 * amm.supply <= u64::MAX * amm.reserve0,
                        amm.reserve0 >= 1,
                {
                    if m0 > u64::MAX {
                        assert(m0 * amm.reserve0 > u64::MAX * amm.reserve0);
                    }
                }
            }
        }
    }
}

} // verus!
