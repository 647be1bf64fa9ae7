//! Pool whose first deposit (while the supply is zero) mints the square root
//! of the product of the two amounts, whose later deposits mint the smaller
//! proportional share, whose reserves are re-read from the pool's token
//! accounts after a deposit, and whose swaps carry no fee.
use vstd::prelude::*;
use crate::common::{Pubkey, same_key, applied, applied_with};
use crate::math::{lemma_root_of_product, floor_sqrt, lemma_u64_product, newton_isqrt};
use crate::amm::model::{lemma_proportional_shares, lemma_within_share, lemma_plain_out_is_floor, Deposit, Withdrawal, SwapTransfers, mul_div, min_int, plain_out, mul_div_wide, Handover};

verus! {

/// The pool's state; `ever_deposited` counts the deposits.
#[derive(Clone, Copy, Debug, PartialEq, Eq)]
pub struct AmmInfo {
    pub mint0: Pubkey,
    pub mint1: Pubkey,
    pub token_account0: Pubkey,
    pub token_account1: Pubkey,
    pub reserve0: u64,
    pub reserve1: u64,
    pub ever_deposited: u64,
    pub supply: u64,
}

/// Liquidity minted to one depositor.
#[derive(Clone, Copy, Debug, PartialEq, Eq)]
pub struct MintedPDA {
    pub minted: u64,
}

#[derive(Clone, Copy, Debug, PartialEq, Eq)]
pub enum AmmError {
    InvalidAmount,
    InsufficientLiquidity,
    MathOverflow,
    DivisionByZero,
    SlippageExceeded,
    InsufficientOutputAmount,
    InvalidTokenAccount,
}

/// Floor square root of a 128-bit number (below the largest one, whose
/// first Newton guess would overflow).
pub fn integer_sqrt(n: u128) -> (r: u128)
    requires
        n < u128::MAX,
    ensures
        r == floor_sqrt(n as int),
{
    if n < 2 {
        proof {
            if n == 0 {
                assert(crate::math::is_isqrt(0, 0));
            } else {
                assert(crate::math::is_isqrt(1, 1));
            }
            crate::math::lemma_floor_sqrt_is(n as int, n as int);
        }
        return n;
    }
    newton_isqrt(n)
}

/// A new pool for two mints and the two token accounts that hold its reserves.
/// Both token accounts are handed over to the pool's address `pool`: the
/// returned `Handover` names them and their new owner.
pub fn initialize(mint0: Pubkey, mint1: Pubkey, token_account0: Pubkey, token_account1: Pubkey, pool: Pubkey) -> (r: (AmmInfo, Handover))
    ensures
        r.0 == (AmmInfo {
            mint0,
            mint1,
            token_account0,
            token_account1,
            reserve0: 0,
            reserve1: 0,
            ever_deposited: 0,
            supply: 0,
        }),
        r.1 == (Handover { token_account0, token_account1, new_owner: pool }),
{
    let amm = AmmInfo {
        mint0,
        mint1,
        token_account0,
        token_account1,
        reserve0: 0,
        reserve1: 0,
        ever_deposited: 0,
        supply: 0,
    };
    (amm, Handover { token_account0, token_account1, new_owner: pool })
}

/// Liquidity that a deposit mints, or why it is refused.
pub open spec fn deposit_liquidity(amm: AmmInfo, amount0: u64, amount1: u64) -> Result<u64, AmmError> {
    if !(amount0 > 0 && amount1 > 0) {
        Err(AmmError::InvalidAmount)
    } else if amm.supply == 0 {
        let l = floor_sqrt(amount0 * amount1) as u64;
        if l > 0 {
            Ok(l)
        } else {
            Err(AmmError::InsufficientLiquidity)
        }
    } else if amm.reserve0 == 0 || amm.reserve1 == 0 {
        Err(AmmError::DivisionByZero)
    } else {
        let l = min_int(
            mul_div(amount0 as int, amm.supply as int, amm.reserve0 as int),
            mul_div(amount1 as int, amm.supply as int, amm.reserve1 as int),
        ) as u64;
        if l > 0 {
            Ok(l)
        } else {
            Err(AmmError::InsufficientLiquidity)
        }
    }
}

/// First half of a deposit, before the tokens move: the liquidity it mints.
/// The tokens to move are `amount0` and `amount1`.
pub fn deposit(amm: &AmmInfo, amount0: u64, amount1: u64) -> (r: Result<(Deposit, u64), AmmError>)
    ensures
        match deposit_liquidity(*amm, amount0, amount1) {
            Ok(l) => r == Ok::<(Deposit, u64), AmmError>((Deposit { amount0, amount1 }, l)),
            Err(e) => r == Err::<(Deposit, u64), AmmError>(e),
        },
{
    if !(amount0 > 0 && amount1 > 0) {
        return Err(AmmError::InvalidAmount);
    }
    let liquidity: u64;
    if amm.supply == 0 {
        proof {
            lemma_u64_product(amount0, amount1);
        }
        let product = match (amount0 as u128).checked_mul(amount1 as u128) {
            Some(p) => p,
            None => return Err(AmmError::MathOverflow),
        };
        liquidity = integer_sqrt(product) as u64;
        if !(liquidity > 0) {
            return Err(AmmError::InsufficientLiquidity);
        }
    } else {
        let liquidity0 = match mul_div_wide(amount0, amm.supply, amm.reserve0) {
            Some(v) => v,
            None => return Err(AmmError::DivisionByZero),
        };
        let liquidity1 = match mul_div_wide(amount1, amm.supply, amm.reserve1) {
            Some(v) => v,
            None => return Err(AmmError::DivisionByZero),
        };
        liquidity = if liquidity0 <= liquidity1 {
            liquidity0
        } else {
            liquidity1
        } as u64;
        if !(liquidity > 0) {
            return Err(AmmError::InsufficientLiquidity);
        }
    }
    Ok((Deposit { amount0, amount1 }, liquidity))
}

/// Outcome of the second half of a deposit, once the tokens have moved and
/// the pool's token accounts hold `balance0` and `balance1`.
pub open spec fn deposit_settle_result(
    amm: AmmInfo,
    minted: MintedPDA,
    liquidity: u64,
    balance0: u64,
    balance1: u64,
) -> Result<(AmmInfo, MintedPDA), AmmError> {
    if amm.supply + liquidity > u64::MAX || amm.ever_deposited + 1 > u64::MAX || minted.minted
        + liquidity > u64::MAX {
        Err(AmmError::MathOverflow)
    } else {
        Ok(
            (
                AmmInfo {
                    reserve0: balance0,
                    reserve1: balance1,
                    supply: (amm.supply + liquidity) as u64,
                    ever_deposited: (amm.ever_deposited + 1) as u64,
                    ..amm
                },
                MintedPDA { minted: (minted.minted + liquidity) as u64 },
            ),
        )
    }
}

/// Second half of a deposit: the reserves become the balances re-read from
/// the pool's token accounts, and `liquidity` is added to the supply and to
/// the depositor's record.
pub fn deposit_settle(
    amm: &mut AmmInfo,
    minted: &mut MintedPDA,
    liquidity: u64,
    balance0: u64,
    balance1: u64,
) -> (r: Result<(), AmmError>)
    ensures
        applied(
            r,
            (*old(amm), *old(minted)),
            (*final(amm), *final(minted)),
            deposit_settle_result(*old(amm), *old(minted), liquidity, balance0, balance1),
        ),
{
    let supply = match amm.supply.checked_add(liquidity) {
        Some(v) => v,
        None => return Err(AmmError::MathOverflow),
    };
    let ever = match amm.ever_deposited.checked_add(1) {
        Some(v) => v,
        None => return Err(AmmError::MathOverflow),
    };
    let new_minted = match minted.minted.checked_add(liquidity) {
        Some(v) => v,
        None => return Err(AmmError::MathOverflow),
    };
    amm.reserve0 = balance0;
    amm.reserve1 = balance1;
    amm.supply = supply;
    amm.ever_deposited = ever;
    minted.minted = new_minted;
    Ok(())
}

/// Outcome of redeeming `amount` liquidity.
pub open spec fn redeem_result(amm: AmmInfo, minted: MintedPDA, amount: u64) -> Result<
    ((AmmInfo, MintedPDA), Withdrawal),
    AmmError,
> {
    if amount == 0 {
        Err(AmmError::InvalidAmount)
    } else if minted.minted < amount || amm.supply < amount {
        Err(AmmError::InsufficientLiquidity)
    } else {
        let out0 = mul_div(amount as int, amm.reserve0 as int, amm.supply as int) as u64;
        let out1 = mul_div(amount as int, amm.reserve1 as int, amm.supply as int) as u64;
        if !(out0 > 0 && out1 > 0) {
            Err(AmmError::InsufficientLiquidity)
        } else if amm.reserve0 < out0 || amm.reserve1 < out1 {
            Err(AmmError::MathOverflow)
        } else {
            Ok(
                (
                    (
                        AmmInfo {
                            reserve0: (amm.reserve0 - out0) as u64,
                            reserve1: (amm.reserve1 - out1) as u64,
                            supply: (amm.supply - amount) as u64,
                            ..amm
                        },
                        MintedPDA { minted: (minted.minted - amount) as u64 },
                    ),
                    Withdrawal { amount0: out0, amount1: out1 },
                ),
            )
        }
    }
}

/// Redeems `amount` liquidity for the proportional share of both reserves.
pub fn redeem(amm: &mut AmmInfo, minted: &mut MintedPDA, amount: u64) -> (r: Result<Withdrawal, AmmError>)
    ensures
        applied_with(
            r,
            (*old(amm), *old(minted)),
            (*final(amm), *final(minted)),
            redeem_result(*old(amm), *old(minted), amount),
        ),
{
    if !(amount > 0) {
        return Err(AmmError::InvalidAmount);
    }
    if !(minted.minted >= amount) {
        return Err(AmmError::InsufficientLiquidity);
    }
    if !(amm.supply >= amount) {
        return Err(AmmError::InsufficientLiquidity);
    }
    let amount0 = match mul_div_wide(amount, amm.reserve0, amm.supply) {
        Some(v) => v as u64,
        None => return Err(AmmError::DivisionByZero),
    };
    let amount1 = match mul_div_wide(amount, amm.reserve1, amm.supply) {
        Some(v) => v as u64,
        None => return Err(AmmError::DivisionByZero),
    };
    if !(amount0 > 0 && amount1 > 0) {
        return Err(AmmError::InsufficientLiquidity);
    }
    let reserve0 = match amm.reserve0.checked_sub(amount0) {
        Some(v) => v,
        None => return Err(AmmError::MathOverflow),
    };
    let reserve1 = match amm.reserve1.checked_sub(amount1) {
        Some(v) => v,
        None => return Err(AmmError::MathOverflow),
    };
    amm.reserve0 = reserve0;
    amm.reserve1 = reserve1;
    amm.supply = amm.supply - amount;
    minted.minted = minted.minted - amount;
    Ok(Withdrawal { amount0, amount1 })
}

/// Outcome of swapping `amount_in` of the input mint.
pub open spec fn swap_result(amm: AmmInfo, is_mint0: bool, amount_in: u64, min_out_amount: u64) -> Result<
    (AmmInfo, SwapTransfers),
    AmmError,
> {
    let (reserve_in, reserve_out) = if is_mint0 {
        (amm.reserve0, amm.reserve1)
    } else {
        (amm.reserve1, amm.reserve0)
    };
    let out = plain_out(amount_in as int, reserve_in as int, reserve_out as int) as u64;
    if amount_in == 0 {
        Err(AmmError::InvalidAmount)
    } else if out < min_out_amount {
        Err(AmmError::SlippageExceeded)
    } else if out == 0 {
        Err(AmmError::InsufficientOutputAmount)
    } else if reserve_in + amount_in > u64::MAX || reserve_out < out {
        Err(AmmError::MathOverflow)
    } else {
        let new_in = (reserve_in + amount_in) as u64;
        let new_out = (reserve_out - out) as u64;
        Ok(
            (
                if is_mint0 {
                    AmmInfo { reserve0: new_in, reserve1: new_out, ..amm }
                } else {
                    AmmInfo { reserve1: new_in, reserve0: new_out, ..amm }
                },
                SwapTransfers { is_mint0, amount_in, amount_out: out },
            ),
        )
    }
}

/// Swaps `amount_in` of mint0 (when `is_mint0`) or of mint1 for the other
/// mint at `reserve_out * amount_in / (reserve_in + amount_in)`, refusing an
/// output below `min_out_amount`.
pub fn swap(amm: &mut AmmInfo, is_mint0: bool, amount_in: u64, min_out_amount: u64) -> (r: Result<SwapTransfers, AmmError>)
    ensures
        applied_with(r, *old(amm), *final(amm), swap_result(*old(amm), is_mint0, amount_in, min_out_amount)),
{
    if !(amount_in > 0) {
        return Err(AmmError::InvalidAmount);
    }
    let (reserve_in, reserve_out) = if is_mint0 {
        (amm.reserve0, amm.reserve1)
    } else {
        (amm.reserve1, amm.reserve0)
    };
    let denominator = (reserve_in as u128) + (amount_in as u128);
    proof {
        lemma_u64_product(reserve_out, amount_in);
    }
    let numerator = (reserve_out as u128) * (amount_in as u128);
    let amount_out = match numerator.checked_div(denominator) {
        Some(v) => v as u64,
        None => return Err(AmmError::DivisionByZero),
    };
    if !(amount_out >= min_out_amount) {
        return Err(AmmError::SlippageExceeded);
    }
    if !(amount_out > 0) {
        return Err(AmmError::InsufficientOutputAmount);
    }
    let new_in = match reserve_in.checked_add(amount_in) {
        Some(v) => v,
        None => return Err(AmmError::MathOverflow),
    };
    let new_out = match reserve_out.checked_sub(amount_out) {
        Some(v) => v,
        None => return Err(AmmError::MathOverflow),
    };
    if is_mint0 {
        amm.reserve0 = new_in;
        amm.reserve1 = new_out;
    } else {
        amm.reserve1 = new_in;
        amm.reserve0 = new_out;
    }
    Ok(SwapTransfers { is_mint0, amount_in, amount_out })
}

/// Law: a successful swap never lowers the product of the two reserves.
pub proof fn lemma_swap_keeps_product(amm: AmmInfo, is_mint0: bool, amount_in: u64, min_out_amount: u64)
    ensures
        swap_result(amm, is_mint0, amount_in, min_out_amount) matches Ok((after, _)) ==> after.reserve0
            * after.reserve1 >= amm.reserve0 * amm.reserve1,
{
    let (reserve_in, reserve_out) = if is_mint0 {
        (amm.reserve0, amm.reserve1)
    } else {
        (amm.reserve1, amm.reserve0)
    };
    if let Ok((after, _)) = swap_result(amm, is_mint0, amount_in, min_out_amount) {
        crate::amm::model::lemma_plain_swap_keeps_product(amount_in as int, reserve_in as int, reserve_out as int);
        vstd::arithmetic::mul::lemma_mul_is_commutative(amm.reserve0 as int, amm.reserve1 as int);
        vstd::arithmetic::mul::lemma_mul_is_commutative(after.reserve0 as int, after.reserve1 as int);
    }
}

/// Checks the token accounts given as the pool's, as the accounts of a
/// deposit, redeem or swap are checked before the instruction runs: they
/// must be the two token accounts the pool stores.
pub fn check_pool_accounts(amm: &AmmInfo, pool_account0: &Pubkey, pool_account1: &Pubkey) -> (r: Result<(), AmmError>)
    ensures
        same_key(*pool_account0, amm.token_account0) && same_key(*pool_account1, amm.token_account1) ==> r is Ok,
        !(same_key(*pool_account0, amm.token_account0) && same_key(*pool_account1, amm.token_account1)) ==> r
            == Err::<(), AmmError>(AmmError::InvalidTokenAccount),
{
    if !pool_account0.key_eq(&amm.token_account0) {
        return Err(AmmError::InvalidTokenAccount);
    }
    if !pool_account1.key_eq(&amm.token_account1) {
        return Err(AmmError::InvalidTokenAccount);
    }
    Ok(())
}

/// Law: a redemption of `amount` out of the supply pays, of each token, the
/// floor of `amount / supply` of that token's own reserve
/// (`out_i * supply <= amount * reserve_i < (out_i + 1) * supply`), takes it
/// out of that reserve, and burns exactly `amount` from the supply and from
/// the redeemer's balance.
pub proof fn lemma_redeem_pays_proportional_share(amm: AmmInfo, minted: MintedPDA, amount: u64)
    ensures
        redeem_result(amm, minted, amount) matches Ok(((after, m), w)) ==> {
            &&& w.amount0 * amm.supply <= amount * amm.reserve0 < (w.amount0 + 1) * amm.supply
            &&& w.amount1 * amm.supply <= amount * amm.reserve1 < (w.amount1 + 1) * amm.supply
            &&& after.reserve0 + w.amount0 == amm.reserve0
            &&& after.reserve1 + w.amount1 == amm.reserve1
            &&& after.supply + amount == amm.supply
            &&& m.minted + amount == minted.minted
        },
{
    if let Ok(_) = redeem_result(amm, minted, amount) {
        assert(amount * amm.reserve0 >= 0 && amount * amm.reserve1 >= 0) by (nonlinear_arith);
        vstd::arithmetic::mul::lemma_mul_is_commutative(amount as int, amm.reserve0 as int);
        vstd::arithmetic::mul::lemma_mul_is_commutative(amount as int, amm.reserve1 as int);
        crate::amm::model::lemma_share_is_floor(amount as int, amm.reserve0 as int, amm.supply as int);
        crate::amm::model::lemma_share_is_floor(amount as int, amm.reserve1 as int, amm.supply as int);
        crate::math::lemma_div_bounds(amount * amm.reserve0, amm.supply as int);
        crate::math::lemma_div_bounds(amount * amm.reserve1, amm.supply as int);
    }
}

/// Law: a swap pays out at least the caller's minimum `min_out_amount`, and
/// the largest output that the constant-product price allows:
/// `out * (reserve_in + in) <= reserve_out * in`, with one more unit
/// exceeding it. The input reserve grows by the input, the output reserve
/// shrinks by the output, and the supply is unchanged.
pub proof fn lemma_swap_pays_priced_output(amm: AmmInfo, is_mint0: bool, amount_in: u64, min_out_amount: u64)
    ensures
        swap_result(amm, is_mint0, amount_in, min_out_amount) matches Ok((after, t)) ==> {
            let (reserve_in, reserve_out) = if is_mint0 {
                (amm.reserve0 as int, amm.reserve1 as int)
            } else {
                (amm.reserve1 as int, amm.reserve0 as int)
            };
            let (after_in, after_out) = if is_mint0 {
                (after.reserve0 as int, after.reserve1 as int)
            } else {
                (after.reserve1 as int, after.reserve0 as int)
            };
            &&& t.is_mint0 == is_mint0
            &&& t.amount_in == amount_in
            &&& t.amount_out >= min_out_amount
            &&& t.amount_out * (reserve_in + amount_in) <= reserve_out * amount_in
            &&& reserve_out * amount_in < (t.amount_out + 1) * (reserve_in + amount_in)
            &&& after_in == reserve_in + amount_in
            &&& after_out == reserve_out - t.amount_out
            &&& after.supply == amm.supply
        },
{
    let (reserve_in, reserve_out) = if is_mint0 {
        (amm.reserve0, amm.reserve1)
    } else {
        (amm.reserve1, amm.reserve0)
    };
    if let Ok(_) = swap_result(amm, is_mint0, amount_in, min_out_amount) {
        lemma_plain_out_is_floor(amount_in as int, reserve_in as int, reserve_out as int);
    }
}

/// Law: a deposit mints a positive amount. Into a pool with no supply it
/// mints the floor square root of the product of the two amounts
/// (`l * l <= a0 * a1 < (l + 1) * (l + 1)`). Into a funded pool it never mints
/// more than either proportional share (`l * reserve_i <= a_i * supply`),
/// and, where the first share fits in 64 bits, one unit more would exceed
/// one of them: it mints the smaller share. Settling adds exactly that
/// liquidity to the supply and to the depositor's balance.
pub proof fn lemma_deposit_mints_fair_share(
    amm: AmmInfo,
    minted: MintedPDA,
    amount0: u64,
    amount1: u64,
    balance0: u64,
    balance1: u64,
)
    ensures
        deposit_liquidity(amm, amount0, amount1) matches Ok(l) ==> {
            &&& l > 0
            &&& amm.supply == 0 ==> l * l <= amount0 * amount1 < (l + 1) * (l + 1)
            &&& amm.supply != 0 ==> l * amm.reserve0 <= amount0 * amm.supply && l * amm.reserve1 <= amount1
                * amm.supply
            &&& amm.supply != 0 && amount0 * amm.supply <= u64::MAX * amm.reserve0 ==> (l + 1) * amm.reserve0
                > amount0 * amm.supply || (l + 1) * amm.reserve1 > amount1 * amm.supply
            &&& deposit_settle_result(amm, minted, l, balance0, balance1) matches Ok((after, m)) ==> after.supply
                == amm.supply + l && m.minted == minted.minted + l
        },
{
    if let Ok(l) = deposit_liquidity(amm, amount0, amount1) {
        if amm.supply == 0 {
            lemma_root_of_product(amount0, amount1);
        } else {
            lemma_proportional_shares(amount0 as int, amount1 as int, amm.supply as int, amm.reserve0 as int, amm.reserve1 as int);
            let m0 = mul_div(amount0 as int, amm.supply as int, amm.reserve0 as int);
            let m1 = mul_div(amount1 as int, amm.supply as int, amm.reserve1 as int);
            lemma_within_share(l as int, m0, amount0 as int, amm.supply as int, amm.reserve0 as int);
            lemma_within_share(l as int, m1, amount1 as int, amm.supply as int, amm.reserve1 as int);
        }
    }
}

} // verus!
