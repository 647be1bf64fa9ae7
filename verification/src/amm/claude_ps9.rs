//! Pool that keeps its reserves and supply in whole ("logical") token units
//! and moves `amount * 10^decimals` base units: the first deposit mints
//! `amount0`, later deposits the smaller proportional share, and swaps
//! carry no fee.
use vstd::prelude::*;
use crate::common::{Pubkey, same_key, applied_with};
use crate::math::{lemma_root_of_product, lemma_u64_product};
use crate::amm::model::{lemma_proportional_shares, lemma_within_share, lemma_plain_out_is_floor, 
    Deposit,
    Withdrawal,
    SwapTransfers,
    mul_div,
    min_int,
    plain_out,
    pow10,
    pow10_u64,
    mul_div_wide,
    Handover,
};

verus! {

/// The pool's state, with the decimals of its two mints.
#[derive(Clone, Copy, Debug, PartialEq, Eq)]
pub struct AmmInfo {
    pub mint0: Pubkey,
    pub mint1: Pubkey,
    pub token_account0: Pubkey,
    pub token_account1: Pubkey,
    pub reserve0: u64,
    pub reserve1: u64,
    pub ever_deposited: bool,
    pub supply: u64,
    pub decimals0: u8,
    pub decimals1: u8,
}

/// Liquidity minted to one depositor.
#[derive(Clone, Copy, Debug, PartialEq, Eq)]
pub struct MintedPda {
    pub minted: u64,
}

#[derive(Clone, Copy, Debug, PartialEq, Eq)]
pub enum AmmError {
    InvalidAmount,
    MathOverflow,
    InsufficientLiquidity,
    InvalidReserves,
    InsufficientOutput,
    SlippageExceeded,
    InsufficientMintedBalance,
    /// The framework's refusal of an account that fails a check declared
    /// with the accounts (a token account other than the one expected).
    ConstraintRaw,
}

/// A new pool for two mints (with their decimals) and the two token
/// accounts that hold its reserves.
/// Both token accounts are handed over to the pool's address `pool`: the
/// returned `Handover` names them and their new owner.
pub fn initialize(
    mint0: Pubkey,
    mint1: Pubkey,
    token_account0: Pubkey,
    token_account1: Pubkey,
    decimals0: u8,
    decimals1: u8,
    pool: Pubkey,
) -> (r: (AmmInfo, Handover))
    ensures
        r.0 == (AmmInfo {
            mint0,
            mint1,
            token_account0,
            token_account1,
            reserve0: 0,
            reserve1: 0,
            ever_deposited: false,
            supply: 0,
            decimals0,
            decimals1,
        }),
        r.1 == (Handover { token_account0, token_account1, new_owner: pool }),
{
    let amm = AmmInfo {
        mint0,
        mint1,
        token_account0,
        token_account1,
        reserve0: 0,
        reserve1: 0,
        ever_deposited: false,
        supply: 0,
        decimals0,
        decimals1,
    };
    (amm, Handover { token_account0, token_account1, new_owner: pool })
}

/// Outcome of a deposit of `amount0` and `amount1` whole units.
pub open spec fn deposit_result(amm: AmmInfo, minted: MintedPda, amount0: u64, amount1: u64) -> Result<
    ((AmmInfo, MintedPda), Deposit),
    AmmError,
> {
    let actual0 = amount0 * pow10(amm.decimals0 as nat);
    let actual1 = amount1 * pow10(amm.decimals1 as nat);
    if !(amount0 > 0 && amount1 > 0) {
        Err(AmmError::InvalidAmount)
    } else if actual0 > u64::MAX || actual1 > u64::MAX {
        Err(AmmError::MathOverflow)
    } else {
        let minted_now: Result<u64, AmmError> = if !amm.ever_deposited {
            Ok(amount0)
        } else if !(amm.reserve0 > 0 && amm.reserve1 > 0) {
            Err(AmmError::InvalidReserves)
        } else {
            let l = min_int(
                mul_div(amount0 as int, amm.supply as int, amm.reserve0 as int) as u64 as int,
                mul_div(amount1 as int, amm.supply as int, amm.reserve1 as int) as u64 as int,
            );
            if l > 0 {
                Ok(l as u64)
            } else {
                Err(AmmError::InsufficientLiquidity)
            }
        };
        match minted_now {
            Err(e) => Err(e),
            Ok(l) => if amm.reserve0 + amount0 > u64::MAX || amm.reserve1 + amount1 > u64::MAX
                || amm.supply + l > u64::MAX || minted.minted + l > u64::MAX {
                Err(AmmError::MathOverflow)
            } else {
                Ok(
                    (
                        (
                            AmmInfo {
                                ever_deposited: true,
                                reserve0: (amm.reserve0 + amount0) as u64,
                                reserve1: (amm.reserve1 + amount1) as u64,
                                supply: (amm.supply + l) as u64,
                                ..amm
                            },
                            MintedPda { minted: (minted.minted + l) as u64 },
                        ),
                        Deposit { amount0: actual0 as u64, amount1: actual1 as u64 },
                    ),
                )
            },
        }
    }
}

/// Deposits `amount0` and `amount1` whole units: the tokens that move are the
/// amounts scaled by the mints' decimals, the reserves grow by the whole
/// units, and the minted liquidity is credited to the depositor.
pub fn deposit(amm: &mut AmmInfo, minted: &mut MintedPda, amount0: u64, amount1: u64) -> (r: Result<Deposit, AmmError>)
    requires
        amount0 > 0 && amount1 > 0 ==> old(amm).decimals0 <= 19 && old(amm).decimals1 <= 19,
    ensures
        applied_with(
            r,
            (*old(amm), *old(minted)),
            (*final(amm), *final(minted)),
            deposit_result(*old(amm), *old(minted), amount0, amount1),
        ),
{
    if !(amount0 > 0 && amount1 > 0) {
        return Err(AmmError::InvalidAmount);
    }
    let actual_amount0 = match amount0.checked_mul(pow10_u64(amm.decimals0 as u32)) {
        Some(v) => v,
        None => return Err(AmmError::MathOverflow),
    };
    let actual_amount1 = match amount1.checked_mul(pow10_u64(amm.decimals1 as u32)) {
        Some(v) => v,
        None => return Err(AmmError::MathOverflow),
    };
    let liquidity: u64;
    if !amm.ever_deposited {
        liquidity = amount0;
    } else {
        if !(amm.reserve0 > 0 && amm.reserve1 > 0) {
            return Err(AmmError::InvalidReserves);
        }
        let liquidity0 = match mul_div_wide(amount0, amm.supply, amm.reserve0) {
            Some(v) => v as u64,
            None => return Err(AmmError::MathOverflow),
        };
        let liquidity1 = match mul_div_wide(amount1, amm.supply, amm.reserve1) {
            Some(v) => v as u64,
            None => return Err(AmmError::MathOverflow),
        };
        liquidity = if liquidity0 <= liquidity1 {
            liquidity0
        } else {
            liquidity1
        };
        if !(liquidity > 0) {
            return Err(AmmError::InsufficientLiquidity);
        }
    }
    let reserve0 = match amm.reserve0.checked_add(amount0) {
        Some(v) => v,
        None => return Err(AmmError::MathOverflow),
    };
    let reserve1 = match amm.reserve1.checked_add(amount1) {
        Some(v) => v,
        None => return Err(AmmError::MathOverflow),
    };
    let supply = match amm.supply.checked_add(liquidity) {
        Some(v) => v,
        None => return Err(AmmError::MathOverflow),
    };
    let new_minted = match minted.minted.checked_add(liquidity) {
        Some(v) => v,
        None => return Err(AmmError::MathOverflow),
    };
    amm.ever_deposited = true;
    amm.reserve0 = reserve0;
    amm.reserve1 = reserve1;
    amm.supply = supply;
    minted.minted = new_minted;
    Ok(Deposit { amount0: actual_amount0, amount1: actual_amount1 })
}

/// Outcome of redeeming `amount` liquidity.
pub open spec fn redeem_result(amm: AmmInfo, minted: MintedPda, amount: u64) -> Result<
    ((AmmInfo, MintedPda), Withdrawal),
    AmmError,
> {
    let scaled0 = amount * amm.reserve0 * pow10(amm.decimals0 as nat);
    let scaled1 = amount * amm.reserve1 * pow10(amm.decimals1 as nat);
    if amount == 0 {
        Err(AmmError::InvalidAmount)
    } else if amm.supply == 0 {
        Err(AmmError::InsufficientLiquidity)
    } else if minted.minted < amount {
        Err(AmmError::InsufficientMintedBalance)
    } else if scaled0 > u128::MAX || scaled1 > u128::MAX {
        Err(AmmError::MathOverflow)
    } else {
        let actual0 = (scaled0 / (amm.supply as int)) as u64;
        let actual1 = (scaled1 / (amm.supply as int)) as u64;
        let logical0 = mul_div(amount as int, amm.reserve0 as int, amm.supply as int) as u64;
        let logical1 = mul_div(amount as int, amm.reserve1 as int, amm.supply as int) as u64;
        if !(actual0 > 0 && actual1 > 0) {
            Err(AmmError::InsufficientOutput)
        } else if amm.reserve0 < logical0 || amm.reserve1 < logical1 || amm.supply < amount {
            Err(AmmError::MathOverflow)
        } else {
            Ok(
                (
                    (
                        AmmInfo {
                            reserve0: (amm.reserve0 - logical0) as u64,
                            reserve1: (amm.reserve1 - logical1) as u64,
                            supply: (amm.supply - amount) as u64,
                            ..amm
                        },
                        MintedPda { minted: (minted.minted - amount) as u64 },
                    ),
                    Withdrawal { amount0: actual0, amount1: actual1 },
                ),
            )
        }
    }
}

/// `amount * reserve * scale / supply` on 128 bits; `None` when the product
/// overflows.
fn scaled_share(amount: u64, reserve: u64, scale: u64, supply: u64) -> (r: Option<u64>)
    requires
        supply > 0,
    ensures
        (amount as int) * (reserve as int) * (scale as int) > u128::MAX ==> r is None,
        (amount as int) * (reserve as int) * (scale as int) <= u128::MAX ==> r == Some(
            (((amount as int) * (reserve as int) * (scale as int)) / (supply as int)) as u64,
        ),
{
    proof {
        lemma_u64_product(amount, reserve);
    }
    let p = (amount as u128) * (reserve as u128);
    match p.checked_mul(scale as u128) {
        Some(q) => Some((q / (supply as u128)) as u64),
        None => None,
    }
}

/// Redeems `amount` liquidity: the tokens that move are the share scaled by
/// the mints' decimals, the reserves fall by the unscaled share.
pub fn redeem(amm: &mut AmmInfo, minted: &mut MintedPda, amount: u64) -> (r: Result<Withdrawal, AmmError>)
    requires
        amount > 0 && old(amm).supply > 0 && old(minted).minted >= amount ==> old(amm).decimals0 <= 19
            && old(amm).decimals1 <= 19,
    ensures
        applied_with(
            r,
            (*old(amm), *old(minted)),
            (*final(amm), *final(minted)),
            redeem_result(*old(amm), *old(minted), amount),
        ),
{
    if !(amount > 0) {
        return Err(AmmError::InvalidAmount);
    }
    if !(amm.supply > 0) {
        return Err(AmmError::InsufficientLiquidity);
    }
    if !(minted.minted >= amount) {
        return Err(AmmError::InsufficientMintedBalance);
    }
    let scale0 = pow10_u64(amm.decimals0 as u32);
    let scale1 = pow10_u64(amm.decimals1 as u32);
    let actual_amount0 = match scaled_share(amount, amm.reserve0, scale0, amm.supply) {
        Some(v) => v,
        None => return Err(AmmError::MathOverflow),
    };
    let actual_amount1 = match scaled_share(amount, amm.reserve1, scale1, amm.supply) {
        Some(v) => v,
        None => return Err(AmmError::MathOverflow),
    };
    if !(actual_amount0 > 0 && actual_amount1 > 0) {
        return Err(AmmError::InsufficientOutput);
    }
    let amount0 = match mul_div_wide(amount, amm.reserve0, amm.supply) {
        Some(v) => v as u64,
        None => return Err(AmmError::MathOverflow),
    };
    let amount1 = match mul_div_wide(amount, amm.reserve1, amm.supply) {
        Some(v) => v as u64,
        None => return Err(AmmError::MathOverflow),
    };
    let reserve0 = match amm.reserve0.checked_sub(amount0) {
        Some(v) => v,
        None => return Err(AmmError::MathOverflow),
    };
    let reserve1 = match amm.reserve1.checked_sub(amount1) {
        Some(v) => v,
        None => return Err(AmmError::MathOverflow),
    };
    let supply = match amm.supply.checked_sub(amount) {
        Some(v) => v,
        None => return Err(AmmError::MathOverflow),
    };
    amm.reserve0 = reserve0;
    amm.reserve1 = reserve1;
    amm.supply = supply;
    minted.minted = minted.minted - amount;
    Ok(Withdrawal { amount0: actual_amount0, amount1: actual_amount1 })
}

/// Outcome of swapping `amount_in` of the input mint.
pub open spec fn swap_result(amm: AmmInfo, is_mint0: bool, amount_in: u64, min_out_amount: u64) -> Result<
    (AmmInfo, SwapTransfers),
    AmmError,
> {
    let (reserve_in, reserve_out) = if is_mint0 {
        (amm.reserve0, amm.reserve1)
    } else {
        (amm.reserve1, amm.reserve0)
    };
    let out = plain_out(amount_in as int, reserve_in as int, reserve_out as int) as u64;
    if amount_in == 0 {
        Err(AmmError::InvalidAmount)
    } else if !(amm.reserve0 > 0 && amm.reserve1 > 0) {
        Err(AmmError::InsufficientLiquidity)
    } else if out < min_out_amount {
        Err(AmmError::SlippageExceeded)
    } else if out == 0 {
        Err(AmmError::InsufficientOutput)
    } else if out >= reserve_out {
        Err(AmmError::InsufficientLiquidity)
    } else if reserve_in + amount_in > u64::MAX {
        Err(AmmError::MathOverflow)
    } else {
        let new_in = (reserve_in + amount_in) as u64;
        let new_out = (reserve_out - out) as u64;
        Ok(
            (
                if is_mint0 {
                    AmmInfo { reserve0: new_in, reserve1: new_out, ..amm }
                } else {
                    AmmInfo { reserve1: new_in, reserve0: new_out, ..amm }
                },
                SwapTransfers { is_mint0, amount_in, amount_out: out },
            ),
        )
    }
}

/// Swaps `amount_in` of mint0 (when `is_mint0`) or of mint1 for the other
/// mint at `reserve_out * amount_in / (reserve_in + amount_in)`, refusing an
/// output below `min_out_amount`.
pub fn swap(amm: &mut AmmInfo, is_mint0: bool, amount_in: u64, min_out_amount: u64) -> (r: Result<SwapTransfers, AmmError>)
    ensures
        applied_with(r, *old(amm), *final(amm), swap_result(*old(amm), is_mint0, amount_in, min_out_amount)),
{
    if !(amount_in > 0) {
        return Err(AmmError::InvalidAmount);
    }
    if !(amm.reserve0 > 0 && amm.reserve1 > 0) {
        return Err(AmmError::InsufficientLiquidity);
    }
    let (reserve_in, reserve_out) = if is_mint0 {
        (amm.reserve0, amm.reserve1)
    } else {
        (amm.reserve1, amm.reserve0)
    };
    proof {
        lemma_u64_product(reserve_out, amount_in);
    }
    let numerator = (reserve_out as u128) * (amount_in as u128);
    let amount_out = match numerator.checked_div((reserve_in as u128) + (amount_in as u128)) {
        Some(v) => v as u64,
        None => return Err(AmmError::MathOverflow),
    };
    if !(amount_out >= min_out_amount) {
        return Err(AmmError::SlippageExceeded);
    }
    if !(amount_out > 0) {
        return Err(AmmError::InsufficientOutput);
    }
    if !(amount_out < reserve_out) {
        return Err(AmmError::InsufficientLiquidity);
    }
    let new_in = match reserve_in.checked_add(amount_in) {
        Some(v) => v,
        None => return Err(AmmError::MathOverflow),
    };
    let new_out = reserve_out - amount_out;
    if is_mint0 {
        amm.reserve0 = new_in;
        amm.reserve1 = new_out;
    } else {
        amm.reserve1 = new_in;
        amm.reserve0 = new_out;
    }
    Ok(SwapTransfers { is_mint0, amount_in, amount_out })
}

/// Law: a successful swap never lowers the product of the two reserves.
pub proof fn lemma_swap_keeps_product(amm: AmmInfo, is_mint0: bool, amount_in: u64, min_out_amount: u64)
    ensures
        swap_result(amm, is_mint0, amount_in, min_out_amount) matches Ok((after, _)) ==> after.reserve0
            * after.reserve1 >= amm.reserve0 * amm.reserve1,
{
    let (reserve_in, reserve_out) = if is_mint0 {
        (amm.reserve0, amm.reserve1)
    } else {
        (amm.reserve1, amm.reserve0)
    };
    if let Ok((after, _)) = swap_result(amm, is_mint0, amount_in, min_out_amount) {
        crate::amm::model::lemma_plain_swap_keeps_product(amount_in as int, reserve_in as int, reserve_out as int);
        vstd::arithmetic::mul::lemma_mul_is_commutative(amm.reserve0 as int, amm.reserve1 as int);
        vstd::arithmetic::mul::lemma_mul_is_commutative(after.reserve0 as int, after.reserve1 as int);
    }
}

/// Checks the token accounts given as the pool's, as the accounts of a
/// deposit, redeem or swap are checked before the instruction runs: they
/// must be the two token accounts the pool stores.
pub fn check_pool_accounts(amm: &AmmInfo, pool_account0: &Pubkey, pool_account1: &Pubkey) -> (r: Result<(), AmmError>)
    ensures
        same_key(*pool_account0, amm.token_account0) && same_key(*pool_account1, amm.token_account1) ==> r is Ok,
        !(same_key(*pool_account0, amm.token_account0) && same_key(*pool_account1, amm.token_account1)) ==> r
            == Err::<(), AmmError>(AmmError::ConstraintRaw),
{
    if !pool_account0.key_eq(&amm.token_account0) {
        return Err(AmmError::ConstraintRaw);
    }
    if !pool_account1.key_eq(&amm.token_account1) {
        return Err(AmmError::ConstraintRaw);
    }
    Ok(())
}

/// Law: a swap pays out at least the caller's minimum `min_out_amount`, and
/// the largest output that the constant-product price allows:
/// `out * (reserve_in + in) <= reserve_out * in`, with one more unit
/// exceeding it. The input reserve grows by the input, the output reserve
/// shrinks by the output, and the supply is unchanged.
pub proof fn lemma_swap_pays_priced_output(amm: AmmInfo, is_mint0: bool, amount_in: u64, min_out_amount: u64)
    ensures
        swap_result(amm, is_mint0, amount_in, min_out_amount) matches Ok((after, t)) ==> {
            let (reserve_in, reserve_out) = if is_mint0 {
                (amm.reserve0 as int, amm.reserve1 as int)
            } else {
                (amm.reserve1 as int, amm.reserve0 as int)
            };
            let (after_in, after_out) = if is_mint0 {
                (after.reserve0 as int, after.reserve1 as int)
            } else {
                (after.reserve1 as int, after.reserve0 as int)
            };
            &&& t.is_mint0 == is_mint0
            &&& t.amount_in == amount_in
            &&& t.amount_out >= min_out_amount
            &&& t.amount_out * (reserve_in + amount_in) <= reserve_out * amount_in
            &&& reserve_out * amount_in < (t.amount_out + 1) * (reserve_in + amount_in)
            &&& after_in == reserve_in + amount_in
            &&& after_out == reserve_out - t.amount_out
            &&& after.supply == amm.supply
        },
{
    let (reserve_in, reserve_out) = if is_mint0 {
        (amm.reserve0, amm.reserve1)
    } else {
        (amm.reserve1, amm.reserve0)
    };
    if let Ok(_) = swap_result(amm, is_mint0, amount_in, min_out_amount) {
        lemma_plain_out_is_floor(amount_in as int, reserve_in as int, reserve_out as int);
    }
}

/// Law: a deposit credits the depositor with exactly what it adds to the
/// supply, and adds the deposited amounts to the reserves. Into an empty pool it mints as much as the first amount. Into a
/// funded pool it never mints more than either proportional share
/// (`l * reserve_i <= amount_i * supply`), and where both shares fit in 64 bits, one unit more would
/// exceed one of them: it mints the smaller share.
pub proof fn lemma_deposit_mints_fair_share(amm: AmmInfo, minted: MintedPda, amount0: u64, amount1: u64)
    ensures
        deposit_result(amm, minted, amount0, amount1) matches Ok(((after, m), d)) ==> {
            let l = after.supply - amm.supply;
            &&& m.minted - minted.minted == l
            &&& after.reserve0 == amm.reserve0 + amount0 && after.reserve1 == amm.reserve1 + amount1
            &&& l > 0
            &&& !amm.ever_deposited ==> l == amount0
            &&& amm.ever_deposited ==> l * amm.reserve0 <= amount0 * amm.supply && l * amm.reserve1 <= amount1
                * amm.supply
            &&& amm.ever_deposited && amount0 * amm.supply <= u64::MAX * amm.reserve0 && amount1 * amm.supply <= u64::MAX * amm.reserve1 ==> (l + 1) * amm.reserve0 > amount0 * amm.supply || (l + 1)
                * amm.reserve1 > amount1 * amm.supply
        },
{
    if let Ok(((after, m), d)) = deposit_result(amm, minted, amount0, amount1) {
        
        if !amm.ever_deposited {
            
        } else {
            lemma_proportional_shares(amount0 as int, amount1 as int, amm.supply as int, amm.reserve0 as int, amm.reserve1 as int);
            let m0 = mul_div(amount0 as int, amm.supply as int, amm.reserve0 as int);
            let m1 = mul_div(amount1 as int, amm.supply as int, amm.reserve1 as int);
            let l = after.supply - amm.supply;
            lemma_within_share(l, m0, amount0 as int, amm.supply as int, amm.reserve0 as int);
            lemma_within_share(l, m1, amount1 as int, amm.supply as int, amm.reserve1 as int);
        }
    }
}

/// Law: a redemption of `amount` out of the supply pays, of each token, the
/// floor of `amount / supply` of that token's own reserve, in the token's
/// base units (`out_i * supply <= amount * reserve_i * 10^d_i < (out_i + 1) *
/// supply`, wherever that floor fits in 64 bits); it lowers each reserve by the floor of `amount / supply` of it,
/// and burns exactly `amount` from the supply and the redeemer's balance.
pub proof fn lemma_redeem_pays_proportional_share(amm: AmmInfo, minted: MintedPda, amount: u64)
    ensures
        redeem_result(amm, minted, amount) matches Ok(((after, m), w)) ==> {
            let p0 = pow10(amm.decimals0 as nat);
            let p1 = pow10(amm.decimals1 as nat);
            &&& amount * amm.reserve0 * p0 <= u64::MAX * amm.supply ==> w.amount0 * amm.supply <= amount
                * amm.reserve0 * p0 < (w.amount0 + 1) * amm.supply
            &&& amount * amm.reserve1 * p1 <= u64::MAX * amm.supply ==> w.amount1 * amm.supply <= amount
                * amm.reserve1 * p1 < (w.amount1 + 1) * amm.supply
            &&& (amm.reserve0 - after.reserve0) * amm.supply <= amount * amm.reserve0 < (amm.reserve0
                - after.reserve0 + 1) * amm.supply
            &&& (amm.reserve1 - after.reserve1) * amm.supply <= amount * amm.reserve1 < (amm.reserve1
                - after.reserve1 + 1) * amm.supply
            &&& after.supply + amount == amm.supply
            &&& m.minted + amount == minted.minted
        },
{
    if let Ok(((after, m), w)) = redeem_result(amm, minted, amount) {
        crate::amm::model::lemma_pow10_monotone(0, amm.decimals0 as nat);
        crate::amm::model::lemma_pow10_monotone(0, amm.decimals1 as nat);
        let p0 = pow10(amm.decimals0 as nat);
        let p1 = pow10(amm.decimals1 as nat);
        assert(amount * amm.reserve0 * p0 >= 0 && amount * amm.reserve1 * p1 >= 0) by (nonlinear_arith)
            requires
                p0 >= 1,
                p1 >= 1,
        ;
        crate::math::lemma_div_bounds(amount * amm.reserve0 * p0, amm.supply as int);
        crate::math::lemma_div_bounds(amount * amm.reserve1 * p1, amm.supply as int);
        let n0 = amount * amm.reserve0 * p0;
        let n1 = amount * amm.reserve1 * p1;
        let sup = amm.supply as int;
        assert(n0 <= u64::MAX * sup ==> n0 / sup <= u64::MAX) by (nonlinear_arith)
            requires
                (n0 / sup) * sup <= n0,
                sup >= 1,
        {
            if n0 <= u64::MAX * sup && n0 / sup > u64::MAX {
                assert((n0 / sup) * sup > u64::MAX * sup);
            }
        }
        assert(n1 <= u64::MAX * sup ==> n1 / sup <= u64::MAX) by (nonlinear_arith)
            requires
                (n1 / sup) * sup <= n1,
                sup >= 1,
        {
            if n1 <= u64::MAX * sup && n1 / sup > u64::MAX {
                assert((n1 / sup) * sup > u64::MAX * sup);
            }
        }
        crate::amm::model::lemma_share_is_floor(amount as int, amm.reserve0 as int, amm.supply as int);
        crate::amm::model::lemma_share_is_floor(amount as int, amm.reserve1 as int, amm.supply as int);
    }
}

} // verus!
