//! Pool that keeps 128-bit reserves and supply in base units of mint1's
//! decimals: deposits scale both amounts by `10^decimals1`, the first deposit
//! sets the supply to the square root of the product of the reserves, later
//! deposits mint in proportion at a precision of `10^9`; the depositor's
//! record counts deposits; swaps carry no fee and price by the product of
//! the reserves.
use vstd::prelude::*;
use crate::common::{Pubkey, applied, applied_with};
use crate::address::{program_address_search, try_find_program_address};
use crate::math::{floor_sqrt, is_isqrt, lemma_floor_sqrt_is, newton_step, lemma_newton_step_above,
    lemma_newton_step_decreases, lemma_newton_sum_bound, lemma_newton_sum_tight};
use crate::amm::model;
use crate::amm::model::{Handover, Deposit, Withdrawal, SwapTransfers, min_int, checked_pow10_u128, lemma_pow10_limits,
    lemma_pow10_monotone};

verus! {

/// Precision of the deposit ratios.
pub const U1E9: u128 = 1_000_000_000u128;

/// The pool's state.
#[derive(Clone, Copy, Debug, PartialEq, Eq)]
pub struct AmmInfo {
    pub mint0: Pubkey,
    pub mint1: Pubkey,
    pub token_account0: Pubkey,
    pub token_account1: Pubkey,
    pub reserve0: u128,
    pub reserve1: u128,
    pub ever_deposited: bool,
    pub supply: u128,
    pub bump: u8,
}

/// How many deposits one depositor has made.
#[derive(Clone, Copy, Debug, PartialEq, Eq)]
pub struct MintedPDA {
    pub minted: u64,
    pub bump: u8,
}

#[derive(Clone, Copy, Debug, PartialEq, Eq)]
pub enum AmmError {
    TokenAccountMintMismatch,
    MintMismatch,
    Overflow,
    NoReserves,
    NotMinted,
    ZeroSupply,
    SlippageExceeded,
    DecimalsTooLarge,
    InvalidMintedPDA,
    /// No bump seed yields the pool's address (where the instruction aborts).
    AddressNotFound,
}

/// Floor square root (`r * r <= x < (r + 1) * (r + 1)`), by Newton's
/// iteration started at `x / 2 + 1`; below 4 the root is read off directly.
pub fn sqrt_u128(x: u128) -> (r: u128)
    ensures
        r == floor_sqrt(x as int),
        is_isqrt(r as int, x as int),
{
    if x <= 3 {
        proof {
            if x == 0 {
                assert(is_isqrt(0, 0));
                lemma_floor_sqrt_is(0, 0);
            } else {
                assert(is_isqrt(1, x as int));
                lemma_floor_sqrt_is(1, x as int);
            }
        }
        return if x == 0 {
            0
        } else {
            1
        };
    }
    let mut z: u128 = x;
    assert(x >> 1 == x / 2) by (bit_vector);
    let mut y: u128 = (x >> 1) + 1;
    proof {
        let h = x as int / 2;
        assert((h + 2) * (h + 2) > x) by (nonlinear_arith)
            requires
                x <= 2 * h + 1,
                h >= 1,
        ;
        assert((x as int + 1) * (x as int + 1) > x) by (nonlinear_arith)
            requires
                x >= 2,
        ;
    }
    while y < z
        invariant
            x >= 4,
            1 <= y,
            1 <= z <= x,
            (x as int) < (y as int + 1) * (y as int + 1),
            (x as int) < (z as int + 1) * (z as int + 1),
            z == x ==> y == x / 2 + 1,
            z != x ==> y == newton_step(x as int, z as int),
        decreases z,
    {
        proof {
            if x >= 4 {
                assert(y >= 2) by (nonlinear_arith)
                    requires
                        (x as int) < (y as int + 1) * (y as int + 1),
                        x >= 4,
                        y >= 1,
                {
                    if y == 1 {
                        assert((y as int + 1) * (y as int + 1) == 4);
                    }
                }
                lemma_newton_sum_tight(x as int, y as int);
            } else {
                lemma_newton_sum_bound(x as int, y as int);
            }
            lemma_newton_step_above(x as int, y as int);
        }
        z = y;
        let s = x / y + y;
        assert(s >> 1 == s / 2) by (bit_vector);
        y = s >> 1;
        proof {
            assert((x as int) < (y as int + 1) * (y as int + 1));
            assert(y >= 1) by (nonlinear_arith)
                requires
                    (x as int) < (y as int + 1) * (y as int + 1),
                    x >= 2,
            {
                if y == 0 {
                    assert((y as int + 1) * (y as int + 1) == 1);
                }
            }
        }
    }
    proof {
        if z != x {
            if (z as int) * (z as int) > x {
                lemma_newton_step_decreases(x as int, z as int);
            }
            assert((z as int) * (z as int) >= 0) by (nonlinear_arith);
            lemma_floor_sqrt_is(z as int, x as int);
        } else {
            assert(y == x / 2 + 1);
            assert(false);
        }
    }
    z
}

/// `10^decimals`, refused above 38 decimals.
pub fn pow10(decimals: u32) -> (r: Result<u128, AmmError>)
    ensures
        decimals > 38 ==> r == Err::<u128, AmmError>(AmmError::DecimalsTooLarge),
        decimals <= 38 ==> r is Ok && r.unwrap() as int == model::pow10(decimals as nat),
        decimals <= 38 ==> model::pow10(decimals as nat) <= u128::MAX,
{
    if !(decimals <= 38) {
        return Err(AmmError::DecimalsTooLarge);
    }
    proof {
        lemma_pow10_limits();
        lemma_pow10_monotone(decimals as nat, 38);
    }
    match checked_pow10_u128(decimals) {
        Some(v) => Ok(v),
        None => Err(AmmError::Overflow),
    }
}

/// Outcome of creating the pool; `token_account_mint0` and
/// `token_account_mint1` are the mints of the two token accounts, and
/// `bump` the bump of the pool's address; both token accounts go over to
/// the pool's address `pool`.
pub open spec fn initialize_result(
    mint0: Pubkey,
    mint1: Pubkey,
    token_account0: Pubkey,
    token_account1: Pubkey,
    token_account_mint0: Pubkey,
    token_account_mint1: Pubkey,
    bump: u8,
    pool: Pubkey,
) -> Result<(AmmInfo, Handover), AmmError> {
    if !crate::common::same_key(token_account_mint0, mint0) || !crate::common::same_key(
        token_account_mint1,
        mint1,
    ) {
        Err(AmmError::TokenAccountMintMismatch)
    } else {
        Ok(
            (
            AmmInfo {
                mint0,
                mint1,
                token_account0,
                token_account1,
                reserve0: 0,
                reserve1: 0,
                ever_deposited: false,
                supply: 0,
                bump,
            },
            Handover { token_account0, token_account1, new_owner: pool },
            ),
        )
    }
}

/// A new pool, refused when a token account does not hold its mint; `bump`
/// is the bump seed of the pool's address, and both token accounts are
/// handed over to the pool's address `pool` (the returned `Handover`).
pub fn initialize_with_bump(
    mint0: Pubkey,
    mint1: Pubkey,
    token_account0: Pubkey,
    token_account1: Pubkey,
    token_account_mint0: Pubkey,
    token_account_mint1: Pubkey,
    bump: u8,
    pool: Pubkey,
) -> (r: Result<(AmmInfo, Handover), AmmError>)
    ensures
        r == initialize_result(
            mint0,
            mint1,
            token_account0,
            token_account1,
            token_account_mint0,
            token_account_mint1,
            bump,
            pool,
        ),
{
    if !token_account_mint0.key_eq(&mint0) {
        return Err(AmmError::TokenAccountMintMismatch);
    }
    if !token_account_mint1.key_eq(&mint1) {
        return Err(AmmError::TokenAccountMintMismatch);
    }
    Ok(
        (
        AmmInfo {
            mint0,
            mint1,
            token_account0,
            token_account1,
            reserve0: 0,
            reserve1: 0,
            ever_deposited: false,
            supply: 0,
            bump,
        },
        Handover { token_account0, token_account1, new_owner: pool },
        ),
    )
}

/// Outcome of creating the pool of `mint0` and `mint1` for the program
/// `program_id`, at the pool account `pool`.
pub open spec fn initialize_found_result(
    mint0: Pubkey,
    mint1: Pubkey,
    token_account0: Pubkey,
    token_account1: Pubkey,
    token_account_mint0: Pubkey,
    token_account_mint1: Pubkey,
    program_id: Pubkey,
    pool: Pubkey,
) -> Result<(AmmInfo, Handover), AmmError> {
    if !crate::common::same_key(token_account_mint0, mint0) || !crate::common::same_key(
        token_account_mint1,
        mint1,
    ) {
        Err(AmmError::TokenAccountMintMismatch)
    } else {
        match program_address_search(model::pool_seeds(mint0, mint1), program_id.bytes@) {
            Some(found) => initialize_result(
                mint0,
                mint1,
                token_account0,
                token_account1,
                token_account_mint0,
                token_account_mint1,
                found.1,
                pool,
            ),
            None => Err(AmmError::AddressNotFound),
        }
    }
}

/// A new pool, refused when a token account does not hold its mint; stores
/// the bump seed of the pool's address, derived from `"amm"` and the two
/// mints' keys, and hands both token accounts over to the pool account
/// `pool` (the returned `Handover`).
pub fn initialize(
    mint0: Pubkey,
    mint1: Pubkey,
    token_account0: Pubkey,
    token_account1: Pubkey,
    token_account_mint0: Pubkey,
    token_account_mint1: Pubkey,
    program_id: Pubkey,
    pool: Pubkey,
) -> (r: Result<(AmmInfo, Handover), AmmError>)
    ensures
        r == initialize_found_result(
            mint0,
            mint1,
            token_account0,
            token_account1,
            token_account_mint0,
            token_account_mint1,
            program_id,
            pool,
        ),
{
    if !token_account_mint0.key_eq(&mint0) {
        return Err(AmmError::TokenAccountMintMismatch);
    }
    if !token_account_mint1.key_eq(&mint1) {
        return Err(AmmError::TokenAccountMintMismatch);
    }
    let seeds = model::pool_seed_list(&mint0, &mint1);
    match try_find_program_address(&seeds, &program_id) {
        Some((_pda, bump)) => initialize_with_bump(
            mint0,
            mint1,
            token_account0,
            token_account1,
            token_account_mint0,
            token_account_mint1,
            bump,
            pool,
        ),
        None => Err(AmmError::AddressNotFound),
    }
}

/// Outcome of a deposit of `amount0` and `amount1` whole units of mints whose
/// keys are `mint0` and `mint1`, scaled by `10^decimals1`.
pub open spec fn deposit_result(
    amm: AmmInfo,
    minted: MintedPDA,
    mint0: Pubkey,
    mint1: Pubkey,
    decimals1: u8,
    amount0: u64,
    amount1: u64,
) -> Result<((AmmInfo, MintedPDA), Deposit), AmmError> {
    let scale = model::pow10(decimals1 as nat);
    let scaled0 = amount0 * scale;
    let scaled1 = amount1 * scale;
    let r0 = amm.reserve0 + scaled0;
    let r1 = amm.reserve1 + scaled1;
    if !crate::common::same_key(amm.mint0, mint0) || !crate::common::same_key(amm.mint1, mint1) {
        Err(AmmError::MintMismatch)
    } else if decimals1 > 38 {
        Err(AmmError::DecimalsTooLarge)
    } else if scaled0 > u128::MAX || scaled1 > u128::MAX || scaled0 > u64::MAX || scaled1 > u64::MAX {
        Err(AmmError::Overflow)
    } else if r0 > u128::MAX || r1 > u128::MAX {
        Err(AmmError::Overflow)
    } else {
        let supply: Result<u128, AmmError> = if !amm.ever_deposited {
            if r0 * r1 > u128::MAX {
                Err(AmmError::Overflow)
            } else {
                Ok(floor_sqrt(r0 * r1) as u128)
            }
        } else if !(r0 > 0 && r1 > 0) {
            Err(AmmError::NoReserves)
        } else if scaled0 * U1E9 > u128::MAX || scaled1 * U1E9 > u128::MAX {
            Err(AmmError::Overflow)
        } else {
            let ratio = min_int((scaled0 * U1E9) / r0, (scaled1 * U1E9) / r1);
            if amm.supply * ratio > u128::MAX {
                Err(AmmError::Overflow)
            } else {
                let m = (amm.supply * ratio) / (U1E9 as int);
                if amm.supply + m > u128::MAX {
                    Err(AmmError::Overflow)
                } else {
                    Ok((amm.supply + m) as u128)
                }
            }
        };
        match supply {
            Err(e) => Err(e),
            Ok(s) => if minted.minted + 1 > u64::MAX {
                Err(AmmError::Overflow)
            } else {
                Ok(
                    (
                        (
                            AmmInfo {
                                reserve0: r0 as u128,
                                reserve1: r1 as u128,
                                supply: s,
                                ever_deposited: true,
                                ..amm
                            },
                            MintedPDA { minted: (minted.minted + 1) as u64, ..minted },
                        ),
                        Deposit { amount0: scaled0 as u64, amount1: scaled1 as u64 },
                    ),
                )
            },
        }
    }
}

/// Deposits `amount0` and `amount1` whole units, scaled to base units by
/// mint1's decimals.
pub fn deposit(
    amm: &mut AmmInfo,
    minted: &mut MintedPDA,
    mint0: Pubkey,
    mint1: Pubkey,
    decimals1: u8,
    amount0: u64,
    amount1: u64,
) -> (r: Result<Deposit, AmmError>)
    ensures
        applied_with(
            r,
            (*old(amm), *old(minted)),
            (*final(amm), *final(minted)),
            deposit_result(*old(amm), *old(minted), mint0, mint1, decimals1, amount0, amount1),
        ),
{
    if !amm.mint0.key_eq(&mint0) {
        return Err(AmmError::MintMismatch);
    }
    if !amm.mint1.key_eq(&mint1) {
        return Err(AmmError::MintMismatch);
    }
    let scale = match pow10(decimals1 as u32) {
        Ok(v) => v,
        Err(e) => return Err(e),
    };
    let scaled0 = match (amount0 as u128).checked_mul(scale) {
        Some(v) => v,
        None => return Err(AmmError::Overflow),
    };
    let scaled1 = match (amount1 as u128).checked_mul(scale) {
        Some(v) => v,
        None => return Err(AmmError::Overflow),
    };
    if scaled0 > u64::MAX as u128 {
        return Err(AmmError::Overflow);
    }
    if scaled1 > u64::MAX as u128 {
        return Err(AmmError::Overflow);
    }
    let scaled0_u64 = scaled0 as u64;
    let scaled1_u64 = scaled1 as u64;
    let reserve0 = match amm.reserve0.checked_add(scaled0) {
        Some(v) => v,
        None => return Err(AmmError::Overflow),
    };
    let reserve1 = match amm.reserve1.checked_add(scaled1) {
        Some(v) => v,
        None => return Err(AmmError::Overflow),
    };
    let supply: u128;
    if !amm.ever_deposited {
        let product = match reserve0.checked_mul(reserve1) {
            Some(v) => v,
            None => return Err(AmmError::Overflow),
        };
        supply = sqrt_u128(product);
    } else {
        if !(reserve0 > 0 && reserve1 > 0) {
            return Err(AmmError::NoReserves);
        }
        let ratio0 = match scaled0.checked_mul(U1E9) {
            Some(v) => v / reserve0,
            None => return Err(AmmError::Overflow),
        };
        let ratio1 = match scaled1.checked_mul(U1E9) {
            Some(v) => v / reserve1,
            None => return Err(AmmError::Overflow),
        };
        let ratio = if ratio0 <= ratio1 {
            ratio0
        } else {
            ratio1
        };
        let minted_amount = match amm.supply.checked_mul(ratio) {
            Some(v) => v / U1E9,
            None => return Err(AmmError::Overflow),
        };
        supply = match amm.supply.checked_add(minted_amount) {
            Some(v) => v,
            None => return Err(AmmError::Overflow),
        };
    }
    let count = match minted.minted.checked_add(1) {
        Some(v) => v,
        None => return Err(AmmError::Overflow),
    };
    amm.reserve0 = reserve0;
    amm.reserve1 = reserve1;
    amm.supply = supply;
    amm.ever_deposited = true;
    minted.minted = count;
    Ok(Deposit { amount0: scaled0_u64, amount1: scaled1_u64 })
}

/// Outcome of redeeming `amount` of supply.
pub open spec fn redeem_result(amm: AmmInfo, minted: MintedPDA, amount: u128) -> Result<
    ((AmmInfo, MintedPDA), Withdrawal),
    AmmError,
> {
    if minted.minted == 0 {
        Err(AmmError::NotMinted)
    } else if amm.supply == 0 {
        Err(AmmError::ZeroSupply)
    } else if !(amm.reserve0 > 0 && amm.reserve1 > 0) {
        Err(AmmError::NoReserves)
    } else if amm.reserve0 * amount > u128::MAX || amm.reserve1 * amount > u128::MAX {
        Err(AmmError::Overflow)
    } else {
        let ret0 = (amm.reserve0 * amount) / (amm.supply as int);
        let ret1 = (amm.reserve1 * amount) / (amm.supply as int);
        if ret0 > u64::MAX || ret1 > u64::MAX || amm.reserve0 < ret0 || amm.reserve1 < ret1
            || amm.supply < amount {
            Err(AmmError::Overflow)
        } else {
            Ok(
                (
                    (
                        AmmInfo {
                            reserve0: (amm.reserve0 - ret0) as u128,
                            reserve1: (amm.reserve1 - ret1) as u128,
                            supply: (amm.supply - amount) as u128,
                            ..amm
                        },
                        MintedPDA { minted: (minted.minted - 1) as u64, ..minted },
                    ),
                    Withdrawal { amount0: ret0 as u64, amount1: ret1 as u64 },
                ),
            )
        }
    }
}

/// Redeems `amount` of supply for the proportional share of both reserves
/// and takes one off the depositor's count.
pub fn redeem(amm: &mut AmmInfo, minted: &mut MintedPDA, amount: u128) -> (r: Result<Withdrawal, AmmError>)
    ensures
        applied_with(
            r,
            (*old(amm), *old(minted)),
            (*final(amm), *final(minted)),
            redeem_result(*old(amm), *old(minted), amount),
        ),
{
    if !(minted.minted > 0) {
        return Err(AmmError::NotMinted);
    }
    if !(amm.supply > 0) {
        return Err(AmmError::ZeroSupply);
    }
    if !(amm.reserve0 > 0 && amm.reserve1 > 0) {
        return Err(AmmError::NoReserves);
    }
    let ret0 = match amm.reserve0.checked_mul(amount) {
        Some(v) => v / amm.supply,
        None => return Err(AmmError::Overflow),
    };
    let ret1 = match amm.reserve1.checked_mul(amount) {
        Some(v) => v / amm.supply,
        None => return Err(AmmError::Overflow),
    };
    if ret0 > u64::MAX as u128 {
        return Err(AmmError::Overflow);
    }
    if ret1 > u64::MAX as u128 {
        return Err(AmmError::Overflow);
    }
    let reserve0 = match amm.reserve0.checked_sub(ret0) {
        Some(v) => v,
        None => return Err(AmmError::Overflow),
    };
    let reserve1 = match amm.reserve1.checked_sub(ret1) {
        Some(v) => v,
        None => return Err(AmmError::Overflow),
    };
    let supply = match amm.supply.checked_sub(amount) {
        Some(v) => v,
        None => return Err(AmmError::Overflow),
    };
    amm.reserve0 = reserve0;
    amm.reserve1 = reserve1;
    amm.supply = supply;
    minted.minted = minted.minted - 1;
    Ok(Withdrawal { amount0: ret0 as u64, amount1: ret1 as u64 })
}

/// Outcome of swapping `amount_in` whole units (scaled by `10^decimals1`) of
/// the input mint.
pub open spec fn swap_result(
    amm: AmmInfo,
    minted: MintedPDA,
    mint0: Pubkey,
    mint1: Pubkey,
    decimals1: u8,
    is_mint0: bool,
    amount_in: u128,
    min_out_amount: u128,
) -> Result<(AmmInfo, SwapTransfers), AmmError> {
    let (reserve_in, reserve_out) = if is_mint0 {
        (amm.reserve0, amm.reserve1)
    } else {
        (amm.reserve1, amm.reserve0)
    };
    let scale = model::pow10(decimals1 as nat);
    let in_scaled = amount_in * scale;
    if minted.minted == 0 {
        Err(AmmError::NotMinted)
    } else if !crate::common::same_key(amm.mint0, mint0) || !crate::common::same_key(amm.mint1, mint1) {
        Err(AmmError::MintMismatch)
    } else if !(amm.reserve0 > 0 && amm.reserve1 > 0) {
        Err(AmmError::NoReserves)
    } else if decimals1 > 38 {
        Err(AmmError::DecimalsTooLarge)
    } else if in_scaled > u128::MAX || reserve_in * reserve_out > u128::MAX || reserve_in + in_scaled
        > u128::MAX {
        Err(AmmError::Overflow)
    } else {
        let out_scaled = model::product_out(in_scaled, reserve_in as int, reserve_out as int);
        if out_scaled / scale < min_out_amount {
            Err(AmmError::SlippageExceeded)
        } else if in_scaled > u64::MAX || out_scaled > u64::MAX {
            Err(AmmError::Overflow)
        } else {
            let new_in = (reserve_in + in_scaled) as u128;
            let new_out = (reserve_out - out_scaled) as u128;
            Ok(
                (
                    if is_mint0 {
                        AmmInfo { reserve0: new_in, reserve1: new_out, ..amm }
                    } else {
                        AmmInfo { reserve1: new_in, reserve0: new_out, ..amm }
                    },
                    SwapTransfers {
                        is_mint0,
                        amount_in: in_scaled as u64,
                        amount_out: out_scaled as u64,
                    },
                ),
            )
        }
    }
}

/// Swaps `amount_in` whole units of mint0 (when `is_mint0`) or of mint1 for
/// the other mint, at the drop of the output reserve that keeps the product
/// of the reserves, refusing an output below `min_out_amount` whole units.
pub fn swap(
    amm: &mut AmmInfo,
    minted: &MintedPDA,
    mint0: Pubkey,
    mint1: Pubkey,
    decimals1: u8,
    is_mint0: bool,
    amount_in: u128,
    min_out_amount: u128,
) -> (r: Result<SwapTransfers, AmmError>)
    ensures
        applied_with(
            r,
            *old(amm),
            *final(amm),
            swap_result(*old(amm), *minted, mint0, mint1, decimals1, is_mint0, amount_in, min_out_amount),
        ),
{
    if !(minted.minted > 0) {
        return Err(AmmError::NotMinted);
    }
    if !amm.mint0.key_eq(&mint0) {
        return Err(AmmError::MintMismatch);
    }
    if !amm.mint1.key_eq(&mint1) {
        return Err(AmmError::MintMismatch);
    }
    if !(amm.reserve0 > 0 && amm.reserve1 > 0) {
        return Err(AmmError::NoReserves);
    }
    let scale = match pow10(decimals1 as u32) {
        Ok(v) => v,
        Err(e) => return Err(e),
    };
    proof {
        lemma_pow10_monotone(0, decimals1 as nat);
    }
    let amount_in_scaled = match amount_in.checked_mul(scale) {
        Some(v) => v,
        None => return Err(AmmError::Overflow),
    };
    let (reserve_in, reserve_out) = if is_mint0 {
        (amm.reserve0, amm.reserve1)
    } else {
        (amm.reserve1, amm.reserve0)
    };
    let k = match reserve_in.checked_mul(reserve_out) {
        Some(v) => v,
        None => return Err(AmmError::Overflow),
    };
    let new_reserve_in = match reserve_in.checked_add(amount_in_scaled) {
        Some(v) => v,
        None => return Err(AmmError::Overflow),
    };
    let new_reserve_out = k / new_reserve_in;
    proof {
        model::lemma_product_swap_bounds(amount_in_scaled as int, reserve_in as int, reserve_out as int);
    }
    let amount_out_scaled = reserve_out - new_reserve_out;
    let amount_out_user = amount_out_scaled / scale;
    if !(amount_out_user >= min_out_amount) {
        return Err(AmmError::SlippageExceeded);
    }
    if amount_in_scaled > u64::MAX as u128 {
        return Err(AmmError::Overflow);
    }
    if amount_out_scaled > u64::MAX as u128 {
        return Err(AmmError::Overflow);
    }
    if is_mint0 {
        amm.reserve0 = new_reserve_in;
        amm.reserve1 = reserve_out - amount_out_scaled;
    } else {
        amm.reserve1 = new_reserve_in;
        amm.reserve0 = reserve_out - amount_out_scaled;
    }
    Ok(
        SwapTransfers {
            is_mint0,
            amount_in: amount_in_scaled as u64,
            amount_out: amount_out_scaled as u64,
        },
    )
}

/// Law: a swap priced by the drop of the output reserve never raises the
/// product of the two reserves, and lowers it by less than the new input
/// reserve (the rounding of one division).
pub proof fn lemma_swap_product_rounding(amm: AmmInfo,
    minted: MintedPDA,
    mint0: Pubkey,
    mint1: Pubkey,
    decimals1: u8,
    is_mint0: bool,
    amount_in: u128,
    min_out_amount: u128,
)
    ensures
        swap_result(amm, minted, mint0, mint1, decimals1, is_mint0, amount_in, min_out_amount) matches Ok((after, t)) ==> {
            let new_in = if is_mint0 {
                after.reserve0
            } else {
                after.reserve1
            };
            &&& after.reserve0 * after.reserve1 <= amm.reserve0 * amm.reserve1
            &&& amm.reserve0 * amm.reserve1 < after.reserve0 * after.reserve1 + new_in
        },
{
    let (reserve_in, reserve_out) = if is_mint0 {
        (amm.reserve0, amm.reserve1)
    } else {
        (amm.reserve1, amm.reserve0)
    };
    if let Ok((after, t)) = swap_result(
        amm,
        minted,
        mint0,
        mint1,
        decimals1,
        is_mint0,
        amount_in,
        min_out_amount,
    ) {
        let scale = model::pow10(decimals1 as nat);
        model::lemma_pow10_monotone(0, decimals1 as nat);
        assert(amount_in * scale >= 0) by (nonlinear_arith)
            requires
                scale >= 1,
                amount_in >= 0,
        ;
        model::lemma_product_swap_bounds(amount_in * scale, reserve_in as int, reserve_out as int);
        vstd::arithmetic::mul::lemma_mul_is_commutative(amm.reserve0 as int, amm.reserve1 as int);
        vstd::arithmetic::mul::lemma_mul_is_commutative(after.reserve0 as int, after.reserve1 as int);
    }
}

/// Law: a redemption of `amount` out of the supply pays, of each token, the
/// floor of `amount / supply` of that token's own reserve
/// (`out_i * supply <= reserve_i * amount < (out_i + 1) * supply`), takes it
/// out of that reserve, and lowers the supply by `amount`.
pub proof fn lemma_redeem_pays_proportional_share(amm: AmmInfo, minted: MintedPDA, amount: u128)
    ensures
        redeem_result(amm, minted, amount) matches Ok(((after, m), w)) ==> {
            &&& w.amount0 * amm.supply <= amm.reserve0 * amount < (w.amount0 + 1) * amm.supply
            &&& w.amount1 * amm.supply <= amm.reserve1 * amount < (w.amount1 + 1) * amm.supply
            &&& after.reserve0 + w.amount0 == amm.reserve0
            &&& after.reserve1 + w.amount1 == amm.reserve1
            &&& after.supply + amount == amm.supply
        },
{
    if let Ok(_) = redeem_result(amm, minted, amount) {
        assert(amm.reserve0 * amount >= 0 && amm.reserve1 * amount >= 0) by (nonlinear_arith);
        crate::math::lemma_div_bounds(amm.reserve0 * amount, amm.supply as int);
        crate::math::lemma_div_bounds(amm.reserve1 * amount, amm.supply as int);
    }
}

/// Law: a swap of `amount_in` whole units takes in `amount_in * 10^d` base
/// units and pays out an amount worth at least `min_out_amount` whole units
/// (`out / 10^d >= min_out_amount`); it leaves as the output reserve the floor
/// of the old product over the new input reserve
/// (`new_out * (reserve_in + in) <= reserve_in * reserve_out`, with one unit
/// more exceeding it), and the input reserve grows by the input.
pub proof fn lemma_swap_keeps_product_floor(
    amm: AmmInfo,
    minted: MintedPDA,
    mint0: Pubkey,
    mint1: Pubkey,
    decimals1: u8,
    is_mint0: bool,
    amount_in: u128,
    min_out_amount: u128,
)
    ensures
        swap_result(amm, minted, mint0, mint1, decimals1, is_mint0, amount_in, min_out_amount) matches Ok(
            (after, t),
        ) ==> {
            let (reserve_in, reserve_out) = if is_mint0 {
                (amm.reserve0 as int, amm.reserve1 as int)
            } else {
                (amm.reserve1 as int, amm.reserve0 as int)
            };
            let (after_in, after_out) = if is_mint0 {
                (after.reserve0 as int, after.reserve1 as int)
            } else {
                (after.reserve1 as int, after.reserve0 as int)
            };
            &&& t.is_mint0 == is_mint0
            &&& t.amount_in == amount_in * model::pow10(decimals1 as nat)
            &&& (t.amount_out as int) / model::pow10(decimals1 as nat) >= min_out_amount
            &&& after_in == reserve_in + t.amount_in
            &&& after_out == reserve_out - t.amount_out
            &&& after_out * (reserve_in + t.amount_in) <= reserve_in * reserve_out
            &&& reserve_in * reserve_out < (after_out + 1) * (reserve_in + t.amount_in)
        },
{
    let (reserve_in, reserve_out) = if is_mint0 {
        (amm.reserve0, amm.reserve1)
    } else {
        (amm.reserve1, amm.reserve0)
    };
    if let Ok((after, t)) = swap_result(amm, minted, mint0, mint1, decimals1, is_mint0, amount_in, min_out_amount) {
        model::lemma_pow10_monotone(0, decimals1 as nat);
        let in_scaled = amount_in * model::pow10(decimals1 as nat);
        assert(in_scaled >= 0) by (nonlinear_arith)
            requires
                in_scaled == amount_in * model::pow10(decimals1 as nat),
                model::pow10(decimals1 as nat) >= 1,
        ;
        model::lemma_product_swap_bounds(in_scaled, reserve_in as int, reserve_out as int);
        let d = reserve_in + in_scaled;
        let k = reserve_in * reserve_out;
        let q = reserve_out - model::product_out(in_scaled, reserve_in as int, reserve_out as int);
        assert(q * d <= k && k < (q + 1) * d) by (nonlinear_arith)
            requires
                d * q <= k,
                k - d < d * q,
        ;
    }
}

/// Law: a deposit adds both amounts, counted in base units
/// (`s_i = amount_i * 10^d`), to the reserves. The first sets the supply to
/// the floor square root of the product of the new reserves; a later one
/// raises the supply by no more than either proportional share of the
/// existing supply (`minted * new_reserve_i <= supply * s_i`).
pub proof fn lemma_deposit_mints_fair_share(
    amm: AmmInfo,
    minted: MintedPDA,
    mint0: Pubkey,
    mint1: Pubkey,
    decimals1: u8,
    amount0: u64,
    amount1: u64,
)
    ensures
        deposit_result(amm, minted, mint0, mint1, decimals1, amount0, amount1) matches Ok(((after, m), d)) ==> {
            let s0 = amount0 * model::pow10(decimals1 as nat);
            let s1 = amount1 * model::pow10(decimals1 as nat);
            let l = after.supply - amm.supply;
            &&& after.reserve0 == amm.reserve0 + s0 && after.reserve1 == amm.reserve1 + s1
            &&& !amm.ever_deposited ==> after.supply * after.supply <= after.reserve0 * after.reserve1 < (
            after.supply + 1) * (after.supply + 1)
            &&& amm.ever_deposited ==> 0 <= l && l * after.reserve0 <= amm.supply * s0 && l * after.reserve1
                <= amm.supply * s1
        },
{
    if let Ok(((after, m), d)) = deposit_result(amm, minted, mint0, mint1, decimals1, amount0, amount1) {
        model::lemma_pow10_monotone(0, decimals1 as nat);
        let s0 = amount0 * model::pow10(decimals1 as nat);
        let s1 = amount1 * model::pow10(decimals1 as nat);
        assert(s0 >= 0 && s1 >= 0) by (nonlinear_arith)
            requires
                s0 == amount0 * model::pow10(decimals1 as nat),
                s1 == amount1 * model::pow10(decimals1 as nat),
                model::pow10(decimals1 as nat) >= 1,
        ;
        let r0 = amm.reserve0 + s0;
        let r1 = amm.reserve1 + s1;
        if !amm.ever_deposited {
            assert(r0 * r1 >= 0) by (nonlinear_arith)
                requires
                    r0 >= 0,
                    r1 >= 0,
            ;
            crate::math::lemma_floor_sqrt_exists(r0 * r1);
            let root = floor_sqrt(r0 * r1);
            assert(root <= r0 * r1) by (nonlinear_arith)
                requires
                    root * root <= r0 * r1,
                    root >= 0,
            {
                if root >= 1 {
                    assert(root <= root * root);
                }
            }
        } else {
            let e = U1E9 as int;
            let q0 = (s0 * e) / r0;
            let q1 = (s1 * e) / r1;
            assert(s0 * e >= 0 && s1 * e >= 0) by (nonlinear_arith)
                requires
                    s0 >= 0,
                    s1 >= 0,
                    e > 0,
            ;
            crate::math::lemma_div_bounds(s0 * e, r0);
            crate::math::lemma_div_bounds(s1 * e, r1);
            let ratio = min_int(q0, q1);
            assert(ratio * r0 <= s0 * e && ratio * r1 <= s1 * e) by (nonlinear_arith)
                requires
                    ratio <= q0,
                    ratio <= q1,
                    q0 * r0 <= s0 * e,
                    q1 * r1 <= s1 * e,
                    r0 >= 1,
                    r1 >= 1,
            ;
            assert(amm.supply * ratio >= 0) by (nonlinear_arith)
                requires
                    ratio >= 0,
            ;
            crate::math::lemma_div_bounds(amm.supply * ratio, e);
            let l = (amm.supply * ratio) / e;
            let sup = amm.supply as int;
            assert(l * r0 <= sup * s0) by (nonlinear_arith)
                requires
                    l * e <= sup * ratio,
                    ratio * r0 <= s0 * e,
                    l >= 0,
                    ratio >= 0,
                    sup >= 0,
                    r0 >= 1,
                    e >= 1,
            {
                assert(l * e * r0 <= sup * ratio * r0);
                assert(sup * ratio * r0 <= sup * s0 * e);
            }
            assert(l * r1 <= sup * s1) by (nonlinear_arith)
                requires
                    l * e <= sup * ratio,
                    ratio * r1 <= s1 * e,
                    l >= 0,
                    ratio >= 0,
                    sup >= 0,
                    r1 >= 1,
                    e >= 1,
            {
                assert(l * e * r1 <= sup * ratio * r1);
                assert(sup * ratio * r1 <= sup * s1 * e);
            }
        }
    }
}

} // verus!
