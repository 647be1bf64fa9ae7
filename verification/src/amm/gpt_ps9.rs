//! Pool whose instructions take amounts in whole units of each mint and move
//! them as base units (whole units times `10^decimals`). Reserves are kept in
//! base units, liquidity in whole units: the first deposit mints `amount0`,
//! later deposits the smaller proportional share against the reserves
//! counted in whole units, and a swap pays the drop of the output reserve
//! that keeps the product of the reserves.
use vstd::prelude::*;
use crate::common::{Pubkey, same_key, applied_with};
use crate::address::{program_address_search, try_find_program_address};
use crate::amm::model::{lemma_proportional_shares, lemma_within_share, Handover, Deposit, Withdrawal, SwapTransfers, mul_div, min_int, product_out, pow10, pool_seeds,
    pool_seed_list, checked_pow10_u128, lemma_pow10_monotone, lemma_share_within_reserve,
    lemma_product_swap_bounds};

verus! {

/// The pool's state.
#[derive(Clone, Copy, Debug, PartialEq, Eq)]
pub struct AmmInfo {
    pub mint0: Pubkey,
    pub mint1: Pubkey,
    pub token_account0: Pubkey,
    pub token_account1: Pubkey,
    pub reserve0: u64,
    pub reserve1: u64,
    pub ever_deposited: bool,
    pub supply: u64,
    pub bump: u8,
}

/// Liquidity minted to one depositor, in whole units.
#[derive(Clone, Copy, Debug, PartialEq, Eq)]
pub struct MintedPDA {
    pub minted: u64,
}

#[derive(Clone, Copy, Debug, PartialEq, Eq)]
pub enum AmmError {
    Overflow,
    DivisionByZero,
    MintMismatch,
    ZeroDeposit,
    InsufficientLiquidityMinted,
    ZeroRedeem,
    InsufficientMintedForRedeem,
    ZeroSupply,
    InvalidAccount,
    ZeroSwapAmount,
    SlippageExceeded,
    NotInitialized,
    /// No bump seed yields the pool's address (where the instruction aborts).
    AddressNotFound,
    /// The framework's refusal of an account that fails a check declared
    /// with the accounts (a token account of the wrong mint, or other than
    /// the pool's).
    ConstraintRaw,
}

/// `10^decimals` on 128 bits, refused when it does not fit.
pub fn pow10_u128(decimals: u8) -> (r: Result<u128, AmmError>)
    ensures
        1 <= pow10(decimals as nat),
        pow10(decimals as nat) > u128::MAX ==> r == Err::<u128, AmmError>(AmmError::Overflow),
        pow10(decimals as nat) <= u128::MAX ==> r == Ok::<u128, AmmError>(pow10(decimals as nat) as u128),
{
    proof {
        lemma_pow10_monotone(0, decimals as nat);
    }
    match checked_pow10_u128(decimals as u32) {
        Some(v) => Ok(v),
        None => Err(AmmError::Overflow),
    }
}

/// `amount` whole units of a mint with `decimals` decimals, in base units:
/// zero stays zero; otherwise `amount * 10^decimals`, refused when it does
/// not fit in 64 bits (or `10^decimals` not in 128).
pub open spec fn native_amount(amount: u64, decimals: u8) -> Result<u64, AmmError> {
    if amount == 0 {
        Ok(0)
    } else if pow10(decimals as nat) > u128::MAX {
        Err(AmmError::Overflow)
    } else if amount * pow10(decimals as nat) > u64::MAX {
        Err(AmmError::Overflow)
    } else {
        Ok((amount * pow10(decimals as nat)) as u64)
    }
}

/// Converts `amount_human` whole units into base units.
pub fn human_to_native(amount_human: u64, decimals: u8) -> (r: Result<u64, AmmError>)
    ensures
        r == native_amount(amount_human, decimals),
{
    if amount_human == 0 {
        return Ok(0);
    }
    let factor = match pow10_u128(decimals) {
        Ok(v) => v,
        Err(e) => return Err(e),
    };
    let scaled = match (amount_human as u128).checked_mul(factor) {
        Some(v) => v,
        None => return Err(AmmError::Overflow),
    };
    if scaled > u64::MAX as u128 {
        return Err(AmmError::Overflow);
    }
    Ok(scaled as u64)
}

/// Converts `amount_human` whole units into base units (the same conversion
/// as `human_to_native`).
pub fn scale_to_native(amount_human: u64, decimals: u8) -> (r: Result<u64, AmmError>)
    ensures
        r == native_amount(amount_human, decimals),
{
    human_to_native(amount_human, decimals)
}

/// Converts `amount_human` whole units into base units (the same conversion
/// as `human_to_native`).
pub fn scale_to_native_checked(amount_human: u64, decimals: u8) -> (r: Result<u64, AmmError>)
    ensures
        r == native_amount(amount_human, decimals),
{
    human_to_native(amount_human, decimals)
}

/// Converts `native` base units into whole units, rounding down; refused when
/// `10^decimals` does not fit in 128 bits.
pub fn native_to_human_u128(native: u128, decimals: u8) -> (r: Result<u128, AmmError>)
    ensures
        pow10(decimals as nat) > u128::MAX ==> r == Err::<u128, AmmError>(AmmError::Overflow),
        pow10(decimals as nat) <= u128::MAX ==> r == Ok::<u128, AmmError>(
            (native as int / pow10(decimals as nat)) as u128,
        ),
{
    let factor = match pow10_u128(decimals) {
        Ok(v) => v,
        Err(e) => return Err(e),
    };
    proof {
        lemma_pow10_monotone(0, decimals as nat);
    }
    Ok(native / factor)
}

/// The pool at `amm_key` for two mints and the token accounts that will hold
/// its reserves, given the address `pda` and bump seed `bump` derived from
/// the pool's seeds: refused when the pool's account is not at that address.
pub open spec fn initialize_at_result(
    mint0: Pubkey,
    mint1: Pubkey,
    token_account0: Pubkey,
    token_account1: Pubkey,
    amm_key: Pubkey,
    pda: Seq<u8>,
    bump: u8,
) -> Result<(AmmInfo, Handover), AmmError> {
    if pda != amm_key.bytes@ {
        Err(AmmError::InvalidAccount)
    } else {
        Ok(
            (
            AmmInfo {
                mint0,
                mint1,
                token_account0,
                token_account1,
                reserve0: 0,
                reserve1: 0,
                ever_deposited: false,
                supply: 0,
                bump,
            },
            Handover { token_account0, token_account1, new_owner: amm_key },
            ),
        )
    }
}

/// A new, empty pool at `amm_key`, given the address and bump seed derived
/// from its seeds; both token accounts are handed over to `amm_key` (the
/// returned `Handover`).
pub fn initialize_at(
    mint0: Pubkey,
    mint1: Pubkey,
    token_account0: Pubkey,
    token_account1: Pubkey,
    amm_key: Pubkey,
    pda: Pubkey,
    bump: u8,
) -> (r: Result<(AmmInfo, Handover), AmmError>)
    ensures
        r == initialize_at_result(mint0, mint1, token_account0, token_account1, amm_key, pda.bytes@, bump),
{
    if !pda.key_eq(&amm_key) {
        return Err(AmmError::InvalidAccount);
    }
    Ok(
        (
        AmmInfo {
            mint0,
            mint1,
            token_account0,
            token_account1,
            reserve0: 0,
            reserve1: 0,
            ever_deposited: false,
            supply: 0,
            bump,
        },
        Handover { token_account0, token_account1, new_owner: amm_key },
        ),
    )
}

/// Outcome of creating the pool of `mint0` and `mint1` at `amm_key` for the
/// program `program_id`.
pub open spec fn initialize_result(
    mint0: Pubkey,
    mint1: Pubkey,
    token_account0: Pubkey,
    token_account1: Pubkey,
    amm_key: Pubkey,
    program_id: Pubkey,
) -> Result<(AmmInfo, Handover), AmmError> {
    match program_address_search(pool_seeds(mint0, mint1), program_id.bytes@) {
        Some(found) => initialize_at_result(
            mint0,
            mint1,
            token_account0,
            token_account1,
            amm_key,
            found.0,
            found.1,
        ),
        None => Err(AmmError::AddressNotFound),
    }
}

/// A new, empty pool at `amm_key`: derives the pool's address from `"amm"`
/// and the two mints' keys, and refuses an account that is not at it; on
/// success both token accounts are handed over to the pool's address.
pub fn initialize(
    mint0: Pubkey,
    mint1: Pubkey,
    token_account0: Pubkey,
    token_account1: Pubkey,
    amm_key: Pubkey,
    program_id: Pubkey,
) -> (r: Result<(AmmInfo, Handover), AmmError>)
    ensures
        r == initialize_result(mint0, mint1, token_account0, token_account1, amm_key, program_id),
{
    let seeds = pool_seed_list(&mint0, &mint1);
    match try_find_program_address(&seeds, &program_id) {
        Some((pda, bump)) => initialize_at(mint0, mint1, token_account0, token_account1, amm_key, pda, bump),
        None => Err(AmmError::AddressNotFound),
    }
}

/// Liquidity, in whole units, that a deposit of `amount0` and `amount1`
/// whole units mints, before it is added to the supply.
pub open spec fn minted_for(amm: AmmInfo, decimals0: u8, decimals1: u8, amount0: u64, amount1: u64) -> Result<
    u64,
    AmmError,
> {
    if !amm.ever_deposited {
        Ok(amount0)
    } else if amm.supply == 0 {
        Err(AmmError::DivisionByZero)
    } else if pow10(decimals0 as nat) > u128::MAX || pow10(decimals1 as nat) > u128::MAX {
        Err(AmmError::Overflow)
    } else {
        let r0_human = amm.reserve0 as int / pow10(decimals0 as nat);
        let r1_human = amm.reserve1 as int / pow10(decimals1 as nat);
        if !(r0_human > 0 && r1_human > 0) {
            Err(AmmError::DivisionByZero)
        } else {
            let m = min_int(
                mul_div(amount0 as int, amm.supply as int, r0_human),
                mul_div(amount1 as int, amm.supply as int, r1_human),
            );
            if !(m > 0) {
                Err(AmmError::InsufficientLiquidityMinted)
            } else if m > u64::MAX {
                Err(AmmError::Overflow)
            } else {
                Ok(m as u64)
            }
        }
    }
}

/// Outcome of a deposit of `amount0` and `amount1` whole units of the mints
/// with keys `mint0` and `mint1` and decimals `decimals0` and `decimals1`.
pub open spec fn deposit_result(
    amm: AmmInfo,
    minted: MintedPDA,
    mint0: Pubkey,
    mint1: Pubkey,
    decimals0: u8,
    decimals1: u8,
    amount0: u64,
    amount1: u64,
) -> Result<((AmmInfo, MintedPDA), Deposit), AmmError> {
    match native_amount(amount0, decimals0) {
        Err(e) => Err(e),
        Ok(native0) => match native_amount(amount1, decimals1) {
            Err(e) => Err(e),
            Ok(native1) => if !(native0 > 0 && native1 > 0) {
                Err(AmmError::ZeroDeposit)
            } else if !same_key(amm.mint0, mint0) || !same_key(amm.mint1, mint1) {
                Err(AmmError::MintMismatch)
            } else {
                match minted_for(amm, decimals0, decimals1, amount0, amount1) {
                    Err(e) => Err(e),
                    Ok(m) => if amm.reserve0 + native0 > u64::MAX || amm.reserve1 + native1 > u64::MAX
                        || amm.supply + m > u64::MAX || minted.minted + m > u64::MAX {
                        Err(AmmError::Overflow)
                    } else {
                        Ok(
                            (
                                (
                                    AmmInfo {
                                        ever_deposited: true,
                                        reserve0: (amm.reserve0 + native0) as u64,
                                        reserve1: (amm.reserve1 + native1) as u64,
                                        supply: (amm.supply + m) as u64,
                                        ..amm
                                    },
                                    MintedPDA { minted: (minted.minted + m) as u64 },
                                ),
                                Deposit { amount0: native0, amount1: native1 },
                            ),
                        )
                    },
                }
            },
        },
    }
}

/// Liquidity minted by a deposit, as the instruction computes it.
fn deposit_minted(amm: &AmmInfo, decimals0: u8, decimals1: u8, amount0: u64, amount1: u64) -> (r: Result<
    u64,
    AmmError,
>)
    ensures
        r == minted_for(*amm, decimals0, decimals1, amount0, amount1),
{
    if !amm.ever_deposited {
        return Ok(amount0);
    }
    proof {
        lemma_pow10_monotone(0, decimals0 as nat);
        lemma_pow10_monotone(0, decimals1 as nat);
    }
    let supply_human = amm.supply as u128;
    if !(supply_human > 0) {
        return Err(AmmError::DivisionByZero);
    }
    let r0_human = match native_to_human_u128(amm.reserve0 as u128, decimals0) {
        Ok(v) => v,
        Err(e) => return Err(e),
    };
    let r1_human = match native_to_human_u128(amm.reserve1 as u128, decimals1) {
        Ok(v) => v,
        Err(e) => return Err(e),
    };
    if !(r0_human > 0 && r1_human > 0) {
        return Err(AmmError::DivisionByZero);
    }
    proof {
        crate::math::lemma_u64_product(amount0, amm.supply);
        crate::math::lemma_u64_product(amount1, amm.supply);
        crate::math::lemma_div_bounds((amount0 as int) * (amm.supply as int), r0_human as int);
        crate::math::lemma_div_bounds((amount1 as int) * (amm.supply as int), r1_human as int);
        assert((amount0 as int) * (amm.supply as int) >= 0) by (nonlinear_arith);
        assert((amount1 as int) * (amm.supply as int) >= 0) by (nonlinear_arith);
        assert(mul_div(amount0 as int, amm.supply as int, r0_human as int) <= (amount0 as int) * (
        amm.supply as int)) by (nonlinear_arith)
            requires
                mul_div(amount0 as int, amm.supply as int, r0_human as int) * (r0_human as int) <= (
                amount0 as int) * (amm.supply as int),
                mul_div(amount0 as int, amm.supply as int, r0_human as int) >= 0,
                r0_human >= 1,
        ;
        assert(mul_div(amount1 as int, amm.supply as int, r1_human as int) <= (amount1 as int) * (
        amm.supply as int)) by (nonlinear_arith)
            requires
                mul_div(amount1 as int, amm.supply as int, r1_human as int) * (r1_human as int) <= (
                amount1 as int) * (amm.supply as int),
                mul_div(amount1 as int, amm.supply as int, r1_human as int) >= 0,
                r1_human >= 1,
        ;
    }
    let cand0 = (amount0 as u128) * supply_human / r0_human;
    let cand1 = (amount1 as u128) * supply_human / r1_human;
    let minted_u128 = if cand0 <= cand1 {
        cand0
    } else {
        cand1
    };
    if !(minted_u128 > 0) {
        return Err(AmmError::InsufficientLiquidityMinted);
    }
    if minted_u128 > u64::MAX as u128 {
        return Err(AmmError::Overflow);
    }
    Ok(minted_u128 as u64)
}

/// Takes `amount0` and `amount1` whole units of the mints with keys `mint0`
/// and `mint1` (and decimals `decimals0` and `decimals1`) into the pool as
/// base units, and credits the depositor with the liquidity they mint.
pub fn deposit(
    amm: &mut AmmInfo,
    minted: &mut MintedPDA,
    mint0: Pubkey,
    mint1: Pubkey,
    decimals0: u8,
    decimals1: u8,
    amount0: u64,
    amount1: u64,
) -> (r: Result<Deposit, AmmError>)
    ensures
        applied_with(
            r,
            (*old(amm), *old(minted)),
            (*final(amm), *final(minted)),
            deposit_result(*old(amm), *old(minted), mint0, mint1, decimals0, decimals1, amount0, amount1),
        ),
{
    let amount0_native = match human_to_native(amount0, decimals0) {
        Ok(v) => v,
        Err(e) => return Err(e),
    };
    let amount1_native = match human_to_native(amount1, decimals1) {
        Ok(v) => v,
        Err(e) => return Err(e),
    };
    if !(amount0_native > 0 && amount1_native > 0) {
        return Err(AmmError::ZeroDeposit);
    }
    if !amm.mint0.key_eq(&mint0) {
        return Err(AmmError::MintMismatch);
    }
    if !amm.mint1.key_eq(&mint1) {
        return Err(AmmError::MintMismatch);
    }
    let minted_human = match deposit_minted(amm, decimals0, decimals1, amount0, amount1) {
        Ok(v) => v,
        Err(e) => return Err(e),
    };
    let reserve0 = match amm.reserve0.checked_add(amount0_native) {
        Some(v) => v,
        None => return Err(AmmError::Overflow),
    };
    let reserve1 = match amm.reserve1.checked_add(amount1_native) {
        Some(v) => v,
        None => return Err(AmmError::Overflow),
    };
    let supply = match amm.supply.checked_add(minted_human) {
        Some(v) => v,
        None => return Err(AmmError::Overflow),
    };
    let new_minted = match minted.minted.checked_add(minted_human) {
        Some(v) => v,
        None => return Err(AmmError::Overflow),
    };
    amm.ever_deposited = true;
    amm.reserve0 = reserve0;
    amm.reserve1 = reserve1;
    amm.supply = supply;
    minted.minted = new_minted;
    Ok(Deposit { amount0: amount0_native, amount1: amount1_native })
}

/// Outcome of redeeming `amount` whole units of liquidity.
pub open spec fn redeem_result(amm: AmmInfo, minted: MintedPDA, amount: u64) -> Result<
    ((AmmInfo, MintedPDA), Withdrawal),
    AmmError,
> {
    if amount == 0 {
        Err(AmmError::ZeroRedeem)
    } else if minted.minted < amount {
        Err(AmmError::InsufficientMintedForRedeem)
    } else if amm.supply == 0 {
        Err(AmmError::ZeroSupply)
    } else {
        let out0 = mul_div(amm.reserve0 as int, amount as int, amm.supply as int);
        let out1 = mul_div(amm.reserve1 as int, amount as int, amm.supply as int);
        if out0 > u64::MAX || out1 > u64::MAX || amm.reserve0 < out0 || amm.reserve1 < out1
            || amm.supply < amount {
            Err(AmmError::Overflow)
        } else {
            Ok(
                (
                    (
                        AmmInfo {
                            reserve0: (amm.reserve0 - out0) as u64,
                            reserve1: (amm.reserve1 - out1) as u64,
                            supply: (amm.supply - amount) as u64,
                            ..amm
                        },
                        MintedPDA { minted: (minted.minted - amount) as u64 },
                    ),
                    Withdrawal { amount0: out0 as u64, amount1: out1 as u64 },
                ),
            )
        }
    }
}

/// Burns `amount` whole units of the redeemer's liquidity for the
/// proportional share of both reserves, in base units.
pub fn redeem(amm: &mut AmmInfo, minted: &mut MintedPDA, amount: u64) -> (r: Result<Withdrawal, AmmError>)
    ensures
        applied_with(
            r,
            (*old(amm), *old(minted)),
            (*final(amm), *final(minted)),
            redeem_result(*old(amm), *old(minted), amount),
        ),
{
    if !(amount > 0) {
        return Err(AmmError::ZeroRedeem);
    }
    if !(minted.minted >= amount) {
        return Err(AmmError::InsufficientMintedForRedeem);
    }
    if !(amm.supply > 0) {
        return Err(AmmError::ZeroSupply);
    }
    let out0_u128 = match crate::amm::model::mul_div_wide(amm.reserve0, amount, amm.supply) {
        Some(v) => v,
        None => return Err(AmmError::DivisionByZero),
    };
    let out1_u128 = match crate::amm::model::mul_div_wide(amm.reserve1, amount, amm.supply) {
        Some(v) => v,
        None => return Err(AmmError::DivisionByZero),
    };
    if out0_u128 > u64::MAX as u128 {
        return Err(AmmError::Overflow);
    }
    if out1_u128 > u64::MAX as u128 {
        return Err(AmmError::Overflow);
    }
    let out0 = out0_u128 as u64;
    let out1 = out1_u128 as u64;
    let reserve0 = match amm.reserve0.checked_sub(out0) {
        Some(v) => v,
        None => return Err(AmmError::Overflow),
    };
    let reserve1 = match amm.reserve1.checked_sub(out1) {
        Some(v) => v,
        None => return Err(AmmError::Overflow),
    };
    let supply = match amm.supply.checked_sub(amount) {
        Some(v) => v,
        None => return Err(AmmError::Overflow),
    };
    amm.reserve0 = reserve0;
    amm.reserve1 = reserve1;
    amm.supply = supply;
    minted.minted = minted.minted - amount;
    Ok(Withdrawal { amount0: out0, amount1: out1 })
}

/// Outcome of swapping `amount_in` whole units of mint0 (when `is_mint0`) or
/// of mint1, whose decimals are `decimals0` and `decimals1`.
pub open spec fn swap_result(
    amm: AmmInfo,
    decimals0: u8,
    decimals1: u8,
    is_mint0: bool,
    amount_in: u64,
    min_out_amount: u64,
) -> Result<(AmmInfo, SwapTransfers), AmmError> {
    let (in_decimals, out_decimals) = if is_mint0 {
        (decimals0, decimals1)
    } else {
        (decimals1, decimals0)
    };
    let (reserve_in, reserve_out) = if is_mint0 {
        (amm.reserve0, amm.reserve1)
    } else {
        (amm.reserve1, amm.reserve0)
    };
    if amount_in == 0 {
        Err(AmmError::ZeroSwapAmount)
    } else if !amm.ever_deposited {
        Err(AmmError::NotInitialized)
    } else {
        match native_amount(amount_in, in_decimals) {
            Err(e) => Err(e),
            Ok(native_in) => match native_amount(min_out_amount, out_decimals) {
                Err(e) => Err(e),
                Ok(native_min) => if !(reserve_in > 0 && reserve_out > 0) {
                    Err(AmmError::DivisionByZero)
                } else {
                    let out = product_out(native_in as int, reserve_in as int, reserve_out as int);
                    if out < native_min {
                        Err(AmmError::SlippageExceeded)
                    } else if reserve_in + native_in > u64::MAX {
                        Err(AmmError::Overflow)
                    } else {
                        let new_in = (reserve_in + native_in) as u64;
                        let new_out = (reserve_out - out) as u64;
                        Ok(
                            (
                                if is_mint0 {
                                    AmmInfo { reserve0: new_in, reserve1: new_out, ..amm }
                                } else {
                                    AmmInfo { reserve1: new_in, reserve0: new_out, ..amm }
                                },
                                SwapTransfers { is_mint0, amount_in: native_in, amount_out: out as u64 },
                            ),
                        )
                    }
                },
            },
        }
    }
}

/// Swaps `amount_in` whole units of mint0 (when `is_mint0`) or of mint1 for
/// the drop of the other reserve that keeps the product of the reserves,
/// refusing an output below `min_out_amount` whole units.
pub fn swap(
    amm: &mut AmmInfo,
    decimals0: u8,
    decimals1: u8,
    is_mint0: bool,
    amount_in: u64,
    min_out_amount: u64,
) -> (r: Result<SwapTransfers, AmmError>)
    ensures
        applied_with(
            r,
            *old(amm),
            *final(amm),
            swap_result(*old(amm), decimals0, decimals1, is_mint0, amount_in, min_out_amount),
        ),
{
    if !(amount_in > 0) {
        return Err(AmmError::ZeroSwapAmount);
    }
    if !amm.ever_deposited {
        return Err(AmmError::NotInitialized);
    }
    let (in_decimals, out_decimals) = if is_mint0 {
        (decimals0, decimals1)
    } else {
        (decimals1, decimals0)
    };
    let amount_in_native = match human_to_native(amount_in, in_decimals) {
        Ok(v) => v,
        Err(e) => return Err(e),
    };
    let min_out_native = match human_to_native(min_out_amount, out_decimals) {
        Ok(v) => v,
        Err(e) => return Err(e),
    };
    let (reserve_in, reserve_out) = if is_mint0 {
        (amm.reserve0, amm.reserve1)
    } else {
        (amm.reserve1, amm.reserve0)
    };
    if !(reserve_in > 0 && reserve_out > 0) {
        return Err(AmmError::DivisionByZero);
    }
    proof {
        crate::math::lemma_u64_product(reserve_in, reserve_out);
        lemma_product_swap_bounds(amount_in_native as int, reserve_in as int, reserve_out as int);
    }
    let x = reserve_in as u128;
    let y = reserve_out as u128;
    let k = x * y;
    let new_y = k / (x + amount_in_native as u128);
    let amount_out = (y - new_y) as u64;
    if !(amount_out >= min_out_native) {
        return Err(AmmError::SlippageExceeded);
    }
    let new_in = match reserve_in.checked_add(amount_in_native) {
        Some(v) => v,
        None => return Err(AmmError::Overflow),
    };
    let new_out = reserve_out - amount_out;
    if is_mint0 {
        amm.reserve0 = new_in;
        amm.reserve1 = new_out;
    } else {
        amm.reserve1 = new_in;
        amm.reserve0 = new_out;
    }
    Ok(SwapTransfers { is_mint0, amount_in: amount_in_native, amount_out })
}

/// Law: a swap priced by the drop of the output reserve never raises the
/// product of the two reserves, and lowers it by less than the new input
/// reserve (the rounding of one division).
pub proof fn lemma_swap_product_rounding(
    amm: AmmInfo,
    decimals0: u8,
    decimals1: u8,
    is_mint0: bool,
    amount_in: u64,
    min_out_amount: u64,
)
    ensures
        swap_result(amm, decimals0, decimals1, is_mint0, amount_in, min_out_amount) matches Ok((after, t)) ==> {
            let new_in = if is_mint0 {
                after.reserve0
            } else {
                after.reserve1
            };
            &&& after.reserve0 * after.reserve1 <= amm.reserve0 * amm.reserve1
            &&& amm.reserve0 * amm.reserve1 < after.reserve0 * after.reserve1 + new_in
        },
{
    let (reserve_in, reserve_out) = if is_mint0 {
        (amm.reserve0, amm.reserve1)
    } else {
        (amm.reserve1, amm.reserve0)
    };
    if let Ok((after, t)) = swap_result(amm, decimals0, decimals1, is_mint0, amount_in, min_out_amount) {
        crate::amm::model::lemma_product_swap_bounds(t.amount_in as int, reserve_in as int, reserve_out as int);
        vstd::arithmetic::mul::lemma_mul_is_commutative(amm.reserve0 as int, amm.reserve1 as int);
        vstd::arithmetic::mul::lemma_mul_is_commutative(after.reserve0 as int, after.reserve1 as int);
    }
}

/// Checks the token accounts of a deposit, redeem or swap, as they are
/// checked before the instruction runs: the sender's two token accounts hold
/// the two mints (`sender_account_mint0` is the mint of the first, and so
/// on), and the accounts given as the pool's are the two the pool stores.
pub fn check_accounts(
    amm: &AmmInfo,
    mint0: &Pubkey,
    mint1: &Pubkey,
    sender_account_mint0: &Pubkey,
    sender_account_mint1: &Pubkey,
    pool_account0: &Pubkey,
    pool_account1: &Pubkey,
) -> (r: Result<(), AmmError>)
    ensures
        ({
            &&& same_key(*sender_account_mint0, *mint0)
            &&& same_key(*sender_account_mint1, *mint1)
            &&& same_key(*pool_account0, amm.token_account0)
            &&& same_key(*pool_account1, amm.token_account1)
        }) ==> r is Ok,
        !({
            &&& same_key(*sender_account_mint0, *mint0)
            &&& same_key(*sender_account_mint1, *mint1)
            &&& same_key(*pool_account0, amm.token_account0)
            &&& same_key(*pool_account1, amm.token_account1)
        }) ==> r == Err::<(), AmmError>(AmmError::ConstraintRaw),
{
    if !(sender_account_mint0.key_eq(mint0) && sender_account_mint1.key_eq(mint1)) {
        return Err(AmmError::ConstraintRaw);
    }
    if !(pool_account0.key_eq(&amm.token_account0) && pool_account1.key_eq(&amm.token_account1)) {
        return Err(AmmError::ConstraintRaw);
    }
    Ok(())
}

/// Law: a redemption of `amount` out of the supply pays, of each token, the
/// floor of `amount / supply` of that token's own reserve
/// (`out_i * supply <= amount * reserve_i < (out_i + 1) * supply`), takes it
/// out of that reserve, and burns exactly `amount` from the supply and from
/// the redeemer's balance.
pub proof fn lemma_redeem_pays_proportional_share(amm: AmmInfo, minted: MintedPDA, amount: u64)
    ensures
        redeem_result(amm, minted, amount) matches Ok(((after, m), w)) ==> {
            &&& w.amount0 * amm.supply <= amount * amm.reserve0 < (w.amount0 + 1) * amm.supply
            &&& w.amount1 * amm.supply <= amount * amm.reserve1 < (w.amount1 + 1) * amm.supply
            &&& after.reserve0 + w.amount0 == amm.reserve0
            &&& after.reserve1 + w.amount1 == amm.reserve1
            &&& after.supply + amount == amm.supply
            &&& m.minted + amount == minted.minted
        },
{
    if let Ok(_) = redeem_result(amm, minted, amount) {
        assert(amount * amm.reserve0 >= 0 && amount * amm.reserve1 >= 0) by (nonlinear_arith);
        vstd::arithmetic::mul::lemma_mul_is_commutative(amount as int, amm.reserve0 as int);
        vstd::arithmetic::mul::lemma_mul_is_commutative(amount as int, amm.reserve1 as int);
        crate::math::lemma_div_bounds(amount * amm.reserve0, amm.supply as int);
        crate::math::lemma_div_bounds(amount * amm.reserve1, amm.supply as int);
    }
}

/// Law: a swap of `amount_in` whole units takes in `amount_in * 10^d_in`
/// base units and pays out at least `min_out_amount * 10^d_out`; it leaves as
/// the output reserve the floor of the old product over the new input
/// reserve (`new_out * (reserve_in + in) <= reserve_in * reserve_out`, with
/// one unit more exceeding it), and the input reserve grows by the input.
pub proof fn lemma_swap_keeps_product_floor(
    amm: AmmInfo,
    decimals0: u8,
    decimals1: u8,
    is_mint0: bool,
    amount_in: u64,
    min_out_amount: u64,
)
    ensures
        swap_result(amm, decimals0, decimals1, is_mint0, amount_in, min_out_amount) matches Ok((after, t)) ==> {
            let (in_decimals, out_decimals) = if is_mint0 {
                (decimals0, decimals1)
            } else {
                (decimals1, decimals0)
            };
            let (reserve_in, reserve_out) = if is_mint0 {
                (amm.reserve0 as int, amm.reserve1 as int)
            } else {
                (amm.reserve1 as int, amm.reserve0 as int)
            };
            let (after_in, after_out) = if is_mint0 {
                (after.reserve0 as int, after.reserve1 as int)
            } else {
                (after.reserve1 as int, after.reserve0 as int)
            };
            &&& t.is_mint0 == is_mint0
            &&& t.amount_in == amount_in * pow10(in_decimals as nat)
            &&& t.amount_out >= min_out_amount * pow10(out_decimals as nat)
            &&& after_in == reserve_in + t.amount_in
            &&& after_out == reserve_out - t.amount_out
            &&& after_out * (reserve_in + t.amount_in) <= reserve_in * reserve_out
            &&& reserve_in * reserve_out < (after_out + 1) * (reserve_in + t.amount_in)
        },
{
    let (in_decimals, out_decimals) = if is_mint0 {
        (decimals0, decimals1)
    } else {
        (decimals1, decimals0)
    };
    let (reserve_in, reserve_out) = if is_mint0 {
        (amm.reserve0, amm.reserve1)
    } else {
        (amm.reserve1, amm.reserve0)
    };
    if let Ok((after, t)) = swap_result(amm, decimals0, decimals1, is_mint0, amount_in, min_out_amount) {
        let native_in = t.amount_in as int;
        crate::amm::model::lemma_pow10_monotone(0, in_decimals as nat);
        crate::amm::model::lemma_pow10_monotone(0, out_decimals as nat);
        assert(amount_in * pow10(in_decimals as nat) >= 0 && min_out_amount * pow10(out_decimals as nat) >= 0)
            by (nonlinear_arith)
            requires
                pow10(in_decimals as nat) >= 1,
                pow10(out_decimals as nat) >= 1,
        ;
        lemma_product_swap_bounds(native_in, reserve_in as int, reserve_out as int);
        let d = reserve_in + native_in;
        let k = reserve_in * reserve_out;
        let q = reserve_out - product_out(native_in, reserve_in as int, reserve_out as int);
        assert(q * d <= k && k < (q + 1) * d) by (nonlinear_arith)
            requires
                d * q <= k,
                k - d < d * q,
        ;
        if min_out_amount == 0 {
            assert(min_out_amount * pow10(out_decimals as nat) == 0);
        }
    }
}

/// Law: a deposit credits the depositor with exactly what it adds to the
/// supply. Into an empty pool it mints as many units as the first amount;
/// into a funded pool it never mints more than either proportional share
/// counted in whole units (`l * (reserve_i / 10^d_i) <= amount_i * supply`),
/// and one unit more would exceed one of them: it mints the smaller share.
pub proof fn lemma_deposit_mints_fair_share(
    amm: AmmInfo,
    minted: MintedPDA,
    mint0: Pubkey,
    mint1: Pubkey,
    decimals0: u8,
    decimals1: u8,
    amount0: u64,
    amount1: u64,
)
    ensures
        deposit_result(amm, minted, mint0, mint1, decimals0, decimals1, amount0, amount1) matches Ok(
            ((after, m), d),
        ) ==> {
            let l = after.supply - amm.supply;
            let h0 = amm.reserve0 as int / pow10(decimals0 as nat);
            let h1 = amm.reserve1 as int / pow10(decimals1 as nat);
            &&& m.minted - minted.minted == l
            &&& l > 0
            &&& !amm.ever_deposited ==> l == amount0
            &&& amm.ever_deposited ==> l * h0 <= amount0 * amm.supply && l * h1 <= amount1 * amm.supply
            &&& amm.ever_deposited ==> (l + 1) * h0 > amount0 * amm.supply || (l + 1) * h1 > amount1
                * amm.supply
        },
{
    if let Ok(((after, m), d)) = deposit_result(amm, minted, mint0, mint1, decimals0, decimals1, amount0, amount1) {
        if amm.ever_deposited {
            let h0 = amm.reserve0 as int / pow10(decimals0 as nat);
            let h1 = amm.reserve1 as int / pow10(decimals1 as nat);
            lemma_proportional_shares(amount0 as int, amount1 as int, amm.supply as int, h0, h1);
            let m0 = mul_div(amount0 as int, amm.supply as int, h0);
            let m1 = mul_div(amount1 as int, amm.supply as int, h1);
            let l = after.supply - amm.supply;
            lemma_within_share(l, m0, amount0 as int, amm.supply as int, h0);
            lemma_within_share(l, m1, amount1 as int, amm.supply as int, h1);
        }
    }
}

} // verus!
