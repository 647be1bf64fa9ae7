//! Pool that moves base units (whole amounts times `10^decimals` of their
//! mint) and keeps its reserves and supply in base units: the first deposit
//! mints the square root of the product of the two base amounts, later
//! deposits the smaller proportional share, and swaps keep 0.3% of the input
//! before pricing by `reserve_out * in / (reserve_in + in)`.
use vstd::prelude::*;
use crate::common::{Pubkey, applied_with};
use crate::math::{lemma_root_of_product, floor_sqrt, lemma_u64_product, newton_isqrt};
use crate::amm::model;
use crate::amm::model::{lemma_proportional_shares, lemma_within_share, Deposit, Withdrawal, SwapTransfers, mul_div, min_int, plain_out,
    checked_pow10_u128, lemma_pow10_limits, lemma_pow10_monotone, Handover};

verus! {

/// The pool's state.
#[derive(Clone, Copy, Debug, PartialEq, Eq)]
pub struct AmmInfo {
    pub mint0: Pubkey,
    pub mint1: Pubkey,
    pub token_account0: Pubkey,
    pub token_account1: Pubkey,
    pub reserve0: u64,
    pub reserve1: u64,
    pub ever_deposited: bool,
    pub supply: u64,
}

/// Liquidity minted to one depositor.
#[derive(Clone, Copy, Debug, PartialEq, Eq)]
pub struct MintedPDA {
    pub minted: u64,
}

#[derive(Clone, Copy, Debug, PartialEq, Eq)]
pub enum ErrorCode {
    Overflow,
    DivisionByZero,
    InvalidReserve,
    InvalidAmount,
    InsufficientMinted,
    SlippageExceeded,
    InvalidSupply,
    InvalidBump,
}

/// Floor square root of a 128-bit number below the largest one, as 64 bits.
pub fn integer_sqrt(x: u128) -> (r: u64)
    requires
        x < u128::MAX,
    ensures
        r == floor_sqrt(x as int) as u64,
{
    if x == 0 {
        proof {
            assert(crate::math::is_isqrt(0, 0));
            crate::math::lemma_floor_sqrt_is(0, 0);
        }
        return 0;
    }
    newton_isqrt(x) as u64
}

/// `10^decimals` on 128 bits (the instruction stops on more than 38 decimals).
pub fn decimals_to_scale(decimals: u8) -> (r: u128)
    requires
        decimals <= 38,
    ensures
        r as int == model::pow10(decimals as nat),
{
    proof {
        lemma_pow10_limits();
        lemma_pow10_monotone(decimals as nat, 38);
    }
    match checked_pow10_u128(decimals as u32) {
        Some(v) => v,
        None => 1,
    }
}

/// A new pool for two mints and the two token accounts that hold its reserves.
/// Both token accounts are handed over to the pool's address `pool`: the
/// returned `Handover` names them and their new owner.
pub fn initialize(mint0: Pubkey, mint1: Pubkey, token_account0: Pubkey, token_account1: Pubkey, pool: Pubkey) -> (r: (AmmInfo, Handover))
    ensures
        r.0 == (AmmInfo {
            mint0,
            mint1,
            token_account0,
            token_account1,
            reserve0: 0,
            reserve1: 0,
            ever_deposited: false,
            supply: 0,
        }),
        r.1 == (Handover { token_account0, token_account1, new_owner: pool }),
{
    let amm = AmmInfo {
        mint0,
        mint1,
        token_account0,
        token_account1,
        reserve0: 0,
        reserve1: 0,
        ever_deposited: false,
        supply: 0,
    };
    (amm, Handover { token_account0, token_account1, new_owner: pool })
}

/// Outcome of a deposit of `amount0` and `amount1` whole units of mints
/// with `dec0` and `dec1` decimals.
pub open spec fn deposit_result(
    amm: AmmInfo,
    minted: MintedPDA,
    dec0: u8,
    dec1: u8,
    amount0: u64,
    amount1: u64,
) -> Result<((AmmInfo, MintedPDA), Deposit), ErrorCode> {
    let base0 = amount0 * model::pow10(dec0 as nat);
    let base1 = amount1 * model::pow10(dec1 as nat);
    if base0 > u128::MAX || base1 > u128::MAX || base0 > u64::MAX || base1 > u64::MAX {
        Err(ErrorCode::Overflow)
    } else {
        let minted_now: Result<u64, ErrorCode> = if !amm.ever_deposited {
            let m = floor_sqrt(base0 * base1) as u64;
            if m > 0 {
                Ok(m)
            } else {
                Err(ErrorCode::InvalidAmount)
            }
        } else if !(amm.reserve0 > 0 && amm.reserve1 > 0) {
            Err(ErrorCode::InvalidReserve)
        } else {
            let m = min_int(
                mul_div(base0, amm.supply as int, amm.reserve0 as int),
                mul_div(base1, amm.supply as int, amm.reserve1 as int),
            );
            if m > u64::MAX {
                Err(ErrorCode::Overflow)
            } else {
                Ok(m as u64)
            }
        };
        match minted_now {
            Err(e) => Err(e),
            Ok(m) => if amm.reserve0 + base0 > u64::MAX || amm.reserve1 + base1 > u64::MAX
                || amm.supply + m > u64::MAX || minted.minted + m > u64::MAX {
                Err(ErrorCode::Overflow)
            } else {
                Ok(
                    (
                        (
                            AmmInfo {
                                ever_deposited: true,
                                reserve0: (amm.reserve0 + base0) as u64,
                                reserve1: (amm.reserve1 + base1) as u64,
                                supply: (amm.supply + m) as u64,
                                ..amm
                            },
                            MintedPDA { minted: (minted.minted + m) as u64 },
                        ),
                        Deposit { amount0: base0 as u64, amount1: base1 as u64 },
                    ),
                )
            },
        }
    }
}

/// `amount * scale` as a 64-bit base amount, or `None` when it does not fit.
fn to_base(amount: u64, scale: u128) -> (r: Option<u64>)
    ensures
        r is Some <==> (amount as int) * (scale as int) <= u64::MAX,
        r matches Some(v) ==> v as int == (amount as int) * (scale as int),
{
    match (amount as u128).checked_mul(scale) {
        Some(v) => if v <= u64::MAX as u128 {
            Some(v as u64)
        } else {
            None
        },
        None => None,
    }
}

/// Deposits `amount0` and `amount1` whole units as base units and credits the
/// minted liquidity to the depositor.
pub fn deposit(
    amm: &mut AmmInfo,
    minted: &mut MintedPDA,
    dec0: u8,
    dec1: u8,
    amount0: u64,
    amount1: u64,
) -> (r: Result<Deposit, ErrorCode>)
    requires
        dec0 <= 38,
        dec1 <= 38,
    ensures
        applied_with(
            r,
            (*old(amm), *old(minted)),
            (*final(amm), *final(minted)),
            deposit_result(*old(amm), *old(minted), dec0, dec1, amount0, amount1),
        ),
{
    let scale0 = decimals_to_scale(dec0);
    let scale1 = decimals_to_scale(dec1);
    let amount0_base = match to_base(amount0, scale0) {
        Some(v) => v,
        None => return Err(ErrorCode::Overflow),
    };
    let amount1_base = match to_base(amount1, scale1) {
        Some(v) => v,
        None => return Err(ErrorCode::Overflow),
    };
    let minted_amount: u64;
    if !amm.ever_deposited {
        proof {
            lemma_u64_product(amount0_base, amount1_base);
        }
        let prod = (amount0_base as u128) * (amount1_base as u128);
        let m = integer_sqrt(prod);
        if !(m > 0) {
            return Err(ErrorCode::InvalidAmount);
        }
        minted_amount = m;
    } else {
        if !(amm.reserve0 > 0 && amm.reserve1 > 0) {
            return Err(ErrorCode::InvalidReserve);
        }
        let m0 = match model::mul_div_wide(amount0_base, amm.supply, amm.reserve0) {
            Some(v) => v,
            None => return Err(ErrorCode::DivisionByZero),
        };
        let m1 = match model::mul_div_wide(amount1_base, amm.supply, amm.reserve1) {
            Some(v) => v,
            None => return Err(ErrorCode::DivisionByZero),
        };
        let m = if m0 <= m1 {
            m0
        } else {
            m1
        };
        if m > u64::MAX as u128 {
            return Err(ErrorCode::Overflow);
        }
        minted_amount = m as u64;
    }
    let reserve0 = match amm.reserve0.checked_add(amount0_base) {
        Some(v) => v,
        None => return Err(ErrorCode::Overflow),
    };
    let reserve1 = match amm.reserve1.checked_add(amount1_base) {
        Some(v) => v,
        None => return Err(ErrorCode::Overflow),
    };
    let supply = match amm.supply.checked_add(minted_amount) {
        Some(v) => v,
        None => return Err(ErrorCode::Overflow),
    };
    let new_minted = match minted.minted.checked_add(minted_amount) {
        Some(v) => v,
        None => return Err(ErrorCode::Overflow),
    };
    amm.ever_deposited = true;
    amm.reserve0 = reserve0;
    amm.reserve1 = reserve1;
    amm.supply = supply;
    minted.minted = new_minted;
    Ok(Deposit { amount0: amount0_base, amount1: amount1_base })
}

/// Outcome of redeeming `amount` liquidity.
pub open spec fn redeem_result(amm: AmmInfo, minted: MintedPDA, amount: u64) -> Result<
    ((AmmInfo, MintedPDA), Withdrawal),
    ErrorCode,
> {
    if amount == 0 {
        Err(ErrorCode::InvalidAmount)
    } else if amm.supply == 0 {
        Err(ErrorCode::InvalidSupply)
    } else if minted.minted < amount {
        Err(ErrorCode::InsufficientMinted)
    } else {
        let out0 = mul_div(amount as int, amm.reserve0 as int, amm.supply as int);
        let out1 = mul_div(amount as int, amm.reserve1 as int, amm.supply as int);
        if out0 > u64::MAX || out1 > u64::MAX || amm.reserve0 < out0 || amm.reserve1 < out1
            || amm.supply < amount {
            Err(ErrorCode::Overflow)
        } else {
            Ok(
                (
                    (
                        AmmInfo {
                            reserve0: (amm.reserve0 - out0) as u64,
                            reserve1: (amm.reserve1 - out1) as u64,
                            supply: (amm.supply - amount) as u64,
                            ..amm
                        },
                        MintedPDA { minted: (minted.minted - amount) as u64 },
                    ),
                    Withdrawal { amount0: out0 as u64, amount1: out1 as u64 },
                ),
            )
        }
    }
}

/// Redeems `amount` liquidity for the proportional share of both reserves.
pub fn redeem(amm: &mut AmmInfo, minted: &mut MintedPDA, amount: u64) -> (r: Result<Withdrawal, ErrorCode>)
    ensures
        applied_with(
            r,
            (*old(amm), *old(minted)),
            (*final(amm), *final(minted)),
            redeem_result(*old(amm), *old(minted), amount),
        ),
{
    if !(amount > 0) {
        return Err(ErrorCode::InvalidAmount);
    }
    if !(amm.supply > 0) {
        return Err(ErrorCode::InvalidSupply);
    }
    if !(minted.minted >= amount) {
        return Err(ErrorCode::InsufficientMinted);
    }
    let out0_u128 = match model::mul_div_wide(amount, amm.reserve0, amm.supply) {
        Some(v) => v,
        None => return Err(ErrorCode::DivisionByZero),
    };
    let out1_u128 = match model::mul_div_wide(amount, amm.reserve1, amm.supply) {
        Some(v) => v,
        None => return Err(ErrorCode::DivisionByZero),
    };
    if out0_u128 > u64::MAX as u128 {
        return Err(ErrorCode::Overflow);
    }
    if out1_u128 > u64::MAX as u128 {
        return Err(ErrorCode::Overflow);
    }
    let out0 = out0_u128 as u64;
    let out1 = out1_u128 as u64;
    let reserve0 = match amm.reserve0.checked_sub(out0) {
        Some(v) => v,
        None => return Err(ErrorCode::Overflow),
    };
    let reserve1 = match amm.reserve1.checked_sub(out1) {
        Some(v) => v,
        None => return Err(ErrorCode::Overflow),
    };
    let supply = match amm.supply.checked_sub(amount) {
        Some(v) => v,
        None => return Err(ErrorCode::Overflow),
    };
    amm.reserve0 = reserve0;
    amm.reserve1 = reserve1;
    amm.supply = supply;
    minted.minted = minted.minted - amount;
    Ok(Withdrawal { amount0: out0, amount1: out1 })
}

/// Outcome of swapping `amount_in` whole units of the input mint for at least
/// `min_out_amount` whole units of the other, with mint decimals `dec0` and
/// `dec1`.
pub open spec fn swap_result(
    amm: AmmInfo,
    dec0: u8,
    dec1: u8,
    is_mint0: bool,
    amount_in: u64,
    min_out_amount: u64,
) -> Result<(AmmInfo, SwapTransfers), ErrorCode> {
    let (dec_in, dec_out) = if is_mint0 {
        (dec0, dec1)
    } else {
        (dec1, dec0)
    };
    let (reserve_in, reserve_out) = if is_mint0 {
        (amm.reserve0, amm.reserve1)
    } else {
        (amm.reserve1, amm.reserve0)
    };
    let in_base = amount_in * model::pow10(dec_in as nat);
    let min_out_base = min_out_amount * model::pow10(dec_out as nat);
    if in_base > u64::MAX || min_out_base > u64::MAX {
        Err(ErrorCode::Overflow)
    } else if in_base == 0 {
        Err(ErrorCode::InvalidAmount)
    } else if !(reserve_in > 0 && reserve_out > 0) {
        Err(ErrorCode::InvalidReserve)
    } else {
        let out = plain_out(in_base * 997 / 1000, reserve_in as int, reserve_out as int);
        if out < min_out_base {
            Err(ErrorCode::SlippageExceeded)
        } else if reserve_in + in_base > u64::MAX {
            Err(ErrorCode::Overflow)
        } else {
            let new_in = (reserve_in + in_base) as u64;
            let new_out = (reserve_out - out) as u64;
            Ok(
                (
                    if is_mint0 {
                        AmmInfo { reserve0: new_in, reserve1: new_out, ..amm }
                    } else {
                        AmmInfo { reserve1: new_in, reserve0: new_out, ..amm }
                    },
                    SwapTransfers { is_mint0, amount_in: in_base as u64, amount_out: out as u64 },
                ),
            )
        }
    }
}

/// Swaps `amount_in` whole units of mint0 (when `is_mint0`) or of mint1 for
/// the other mint: 0.3% of the input stays as fee, the rest is priced at
/// `reserve_out * in / (reserve_in + in)`; an output below `min_out_amount`
/// whole units is refused.
pub fn swap(
    amm: &mut AmmInfo,
    dec0: u8,
    dec1: u8,
    is_mint0: bool,
    amount_in: u64,
    min_out_amount: u64,
) -> (r: Result<SwapTransfers, ErrorCode>)
    requires
        dec0 <= 38,
        dec1 <= 38,
    ensures
        applied_with(
            r,
            *old(amm),
            *final(amm),
            swap_result(*old(amm), dec0, dec1, is_mint0, amount_in, min_out_amount),
        ),
{
    let scale0 = decimals_to_scale(dec0);
    let scale1 = decimals_to_scale(dec1);
    let amount_in_base: u64;
    let min_out_base: u64;
    if is_mint0 {
        amount_in_base = match to_base(amount_in, scale0) {
            Some(v) => v,
            None => return Err(ErrorCode::Overflow),
        };
        min_out_base = match to_base(min_out_amount, scale1) {
            Some(v) => v,
            None => return Err(ErrorCode::Overflow),
        };
    } else {
        amount_in_base = match to_base(amount_in, scale1) {
            Some(v) => v,
            None => return Err(ErrorCode::Overflow),
        };
        min_out_base = match to_base(min_out_amount, scale0) {
            Some(v) => v,
            None => return Err(ErrorCode::Overflow),
        };
    }
    if !(amount_in_base > 0) {
        return Err(ErrorCode::InvalidAmount);
    }
    let (reserve_in, reserve_out) = if is_mint0 {
        (amm.reserve0, amm.reserve1)
    } else {
        (amm.reserve1, amm.reserve0)
    };
    if !(reserve_in > 0 && reserve_out > 0) {
        return Err(ErrorCode::InvalidReserve);
    }
    let amount_in_with_fee = (amount_in_base as u128) * 997 / 1000;
    let fee_in = amount_in_with_fee as u64;
    proof {
        model::lemma_plain_swap_keeps_product(fee_in as int, reserve_in as int, reserve_out as int);
        lemma_u64_product(reserve_out, fee_in);
    }
    let numerator = (reserve_out as u128) * (fee_in as u128);
    let denominator = (reserve_in as u128) + (fee_in as u128);
    let amount_out = (numerator / denominator) as u64;
    if !(amount_out >= min_out_base) {
        return Err(ErrorCode::SlippageExceeded);
    }
    let new_in = match reserve_in.checked_add(amount_in_base) {
        Some(v) => v,
        None => return Err(ErrorCode::Overflow),
    };
    let new_out = reserve_out - amount_out;
    if is_mint0 {
        amm.reserve0 = new_in;
        amm.reserve1 = new_out;
    } else {
        amm.reserve1 = new_in;
        amm.reserve0 = new_out;
    }
    Ok(SwapTransfers { is_mint0, amount_in: amount_in_base, amount_out })
}

/// Law: a successful swap never lowers the product of the two reserves.
pub proof fn lemma_swap_keeps_product(
    amm: AmmInfo,
    dec0: u8,
    dec1: u8,
    is_mint0: bool,
    amount_in: u64,
    min_out_amount: u64,
)
    ensures
        swap_result(amm, dec0, dec1, is_mint0, amount_in, min_out_amount) matches Ok((after, _))
            ==> after.reserve0 * after.reserve1 >= amm.reserve0 * amm.reserve1,
{
    let (reserve_in, reserve_out) = if is_mint0 {
        (amm.reserve0, amm.reserve1)
    } else {
        (amm.reserve1, amm.reserve0)
    };
    let dec_in = if is_mint0 {
        dec0
    } else {
        dec1
    };
    let in_base = amount_in * model::pow10(dec_in as nat);
    if let Ok((after, _)) = swap_result(amm, dec0, dec1, is_mint0, amount_in, min_out_amount) {
        let scale = model::pow10(dec_in as nat);
        model::lemma_pow10_monotone(0, dec_in as nat);
        assert(0 <= in_base * 997 / 1000 <= in_base) by (nonlinear_arith)
            requires
                in_base == amount_in * scale,
                scale >= 1,
                amount_in >= 0,
        ;
        model::lemma_reduced_input_swap_keeps_product(
            in_base,
            in_base * 997 / 1000,
            reserve_in as int,
            reserve_out as int,
        );
        vstd::arithmetic::mul::lemma_mul_is_commutative(amm.reserve0 as int, amm.reserve1 as int);
        vstd::arithmetic::mul::lemma_mul_is_commutative(after.reserve0 as int, after.reserve1 as int);
    }
}

/// Law: a redemption of `amount` out of the supply pays, of each token, the
/// floor of `amount / supply` of that token's own reserve
/// (`out_i * supply <= amount * reserve_i < (out_i + 1) * supply`), takes it
/// out of that reserve, and burns exactly `amount` from the supply and from
/// the redeemer's balance.
pub proof fn lemma_redeem_pays_proportional_share(amm: AmmInfo, minted: MintedPDA, amount: u64)
    ensures
        redeem_result(amm, minted, amount) matches Ok(((after, m), w)) ==> {
            &&& w.amount0 * amm.supply <= amount * amm.reserve0 < (w.amount0 + 1) * amm.supply
            &&& w.amount1 * amm.supply <= amount * amm.reserve1 < (w.amount1 + 1) * amm.supply
            &&& after.reserve0 + w.amount0 == amm.reserve0
            &&& after.reserve1 + w.amount1 == amm.reserve1
            &&& after.supply + amount == amm.supply
            &&& m.minted + amount == minted.minted
        },
{
    if let Ok(_) = redeem_result(amm, minted, amount) {
        assert(amount * amm.reserve0 >= 0 && amount * amm.reserve1 >= 0) by (nonlinear_arith);
        vstd::arithmetic::mul::lemma_mul_is_commutative(amount as int, amm.reserve0 as int);
        vstd::arithmetic::mul::lemma_mul_is_commutative(amount as int, amm.reserve1 as int);
        crate::math::lemma_div_bounds(amount * amm.reserve0, amm.supply as int);
        crate::math::lemma_div_bounds(amount * amm.reserve1, amm.supply as int);
    }
}

/// Law: a deposit credits the depositor with exactly what it adds to the
/// supply, and adds the deposited amounts, counted in base units
/// (`b_i = amount_i * 10^dec_i`), to the reserves. Into an empty pool it mints
/// the floor square root of the product of the two (`l * l <= b0 * b1 <
/// (l + 1) * (l + 1)`). Into a funded pool it never mints more than either
/// proportional share (`l * reserve_i <= b_i * supply`), and one unit more
/// would exceed one of them: it mints the smaller share.
pub proof fn lemma_deposit_mints_fair_share(
    amm: AmmInfo,
    minted: MintedPDA,
    dec0: u8,
    dec1: u8,
    amount0: u64,
    amount1: u64,
)
    ensures
        deposit_result(amm, minted, dec0, dec1, amount0, amount1) matches Ok(((after, m), d)) ==> {
            let b0 = amount0 * model::pow10(dec0 as nat);
            let b1 = amount1 * model::pow10(dec1 as nat);
            let l = after.supply - amm.supply;
            &&& m.minted - minted.minted == l
            &&& after.reserve0 == amm.reserve0 + b0 && after.reserve1 == amm.reserve1 + b1
            &&& !amm.ever_deposited ==> l * l <= b0 * b1 < (l + 1) * (l + 1)
            &&& amm.ever_deposited ==> l * amm.reserve0 <= b0 * amm.supply && l * amm.reserve1 <= b1 * amm.supply
            &&& amm.ever_deposited ==> (l + 1) * amm.reserve0 > b0 * amm.supply || (l + 1) * amm.reserve1 > b1
                * amm.supply
        },
{
    if let Ok(((after, m), d)) = deposit_result(amm, minted, dec0, dec1, amount0, amount1) {
        let b0 = amount0 * model::pow10(dec0 as nat);
        let b1 = amount1 * model::pow10(dec1 as nat);
        model::lemma_pow10_monotone(0, dec0 as nat);
        model::lemma_pow10_monotone(0, dec1 as nat);
        assert(b0 >= 0 && b1 >= 0) by (nonlinear_arith)
            requires
                b0 == amount0 * model::pow10(dec0 as nat),
                b1 == amount1 * model::pow10(dec1 as nat),
                model::pow10(dec0 as nat) >= 1,
                model::pow10(dec1 as nat) >= 1,
        ;
        if !amm.ever_deposited {
            lemma_root_of_product(b0 as u64, b1 as u64);
        } else {
            lemma_proportional_shares(b0, b1, amm.supply as int, amm.reserve0 as int, amm.reserve1 as int);
            let m0 = mul_div(b0, amm.supply as int, amm.reserve0 as int);
            let m1 = mul_div(b1, amm.supply as int, amm.reserve1 as int);
            let l = after.supply - amm.supply;
            lemma_within_share(l, m0, b0, amm.supply as int, amm.reserve0 as int);
            lemma_within_share(l, m1, b1, amm.supply as int, amm.reserve1 as int);
        }
    }
}

/// Law: a swap of `amount_in` whole units takes in `amount_in * 10^d_in` base
/// units and pays out at least `min_out_amount * 10^d_out`: the largest output
/// that the constant-product price of 99.7% of the input allows
/// (`out * (reserve_in + e) <= reserve_out * e`, with one unit more exceeding
/// it, where `e` is 997/1000 of the input, rounded down). The input reserve
/// grows by the whole input, the output reserve shrinks by the output.
pub proof fn lemma_swap_pays_priced_output(
    amm: AmmInfo,
    dec0: u8,
    dec1: u8,
    is_mint0: bool,
    amount_in: u64,
    min_out_amount: u64,
)
    ensures
        swap_result(amm, dec0, dec1, is_mint0, amount_in, min_out_amount) matches Ok((after, t)) ==> {
            let (dec_in, dec_out) = if is_mint0 {
                (dec0, dec1)
            } else {
                (dec1, dec0)
            };
            let (reserve_in, reserve_out) = if is_mint0 {
                (amm.reserve0 as int, amm.reserve1 as int)
            } else {
                (amm.reserve1 as int, amm.reserve0 as int)
            };
            let (after_in, after_out) = if is_mint0 {
                (after.reserve0 as int, after.reserve1 as int)
            } else {
                (after.reserve1 as int, after.reserve0 as int)
            };
            let e = t.amount_in * 997 / 1000;
            &&& t.is_mint0 == is_mint0
            &&& t.amount_in == amount_in * model::pow10(dec_in as nat)
            &&& t.amount_out >= min_out_amount * model::pow10(dec_out as nat)
            &&& t.amount_out * (reserve_in + e) <= reserve_out * e
            &&& reserve_out * e < (t.amount_out + 1) * (reserve_in + e)
            &&& after_in == reserve_in + t.amount_in
            &&& after_out == reserve_out - t.amount_out
        },
{
    let (dec_in, dec_out) = if is_mint0 {
        (dec0, dec1)
    } else {
        (dec1, dec0)
    };
    let (reserve_in, reserve_out) = if is_mint0 {
        (amm.reserve0, amm.reserve1)
    } else {
        (amm.reserve1, amm.reserve0)
    };
    if let Ok((after, t)) = swap_result(amm, dec0, dec1, is_mint0, amount_in, min_out_amount) {
        model::lemma_pow10_monotone(0, dec_in as nat);
        model::lemma_pow10_monotone(0, dec_out as nat);
        let b = amount_in * model::pow10(dec_in as nat);
        assert(b >= 0 && min_out_amount * model::pow10(dec_out as nat) >= 0) by (nonlinear_arith)
            requires
                b == amount_in * model::pow10(dec_in as nat),
                model::pow10(dec_in as nat) >= 1,
                model::pow10(dec_out as nat) >= 1,
        ;
        model::lemma_plain_out_is_floor(b * 997 / 1000, reserve_in as int, reserve_out as int);
    }
}

} // verus!
