//! Pool whose first deposit mints the square root of the product of the two
//! amounts less one locked unit, whose later deposits mint the smaller
//! proportional share, and whose swaps keep a 0.3% fee. The redeemer's
//! minted balance is read from, and written back to, the raw data of an
//! account that the program does not deserialize itself.
use vstd::prelude::*;
use crate::common::{Pubkey, same_key, applied_with, le_value, u64_from_le, u64_to_le, write_bytes8};
use crate::math::{lemma_root_of_product, floor_sqrt, lemma_u64_product, newton_isqrt};
use crate::amm::model::{lemma_proportional_shares, lemma_within_share, lemma_fee_out_is_floor, Deposit, Withdrawal, SwapTransfers, mul_div, min_int, fee_out, lemma_fee_swap_keeps_product,
    lemma_minted_within_both_shares, lemma_share_within_reserve, Handover};
use crate::math::{lemma_div_bounds, lemma_floor_sqrt_exists, lemma_low_bits_at_most};
use vstd::arithmetic::mul::lemma_mul_is_commutative;

verus! {

/// The pool's state.
#[derive(Clone, Copy, Debug, PartialEq, Eq)]
pub struct AmmInfo {
    pub mint0: Pubkey,
    pub mint1: Pubkey,
    pub token_account0: Pubkey,
    pub token_account1: Pubkey,
    pub reserve0: u64,
    pub reserve1: u64,
    pub ever_deposited: bool,
    pub supply: u64,
}

/// Liquidity minted to one depositor.
#[derive(Clone, Copy, Debug, PartialEq, Eq)]
pub struct MintedPda {
    pub minted: u64,
}

/// The depositor's minted-liquidity account as redeem and swap see it:
/// whether this program owns it, and its raw data (an eight-byte tag, then
/// the minted amount in little-endian order).
#[derive(Debug, PartialEq, Eq)]
pub struct MintedAccount {
    pub owned_by_program: bool,
    pub data: Vec<u8>,
}

#[derive(Clone, Copy, Debug, PartialEq, Eq)]
pub enum ErrorCode {
    InvalidAmount,
    MathOverflow,
    DivisionByZero,
    InsufficientLiquidity,
    InsufficientOutput,
    SlippageExceeded,
    InvalidAccount,
    AccountNotInitialized,
    /// The framework's refusal of an account that fails a check declared
    /// with the accounts (a token account other than the one expected).
    ConstraintRaw,
}

/// Liquidity locked forever by the first deposit.
pub const MINIMUM_LIQUIDITY: u64 = 1;

/// A new pool for two mints and the two token accounts that will hold its
/// reserves.
/// Both token accounts are handed over to the pool's address `pool`: the
/// returned `Handover` names them and their new owner.
pub fn initialize(mint0: Pubkey, mint1: Pubkey, token_account0: Pubkey, token_account1: Pubkey, pool: Pubkey) -> (r: (AmmInfo, Handover))
    ensures
        r.0 == (AmmInfo {
            mint0,
            mint1,
            token_account0,
            token_account1,
            reserve0: 0,
            reserve1: 0,
            ever_deposited: false,
            supply: 0,
        }),
        r.1 == (Handover { token_account0, token_account1, new_owner: pool }),
{
    let amm = AmmInfo {
        mint0,
        mint1,
        token_account0,
        token_account1,
        reserve0: 0,
        reserve1: 0,
        ever_deposited: false,
        supply: 0,
    };
    (amm, Handover { token_account0, token_account1, new_owner: pool })
}

/// Liquidity a deposit mints and the supply after it, or why it is refused.
pub open spec fn deposit_mint(amm: AmmInfo, amount0: u64, amount1: u64) -> Result<(u64, u64), ErrorCode> {
    if !amm.ever_deposited {
        let root = floor_sqrt(amount0 * amount1);
        if root <= MINIMUM_LIQUIDITY {
            Err(ErrorCode::InsufficientLiquidity)
        } else {
            Ok(((root - MINIMUM_LIQUIDITY) as u64, root as u64))
        }
    } else if amm.reserve0 == 0 || amm.reserve1 == 0 {
        Err(ErrorCode::DivisionByZero)
    } else {
        let l = min_int(
            mul_div(amount0 as int, amm.supply as int, amm.reserve0 as int) as u64 as int,
            mul_div(amount1 as int, amm.supply as int, amm.reserve1 as int) as u64 as int,
        );
        if l <= 0 {
            Err(ErrorCode::InsufficientLiquidity)
        } else if amm.supply + l > u64::MAX {
            Err(ErrorCode::MathOverflow)
        } else {
            Ok((l as u64, (amm.supply + l) as u64))
        }
    }
}

/// Outcome of a deposit of `amount0` and `amount1`.
pub open spec fn deposit_result(amm: AmmInfo, minted: MintedPda, amount0: u64, amount1: u64) -> Result<
    ((AmmInfo, MintedPda), Deposit),
    ErrorCode,
> {
    if !(amount0 > 0 && amount1 > 0) {
        Err(ErrorCode::InvalidAmount)
    } else {
        match deposit_mint(amm, amount0, amount1) {
            Err(e) => Err(e),
            Ok((l, s)) => if amm.reserve0 + amount0 > u64::MAX || amm.reserve1 + amount1 > u64::MAX
                || minted.minted + l > u64::MAX {
                Err(ErrorCode::MathOverflow)
            } else {
                Ok(
                    (
                        (
                            AmmInfo {
                                reserve0: (amm.reserve0 + amount0) as u64,
                                reserve1: (amm.reserve1 + amount1) as u64,
                                supply: s,
                                ever_deposited: true,
                                ..amm
                            },
                            MintedPda { minted: (minted.minted + l) as u64 },
                        ),
                        Deposit { amount0, amount1 },
                    ),
                )
            },
        }
    }
}

/// `a * b / d` on 128-bit numbers, refused as the instruction refuses it.
fn share(a: u64, b: u64, d: u64) -> (r: Result<u64, ErrorCode>)
    ensures
        d == 0 ==> r == Err::<u64, ErrorCode>(ErrorCode::DivisionByZero),
        d != 0 ==> r == Ok::<u64, ErrorCode>(mul_div(a as int, b as int, d as int) as u64),
{
    proof {
        lemma_u64_product(a, b);
    }
    let p = match (a as u128).checked_mul(b as u128) {
        Some(p) => p,
        None => return Err(ErrorCode::MathOverflow),
    };
    match p.checked_div(d as u128) {
        Some(q) => Ok(q as u64),
        None => Err(ErrorCode::DivisionByZero),
    }
}

/// Deposits `amount0` of mint0 and `amount1` of mint1 and credits the minted
/// liquidity to the depositor.
pub fn deposit(amm: &mut AmmInfo, minted: &mut MintedPda, amount0: u64, amount1: u64) -> (r: Result<Deposit, ErrorCode>)
    ensures
        applied_with(
            r,
            (*old(amm), *old(minted)),
            (*final(amm), *final(minted)),
            deposit_result(*old(amm), *old(minted), amount0, amount1),
        ),
{
    if !(amount0 > 0 && amount1 > 0) {
        return Err(ErrorCode::InvalidAmount);
    }
    let liquidity_minted: u64;
    let new_supply: u64;
    if !amm.ever_deposited {
        proof {
            lemma_u64_product(amount0, amount1);
            assert((amount0 as int) * (amount1 as int) > 0) by (nonlinear_arith)
                requires
                    amount0 > 0,
                    amount1 > 0,
            ;
        }
        let product = match (amount0 as u128).checked_mul(amount1 as u128) {
            Some(p) => p,
            None => return Err(ErrorCode::MathOverflow),
        };
        if !(product > 0) {
            return Err(ErrorCode::InsufficientLiquidity);
        }
        let root = newton_isqrt(product);
        let sqrt_result = root as u64;
        if !(sqrt_result > MINIMUM_LIQUIDITY) {
            return Err(ErrorCode::InsufficientLiquidity);
        }
        liquidity_minted = sqrt_result - MINIMUM_LIQUIDITY;
        if !(liquidity_minted > 0) {
            return Err(ErrorCode::InsufficientLiquidity);
        }
        new_supply = sqrt_result;
    } else {
        let liquidity0 = share(amount0, amm.supply, amm.reserve0)?;
        let liquidity1 = share(amount1, amm.supply, amm.reserve1)?;
        liquidity_minted = if liquidity0 <= liquidity1 {
            liquidity0
        } else {
            liquidity1
        };
        if !(liquidity_minted > 0) {
            return Err(ErrorCode::InsufficientLiquidity);
        }
        new_supply = match amm.supply.checked_add(liquidity_minted) {
            Some(s) => s,
            None => return Err(ErrorCode::MathOverflow),
        };
    }
    let reserve0 = match amm.reserve0.checked_add(amount0) {
        Some(v) => v,
        None => return Err(ErrorCode::MathOverflow),
    };
    let reserve1 = match amm.reserve1.checked_add(amount1) {
        Some(v) => v,
        None => return Err(ErrorCode::MathOverflow),
    };
    let new_minted = match minted.minted.checked_add(liquidity_minted) {
        Some(v) => v,
        None => return Err(ErrorCode::MathOverflow),
    };
    amm.supply = new_supply;
    amm.ever_deposited = true;
    amm.reserve0 = reserve0;
    amm.reserve1 = reserve1;
    minted.minted = new_minted;
    Ok(Deposit { amount0, amount1 })
}

/// The minted amount that the account's data records.
pub open spec fn recorded_minted(data: Seq<u8>) -> nat {
    le_value(data.subrange(8, 16))
}

/// Outcome of redeeming `amount` liquidity against the recorded balance
/// `minted`.
pub open spec fn redeem_result(amm: AmmInfo, minted: MintedAccount, amount: u64) -> Result<
    ((AmmInfo, MintedAccount), Withdrawal),
    ErrorCode,
> {
    let held = recorded_minted(minted.data@);
    if amount == 0 {
        Err(ErrorCode::InvalidAmount)
    } else if !minted.owned_by_program || minted.data@.len() < 16 {
        Err(ErrorCode::AccountNotInitialized)
    } else if held < amount || amm.supply < amount {
        Err(ErrorCode::InsufficientLiquidity)
    } else {
        let out0 = mul_div(amount as int, amm.reserve0 as int, amm.supply as int) as u64;
        let out1 = mul_div(amount as int, amm.reserve1 as int, amm.supply as int) as u64;
        if !(out0 > 0 && out1 > 0) {
            Err(ErrorCode::InsufficientOutput)
        } else if amm.reserve0 < out0 || amm.reserve1 < out1 {
            Err(ErrorCode::MathOverflow)
        } else {
            Ok(
                (
                    (
                        AmmInfo {
                            reserve0: (amm.reserve0 - out0) as u64,
                            reserve1: (amm.reserve1 - out1) as u64,
                            supply: (amm.supply - amount) as u64,
                            ..amm
                        },
                        minted,
                    ),
                    Withdrawal { amount0: out0, amount1: out1 },
                ),
            )
        }
    }
}

/// Redeems `amount` liquidity for the proportional share of both reserves
/// and lowers the balance recorded in the minted account's data by `amount`.
pub fn redeem(amm: &mut AmmInfo, minted: &mut MintedAccount, amount: u64) -> (r: Result<Withdrawal, ErrorCode>)
    ensures
        match redeem_result(*old(amm), *old(minted), amount) {
            Ok(((a, _), w)) => r == Ok::<Withdrawal, ErrorCode>(w) && *final(amm) == a
                && final(minted).owned_by_program == old(minted).owned_by_program
                && final(minted).data@ == old(minted).data@.subrange(0, 8) + final(minted).data@.subrange(8, 16)
                + old(minted).data@.subrange(16, old(minted).data@.len() as int)
                && final(minted).data@.len() == old(minted).data@.len()
                && recorded_minted(final(minted).data@) == recorded_minted(old(minted).data@) - amount,
            Err(e) => r == Err::<Withdrawal, ErrorCode>(e) && *final(amm) == *old(amm) && *final(minted) == *old(minted),
        },
{
    if !(amount > 0) {
        return Err(ErrorCode::InvalidAmount);
    }
    if !minted.owned_by_program {
        return Err(ErrorCode::AccountNotInitialized);
    }
    if !(minted.data.len() >= 16) {
        return Err(ErrorCode::AccountNotInitialized);
    }
    let bytes: [u8; 8] = [
        minted.data[8],
        minted.data[9],
        minted.data[10],
        minted.data[11],
        minted.data[12],
        minted.data[13],
        minted.data[14],
        minted.data[15],
    ];
    assert(bytes@ =~= minted.data@.subrange(8, 16));
    let held = u64_from_le(bytes);
    if !(held >= amount) {
        return Err(ErrorCode::InsufficientLiquidity);
    }
    if !(amm.supply >= amount) {
        return Err(ErrorCode::InsufficientLiquidity);
    }
    let amount0 = share(amount, amm.reserve0, amm.supply)?;
    let amount1 = share(amount, amm.reserve1, amm.supply)?;
    if !(amount0 > 0 && amount1 > 0) {
        return Err(ErrorCode::InsufficientOutput);
    }
    let reserve0 = match amm.reserve0.checked_sub(amount0) {
        Some(v) => v,
        None => return Err(ErrorCode::MathOverflow),
    };
    let reserve1 = match amm.reserve1.checked_sub(amount1) {
        Some(v) => v,
        None => return Err(ErrorCode::MathOverflow),
    };
    let supply = amm.supply - amount;
    let new_held = held - amount;
    let new_bytes = u64_to_le(new_held);
    amm.reserve0 = reserve0;
    amm.reserve1 = reserve1;
    amm.supply = supply;
    write_bytes8(&mut minted.data, 8, new_bytes);
    proof {
        assert(minted.data@.subrange(8, 16) =~= new_bytes@);
        assert(minted.data@.subrange(0, 8) =~= old(minted).data@.subrange(0, 8));
    }
    Ok(Withdrawal { amount0, amount1 })
}

/// Outcome of swapping `amount_in` of the input mint.
pub open spec fn swap_result(amm: AmmInfo, is_mint0: bool, amount_in: u64, min_out_amount: u64) -> Result<
    (AmmInfo, SwapTransfers),
    ErrorCode,
> {
    let (reserve_in, reserve_out) = if is_mint0 {
        (amm.reserve0, amm.reserve1)
    } else {
        (amm.reserve1, amm.reserve0)
    };
    let out = fee_out(amount_in as int, reserve_in as int, reserve_out as int) as u64;
    if amount_in == 0 {
        Err(ErrorCode::InvalidAmount)
    } else if amount_in * 997 * reserve_out > u128::MAX {
        Err(ErrorCode::MathOverflow)
    } else if out < min_out_amount {
        Err(ErrorCode::SlippageExceeded)
    } else if out == 0 {
        Err(ErrorCode::InsufficientOutput)
    } else if out >= reserve_out {
        Err(ErrorCode::InsufficientLiquidity)
    } else if reserve_in + amount_in > u64::MAX {
        Err(ErrorCode::MathOverflow)
    } else {
        let new_in = (reserve_in + amount_in) as u64;
        let new_out = (reserve_out - out) as u64;
        Ok(
            (
                if is_mint0 {
                    AmmInfo { reserve0: new_in, reserve1: new_out, ..amm }
                } else {
                    AmmInfo { reserve1: new_in, reserve0: new_out, ..amm }
                },
                SwapTransfers { is_mint0, amount_in, amount_out: out },
            ),
        )
    }
}

/// Swaps `amount_in` of mint0 (when `is_mint0`) or of mint1 for the other
/// mint, priced by the constant product with a 0.3% fee, refusing an output
/// below `min_out_amount`.
pub fn swap(amm: &mut AmmInfo, is_mint0: bool, amount_in: u64, min_out_amount: u64) -> (r: Result<SwapTransfers, ErrorCode>)
    ensures
        applied_with(r, *old(amm), *final(amm), swap_result(*old(amm), is_mint0, amount_in, min_out_amount)),
{
    if !(amount_in > 0) {
        return Err(ErrorCode::InvalidAmount);
    }
    let (reserve_in, reserve_out) = if is_mint0 {
        (amm.reserve0, amm.reserve1)
    } else {
        (amm.reserve1, amm.reserve0)
    };
    let amount_in_with_fee = match (amount_in as u128).checked_mul(997) {
        Some(v) => v,
        None => return Err(ErrorCode::MathOverflow),
    };
    let numerator = match amount_in_with_fee.checked_mul(reserve_out as u128) {
        Some(v) => v,
        None => return Err(ErrorCode::MathOverflow),
    };
    let scaled_in = match (reserve_in as u128).checked_mul(1000) {
        Some(v) => v,
        None => return Err(ErrorCode::MathOverflow),
    };
    let denominator = match scaled_in.checked_add(amount_in_with_fee) {
        Some(v) => v,
        None => return Err(ErrorCode::MathOverflow),
    };
    let amount_out = match numerator.checked_div(denominator) {
        Some(v) => v as u64,
        None => return Err(ErrorCode::DivisionByZero),
    };
    if !(amount_out >= min_out_amount) {
        return Err(ErrorCode::SlippageExceeded);
    }
    if !(amount_out > 0) {
        return Err(ErrorCode::InsufficientOutput);
    }
    if !(amount_out < reserve_out) {
        return Err(ErrorCode::InsufficientLiquidity);
    }
    let new_in = match reserve_in.checked_add(amount_in) {
        Some(v) => v,
        None => return Err(ErrorCode::MathOverflow),
    };
    let new_out = reserve_out - amount_out;
    if is_mint0 {
        amm.reserve0 = new_in;
        amm.reserve1 = new_out;
    } else {
        amm.reserve1 = new_in;
        amm.reserve0 = new_out;
    }
    Ok(SwapTransfers { is_mint0, amount_in, amount_out })
}

/// Law: a successful swap never lowers the product of the two reserves.
pub proof fn lemma_swap_keeps_product(amm: AmmInfo, is_mint0: bool, amount_in: u64, min_out_amount: u64)
    ensures
        swap_result(amm, is_mint0, amount_in, min_out_amount) matches Ok((after, _)) ==> after.reserve0
            * after.reserve1 >= amm.reserve0 * amm.reserve1,
{
    let (reserve_in, reserve_out) = if is_mint0 {
        (amm.reserve0, amm.reserve1)
    } else {
        (amm.reserve1, amm.reserve0)
    };
    if amount_in > 0 {
        lemma_fee_swap_keeps_product(amount_in as int, reserve_in as int, reserve_out as int);
        lemma_mul_is_commutative(amm.reserve0 as int, amm.reserve1 as int);
        if let Ok((after, _)) = swap_result(amm, is_mint0, amount_in, min_out_amount) {
            lemma_mul_is_commutative(after.reserve0 as int, after.reserve1 as int);
        }
    }
}

/// The share of `reserve + amount` that `minted` out of `supply + minted`
/// redeems is at most `amount`, when `minted * reserve <= amount * supply`.
proof fn lemma_own_share_at_most_deposit(amount: int, reserve: int, supply: int, minted: int)
    requires
        amount >= 0,
        reserve >= 0,
        supply >= 0,
        minted > 0,
        minted * reserve <= amount * supply,
    ensures
        0 <= mul_div(minted, reserve + amount, supply + minted) <= amount,
{
    assert(minted * (reserve + amount) <= amount * (supply + minted) && minted * (reserve + amount) >= 0)
        by (nonlinear_arith)
        requires
            minted * reserve <= amount * supply,
            minted > 0,
            reserve >= 0,
            amount >= 0,
    ;
    lemma_div_bounds(minted * (reserve + amount), supply + minted);
    let q = mul_div(minted, reserve + amount, supply + minted);
    assert(q <= amount) by (nonlinear_arith)
        requires
            q * (supply + minted) <= minted * (reserve + amount),
            minted * (reserve + amount) <= amount * (supply + minted),
            supply + minted > 0,
    {
        if q > amount {
            assert(q * (supply + minted) >= (amount + 1) * (supply + minted));
        }
    }
}

/// Liquidity minted by a successful deposit into a funded pool, or into a
/// pool that holds nothing yet, is at most the proportional share of each
/// amount: `minted * reserve_i <= amount_i * base`, where the base is the
/// supply (funded pool) or the one locked unit with empty reserves.
proof fn lemma_deposit_minted_within_shares(amm: AmmInfo, amount0: u64, amount1: u64)
    requires
        amm.ever_deposited || (amm.reserve0 == 0 && amm.reserve1 == 0),
        deposit_mint(amm, amount0, amount1) is Ok,
    ensures
        ({
            let l = deposit_mint(amm, amount0, amount1)->Ok_0.0 as int;
            let (r0, r1, base) = if amm.ever_deposited {
                (amm.reserve0 as int, amm.reserve1 as int, amm.supply as int)
            } else {
                (0int, 0int, 1int)
            };
            &&& l > 0
            &&& l * r0 <= amount0 * base
            &&& l * r1 <= amount1 * base
            &&& deposit_mint(amm, amount0, amount1)->Ok_0.1 == base + l
        }),
{
    if amm.ever_deposited {
        let m0 = mul_div(amount0 as int, amm.supply as int, amm.reserve0 as int);
        let m1 = mul_div(amount1 as int, amm.supply as int, amm.reserve1 as int);
        lemma_u64_product(amount0, amm.supply);
        lemma_u64_product(amount1, amm.supply);
        lemma_div_bounds(amount0 * amm.supply, amm.reserve0 as int);
        lemma_div_bounds(amount1 * amm.supply, amm.reserve1 as int);
        assert(m0 <= amount0 * amm.supply && m1 <= amount1 * amm.supply) by (nonlinear_arith)
            requires
                m0 * amm.reserve0 <= amount0 * amm.supply,
                m1 * amm.reserve1 <= amount1 * amm.supply,
                m0 >= 0,
                m1 >= 0,
                amm.reserve0 >= 1,
                amm.reserve1 >= 1,
        ;
        lemma_low_bits_at_most(m0);
        lemma_low_bits_at_most(m1);
        lemma_minted_within_both_shares(
            amount0 as int,
            amount1 as int,
            amm.supply as int,
            amm.reserve0 as int,
            amm.reserve1 as int,
        );
        let l = min_int(m0 as u64 as int, m1 as u64 as int);
        assert(l * amm.reserve0 <= min_int(m0, m1) * amm.reserve0 && l * amm.reserve1 <= min_int(m0, m1)
            * amm.reserve1) by (nonlinear_arith)
            requires
                l <= min_int(m0, m1),
                amm.reserve0 >= 0,
                amm.reserve1 >= 0,
        ;
    } else {
        lemma_first_root_fits(amount0, amount1);
    }
}

/// The floor square root of the product of two 64-bit amounts fits in 64
/// bits.
proof fn lemma_first_root_fits(amount0: u64, amount1: u64)
    ensures
        0 <= floor_sqrt(amount0 * amount1) <= u64::MAX,
{
    assert(amount0 * amount1 >= 0) by (nonlinear_arith);
    lemma_floor_sqrt_exists(amount0 * amount1);
    lemma_u64_product(amount0, amount1);
}

/// Law: depositing and then redeeming exactly what the deposit minted gives
/// back no more of either token than was put in, so a round trip never takes
/// value from the pool's other providers. Stated for a funded pool and for a
/// pool whose reserves are still empty.
pub proof fn lemma_deposit_then_redeem(
    amm: AmmInfo,
    minted: MintedPda,
    amount0: u64,
    amount1: u64,
    account: MintedAccount,
)
    requires
        amm.ever_deposited || (amm.reserve0 == 0 && amm.reserve1 == 0),
    ensures
        deposit_result(amm, minted, amount0, amount1) matches Ok(((after, m), _)) ==> (redeem_result(
            after,
            account,
            (m.minted - minted.minted) as u64,
        ) matches Ok((_, w)) ==> w.amount0 <= amount0 && w.amount1 <= amount1),
{
    if let Ok(((after, m), _)) = deposit_result(amm, minted, amount0, amount1) {
        lemma_deposit_minted_within_shares(amm, amount0, amount1);
        let l = deposit_mint(amm, amount0, amount1)->Ok_0.0 as int;
        assert(m.minted - minted.minted == l);
        let (r0, r1, base) = if amm.ever_deposited {
            (amm.reserve0 as int, amm.reserve1 as int, amm.supply as int)
        } else {
            (0int, 0int, 1int)
        };
        assert(after.reserve0 == r0 + amount0 && after.reserve1 == r1 + amount1 && after.supply == base + l);
        lemma_own_share_at_most_deposit(amount0 as int, r0, base, l);
        lemma_own_share_at_most_deposit(amount1 as int, r1, base, l);
    }
}

/// The minted account records exactly the balance of the minted record:
/// this program owns it, it holds the tag and the amount, and the amount is
/// the record's.
pub open spec fn records(account: MintedAccount, minted: MintedPda) -> bool {
    &&& account.owned_by_program
    &&& account.data@.len() >= 16
    &&& recorded_minted(account.data@) == minted.minted
}

/// Law: what a deposit minted can be redeemed at once from the account that
/// records the depositor's balance: the redemption is refused, if at all,
/// only because a share rounds down to nothing.
pub proof fn lemma_minted_is_redeemable(
    amm: AmmInfo,
    minted: MintedPda,
    amount0: u64,
    amount1: u64,
    account: MintedAccount,
)
    requires
        amm.ever_deposited || (amm.reserve0 == 0 && amm.reserve1 == 0),
    ensures
        deposit_result(amm, minted, amount0, amount1) matches Ok(((after, m), _)) ==> (records(account, m)
            ==> (redeem_result(after, account, (m.minted - minted.minted) as u64) is Ok || redeem_result(
            after,
            account,
            (m.minted - minted.minted) as u64,
        ) == Err::<((AmmInfo, MintedAccount), Withdrawal), ErrorCode>(ErrorCode::InsufficientOutput))),
{
    if let Ok(((after, m), _)) = deposit_result(amm, minted, amount0, amount1) {
        lemma_deposit_minted_within_shares(amm, amount0, amount1);
        let l = deposit_mint(amm, amount0, amount1)->Ok_0.0 as int;
        assert(m.minted - minted.minted == l);
        lemma_share_within_reserve(l, after.reserve0 as int, after.supply as int);
        lemma_share_within_reserve(l, after.reserve1 as int, after.supply as int);
    }
}

/// The pool's supply is the one locked unit plus the depositor's balance
/// `own` and everyone else's, `others`; before any deposit all are zero.
pub open spec fn supply_accounts_for(amm: AmmInfo, own: nat, others: nat) -> bool {
    if amm.ever_deposited {
        amm.supply == MINIMUM_LIQUIDITY + others + own
    } else {
        amm.supply == 0 && own == 0 && others == 0
    }
}

/// Law: the supply is always the locked unit plus every minted balance. A
/// deposit and a redemption move the supply and the caller's balance by the
/// same amount (for a redemption, the balance its account records, which
/// drops by `amount`), and a swap leaves both alone.
pub proof fn lemma_supply_accounts_for_balances(
    amm: AmmInfo,
    minted: MintedPda,
    account: MintedAccount,
    others: nat,
    amount0: u64,
    amount1: u64,
    amount: u64,
    is_mint0: bool,
    amount_in: u64,
    min_out_amount: u64,
)
    ensures
        supply_accounts_for(amm, minted.minted as nat, others) ==> (deposit_result(
            amm,
            minted,
            amount0,
            amount1,
        ) matches Ok(((after, m), _)) ==> supply_accounts_for(after, m.minted as nat, others)),
        supply_accounts_for(amm, recorded_minted(account.data@), others) ==> (redeem_result(
            amm,
            account,
            amount,
        ) matches Ok(((after, _), _)) ==> supply_accounts_for(
            after,
            (recorded_minted(account.data@) - amount) as nat,
            others,
        )),
        swap_result(amm, is_mint0, amount_in, min_out_amount) matches Ok((after, _)) ==> after.supply
            == amm.supply && after.ever_deposited == amm.ever_deposited,
{
    lemma_first_root_fits(amount0, amount1);
}

/// Checks the token accounts given as the pool's, as the accounts of a
/// deposit, redeem or swap are checked before the instruction runs: they
/// must be the two token accounts the pool stores.
pub fn check_pool_accounts(amm: &AmmInfo, pool_account0: &Pubkey, pool_account1: &Pubkey) -> (r: Result<(), ErrorCode>)
    ensures
        same_key(*pool_account0, amm.token_account0) && same_key(*pool_account1, amm.token_account1) ==> r is Ok,
        !(same_key(*pool_account0, amm.token_account0) && same_key(*pool_account1, amm.token_account1)) ==> r
            == Err::<(), ErrorCode>(ErrorCode::ConstraintRaw),
{
    if !pool_account0.key_eq(&amm.token_account0) {
        return Err(ErrorCode::ConstraintRaw);
    }
    if !pool_account1.key_eq(&amm.token_account1) {
        return Err(ErrorCode::ConstraintRaw);
    }
    Ok(())
}

/// Checks the token accounts handed to the pool on creation, as they are
/// checked before the pool is created: each must hold its mint
/// (`token_account_mint0` is the mint of the first, and so on) and belong to
/// the initializer.
pub fn check_initial_accounts(
    mint0: &Pubkey,
    mint1: &Pubkey,
    initializer: &Pubkey,
    token_account_mint0: &Pubkey,
    token_account_owner0: &Pubkey,
    token_account_mint1: &Pubkey,
    token_account_owner1: &Pubkey,
) -> (r: Result<(), ErrorCode>)
    ensures
        ({
            &&& same_key(*token_account_mint0, *mint0)
            &&& same_key(*token_account_owner0, *initializer)
            &&& same_key(*token_account_mint1, *mint1)
            &&& same_key(*token_account_owner1, *initializer)
        }) ==> r is Ok,
        !({
            &&& same_key(*token_account_mint0, *mint0)
            &&& same_key(*token_account_owner0, *initializer)
            &&& same_key(*token_account_mint1, *mint1)
            &&& same_key(*token_account_owner1, *initializer)
        }) ==> r == Err::<(), ErrorCode>(ErrorCode::ConstraintRaw),
{
    if !(token_account_mint0.key_eq(mint0) && token_account_owner0.key_eq(initializer)) {
        return Err(ErrorCode::ConstraintRaw);
    }
    if !(token_account_mint1.key_eq(mint1) && token_account_owner1.key_eq(initializer)) {
        return Err(ErrorCode::ConstraintRaw);
    }
    Ok(())
}

/// Law: a swap pays out at least the caller's minimum `min_out_amount`, and
/// the largest output that the 0.3% fee price allows:
/// `out * (1000 * reserve_in + 997 * in) <= 997 * in * reserve_out`, with one
/// more unit exceeding it. The input reserve grows by the input, the output
/// reserve shrinks by the output, and the supply is unchanged.
pub proof fn lemma_swap_pays_priced_output(amm: AmmInfo, is_mint0: bool, amount_in: u64, min_out_amount: u64)
    ensures
        swap_result(amm, is_mint0, amount_in, min_out_amount) matches Ok((after, t)) ==> {
            let (reserve_in, reserve_out) = if is_mint0 {
                (amm.reserve0 as int, amm.reserve1 as int)
            } else {
                (amm.reserve1 as int, amm.reserve0 as int)
            };
            let (after_in, after_out) = if is_mint0 {
                (after.reserve0 as int, after.reserve1 as int)
            } else {
                (after.reserve1 as int, after.reserve0 as int)
            };
            &&& t.is_mint0 == is_mint0
            &&& t.amount_in == amount_in
            &&& t.amount_out >= min_out_amount
            &&& t.amount_out * (reserve_in * 1000 + amount_in * 997) <= amount_in * 997 * reserve_out
            &&& amount_in * 997 * reserve_out < (t.amount_out + 1) * (reserve_in * 1000 + amount_in * 997)
            &&& after_in == reserve_in + amount_in
            &&& after_out == reserve_out - t.amount_out
            &&& after.supply == amm.supply
        },
{
    let (reserve_in, reserve_out) = if is_mint0 {
        (amm.reserve0, amm.reserve1)
    } else {
        (amm.reserve1, amm.reserve0)
    };
    if let Ok(_) = swap_result(amm, is_mint0, amount_in, min_out_amount) {
        lemma_fee_out_is_floor(amount_in as int, reserve_in as int, reserve_out as int);
    }
}

/// Law: a deposit credits the depositor with exactly what it adds to the
/// supply but for the locked unit, and adds the deposited amounts to the
/// reserves. The first deposit sets the supply to the floor square root of
/// the product of the two amounts (`s * s <= a0 * a1 < (s + 1) * (s + 1)`)
/// and mints one unit less. Into a funded pool it never mints more than
/// either proportional share (`l * reserve_i <= a_i * supply`), and, where
/// both shares fit in 64 bits, one unit more would exceed one of them: it
/// mints the smaller share.
pub proof fn lemma_deposit_mints_fair_share(amm: AmmInfo, minted: MintedPda, amount0: u64, amount1: u64)
    ensures
        deposit_result(amm, minted, amount0, amount1) matches Ok(((after, m), d)) ==> {
            let l = m.minted - minted.minted;
            &&& after.reserve0 == amm.reserve0 + amount0 && after.reserve1 == amm.reserve1 + amount1
            &&& l > 0
            &&& !amm.ever_deposited ==> after.supply == l + MINIMUM_LIQUIDITY && after.supply * after.supply
                <= amount0 * amount1 < (after.supply + 1) * (after.supply + 1)
            &&& amm.ever_deposited ==> after.supply == amm.supply + l
            &&& amm.ever_deposited ==> l * amm.reserve0 <= amount0 * amm.supply && l * amm.reserve1 <= amount1
                * amm.supply
            &&& amm.ever_deposited && amount0 * amm.supply <= u64::MAX * amm.reserve0 && amount1 * amm.supply
                <= u64::MAX * amm.reserve1 ==> (l + 1) * amm.reserve0 > amount0 * amm.supply || (l + 1)
                * amm.reserve1 > amount1 * amm.supply
        },
{
    if let Ok(((after, m), d)) = deposit_result(amm, minted, amount0, amount1) {
        if !amm.ever_deposited {
            lemma_root_of_product(amount0, amount1);
        } else {
            lemma_proportional_shares(amount0 as int, amount1 as int, amm.supply as int, amm.reserve0 as int, amm.reserve1 as int);
            let m0 = mul_div(amount0 as int, amm.supply as int, amm.reserve0 as int);
            let m1 = mul_div(amount1 as int, amm.supply as int, amm.reserve1 as int);
            let l = m.minted - minted.minted;
            lemma_within_share(l, m0, amount0 as int, amm.supply as int, amm.reserve0 as int);
            lemma_within_share(l, m1, amount1 as int, amm.supply as int, amm.reserve1 as int);
        }
    }
}

/// Law: a redemption of `amount` pays, of each token, the floor of
/// `amount / supply` of that token's own reserve
/// (`out_i * supply <= amount * reserve_i < (out_i + 1) * supply`), takes it
/// out of that reserve, and lowers the supply by `amount`.
pub proof fn lemma_redeem_pays_proportional_share(amm: AmmInfo, minted: MintedAccount, amount: u64)
    ensures
        redeem_result(amm, minted, amount) matches Ok(((after, _), w)) ==> {
            &&& w.amount0 * amm.supply <= amount * amm.reserve0 < (w.amount0 + 1) * amm.supply
            &&& w.amount1 * amm.supply <= amount * amm.reserve1 < (w.amount1 + 1) * amm.supply
            &&& after.reserve0 + w.amount0 == amm.reserve0
            &&& after.reserve1 + w.amount1 == amm.reserve1
            &&& after.supply + amount == amm.supply
        },
{
    if let Ok(_) = redeem_result(amm, minted, amount) {
        crate::amm::model::lemma_share_is_floor(amount as int, amm.reserve0 as int, amm.supply as int);
        crate::amm::model::lemma_share_is_floor(amount as int, amm.reserve1 as int, amm.supply as int);
    }
}

} // verus!
