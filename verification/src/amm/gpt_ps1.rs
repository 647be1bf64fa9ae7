//! Pool that keeps no fee: a swap pays out the drop of the output reserve
//! that keeps the product of the two reserves, the first deposit mints the
//! square root of the product of the two amounts, later deposits the smaller
//! proportional share. The program stores the bump of its own address.
use vstd::prelude::*;
use crate::common::Pubkey;
use crate::math::{lemma_root_of_product, floor_sqrt, is_isqrt, lemma_u64_product, newton_isqrt};
use crate::amm::model::{lemma_proportional_shares, lemma_within_share, lemma_share_is_floor, Deposit, Withdrawal, SwapTransfers, mul_div, min_int, product_out, mul_div_wide,
    lemma_share_within_reserve, lemma_product_swap_bounds, Handover};

verus! {

/// The pool's state.
#[derive(Clone, Copy, Debug, PartialEq, Eq)]
pub struct AmmInfo {
    pub mint0: Pubkey,
    pub mint1: Pubkey,
    pub token_account0: Pubkey,
    pub token_account1: Pubkey,
    pub reserve0: u64,
    pub reserve1: u64,
    pub ever_deposited: bool,
    pub supply: u64,
    pub bump: u8,
}

/// Liquidity minted to one depositor.
#[derive(Clone, Copy, Debug, PartialEq, Eq)]
pub struct MintedPDA {
    pub minted: u64,
    pub bump: u8,
}

#[derive(Clone, Copy, Debug, PartialEq, Eq)]
pub enum ErrorCode {
    InsufficientLPTokens,
    SlippageExceeded,
}

/// Floor square root by Newton's iteration, starting from `n` itself (below
/// the largest 128-bit number, whose first guess would overflow).
pub fn integer_sqrt(n: u128) -> (r: u128)
    requires
        n < u128::MAX,
    ensures
        r == floor_sqrt(n as int),
        is_isqrt(r as int, n as int),
{
    newton_isqrt(n)
}

/// A new, empty pool for two mints, the token accounts that will hold its
/// reserves, and the bump of the pool's address.
/// Both token accounts are handed over to the pool's address `pool`: the
/// returned `Handover` names them and their new owner.
pub fn initialize(
    mint0: Pubkey,
    mint1: Pubkey,
    token_account0: Pubkey,
    token_account1: Pubkey,
    bump: u8,
    pool: Pubkey,
) -> (r: (AmmInfo, Handover))
    ensures
        r.0 == (AmmInfo {
            mint0,
            mint1,
            token_account0,
            token_account1,
            reserve0: 0,
            reserve1: 0,
            ever_deposited: false,
            supply: 0,
            bump,
        }),
        r.1 == (Handover { token_account0, token_account1, new_owner: pool }),
{
    let amm = AmmInfo {
        mint0,
        mint1,
        token_account0,
        token_account1,
        reserve0: 0,
        reserve1: 0,
        ever_deposited: false,
        supply: 0,
        bump,
    };
    (amm, Handover { token_account0, token_account1, new_owner: pool })
}

/// Liquidity minted for a deposit: the square root of the product of the two
/// amounts into an empty pool, else the smaller of the two proportional
/// shares, narrowed to 64 bits as the instruction narrows it (by truncation).
pub open spec fn deposit_minted(amm: AmmInfo, amount0: u64, amount1: u64) -> u64 {
    if !amm.ever_deposited {
        floor_sqrt(amount0 * amount1) as u64
    } else {
        min_int(
            mul_div(amount0 as int, amm.supply as int, amm.reserve0 as int),
            mul_div(amount1 as int, amm.supply as int, amm.reserve1 as int),
        ) as u64
    }
}

/// Takes `amount0` and `amount1` into the pool and credits the depositor
/// with the liquidity they mint. Nothing is refused: not an empty deposit, not
/// one that mints nothing. The instruction aborts on a funded pool with an empty
/// reserve and on sums that do not fit in 64 bits; those inputs are left out.
pub fn deposit(amm: &mut AmmInfo, minted: &mut MintedPDA, amount0: u64, amount1: u64) -> (d: Deposit)
    requires
        old(amm).ever_deposited ==> old(amm).reserve0 > 0 && old(amm).reserve1 > 0,
        old(amm).reserve0 + amount0 <= u64::MAX,
        old(amm).reserve1 + amount1 <= u64::MAX,
        old(amm).supply + deposit_minted(*old(amm), amount0, amount1) <= u64::MAX,
        old(minted).minted + deposit_minted(*old(amm), amount0, amount1) <= u64::MAX,
    ensures
        d == (Deposit { amount0, amount1 }),
        *final(amm) == (AmmInfo {
            ever_deposited: true,
            reserve0: (old(amm).reserve0 + amount0) as u64,
            reserve1: (old(amm).reserve1 + amount1) as u64,
            supply: (old(amm).supply + deposit_minted(*old(amm), amount0, amount1)) as u64,
            ..*old(amm)
        }),
        *final(minted) == (MintedPDA {
            minted: (old(minted).minted + deposit_minted(*old(amm), amount0, amount1)) as u64,
            ..*old(minted)
        }),
{
    let new_minted: u64;
    if !amm.ever_deposited {
        proof {
            lemma_u64_product(amount0, amount1);
        }
        let product = (amount0 as u128) * (amount1 as u128);
        new_minted = integer_sqrt(product) as u64;
        amm.ever_deposited = true;
    } else {
        let minted0 = match mul_div_wide(amount0, amm.supply, amm.reserve0) {
            Some(v) => v,
            None => 0,
        };
        let minted1 = match mul_div_wide(amount1, amm.supply, amm.reserve1) {
            Some(v) => v,
            None => 0,
        };
        let smaller = if minted0 <= minted1 {
            minted0
        } else {
            minted1
        };
        new_minted = smaller as u64;
    }
    amm.reserve0 = amm.reserve0 + amount0;
    amm.reserve1 = amm.reserve1 + amount1;
    amm.supply = amm.supply + new_minted;
    minted.minted = minted.minted + new_minted;
    Deposit { amount0, amount1 }
}

/// Outcome of redeeming `amount` liquidity.
pub open spec fn redeem_result(amm: AmmInfo, minted: MintedPDA, amount: u64) -> Result<
    (AmmInfo, MintedPDA, Withdrawal),
    ErrorCode,
> {
    if minted.minted < amount {
        Err(ErrorCode::InsufficientLPTokens)
    } else {
        let out0 = mul_div(amount as int, amm.reserve0 as int, amm.supply as int);
        let out1 = mul_div(amount as int, amm.reserve1 as int, amm.supply as int);
        Ok(
            (
                AmmInfo {
                    reserve0: (amm.reserve0 - out0) as u64,
                    reserve1: (amm.reserve1 - out1) as u64,
                    supply: (amm.supply - amount) as u64,
                    ..amm
                },
                MintedPDA { minted: (minted.minted - amount) as u64, ..minted },
                Withdrawal { amount0: out0 as u64, amount1: out1 as u64 },
            ),
        )
    }
}

/// Burns `amount` of the redeemer's liquidity for the proportional share of
/// both reserves. The instruction aborts when the redeemer holds enough but the
/// supply is smaller than `amount` (or empty); those inputs are left out.
pub fn redeem(amm: &mut AmmInfo, minted: &mut MintedPDA, amount: u64) -> (r: Result<Withdrawal, ErrorCode>)
    requires
        old(minted).minted >= amount ==> old(amm).supply > 0 && old(amm).supply >= amount,
    ensures
        match redeem_result(*old(amm), *old(minted), amount) {
            Ok((a, m, w)) => r == Ok::<Withdrawal, ErrorCode>(w) && *final(amm) == a && *final(minted) == m,
            Err(e) => r == Err::<Withdrawal, ErrorCode>(e) && *final(amm) == *old(amm) && *final(minted)
                == *old(minted),
        },
{
    if !(minted.minted >= amount) {
        return Err(ErrorCode::InsufficientLPTokens);
    }
    proof {
        lemma_share_within_reserve(amount as int, amm.reserve0 as int, amm.supply as int);
        lemma_share_within_reserve(amount as int, amm.reserve1 as int, amm.supply as int);
    }
    let amount0 = match mul_div_wide(amount, amm.reserve0, amm.supply) {
        Some(v) => v as u64,
        None => 0,
    };
    let amount1 = match mul_div_wide(amount, amm.reserve1, amm.supply) {
        Some(v) => v as u64,
        None => 0,
    };
    amm.reserve0 = amm.reserve0 - amount0;
    amm.reserve1 = amm.reserve1 - amount1;
    amm.supply = amm.supply - amount;
    minted.minted = minted.minted - amount;
    Ok(Withdrawal { amount0, amount1 })
}

/// The input and output reserves of a swap in the given direction.
pub open spec fn swap_reserves(amm: AmmInfo, is_mint0: bool) -> (u64, u64) {
    if is_mint0 {
        (amm.reserve0, amm.reserve1)
    } else {
        (amm.reserve1, amm.reserve0)
    }
}

/// Output of a swap of `amount_in` in the given direction.
pub open spec fn swap_out(amm: AmmInfo, is_mint0: bool, amount_in: u64) -> int {
    product_out(amount_in as int, swap_reserves(amm, is_mint0).0 as int, swap_reserves(amm, is_mint0).1 as int)
}

/// Outcome of swapping `amount_in` of mint0 (when `is_mint0`) or of mint1.
pub open spec fn swap_result(amm: AmmInfo, is_mint0: bool, amount_in: u64, min_out_amount: u64) -> Result<
    (AmmInfo, SwapTransfers),
    ErrorCode,
> {
    let (reserve_in, reserve_out) = swap_reserves(amm, is_mint0);
    let out = swap_out(amm, is_mint0, amount_in);
    if out < min_out_amount {
        Err(ErrorCode::SlippageExceeded)
    } else {
        let new_in = (reserve_in + amount_in) as u64;
        let new_out = (reserve_out - out) as u64;
        Ok(
            (
                if is_mint0 {
                    AmmInfo { reserve0: new_in, reserve1: new_out, ..amm }
                } else {
                    AmmInfo { reserve1: new_in, reserve0: new_out, ..amm }
                },
                SwapTransfers { is_mint0, amount_in, amount_out: out as u64 },
            ),
        )
    }
}

/// Swaps `amount_in` of mint0 (when `is_mint0`) or of mint1 for the drop of
/// the other reserve that keeps the product of the reserves, refusing an
/// output below `min_out_amount`. The instruction aborts on an empty input into an
/// empty input reserve, and on an input reserve that would overflow; those
/// inputs are left out.
pub fn swap(amm: &mut AmmInfo, is_mint0: bool, amount_in: u64, min_out_amount: u64) -> (r: Result<SwapTransfers, ErrorCode>)
    requires
        swap_reserves(*old(amm), is_mint0).0 + amount_in > 0,
        swap_out(*old(amm), is_mint0, amount_in) >= min_out_amount ==> swap_reserves(*old(amm), is_mint0).0
            + amount_in <= u64::MAX,
    ensures
        match swap_result(*old(amm), is_mint0, amount_in, min_out_amount) {
            Ok((a, t)) => r == Ok::<SwapTransfers, ErrorCode>(t) && *final(amm) == a,
            Err(e) => r == Err::<SwapTransfers, ErrorCode>(e) && *final(amm) == *old(amm),
        },
{
    let (reserve_in, reserve_out) = if is_mint0 {
        (amm.reserve0, amm.reserve1)
    } else {
        (amm.reserve1, amm.reserve0)
    };
    proof {
        lemma_u64_product(reserve_in, reserve_out);
        lemma_product_swap_bounds(amount_in as int, reserve_in as int, reserve_out as int);
    }
    let k = (reserve_in as u128) * (reserve_out as u128);
    let new_reserve_in = (reserve_in as u128) + (amount_in as u128);
    let new_reserve_out = k / new_reserve_in;
    let amount_out = ((reserve_out as u128) - new_reserve_out) as u64;
    if !(amount_out >= min_out_amount) {
        return Err(ErrorCode::SlippageExceeded);
    }
    if is_mint0 {
        amm.reserve0 = amm.reserve0 + amount_in;
        amm.reserve1 = amm.reserve1 - amount_out;
    } else {
        amm.reserve1 = amm.reserve1 + amount_in;
        amm.reserve0 = amm.reserve0 - amount_out;
    }
    Ok(SwapTransfers { is_mint0, amount_in, amount_out })
}

/// Law: a swap priced by the drop of the output reserve never raises the
/// product of the two reserves, and lowers it by less than the new input
/// reserve (the rounding of one division).
pub proof fn lemma_swap_product_rounding(amm: AmmInfo, is_mint0: bool, amount_in: u64, min_out_amount: u64)
    requires
        swap_reserves(amm, is_mint0).0 + amount_in > 0,
        swap_out(amm, is_mint0, amount_in) >= min_out_amount ==> swap_reserves(amm, is_mint0).0 + amount_in
            <= u64::MAX,
    ensures
        swap_result(amm, is_mint0, amount_in, min_out_amount) matches Ok((after, t)) ==> {
            let new_in = if is_mint0 {
                after.reserve0
            } else {
                after.reserve1
            };
            &&& after.reserve0 * after.reserve1 <= amm.reserve0 * amm.reserve1
            &&& amm.reserve0 * amm.reserve1 < after.reserve0 * after.reserve1 + new_in
        },
{
    let (reserve_in, reserve_out) = if is_mint0 {
        (amm.reserve0, amm.reserve1)
    } else {
        (amm.reserve1, amm.reserve0)
    };
    if let Ok((after, t)) = swap_result(amm, is_mint0, amount_in, min_out_amount) {
        crate::amm::model::lemma_product_swap_bounds(amount_in as int, reserve_in as int, reserve_out as int);
        vstd::arithmetic::mul::lemma_mul_is_commutative(amm.reserve0 as int, amm.reserve1 as int);
        vstd::arithmetic::mul::lemma_mul_is_commutative(after.reserve0 as int, after.reserve1 as int);
    }
}

/// Law: a deposit into an empty pool mints the floor square root of the
/// product of the two amounts (`l * l <= a0 * a1 < (l + 1) * (l + 1)`); into a
/// funded pool it never mints more than either proportional share
/// (`l * reserve_i <= a_i * supply`), and, where the first share fits in 64
/// bits, one unit more would exceed one of them: it mints the smaller share.
pub proof fn lemma_deposit_mints_fair_share(amm: AmmInfo, amount0: u64, amount1: u64)
    ensures
        ({
            let l = deposit_minted(amm, amount0, amount1);
            &&& !amm.ever_deposited ==> l * l <= amount0 * amount1 < (l + 1) * (l + 1)
            &&& amm.ever_deposited && amm.reserve0 > 0 && amm.reserve1 > 0 ==> l * amm.reserve0 <= amount0
                * amm.supply && l * amm.reserve1 <= amount1 * amm.supply
            &&& amm.ever_deposited && amm.reserve0 > 0 && amm.reserve1 > 0 && amount0 * amm.supply <= u64::MAX
                * amm.reserve0 ==> (l + 1) * amm.reserve0 > amount0 * amm.supply || (l + 1) * amm.reserve1
                > amount1 * amm.supply
        }),
{
    if !amm.ever_deposited {
        lemma_root_of_product(amount0, amount1);
    } else if amm.reserve0 > 0 && amm.reserve1 > 0 {
        lemma_proportional_shares(amount0 as int, amount1 as int, amm.supply as int, amm.reserve0 as int, amm.reserve1 as int);
        let m0 = mul_div(amount0 as int, amm.supply as int, amm.reserve0 as int);
        let m1 = mul_div(amount1 as int, amm.supply as int, amm.reserve1 as int);
        let l = deposit_minted(amm, amount0, amount1);
        lemma_within_share(l as int, m0, amount0 as int, amm.supply as int, amm.reserve0 as int);
        lemma_within_share(l as int, m1, amount1 as int, amm.supply as int, amm.reserve1 as int);
    }
}

/// Law: a redemption of `amount` out of a supply that covers it pays, of
/// each token, the floor of `amount / supply` of that token's own reserve
/// (`out_i * supply <= amount * reserve_i < (out_i + 1) * supply`), takes it
/// out of that reserve, and burns exactly `amount` from the supply and from
/// the redeemer's balance.
pub proof fn lemma_redeem_pays_proportional_share(amm: AmmInfo, minted: MintedPDA, amount: u64)
    requires
        amm.supply > 0,
        amount <= amm.supply,
    ensures
        redeem_result(amm, minted, amount) matches Ok((after, m, w)) ==> {
            &&& w.amount0 * amm.supply <= amount * amm.reserve0 < (w.amount0 + 1) * amm.supply
            &&& w.amount1 * amm.supply <= amount * amm.reserve1 < (w.amount1 + 1) * amm.supply
            &&& after.reserve0 + w.amount0 == amm.reserve0
            &&& after.reserve1 + w.amount1 == amm.reserve1
            &&& after.supply + amount == amm.supply
            &&& m.minted + amount == minted.minted
        },
{
    lemma_share_is_floor(amount as int, amm.reserve0 as int, amm.supply as int);
    lemma_share_is_floor(amount as int, amm.reserve1 as int, amm.supply as int);
}

/// Law: a swap pays out at least the caller's minimum `min_out_amount`, and
/// leaves as the output reserve the floor of the old product over the new
/// input reserve: `new_out * (reserve_in + in) <= reserve_in * reserve_out`,
/// with one unit more exceeding it. The input reserve grows by the input.
pub proof fn lemma_swap_keeps_product_floor(amm: AmmInfo, is_mint0: bool, amount_in: u64, min_out_amount: u64)
    requires
        swap_reserves(amm, is_mint0).0 + amount_in > 0,
        swap_reserves(amm, is_mint0).0 + amount_in <= u64::MAX,
    ensures
        swap_result(amm, is_mint0, amount_in, min_out_amount) matches Ok((after, t)) ==> {
            let (reserve_in, reserve_out) = if is_mint0 {
                (amm.reserve0 as int, amm.reserve1 as int)
            } else {
                (amm.reserve1 as int, amm.reserve0 as int)
            };
            let (after_in, after_out) = if is_mint0 {
                (after.reserve0 as int, after.reserve1 as int)
            } else {
                (after.reserve1 as int, after.reserve0 as int)
            };
            &&& t.is_mint0 == is_mint0 && t.amount_in == amount_in
            &&& t.amount_out >= min_out_amount
            &&& after_in == reserve_in + amount_in
            &&& after_out == reserve_out - t.amount_out
            &&& after_out * (reserve_in + amount_in) <= reserve_in * reserve_out
            &&& reserve_in * reserve_out < (after_out + 1) * (reserve_in + amount_in)
        },
{
    let (reserve_in, reserve_out) = swap_reserves(amm, is_mint0);
    lemma_product_swap_bounds(amount_in as int, reserve_in as int, reserve_out as int);
    let d = reserve_in + amount_in;
    let k = reserve_in * reserve_out;
    let q = reserve_out - product_out(amount_in as int, reserve_in as int, reserve_out as int);
    assert(q * d <= k && k < (q + 1) * d) by (nonlinear_arith)
        requires
            d * q <= k,
            k - d < d * q,
    ;
}

} // verus!
