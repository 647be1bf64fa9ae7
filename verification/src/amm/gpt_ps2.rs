//! Pool that mints its liquidity as tokens of its own mint and keeps only
//! the two reserves and the supply. Its arithmetic is on 64 bits and aborts
//! on every overflow; a swap keeps 0.3% of the input (rounded down) and pays
//! `reserve_out * in' / (reserve_in + in')` for the rest `in'`.
//!
//! The first deposit mints the square root of `amount0 * amount1` as the
//! program computes it in floating point; that root is an argument here.
use vstd::prelude::*;
use crate::amm::model::{lemma_proportional_shares, lemma_within_share, lemma_share_is_floor, lemma_plain_out_is_floor, mul_div, min_int, plain_out, lemma_plain_swap_keeps_product, lemma_share_within_reserve};

verus! {

/// The pool's state.
#[derive(Clone, Copy, Debug, PartialEq, Eq)]
pub struct AMM {
    pub supply: u64,
    pub reserve0: u64,
    pub reserve1: u64,
}

/// A new, empty pool. (The instruction receives the bump of its address and
/// does not use it.)
pub fn initialize(bump: u8) -> (amm: AMM)
    ensures
        amm == (AMM { supply: 0, reserve0: 0, reserve1: 0 }),
{
    AMM { supply: 0, reserve0: 0, reserve1: 0 }
}

/// Liquidity minted for a deposit: `first_liquidity` into a pool with no
/// supply, else the smaller of the two proportional shares.
pub open spec fn deposit_liquidity(amm: AMM, amount0: u64, amount1: u64, first_liquidity: u64) -> int {
    if amm.supply == 0 {
        first_liquidity as int
    } else {
        min_int(
            mul_div(amount0 as int, amm.supply as int, amm.reserve0 as int),
            mul_div(amount1 as int, amm.supply as int, amm.reserve1 as int),
        )
    }
}

/// Takes `amount0` and `amount1` into the pool and returns the liquidity
/// minted to the depositor. `first_liquidity` is what a deposit into a pool
/// with no supply mints: the square root of `amount0 * amount1`, which the
/// program takes in floating point. The instruction aborts on products and sums
/// that do not fit in 64 bits and on an empty reserve of a supplied pool;
/// those inputs are left out.
pub fn deposit(amm: &mut AMM, amount0: u64, amount1: u64, first_liquidity: u64) -> (liquidity: u64)
    requires
        old(amm).supply != 0 ==> amount0 * old(amm).supply <= u64::MAX && amount1 * old(amm).supply
            <= u64::MAX && old(amm).reserve0 > 0 && old(amm).reserve1 > 0,
        old(amm).reserve0 + amount0 <= u64::MAX,
        old(amm).reserve1 + amount1 <= u64::MAX,
        old(amm).supply + deposit_liquidity(*old(amm), amount0, amount1, first_liquidity) <= u64::MAX,
    ensures
        liquidity == deposit_liquidity(*old(amm), amount0, amount1, first_liquidity),
        *final(amm) == (AMM {
            supply: (old(amm).supply + liquidity) as u64,
            reserve0: (old(amm).reserve0 + amount0) as u64,
            reserve1: (old(amm).reserve1 + amount1) as u64,
        }),
        old(amm).supply == 0 ==> liquidity == first_liquidity,
        old(amm).supply != 0 ==> liquidity * old(amm).reserve0 <= amount0 * old(amm).supply && liquidity
            * old(amm).reserve1 <= amount1 * old(amm).supply,
        old(amm).supply != 0 ==> (liquidity + 1) * old(amm).reserve0 > amount0 * old(amm).supply || (liquidity
            + 1) * old(amm).reserve1 > amount1 * old(amm).supply,
{
    if amm.supply != 0 {
        proof {
            lemma_proportional_shares(amount0 as int, amount1 as int, amm.supply as int, amm.reserve0 as int, amm.reserve1 as int);
            let m0 = mul_div(amount0 as int, amm.supply as int, amm.reserve0 as int);
            let m1 = mul_div(amount1 as int, amm.supply as int, amm.reserve1 as int);
            lemma_within_share(min_int(m0, m1), m0, amount0 as int, amm.supply as int, amm.reserve0 as int);
            lemma_within_share(min_int(m0, m1), m1, amount1 as int, amm.supply as int, amm.reserve1 as int);
        }
    }
    let liquidity = if amm.supply == 0 {
        first_liquidity
    } else {
        let share0 = amount0 * amm.supply / amm.reserve0;
        let share1 = amount1 * amm.supply / amm.reserve1;
        if share0 <= share1 {
            share0
        } else {
            share1
        }
    };
    amm.reserve0 = amm.reserve0 + amount0;
    amm.reserve1 = amm.reserve1 + amount1;
    amm.supply = amm.supply + liquidity;
    liquidity
}

/// Burns `amount` liquidity for the proportional share of both reserves and
/// returns the two amounts paid out. The instruction aborts on a product that
/// does not fit in 64 bits and on a supply that is empty or smaller than
/// `amount`; those inputs are left out.
pub fn redeem(amm: &mut AMM, amount: u64) -> (out: (u64, u64))
    requires
        amount * old(amm).reserve0 <= u64::MAX,
        amount * old(amm).reserve1 <= u64::MAX,
        old(amm).supply > 0,
        old(amm).supply >= amount,
    ensures
        out.0 == mul_div(amount as int, old(amm).reserve0 as int, old(amm).supply as int),
        out.1 == mul_div(amount as int, old(amm).reserve1 as int, old(amm).supply as int),
        out.0 * old(amm).supply <= amount * old(amm).reserve0 < (out.0 + 1) * old(amm).supply,
        out.1 * old(amm).supply <= amount * old(amm).reserve1 < (out.1 + 1) * old(amm).supply,
        *final(amm) == (AMM {
            supply: (old(amm).supply - amount) as u64,
            reserve0: (old(amm).reserve0 - out.0) as u64,
            reserve1: (old(amm).reserve1 - out.1) as u64,
        }),
{
    proof {
        lemma_share_is_floor(amount as int, amm.reserve0 as int, amm.supply as int);
        lemma_share_is_floor(amount as int, amm.reserve1 as int, amm.supply as int);
    }
    let amount0 = amount * amm.reserve0 / amm.supply;
    let amount1 = amount * amm.reserve1 / amm.supply;
    amm.reserve0 = amm.reserve0 - amount0;
    amm.reserve1 = amm.reserve1 - amount1;
    amm.supply = amm.supply - amount;
    (amount0, amount1)
}

/// The input and output reserves of a swap in the given direction.
pub open spec fn swap_reserves(amm: AMM, is_mint0: bool) -> (u64, u64) {
    if is_mint0 {
        (amm.reserve0, amm.reserve1)
    } else {
        (amm.reserve1, amm.reserve0)
    }
}

/// The part of `amount_in` that prices a swap: 99.7% of it, rounded down.
pub open spec fn after_fee(amount_in: u64) -> int {
    amount_in * 997 / 1000
}

/// Swaps `amount_in` of mint0 (when `is_mint0`) or of mint1 for the other
/// mint and returns the amount paid out. The instruction aborts on products and
/// sums that do not fit in 64 bits and on an empty input priced against an
/// empty input reserve; those inputs are left out.
pub fn swap(amm: &mut AMM, amount_in: u64, is_mint0: bool) -> (amount_out: u64)
    requires
        amount_in * 997 <= u64::MAX,
        after_fee(amount_in) * swap_reserves(*old(amm), is_mint0).1 <= u64::MAX,
        swap_reserves(*old(amm), is_mint0).0 + after_fee(amount_in) <= u64::MAX,
        swap_reserves(*old(amm), is_mint0).0 + after_fee(amount_in) > 0,
        swap_reserves(*old(amm), is_mint0).0 + amount_in <= u64::MAX,
    ensures
        amount_out == plain_out(
            after_fee(amount_in),
            swap_reserves(*old(amm), is_mint0).0 as int,
            swap_reserves(*old(amm), is_mint0).1 as int,
        ),
        amount_out * (swap_reserves(*old(amm), is_mint0).0 + amount_in * 997 / 1000) <= swap_reserves(
            *old(amm),
            is_mint0,
        ).1 * (amount_in * 997 / 1000),
        swap_reserves(*old(amm), is_mint0).1 * (amount_in * 997 / 1000) < (amount_out + 1) * (swap_reserves(
            *old(amm),
            is_mint0,
        ).0 + amount_in * 997 / 1000),
        is_mint0 ==> *final(amm) == (AMM {
            reserve0: (old(amm).reserve0 + amount_in) as u64,
            reserve1: (old(amm).reserve1 - amount_out) as u64,
            ..*old(amm)
        }),
        !is_mint0 ==> *final(amm) == (AMM {
            reserve1: (old(amm).reserve1 + amount_in) as u64,
            reserve0: (old(amm).reserve0 - amount_out) as u64,
            ..*old(amm)
        }),
{
    let (reserve_in, reserve_out) = if is_mint0 {
        (amm.reserve0, amm.reserve1)
    } else {
        (amm.reserve1, amm.reserve0)
    };
    let amount_in_with_fee = amount_in * 997 / 1000;
    proof {
        lemma_plain_swap_keeps_product(amount_in_with_fee as int, reserve_in as int, reserve_out as int);
        lemma_plain_out_is_floor(amount_in_with_fee as int, reserve_in as int, reserve_out as int);
        assert(amount_in_with_fee * reserve_out == reserve_out * amount_in_with_fee) by (nonlinear_arith);
    }
    let numerator = amount_in_with_fee * reserve_out;
    let denominator = reserve_in + amount_in_with_fee;
    let amount_out = numerator / denominator;
    if is_mint0 {
        amm.reserve0 = amm.reserve0 + amount_in;
        amm.reserve1 = amm.reserve1 - amount_out;
    } else {
        amm.reserve1 = amm.reserve1 + amount_in;
        amm.reserve0 = amm.reserve0 - amount_out;
    }
    amount_out
}

/// Law: a swap never lowers the product of the two reserves: the input
/// reserve grown by the whole input and the output reserve shrunk by the
/// amount paid out (priced on the input less the fee) multiply to at least
/// the product before.
pub proof fn lemma_swap_keeps_product(amm: AMM, amount_in: u64, is_mint0: bool)
    requires
        swap_reserves(amm, is_mint0).0 + after_fee(amount_in) > 0,
    ensures
        ({
            let (reserve_in, reserve_out) = swap_reserves(amm, is_mint0);
            let out = plain_out(after_fee(amount_in), reserve_in as int, reserve_out as int);
            (reserve_in + amount_in) * (reserve_out - out) >= reserve_in * reserve_out
        }),
{
    let (reserve_in, reserve_out) = swap_reserves(amm, is_mint0);
    crate::amm::model::lemma_reduced_input_swap_keeps_product(
        amount_in as int,
        after_fee(amount_in),
        reserve_in as int,
        reserve_out as int,
    );
}

} // verus!
