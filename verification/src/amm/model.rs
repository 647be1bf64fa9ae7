//! What every pool program shares: the token movements an instruction asks
//! for, the pricing formulas, and the facts about them.
use vstd::prelude::*;
use crate::common::Pubkey;
use crate::address::key_seed;

verus! {

/// Tokens that move from the depositor's two token accounts into the pool's.
#[derive(Clone, Copy, Debug, PartialEq, Eq)]
pub struct Deposit {
    pub amount0: u64,
    pub amount1: u64,
}

/// Tokens that move from the pool's two token accounts to the redeemer.
#[derive(Clone, Copy, Debug, PartialEq, Eq)]
pub struct Withdrawal {
    pub amount0: u64,
    pub amount1: u64,
}

/// A swap: `amount_in` of the input mint (mint0 when `is_mint0`) enters the
/// pool, and `amount_out` of the other mint leaves it.
#[derive(Clone, Copy, Debug, PartialEq, Eq)]
pub struct SwapTransfers {
    pub is_mint0: bool,
    pub amount_in: u64,
    pub amount_out: u64,
}

/// The handover that creates a pool: the token program makes `new_owner`,
/// the pool's own address, the owner of both of the pool's token accounts,
/// on the signature of their current owner.
#[derive(Clone, Copy, Debug, PartialEq, Eq)]
pub struct Handover {
    pub token_account0: Pubkey,
    pub token_account1: Pubkey,
    pub new_owner: Pubkey,
}

/// `a * b / d`, rounded down.
pub open spec fn mul_div(a: int, b: int, d: int) -> int {
    (a * b) / d
}

/// Output of a swap that keeps 0.3% of the input as a fee:
/// `997 * in * reserve_out / (1000 * reserve_in + 997 * in)`, rounded down.
pub open spec fn fee_out(amount_in: int, reserve_in: int, reserve_out: int) -> int {
    (amount_in * 997 * reserve_out) / (reserve_in * 1000 + amount_in * 997)
}

/// Output of a swap without fee: `reserve_out * in / (reserve_in + in)`,
/// rounded down.
pub open spec fn plain_out(amount_in: int, reserve_in: int, reserve_out: int) -> int {
    (reserve_out * amount_in) / (reserve_in + amount_in)
}

/// Output of a swap computed as the drop of the output reserve that keeps
/// `reserve_in * reserve_out`: `reserve_out - reserve_in * reserve_out / (reserve_in + in)`.
pub open spec fn product_out(amount_in: int, reserve_in: int, reserve_out: int) -> int {
    reserve_out - (reserve_in * reserve_out) / (reserve_in + amount_in)
}

/// The smaller of two numbers.
pub open spec fn min_int(a: int, b: int) -> int {
    if a <= b {
        a
    } else {
        b
    }
}

/// `10^d`.
pub open spec fn pow10(d: nat) -> int
    decreases d,
{
    if d == 0 {
        1
    } else {
        10 * pow10((d - 1) as nat)
    }
}

/// Law: a swap priced with the 0.3% fee never pays out more than the output
/// reserve and never lowers the product of the two reserves.
pub proof fn lemma_fee_swap_keeps_product(amount_in: int, reserve_in: int, reserve_out: int)
    requires
        amount_in >= 0,
        reserve_in >= 0,
        reserve_out >= 0,
        reserve_in * 1000 + amount_in * 997 > 0,
    ensures
        0 <= fee_out(amount_in, reserve_in, reserve_out) <= reserve_out,
        (reserve_in + amount_in) * (reserve_out - fee_out(amount_in, reserve_in, reserve_out))
            >= reserve_in * reserve_out,
{
    let a = amount_in * 997;
    let den = reserve_in * 1000 + a;
    let out = fee_out(amount_in, reserve_in, reserve_out);
    assert(a * reserve_out == amount_in * 997 * reserve_out && a * reserve_out >= 0)
        by (nonlinear_arith)
        requires
            a == amount_in * 997,
            amount_in >= 0,
            reserve_out >= 0,
    ;
    crate::math::lemma_div_bounds(a * reserve_out, den);
    assert(0 <= out <= reserve_out) by (nonlinear_arith)
        requires
            out * den <= a * reserve_out,
            out >= 0,
            den >= a,
            a >= 0,
            den > 0,
            reserve_out >= 0,
    {
        if out > reserve_out {
            assert(out * den >= (reserve_out + 1) * den);
            assert((reserve_out + 1) * den > reserve_out * den);
            assert(reserve_out * den >= reserve_out * a);
        }
    }
    assert((reserve_in + amount_in) * (reserve_out - out) >= reserve_in * reserve_out)
        by (nonlinear_arith)
        requires
            out * (reserve_in * 1000 + amount_in * 997) <= amount_in * 997 * reserve_out,
            0 <= out <= reserve_out,
            amount_in >= 0,
            reserve_in >= 0,
    {
        assert(3 * (out * amount_in) <= 3 * (reserve_out * amount_in));
    }
}

/// Law: a swap priced without fee never pays out more than the output
/// reserve and never lowers the product of the two reserves.
pub proof fn lemma_plain_swap_keeps_product(amount_in: int, reserve_in: int, reserve_out: int)
    requires
        amount_in >= 0,
        reserve_in >= 0,
        reserve_out >= 0,
        reserve_in + amount_in > 0,
    ensures
        0 <= plain_out(amount_in, reserve_in, reserve_out) <= reserve_out,
        (reserve_in + amount_in) * (reserve_out - plain_out(amount_in, reserve_in, reserve_out))
            >= reserve_in * reserve_out,
{
    let out = plain_out(amount_in, reserve_in, reserve_out);
    let den = reserve_in + amount_in;
    assert(reserve_out * amount_in >= 0) by (nonlinear_arith)
        requires
            reserve_out >= 0,
            amount_in >= 0,
    ;
    crate::math::lemma_div_bounds(reserve_out * amount_in, den);
    assert(0 <= out <= reserve_out) by (nonlinear_arith)
        requires
            out * den <= reserve_out * amount_in,
            out >= 0,
            den >= amount_in,
            den > 0,
            amount_in >= 0,
            reserve_out >= 0,
    {
        if out > reserve_out {
            assert(out * den >= (reserve_out + 1) * den);
            assert(reserve_out * den >= reserve_out * amount_in);
        }
    }
    assert(den * (reserve_out - out) >= reserve_in * reserve_out) by (nonlinear_arith)
        requires
            out * den <= reserve_out * amount_in,
            den == reserve_in + amount_in,
    ;
}

/// Law: a swap priced without fee on part of the input (`priced`, what is
/// left once the fee is taken) while all of it (`paid`) enters the pool never
/// pays out more than the output reserve and never lowers the product of the
/// two reserves.
pub proof fn lemma_reduced_input_swap_keeps_product(paid: int, priced: int, reserve_in: int, reserve_out: int)
    requires
        0 <= priced <= paid,
        reserve_in >= 0,
        reserve_out >= 0,
        reserve_in + priced > 0,
    ensures
        0 <= plain_out(priced, reserve_in, reserve_out) <= reserve_out,
        (reserve_in + paid) * (reserve_out - plain_out(priced, reserve_in, reserve_out))
            >= reserve_in * reserve_out,
{
    lemma_plain_swap_keeps_product(priced, reserve_in, reserve_out);
    let left = reserve_out - plain_out(priced, reserve_in, reserve_out);
    assert((reserve_in + paid) * left >= (reserve_in + priced) * left) by (nonlinear_arith)
        requires
            left >= 0,
            paid >= priced,
    ;
}

/// Law: a swap priced by the drop of the output reserve pays out at most the
/// output reserve, and the product of the reserves after it falls short of
/// the product before by less than the new input reserve (the rounding of one
/// division), never by more.
pub proof fn lemma_product_swap_bounds(amount_in: int, reserve_in: int, reserve_out: int)
    requires
        amount_in >= 0,
        reserve_in >= 0,
        reserve_out >= 0,
        reserve_in + amount_in > 0,
    ensures
        0 <= product_out(amount_in, reserve_in, reserve_out) <= reserve_out,
        (reserve_in + amount_in) * (reserve_out - product_out(amount_in, reserve_in, reserve_out))
            <= reserve_in * reserve_out,
        reserve_in * reserve_out - (reserve_in + amount_in) < (reserve_in + amount_in) * (
        reserve_out - product_out(amount_in, reserve_in, reserve_out)),
{
    let den = reserve_in + amount_in;
    let k = reserve_in * reserve_out;
    assert(k >= 0) by (nonlinear_arith)
        requires
            k == reserve_in * reserve_out,
            reserve_in >= 0,
            reserve_out >= 0,
    ;
    crate::math::lemma_div_bounds(k, den);
    let q = k / den;
    assert(q <= reserve_out) by (nonlinear_arith)
        requires
            q * den <= k,
            k == reserve_in * reserve_out,
            den >= reserve_in,
            den > 0,
            reserve_out >= 0,
            q >= 0,
    {
        if q > reserve_out {
            assert(q * den >= (reserve_out + 1) * den);
            assert(reserve_out * den >= reserve_out * reserve_in);
        }
    }
    assert(reserve_out - product_out(amount_in, reserve_in, reserve_out) == q);
    assert(den * q <= k && k - den < den * q) by (nonlinear_arith)
        requires
            q * den <= k,
            k < (q + 1) * den,
    ;
}

/// Law: a redemption of `amount` out of `supply` shares never takes more than
/// the reserve.
pub proof fn lemma_share_within_reserve(amount: int, reserve: int, supply: int)
    requires
        0 <= amount <= supply,
        supply > 0,
        reserve >= 0,
    ensures
        0 <= mul_div(amount, reserve, supply) <= reserve,
{
    assert(amount * reserve >= 0) by (nonlinear_arith)
        requires
            amount >= 0,
            reserve >= 0,
    ;
    crate::math::lemma_div_bounds(amount * reserve, supply);
    let q = mul_div(amount, reserve, supply);
    assert(q <= reserve) by (nonlinear_arith)
        requires
            q * supply <= amount * reserve,
            amount <= supply,
            supply > 0,
            reserve >= 0,
            q >= 0,
    {
        if q > reserve {
            assert(q * supply >= (reserve + 1) * supply);
            assert(reserve * supply >= reserve * amount);
        }
    }
}

/// A redemption's share of one reserve is the floor of the proportion:
/// `q * supply <= amount * reserve < (q + 1) * supply`, and at most the
/// reserve.
pub proof fn lemma_share_is_floor(amount: int, reserve: int, supply: int)
    requires
        0 <= amount <= supply,
        supply > 0,
        reserve >= 0,
    ensures
        0 <= mul_div(amount, reserve, supply) <= reserve,
        mul_div(amount, reserve, supply) * supply <= amount * reserve,
        amount * reserve < (mul_div(amount, reserve, supply) + 1) * supply,
{
    lemma_share_within_reserve(amount, reserve, supply);
    assert(amount * reserve >= 0) by (nonlinear_arith)
        requires
            amount >= 0,
            reserve >= 0,
    ;
    crate::math::lemma_div_bounds(amount * reserve, supply);
}

/// The output of a fee-priced swap is the floor of the price:
/// `out * (1000 * reserve_in + 997 * in) <= 997 * in * reserve_out`, and one
/// more unit would exceed it.
pub proof fn lemma_fee_out_is_floor(amount_in: int, reserve_in: int, reserve_out: int)
    requires
        amount_in >= 0,
        reserve_in >= 0,
        reserve_out >= 0,
        reserve_in * 1000 + amount_in * 997 > 0,
    ensures
        0 <= fee_out(amount_in, reserve_in, reserve_out) <= reserve_out,
        fee_out(amount_in, reserve_in, reserve_out) * (reserve_in * 1000 + amount_in * 997) <= amount_in * 997
            * reserve_out,
        amount_in * 997 * reserve_out < (fee_out(amount_in, reserve_in, reserve_out) + 1) * (reserve_in * 1000
            + amount_in * 997),
{
    lemma_fee_swap_keeps_product(amount_in, reserve_in, reserve_out);
    assert(amount_in * 997 * reserve_out >= 0) by (nonlinear_arith)
        requires
            amount_in >= 0,
            reserve_out >= 0,
    ;
    crate::math::lemma_div_bounds(amount_in * 997 * reserve_out, reserve_in * 1000 + amount_in * 997);
}

/// The output of a fee-free swap is the floor of the price:
/// `out * (reserve_in + in) <= reserve_out * in`, and one more unit would
/// exceed it.
pub proof fn lemma_plain_out_is_floor(amount_in: int, reserve_in: int, reserve_out: int)
    requires
        amount_in >= 0,
        reserve_in >= 0,
        reserve_out >= 0,
        reserve_in + amount_in > 0,
    ensures
        0 <= plain_out(amount_in, reserve_in, reserve_out) <= reserve_out,
        plain_out(amount_in, reserve_in, reserve_out) * (reserve_in + amount_in) <= reserve_out * amount_in,
        reserve_out * amount_in < (plain_out(amount_in, reserve_in, reserve_out) + 1) * (reserve_in + amount_in),
{
    assert(reserve_out * amount_in >= 0) by (nonlinear_arith)
        requires
            amount_in >= 0,
            reserve_out >= 0,
    ;
    crate::math::lemma_div_bounds(reserve_out * amount_in, reserve_in + amount_in);
    let q = plain_out(amount_in, reserve_in, reserve_out);
    assert(q <= reserve_out) by (nonlinear_arith)
        requires
            q * (reserve_in + amount_in) <= reserve_out * amount_in,
            reserve_in >= 0,
            amount_in >= 0,
            reserve_out >= 0,
            reserve_in + amount_in > 0,
    {
        if q > reserve_out {
            assert(q * (reserve_in + amount_in) >= (reserve_out + 1) * (reserve_in + amount_in));
            assert(reserve_out * (reserve_in + amount_in) >= reserve_out * amount_in);
        }
    }
}

/// The two proportional shares of a deposit into a funded pool, each the
/// floor of `amount_i * supply / reserve_i`, and what narrowing them to 64
/// bits does: a narrowed share is never larger, and a share fits in 64 bits
/// when `amount_i * supply <= u64::MAX * reserve_i`.
pub proof fn lemma_proportional_shares(a0: int, a1: int, supply: int, r0: int, r1: int)
    requires
        0 <= a0 <= u64::MAX,
        0 <= a1 <= u64::MAX,
        0 <= supply <= u64::MAX,
        r0 >= 1,
        r1 >= 1,
    ensures
        ({
            let m0 = mul_div(a0, supply, r0);
            let m1 = mul_div(a1, supply, r1);
            &&& 0 <= m0 <= u128::MAX && 0 <= m1 <= u128::MAX
            &&& m0 * r0 <= a0 * supply < (m0 + 1) * r0
            &&& m1 * r1 <= a1 * supply < (m1 + 1) * r1
            &&& 0 <= m0 as u64 <= m0 && 0 <= m1 as u64 <= m1
            &&& 0 <= min_int(m0, m1) as u64 <= min_int(m0, m1)
            &&& a0 * supply <= u64::MAX * r0 ==> m0 <= u64::MAX
            &&& a1 * supply <= u64::MAX * r1 ==> m1 <= u64::MAX
        }),
{
    let m0 = mul_div(a0, supply, r0);
    let m1 = mul_div(a1, supply, r1);
    assert(0 <= a0 * supply <= u64::MAX * u64::MAX && 0 <= a1 * supply <= u64::MAX * u64::MAX)
        by (nonlinear_arith)
        requires
            0 <= a0 <= u64::MAX,
            0 <= a1 <= u64::MAX,
            0 <= supply <= u64::MAX,
    ;
    crate::math::lemma_div_bounds(a0 * supply, r0);
    crate::math::lemma_div_bounds(a1 * supply, r1);
    assert(m0 <= a0 * supply && m1 <= a1 * supply) by (nonlinear_arith)
        requires
            m0 * r0 <= a0 * supply,
            m1 * r1 <= a1 * supply,
            m0 >= 0,
            m1 >= 0,
            r0 >= 1,
            r1 >= 1,
    ;
    crate::math::lemma_low_bits_at_most(m0);
    crate::math::lemma_low_bits_at_most(m1);
    crate::math::lemma_low_bits_at_most(min_int(m0, m1));
    if a0 * supply <= u64::MAX * r0 {
        assert(m0 <= u64::MAX) by (nonlinear_arith)
            requires
                m0 * r0 <= a0 * supply,
                a0 * supply <= u64::MAX * r0,
                r0 >= 1,
        {
            if m0 > u64::MAX {
                assert(m0 * r0 > u64::MAX * r0);
            }
        }
    }
    if a1 * supply <= u64::MAX * r1 {
        assert(m1 <= u64::MAX) by (nonlinear_arith)
            requires
                m1 * r1 <= a1 * supply,
                a1 * supply <= u64::MAX * r1,
                r1 >= 1,
        {
            if m1 > u64::MAX {
                assert(m1 * r1 > u64::MAX * r1);
            }
        }
    }
}

/// Liquidity no larger than a share stays within that share's proportion.
pub proof fn lemma_within_share(l: int, share: int, amount: int, supply: int, reserve: int)
    requires
        0 <= l <= share,
        share * reserve <= amount * supply,
        reserve >= 0,
    ensures
        l * reserve <= amount * supply,
{
    assert(l * reserve <= share * reserve) by (nonlinear_arith)
        requires
            l <= share,
            reserve >= 0,
    ;
}

/// Law: the shares minted for a deposit into a funded pool, the smaller of
/// the two proportional shares, never exceed either proportion:
/// `minted * reserve_i <= amount_i * supply` for both tokens.
pub proof fn lemma_minted_within_both_shares(
    amount0: int,
    amount1: int,
    supply: int,
    reserve0: int,
    reserve1: int,
)
    requires
        amount0 >= 0,
        amount1 >= 0,
        supply >= 0,
        reserve0 > 0,
        reserve1 > 0,
    ensures
        min_int(mul_div(amount0, supply, reserve0), mul_div(amount1, supply, reserve1)) * reserve0
            <= amount0 * supply,
        min_int(mul_div(amount0, supply, reserve0), mul_div(amount1, supply, reserve1)) * reserve1
            <= amount1 * supply,
{
    assert(amount0 * supply >= 0 && amount1 * supply >= 0) by (nonlinear_arith)
        requires
            amount0 >= 0,
            amount1 >= 0,
            supply >= 0,
    ;
    crate::math::lemma_div_bounds(amount0 * supply, reserve0);
    crate::math::lemma_div_bounds(amount1 * supply, reserve1);
    let m0 = mul_div(amount0, supply, reserve0);
    let m1 = mul_div(amount1, supply, reserve1);
    let m = min_int(m0, m1);
    assert(m * reserve0 <= m0 * reserve0 && m * reserve1 <= m1 * reserve1) by (nonlinear_arith)
        requires
            m <= m0,
            m <= m1,
            reserve0 > 0,
            reserve1 > 0,
    ;
}

} // verus!

verus! {

/// `a * b / d` computed on 128 bits; `None` when `d` is zero (the product of
/// two 64-bit numbers always fits).
pub fn mul_div_wide(a: u64, b: u64, d: u64) -> (r: Option<u128>)
    ensures
        d == 0 ==> r is None,
        d != 0 ==> r == Some((mul_div(a as int, b as int, d as int)) as u128),
        d != 0 ==> mul_div(a as int, b as int, d as int) <= u128::MAX,
{
    proof {
        crate::math::lemma_u64_product(a, b);
        if d != 0 {
            crate::math::lemma_div_bounds((a as int) * (b as int), d as int);
            assert(mul_div(a as int, b as int, d as int) <= (a as int) * (b as int)) by (nonlinear_arith)
                requires
                    mul_div(a as int, b as int, d as int) * (d as int) <= (a as int) * (b as int),
                    mul_div(a as int, b as int, d as int) >= 0,
                    d >= 1,
            ;
        }
    }
    let p = (a as u128) * (b as u128);
    p.checked_div(d as u128)
}

} // verus!

verus! {

/// Powers of ten grow with the exponent and are at least one.
pub proof fn lemma_pow10_monotone(a: nat, b: nat)
    requires
        a <= b,
    ensures
        1 <= pow10(a) <= pow10(b),
    decreases b,
{
    if a < b {
        lemma_pow10_monotone(a, (b - 1) as nat);
    } else if b > 0 {
        lemma_pow10_monotone(0, (b - 1) as nat);
    }
}

/// The largest powers of ten that fit in 64 and in 128 bits.
pub proof fn lemma_pow10_limits()
    ensures
        pow10(19) <= u64::MAX,
        pow10(20) > u64::MAX,
        pow10(38) <= u128::MAX,
        pow10(39) > u128::MAX,
{
    reveal_with_fuel(pow10, 40);
}

/// `10^d` on 64 bits, for the exponents whose power fits.
pub fn pow10_u64(d: u32) -> (r: u64)
    requires
        d <= 19,
    ensures
        r == pow10(d as nat),
{
    proof {
        lemma_pow10_limits();
        lemma_pow10_monotone(d as nat, 19);
    }
    let mut v: u64 = 1;
    let mut i: u32 = 0;
    while i < d
        invariant
            i <= d <= 19,
            v == pow10(i as nat),
            pow10(19) <= u64::MAX,
        decreases d - i,
    {
        proof {
            lemma_pow10_monotone((i + 1) as nat, 19);
        }
        v = v * 10;
        i = i + 1;
    }
    v
}

/// `10^d` on 128 bits, or `None` when it does not fit.
pub fn checked_pow10_u128(d: u32) -> (r: Option<u128>)
    ensures
        r is Some <==> pow10(d as nat) <= u128::MAX,
        r matches Some(v) ==> v == pow10(d as nat),
{
    let mut v: u128 = 1;
    let mut i: u32 = 0;
    while i < d
        invariant
            i <= d,
            v == pow10(i as nat),
        decreases d - i,
    {
        match v.checked_mul(10) {
            Some(w) => {
                v = w;
            },
            None => {
                proof {
                    lemma_pow10_monotone((i + 1) as nat, d as nat);
                }
                return None;
            },
        }
        i = i + 1;
    }
    Some(v)
}

} // verus!

verus! {

/// Why a 128-bit price computation stopped.
#[derive(Clone, Copy, Debug, PartialEq, Eq)]
pub enum QuoteFailure {
    /// A product did not fit in 128 bits.
    Overflow,
    /// The divisor was zero.
    ZeroDivisor,
}

/// The fee-bearing swap output, computed as the pools compute it on 128
/// bits: `in * 997` (always fits), times `reserve_out` (may overflow), over
/// `reserve_in * 1000 + in * 997` (always fits; zero only for an empty input
/// into an empty pool).
pub fn fee_quote(amount_in: u64, reserve_in: u64, reserve_out: u64) -> (r: Result<u128, QuoteFailure>)
    ensures
        (amount_in as int) * 997 * (reserve_out as int) > u128::MAX ==> r == Err::<u128, QuoteFailure>(
            QuoteFailure::Overflow,
        ),
        (amount_in as int) * 997 * (reserve_out as int) <= u128::MAX && (reserve_in as int) * 1000
            + (amount_in as int) * 997 == 0 ==> r == Err::<u128, QuoteFailure>(QuoteFailure::ZeroDivisor),
        (amount_in as int) * 997 * (reserve_out as int) <= u128::MAX && (reserve_in as int) * 1000
            + (amount_in as int) * 997 != 0 ==> (r matches Ok(v) && v as int == fee_out(
            amount_in as int,
            reserve_in as int,
            reserve_out as int,
        )),
{
    let amount_in_with_fee = (amount_in as u128) * 997;
    let numerator = match amount_in_with_fee.checked_mul(reserve_out as u128) {
        Some(v) => v,
        None => return Err(QuoteFailure::Overflow),
    };
    let denominator = (reserve_in as u128) * 1000 + amount_in_with_fee;
    match numerator.checked_div(denominator) {
        Some(v) => Ok(v),
        None => Err(QuoteFailure::ZeroDivisor),
    }
}

} // verus!

verus! {

/// The seeds of a pool's address: the bytes of `"amm"`, then the keys of the
/// two mints.
pub open spec fn pool_seeds(mint0: Pubkey, mint1: Pubkey) -> Seq<Seq<u8>> {
    seq![seq![97u8, 109u8, 109u8], mint0.bytes@, mint1.bytes@]
}

/// The seeds of the address of the pool of `mint0` and `mint1`.
pub fn pool_seed_list(mint0: &Pubkey, mint1: &Pubkey) -> (seeds: Vec<Vec<u8>>)
    ensures
        seeds.deep_view() == pool_seeds(*mint0, *mint1),
{
    let mut tag: Vec<u8> = Vec::new();
    tag.push(97u8);
    tag.push(109u8);
    tag.push(109u8);
    assert(tag.deep_view() =~= seq![97u8, 109u8, 109u8]);
    let mut seeds: Vec<Vec<u8>> = Vec::new();
    seeds.push(tag);
    seeds.push(key_seed(mint0));
    seeds.push(key_seed(mint1));
    assert(seeds.deep_view() =~= pool_seeds(*mint0, *mint1));
    seeds
}

} // verus!
