//! Constant-product pricing engine.
//!
//! A swap against a reserve pair charges a proportional fee on the input
//! side and, when the output leg is the numeraire asset, burns a share of
//! the output. Every division truncates toward zero, so rounding never
//! favors the trader.
use vstd::prelude::*;
use vstd::arithmetic::div_mod::{
    lemma_div_is_ordered, lemma_div_is_ordered_by_denominator, lemma_div_by_multiple,
    lemma_div_plus_one, lemma_div_pos_is_pos, lemma_remainder_lower,
};
use vstd::arithmetic::mul::lemma_mul_inequality;

verus! {

/// Swap fee charged on the input side, in basis points.
pub const SWAP_FEE_BPS: u64 = 30;

/// Share of numeraire-denominated output that is burned, in basis points.
pub const BURN_BPS: u64 = 100;

/// Largest reserve or trade amount the engine accepts. With both factors
/// capped here, every intermediate product of the pricing formula fits in
/// a `u128`: the cap squared times 10000 is just below `u128::MAX`.
pub const MAX_AMOUNT: u128 = 100_000_000_000_000_000;

/// Input amount after the proportional fee is taken, scaled by 10000.
pub open spec fn input_with_fee(amount: int, fee_bps: int) -> int {
    amount * (10000 - fee_bps)
}

/// Output of the constant-product formula before any burn.
pub open spec fn swap_output_raw(in_reserve: int, out_reserve: int, amount: int, fee_bps: int) -> int {
    (out_reserve * input_with_fee(amount, fee_bps))
        / (in_reserve * 10000 + input_with_fee(amount, fee_bps))
}

/// Share of a raw output that is burned.
pub open spec fn burn_of(raw: int, burn_bps: int) -> int {
    raw * burn_bps / 10000
}

/// Amount burned by a swap: a share of the raw output when the output leg
/// is the numeraire asset, nothing otherwise.
pub open spec fn swap_burn(
    in_reserve: int,
    out_reserve: int,
    amount: int,
    output_is_pnyx: bool,
    fee_bps: int,
    burn_bps: int,
) -> int {
    if output_is_pnyx {
        burn_of(swap_output_raw(in_reserve, out_reserve, amount, fee_bps), burn_bps)
    } else {
        0
    }
}

/// Amount the trader receives: the raw constant-product output, less the
/// burn when the output leg is the numeraire asset.
pub open spec fn swap_output(
    in_reserve: int,
    out_reserve: int,
    amount: int,
    output_is_pnyx: bool,
    fee_bps: int,
    burn_bps: int,
) -> int {
    swap_output_raw(in_reserve, out_reserve, amount, fee_bps)
        - swap_burn(in_reserve, out_reserve, amount, output_is_pnyx, fee_bps, burn_bps)
}

/// The raw output is never negative and never exceeds the output-side
/// reserve: a swap cannot drain more than the pool holds.
pub proof fn lemma_raw_output_bounds(in_reserve: int, out_reserve: int, amount: int, fee_bps: int)
    requires
        1 <= in_reserve,
        0 <= out_reserve,
        0 <= amount,
        0 <= fee_bps <= 10000,
    ensures
        0 <= swap_output_raw(in_reserve, out_reserve, amount, fee_bps) <= out_reserve,
{
    let iwf = input_with_fee(amount, fee_bps);
    let numerator = out_reserve * iwf;
    let denominator = in_reserve * 10000 + iwf;
    assert(0 <= iwf && 10000 + iwf <= denominator) by (nonlinear_arith)
        requires
            1 <= in_reserve,
            0 <= amount,
            0 <= fee_bps <= 10000,
            iwf == amount * (10000 - fee_bps),
            denominator == in_reserve * 10000 + iwf,
    ;
    assert(0 <= numerator) by (nonlinear_arith)
        requires
            0 <= out_reserve,
            0 <= iwf,
            numerator == out_reserve * iwf,
    ;
    lemma_div_pos_is_pos(numerator, denominator);
    if iwf == 0 {
        assert(numerator == out_reserve * 0);
        lemma_div_pos_is_pos(0, denominator);
        lemma_div_is_ordered(numerator, 0, denominator);
    } else {
        lemma_div_is_ordered_by_denominator(numerator, iwf, denominator);
        lemma_div_by_multiple(out_reserve, iwf);
    }
}

/// The burn is never negative and never exceeds the raw output it is
/// taken from, so the paid output is never negative.
pub proof fn lemma_burn_bounds(raw: int, burn_bps: int)
    requires
        0 <= raw,
        0 <= burn_bps <= 10000,
    ensures
        0 <= burn_of(raw, burn_bps) <= raw,
{
    lemma_div_pos_is_pos(raw * burn_bps, 10000);
    lemma_mul_inequality(burn_bps, 10000, raw);
    assert(raw * burn_bps == burn_bps * raw) by (nonlinear_arith);
    assert(raw * 10000 == 10000 * raw) by (nonlinear_arith);
    lemma_div_is_ordered(raw * burn_bps, raw * 10000, 10000);
    lemma_div_by_multiple(raw, 10000);
}

/// Quotients move the same way as their cross products: if `a/b` is at
/// most `c/d` as rationals, the truncated quotients are ordered too.
proof fn lemma_div_cross_monotone(a: int, b: int, c: int, d: int)
    requires
        0 <= a,
        1 <= b,
        0 <= c,
        1 <= d,
        a * d <= c * b,
    ensures
        a / b <= c / d,
{
    let q = a / b;
    lemma_div_pos_is_pos(a, b);
    lemma_remainder_lower(a, b);
    assert(q * d <= c) by (nonlinear_arith)
        requires
            q * b <= a,
            a * d <= c * b,
            0 <= q,
            1 <= b,
            1 <= d,
    ;
    lemma_div_is_ordered(q * d, c, d);
    lemma_div_by_multiple(q, d);
}

/// Taking a 10000-bps share out of a larger base never nets less: the
/// amount kept after the burn grows (weakly) with the raw output.
proof fn lemma_net_after_burn_monotone(r2: int, r1: int, burn_bps: int)
    requires
        0 <= r2 <= r1,
        0 <= burn_bps <= 10000,
    ensures
        r2 - burn_of(r2, burn_bps) <= r1 - burn_of(r1, burn_bps),
    decreases r1 - r2,
{
    if r2 < r1 {
        lemma_net_after_burn_monotone(r2, r1 - 1, burn_bps);
        assert(r1 * burn_bps <= (r1 - 1) * burn_bps + 10000) by (nonlinear_arith)
            requires
                burn_bps <= 10000,
        ;
        lemma_div_is_ordered(r1 * burn_bps, (r1 - 1) * burn_bps + 10000, 10000);
        lemma_div_plus_one((r1 - 1) * burn_bps, 10000);
    }
}

/// The trader always gets strictly less than the ideal constant-product
/// exchange: with any positive fee, `output / amount` stays strictly
/// below the reserve ratio `out_reserve / (in_reserve + amount)`, stated
/// here by cross multiplication.
pub proof fn lemma_output_below_constant_product(
    in_reserve: int,
    out_reserve: int,
    amount: int,
    output_is_pnyx: bool,
    fee_bps: int,
    burn_bps: int,
)
    requires
        1 <= in_reserve,
        1 <= out_reserve,
        1 <= amount,
        1 <= fee_bps <= 10000,
        0 <= burn_bps <= 10000,
    ensures
        swap_output(in_reserve, out_reserve, amount, output_is_pnyx, fee_bps, burn_bps) * (
        in_reserve + amount) < out_reserve * amount,
{
    let f = 10000 - fee_bps;
    let iwf = input_with_fee(amount, fee_bps);
    let nn = out_reserve * iwf;
    let dd = in_reserve * 10000 + iwf;
    let raw = swap_output_raw(in_reserve, out_reserve, amount, fee_bps);
    lemma_raw_output_bounds(in_reserve, out_reserve, amount, fee_bps);
    let b = swap_burn(in_reserve, out_reserve, amount, output_is_pnyx, fee_bps, burn_bps);
    if output_is_pnyx {
        lemma_burn_bounds(raw, burn_bps);
    }
    let out = raw - b;
    if out == 0 {
        assert(out_reserve * amount >= 1 && out * (in_reserve + amount) == 0) by (nonlinear_arith)
            requires
                1 <= out_reserve,
                1 <= amount,
                out == 0,
        ;
    } else {
        assert(0 <= iwf && iwf <= amount * 10000 && dd >= 10000) by (nonlinear_arith)
            requires
                1 <= in_reserve,
                1 <= amount,
                0 <= f < 10000,
                iwf == amount * f,
                dd == in_reserve * 10000 + iwf,
        ;
        if f == 0 {
            assert(iwf == 0 && nn == 0) by (nonlinear_arith)
                requires
                    f == 0,
                    iwf == amount * f,
                    nn == out_reserve * iwf,
            ;
            assert(raw == 0int / dd);
        }
        assert(f >= 1);
        lemma_remainder_lower(nn, dd);
        assert((in_reserve + amount) * f < dd) by (nonlinear_arith)
            requires
                1 <= in_reserve,
                0 <= f < 10000,
                iwf == amount * f,
                dd == in_reserve * 10000 + iwf,
        ;
        assert(out * ((in_reserve + amount) * f) < raw * dd) by (nonlinear_arith)
            requires
                1 <= out <= raw,
                0 <= (in_reserve + amount) * f < dd,
        ;
        assert(out * ((in_reserve + amount) * f) < (out_reserve * amount) * f) by (nonlinear_arith)
            requires
                out * ((in_reserve + amount) * f) < raw * dd,
                raw * dd <= nn,
                nn == out_reserve * iwf,
                iwf == amount * f,
    ;
        assert(out * (in_reserve + amount) < out_reserve * amount) by (nonlinear_arith)
            requires
                out * ((in_reserve + amount) * f) < (out_reserve * amount) * f,
                1 <= f,
        ;
    }
}

/// A higher fee never pays the trader more: the swap output is weakly
/// decreasing in the fee rate. (The truncating divisions make the strict
/// version false: small trades can truncate to the same output, or to
/// zero, under two adjacent fee rates.)
pub proof fn lemma_output_monotone_in_fee(
    in_reserve: int,
    out_reserve: int,
    amount: int,
    output_is_pnyx: bool,
    fee_lo: int,
    fee_hi: int,
    burn_bps: int,
)
    requires
        1 <= in_reserve,
        0 <= out_reserve,
        0 <= amount,
        0 <= fee_lo <= fee_hi <= 10000,
        0 <= burn_bps <= 10000,
    ensures
        swap_output(in_reserve, out_reserve, amount, output_is_pnyx, fee_hi, burn_bps)
            <= swap_output(in_reserve, out_reserve, amount, output_is_pnyx, fee_lo, burn_bps),
{
    let f1 = 10000 - fee_lo;
    let f2 = 10000 - fee_hi;
    let n1 = out_reserve * input_with_fee(amount, fee_lo);
    let n2 = out_reserve * input_with_fee(amount, fee_hi);
    let d1 = in_reserve * 10000 + input_with_fee(amount, fee_lo);
    let d2 = in_reserve * 10000 + input_with_fee(amount, fee_hi);
    let raw1 = swap_output_raw(in_reserve, out_reserve, amount, fee_lo);
    let raw2 = swap_output_raw(in_reserve, out_reserve, amount, fee_hi);
    assert(0 <= n2 && 1 <= d2 && 1 <= d1 && n2 * d1 <= n1 * d2) by (nonlinear_arith)
        requires
            1 <= in_reserve,
            0 <= out_reserve,
            0 <= amount,
            0 <= f2 <= f1 <= 10000,
            n1 == out_reserve * (amount * f1),
            n2 == out_reserve * (amount * f2),
            d1 == in_reserve * 10000 + amount * f1,
            d2 == in_reserve * 10000 + amount * f2,
    ;
    lemma_div_cross_monotone(n2, d2, n1, d1);
    lemma_raw_output_bounds(in_reserve, out_reserve, amount, fee_lo);
    lemma_raw_output_bounds(in_reserve, out_reserve, amount, fee_hi);
    if output_is_pnyx {
        lemma_net_after_burn_monotone(raw2, raw1, burn_bps);
    }
}

/// A higher burn rate never pays the trader more: the swap output is
/// weakly decreasing in the burn rate. (Strictness fails for the same
/// truncation reason as for the fee.) Only the numeraire-output leg
/// burns at all; on the other leg the two outputs are equal.
pub proof fn lemma_output_monotone_in_burn(
    in_reserve: int,
    out_reserve: int,
    amount: int,
    output_is_pnyx: bool,
    fee_bps: int,
    burn_lo: int,
    burn_hi: int,
)
    requires
        1 <= in_reserve,
        0 <= out_reserve,
        0 <= amount,
        0 <= fee_bps <= 10000,
        0 <= burn_lo <= burn_hi <= 10000,
    ensures
        swap_output(in_reserve, out_reserve, amount, output_is_pnyx, fee_bps, burn_hi)
            <= swap_output(in_reserve, out_reserve, amount, output_is_pnyx, fee_bps, burn_lo),
{
    let raw = swap_output_raw(in_reserve, out_reserve, amount, fee_bps);
    lemma_raw_output_bounds(in_reserve, out_reserve, amount, fee_bps);
    if output_is_pnyx {
        lemma_mul_inequality(burn_lo, burn_hi, raw);
        assert(raw * burn_lo == burn_lo * raw && raw * burn_hi == burn_hi * raw) by (nonlinear_arith);
        lemma_div_is_ordered(raw * burn_lo, raw * burn_hi, 10000);
    }
}

/// Constant-product swap output and burn under an arbitrary fee and burn
/// policy. The fee is taken from the input side; when the output leg is
/// the numeraire asset, `burn_bps` of the fee-adjusted output is burned
/// on top. Both divisions truncate toward zero.
pub fn compute_swap_output_with(
    in_reserve: u128,
    out_reserve: u128,
    input_amt: u128,
    output_is_pnyx: bool,
    fee_bps: u64,
    burn_bps: u64,
) -> (r: (u128, u128))
    requires
        1 <= in_reserve <= MAX_AMOUNT,
        out_reserve <= MAX_AMOUNT,
        input_amt <= MAX_AMOUNT,
        fee_bps <= 10000,
        burn_bps <= 10000,
    ensures
        r.0 == swap_output(
            in_reserve as int,
            out_reserve as int,
            input_amt as int,
            output_is_pnyx,
            fee_bps as int,
            burn_bps as int,
        ),
        r.1 == swap_burn(
            in_reserve as int,
            out_reserve as int,
            input_amt as int,
            output_is_pnyx,
            fee_bps as int,
            burn_bps as int,
        ),
{
    let fee = fee_bps as u128;
    assert(input_amt * (10000 - fee) <= MAX_AMOUNT * 10000) by (nonlinear_arith)
        requires
            input_amt <= MAX_AMOUNT,
            fee <= 10000,
    ;
    let input_with_fee = input_amt * (10000 - fee);
    assert(out_reserve * input_with_fee <= MAX_AMOUNT * (MAX_AMOUNT * 10000)) by (nonlinear_arith)
        requires
            out_reserve <= MAX_AMOUNT,
            input_with_fee <= MAX_AMOUNT * 10000,
            0 <= input_with_fee,
    ;
    let numerator = out_reserve * input_with_fee;
    let denominator = in_reserve * 10000 + input_with_fee;
    let output_raw = numerator / denominator;
    proof {
        lemma_raw_output_bounds(
            in_reserve as int,
            out_reserve as int,
            input_amt as int,
            fee_bps as int,
        );
    }
    if output_is_pnyx {
        assert(output_raw * (burn_bps as u128) <= MAX_AMOUNT * 10000) by (nonlinear_arith)
            requires
                output_raw <= MAX_AMOUNT,
                burn_bps <= 10000,
        ;
        let burn = output_raw * (burn_bps as u128) / 10000;
        proof {
            lemma_burn_bounds(output_raw as int, burn_bps as int);
        }
        (output_raw - burn, burn)
    } else {
        (output_raw, 0)
    }
}

/// Swap output and burn under the engine's fixed policy: a 30 bps fee on
/// the input side and a 100 bps burn on numeraire-denominated output.
pub fn compute_swap_output(
    in_reserve: u128,
    out_reserve: u128,
    input_amt: u128,
    output_is_pnyx: bool,
) -> (r: (u128, u128))
    requires
        1 <= in_reserve <= MAX_AMOUNT,
        out_reserve <= MAX_AMOUNT,
        input_amt <= MAX_AMOUNT,
    ensures
        r.0 == swap_output(
            in_reserve as int,
            out_reserve as int,
            input_amt as int,
            output_is_pnyx,
            SWAP_FEE_BPS as int,
            BURN_BPS as int,
        ),
        r.1 == swap_burn(
            in_reserve as int,
            out_reserve as int,
            input_amt as int,
            output_is_pnyx,
            SWAP_FEE_BPS as int,
            BURN_BPS as int,
        ),
{
    compute_swap_output_with(in_reserve, out_reserve, input_amt, output_is_pnyx, SWAP_FEE_BPS, BURN_BPS)
}

} // verus!
