//! The fee of a trade: a rate in millionths, applied to the traded amount
//! and rounded down.
use vstd::arithmetic::div_mod::lemma_hoist_over_denominator;
use vstd::prelude::*;

verus! {

/// A rate of `RATE_SCALE` is a rate of one.
pub const RATE_SCALE: u128 = 1_000_000;

/// The fee on `amount` at `rate` millionths: their product over a million,
/// rounded down.
pub open spec fn trade_cost(rate: u32, amount: u128) -> nat {
    (rate as nat * amount as nat) / (RATE_SCALE as nat)
}

/// What a trade of `amount` sets aside: the amount and the fee on it.
pub open spec fn escrow(rate: u32, amount: u128) -> nat {
    amount as nat + trade_cost(rate, amount)
}

/// The fee on `amount` at `rate` millionths, or nothing where the fee is
/// more than any balance can hold.
pub fn compute_trade_cost(rate: u32, amount: u128) -> (r: Option<u128>)
    ensures
        match r {
            Some(cost) => cost == trade_cost(rate, amount),
            None => trade_cost(rate, amount) > u128::MAX,
        },
{
    let whole: u128 = amount / RATE_SCALE;
    let rest: u128 = amount % RATE_SCALE;
    let rate_wide: u128 = rate as u128;
    assert(rest * rate_wide <= 1_000_000 * 0xffff_ffff) by (nonlinear_arith)
        requires
            rest < 1_000_000,
            rate_wide <= 0xffff_ffff,
    ;
    let low: u128 = (rest * rate_wide) / RATE_SCALE;
    proof {
        let s = RATE_SCALE as int;
        let q = whole as int;
        let m = rest as int;
        let a = rate as int;
        assert(amount as int == q * s + m);
        assert(a * (q * s + m) == m * a + (a * q) * s) by (nonlinear_arith);
        lemma_hoist_over_denominator(m * a, a * q, s as nat);
        assert(trade_cost(rate, amount) == (m * a) / s + a * q);
        assert(a * q >= 0) by (nonlinear_arith)
            requires
                a >= 0,
                q >= 0,
        ;
        assert(whole * rate_wide == a * q);
    }
    let high: u128 = match whole.checked_mul(rate_wide) {
        Some(h) => h,
        None => {
            return None;
        },
    };
    high.checked_add(low)
}

/// What a trade of `amount` sets aside at `rate` millionths, or nothing
/// where that is more than any balance can hold.
pub fn compute_escrow(rate: u32, amount: u128) -> (r: Option<(u128, u128)>)
    ensures
        match r {
            Some((cost, total)) => cost == trade_cost(rate, amount) && total == escrow(rate, amount),
            None => escrow(rate, amount) > u128::MAX,
        },
{
    match compute_trade_cost(rate, amount) {
        Some(cost) => match amount.checked_add(cost) {
            Some(total) => Some((cost, total)),
            None => None,
        },
        None => None,
    }
}

} // verus!
