use vstd::prelude::*;
use crate::types::MarketError;

verus! {

/// Basis points in a whole: 10000 bps is 100%.
pub const BPS_DENOMINATOR: u64 = 10000;

/// The highest fee rate that can be configured: 10%.
pub const MAX_FEE_BPS: u64 = 1000;

/// The marketplace fee on a price: the price times the rate in basis points,
/// rounded down.
pub open spec fn fee_of(price: int, fee_bps: int) -> int {
    price * fee_bps / BPS_DENOMINATOR as int
}

/// Accepts a fee rate for configuration, or rejects one above the cap.
pub fn validate_fee_rate(fee_bps: u64) -> (r: Result<u64, MarketError>)
    ensures
        fee_bps <= MAX_FEE_BPS ==> r == Ok::<u64, MarketError>(fee_bps),
        fee_bps > MAX_FEE_BPS ==> r == Err::<u64, MarketError>(MarketError::FeeTooHigh),
{
    if fee_bps <= MAX_FEE_BPS {
        Ok(fee_bps)
    } else {
        Err(MarketError::FeeTooHigh)
    }
}

/// The fee on `price` at `fee_bps`, rounded down, computed without an
/// intermediate product that could overflow.
pub fn marketplace_fee(price: u128, fee_bps: u64) -> (fee: u128)
    requires
        fee_bps <= BPS_DENOMINATOR,
    ensures
        fee == fee_of(price as int, fee_bps as int),
        fee <= price,
{
    let q: u128 = price / 10000;
    let r: u128 = price % 10000;
    let b: u128 = fee_bps as u128;
    proof {
        let (p, qi, ri, bi) = (price as int, q as int, r as int, b as int);
        assert(p == 10000 * qi + ri && 0 <= ri < 10000);
        assert(qi * bi <= qi * 10000) by (nonlinear_arith)
            requires 0 <= bi <= 10000, 0 <= qi;
        assert(ri * bi <= ri * 10000) by (nonlinear_arith)
            requires 0 <= bi <= 10000, 0 <= ri;
        assert(p * bi == 10000 * (qi * bi) + ri * bi) by (nonlinear_arith)
            requires p == 10000 * qi + ri;
        assert((10000 * (qi * bi) + ri * bi) / 10000 == qi * bi + (ri * bi) / 10000) by (nonlinear_arith)
            requires 0 <= ri * bi;
        assert((ri * bi) / 10000 <= ri) by (nonlinear_arith)
            requires ri * bi <= ri * 10000, 0 <= ri;
    }
    q * b + r * b / 10000
}

/// Splits a price into the marketplace fee and the seller's net amount.
pub fn split_payment(price: u128, fee_bps: u64) -> (r: (u128, u128))
    requires
        fee_bps <= BPS_DENOMINATOR,
    ensures
        r.0 == fee_of(price as int, fee_bps as int),
        r.0 + r.1 == price,
{
    let fee = marketplace_fee(price, fee_bps);
    (fee, price - fee)
}

} // verus!
