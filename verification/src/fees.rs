//! The two fees that the ledger keeps back, computed without loss in 256 bits.

use crate::model::{bps_denominator, platform_fee_on, processing_fee_on};
use crate::uint::U256;
use vstd::prelude::*;

verus! {

/// Splitting `amount` into whole ten-thousands and a rest gives the platform
/// fee without ever forming `amount * rate`.
proof fn lemma_platform_fee_split(amount: nat, rate: nat, q: nat, r: nat)
    requires
        q == amount / 10000,
        r == amount % 10000,
        rate < 10000,
    ensures
        platform_fee_on(amount, rate) == q * rate + (r * rate) / 10000,
        q * rate <= amount,
        r * rate <= 99_990_000,
        q * rate + (r * rate) / 10000 <= amount,
{
    assert(amount == q * 10000 + r && 0 <= r < 10000) by (nonlinear_arith)
        requires
            q == amount / 10000,
            r == amount % 10000,
    ;
    assert(amount * rate == (q * rate) * 10000 + r * rate) by (nonlinear_arith)
        requires
            amount == q * 10000 + r,
    ;
    assert(((q * rate) * 10000 + r * rate) / 10000 == q * rate + (r * rate) / 10000)
        by (nonlinear_arith)
        requires
            0 <= r * rate,
    ;
    assert(q * rate <= q * 10000 && 0 <= r * rate <= r * 10000 && r * rate <= 99_990_000)
        by (nonlinear_arith)
        requires
            rate < 10000,
            0 <= r < 10000,
    ;
    assert((r * rate) / 10000 <= r) by (nonlinear_arith)
        requires
            0 <= r * rate <= r * 10000,
    ;
}

/// The platform fee on `amount` at `rate` basis points, rounded down.
pub fn platform_fee(amount: &U256, rate: &U256) -> (fee: U256)
    requires
        rate@ < bps_denominator(),
    ensures
        fee@ == platform_fee_on(amount@, rate@),
        fee@ <= amount@,
{
    let denominator = U256::from_u64(10000);
    let (whole, rest) = amount.div_rem(&denominator);
    proof {
        amount.lemma_bounded();
        lemma_platform_fee_split(amount@, rate@, whole@, rest@);
    }
    let on_whole = whole.times(rate);
    let on_rest = rest.times(rate).div_rem(&denominator).0;
    on_whole.plus(&on_rest)
}

/// The processing fee on a refund of `amount`: one percent, rounded down.
pub fn processing_fee(amount: &U256) -> (fee: U256)
    ensures
        fee@ == processing_fee_on(amount@),
        fee@ <= amount@,
{
    let hundred = U256::from_u64(100);
    amount.div_rem(&hundred).0
}

} // verus!
