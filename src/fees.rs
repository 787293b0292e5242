use vstd::prelude::*;
use vstd::arithmetic::div_mod::lemma_fundamental_div_mod;
use vstd::arithmetic::mul::lemma_mul_inequality;

use crate::constants::{BPS_DENOMINATOR, CREATOR_FEE_RATE};
use crate::errors::ErrorCode;

verus! {

/// How the gross base amount of a trade divides between the platform, the
/// creator and the trade itself.
#[derive(Clone, Copy, Debug, PartialEq, Eq)]
pub struct FeeSplit {
    /// Platform share: `gross * fee_rate / 10000`, rounded down.
    pub platform_fee: u64,
    /// Creator share: `gross * 100 / 10000`, rounded down.
    pub creator_fee: u64,
    /// What remains of the gross amount after both fees.
    pub net: u64,
}

/// Platform fee on `gross` at `rate` basis points, rounded down.
pub open spec fn platform_fee_of(gross: nat, rate: nat) -> nat {
    gross * rate / (BPS_DENOMINATOR as nat)
}

/// Creator fee on `gross`, rounded down.
pub open spec fn creator_fee_of(gross: nat) -> nat {
    gross * (CREATOR_FEE_RATE as nat) / (BPS_DENOMINATOR as nat)
}

/// Why splitting `gross` at `rate` fails, if it does: a product leaves `u64`,
/// or the two fees together exceed the gross amount.
pub open spec fn fee_split_error(gross: u64, rate: u64) -> Option<ErrorCode> {
    if gross * rate > u64::MAX {
        Some(ErrorCode::ArithmeticOverflow)
    } else if gross * CREATOR_FEE_RATE > u64::MAX {
        Some(ErrorCode::ArithmeticOverflow)
    } else if platform_fee_of(gross as nat, rate as nat) + creator_fee_of(gross as nat) > gross {
        Some(ErrorCode::ArithmeticUnderflow)
    } else {
        None
    }
}

/// The split of `gross` at `rate`, where it succeeds.
pub open spec fn fee_split(gross: u64, rate: u64) -> FeeSplit {
    let platform_fee = platform_fee_of(gross as nat, rate as nat);
    let creator_fee = creator_fee_of(gross as nat);
    FeeSplit {
        platform_fee: platform_fee as u64,
        creator_fee: creator_fee as u64,
        net: (gross - platform_fee - creator_fee) as u64,
    }
}

/// Splits the gross amount of a trade into platform fee, creator fee and net.
/// Both fees are taken from the same gross amount; where together they would
/// exceed it the split fails with `ArithmeticUnderflow` rather than clamp.
pub fn split_fees(gross: u64, fee_rate: u64) -> (r: Result<FeeSplit, ErrorCode>)
    ensures
        match fee_split_error(gross, fee_rate) {
            Some(e) => r == Err::<FeeSplit, ErrorCode>(e),
            None => r == Ok::<FeeSplit, ErrorCode>(fee_split(gross, fee_rate)),
        },
        r matches Ok(s) ==> s.platform_fee + s.creator_fee + s.net == gross,
{
    let platform_fee = match gross.checked_mul(fee_rate) {
        Some(p) => p / BPS_DENOMINATOR,
        None => return Err(ErrorCode::ArithmeticOverflow),
    };
    let creator_fee = match gross.checked_mul(CREATOR_FEE_RATE) {
        Some(c) => c / BPS_DENOMINATOR,
        None => return Err(ErrorCode::ArithmeticOverflow),
    };
    let after_platform = match gross.checked_sub(platform_fee) {
        Some(n) => n,
        None => return Err(ErrorCode::ArithmeticUnderflow),
    };
    let net = match after_platform.checked_sub(creator_fee) {
        Some(n) => n,
        None => return Err(ErrorCode::ArithmeticUnderflow),
    };
    Ok(FeeSplit { platform_fee, creator_fee, net })
}

/// Fee-rate bound: at any platform rate that leaves room for the creator fee
/// (`rate + 100 <= 10000`), the two fees together never exceed the gross
/// amount, so a split can only fail by overflow, never by exceeding the gross.
pub proof fn lemma_fees_within_gross(gross: u64, rate: u64)
    requires
        rate + CREATOR_FEE_RATE <= BPS_DENOMINATOR,
    ensures
        platform_fee_of(gross as nat, rate as nat) + creator_fee_of(gross as nat) <= gross,
        fee_split_error(gross, rate) != Some(ErrorCode::ArithmeticUnderflow),
{
    let d = BPS_DENOMINATOR as int;
    let a = gross * rate;
    let b = gross * CREATOR_FEE_RATE;
    lemma_fundamental_div_mod(a as int, d);
    lemma_fundamental_div_mod(b as int, d);
    let pf = a / d;
    let cf = b / d;
    assert(pf * d <= a);
    assert(cf * d <= b);
    assert(a + b == gross * (rate + CREATOR_FEE_RATE)) by (nonlinear_arith)
        requires
            a == gross * rate,
            b == gross * CREATOR_FEE_RATE;
    lemma_mul_inequality((rate + CREATOR_FEE_RATE) as int, d, gross as int);
    assert((rate + CREATOR_FEE_RATE) * gross == gross * (rate + CREATOR_FEE_RATE)) by (nonlinear_arith);
    assert(d * gross == gross * d) by (nonlinear_arith);
    assert((pf + cf) * d <= gross * d) by (nonlinear_arith)
        requires
            pf * d <= a,
            cf * d <= b,
            a + b <= gross * d;
}

} // verus!
