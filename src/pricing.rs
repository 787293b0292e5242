use vstd::prelude::*;
use vstd::arithmetic::div_mod::{lemma_div_is_ordered, lemma_multiply_divide_le};
use vstd::arithmetic::mul::{lemma_mul_inequality, lemma_mul_upper_bound};

use crate::errors::ErrorCode;

verus! {

/// Constant-product output: what `amount_in` of one asset fetches of the other,
/// rounded down, given the virtual reserves of both sides.
pub open spec fn quote(virtual_in: nat, virtual_out: nat, amount_in: nat) -> nat {
    if amount_in == 0 {
        0
    } else {
        virtual_out * amount_in / (virtual_in + amount_in)
    }
}

/// A quote never exceeds the virtual reserves of the side paid out.
pub proof fn lemma_quote_at_most_reserves(virtual_in: nat, virtual_out: nat, amount_in: nat)
    ensures
        quote(virtual_in, virtual_out, amount_in) <= virtual_out,
{
    if amount_in > 0 {
        let d = virtual_in + amount_in;
        lemma_mul_inequality(amount_in as int, d as int, virtual_out as int);
        assert(virtual_out * amount_in <= d * virtual_out) by {
            assert(amount_in * virtual_out == virtual_out * amount_in) by (nonlinear_arith);
        }
        lemma_multiply_divide_le((virtual_out * amount_in) as int, d as int, virtual_out as int);
    }
}

/// Output of a trade of `amount_in` against virtual reserves `virtual_in` (the
/// side paid in) and `virtual_out` (the side paid out), rounded down.
///
/// The product is formed in 128 bits, so no `u64` input can overflow it: the
/// result is the exact rounded-down quote for every input, and never more
/// than `virtual_out`.
pub fn quote_out(virtual_in: u64, virtual_out: u64, amount_in: u64) -> (r: Result<u64, ErrorCode>)
    ensures
        r == Ok::<u64, ErrorCode>(quote(virtual_in as nat, virtual_out as nat, amount_in as nat) as u64),
        quote(virtual_in as nat, virtual_out as nat, amount_in as nat) <= virtual_out,
{
    proof {
        lemma_quote_at_most_reserves(virtual_in as nat, virtual_out as nat, amount_in as nat);
    }
    if amount_in == 0 {
        return Ok(0);
    }
    proof {
        lemma_mul_upper_bound(virtual_out as int, u64::MAX as int, amount_in as int, u64::MAX as int);
        assert(u64::MAX * u64::MAX <= u128::MAX);
    }
    let numerator = match (virtual_out as u128).checked_mul(amount_in as u128) {
        Some(n) => n,
        None => return Err(ErrorCode::ArithmeticOverflow),
    };
    let denominator = match (virtual_in as u128).checked_add(amount_in as u128) {
        Some(d) => d,
        None => return Err(ErrorCode::ArithmeticOverflow),
    };
    if denominator == 0 {
        return Err(ErrorCode::DivisionByZero);
    }
    let output = match numerator.checked_div(denominator) {
        Some(q) => q,
        None => return Err(ErrorCode::DivisionByZero),
    };
    Ok(output as u64)
}

/// `10^n`.
pub open spec fn pow10(n: nat) -> nat
    decreases n,
{
    if n == 0 {
        1
    } else {
        10 * pow10((n - 1) as nat)
    }
}

/// Price recorded for a trade of `token_amount` tokens for `sol_amount`
/// lamports: lamports per whole token, `sol_amount * 10^decimals / token_amount`
/// rounded down; 0 where the scaled amount leaves `u64` or no tokens moved.
pub open spec fn price_of(sol_amount: nat, decimals: nat, token_amount: nat) -> nat {
    let scaled = sol_amount * pow10(decimals);
    if pow10(decimals) > u64::MAX || scaled > u64::MAX || token_amount == 0 {
        0
    } else {
        scaled / token_amount
    }
}

/// `10^decimals`, where it fits in `u64`.
fn ten_pow(decimals: u8) -> (r: Option<u64>)
    ensures
        r == (if pow10(decimals as nat) <= u64::MAX {
            Some(pow10(decimals as nat) as u64)
        } else {
            None::<u64>
        }),
{
    let mut acc: u64 = 1;
    let mut i: u8 = 0;
    while i < decimals
        invariant
            i <= decimals,
            acc as nat == pow10(i as nat),
        decreases decimals - i,
    {
        proof {
            assert(pow10((i + 1) as nat) == 10 * pow10(i as nat));
        }
        match acc.checked_mul(10) {
            Some(next) => acc = next,
            None => {
                proof {
                    lemma_pow10_grows((i + 1) as nat, decimals as nat);
                }
                return None;
            },
        }
        i += 1;
    }
    Some(acc)
}

/// `10^n` never shrinks as `n` grows.
proof fn lemma_pow10_grows(m: nat, n: nat)
    requires
        m <= n,
    ensures
        pow10(m) <= pow10(n),
    decreases n - m,
{
    if m < n {
        lemma_pow10_grows(m, (n - 1) as nat);
    }
}

/// The price recorded for a trade; see [`price_of`]. It never fails.
pub fn trade_price(sol_amount: u64, decimals: u8, token_amount: u64) -> (r: u64)
    ensures
        r == price_of(sol_amount as nat, decimals as nat, token_amount as nat),
{
    let scale = match ten_pow(decimals) {
        Some(s) => s,
        None => return 0,
    };
    match sol_amount.checked_mul(scale) {
        Some(scaled) => match scaled.checked_div(token_amount) {
            Some(p) => p,
            None => 0,
        },
        None => 0,
    }
}

} // verus!
