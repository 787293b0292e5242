//! Properties that relate several operations, or hold over every input.
use vstd::prelude::*;
use vstd::arithmetic::div_mod::{lemma_fundamental_div_mod, lemma_multiply_divide_lt};

use crate::address::Address;
use crate::errors::ErrorCode;
use crate::fees::fee_split;
use crate::instructions::{BuyTokenCtx, LaunchToDexCtx, SellTokenCtx};
use crate::pricing::quote;

verus! {

/// The records after buying, in turn, each amount of `amounts` (a buy that
/// fails changes nothing).
pub open spec fn buy_all(ctx: BuyTokenCtx, token_id: u64, amounts: Seq<u64>, now: i64) -> BuyTokenCtx
    decreases amounts.len(),
{
    if amounts.len() == 0 {
        ctx
    } else {
        let amount = amounts.last();
        let before = buy_all(ctx, token_id, amounts.drop_last(), now);
        if before.buy_error(token_id, amount) is Some {
            before
        } else {
            before.after_buy(amount, now)
        }
    }
}

/// Net base currency that the buys of [`buy_all`] put into the curve.
pub open spec fn net_paid_in(ctx: BuyTokenCtx, token_id: u64, amounts: Seq<u64>, now: i64) -> int
    decreases amounts.len(),
{
    if amounts.len() == 0 {
        0
    } else {
        let amount = amounts.last();
        let before = buy_all(ctx, token_id, amounts.drop_last(), now);
        let so_far = net_paid_in(ctx, token_id, amounts.drop_last(), now);
        if before.buy_error(token_id, amount) is Some {
            so_far
        } else {
            so_far + fee_split(amount, before.program_state.platform_fee_rate).net
        }
    }
}

/// Conservation over buys: after any sequence of buys, the tokens that left
/// the real reserves are exactly the tokens that entered circulation, and the
/// real base reserves grew by exactly the net (after-fee) amounts paid in.
pub proof fn lemma_buys_conserve(ctx: BuyTokenCtx, token_id: u64, amounts: Seq<u64>, now: i64)
    ensures
        ({
            let after = buy_all(ctx, token_id, amounts, now);
            &&& after.bonding_curve.real_token_reserves - ctx.bonding_curve.real_token_reserves
                == -(after.token_info.circulating_supply - ctx.token_info.circulating_supply)
            &&& after.bonding_curve.real_sol_reserves - ctx.bonding_curve.real_sol_reserves
                == net_paid_in(ctx, token_id, amounts, now)
        }),
    decreases amounts.len(),
{
    if amounts.len() > 0 {
        lemma_buys_conserve(ctx, token_id, amounts.drop_last(), now);
    }
}

/// The records after selling, in turn, each amount of `amounts` (a sale that
/// fails changes nothing).
pub open spec fn sell_all(ctx: SellTokenCtx, token_id: u64, amounts: Seq<u64>, now: i64) -> SellTokenCtx
    decreases amounts.len(),
{
    if amounts.len() == 0 {
        ctx
    } else {
        let amount = amounts.last();
        let before = sell_all(ctx, token_id, amounts.drop_last(), now);
        if before.sell_error(token_id, amount) is Some {
            before
        } else {
            before.after_sell(amount, now)
        }
    }
}

/// Gross base currency that the sales of [`sell_all`] took out of the curve:
/// what the sellers received plus both fees.
pub open spec fn gross_paid_out(ctx: SellTokenCtx, token_id: u64, amounts: Seq<u64>, now: i64) -> int
    decreases amounts.len(),
{
    if amounts.len() == 0 {
        0
    } else {
        let amount = amounts.last();
        let before = sell_all(ctx, token_id, amounts.drop_last(), now);
        let so_far = gross_paid_out(ctx, token_id, amounts.drop_last(), now);
        if before.sell_error(token_id, amount) is Some {
            so_far
        } else {
            so_far + before.sol_out(amount)
        }
    }
}

/// Conservation over sales: after any sequence of sales, the tokens that left
/// circulation are exactly the tokens that returned to the real reserves, and
/// the real base reserves shrank by exactly the gross amounts paid out.
pub proof fn lemma_sells_conserve(ctx: SellTokenCtx, token_id: u64, amounts: Seq<u64>, now: i64)
    ensures
        ({
            let after = sell_all(ctx, token_id, amounts, now);
            &&& after.bonding_curve.real_token_reserves - ctx.bonding_curve.real_token_reserves
                == -(after.token_info.circulating_supply - ctx.token_info.circulating_supply)
            &&& after.bonding_curve.real_sol_reserves - ctx.bonding_curve.real_sol_reserves
                == -gross_paid_out(ctx, token_id, amounts, now)
        }),
    decreases amounts.len(),
{
    if amounts.len() > 0 {
        lemma_sells_conserve(ctx, token_id, amounts.drop_last(), now);
        let before = sell_all(ctx, token_id, amounts.drop_last(), now);
        let amount = amounts.last();
        if before.sell_error(token_id, amount) is None {
            assert(before.sol_out(amount) <= before.bonding_curve.real_sol_reserves);
        }
    }
}

/// A buy or a sale keeps the token's supply accounted for: real token
/// reserves plus circulating supply stay equal to the total supply, and a
/// well-formed lifecycle record stays well-formed. A launch keeps it
/// well-formed too, and leaves it launched and no longer trading.
pub proof fn lemma_token_records_stay_consistent(
    buy: BuyTokenCtx,
    sell: SellTokenCtx,
    launch: LaunchToDexCtx,
    token_id: u64,
    amount: u64,
    next_tx_id: u64,
    now: i64,
)
    requires
        launch.token_info.wf(),
        buy.bonding_curve.real_token_reserves + buy.token_info.circulating_supply == buy.token_info.total_supply,
        buy.token_info.wf(),
        sell.bonding_curve.real_token_reserves + sell.token_info.circulating_supply == sell.token_info.total_supply,
        sell.token_info.wf(),
    ensures
        buy.buy_error(token_id, amount) is None ==> ({
            let after = buy.after_buy(amount, now);
            &&& after.bonding_curve.real_token_reserves + after.token_info.circulating_supply
                == after.token_info.total_supply
            &&& after.token_info.wf()
        }),
        sell.sell_error(token_id, amount) is None ==> ({
            let after = sell.after_sell(amount, now);
            &&& after.bonding_curve.real_token_reserves + after.token_info.circulating_supply
                == after.token_info.total_supply
            &&& after.token_info.wf()
        }),
        launch.launch_error(token_id, next_tx_id, now) is None ==> ({
            let after = launch.after_launch(next_tx_id, now);
            &&& after.token_info.wf()
            &&& after.token_info.launched_to_dex
            &&& !after.token_info.trading_active
            &&& after.token_info.circulating_supply == launch.token_info.circulating_supply
        }),
{
}

/// For fixed reserves the rounded quote never falls as the amount paid in grows.
pub proof fn lemma_quote_monotone(virtual_in: nat, virtual_out: nat, a1: nat, a2: nat)
    requires
        a1 <= a2,
    ensures
        quote(virtual_in, virtual_out, a1) <= quote(virtual_in, virtual_out, a2),
{
    if a1 > 0 {
        let d1 = virtual_in + a1;
        let d2 = virtual_in + a2;
        let x = virtual_out * a1;
        let y = virtual_out * a2;
        let q = x / d1;
        lemma_fundamental_div_mod(x as int, d1 as int);
        assert(q * d1 <= x);
        assert(x * d2 <= y * d1) by (nonlinear_arith)
            requires
                x == virtual_out * a1,
                y == virtual_out * a2,
                d1 == virtual_in + a1,
                d2 == virtual_in + a2,
                a1 <= a2;
        assert(q * d2 <= y) by (nonlinear_arith)
            requires
                q * d1 <= x,
                x * d2 <= y * d1,
                d1 > 0,
                d2 > 0,
                q >= 0;
        lemma_div_monotone_helper(q as int, d2 as int, y as int);
    }
}

/// `q * d <= y` with `d > 0` gives `q <= y / d`.
proof fn lemma_div_monotone_helper(q: int, d: int, y: int)
    requires
        d > 0,
        q * d <= y,
    ensures
        q <= y / d,
{
    lemma_fundamental_div_mod(y, d);
    let r = y % d;
    assert(0 <= r < d);
    assert(q <= y / d) by (nonlinear_arith)
        requires
            y == d * (y / d) + r,
            0 <= r < d,
            q * d <= y,
            d > 0;
}

/// The rounding of one quote: with positive reserves on the side paid in,
/// `q * (virtual_in + x) <= virtual_out * x < (q + 1) * (virtual_in + x)`.
proof fn lemma_quote_floor(virtual_in: nat, virtual_out: nat, x: nat)
    requires
        virtual_in > 0,
    ensures
        quote(virtual_in, virtual_out, x) * (virtual_in + x) <= virtual_out * x,
        virtual_out * x < (quote(virtual_in, virtual_out, x) + 1) * (virtual_in + x),
{
    let n = (virtual_out * x) as int;
    let d = (virtual_in + x) as int;
    lemma_fundamental_div_mod(n, d);
    let q = n / d;
    assert(quote(virtual_in, virtual_out, x) == q) by {
        if x == 0 {
            assert(n == 0) by (nonlinear_arith)
                requires
                    n == virtual_out * x,
                    x == 0;
            assert(0int / d == 0);
        }
    }
    assert(q * d <= n < (q + 1) * d) by (nonlinear_arith)
        requires
            n == d * q + n % d,
            0 <= n % d < d;
}

/// Gains of the rounded quote over a step never grow, but for the one unit
/// that rounding can add: with positive reserves on the side paid in, for
/// amounts `a1 <= a2` and a step `d`, the gain from `a2` to `a2 + d` is at
/// most the gain from `a1` to `a1 + d`, plus one.
pub proof fn lemma_quote_gains_diminish(virtual_in: nat, virtual_out: nat, a1: nat, a2: nat, d: nat)
    requires
        virtual_in > 0,
        a1 <= a2,
    ensures
        quote(virtual_in, virtual_out, a2 + d) - quote(virtual_in, virtual_out, a2) <= quote(
            virtual_in,
            virtual_out,
            a1 + d,
        ) - quote(virtual_in, virtual_out, a1) + 1,
{
    let vi = virtual_in as int;
    let vo = virtual_out as int;
    let x1 = a1 as int;
    let y1 = (a1 + d) as int;
    let x2 = a2 as int;
    let y2 = (a2 + d) as int;
    lemma_quote_floor(virtual_in, virtual_out, a1);
    lemma_quote_floor(virtual_in, virtual_out, (a1 + d) as nat);
    lemma_quote_floor(virtual_in, virtual_out, a2);
    lemma_quote_floor(virtual_in, virtual_out, (a2 + d) as nat);
    let qx1 = quote(virtual_in, virtual_out, a1) as int;
    let qy1 = quote(virtual_in, virtual_out, (a1 + d) as nat) as int;
    let qx2 = quote(virtual_in, virtual_out, a2) as int;
    let qy2 = quote(virtual_in, virtual_out, (a2 + d) as nat) as int;
    let k = vo * vi * (d as int);
    // Exact gain over a step, with both denominators multiplied out.
    assert(vo * y1 * (vi + x1) - vo * x1 * (vi + y1) == k) by (nonlinear_arith)
        requires
            k == vo * vi * (d as int),
            y1 == x1 + d;
    assert(vo * y2 * (vi + x2) - vo * x2 * (vi + y2) == k) by (nonlinear_arith)
        requires
            k == vo * vi * (d as int),
            y2 == x2 + d;
    let p1 = (vi + x1) * (vi + y1);
    let p2 = (vi + x2) * (vi + y2);
    // Rounding bounds each rounded gain against the exact one.
    assert((qy2 - qx2 - 1) * p2 < k) by (nonlinear_arith)
        requires
            qy2 * (vi + y2) <= vo * y2,
            vo * x2 < (qx2 + 1) * (vi + x2),
            vo * y2 * (vi + x2) - vo * x2 * (vi + y2) == k,
            p2 == (vi + x2) * (vi + y2),
            vi > 0,
            x2 >= 0,
            y2 >= 0;
    assert((qy1 - qx1 + 1) * p1 > k) by (nonlinear_arith)
        requires
            vo * y1 < (qy1 + 1) * (vi + y1),
            qx1 * (vi + x1) <= vo * x1,
            vo * y1 * (vi + x1) - vo * x1 * (vi + y1) == k,
            p1 == (vi + x1) * (vi + y1),
            vi > 0,
            x1 >= 0,
            y1 >= 0;
    assert(0 < p1 <= p2) by (nonlinear_arith)
        requires
            p1 == (vi + x1) * (vi + y1),
            p2 == (vi + x2) * (vi + y2),
            vi > 0,
            0 <= x1 <= x2,
            y1 == x1 + d,
            y2 == x2 + d,
            d >= 0;
    assert(k >= 0) by (nonlinear_arith)
        requires
            k == vo * vi * (d as int),
            vo >= 0,
            vi >= 0,
            d >= 0;
    assert(qy2 - qx2 <= qy1 - qx1 + 1) by (nonlinear_arith)
        requires
            (qy2 - qx2 - 1) * p2 < k,
            (qy1 - qx1 + 1) * p1 > k,
            0 < p1 <= p2,
            k >= 0;
}

/// Price impact before rounding: with positive reserves the exact output
/// `out(a) = virtual_out * a / (virtual_in + a)` grows strictly with the amount
/// paid in, and at a strictly falling rate. For amounts `a1 < a2 < a3`,
/// `out(a1) < out(a2)`, and the average output per unit between `a1` and `a2`
/// exceeds that between `a2` and `a3`; both are stated with the positive
/// denominators `virtual_in + a` multiplied out.
pub proof fn lemma_exact_quote_concave(virtual_in: nat, virtual_out: nat, a1: nat, a2: nat, a3: nat)
    requires
        virtual_in > 0,
        virtual_out > 0,
        a1 < a2 < a3,
    ensures
        virtual_out * a1 * (virtual_in + a2) < virtual_out * a2 * (virtual_in + a1),
        (virtual_out * a2 * (virtual_in + a1) - virtual_out * a1 * (virtual_in + a2)) * (virtual_in + a3) * (a3 - a2)
            > (virtual_out * a3 * (virtual_in + a2) - virtual_out * a2 * (virtual_in + a3)) * (virtual_in + a1) * (a2
            - a1),
{
    let k = virtual_out * virtual_in;
    assert(k > 0) by (nonlinear_arith)
        requires
            virtual_in > 0,
            virtual_out > 0,
            k == virtual_out * virtual_in;
    assert(virtual_out * a2 * (virtual_in + a1) - virtual_out * a1 * (virtual_in + a2) == k * (a2 - a1))
        by (nonlinear_arith)
        requires
            k == virtual_out * virtual_in;
    assert(virtual_out * a3 * (virtual_in + a2) - virtual_out * a2 * (virtual_in + a3) == k * (a3 - a2))
        by (nonlinear_arith)
        requires
            k == virtual_out * virtual_in;
    assert(k * (a2 - a1) > 0) by (nonlinear_arith)
        requires
            k > 0,
            a1 < a2;
    let g = k * (a2 - a1) * (a3 - a2);
    assert(g > 0) by (nonlinear_arith)
        requires
            k > 0,
            a1 < a2 < a3,
            g == k * (a2 - a1) * (a3 - a2);
    assert(k * (a2 - a1) * (virtual_in + a3) * (a3 - a2) == g * (virtual_in + a3)) by (nonlinear_arith)
        requires
            g == k * (a2 - a1) * (a3 - a2);
    assert(k * (a3 - a2) * (virtual_in + a1) * (a2 - a1) == g * (virtual_in + a1)) by (nonlinear_arith)
        requires
            g == k * (a2 - a1) * (a3 - a2);
    assert(g * (virtual_in + a3) > g * (virtual_in + a1)) by (nonlinear_arith)
        requires
            g > 0,
            a1 < a3;
}

/// Round trip: buying with `sol_amount` and at once selling every token bought
/// fetches strictly less than `sol_amount` from the curve, before the sale's
/// own fees: the buy's fees stay behind and the curve rounds down.
pub proof fn lemma_round_trip_loses(ctx: BuyTokenCtx, token_id: u64, sol_amount: u64, now: i64, seller: Address)
    requires
        ctx.buy_error(token_id, sol_amount) is None,
    ensures
        ({
            let bought = ctx.after_buy(sol_amount, now);
            let tokens = ctx.buy_record(token_id, sol_amount, now).token_amount;
            let back = SellTokenCtx {
                program_state: bought.program_state,
                token_info: bought.token_info,
                bonding_curve: bought.bonding_curve,
                seller,
            };
            back.sol_out(tokens) < sol_amount
        }),
{
    let vs = ctx.bonding_curve.virtual_sol_reserves as int;
    let vt = ctx.bonding_curve.virtual_token_reserves as int;
    let x = sol_amount as int;
    let out = ctx.tokens_out(sol_amount) as int;
    let fees = fee_split(sol_amount, ctx.program_state.platform_fee_rate);
    let net = fees.net as int;
    assert(fees.creator_fee > 0);
    assert(net < x);
    assert(0 < out <= vt);
    // The buy's quote: out * (vs + x) <= vt * x.
    lemma_fundamental_div_mod(vt * x, vs + x);
    assert(out == (vt * x) / (vs + x));
    assert(out * (vs + x) <= vt * x) by (nonlinear_arith)
        requires
            vt * x == (vs + x) * ((vt * x) / (vs + x)) + (vt * x) % (vs + x),
            0 <= (vt * x) % (vs + x),
            out == (vt * x) / (vs + x);
    // The sale faces virtual reserves vs + net and vt - out.
    assert((vs + net) * out < x * vt) by (nonlinear_arith)
        requires
            out * (vs + x) <= vt * x,
            net < x,
            out > 0,
            vs >= 0;
    assert(x * vt == vt * x) by (nonlinear_arith);
    lemma_multiply_divide_lt((vs + net) * out, vt, x);
    assert((vs + net) * out == out * (vs + net)) by (nonlinear_arith);
}

/// A launch gate that holds once and for all: on a token already launched,
/// `launch_to_dex` fails whatever it is given (changing nothing, by its
/// contract), and with the platform running and the right token id it fails
/// with `TokenAlreadyLaunched`.
pub proof fn lemma_launched_stays_launched(ctx: LaunchToDexCtx, token_id: u64, next_tx_id: u64, now: i64)
    requires
        ctx.token_info.launched_to_dex,
    ensures
        ctx.launch_error(token_id, next_tx_id, now) is Some,
        !ctx.program_state.is_paused && ctx.token_info.token_id == token_id ==> ctx.launch_error(
            token_id,
            next_tx_id,
            now,
        ) == Some(ErrorCode::TokenAlreadyLaunched),
{
}

/// After a successful launch, every further launch of the same token fails
/// with `TokenAlreadyLaunched`, whatever ledger id and time it is given.
pub proof fn lemma_second_launch_fails(
    ctx: LaunchToDexCtx,
    token_id: u64,
    first_tx_id: u64,
    first_now: i64,
    next_tx_id: u64,
    now: i64,
)
    requires
        ctx.launch_error(token_id, first_tx_id, first_now) is None,
    ensures
        ctx.after_launch(first_tx_id, first_now).launch_error(token_id, next_tx_id, now) == Some(
            ErrorCode::TokenAlreadyLaunched,
        ),
{
}

} // verus!
