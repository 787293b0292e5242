use vstd::prelude::*;

use crate::address::Address;
use crate::constants::{MAX_TOKEN_PURCHASE, MIN_TOKEN_PURCHASE};
use crate::errors::ErrorCode;
use crate::fees::{fee_split, fee_split_error, split_fees};
use crate::pricing::{price_of, trade_price};
use crate::states::{BondingCurve, ProgramState, TokenInfo, Transaction, TransactionType};

verus! {

/// The records a buy reads and changes, and the buyer.
#[derive(Clone, Debug, PartialEq, Eq)]
pub struct BuyTokenCtx {
    /// Platform configuration (read only).
    pub program_state: ProgramState,
    /// Lifecycle record of the token bought.
    pub token_info: TokenInfo,
    /// Reserve ledger of the token bought.
    pub bonding_curve: BondingCurve,
    /// Identity paying base currency and receiving tokens.
    pub buyer: Address,
}

impl BuyTokenCtx {
    /// Tokens that `sol_amount` lamports fetch: priced on the gross amount.
    pub open spec fn tokens_out(&self, sol_amount: u64) -> nat {
        self.bonding_curve.token_quote(sol_amount)
    }

    /// The first check a buy of `sol_amount` lamports of token `token_id` fails,
    /// in the order they are made; `None` where the buy goes through.
    pub open spec fn buy_error(&self, token_id: u64, sol_amount: u64) -> Option<ErrorCode> {
        let ti = self.token_info;
        let bc = self.bonding_curve;
        let out = self.tokens_out(sol_amount);
        let fees = fee_split(sol_amount, self.program_state.platform_fee_rate);
        if self.program_state.is_paused {
            Some(ErrorCode::TradingNotActive)
        } else if ti.token_id != token_id {
            Some(ErrorCode::TokenNotFound)
        } else if ti.launched_to_dex {
            Some(ErrorCode::TokenAlreadyLaunched)
        } else if !ti.trading_active {
            Some(ErrorCode::TradingNotActive)
        } else if sol_amount < MIN_TOKEN_PURCHASE {
            Some(ErrorCode::PurchaseAmountTooSmall)
        } else if sol_amount > MAX_TOKEN_PURCHASE {
            Some(ErrorCode::PurchaseAmountTooLarge)
        } else if out == 0 {
            Some(ErrorCode::InvalidPurchaseAmount)
        } else if out > bc.real_token_reserves {
            Some(ErrorCode::InsufficientReserves)
        } else if fee_split_error(sol_amount, self.program_state.platform_fee_rate) is Some {
            fee_split_error(sol_amount, self.program_state.platform_fee_rate)
        } else if bc.buy_reserves_error(fees.net, out as u64) is Some {
            bc.buy_reserves_error(fees.net, out as u64)
        } else if bc.total_sol_volume + sol_amount > u64::MAX
            || bc.total_token_volume + out > u64::MAX
            || ti.circulating_supply + out > u64::MAX
            || ti.total_sol_raised + sol_amount > u64::MAX
            || ti.transaction_count + 1 > u64::MAX
            || ti.creator_fees_collected + fees.creator_fee > u64::MAX {
            Some(ErrorCode::ArithmeticOverflow)
        } else {
            None
        }
    }

    /// The records after a successful buy of `sol_amount` lamports at time `now`:
    /// the net amount enters the reserves, the gross amount counts as volume and
    /// as raised, and the tokens bought leave the reserves for circulation.
    pub open spec fn after_buy(&self, sol_amount: u64, now: i64) -> BuyTokenCtx {
        let out = self.tokens_out(sol_amount);
        let fees = fee_split(sol_amount, self.program_state.platform_fee_rate);
        let ti = self.token_info;
        let bc = self.bonding_curve;
        BuyTokenCtx {
            bonding_curve: BondingCurve {
                total_sol_volume: (bc.total_sol_volume + sol_amount) as u64,
                total_token_volume: (bc.total_token_volume + out) as u64,
                last_updated: now,
                ..bc.after_buy(fees.net, out as u64)
            },
            token_info: TokenInfo {
                circulating_supply: (ti.circulating_supply + out) as u64,
                total_sol_raised: (ti.total_sol_raised + sol_amount) as u64,
                transaction_count: (ti.transaction_count + 1) as u64,
                creator_fees_collected: (ti.creator_fees_collected + fees.creator_fee) as u64,
                ..ti
            },
            ..*self
        }
    }

    /// The ledger entry of a successful buy.
    pub open spec fn buy_record(&self, token_id: u64, sol_amount: u64, now: i64) -> Transaction {
        let out = self.tokens_out(sol_amount);
        let fees = fee_split(sol_amount, self.program_state.platform_fee_rate);
        Transaction {
            transaction_id: (self.token_info.transaction_count + 1) as u64,
            token_id,
            user: self.buyer,
            transaction_type: TransactionType::Buy,
            sol_amount,
            token_amount: out as u64,
            price: price_of(sol_amount as nat, self.token_info.decimals as nat, out) as u64,
            platform_fee: fees.platform_fee,
            creator_fee: fees.creator_fee,
            timestamp: now,
        }
    }
}

/// Buys tokens of `token_id` for `sol_amount` lamports at time `now`.
///
/// The tokens bought are quoted on the gross amount; the platform and creator
/// fees come off it, and only the net amount enters the reserves. On success
/// the records are updated and the new ledger entry is returned: the caller
/// settles it by moving `net_sol_amount()` into the curve, each fee to its
/// receiver, and minting `token_amount` to the buyer. On failure nothing
/// changes.
pub fn buy_token(ctx: &mut BuyTokenCtx, token_id: u64, sol_amount: u64, now: i64) -> (r: Result<Transaction, ErrorCode>)
    ensures
        match old(ctx).buy_error(token_id, sol_amount) {
            Some(e) => r == Err::<Transaction, ErrorCode>(e) && *final(ctx) == *old(ctx),
            None => r == Ok::<Transaction, ErrorCode>(old(ctx).buy_record(token_id, sol_amount, now))
                && *final(ctx) == old(ctx).after_buy(sol_amount, now),
        },
{
    if ctx.program_state.is_paused {
        return Err(ErrorCode::TradingNotActive);
    }
    if ctx.token_info.token_id != token_id {
        return Err(ErrorCode::TokenNotFound);
    }
    if ctx.token_info.launched_to_dex {
        return Err(ErrorCode::TokenAlreadyLaunched);
    }
    if !ctx.token_info.trading_active {
        return Err(ErrorCode::TradingNotActive);
    }
    if sol_amount < MIN_TOKEN_PURCHASE {
        return Err(ErrorCode::PurchaseAmountTooSmall);
    }
    if sol_amount > MAX_TOKEN_PURCHASE {
        return Err(ErrorCode::PurchaseAmountTooLarge);
    }
    let token_output = ctx.bonding_curve.calculate_token_output(sol_amount)?;
    if token_output == 0 {
        return Err(ErrorCode::InvalidPurchaseAmount);
    }
    if token_output > ctx.bonding_curve.real_token_reserves {
        return Err(ErrorCode::InsufficientReserves);
    }
    let fees = split_fees(sol_amount, ctx.program_state.platform_fee_rate)?;

    let mut curve = ctx.bonding_curve;
    curve.update_reserves_buy(fees.net, token_output)?;
    curve.total_sol_volume = match curve.total_sol_volume.checked_add(sol_amount) {
        Some(v) => v,
        None => return Err(ErrorCode::ArithmeticOverflow),
    };
    curve.total_token_volume = match curve.total_token_volume.checked_add(token_output) {
        Some(v) => v,
        None => return Err(ErrorCode::ArithmeticOverflow),
    };
    curve.last_updated = now;

    let circulating = match ctx.token_info.circulating_supply.checked_add(token_output) {
        Some(v) => v,
        None => return Err(ErrorCode::ArithmeticOverflow),
    };
    let raised = match ctx.token_info.total_sol_raised.checked_add(sol_amount) {
        Some(v) => v,
        None => return Err(ErrorCode::ArithmeticOverflow),
    };
    let transaction_id = match ctx.token_info.transaction_count.checked_add(1) {
        Some(v) => v,
        None => return Err(ErrorCode::ArithmeticOverflow),
    };
    let creator_fees = match ctx.token_info.creator_fees_collected.checked_add(fees.creator_fee) {
        Some(v) => v,
        None => return Err(ErrorCode::ArithmeticOverflow),
    };

    ctx.bonding_curve = curve;
    ctx.token_info.circulating_supply = circulating;
    ctx.token_info.total_sol_raised = raised;
    ctx.token_info.transaction_count = transaction_id;
    ctx.token_info.creator_fees_collected = creator_fees;

    Ok(Transaction {
        transaction_id,
        token_id,
        user: ctx.buyer,
        transaction_type: TransactionType::Buy,
        sol_amount,
        token_amount: token_output,
        price: trade_price(sol_amount, ctx.token_info.decimals, token_output),
        platform_fee: fees.platform_fee,
        creator_fee: fees.creator_fee,
        timestamp: now,
    })
}

} // verus!
