use vstd::prelude::*;

use crate::address::Address;
use crate::errors::ErrorCode;
use crate::fees::{fee_split, fee_split_error, split_fees};
use crate::pricing::{price_of, trade_price};
use crate::states::{BondingCurve, ProgramState, TokenInfo, Transaction, TransactionType};

verus! {

/// The records a sale reads and changes, and the seller.
#[derive(Clone, Debug, PartialEq, Eq)]
pub struct SellTokenCtx {
    /// Platform configuration (read only).
    pub program_state: ProgramState,
    /// Lifecycle record of the token sold.
    pub token_info: TokenInfo,
    /// Reserve ledger of the token sold.
    pub bonding_curve: BondingCurve,
    /// Identity giving up tokens and receiving base currency.
    pub seller: Address,
}

impl SellTokenCtx {
    /// Lamports that `token_amount` tokens fetch, before fees.
    pub open spec fn sol_out(&self, token_amount: u64) -> nat {
        self.bonding_curve.sol_quote(token_amount)
    }

    /// The first check a sale of `token_amount` tokens of token `token_id` fails,
    /// in the order they are made; `None` where the sale goes through.
    pub open spec fn sell_error(&self, token_id: u64, token_amount: u64) -> Option<ErrorCode> {
        let ti = self.token_info;
        let bc = self.bonding_curve;
        let out = self.sol_out(token_amount);
        let fees = fee_split(out as u64, self.program_state.platform_fee_rate);
        if self.program_state.is_paused {
            Some(ErrorCode::TradingNotActive)
        } else if ti.token_id != token_id {
            Some(ErrorCode::TokenNotFound)
        } else if ti.launched_to_dex {
            Some(ErrorCode::TokenAlreadyLaunched)
        } else if !ti.trading_active {
            Some(ErrorCode::TradingNotActive)
        } else if token_amount == 0 {
            Some(ErrorCode::InvalidPurchaseAmount)
        } else if out == 0 {
            Some(ErrorCode::InvalidPurchaseAmount)
        } else if out > bc.real_sol_reserves {
            Some(ErrorCode::InsufficientReserves)
        } else if fee_split_error(out as u64, self.program_state.platform_fee_rate) is Some {
            fee_split_error(out as u64, self.program_state.platform_fee_rate)
        } else if bc.sell_reserves_error(token_amount, out as u64) is Some {
            bc.sell_reserves_error(token_amount, out as u64)
        } else if bc.total_sol_volume + out > u64::MAX || bc.total_token_volume + token_amount > u64::MAX {
            Some(ErrorCode::ArithmeticOverflow)
        } else if ti.circulating_supply < token_amount {
            Some(ErrorCode::ArithmeticUnderflow)
        } else if ti.transaction_count + 1 > u64::MAX
            || ti.creator_fees_collected + fees.creator_fee > u64::MAX {
            Some(ErrorCode::ArithmeticOverflow)
        } else {
            None
        }
    }

    /// The records after a successful sale of `token_amount` tokens at time
    /// `now`: the tokens return to the reserves, the whole quoted amount leaves
    /// them (net to the seller, the rest as fees).
    pub open spec fn after_sell(&self, token_amount: u64, now: i64) -> SellTokenCtx {
        let out = self.sol_out(token_amount);
        let fees = fee_split(out as u64, self.program_state.platform_fee_rate);
        let ti = self.token_info;
        let bc = self.bonding_curve;
        SellTokenCtx {
            bonding_curve: BondingCurve {
                total_sol_volume: (bc.total_sol_volume + out) as u64,
                total_token_volume: (bc.total_token_volume + token_amount) as u64,
                last_updated: now,
                ..bc.after_sell(token_amount, out as u64)
            },
            token_info: TokenInfo {
                circulating_supply: (ti.circulating_supply - token_amount) as u64,
                transaction_count: (ti.transaction_count + 1) as u64,
                creator_fees_collected: (ti.creator_fees_collected + fees.creator_fee) as u64,
                ..ti
            },
            ..*self
        }
    }

    /// The ledger entry of a successful sale.
    pub open spec fn sell_record(&self, token_id: u64, token_amount: u64, now: i64) -> Transaction {
        let out = self.sol_out(token_amount);
        let fees = fee_split(out as u64, self.program_state.platform_fee_rate);
        Transaction {
            transaction_id: (self.token_info.transaction_count + 1) as u64,
            token_id,
            user: self.seller,
            transaction_type: TransactionType::Sell,
            sol_amount: out as u64,
            token_amount,
            price: price_of(out, self.token_info.decimals as nat, token_amount as nat) as u64,
            platform_fee: fees.platform_fee,
            creator_fee: fees.creator_fee,
            timestamp: now,
        }
    }
}

/// Sells `token_amount` tokens of `token_id` back to the curve at time `now`.
///
/// The quoted lamports leave the reserves; the fees come off them and the
/// seller receives the rest. On success the records are updated and the new
/// ledger entry is returned: the caller settles it by burning `token_amount`
/// from the seller, then paying `net_sol_amount()` to the seller and each fee
/// to its receiver from the curve. On failure nothing changes.
pub fn sell_token(ctx: &mut SellTokenCtx, token_id: u64, token_amount: u64, now: i64) -> (r: Result<Transaction, ErrorCode>)
    ensures
        match old(ctx).sell_error(token_id, token_amount) {
            Some(e) => r == Err::<Transaction, ErrorCode>(e) && *final(ctx) == *old(ctx),
            None => r == Ok::<Transaction, ErrorCode>(old(ctx).sell_record(token_id, token_amount, now))
                && *final(ctx) == old(ctx).after_sell(token_amount, now),
        },
{
    if ctx.program_state.is_paused {
        return Err(ErrorCode::TradingNotActive);
    }
    if ctx.token_info.token_id != token_id {
        return Err(ErrorCode::TokenNotFound);
    }
    if ctx.token_info.launched_to_dex {
        return Err(ErrorCode::TokenAlreadyLaunched);
    }
    if !ctx.token_info.trading_active {
        return Err(ErrorCode::TradingNotActive);
    }
    if token_amount == 0 {
        return Err(ErrorCode::InvalidPurchaseAmount);
    }
    let sol_output = ctx.bonding_curve.calculate_sol_output(token_amount)?;
    if sol_output == 0 {
        return Err(ErrorCode::InvalidPurchaseAmount);
    }
    if sol_output > ctx.bonding_curve.real_sol_reserves {
        return Err(ErrorCode::InsufficientReserves);
    }
    let fees = split_fees(sol_output, ctx.program_state.platform_fee_rate)?;

    let mut curve = ctx.bonding_curve;
    curve.update_reserves_sell(token_amount, sol_output)?;
    curve.total_sol_volume = match curve.total_sol_volume.checked_add(sol_output) {
        Some(v) => v,
        None => return Err(ErrorCode::ArithmeticOverflow),
    };
    curve.total_token_volume = match curve.total_token_volume.checked_add(token_amount) {
        Some(v) => v,
        None => return Err(ErrorCode::ArithmeticOverflow),
    };
    curve.last_updated = now;

    let circulating = match ctx.token_info.circulating_supply.checked_sub(token_amount) {
        Some(v) => v,
        None => return Err(ErrorCode::ArithmeticUnderflow),
    };
    let transaction_id = match ctx.token_info.transaction_count.checked_add(1) {
        Some(v) => v,
        None => return Err(ErrorCode::ArithmeticOverflow),
    };
    let creator_fees = match ctx.token_info.creator_fees_collected.checked_add(fees.creator_fee) {
        Some(v) => v,
        None => return Err(ErrorCode::ArithmeticOverflow),
    };

    ctx.bonding_curve = curve;
    ctx.token_info.circulating_supply = circulating;
    ctx.token_info.transaction_count = transaction_id;
    ctx.token_info.creator_fees_collected = creator_fees;

    Ok(Transaction {
        transaction_id,
        token_id,
        user: ctx.seller,
        transaction_type: TransactionType::Sell,
        sol_amount: sol_output,
        token_amount,
        price: trade_price(sol_output, ctx.token_info.decimals, token_amount),
        platform_fee: fees.platform_fee,
        creator_fee: fees.creator_fee,
        timestamp: now,
    })
}

} // verus!
