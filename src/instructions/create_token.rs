use vstd::prelude::*;

use crate::address::Address;
use crate::constants::{
    INITIAL_VIRTUAL_SOL_RESERVES, INITIAL_VIRTUAL_TOKEN_RESERVES, MAX_DECIMALS, MAX_TOKEN_SUPPLY,
    TOKEN_NAME_MAX_LEN, TOKEN_SYMBOL_MAX_LEN, TOKEN_URI_MAX_LEN,
};
use crate::errors::ErrorCode;
use crate::states::{BondingCurve, ProgramState, TokenInfo};

verus! {

/// The records a token creation reads and changes, and the identities the new
/// token is bound to.
#[derive(Clone, Copy, Debug, PartialEq, Eq)]
pub struct CreateTokenCtx {
    /// Platform configuration; hands out the next token id.
    pub program_state: ProgramState,
    /// Identity creating the token.
    pub creator: Address,
    /// Identity of the token's new mint.
    pub mint: Address,
}

impl CreateTokenCtx {
    /// The first check a token creation fails, in the order they are made;
    /// `None` where it goes through.
    pub open spec fn create_error(
        &self,
        name: Seq<char>,
        symbol: Seq<char>,
        uri: Seq<char>,
        decimals: u8,
        initial_supply: u64,
    ) -> Option<ErrorCode> {
        if name.len() > TOKEN_NAME_MAX_LEN {
            Some(ErrorCode::TokenNameTooLong)
        } else if symbol.len() > TOKEN_SYMBOL_MAX_LEN {
            Some(ErrorCode::TokenSymbolTooLong)
        } else if uri.len() > TOKEN_URI_MAX_LEN {
            Some(ErrorCode::TokenUriTooLong)
        } else if decimals > MAX_DECIMALS {
            Some(ErrorCode::InvalidDecimals)
        } else if initial_supply == 0 || initial_supply > MAX_TOKEN_SUPPLY {
            Some(ErrorCode::InvalidInitialSupply)
        } else if self.program_state.is_paused {
            Some(ErrorCode::TradingNotActive)
        } else if self.program_state.token_count + 1 > u64::MAX {
            Some(ErrorCode::ArithmeticOverflow)
        } else {
            None
        }
    }
}

/// Creates a token at time `now` with the given metadata and supply.
///
/// The token gets the next sequential id. Its lifecycle record starts with
/// nothing in circulation and trading open; its curve starts from the fixed
/// virtual reserves, no real base reserves, and the whole supply as real token
/// reserves. Returns both new records; on failure nothing changes.
pub fn create_token(
    ctx: &mut CreateTokenCtx,
    name: String,
    symbol: String,
    uri: String,
    decimals: u8,
    initial_supply: u64,
    now: i64,
) -> (r: Result<(TokenInfo, BondingCurve), ErrorCode>)
    ensures
        match old(ctx).create_error(name@, symbol@, uri@, decimals, initial_supply) {
            Some(e) => r == Err::<(TokenInfo, BondingCurve), ErrorCode>(e) && *final(ctx) == *old(ctx),
            None => {
                let token_id = (old(ctx).program_state.token_count + 1) as u64;
                &&& *final(ctx) == (CreateTokenCtx {
                    program_state: ProgramState { token_count: token_id, ..old(ctx).program_state },
                    ..*old(ctx)
                })
                &&& r matches Ok((info, curve))
                &&& info == (TokenInfo {
                    token_id,
                    mint: old(ctx).mint,
                    creator: old(ctx).creator,
                    name,
                    symbol,
                    uri,
                    decimals,
                    total_supply: initial_supply,
                    circulating_supply: 0,
                    launched_to_dex: false,
                    launched_at: None,
                    total_sol_raised: 0,
                    holder_count: 0,
                    transaction_count: 0,
                    created_at: now,
                    trading_active: true,
                    creator_fees_collected: 0,
                })
                &&& curve == (BondingCurve {
                    token_id,
                    virtual_sol_reserves: INITIAL_VIRTUAL_SOL_RESERVES,
                    virtual_token_reserves: INITIAL_VIRTUAL_TOKEN_RESERVES,
                    real_sol_reserves: 0,
                    real_token_reserves: initial_supply,
                    total_sol_volume: 0,
                    total_token_volume: 0,
                    current_price: 0,
                    market_cap: 0,
                    active: true,
                    last_updated: now,
                })
            },
        },
        r matches Ok((info, curve)) ==> info.wf() && curve.real_token_reserves + info.circulating_supply
            == info.total_supply,
{
    if name.as_str().unicode_len() > TOKEN_NAME_MAX_LEN {
        return Err(ErrorCode::TokenNameTooLong);
    }
    if symbol.as_str().unicode_len() > TOKEN_SYMBOL_MAX_LEN {
        return Err(ErrorCode::TokenSymbolTooLong);
    }
    if uri.as_str().unicode_len() > TOKEN_URI_MAX_LEN {
        return Err(ErrorCode::TokenUriTooLong);
    }
    if decimals > MAX_DECIMALS {
        return Err(ErrorCode::InvalidDecimals);
    }
    if initial_supply == 0 || initial_supply > MAX_TOKEN_SUPPLY {
        return Err(ErrorCode::InvalidInitialSupply);
    }
    if ctx.program_state.is_paused {
        return Err(ErrorCode::TradingNotActive);
    }
    let token_id = match ctx.program_state.token_count.checked_add(1) {
        Some(v) => v,
        None => return Err(ErrorCode::ArithmeticOverflow),
    };
    ctx.program_state.token_count = token_id;

    let info = TokenInfo {
        token_id,
        mint: ctx.mint,
        creator: ctx.creator,
        name,
        symbol,
        uri,
        decimals,
        total_supply: initial_supply,
        circulating_supply: 0,
        launched_to_dex: false,
        launched_at: None,
        total_sol_raised: 0,
        holder_count: 0,
        transaction_count: 0,
        created_at: now,
        trading_active: true,
        creator_fees_collected: 0,
    };
    let curve = BondingCurve {
        token_id,
        virtual_sol_reserves: INITIAL_VIRTUAL_SOL_RESERVES,
        virtual_token_reserves: INITIAL_VIRTUAL_TOKEN_RESERVES,
        real_sol_reserves: 0,
        real_token_reserves: initial_supply,
        total_sol_volume: 0,
        total_token_volume: 0,
        current_price: 0,
        market_cap: 0,
        active: true,
        last_updated: now,
    };
    Ok((info, curve))
}

} // verus!
