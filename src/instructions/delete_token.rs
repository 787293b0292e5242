use vstd::prelude::*;

use crate::address::Address;
use crate::errors::ErrorCode;
use crate::states::{BondingCurve, TokenInfo};

verus! {

/// The records a deletion releases, and who asks for it.
#[derive(Clone, Debug, PartialEq, Eq)]
pub struct DeleteTokenCtx {
    /// Lifecycle record of the token to delete.
    pub token_info: TokenInfo,
    /// Reserve ledger of the token to delete.
    pub bonding_curve: BondingCurve,
    /// Identity asking for the deletion.
    pub creator: Address,
}

impl DeleteTokenCtx {
    /// The first check a deletion fails, in the order they are made; `None`
    /// where it goes through.
    pub open spec fn delete_error(&self) -> Option<ErrorCode> {
        if self.token_info.creator@ != self.creator@ {
            Some(ErrorCode::Unauthorized)
        } else if self.token_info.launched_to_dex {
            Some(ErrorCode::TokenAlreadyLaunched)
        } else if self.token_info.circulating_supply > 0 {
            Some(ErrorCode::TradingNotActive)
        } else {
            None
        }
    }
}

/// Deletes a token that never launched and has nothing in circulation; only
/// its creator may. Returns the real base reserves the curve still holds,
/// which go back to the creator as both records are released.
pub fn delete_token(ctx: &DeleteTokenCtx) -> (r: Result<u64, ErrorCode>)
    ensures
        match ctx.delete_error() {
            Some(e) => r == Err::<u64, ErrorCode>(e),
            None => r == Ok::<u64, ErrorCode>(ctx.bonding_curve.real_sol_reserves),
        },
{
    if ctx.token_info.creator != ctx.creator {
        return Err(ErrorCode::Unauthorized);
    }
    if ctx.token_info.launched_to_dex {
        return Err(ErrorCode::TokenAlreadyLaunched);
    }
    if ctx.token_info.circulating_supply > 0 {
        return Err(ErrorCode::TradingNotActive);
    }
    Ok(ctx.bonding_curve.real_sol_reserves)
}

} // verus!
