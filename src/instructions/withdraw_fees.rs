use vstd::prelude::*;

use crate::address::Address;
use crate::errors::ErrorCode;
use crate::states::ProgramState;

verus! {

/// The platform record and its balance, and who asks to withdraw.
#[derive(Clone, Copy, Debug, PartialEq, Eq)]
pub struct WithdrawPlatformFeesCtx {
    /// Platform configuration.
    pub program_state: ProgramState,
    /// Identity asking for the withdrawal.
    pub authority: Address,
    /// Lamports the platform record holds.
    pub available_balance: u64,
}

impl WithdrawPlatformFeesCtx {
    /// The first check a withdrawal of `amount` fails; `None` where it goes through.
    pub open spec fn withdraw_error(&self, amount: u64) -> Option<ErrorCode> {
        if self.program_state.platform_authority@ != self.authority@ {
            Some(ErrorCode::Unauthorized)
        } else if amount > self.available_balance {
            Some(ErrorCode::InsufficientSolBalance)
        } else {
            None
        }
    }
}

/// Withdraws `amount` lamports of collected fees to the platform treasury;
/// only the platform authority may, and no more than the platform holds. On
/// failure nothing changes.
pub fn withdraw_platform_fees(ctx: &mut WithdrawPlatformFeesCtx, amount: u64) -> (r: Result<(), ErrorCode>)
    ensures
        match old(ctx).withdraw_error(amount) {
            Some(e) => r == Err::<(), ErrorCode>(e) && *final(ctx) == *old(ctx),
            None => r == Ok::<(), ErrorCode>(()) && *final(ctx) == (WithdrawPlatformFeesCtx {
                available_balance: (old(ctx).available_balance - amount) as u64,
                ..*old(ctx)
            }),
        },
{
    if ctx.program_state.platform_authority != ctx.authority {
        return Err(ErrorCode::Unauthorized);
    }
    if amount > ctx.available_balance {
        return Err(ErrorCode::InsufficientSolBalance);
    }
    ctx.available_balance = ctx.available_balance - amount;
    Ok(())
}

} // verus!
