use vstd::prelude::*;

use crate::address::Address;
use crate::constants::{LAUNCH_THRESHOLD, PLATFORM_FEE_RATE};
use crate::errors::ErrorCode;
use crate::states::ProgramState;

verus! {

/// The platform record to set up, and who deploys it.
#[derive(Clone, Copy, Debug, PartialEq, Eq)]
pub struct InitializeCtx {
    /// Platform configuration, not yet initialized.
    pub program_state: ProgramState,
    /// Identity that becomes both authority and treasury.
    pub deployer: Address,
}

/// Sets up the platform at time `now`: default fee rate and launch threshold,
/// no tokens, no fees, not paused, and the deployer as authority and treasury.
/// Fails with `AlreadyInitialized`, changing nothing, on a second run.
pub fn initialize(ctx: &mut InitializeCtx, now: i64) -> (r: Result<(), ErrorCode>)
    ensures
        old(ctx).program_state.initialized ==> r == Err::<(), ErrorCode>(ErrorCode::AlreadyInitialized)
            && *final(ctx) == *old(ctx),
        !old(ctx).program_state.initialized ==> r == Ok::<(), ErrorCode>(()) && *final(ctx) == (InitializeCtx {
            program_state: ProgramState {
                initialized: true,
                token_count: 0,
                platform_fee_rate: PLATFORM_FEE_RATE,
                launch_threshold: LAUNCH_THRESHOLD,
                platform_authority: old(ctx).deployer,
                platform_treasury: old(ctx).deployer,
                total_fees_collected: 0,
                is_paused: false,
                initialized_at: now,
            },
            ..*old(ctx)
        }),
        r is Ok ==> final(ctx).program_state.wf(),
{
    if ctx.program_state.initialized {
        return Err(ErrorCode::AlreadyInitialized);
    }
    ctx.program_state = ProgramState {
        initialized: true,
        token_count: 0,
        platform_fee_rate: PLATFORM_FEE_RATE,
        launch_threshold: LAUNCH_THRESHOLD,
        platform_authority: ctx.deployer,
        platform_treasury: ctx.deployer,
        total_fees_collected: 0,
        is_paused: false,
        initialized_at: now,
    };
    Ok(())
}

} // verus!
