use vstd::prelude::*;

use crate::address::Address;
use crate::constants::{MAX_PLATFORM_FEE_RATE, MIN_LAUNCH_THRESHOLD};
use crate::errors::ErrorCode;
use crate::states::ProgramState;

verus! {

/// The platform record, and who asks to change its fee rate and threshold.
#[derive(Clone, Copy, Debug, PartialEq, Eq)]
pub struct UpdatePlatformSettingsCtx {
    /// Platform configuration.
    pub program_state: ProgramState,
    /// Identity asking for the change.
    pub authority: Address,
}

/// The platform record, and who asks to hand over authority.
#[derive(Clone, Copy, Debug, PartialEq, Eq)]
pub struct UpdatePlatformAuthorityCtx {
    /// Platform configuration.
    pub program_state: ProgramState,
    /// Identity asking for the change.
    pub current_authority: Address,
}

/// The platform record, and who asks to move the treasury.
#[derive(Clone, Copy, Debug, PartialEq, Eq)]
pub struct UpdatePlatformTreasuryCtx {
    /// Platform configuration.
    pub program_state: ProgramState,
    /// Identity asking for the change.
    pub authority: Address,
}

/// The platform record, and who asks to flip the emergency pause.
#[derive(Clone, Copy, Debug, PartialEq, Eq)]
pub struct ToggleEmergencyPauseCtx {
    /// Platform configuration.
    pub program_state: ProgramState,
    /// Identity asking for the change.
    pub authority: Address,
}

impl UpdatePlatformSettingsCtx {
    /// The first check a settings update fails; `None` where it goes through.
    pub open spec fn settings_error(&self, new_fee_rate: u64, new_launch_threshold: u64) -> Option<ErrorCode> {
        if self.program_state.platform_authority@ != self.authority@ {
            Some(ErrorCode::Unauthorized)
        } else if new_fee_rate > MAX_PLATFORM_FEE_RATE {
            Some(ErrorCode::InvalidFeeRate)
        } else if new_launch_threshold < MIN_LAUNCH_THRESHOLD {
            Some(ErrorCode::InvalidLaunchThreshold)
        } else {
            None
        }
    }
}

/// Sets the platform fee rate (at most 1000 basis points) and the launch
/// threshold (at least 100 SOL); only the platform authority may. On failure
/// nothing changes.
pub fn update_platform_settings(
    ctx: &mut UpdatePlatformSettingsCtx,
    new_fee_rate: u64,
    new_launch_threshold: u64,
) -> (r: Result<(), ErrorCode>)
    ensures
        match old(ctx).settings_error(new_fee_rate, new_launch_threshold) {
            Some(e) => r == Err::<(), ErrorCode>(e) && *final(ctx) == *old(ctx),
            None => r == Ok::<(), ErrorCode>(()) && *final(ctx) == (UpdatePlatformSettingsCtx {
                program_state: ProgramState {
                    platform_fee_rate: new_fee_rate,
                    launch_threshold: new_launch_threshold,
                    ..old(ctx).program_state
                },
                ..*old(ctx)
            }),
        },
        r is Ok ==> final(ctx).program_state.wf(),
{
    if ctx.program_state.platform_authority != ctx.authority {
        return Err(ErrorCode::Unauthorized);
    }
    if new_fee_rate > MAX_PLATFORM_FEE_RATE {
        return Err(ErrorCode::InvalidFeeRate);
    }
    if new_launch_threshold < MIN_LAUNCH_THRESHOLD {
        return Err(ErrorCode::InvalidLaunchThreshold);
    }
    ctx.program_state.platform_fee_rate = new_fee_rate;
    ctx.program_state.launch_threshold = new_launch_threshold;
    Ok(())
}

/// Hands platform authority to `new_authority`; only the current authority
/// may. On failure nothing changes.
pub fn update_platform_authority(ctx: &mut UpdatePlatformAuthorityCtx, new_authority: Address) -> (r: Result<(), ErrorCode>)
    ensures
        old(ctx).program_state.platform_authority@ != old(ctx).current_authority@ ==> r == Err::<(), ErrorCode>(
            ErrorCode::Unauthorized,
        ) && *final(ctx) == *old(ctx),
        old(ctx).program_state.platform_authority@ == old(ctx).current_authority@ ==> r == Ok::<(), ErrorCode>(())
            && *final(ctx) == (UpdatePlatformAuthorityCtx {
            program_state: ProgramState { platform_authority: new_authority, ..old(ctx).program_state },
            ..*old(ctx)
        }),
{
    if ctx.program_state.platform_authority != ctx.current_authority {
        return Err(ErrorCode::Unauthorized);
    }
    ctx.program_state.platform_authority = new_authority;
    Ok(())
}

/// Moves the platform treasury to `new_treasury`; only the platform authority
/// may. On failure nothing changes.
pub fn update_platform_treasury(ctx: &mut UpdatePlatformTreasuryCtx, new_treasury: Address) -> (r: Result<(), ErrorCode>)
    ensures
        old(ctx).program_state.platform_authority@ != old(ctx).authority@ ==> r == Err::<(), ErrorCode>(
            ErrorCode::Unauthorized,
        ) && *final(ctx) == *old(ctx),
        old(ctx).program_state.platform_authority@ == old(ctx).authority@ ==> r == Ok::<(), ErrorCode>(())
            && *final(ctx) == (UpdatePlatformTreasuryCtx {
            program_state: ProgramState { platform_treasury: new_treasury, ..old(ctx).program_state },
            ..*old(ctx)
        }),
{
    if ctx.program_state.platform_authority != ctx.authority {
        return Err(ErrorCode::Unauthorized);
    }
    ctx.program_state.platform_treasury = new_treasury;
    Ok(())
}

/// Flips the emergency pause; only the platform authority may. On failure
/// nothing changes.
pub fn toggle_emergency_pause(ctx: &mut ToggleEmergencyPauseCtx) -> (r: Result<(), ErrorCode>)
    ensures
        old(ctx).program_state.platform_authority@ != old(ctx).authority@ ==> r == Err::<(), ErrorCode>(
            ErrorCode::Unauthorized,
        ) && *final(ctx) == *old(ctx),
        old(ctx).program_state.platform_authority@ == old(ctx).authority@ ==> r == Ok::<(), ErrorCode>(())
            && *final(ctx) == (ToggleEmergencyPauseCtx {
            program_state: ProgramState { is_paused: !old(ctx).program_state.is_paused, ..old(ctx).program_state },
            ..*old(ctx)
        }),
{
    if ctx.program_state.platform_authority != ctx.authority {
        return Err(ErrorCode::Unauthorized);
    }
    ctx.program_state.is_paused = !ctx.program_state.is_paused;
    Ok(())
}

} // verus!
