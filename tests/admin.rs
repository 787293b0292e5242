use meme_launchpad::address::Address;
use meme_launchpad::errors::ErrorCode;
use meme_launchpad::instructions::{
    initialize, toggle_emergency_pause, update_platform_authority, update_platform_settings, update_platform_treasury,
    withdraw_platform_fees, InitializeCtx, ToggleEmergencyPauseCtx, UpdatePlatformAuthorityCtx,
    UpdatePlatformSettingsCtx, UpdatePlatformTreasuryCtx, WithdrawPlatformFeesCtx,
};
use meme_launchpad::states::ProgramState;

fn who(b: u8) -> Address {
    Address([b; 32])
}

fn fresh() -> ProgramState {
    ProgramState {
        initialized: false,
        token_count: 0,
        platform_fee_rate: 0,
        launch_threshold: 0,
        platform_authority: Address::zeroed(),
        platform_treasury: Address::zeroed(),
        total_fees_collected: 0,
        is_paused: false,
        initialized_at: 0,
    }
}

fn running() -> ProgramState {
    let mut ctx = InitializeCtx { program_state: fresh(), deployer: who(9) };
    initialize(&mut ctx, 100).unwrap();
    ctx.program_state
}

#[test]
fn initialize_sets_defaults_once() {
    let mut ctx = InitializeCtx { program_state: fresh(), deployer: who(9) };
    assert_eq!(initialize(&mut ctx, 100), Ok(()));
    let s = ctx.program_state;
    assert!(s.initialized);
    assert_eq!(s.token_count, 0);
    assert_eq!(s.platform_fee_rate, 250);
    assert_eq!(s.launch_threshold, 1_000_000_000_000);
    assert_eq!(s.platform_authority, who(9));
    assert_eq!(s.platform_treasury, who(9));
    assert_eq!(s.total_fees_collected, 0);
    assert!(!s.is_paused);
    assert_eq!(s.initialized_at, 100);
    ctx.deployer = who(4);
    assert_eq!(initialize(&mut ctx, 200), Err(ErrorCode::AlreadyInitialized));
    assert_eq!(ctx.program_state, s);
}

#[test]
fn settings_update_is_bounded_and_gated() {
    let mut ctx = UpdatePlatformSettingsCtx { program_state: running(), authority: who(9) };
    assert_eq!(update_platform_settings(&mut ctx, 1_000, 100_000_000_000), Ok(()));
    assert_eq!(ctx.program_state.platform_fee_rate, 1_000);
    assert_eq!(ctx.program_state.launch_threshold, 100_000_000_000);
    let before = ctx;
    assert_eq!(update_platform_settings(&mut ctx, 1_001, 100_000_000_000), Err(ErrorCode::InvalidFeeRate));
    assert_eq!(update_platform_settings(&mut ctx, 0, 99_999_999_999), Err(ErrorCode::InvalidLaunchThreshold));
    ctx.authority = who(3);
    assert_eq!(update_platform_settings(&mut ctx, 0, 100_000_000_000), Err(ErrorCode::Unauthorized));
    ctx.authority = who(9);
    assert_eq!(ctx, before);
}

#[test]
fn authority_hand_over() {
    let mut ctx = UpdatePlatformAuthorityCtx { program_state: running(), current_authority: who(3) };
    assert_eq!(update_platform_authority(&mut ctx, who(3)), Err(ErrorCode::Unauthorized));
    assert_eq!(ctx.program_state.platform_authority, who(9));
    ctx.current_authority = who(9);
    assert_eq!(update_platform_authority(&mut ctx, who(4)), Ok(()));
    assert_eq!(ctx.program_state.platform_authority, who(4));
    assert_eq!(ctx.program_state.platform_treasury, who(9));
}

#[test]
fn treasury_move() {
    let mut ctx = UpdatePlatformTreasuryCtx { program_state: running(), authority: who(3) };
    assert_eq!(update_platform_treasury(&mut ctx, who(3)), Err(ErrorCode::Unauthorized));
    ctx.authority = who(9);
    assert_eq!(update_platform_treasury(&mut ctx, who(6)), Ok(()));
    assert_eq!(ctx.program_state.platform_treasury, who(6));
    assert_eq!(ctx.program_state.platform_authority, who(9));
}

#[test]
fn pause_toggles() {
    let mut ctx = ToggleEmergencyPauseCtx { program_state: running(), authority: who(9) };
    assert_eq!(toggle_emergency_pause(&mut ctx), Ok(()));
    assert!(ctx.program_state.is_paused);
    assert_eq!(toggle_emergency_pause(&mut ctx), Ok(()));
    assert!(!ctx.program_state.is_paused);
    ctx.authority = who(1);
    assert_eq!(toggle_emergency_pause(&mut ctx), Err(ErrorCode::Unauthorized));
    assert!(!ctx.program_state.is_paused);
}

#[test]
fn withdraw_fees_up_to_balance() {
    let mut ctx = WithdrawPlatformFeesCtx { program_state: running(), authority: who(9), available_balance: 500 };
    assert_eq!(withdraw_platform_fees(&mut ctx, 501), Err(ErrorCode::InsufficientSolBalance));
    assert_eq!(ctx.available_balance, 500);
    assert_eq!(withdraw_platform_fees(&mut ctx, 200), Ok(()));
    assert_eq!(ctx.available_balance, 300);
    assert_eq!(withdraw_platform_fees(&mut ctx, 300), Ok(()));
    assert_eq!(ctx.available_balance, 0);
    ctx.authority = who(2);
    assert_eq!(withdraw_platform_fees(&mut ctx, 0), Err(ErrorCode::Unauthorized));
}

#[test]
fn addresses_compare_by_every_byte() {
    let mut a = [7u8; 32];
    let b = Address(a);
    a[31] = 8;
    assert_ne!(Address(a), b);
    assert_eq!(Address([7u8; 32]), b);
    assert_eq!(Address::zeroed(), Address([0u8; 32]));
}
