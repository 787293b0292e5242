use meme_launchpad::address::Address;
use meme_launchpad::errors::ErrorCode;
use meme_launchpad::instructions::{
    buy_token, create_token, delete_token, launch_to_dex, BuyTokenCtx, CreateTokenCtx, DeleteTokenCtx, LaunchToDexCtx,
};
use meme_launchpad::states::{BondingCurve, ProgramState, TokenInfo, TransactionType};

fn who(b: u8) -> Address {
    Address([b; 32])
}

fn platform() -> ProgramState {
    ProgramState {
        initialized: true,
        token_count: 4,
        platform_fee_rate: 250,
        launch_threshold: 1_000_000_000_000,
        platform_authority: who(9),
        platform_treasury: who(9),
        total_fees_collected: 7,
        is_paused: false,
        initialized_at: 0,
    }
}

fn create(ctx: &mut CreateTokenCtx, name: &str, symbol: &str, uri: &str, decimals: u8, supply: u64)
    -> Result<(TokenInfo, BondingCurve), ErrorCode> {
    create_token(ctx, String::from(name), String::from(symbol), String::from(uri), decimals, supply, 1_000)
}

fn create_ctx() -> CreateTokenCtx {
    CreateTokenCtx { program_state: platform(), creator: who(1), mint: who(2) }
}

fn launch_ctx(real_sol: u64) -> LaunchToDexCtx {
    let mut c = create_ctx();
    let (token_info, mut bonding_curve) = create(&mut c, "Dog", "DOG", "u", 6, 1_000_000_000_000_000).unwrap();
    bonding_curve.real_sol_reserves = real_sol;
    LaunchToDexCtx { program_state: c.program_state, token_info, bonding_curve, launcher: who(5) }
}

#[test]
fn create_token_seeds_both_records() {
    let mut ctx = create_ctx();
    let (info, curve) = create(&mut ctx, "Dog", "DOG", "https://example.org/dog.json", 6, 1_000_000).unwrap();
    assert_eq!(ctx.program_state.token_count, 5);
    assert_eq!(info.token_id, 5);
    assert_eq!(info.creator, who(1));
    assert_eq!(info.mint, who(2));
    assert_eq!(info.name, "Dog");
    assert_eq!(info.symbol, "DOG");
    assert_eq!(info.uri, "https://example.org/dog.json");
    assert_eq!(info.decimals, 6);
    assert_eq!(info.total_supply, 1_000_000);
    assert_eq!(info.circulating_supply, 0);
    assert!(!info.launched_to_dex);
    assert_eq!(info.launched_at, None);
    assert!(info.trading_active);
    assert_eq!(info.transaction_count, 0);
    assert_eq!(info.created_at, 1_000);
    assert_eq!(curve.token_id, 5);
    assert_eq!(curve.virtual_sol_reserves, 30_000_000_000);
    assert_eq!(curve.virtual_token_reserves, 1_073_000_000_000_000);
    assert_eq!(curve.real_sol_reserves, 0);
    assert_eq!(curve.real_token_reserves, 1_000_000);
    assert!(curve.active);
    assert_eq!(curve.last_updated, 1_000);
}

#[test]
fn create_token_validates_inputs_in_order() {
    let base = create_ctx();
    let long_name = "n".repeat(33);
    let mut ctx = base;
    assert_eq!(create(&mut ctx, &long_name, "TOOLONGSYMBOL", "u", 99, 0), Err(ErrorCode::TokenNameTooLong));
    assert_eq!(create(&mut ctx, "Dog", "TOOLONGSY", "u", 6, 1), Err(ErrorCode::TokenSymbolTooLong));
    assert_eq!(create(&mut ctx, "Dog", "DOG", &"u".repeat(257), 6, 1), Err(ErrorCode::TokenUriTooLong));
    assert_eq!(create(&mut ctx, "Dog", "DOG", "u", 10, 1), Err(ErrorCode::InvalidDecimals));
    assert_eq!(create(&mut ctx, "Dog", "DOG", "u", 9, 0), Err(ErrorCode::InvalidInitialSupply));
    assert_eq!(
        create(&mut ctx, "Dog", "DOG", "u", 9, 1_000_000_000_000_001),
        Err(ErrorCode::InvalidInitialSupply)
    );
    assert_eq!(ctx, base);
}

#[test]
fn create_token_accepts_the_limits() {
    let mut ctx = create_ctx();
    let r = create(&mut ctx, &"n".repeat(32), "SYMBOLS8", &"u".repeat(256), 9, 1_000_000_000_000_000);
    assert!(r.is_ok());
    assert_eq!(ctx.program_state.token_count, 5);
    let r = create(&mut ctx, "", "", "", 0, 1);
    assert_eq!(r.unwrap().0.token_id, 6);
}

#[test]
fn create_token_counts_characters() {
    let mut ctx = create_ctx();
    let name = "é".repeat(32);
    assert_eq!(name.len(), 64);
    assert!(create(&mut ctx, &name, "DOG", "u", 6, 1).is_ok());
    let name = "é".repeat(33);
    assert_eq!(create(&mut ctx, &name, "DOG", "u", 6, 1), Err(ErrorCode::TokenNameTooLong));
}

#[test]
fn create_token_refused_while_paused_or_full() {
    let mut ctx = create_ctx();
    ctx.program_state.is_paused = true;
    assert_eq!(create(&mut ctx, "Dog", "DOG", "u", 6, 1), Err(ErrorCode::TradingNotActive));
    let mut ctx = create_ctx();
    ctx.program_state.token_count = u64::MAX;
    let before = ctx;
    assert_eq!(create(&mut ctx, "Dog", "DOG", "u", 6, 1), Err(ErrorCode::ArithmeticOverflow));
    assert_eq!(ctx, before);
}

#[test]
fn launch_threshold_boundary() {
    let mut ctx = launch_ctx(1_000_000_000_000 - 1);
    let before = ctx.clone();
    assert_eq!(launch_to_dex(&mut ctx, 5, 1, 1_000 + 3_600), Err(ErrorCode::LaunchThresholdNotMet));
    assert_eq!(ctx, before);

    let mut ctx = launch_ctx(1_000_000_000_000);
    let t = launch_to_dex(&mut ctx, 5, 1, 1_000 + 3_600).unwrap();
    assert_eq!(t.transaction_type, TransactionType::Launch);
    assert_eq!(t.transaction_id, 1);
    assert_eq!(t.token_id, 5);
    assert_eq!(t.user, who(5));
    assert_eq!(t.sol_amount, 1_000_000_000_000);
    assert_eq!(t.token_amount, 0);
    assert_eq!(t.price, 0);
    assert_eq!(t.platform_fee, 200_000_000_000);
    assert_eq!(t.creator_fee, 0);
    assert_eq!(t.net_sol_amount(), 800_000_000_000);
    assert_eq!(t.net_sol_amount() + t.platform_fee, t.sol_amount);
    assert!(ctx.token_info.launched_to_dex);
    assert!(!ctx.token_info.trading_active);
    assert_eq!(ctx.token_info.launched_at, Some(4_600));
    assert_eq!(ctx.token_info.transaction_count, 1);
    assert!(!ctx.bonding_curve.active);
    assert_eq!(ctx.bonding_curve.real_sol_reserves, 0);
    assert_eq!(ctx.bonding_curve.last_updated, 4_600);
    assert_eq!(ctx.program_state.total_fees_collected, 7 + 200_000_000_000);
}

#[test]
fn launch_split_leaves_no_remainder() {
    for total in [1_000_000_000_003u64, 1_234_567_890_123, 2_000_000_000_001] {
        let mut ctx = launch_ctx(total);
        let t = launch_to_dex(&mut ctx, 5, 1, 10_000).unwrap();
        assert_eq!(t.net_sol_amount(), total * 8 / 10);
        assert_eq!(t.net_sol_amount() + t.platform_fee, total);
    }
}

#[test]
fn launch_waits_for_minimum_trading_time() {
    let mut ctx = launch_ctx(1_000_000_000_000);
    assert_eq!(launch_to_dex(&mut ctx, 5, 1, 1_000 + 3_599), Err(ErrorCode::LaunchCooldownActive));
    assert_eq!(launch_to_dex(&mut ctx, 5, 1, i64::MIN), Err(ErrorCode::LaunchCooldownActive));
    ctx.token_info.created_at = i64::MAX - 10;
    assert_eq!(launch_to_dex(&mut ctx, 5, 1, i64::MAX), Err(ErrorCode::LaunchCooldownActive));
    ctx.token_info.created_at = i64::MIN;
    assert!(launch_to_dex(&mut ctx, 5, 1, i64::MAX).is_ok());
}

#[test]
fn launch_checks_the_ledger_sequence() {
    let mut ctx = launch_ctx(1_000_000_000_000);
    ctx.token_info.transaction_count = 41;
    let before = ctx.clone();
    assert_eq!(launch_to_dex(&mut ctx, 5, 41, 10_000), Err(ErrorCode::ArithmeticOverflow));
    assert_eq!(launch_to_dex(&mut ctx, 5, 43, 10_000), Err(ErrorCode::ArithmeticOverflow));
    assert_eq!(ctx, before);
    assert_eq!(launch_to_dex(&mut ctx, 5, 42, 10_000).unwrap().transaction_id, 42);
    assert_eq!(ctx.token_info.transaction_count, 42);
}

#[test]
fn launch_gates_in_order() {
    let mut ctx = launch_ctx(0);
    ctx.program_state.is_paused = true;
    assert_eq!(launch_to_dex(&mut ctx, 5, 1, 10_000), Err(ErrorCode::TradingNotActive));
    let mut ctx = launch_ctx(0);
    assert_eq!(launch_to_dex(&mut ctx, 6, 1, 10_000), Err(ErrorCode::TokenNotFound));
    let mut ctx = launch_ctx(u64::MAX);
    assert_eq!(launch_to_dex(&mut ctx, 5, 1, 10_000), Err(ErrorCode::ArithmeticOverflow));
    let mut ctx = launch_ctx(1_000_000_000_000);
    ctx.program_state.total_fees_collected = u64::MAX;
    let before = ctx.clone();
    assert_eq!(launch_to_dex(&mut ctx, 5, 1, 10_000), Err(ErrorCode::ArithmeticOverflow));
    assert_eq!(ctx, before);
}

#[test]
fn launch_happens_once() {
    let mut ctx = launch_ctx(1_000_000_000_000);
    launch_to_dex(&mut ctx, 5, 1, 10_000).unwrap();
    let after = ctx.clone();
    for (id, now) in [(1u64, 10_000i64), (2, 20_000), (0, 0), (u64::MAX, i64::MAX)] {
        assert_eq!(launch_to_dex(&mut ctx, 5, id, now), Err(ErrorCode::TokenAlreadyLaunched));
        assert_eq!(ctx, after);
    }
}

#[test]
fn launched_token_no_longer_trades() {
    let mut ctx = launch_ctx(1_000_000_000_000);
    launch_to_dex(&mut ctx, 5, 1, 10_000).unwrap();
    let mut buy = BuyTokenCtx {
        program_state: ctx.program_state,
        token_info: ctx.token_info.clone(),
        bonding_curve: ctx.bonding_curve,
        buyer: who(3),
    };
    assert_eq!(buy_token(&mut buy, 5, 100_000_000, 20_000), Err(ErrorCode::TokenAlreadyLaunched));
}

#[test]
fn delete_untraded_token_refunds_creator() {
    let mut c = create_ctx();
    let (token_info, mut bonding_curve) = create(&mut c, "Dog", "DOG", "u", 6, 1_000).unwrap();
    bonding_curve.real_sol_reserves = 123;
    let ctx = DeleteTokenCtx { token_info, bonding_curve, creator: who(1) };
    assert_eq!(delete_token(&ctx), Ok(123));
}

#[test]
fn delete_token_gates() {
    let mut c = create_ctx();
    let (token_info, bonding_curve) = create(&mut c, "Dog", "DOG", "u", 6, 1_000).unwrap();
    let base = DeleteTokenCtx { token_info, bonding_curve, creator: who(1) };

    let mut ctx = base.clone();
    ctx.creator = who(8);
    assert_eq!(delete_token(&ctx), Err(ErrorCode::Unauthorized));

    let mut ctx = base.clone();
    ctx.token_info.launched_to_dex = true;
    assert_eq!(delete_token(&ctx), Err(ErrorCode::TokenAlreadyLaunched));

    let mut ctx = base.clone();
    ctx.token_info.circulating_supply = 1;
    assert_eq!(delete_token(&ctx), Err(ErrorCode::TradingNotActive));

    assert_eq!(delete_token(&base), Ok(0));
}
