use vstd::prelude::*;

verus! {

/// Platform fee rate set at initialization, in basis points (2.5%).
pub const PLATFORM_FEE_RATE: u64 = 250;

/// Real base reserves a curve must hold before it can launch (1000 SOL in lamports).
pub const LAUNCH_THRESHOLD: u64 = 1000_000_000_000;

/// Smallest accepted buy, in lamports (0.1 SOL).
pub const MIN_TOKEN_PURCHASE: u64 = 100_000_000;

/// Largest accepted buy per transaction, in lamports (10 SOL).
pub const MAX_TOKEN_PURCHASE: u64 = 10_000_000_000;

/// Longest accepted token name, in characters.
pub const TOKEN_NAME_MAX_LEN: usize = 32;

/// Longest accepted token symbol, in characters.
pub const TOKEN_SYMBOL_MAX_LEN: usize = 8;

/// Longest accepted metadata URI, in characters.
pub const TOKEN_URI_MAX_LEN: usize = 256;

/// Longest accepted token description, in characters.
pub const TOKEN_DESCRIPTION_MAX_LEN: usize = 512;

/// Largest accepted number of decimals of a token.
pub const MAX_DECIMALS: u8 = 9;

/// Virtual base reserves a new curve starts with (30 SOL).
pub const INITIAL_VIRTUAL_SOL_RESERVES: u64 = 30_000_000_000;

/// Virtual token reserves a new curve starts with.
pub const INITIAL_VIRTUAL_TOKEN_RESERVES: u64 = 1_073_000_000_000_000;

/// Largest accepted initial supply (one billion tokens with six decimals).
pub const MAX_TOKEN_SUPPLY: u64 = 1_000_000_000_000_000;

/// Fixed creator fee on every trade, in basis points (1%).
pub const CREATOR_FEE_RATE: u64 = 100;

/// Basis points in a whole.
pub const BPS_DENOMINATOR: u64 = 10_000;

/// Highest platform fee rate the authority may set, in basis points (10%).
pub const MAX_PLATFORM_FEE_RATE: u64 = 1000;

/// Lowest launch threshold the authority may set (100 SOL in lamports).
pub const MIN_LAUNCH_THRESHOLD: u64 = 100_000_000_000;

/// Share of the real base reserves that goes to the creator at launch, in basis points.
pub const LAUNCH_LIQUIDITY_SHARE: u64 = 8000;

/// Cooldown between launch-related actions, in seconds (24 hours).
pub const LAUNCH_COOLDOWN: i64 = 86400;

/// Time a token must have existed before it can launch, in seconds (one hour).
pub const MIN_TRADING_TIME: i64 = 3600;

} // verus!
