use vstd::prelude::*;

use crate::address::Address;

verus! {

/// Lifecycle record of one token: its metadata, supply figures, and the flags
/// that decide which operations are legal.
#[derive(Clone, Debug, PartialEq, Eq)]
pub struct TokenInfo {
    /// Sequential id, unique among tokens.
    pub token_id: u64,
    /// Identity of the token's mint.
    pub mint: Address,
    /// Identity of the creator, who receives creator fees and launch liquidity.
    pub creator: Address,
    /// Token name, at most 32 characters.
    pub name: String,
    /// Token symbol, at most 8 characters.
    pub symbol: String,
    /// Metadata URI, at most 256 characters.
    pub uri: String,
    /// Decimals of the token, at most 9.
    pub decimals: u8,
    /// Supply fixed at creation.
    pub total_supply: u64,
    /// Tokens held by traders.
    pub circulating_supply: u64,
    /// Whether the token has launched; once set, it stays set.
    pub launched_to_dex: bool,
    /// Time of the launch, once launched.
    pub launched_at: Option<i64>,
    /// Gross base currency paid in by buys.
    pub total_sol_raised: u64,
    /// Number of holders.
    pub holder_count: u64,
    /// Number of recorded transactions; the next one gets this plus one.
    pub transaction_count: u64,
    /// Time of creation, in seconds.
    pub created_at: i64,
    /// Whether the curve accepts buys and sells.
    pub trading_active: bool,
    /// Creator fees paid over the token's life.
    pub creator_fees_collected: u64,
}

impl TokenInfo {
    /// The record invariant: no more tokens circulate than exist, and a launched
    /// token no longer trades.
    pub open spec fn wf(&self) -> bool {
        &&& self.circulating_supply <= self.total_supply
        &&& self.launched_to_dex ==> !self.trading_active
    }
}

} // verus!
