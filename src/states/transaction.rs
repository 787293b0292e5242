use vstd::prelude::*;

use crate::address::Address;

verus! {

/// What a ledger entry records.
#[derive(Clone, Copy, Debug, PartialEq, Eq, Structural)]
pub enum TransactionType {
    /// Base currency in, tokens out.
    Buy,
    /// Tokens in, base currency out.
    Sell,
    /// The one-time move off the curve.
    Launch,
}

/// One immutable ledger entry, written by a trade or a launch.
#[derive(Clone, Copy, Debug, PartialEq, Eq)]
pub struct Transaction {
    /// Position in the token's ledger, starting at 1.
    pub transaction_id: u64,
    /// Id of the token traded.
    pub token_id: u64,
    /// Identity that made the trade or the launch.
    pub user: Address,
    /// Kind of entry.
    pub transaction_type: TransactionType,
    /// Gross base currency of the entry: paid in by a buy, quoted for a sale,
    /// held by the curve at a launch.
    pub sol_amount: u64,
    /// Tokens bought or sold; 0 for a launch.
    pub token_amount: u64,
    /// Lamports per whole token (scaled by `10^decimals`); 0 where it cannot be formed.
    pub price: u64,
    /// Platform share of `sol_amount`.
    pub platform_fee: u64,
    /// Creator share of `sol_amount`.
    pub creator_fee: u64,
    /// Time of the entry, in seconds.
    pub timestamp: i64,
}

impl Transaction {
    /// Base currency that moves besides the fees: into the curve on a buy, to
    /// the seller on a sale, to the creator as liquidity at a launch.
    pub fn net_sol_amount(&self) -> (r: u64)
        requires
            self.platform_fee + self.creator_fee <= self.sol_amount,
        ensures
            r == self.sol_amount - self.platform_fee - self.creator_fee,
    {
        self.sol_amount - self.platform_fee - self.creator_fee
    }
}

} // verus!
