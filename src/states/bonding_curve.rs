use vstd::prelude::*;

use crate::errors::ErrorCode;
use crate::pricing::{quote, quote_out};

verus! {

/// Reserve ledger of one token: the virtual reserves that price trades, the
/// real reserves the curve actually holds, and running volumes.
#[derive(Clone, Copy, Debug, PartialEq, Eq)]
pub struct BondingCurve {
    /// Id of the token this curve prices.
    pub token_id: u64,
    /// Virtual base-currency (SOL) reserves used for pricing.
    pub virtual_sol_reserves: u64,
    /// Virtual token reserves used for pricing.
    pub virtual_token_reserves: u64,
    /// Base currency the curve actually holds.
    pub real_sol_reserves: u64,
    /// Tokens the curve can still hand out.
    pub real_token_reserves: u64,
    /// Base currency traded over the curve's life.
    pub total_sol_volume: u64,
    /// Tokens traded over the curve's life.
    pub total_token_volume: u64,
    /// Last recorded price in lamports per token.
    pub current_price: u64,
    /// Last recorded market cap in lamports.
    pub market_cap: u64,
    /// Whether the curve still trades.
    pub active: bool,
    /// Time of the last change, in seconds.
    pub last_updated: i64,
}

impl BondingCurve {
    /// Tokens a buy of `sol_input` lamports fetches at the current virtual reserves.
    pub open spec fn token_quote(&self, sol_input: u64) -> nat {
        quote(self.virtual_sol_reserves as nat, self.virtual_token_reserves as nat, sol_input as nat)
    }

    /// Lamports a sale of `token_input` tokens fetches at the current virtual reserves.
    pub open spec fn sol_quote(&self, token_input: u64) -> nat {
        quote(self.virtual_token_reserves as nat, self.virtual_sol_reserves as nat, token_input as nat)
    }

    /// The first reserve that a buy of `sol_input` for `token_output` would push
    /// out of range, if any.
    pub open spec fn buy_reserves_error(&self, sol_input: u64, token_output: u64) -> Option<ErrorCode> {
        if self.virtual_sol_reserves + sol_input > u64::MAX {
            Some(ErrorCode::ArithmeticOverflow)
        } else if self.virtual_token_reserves < token_output {
            Some(ErrorCode::ArithmeticUnderflow)
        } else if self.real_sol_reserves + sol_input > u64::MAX {
            Some(ErrorCode::ArithmeticOverflow)
        } else if self.real_token_reserves < token_output {
            Some(ErrorCode::ArithmeticUnderflow)
        } else {
            None
        }
    }

    /// The curve after `sol_input` lamports came in and `token_output` tokens went out.
    pub open spec fn after_buy(&self, sol_input: u64, token_output: u64) -> BondingCurve {
        BondingCurve {
            virtual_sol_reserves: (self.virtual_sol_reserves + sol_input) as u64,
            virtual_token_reserves: (self.virtual_token_reserves - token_output) as u64,
            real_sol_reserves: (self.real_sol_reserves + sol_input) as u64,
            real_token_reserves: (self.real_token_reserves - token_output) as u64,
            ..*self
        }
    }

    /// The first reserve that a sale of `token_input` for `sol_output` would push
    /// out of range, if any.
    pub open spec fn sell_reserves_error(&self, token_input: u64, sol_output: u64) -> Option<ErrorCode> {
        if self.virtual_token_reserves + token_input > u64::MAX {
            Some(ErrorCode::ArithmeticOverflow)
        } else if self.virtual_sol_reserves < sol_output {
            Some(ErrorCode::ArithmeticUnderflow)
        } else if self.real_token_reserves + token_input > u64::MAX {
            Some(ErrorCode::ArithmeticOverflow)
        } else if self.real_sol_reserves < sol_output {
            Some(ErrorCode::ArithmeticUnderflow)
        } else {
            None
        }
    }

    /// The curve after `token_input` tokens came in and `sol_output` lamports went out.
    pub open spec fn after_sell(&self, token_input: u64, sol_output: u64) -> BondingCurve {
        BondingCurve {
            virtual_token_reserves: (self.virtual_token_reserves + token_input) as u64,
            virtual_sol_reserves: (self.virtual_sol_reserves - sol_output) as u64,
            real_token_reserves: (self.real_token_reserves + token_input) as u64,
            real_sol_reserves: (self.real_sol_reserves - sol_output) as u64,
            ..*self
        }
    }

    /// Tokens that `sol_input` lamports buy: `virtual_token * sol_input / (virtual_sol + sol_input)`.
    pub fn calculate_token_output(&self, sol_input: u64) -> (r: Result<u64, ErrorCode>)
        ensures
            r == Ok::<u64, ErrorCode>(self.token_quote(sol_input) as u64),
            self.token_quote(sol_input) <= self.virtual_token_reserves,
    {
        quote_out(self.virtual_sol_reserves, self.virtual_token_reserves, sol_input)
    }

    /// Lamports that `token_input` tokens sell for: `virtual_sol * token_input / (virtual_token + token_input)`.
    pub fn calculate_sol_output(&self, token_input: u64) -> (r: Result<u64, ErrorCode>)
        ensures
            r == Ok::<u64, ErrorCode>(self.sol_quote(token_input) as u64),
            self.sol_quote(token_input) <= self.virtual_sol_reserves,
    {
        quote_out(self.virtual_token_reserves, self.virtual_sol_reserves, token_input)
    }

    /// Moves the reserves by a buy: `sol_input` in on both base sides, `token_output`
    /// out of both token sides. Fails, and changes nothing, where a reserve would
    /// leave the range of `u64`.
    pub fn update_reserves_buy(&mut self, sol_input: u64, token_output: u64) -> (r: Result<(), ErrorCode>)
        ensures
            match old(self).buy_reserves_error(sol_input, token_output) {
                Some(e) => r == Err::<(), ErrorCode>(e) && *final(self) == *old(self),
                None => r == Ok::<(), ErrorCode>(()) && *final(self) == old(self).after_buy(sol_input, token_output),
            },
    {
        let virtual_sol = match self.virtual_sol_reserves.checked_add(sol_input) {
            Some(v) => v,
            None => return Err(ErrorCode::ArithmeticOverflow),
        };
        let virtual_token = match self.virtual_token_reserves.checked_sub(token_output) {
            Some(v) => v,
            None => return Err(ErrorCode::ArithmeticUnderflow),
        };
        let real_sol = match self.real_sol_reserves.checked_add(sol_input) {
            Some(v) => v,
            None => return Err(ErrorCode::ArithmeticOverflow),
        };
        let real_token = match self.real_token_reserves.checked_sub(token_output) {
            Some(v) => v,
            None => return Err(ErrorCode::ArithmeticUnderflow),
        };
        self.virtual_sol_reserves = virtual_sol;
        self.virtual_token_reserves = virtual_token;
        self.real_sol_reserves = real_sol;
        self.real_token_reserves = real_token;
        Ok(())
    }

    /// Moves the reserves by a sale: `token_input` in on both token sides,
    /// `sol_output` out of both base sides. Fails, and changes nothing, where a
    /// reserve would leave the range of `u64`.
    pub fn update_reserves_sell(&mut self, token_input: u64, sol_output: u64) -> (r: Result<(), ErrorCode>)
        ensures
            match old(self).sell_reserves_error(token_input, sol_output) {
                Some(e) => r == Err::<(), ErrorCode>(e) && *final(self) == *old(self),
                None => r == Ok::<(), ErrorCode>(()) && *final(self) == old(self).after_sell(token_input, sol_output),
            },
    {
        let virtual_token = match self.virtual_token_reserves.checked_add(token_input) {
            Some(v) => v,
            None => return Err(ErrorCode::ArithmeticOverflow),
        };
        let virtual_sol = match self.virtual_sol_reserves.checked_sub(sol_output) {
            Some(v) => v,
            None => return Err(ErrorCode::ArithmeticUnderflow),
        };
        let real_token = match self.real_token_reserves.checked_add(token_input) {
            Some(v) => v,
            None => return Err(ErrorCode::ArithmeticOverflow),
        };
        let real_sol = match self.real_sol_reserves.checked_sub(sol_output) {
            Some(v) => v,
            None => return Err(ErrorCode::ArithmeticUnderflow),
        };
        self.virtual_token_reserves = virtual_token;
        self.virtual_sol_reserves = virtual_sol;
        self.real_token_reserves = real_token;
        self.real_sol_reserves = real_sol;
        Ok(())
    }
}

} // verus!
