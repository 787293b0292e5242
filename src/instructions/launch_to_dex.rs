use vstd::prelude::*;

use crate::address::Address;
use crate::constants::{BPS_DENOMINATOR, LAUNCH_LIQUIDITY_SHARE, MIN_TRADING_TIME};
use crate::errors::ErrorCode;
use crate::states::{BondingCurve, ProgramState, TokenInfo, Transaction, TransactionType};

verus! {

/// The records a launch reads and changes, and who launches.
#[derive(Clone, Debug, PartialEq, Eq)]
pub struct LaunchToDexCtx {
    /// Platform configuration; collects the launch fee.
    pub program_state: ProgramState,
    /// Lifecycle record of the token launched.
    pub token_info: TokenInfo,
    /// Reserve ledger of the token launched.
    pub bonding_curve: BondingCurve,
    /// Identity that starts the launch.
    pub launcher: Address,
}

/// Creator's share of `total` at launch: 80%, rounded down.
pub open spec fn liquidity_share(total: nat) -> nat {
    total * (LAUNCH_LIQUIDITY_SHARE as nat) / (BPS_DENOMINATOR as nat)
}

impl LaunchToDexCtx {
    /// Whether the token is still too young to launch at time `now`.
    pub open spec fn cooling_down(&self, now: i64) -> bool {
        now - self.token_info.created_at < MIN_TRADING_TIME
    }

    /// The first check a launch of `token_id` as ledger entry `next_tx_id` at
    /// time `now` fails, in the order they are made; `None` where it goes through.
    pub open spec fn launch_error(&self, token_id: u64, next_tx_id: u64, now: i64) -> Option<ErrorCode> {
        let ti = self.token_info;
        let total = self.bonding_curve.real_sol_reserves;
        if self.program_state.is_paused {
            Some(ErrorCode::TradingNotActive)
        } else if ti.token_id != token_id {
            Some(ErrorCode::TokenNotFound)
        } else if ti.launched_to_dex {
            Some(ErrorCode::TokenAlreadyLaunched)
        } else if total < self.program_state.launch_threshold {
            Some(ErrorCode::LaunchThresholdNotMet)
        } else if self.cooling_down(now) {
            Some(ErrorCode::LaunchCooldownActive)
        } else if ti.transaction_count + 1 > u64::MAX || next_tx_id != ti.transaction_count + 1 {
            Some(ErrorCode::ArithmeticOverflow)
        } else if total * LAUNCH_LIQUIDITY_SHARE > u64::MAX {
            Some(ErrorCode::ArithmeticOverflow)
        } else if self.program_state.total_fees_collected + (total - liquidity_share(total as nat)) > u64::MAX {
            Some(ErrorCode::ArithmeticOverflow)
        } else {
            None
        }
    }

    /// The records after a successful launch at time `now`: the token is
    /// launched and stops trading, the curve is closed and emptied, and the
    /// platform counts the launch fee.
    pub open spec fn after_launch(&self, next_tx_id: u64, now: i64) -> LaunchToDexCtx {
        let total = self.bonding_curve.real_sol_reserves;
        let fee = total - liquidity_share(total as nat);
        LaunchToDexCtx {
            program_state: ProgramState {
                total_fees_collected: (self.program_state.total_fees_collected + fee) as u64,
                ..self.program_state
            },
            token_info: TokenInfo {
                launched_to_dex: true,
                launched_at: Some(now),
                trading_active: false,
                transaction_count: next_tx_id,
                ..self.token_info
            },
            bonding_curve: BondingCurve {
                real_sol_reserves: 0,
                active: false,
                last_updated: now,
                ..self.bonding_curve
            },
            ..*self
        }
    }

    /// The ledger entry of a successful launch: the whole pre-split reserve as
    /// its amount and the platform's 20% as its fee.
    pub open spec fn launch_record(&self, token_id: u64, next_tx_id: u64, now: i64) -> Transaction {
        let total = self.bonding_curve.real_sol_reserves;
        Transaction {
            transaction_id: next_tx_id,
            token_id,
            user: self.launcher,
            transaction_type: TransactionType::Launch,
            sol_amount: total,
            token_amount: 0,
            price: 0,
            platform_fee: (total - liquidity_share(total as nat)) as u64,
            creator_fee: 0,
            timestamp: now,
        }
    }
}

/// Launches `token_id` off the curve at time `now`, as ledger entry `next_tx_id`,
/// which must follow the token's last entry.
///
/// The curve's real base reserves split 80/20: the creator receives 80% as
/// liquidity, the platform the rest as its fee, and the two parts add up to
/// the whole. On success the records are updated and the launch entry is
/// returned: the caller settles it by handing mint authority to the creator,
/// paying `net_sol_amount()` to the creator and `platform_fee` to the
/// platform. On failure, including on a token already launched, nothing changes.
pub fn launch_to_dex(ctx: &mut LaunchToDexCtx, token_id: u64, next_tx_id: u64, now: i64) -> (r: Result<Transaction, ErrorCode>)
    ensures
        match old(ctx).launch_error(token_id, next_tx_id, now) {
            Some(e) => r == Err::<Transaction, ErrorCode>(e) && *final(ctx) == *old(ctx),
            None => r == Ok::<Transaction, ErrorCode>(old(ctx).launch_record(token_id, next_tx_id, now))
                && *final(ctx) == old(ctx).after_launch(next_tx_id, now),
        },
        r matches Ok(t) ==> t.platform_fee + t.creator_fee <= t.sol_amount
            && liquidity_share(t.sol_amount as nat) + t.platform_fee == t.sol_amount,
{
    if ctx.program_state.is_paused {
        return Err(ErrorCode::TradingNotActive);
    }
    if ctx.token_info.token_id != token_id {
        return Err(ErrorCode::TokenNotFound);
    }
    if ctx.token_info.launched_to_dex {
        return Err(ErrorCode::TokenAlreadyLaunched);
    }
    if ctx.bonding_curve.real_sol_reserves < ctx.program_state.launch_threshold {
        return Err(ErrorCode::LaunchThresholdNotMet);
    }
    let created_at = ctx.token_info.created_at;
    let cooling_down = if created_at > i64::MAX - MIN_TRADING_TIME {
        true
    } else {
        now < created_at + MIN_TRADING_TIME
    };
    if cooling_down {
        return Err(ErrorCode::LaunchCooldownActive);
    }
    let expected_id = match ctx.token_info.transaction_count.checked_add(1) {
        Some(v) => v,
        None => return Err(ErrorCode::ArithmeticOverflow),
    };
    if next_tx_id != expected_id {
        return Err(ErrorCode::ArithmeticOverflow);
    }

    let total_reserves = ctx.bonding_curve.real_sol_reserves;
    let sol_for_liquidity = match total_reserves.checked_mul(LAUNCH_LIQUIDITY_SHARE) {
        Some(v) => v / BPS_DENOMINATOR,
        None => return Err(ErrorCode::ArithmeticOverflow),
    };
    let platform_launch_fee = total_reserves - sol_for_liquidity;
    let fees_collected = match ctx.program_state.total_fees_collected.checked_add(platform_launch_fee) {
        Some(v) => v,
        None => return Err(ErrorCode::ArithmeticOverflow),
    };

    ctx.token_info.launched_to_dex = true;
    ctx.token_info.launched_at = Some(now);
    ctx.token_info.trading_active = false;
    ctx.token_info.transaction_count = next_tx_id;
    ctx.bonding_curve.real_sol_reserves = 0;
    ctx.bonding_curve.active = false;
    ctx.bonding_curve.last_updated = now;
    ctx.program_state.total_fees_collected = fees_collected;

    Ok(Transaction {
        transaction_id: next_tx_id,
        token_id,
        user: ctx.launcher,
        transaction_type: TransactionType::Launch,
        sol_amount: total_reserves,
        token_amount: 0,
        price: 0,
        platform_fee: platform_launch_fee,
        creator_fee: 0,
        timestamp: now,
    })
}

} // verus!
