use vstd::prelude::*;

use crate::address::Address;
use crate::constants::MAX_PLATFORM_FEE_RATE;

verus! {

/// The platform's configuration and aggregate counters; one per deployment.
#[derive(Clone, Copy, Debug, PartialEq, Eq)]
pub struct ProgramState {
    /// Whether initialization has run.
    pub initialized: bool,
    /// Number of tokens created so far; also the id of the latest one.
    pub token_count: u64,
    /// Platform fee rate in basis points.
    pub platform_fee_rate: u64,
    /// Real base reserves a curve needs before it can launch, in lamports.
    pub launch_threshold: u64,
    /// Identity allowed to change the configuration.
    pub platform_authority: Address,
    /// Identity that receives withdrawn platform fees.
    pub platform_treasury: Address,
    /// Launch fees collected by the platform.
    pub total_fees_collected: u64,
    /// Emergency pause: while set, nothing trades, launches or is created.
    pub is_paused: bool,
    /// Time of initialization, in seconds.
    pub initialized_at: i64,
}

impl ProgramState {
    /// The configuration invariant: the fee rate stays within its cap.
    pub open spec fn wf(&self) -> bool {
        self.platform_fee_rate <= MAX_PLATFORM_FEE_RATE
    }
}

} // verus!
