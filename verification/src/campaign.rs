//! Per-campaign state and per-contributor records.

use vstd::prelude::*;

use crate::effects::AccountId;
use crate::ranking::TopKRanking;

verus! {

/// How many contributors a campaign's own ranking holds.
pub const CAMPAIGN_TOP_CAPACITY: usize = 3;

/// The mutable state of one fundraising campaign. A campaign is created
/// once, lives through contributions, and is archived — never deleted —
/// once finished.
#[derive(Debug)]
pub struct Campaign {
    /// The identity entitled to withdraw the collected funds.
    pub owner: AccountId,
    /// Unique identifier, assigned at creation from the ledger's campaign
    /// counter; never reused.
    pub id: u64,
    /// Settlement currency collected net of fees; zeroed on withdrawal.
    pub collected_amount: u64,
    /// Loyalty tokens contributed toward the fee-exemption threshold.
    pub fee_exempt_token_total: u64,
    /// Loyalty tokens contributed toward the cancellation threshold.
    pub cancellation_token_total: u64,
    /// One-way flag: once true, contributions and cancellation are refused.
    pub is_finished: bool,
    /// The campaign's own top-3 contributor ranking.
    pub local_top: TopKRanking,
}

impl Campaign {
    /// The campaign's ranking has its fixed capacity and is well formed.
    pub open spec fn wf(self) -> bool {
        &&& self.local_top.wf()
        &&& self.local_top.capacity == CAMPAIGN_TOP_CAPACITY
    }
}

/// The cumulative record of one contributor within one campaign, created at
/// the first contribution and never deleted. The host's storage owns one
/// record per (campaign, contributor) pair, zero-initialized on first
/// access.
#[derive(Clone, Copy, Debug, PartialEq, Eq, Structural)]
pub struct ContributorRecord {
    /// Gross settlement currency this contributor has sent to this
    /// campaign, cumulatively.
    pub cumulative_amount: u64,
    /// The reward-token destination most recently named by this
    /// contributor; overwritten on every contribution, last write wins.
    pub reward_wallet: AccountId,
}

impl ContributorRecord {
    /// The zero value a record holds before its first contribution.
    pub fn new() -> (r: ContributorRecord)
        ensures
            r.cumulative_amount == 0,
            r.reward_wallet == 0,
    {
        ContributorRecord { cumulative_amount: 0, reward_wallet: 0 }
    }
}

} // verus!
