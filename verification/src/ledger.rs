//! The global service ledger: configuration, audit counters, the global
//! ranking and the active-balance index.

use vstd::prelude::*;

use crate::balances::ActiveBalanceIndex;
use crate::effects::AccountId;
use crate::ranking::TopKRanking;

verus! {

/// How many contributors the service-wide ranking holds.
pub const GLOBAL_TOP_CAPACITY: usize = 10;

/// The one process-wide ledger of the donation service.
#[derive(Debug)]
pub struct ServiceLedger {
    /// The identity authorized to withdraw fees and trigger reward payouts.
    pub owner: AccountId,
    /// Monotonically increasing counter; the next campaign takes this value
    /// as its identifier, then it increments. Identifiers are never reused.
    pub campaign_count: u64,
    /// Fees collected and not yet withdrawn; reset to zero by a fee
    /// withdrawal.
    pub accumulated_fee: u64,
    /// Audit counter: gross currency ever contributed.
    pub total_donations: u64,
    /// Audit counter: fees waived for fee-exempt contributions.
    pub total_dropped_fee: u64,
    /// Audit counter: pooled balances of canceled campaigns.
    pub total_canceled_funds: u64,
    /// Integer service-fee percentage, between 0 and 100.
    pub fee_percent: u64,
    /// Loyalty-token volume at which a campaign's contributions become
    /// fee-exempt.
    pub fee_exemption_threshold: u64,
    /// Loyalty-token volume a campaign must strictly exceed to be
    /// cancelable.
    pub cancellation_threshold: u64,
    /// Configured cadence of reward payouts.
    pub reward_period: u64,
    /// Loyalty tokens minted to each rewarded top contributor.
    pub reward_amount: u64,
    /// Timestamp before which no reward payout may run.
    pub reward_cooldown_until: u64,
    /// The service-wide top-10 contributor ranking.
    pub global_top: TopKRanking,
    /// One entry per unfinished campaign, ordered by identifier.
    pub active_balances: ActiveBalanceIndex,
}

impl ServiceLedger {
    /// The fee percentage is a percentage, the rankings and the index are
    /// well formed, and every active campaign's identifier was allocated by
    /// the campaign counter.
    pub open spec fn wf(self) -> bool {
        &&& self.fee_percent <= 100
        &&& self.global_top.wf()
        &&& self.global_top.capacity == GLOBAL_TOP_CAPACITY
        &&& self.active_balances.wf()
        &&& forall|i: int|
            0 <= i < self.active_balances@.len() ==> self.active_balances@[i].id
                < self.campaign_count
    }

    /// Initializes the service: stores its configuration and owner, with
    /// every counter at zero, an empty global ranking and no active
    /// campaign. The reward cooldown starts elapsed.
    pub fn new(
        owner: AccountId,
        fee_percent: u64,
        fee_exemption_threshold: u64,
        cancellation_threshold: u64,
        reward_period: u64,
        reward_amount: u64,
    ) -> (r: ServiceLedger)
        requires
            fee_percent <= 100,
        ensures
            r.wf(),
            r.owner == owner,
            r.fee_percent == fee_percent,
            r.fee_exemption_threshold == fee_exemption_threshold,
            r.cancellation_threshold == cancellation_threshold,
            r.reward_period == reward_period,
            r.reward_amount == reward_amount,
            r.campaign_count == 0,
            r.accumulated_fee == 0,
            r.total_donations == 0,
            r.total_dropped_fee == 0,
            r.total_canceled_funds == 0,
            r.reward_cooldown_until == 0,
            r.global_top@ =~= Seq::<crate::ranking::RankEntry>::empty(),
            r.active_balances@ =~= Seq::<crate::balances::BalanceEntry>::empty(),
    {
        ServiceLedger {
            owner,
            campaign_count: 0,
            accumulated_fee: 0,
            total_donations: 0,
            total_dropped_fee: 0,
            total_canceled_funds: 0,
            fee_percent,
            fee_exemption_threshold,
            cancellation_threshold,
            reward_period,
            reward_amount,
            reward_cooldown_until: 0,
            global_top: TopKRanking::new(GLOBAL_TOP_CAPACITY),
            active_balances: ActiveBalanceIndex::new(),
        }
    }
}

} // verus!
