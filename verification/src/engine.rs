//! The operations of the donation engine.
//!
//! Each operation validates every precondition before touching any state; a
//! refused operation leaves the ledger, the campaign and the contributor
//! record exactly as they were and emits no effect. A successful operation
//! returns the external effects the host must execute atomically with the
//! state commit.

use vstd::prelude::*;

use crate::amount_math::spec_fee;
use crate::amount_math::spec_reward;
use crate::amount_math::spec_share;
use crate::amount_math::compute_fee;
use crate::balances::balance_of;
use crate::balances::find_pos;
use crate::balances::index_contains;
use crate::balances::redistribute_spec;
use crate::balances::sum_balances;
use crate::balances::BalanceEntry;
use crate::balances::ACTIVE_CAMPAIGN_LIMIT;
use crate::campaign::Campaign;
use crate::campaign::ContributorRecord;
use crate::campaign::CAMPAIGN_TOP_CAPACITY;
use crate::effects::AccountId;
use crate::effects::Custody;
use crate::effects::Effect;
use crate::errors::DonationError;
use crate::ledger::ServiceLedger;
use crate::ledger::GLOBAL_TOP_CAPACITY;
use crate::ranking::offer_spec;
use crate::ranking::RankEntry;
use crate::ranking::TopKRanking;

verus! {

/// What a loyalty-token contribution is counted toward: the fee-exemption
/// threshold or the cancellation threshold.
#[derive(Clone, Copy, Debug, PartialEq, Eq, Structural)]
pub enum TokenPurpose {
    FeeExemption,
    Cancellation,
}

/// The active-balance index and a campaign agree: the campaign's identifier
/// stands in the index exactly while the campaign is unfinished.
pub open spec fn campaign_consistent(ledger: ServiceLedger, campaign: Campaign) -> bool {
    campaign.is_finished <==> !index_contains(ledger.active_balances@, campaign.id)
}

/// A campaign's contributions are fee-exempt once its fee-exemption token
/// volume has reached the service's threshold.
pub open spec fn is_fee_exempt(ledger: ServiceLedger, campaign: Campaign) -> bool {
    campaign.fee_exempt_token_total >= ledger.fee_exemption_threshold
}

/// The fee actually charged on a gross contribution: zero when the campaign
/// is fee-exempt.
pub open spec fn charged_fee(ledger: ServiceLedger, campaign: Campaign, amount: u64) -> int {
    if is_fee_exempt(ledger, campaign) {
        0
    } else {
        spec_fee(amount, ledger.fee_percent)
    }
}

/// The fee waived on a gross contribution, recorded for audit: the would-be
/// fee when the campaign is fee-exempt, zero otherwise.
pub open spec fn waived_fee(ledger: ServiceLedger, campaign: Campaign, amount: u64) -> int {
    if is_fee_exempt(ledger, campaign) {
        spec_fee(amount, ledger.fee_percent)
    } else {
        0
    }
}

/// The payout a successful withdrawal transfers to the campaign's owner:
/// whatever the campaign has collected at the time of the call.
pub open spec fn withdraw_payout(campaign: Campaign) -> u64 {
    campaign.collected_amount
}

/// The campaign as a successful withdrawal leaves it: finished, with
/// nothing left to collect and everything else untouched.
pub open spec fn withdrawn(campaign: Campaign) -> Campaign {
    Campaign { collected_amount: 0, is_finished: true, ..campaign }
}

/// Withdrawal is idempotent in its effect on the collected amount: a
/// campaign that has already been withdrawn pays out zero, and withdrawing
/// it again leaves it exactly as it was.
pub proof fn lemma_withdraw_idempotent(campaign: Campaign)
    ensures
        withdraw_payout(withdrawn(campaign)) == 0,
        withdrawn(withdrawn(campaign)) == withdrawn(campaign),
{
}

/// Whether a cancellation passes validation: the campaign is unfinished
/// and its cancellation-token volume strictly exceeds the service's
/// threshold.
pub open spec fn cancel_accepted(ledger: ServiceLedger, campaign: Campaign) -> bool {
    !campaign.is_finished && campaign.cancellation_token_total > ledger.cancellation_threshold
}

/// Every balance a cancellation grows has room for its share, and the
/// canceled-funds audit counter has room for the pool. Machine limits, as
/// in `contribution_fits`.
pub open spec fn cancel_fits(ledger: ServiceLedger, campaign: Campaign) -> bool {
    cancel_accepted(ledger, campaign) ==> ({
        let s = ledger.active_balances@;
        let pool = balance_of(s, campaign.id);
        let rem = s.remove(find_pos(s, campaign.id));
        &&& ledger.total_canceled_funds + pool <= u64::MAX
        &&& forall|i: int|
            0 <= i < rem.len() ==> rem[i].balance + spec_share(
                pool,
                rem[i].balance,
                sum_balances(rem),
            ) <= u64::MAX
    })
}

/// The host-supplied destination wallets agree with the wallets recorded
/// for the up-to-three best entries of the global ranking; an empty slot
/// constrains nothing.
pub open spec fn reward_wallets_match(
    g: Seq<RankEntry>,
    wallet_1: AccountId,
    wallet_2: AccountId,
    wallet_3: AccountId,
) -> bool {
    &&& g.len() >= 1 ==> g[0].wallet == wallet_1
    &&& g.len() >= 2 ==> g[1].wallet == wallet_2
    &&& g.len() >= 3 ==> g[2].wallet == wallet_3
}

/// The mints a successful reward payout asks of the host: the configured
/// reward amount to each of the up-to-three best ranked wallets, best
/// first; empty slots are skipped.
pub open spec fn reward_effects(g: Seq<RankEntry>, reward_amount: u64) -> Seq<Effect> {
    if g.len() == 0 {
        Seq::<Effect>::empty()
    } else if g.len() == 1 {
        seq![(Effect::MintReward { wallet: g[0].wallet, amount: reward_amount })]
    } else if g.len() == 2 {
        seq![
            (Effect::MintReward { wallet: g[0].wallet, amount: reward_amount }),
            (Effect::MintReward { wallet: g[1].wallet, amount: reward_amount }),
        ]
    } else {
        seq![
            (Effect::MintReward { wallet: g[0].wallet, amount: reward_amount }),
            (Effect::MintReward { wallet: g[1].wallet, amount: reward_amount }),
            (Effect::MintReward { wallet: g[2].wallet, amount: reward_amount }),
        ]
    }
}

/// Every counter a currency contribution touches has room for it, so the
/// operation cannot overflow. These are machine limits, not rules of the
/// service; the host would have aborted on any of them.
pub open spec fn contribution_fits(
    ledger: ServiceLedger,
    campaign: Campaign,
    record: ContributorRecord,
    amount: u64,
) -> bool {
    (amount > 0 && !campaign.is_finished) ==> ({
        let fee = charged_fee(ledger, campaign, amount);
        let net = amount - fee;
        &&& record.cumulative_amount + amount <= u64::MAX
        &&& campaign.collected_amount + net <= u64::MAX
        &&& ledger.accumulated_fee + fee <= u64::MAX
        &&& ledger.total_dropped_fee + waived_fee(ledger, campaign, amount) <= u64::MAX
        &&& ledger.total_donations + amount <= u64::MAX
        &&& balance_of(ledger.active_balances@, campaign.id) + net <= u64::MAX
        &&& spec_reward(amount) <= u64::MAX
    })
}

/// The effects a successful currency contribution asks of the host: the net
/// amount to the campaign's custody, the fee (when nonzero) to the
/// service's custody, and the loyalty-token reward minted to the named
/// wallet at the fixed 101:1 ratio.
pub open spec fn contribution_effects(
    caller: AccountId,
    campaign_id: u64,
    amount: u64,
    fee: int,
    reward_wallet: AccountId,
) -> Seq<Effect> {
    let to_campaign = (Effect::TransferCurrency {
        from: Custody::Account(caller),
        to: Custody::Campaign(campaign_id),
        amount: (amount - fee) as u64,
    });
    let mint = (Effect::MintReward { wallet: reward_wallet, amount: spec_reward(amount) as u64 });
    if fee > 0 {
        seq![
            to_campaign,
            (Effect::TransferCurrency {
                from: Custody::Account(caller),
                to: Custody::Service,
                amount: fee as u64,
            }),
            mint,
        ]
    } else {
        seq![to_campaign, mint]
    }
}

impl ServiceLedger {
    /// Allocates the next campaign identifier, registers it with a zero
    /// balance in the active-balance index, and returns the new campaign
    /// for the host to persist. Fails with `ActiveLimitExceeded` exactly
    /// when the index is already at its bound. No currency moves.
    pub fn create_campaign(&mut self, caller: AccountId) -> (r: Result<Campaign, DonationError>)
        requires
            old(self).wf(),
            old(self).campaign_count < u64::MAX,
        ensures
            final(self).wf(),
            r is Ok <==> old(self).active_balances@.len() < ACTIVE_CAMPAIGN_LIMIT,
            r is Err ==> *final(self) == *old(self),
            r matches Err(e) ==> e == DonationError::ActiveLimitExceeded,
            r matches Ok(c) ==> ({
                &&& c.wf()
                &&& c.owner == caller
                &&& c.id == old(self).campaign_count
                &&& c.collected_amount == 0
                &&& c.fee_exempt_token_total == 0
                &&& c.cancellation_token_total == 0
                &&& !c.is_finished
                &&& c.local_top@ == Seq::<RankEntry>::empty()
                &&& campaign_consistent(*final(self), c)
                &&& final(self).campaign_count == old(self).campaign_count + 1
                &&& final(self).active_balances@ == old(self).active_balances@.push(
                    (BalanceEntry { id: c.id, balance: 0 }),
                )
                &&& final(self).owner == old(self).owner
                &&& final(self).accumulated_fee == old(self).accumulated_fee
                &&& final(self).total_donations == old(self).total_donations
                &&& final(self).total_dropped_fee == old(self).total_dropped_fee
                &&& final(self).total_canceled_funds == old(self).total_canceled_funds
                &&& final(self).fee_percent == old(self).fee_percent
                &&& final(self).fee_exemption_threshold == old(self).fee_exemption_threshold
                &&& final(self).cancellation_threshold == old(self).cancellation_threshold
                &&& final(self).reward_period == old(self).reward_period
                &&& final(self).reward_amount == old(self).reward_amount
                &&& final(self).reward_cooldown_until == old(self).reward_cooldown_until
                &&& final(self).global_top@ == old(self).global_top@
            }),
    {
        if self.active_balances.len() >= ACTIVE_CAMPAIGN_LIMIT {
            return Err(DonationError::ActiveLimitExceeded);
        }
        let ghost s = self.active_balances@;
        let new_id = self.campaign_count;
        proof {
            if index_contains(s, new_id) {
                let w = choose|i: int| 0 <= i < s.len() && s[i].id == new_id;
                assert(s[w].id < self.campaign_count);
            }
            crate::balances::lemma_id_insert_pos(s, new_id);
            let p = crate::balances::id_insert_pos(s, new_id);
            if p < s.len() {
                assert(s[p].id < self.campaign_count);
            }
            assert(p == s.len());
        }
        self.campaign_count = self.campaign_count + 1;
        match self.active_balances.insert(new_id, 0) {
            Ok(_) => {},
            Err(_) => {
                proof {
                    assert(false);
                }
                return Err(DonationError::CapacityExceeded);
            },
        }
        proof {
            assert(self.active_balances@ =~= s.push(BalanceEntry { id: new_id, balance: 0 }));
            assert(self.active_balances@[s.len() as int].id == new_id);
            assert(index_contains(self.active_balances@, new_id));
        }
        Ok(
            Campaign {
                owner: caller,
                id: new_id,
                collected_amount: 0,
                fee_exempt_token_total: 0,
                cancellation_token_total: 0,
                is_finished: false,
                local_top: TopKRanking::new(CAMPAIGN_TOP_CAPACITY),
            },
        )
    }

    /// Accepts a currency contribution to an unfinished campaign. The fee
    /// is computed from the service's percentage unless the campaign is
    /// fee-exempt, in which case the would-be fee is only recorded as
    /// waived; the net amount is credited to the campaign and to its
    /// active-balance entry, the contributor's cumulative gross total grows
    /// and is offered to both rankings keyed by the named reward wallet,
    /// and the host is asked to move the currency and mint the 101:1
    /// loyalty reward. Fails with `ZeroAmount` on a zero contribution and
    /// with `CampaignFinished` on a finished campaign; a refused
    /// contribution changes nothing.
    pub fn contribute_currency(
        &mut self,
        campaign: &mut Campaign,
        record: &mut ContributorRecord,
        caller: AccountId,
        amount: u64,
        reward_wallet: AccountId,
    ) -> (r: Result<Vec<Effect>, DonationError>)
        requires
            old(self).wf(),
            old(campaign).wf(),
            campaign_consistent(*old(self), *old(campaign)),
            contribution_fits(*old(self), *old(campaign), *old(record), amount),
        ensures
            final(self).wf(),
            final(campaign).wf(),
            campaign_consistent(*final(self), *final(campaign)),
            r is Ok <==> (amount > 0 && !old(campaign).is_finished),
            r is Err ==> *final(self) == *old(self) && *final(campaign) == *old(campaign)
                && *final(record) == *old(record),
            r matches Err(e) ==> e == (if amount == 0 {
                DonationError::ZeroAmount
            } else {
                DonationError::CampaignFinished
            }),
            r matches Ok(effects) ==> ({
                let fee = charged_fee(*old(self), *old(campaign), amount);
                let net = amount - fee;
                let new_cum = (old(record).cumulative_amount + amount) as u64;
                let s = old(self).active_balances@;
                let cid = old(campaign).id;
                &&& final(record).cumulative_amount == old(record).cumulative_amount + amount
                &&& final(record).reward_wallet == reward_wallet
                &&& *final(campaign) == (Campaign {
                    collected_amount: (old(campaign).collected_amount + net) as u64,
                    local_top: final(campaign).local_top,
                    ..*old(campaign)
                })
                &&& final(campaign).local_top@ == offer_spec(
                    old(campaign).local_top@,
                    CAMPAIGN_TOP_CAPACITY as int,
                    new_cum,
                    reward_wallet,
                )
                &&& *final(self) == (ServiceLedger {
                    accumulated_fee: (old(self).accumulated_fee + fee) as u64,
                    total_dropped_fee: (old(self).total_dropped_fee + waived_fee(
                        *old(self),
                        *old(campaign),
                        amount,
                    )) as u64,
                    total_donations: (old(self).total_donations + amount) as u64,
                    global_top: final(self).global_top,
                    active_balances: final(self).active_balances,
                    ..*old(self)
                })
                &&& final(self).global_top@ == offer_spec(
                    old(self).global_top@,
                    GLOBAL_TOP_CAPACITY as int,
                    new_cum,
                    reward_wallet,
                )
                &&& final(self).active_balances@ == s.update(
                    find_pos(s, cid),
                    (BalanceEntry { id: cid, balance: (balance_of(s, cid) + net) as u64 }),
                )
                &&& effects@ == contribution_effects(caller, cid, amount, fee, reward_wallet)
            }),
    {
        if amount == 0 {
            return Err(DonationError::ZeroAmount);
        }
        if campaign.is_finished {
            return Err(DonationError::CampaignFinished);
        }
        let ghost s = self.active_balances@;
        let exempt = campaign.fee_exempt_token_total >= self.fee_exemption_threshold;
        let potential_fee = compute_fee(amount, self.fee_percent);
        let fee: u64 = if exempt {
            0
        } else {
            potential_fee
        };
        let net_amount = amount - fee;
        match self.active_balances.add_to_balance(campaign.id, net_amount) {
            Ok(_) => {},
            Err(_) => {
                proof {
                    assert(false);
                }
                return Err(DonationError::NotFound);
            },
        }
        proof {
            crate::balances::lemma_find_pos(s, campaign.id);
            let p = find_pos(s, campaign.id);
            assert forall|i: int| 0 <= i < self.active_balances@.len() implies self.active_balances@[i].id
                == s[i].id by {
                if i != p {
                    assert(self.active_balances@[i] == s[i]);
                }
            }
            assert(index_contains(self.active_balances@, campaign.id)) by {
                assert(self.active_balances@[p].id == campaign.id);
            }
        }
        record.cumulative_amount = record.cumulative_amount + amount;
        record.reward_wallet = reward_wallet;
        campaign.collected_amount = campaign.collected_amount + net_amount;
        self.accumulated_fee = self.accumulated_fee + fee;
        if exempt {
            self.total_dropped_fee = self.total_dropped_fee + potential_fee;
        }
        self.total_donations = self.total_donations + amount;
        let new_cum = record.cumulative_amount;
        campaign.local_top.offer(new_cum, reward_wallet);
        self.global_top.offer(new_cum, reward_wallet);
        let reward = amount * 101;
        let mut effects: Vec<Effect> = Vec::new();
        effects.push(
            Effect::TransferCurrency {
                from: Custody::Account(caller),
                to: Custody::Campaign(campaign.id),
                amount: net_amount,
            },
        );
        if fee > 0 {
            effects.push(
                Effect::TransferCurrency {
                    from: Custody::Account(caller),
                    to: Custody::Service,
                    amount: fee,
                },
            );
        }
        effects.push(Effect::MintReward { wallet: reward_wallet, amount: reward });
        proof {
            assert(effects@ =~= contribution_effects(
                caller,
                campaign.id,
                amount,
                charged_fee(*old(self), *old(campaign), amount),
                reward_wallet,
            ));
        }
        Ok(effects)
    }

    /// Pays a campaign's collected funds out to its owner, marks it
    /// finished and drops its entry from the active-balance index (the
    /// pooled index balance is discarded, not redistributed). Fails with
    /// `NotCampaignOwner` exactly when the caller is not the campaign's
    /// owner. Withdrawing is deliberately not gated on the finished flag:
    /// a second withdrawal is safe and transfers zero.
    pub fn withdraw(&mut self, campaign: &mut Campaign, caller: AccountId) -> (r: Result<
        Vec<Effect>,
        DonationError,
    >)
        requires
            old(self).wf(),
            old(campaign).wf(),
            campaign_consistent(*old(self), *old(campaign)),
        ensures
            final(self).wf(),
            final(campaign).wf(),
            campaign_consistent(*final(self), *final(campaign)),
            r is Ok <==> caller == old(campaign).owner,
            r is Err ==> *final(self) == *old(self) && *final(campaign) == *old(campaign),
            r matches Err(e) ==> e == DonationError::NotCampaignOwner,
            r matches Ok(effects) ==> ({
                let s = old(self).active_balances@;
                let cid = old(campaign).id;
                &&& *final(campaign) == withdrawn(*old(campaign))
                &&& *final(self) == (ServiceLedger {
                    active_balances: final(self).active_balances,
                    ..*old(self)
                })
                &&& final(self).active_balances@ == (if old(campaign).is_finished {
                    s
                } else {
                    s.remove(find_pos(s, cid))
                })
                &&& !index_contains(final(self).active_balances@, cid)
                &&& effects@ == seq![
                    (Effect::TransferCurrency {
                        from: Custody::Campaign(cid),
                        to: Custody::Account(caller),
                        amount: withdraw_payout(*old(campaign)),
                    }),
                ]
            }),
    {
        if caller != campaign.owner {
            return Err(DonationError::NotCampaignOwner);
        }
        if !campaign.is_finished {
            let ghost s = self.active_balances@;
            match self.active_balances.remove(campaign.id) {
                Ok(_) => {},
                Err(_) => {
                    proof {
                        assert(false);
                    }
                    return Err(DonationError::NotFound);
                },
            }
            proof {
                let p = find_pos(s, campaign.id);
                crate::balances::lemma_find_pos(s, campaign.id);
                s.remove_ensures(p);
                assert forall|i: int| 0 <= i < self.active_balances@.len() implies self.active_balances@[i].id
                    < self.campaign_count by {
                    if i < p {
                        assert(self.active_balances@[i] == s[i]);
                    } else {
                        assert(self.active_balances@[i] == s[i + 1]);
                    }
                }
            }
        }
        campaign.is_finished = true;
        let payout = campaign.collected_amount;
        campaign.collected_amount = 0;
        let mut effects: Vec<Effect> = Vec::new();
        effects.push(
            Effect::TransferCurrency {
                from: Custody::Campaign(campaign.id),
                to: Custody::Account(caller),
                amount: payout,
            },
        );
        Ok(effects)
    }

    /// Cancels an unfinished campaign whose cancellation-token volume
    /// strictly exceeds the service's threshold, marks it finished, removes
    /// its entry from the active-balance index and redistributes the pooled
    /// balance over the remaining active campaigns in proportion to their
    /// balances. Truncating division means the redistributed total may fall
    /// short of the pool; the remainder is deliberately dropped. No
    /// currency moves at cancellation time: the redistributed funds become
    /// available through the receiving campaigns' own withdrawals.
    pub fn cancel(&mut self, campaign: &mut Campaign, _caller: AccountId) -> (r: Result<
        Vec<Effect>,
        DonationError,
    >)
        requires
            old(self).wf(),
            old(campaign).wf(),
            campaign_consistent(*old(self), *old(campaign)),
            cancel_fits(*old(self), *old(campaign)),
        ensures
            final(self).wf(),
            final(campaign).wf(),
            campaign_consistent(*final(self), *final(campaign)),
            r is Ok <==> cancel_accepted(*old(self), *old(campaign)),
            r is Err ==> *final(self) == *old(self) && *final(campaign) == *old(campaign),
            r matches Err(e) ==> e == (if old(campaign).is_finished {
                DonationError::CampaignFinished
            } else {
                DonationError::InsufficientCancellationTokens
            }),
            r matches Ok(effects) ==> ({
                let s = old(self).active_balances@;
                let cid = old(campaign).id;
                let pool = balance_of(s, cid);
                let rem = s.remove(find_pos(s, cid));
                &&& *final(campaign) == (Campaign {
                    is_finished: true,
                    local_top: final(campaign).local_top,
                    ..*old(campaign)
                })
                &&& final(campaign).local_top@ == old(campaign).local_top@
                &&& *final(self) == (ServiceLedger {
                    total_canceled_funds: (old(self).total_canceled_funds + pool) as u64,
                    active_balances: final(self).active_balances,
                    ..*old(self)
                })
                &&& final(self).active_balances@ == redistribute_spec(rem, pool)
                &&& !index_contains(final(self).active_balances@, cid)
                &&& sum_balances(final(self).active_balances@) <= sum_balances(rem) + pool
                &&& sum_balances(final(self).active_balances@) <= sum_balances(s)
                &&& effects@ == Seq::<Effect>::empty()
            }),
    {
        if campaign.is_finished {
            return Err(DonationError::CampaignFinished);
        }
        if campaign.cancellation_token_total <= self.cancellation_threshold {
            return Err(DonationError::InsufficientCancellationTokens);
        }
        let ghost s = self.active_balances@;
        proof {
            crate::balances::lemma_find_pos(s, campaign.id);
        }
        campaign.is_finished = true;
        let pool = match self.active_balances.remove(campaign.id) {
            Ok(b) => b,
            Err(_) => {
                proof {
                    assert(false);
                }
                return Err(DonationError::NotFound);
            },
        };
        self.total_canceled_funds = self.total_canceled_funds + pool;
        let ghost rem = self.active_balances@;
        self.active_balances.redistribute(pool);
        proof {
            crate::balances::lemma_sum_remove(s, find_pos(s, campaign.id));
            s.remove_ensures(find_pos(s, campaign.id));
            assert forall|i: int| 0 <= i < self.active_balances@.len() implies self.active_balances@[i].id
                == rem[i].id by {}
            assert forall|i: int| 0 <= i < self.active_balances@.len() implies self.active_balances@[i].id
                < self.campaign_count by {
                let p = find_pos(s, campaign.id);
                if i < p {
                    assert(rem[i] == s[i]);
                } else {
                    assert(rem[i] == s[i + 1]);
                }
            }
            assert(!index_contains(self.active_balances@, campaign.id)) by {
                if index_contains(self.active_balances@, campaign.id) {
                    let w = choose|i: int|
                        0 <= i < self.active_balances@.len() && self.active_balances@[i].id
                            == campaign.id;
                    assert(rem[w].id == campaign.id);
                }
            }
        }
        Ok(Vec::new())
    }

    /// Mints the configured reward to the wallets of the up-to-three best
    /// global top contributors, against host-supplied destination wallets
    /// that must match the recorded ones. Fails with `NotOwner` for anyone
    /// but the service owner, with `TooEarly` while the cooldown timestamp
    /// lies in the future, and with `InvalidWalletAccount` on the first
    /// mismatched wallet; empty ranking slots are skipped, not errors. On
    /// success the cooldown is set to the supplied current time.
    pub fn reward_top_donaters(
        &mut self,
        caller: AccountId,
        current_time: u64,
        wallet_1: AccountId,
        wallet_2: AccountId,
        wallet_3: AccountId,
    ) -> (r: Result<Vec<Effect>, DonationError>)
        requires
            old(self).wf(),
        ensures
            final(self).wf(),
            r is Ok <==> (caller == old(self).owner && old(self).reward_cooldown_until
                <= current_time && reward_wallets_match(
                old(self).global_top@,
                wallet_1,
                wallet_2,
                wallet_3,
            )),
            r is Err ==> *final(self) == *old(self),
            r matches Err(e) ==> e == (if caller != old(self).owner {
                DonationError::NotOwner
            } else if current_time < old(self).reward_cooldown_until {
                DonationError::TooEarly
            } else {
                DonationError::InvalidWalletAccount
            }),
            r matches Ok(effects) ==> ({
                &&& *final(self) == (ServiceLedger {
                    reward_cooldown_until: current_time,
                    ..*old(self)
                })
                &&& effects@ == reward_effects(old(self).global_top@, old(self).reward_amount)
            }),
    {
        if caller != self.owner {
            return Err(DonationError::NotOwner);
        }
        if current_time < self.reward_cooldown_until {
            return Err(DonationError::TooEarly);
        }
        let mut effects: Vec<Effect> = Vec::new();
        match self.global_top.get(0) {
            Some(e) => {
                if e.wallet != wallet_1 {
                    return Err(DonationError::InvalidWalletAccount);
                }
                effects.push(Effect::MintReward { wallet: e.wallet, amount: self.reward_amount });
            },
            None => {},
        }
        match self.global_top.get(1) {
            Some(e) => {
                if e.wallet != wallet_2 {
                    return Err(DonationError::InvalidWalletAccount);
                }
                effects.push(Effect::MintReward { wallet: e.wallet, amount: self.reward_amount });
            },
            None => {},
        }
        match self.global_top.get(2) {
            Some(e) => {
                if e.wallet != wallet_3 {
                    return Err(DonationError::InvalidWalletAccount);
                }
                effects.push(Effect::MintReward { wallet: e.wallet, amount: self.reward_amount });
            },
            None => {},
        }
        self.reward_cooldown_until = current_time;
        proof {
            assert(effects@ =~= reward_effects(self.global_top@, self.reward_amount));
        }
        Ok(effects)
    }

    /// Pays the accumulated service fee out to the service owner and zeroes
    /// it. Fails with `NotOwner` exactly when the caller is not the owner.
    pub fn withdraw_fee(&mut self, caller: AccountId) -> (r: Result<Vec<Effect>, DonationError>)
        requires
            old(self).wf(),
        ensures
            final(self).wf(),
            r is Ok <==> caller == old(self).owner,
            r is Err ==> *final(self) == *old(self),
            r matches Err(e) ==> e == DonationError::NotOwner,
            r matches Ok(effects) ==> ({
                &&& *final(self) == (ServiceLedger { accumulated_fee: 0, ..*old(self) })
                &&& effects@ == seq![
                    (Effect::TransferCurrency {
                        from: Custody::Service,
                        to: Custody::Account(caller),
                        amount: old(self).accumulated_fee,
                    }),
                ]
            }),
    {
        if caller != self.owner {
            return Err(DonationError::NotOwner);
        }
        let payout = self.accumulated_fee;
        self.accumulated_fee = 0;
        let mut effects: Vec<Effect> = Vec::new();
        effects.push(
            Effect::TransferCurrency {
                from: Custody::Service,
                to: Custody::Account(caller),
                amount: payout,
            },
        );
        Ok(effects)
    }
}

/// Moves loyalty tokens from the caller's holding into the campaign's and
/// counts them toward the chosen threshold. Never fails, and deliberately
/// does not check whether the campaign is finished. No currency moves.
pub fn contribute_token(
    campaign: &mut Campaign,
    caller: AccountId,
    amount: u64,
    purpose: TokenPurpose,
) -> (r: Result<Vec<Effect>, DonationError>)
    requires
        old(campaign).wf(),
        purpose == TokenPurpose::FeeExemption ==> old(campaign).fee_exempt_token_total + amount
            <= u64::MAX,
        purpose == TokenPurpose::Cancellation ==> old(campaign).cancellation_token_total + amount
            <= u64::MAX,
    ensures
        final(campaign).wf(),
        r is Ok,
        r matches Ok(effects) ==> ({
            &&& final(campaign).fee_exempt_token_total == old(campaign).fee_exempt_token_total + (
            if purpose == TokenPurpose::FeeExemption {
                amount as int
            } else {
                0
            })
            &&& final(campaign).cancellation_token_total == old(
                campaign,
            ).cancellation_token_total + (if purpose == TokenPurpose::Cancellation {
                amount as int
            } else {
                0
            })
            &&& final(campaign).owner == old(campaign).owner
            &&& final(campaign).id == old(campaign).id
            &&& final(campaign).collected_amount == old(campaign).collected_amount
            &&& final(campaign).is_finished == old(campaign).is_finished
            &&& final(campaign).local_top@ == old(campaign).local_top@
            &&& final(campaign).local_top.capacity == old(campaign).local_top.capacity
            &&& effects@ == seq![
                (Effect::TransferToken {
                    from: Custody::Account(caller),
                    to: Custody::Campaign(old(campaign).id),
                    amount,
                }),
            ]
        }),
{
    match purpose {
        TokenPurpose::FeeExemption => {
            campaign.fee_exempt_token_total = campaign.fee_exempt_token_total + amount;
        },
        TokenPurpose::Cancellation => {
            campaign.cancellation_token_total = campaign.cancellation_token_total + amount;
        },
    }
    let mut effects: Vec<Effect> = Vec::new();
    effects.push(
        Effect::TransferToken {
            from: Custody::Account(caller),
            to: Custody::Campaign(campaign.id),
            amount,
        },
    );
    Ok(effects)
}

} // verus!
