use donation_ledger::campaign::ContributorRecord;
use donation_ledger::effects::Custody;
use donation_ledger::effects::Effect;
use donation_ledger::engine::contribute_token;
use donation_ledger::engine::TokenPurpose;
use donation_ledger::errors::DonationError;
use donation_ledger::ledger::ServiceLedger;

const OWNER: u64 = 1;

#[test]
fn contribution_splits_fee_net_and_reward() {
    let mut ledger = ServiceLedger::new(OWNER, 5, 1_000_000, 0, 3600, 77);
    let mut campaign = ledger.create_campaign(2).unwrap();
    let mut record = ContributorRecord::new();
    let effects = ledger.contribute_currency(&mut campaign, &mut record, 3, 1000, 31).unwrap();
    assert_eq!(
        effects,
        vec![
            Effect::TransferCurrency {
                from: Custody::Account(3),
                to: Custody::Campaign(0),
                amount: 950,
            },
            Effect::TransferCurrency { from: Custody::Account(3), to: Custody::Service, amount: 50 },
            Effect::MintReward { wallet: 31, amount: 101000 },
        ]
    );
    assert_eq!(campaign.collected_amount, 950);
    assert_eq!(ledger.accumulated_fee, 50);
    assert_eq!(ledger.total_donations, 1000);
    assert_eq!(ledger.total_dropped_fee, 0);
    assert_eq!(record.cumulative_amount, 1000);
    assert_eq!(record.reward_wallet, 31);
    // The active balance grows by the net amount.
    assert_eq!(ledger.active_balances.entries[0].balance, 950);
}

#[test]
fn fee_exempt_contribution_waives_the_fee() {
    let mut ledger = ServiceLedger::new(OWNER, 5, 500, 0, 3600, 77);
    let mut campaign = ledger.create_campaign(2).unwrap();
    let token_effects = contribute_token(&mut campaign, 3, 500, TokenPurpose::FeeExemption).unwrap();
    assert_eq!(
        token_effects,
        vec![Effect::TransferToken {
            from: Custody::Account(3),
            to: Custody::Campaign(0),
            amount: 500,
        }]
    );
    assert_eq!(campaign.fee_exempt_token_total, 500);
    let mut record = ContributorRecord::new();
    let effects = ledger.contribute_currency(&mut campaign, &mut record, 3, 1000, 31).unwrap();
    assert_eq!(
        effects,
        vec![
            Effect::TransferCurrency {
                from: Custody::Account(3),
                to: Custody::Campaign(0),
                amount: 1000,
            },
            Effect::MintReward { wallet: 31, amount: 101000 },
        ]
    );
    assert_eq!(campaign.collected_amount, 1000);
    assert_eq!(ledger.accumulated_fee, 0);
    assert_eq!(ledger.total_dropped_fee, 50);
}

#[test]
fn cancellation_redistributes_in_proportion() {
    let mut ledger = ServiceLedger::new(OWNER, 0, 1_000_000, 0, 3600, 77);
    let mut c0 = ledger.create_campaign(10).unwrap();
    let mut c1 = ledger.create_campaign(11).unwrap();
    let mut c2 = ledger.create_campaign(12).unwrap();
    let mut r0 = ContributorRecord::new();
    let mut r1 = ContributorRecord::new();
    let mut r2 = ContributorRecord::new();
    ledger.contribute_currency(&mut c0, &mut r0, 20, 100, 40).unwrap();
    ledger.contribute_currency(&mut c1, &mut r1, 21, 200, 41).unwrap();
    ledger.contribute_currency(&mut c2, &mut r2, 22, 300, 42).unwrap();
    contribute_token(&mut c2, 23, 1, TokenPurpose::Cancellation).unwrap();
    let effects = ledger.cancel(&mut c2, 23).unwrap();
    assert!(effects.is_empty());
    assert!(c2.is_finished);
    // Remaining total is 300; the 100 gains floor(300*100/300) = 100 and
    // the 200 gains floor(300*200/300) = 200: the whole pool, exactly.
    assert_eq!(ledger.active_balances.find(2), Err(DonationError::NotFound));
    assert_eq!(ledger.active_balances.entries[0].balance, 200);
    assert_eq!(ledger.active_balances.entries[1].balance, 400);
    assert_eq!(ledger.active_balances.total_balance(), 600);
    assert_eq!(ledger.total_canceled_funds, 300);
    // The canceled campaign keeps its own collected amount for withdrawal.
    assert_eq!(c2.collected_amount, 300);
}

#[test]
fn withdraw_pays_out_and_a_second_withdrawal_transfers_zero() {
    let mut ledger = ServiceLedger::new(OWNER, 0, 1_000_000, 0, 3600, 77);
    let mut campaign = ledger.create_campaign(2).unwrap();
    let mut record = ContributorRecord::new();
    ledger.contribute_currency(&mut campaign, &mut record, 3, 500, 31).unwrap();
    let effects = ledger.withdraw(&mut campaign, 2).unwrap();
    assert_eq!(
        effects,
        vec![Effect::TransferCurrency {
            from: Custody::Campaign(0),
            to: Custody::Account(2),
            amount: 500,
        }]
    );
    assert!(campaign.is_finished);
    assert_eq!(campaign.collected_amount, 0);
    assert_eq!(ledger.active_balances.len(), 0);
    // Withdrawing again is safe: it is not refused, and transfers zero.
    let again = ledger.withdraw(&mut campaign, 2).unwrap();
    assert_eq!(
        again,
        vec![Effect::TransferCurrency {
            from: Custody::Campaign(0),
            to: Custody::Account(2),
            amount: 0,
        }]
    );
}

#[test]
fn token_contribution_ignores_the_finished_flag() {
    let mut ledger = ServiceLedger::new(OWNER, 0, 1_000_000, 0, 3600, 77);
    let mut campaign = ledger.create_campaign(2).unwrap();
    ledger.withdraw(&mut campaign, 2).unwrap();
    assert!(campaign.is_finished);
    assert!(contribute_token(&mut campaign, 3, 9, TokenPurpose::Cancellation).is_ok());
    assert_eq!(campaign.cancellation_token_total, 9);
}

#[test]
fn local_ranking_tracks_the_top_three_contributors() {
    let mut ledger = ServiceLedger::new(OWNER, 0, 1_000_000, 0, 3600, 77);
    let mut campaign = ledger.create_campaign(2).unwrap();
    let mut records = vec![ContributorRecord::new(); 4];
    ledger.contribute_currency(&mut campaign, &mut records[0], 20, 10, 40).unwrap();
    ledger.contribute_currency(&mut campaign, &mut records[1], 21, 20, 41).unwrap();
    ledger.contribute_currency(&mut campaign, &mut records[2], 22, 30, 42).unwrap();
    ledger.contribute_currency(&mut campaign, &mut records[3], 23, 5, 43).unwrap();
    assert_eq!(campaign.local_top.len(), 3);
    assert_eq!(campaign.local_top.get(0).unwrap().wallet, 42);
    assert_eq!(campaign.local_top.get(1).unwrap().wallet, 41);
    assert_eq!(campaign.local_top.get(2).unwrap().wallet, 40);
    // The global ranking holds all four.
    assert_eq!(ledger.global_top.len(), 4);
    assert_eq!(ledger.global_top.get(3).unwrap().wallet, 43);
}

#[test]
fn cumulative_totals_rank_gross_amounts() {
    let mut ledger = ServiceLedger::new(OWNER, 10, 1_000_000, 0, 3600, 77);
    let mut campaign = ledger.create_campaign(2).unwrap();
    let mut record = ContributorRecord::new();
    ledger.contribute_currency(&mut campaign, &mut record, 3, 100, 31).unwrap();
    ledger.contribute_currency(&mut campaign, &mut record, 3, 100, 31).unwrap();
    // Rankings are keyed by the gross cumulative total, not the net.
    assert_eq!(record.cumulative_amount, 200);
    assert_eq!(campaign.local_top.get(0).unwrap().amount, 200);
    // The campaign was credited the net amounts.
    assert_eq!(campaign.collected_amount, 180);
}

#[test]
fn withdrawn_fee_is_reset() {
    let mut ledger = ServiceLedger::new(OWNER, 5, 1_000_000, 0, 3600, 77);
    let mut campaign = ledger.create_campaign(2).unwrap();
    let mut record = ContributorRecord::new();
    ledger.contribute_currency(&mut campaign, &mut record, 3, 1000, 31).unwrap();
    let effects = ledger.withdraw_fee(OWNER).unwrap();
    assert_eq!(
        effects,
        vec![Effect::TransferCurrency {
            from: Custody::Service,
            to: Custody::Account(OWNER),
            amount: 50,
        }]
    );
    assert_eq!(ledger.accumulated_fee, 0);
}
