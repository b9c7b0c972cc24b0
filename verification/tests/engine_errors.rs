use donation_ledger::campaign::ContributorRecord;
use donation_ledger::effects::Effect;
use donation_ledger::engine::contribute_token;
use donation_ledger::engine::TokenPurpose;
use donation_ledger::errors::DonationError;
use donation_ledger::ledger::ServiceLedger;

const OWNER: u64 = 1;

fn service() -> ServiceLedger {
    ServiceLedger::new(OWNER, 5, 1_000_000, 10, 3600, 77)
}

#[test]
fn zero_contribution_is_refused() {
    let mut ledger = service();
    let mut campaign = ledger.create_campaign(2).unwrap();
    let mut record = ContributorRecord::new();
    let r = ledger.contribute_currency(&mut campaign, &mut record, 3, 0, 31);
    assert_eq!(r, Err(DonationError::ZeroAmount));
    assert_eq!(campaign.collected_amount, 0);
    assert_eq!(ledger.total_donations, 0);
}

#[test]
fn contribution_to_a_finished_campaign_is_refused() {
    let mut ledger = service();
    let mut campaign = ledger.create_campaign(2).unwrap();
    ledger.withdraw(&mut campaign, 2).unwrap();
    let mut record = ContributorRecord::new();
    let r = ledger.contribute_currency(&mut campaign, &mut record, 3, 10, 31);
    assert_eq!(r, Err(DonationError::CampaignFinished));
}

#[test]
fn only_the_campaign_owner_may_withdraw() {
    let mut ledger = service();
    let mut campaign = ledger.create_campaign(2).unwrap();
    assert_eq!(ledger.withdraw(&mut campaign, 3), Err(DonationError::NotCampaignOwner));
    assert!(!campaign.is_finished);
    assert_eq!(ledger.active_balances.len(), 1);
}

#[test]
fn only_the_service_owner_may_withdraw_the_fee() {
    let mut ledger = service();
    assert_eq!(ledger.withdraw_fee(2), Err(DonationError::NotOwner));
}

#[test]
fn creation_is_refused_at_the_active_limit() {
    let mut ledger = service();
    for _ in 0..100 {
        assert!(ledger.create_campaign(2).is_ok());
    }
    let r = ledger.create_campaign(2);
    assert_eq!(r.err(), Some(DonationError::ActiveLimitExceeded));
    assert_eq!(ledger.campaign_count, 100);
}

#[test]
fn cancellation_needs_strictly_more_tokens_than_the_threshold() {
    let mut ledger = service();
    let mut campaign = ledger.create_campaign(2).unwrap();
    contribute_token(&mut campaign, 3, 10, TokenPurpose::Cancellation).unwrap();
    // Exactly the threshold is not enough.
    assert_eq!(ledger.cancel(&mut campaign, 3), Err(DonationError::InsufficientCancellationTokens));
    assert!(!campaign.is_finished);
    contribute_token(&mut campaign, 3, 1, TokenPurpose::Cancellation).unwrap();
    assert!(ledger.cancel(&mut campaign, 3).is_ok());
    assert!(campaign.is_finished);
}

#[test]
fn a_finished_campaign_cannot_be_canceled() {
    let mut ledger = service();
    let mut campaign = ledger.create_campaign(2).unwrap();
    contribute_token(&mut campaign, 3, 11, TokenPurpose::Cancellation).unwrap();
    ledger.withdraw(&mut campaign, 2).unwrap();
    assert_eq!(ledger.cancel(&mut campaign, 3), Err(DonationError::CampaignFinished));
}

#[test]
fn rewards_are_refused_before_the_cooldown_elapses() {
    let mut ledger = service();
    let first = ledger.reward_top_donaters(OWNER, 100, 0, 0, 0).unwrap();
    assert!(first.is_empty());
    assert_eq!(ledger.reward_cooldown_until, 100);
    let r = ledger.reward_top_donaters(OWNER, 50, 0, 0, 0);
    assert_eq!(r, Err(DonationError::TooEarly));
    assert_eq!(ledger.reward_cooldown_until, 100);
}

#[test]
fn only_the_service_owner_may_trigger_rewards() {
    let mut ledger = service();
    assert_eq!(ledger.reward_top_donaters(2, 100, 0, 0, 0), Err(DonationError::NotOwner));
}

#[test]
fn rewards_check_the_supplied_wallets() {
    let mut ledger = service();
    let mut campaign = ledger.create_campaign(2).unwrap();
    let mut r1 = ContributorRecord::new();
    let mut r2 = ContributorRecord::new();
    ledger.contribute_currency(&mut campaign, &mut r1, 20, 50, 21).unwrap();
    ledger.contribute_currency(&mut campaign, &mut r2, 22, 40, 23).unwrap();
    let wrong = ledger.reward_top_donaters(OWNER, 100, 21, 99, 0);
    assert_eq!(wrong, Err(DonationError::InvalidWalletAccount));
    assert_eq!(ledger.reward_cooldown_until, 0);
    let minted = ledger.reward_top_donaters(OWNER, 100, 21, 23, 0).unwrap();
    assert_eq!(
        minted,
        vec![
            Effect::MintReward { wallet: 21, amount: 77 },
            Effect::MintReward { wallet: 23, amount: 77 },
        ]
    );
    assert_eq!(ledger.reward_cooldown_until, 100);
}

#[test]
fn refused_operations_change_nothing() {
    let mut ledger = service();
    let mut campaign = ledger.create_campaign(2).unwrap();
    let mut record = ContributorRecord::new();
    ledger.contribute_currency(&mut campaign, &mut record, 3, 1000, 31).unwrap();
    let fee_before = ledger.accumulated_fee;
    let donations_before = ledger.total_donations;
    let collected_before = campaign.collected_amount;
    assert!(ledger.contribute_currency(&mut campaign, &mut record, 3, 0, 31).is_err());
    assert!(ledger.withdraw(&mut campaign, 99).is_err());
    assert!(ledger.cancel(&mut campaign, 3).is_err());
    assert!(ledger.withdraw_fee(99).is_err());
    assert_eq!(ledger.accumulated_fee, fee_before);
    assert_eq!(ledger.total_donations, donations_before);
    assert_eq!(campaign.collected_amount, collected_before);
    assert!(!campaign.is_finished);
}
