use donation_ledger::amount_math::compute_fee;
use donation_ledger::amount_math::compute_reward_mint;
use donation_ledger::amount_math::net;
use donation_ledger::amount_math::redistribute_share;

#[test]
fn fee_of_five_percent_on_1000() {
    assert_eq!(compute_fee(1000, 5), 50);
    assert_eq!(net(1000, 5), 950);
    assert_eq!(compute_reward_mint(1000), Some(101000));
}

#[test]
fn fee_truncates_toward_zero() {
    // 199 / 100 == 1, so the realized fee is below the nominal percentage.
    assert_eq!(compute_fee(199, 50), 50);
    assert_eq!(net(199, 50), 149);
    assert_eq!(compute_fee(99, 100), 0);
}

#[test]
fn fee_plus_net_is_gross() {
    let cases: Vec<(u64, u64)> = vec![(0, 0), (1, 100), (999, 3), (1000, 5), (u64::MAX, 100)];
    for (amount, percent) in cases {
        assert_eq!(compute_fee(amount, percent) + net(amount, percent), amount);
    }
}

#[test]
fn reward_mint_refuses_overflow() {
    assert_eq!(compute_reward_mint(u64::MAX / 101), Some((u64::MAX / 101) * 101));
    assert_eq!(compute_reward_mint(u64::MAX / 101 + 1), None);
    assert_eq!(compute_reward_mint(u64::MAX), None);
}

#[test]
fn share_is_proportional_and_exact_on_even_split() {
    assert_eq!(redistribute_share(300, 100, 300), 100);
    assert_eq!(redistribute_share(300, 200, 300), 200);
}

#[test]
fn share_truncates_and_never_exceeds_pool() {
    assert_eq!(redistribute_share(10, 3, 11), 2);
    assert_eq!(redistribute_share(10, 8, 11), 7);
    assert_eq!(redistribute_share(10, 11, 11), 10);
    // Wide arithmetic: the multiply would overflow 64 bits.
    assert_eq!(redistribute_share(u64::MAX, u64::MAX, u64::MAX as u128), u64::MAX);
}
