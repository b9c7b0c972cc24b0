//! Integer arithmetic for fees, reward minting and proportional shares.
//!
//! All amounts are integers of the settlement currency or the loyalty token;
//! there is no fractional unit. Fees and shares use floor division, so the
//! realized percentage is always at or below the nominal one, and the sum of
//! proportional shares never exceeds the pool they are drawn from.

use vstd::prelude::*;

verus! {

/// The service fee on a gross contribution: `(amount / 100) * fee_percent`,
/// with floor division.
pub open spec fn spec_fee(amount: u64, fee_percent: u64) -> int {
    (amount as int / 100) * fee_percent
}

/// What the campaign is credited: the gross amount minus the fee.
pub open spec fn spec_net(amount: u64, fee_percent: u64) -> int {
    amount - spec_fee(amount, fee_percent)
}

/// The loyalty-token reward minted for a gross contribution: a fixed 101:1
/// ratio.
pub open spec fn spec_reward(amount: u64) -> int {
    101 * amount
}

/// A recipient's share of a redistributed pool:
/// `floor(pool * balance / total)`, and zero when the total is zero.
pub open spec fn spec_share(pool: u64, balance: u64, total: int) -> int {
    if total <= 0 {
        0
    } else {
        (pool * balance) / total
    }
}

/// The fee never exceeds the contributed amount while the percentage is at
/// most 100.
pub proof fn lemma_fee_bound(amount: u64, fee_percent: u64)
    requires
        fee_percent <= 100,
    ensures
        0 <= spec_fee(amount, fee_percent) <= amount,
{
    let q = amount as int / 100;
    assert(0 <= q && 100 * q <= amount) by (nonlinear_arith)
        requires
            q == amount as int / 100,
            amount >= 0,
    ;
    assert(q * fee_percent <= q * 100) by (nonlinear_arith)
        requires
            0 <= q,
            fee_percent <= 100,
    ;
}

/// The fee and the net amount always partition the gross amount exactly:
/// nothing is lost or created by fee computation.
pub proof fn lemma_fee_plus_net(amount: u64, fee_percent: u64)
    requires
        fee_percent <= 100,
    ensures
        spec_fee(amount, fee_percent) + spec_net(amount, fee_percent) == amount,
        0 <= spec_fee(amount, fee_percent) <= amount,
{
    lemma_fee_bound(amount, fee_percent);
}

/// A share of a pool never exceeds the pool while the recipient's balance is
/// part of the total.
pub proof fn lemma_share_bound(pool: u64, balance: u64, total: int)
    requires
        balance <= total,
    ensures
        0 <= spec_share(pool, balance, total) <= pool,
{
    if total > 0 {
        assert(0 <= (pool * balance) / total <= pool) by (nonlinear_arith)
            requires
                0 < total,
                0 <= pool,
                0 <= balance <= total,
        ;
    }
}

/// Computes the service fee on a gross contribution with floor division:
/// truncation, not rounding.
pub fn compute_fee(amount: u64, fee_percent: u64) -> (fee: u64)
    requires
        fee_percent <= 100,
    ensures
        fee == spec_fee(amount, fee_percent),
        fee <= amount,
{
    proof {
        lemma_fee_bound(amount, fee_percent);
    }
    amount / 100 * fee_percent
}

/// What the campaign is credited for a gross contribution: the amount net of
/// the fee.
pub fn net(amount: u64, fee_percent: u64) -> (n: u64)
    requires
        fee_percent <= 100,
    ensures
        n == spec_net(amount, fee_percent),
        spec_fee(amount, fee_percent) + n == amount,
{
    let fee = compute_fee(amount, fee_percent);
    amount - fee
}

/// Computes the loyalty-token reward minted for a gross contribution, at the
/// fixed 101:1 ratio. Detects multiplication overflow and refuses it with
/// `None` instead of wrapping.
pub fn compute_reward_mint(amount: u64) -> (reward: Option<u64>)
    ensures
        reward is Some <==> spec_reward(amount) <= u64::MAX,
        reward matches Some(r) ==> r == spec_reward(amount),
{
    if amount <= u64::MAX / 101 {
        assert(101 * amount <= u64::MAX) by (nonlinear_arith)
            requires
                amount <= u64::MAX as int / 101,
                amount >= 0,
        ;
        Some(amount * 101)
    } else {
        assert(101 * amount > u64::MAX) by (nonlinear_arith)
            requires
                amount > u64::MAX as int / 101,
        ;
        None
    }
}

/// Computes one recipient's share of a redistributed pool,
/// `floor(pool * balance / total)`, in a wider integer type so the multiply
/// cannot overflow. The share never exceeds the pool.
pub fn redistribute_share(
    pool_to_distribute: u64,
    recipient_balance: u64,
    total_remaining_balance: u128,
) -> (share: u64)
    requires
        total_remaining_balance > 0,
        recipient_balance <= total_remaining_balance,
    ensures
        share == spec_share(pool_to_distribute, recipient_balance, total_remaining_balance as int),
        share <= pool_to_distribute,
{
    proof {
        lemma_share_bound(pool_to_distribute, recipient_balance, total_remaining_balance as int);
        assert((pool_to_distribute as int) * (recipient_balance as int) <= u128::MAX)
            by (nonlinear_arith)
            requires
                pool_to_distribute <= u64::MAX,
                recipient_balance <= u64::MAX,
                0 <= pool_to_distribute,
                0 <= recipient_balance,
        ;
    }
    let wide: u128 = (pool_to_distribute as u128) * (recipient_balance as u128)
        / total_remaining_balance;
    wide as u64
}

} // verus!
