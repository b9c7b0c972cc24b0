//! The error taxonomy of the ledger engine.

use vstd::prelude::*;

verus! {

/// Every way an operation of the engine can be refused. An operation that
/// returns an error has changed no state and emitted no effect.
#[derive(Clone, Copy, Debug, PartialEq, Eq, Structural)]
pub enum DonationError {
    /// A contribution of zero currency was attempted.
    ZeroAmount,
    /// An operation was attempted against a campaign already in its terminal
    /// state.
    CampaignFinished,
    /// The caller is not the campaign's owner.
    NotCampaignOwner,
    /// The caller is not the service owner.
    NotOwner,
    /// The active-campaign index is at capacity; creation is refused.
    ActiveLimitExceeded,
    /// The cancellation-token threshold has not been met.
    InsufficientCancellationTokens,
    /// A supplied reward destination does not match the wallet recorded in
    /// the ranking.
    InvalidWalletAccount,
    /// The reward cooldown has not elapsed.
    TooEarly,
    /// An identifier was not found in the active-balance index. This is an
    /// internal-consistency failure, not a user error.
    NotFound,
    /// The active-balance index cannot take another entry. This is an
    /// internal-consistency failure, not a user error.
    CapacityExceeded,
}

} // verus!
