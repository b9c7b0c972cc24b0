//! Identities, custodies and the external effects the engine asks its host
//! to execute.
//!
//! The engine never moves funds itself. Each successful operation returns
//! the list of transfers and mints the host must perform atomically with the
//! state commit; on a refused operation no effect is emitted at all.

use vstd::prelude::*;

verus! {

/// A caller, owner or wallet identity. The engine only ever compares
/// identities for equality; the host is trusted to have verified that a
/// request really carries the identity's authorization.
pub type AccountId = u64;

/// Where currency or tokens are held: an external account, a campaign's own
/// custody, or the service's custody.
#[derive(Clone, Copy, Debug, PartialEq, Eq, Structural)]
pub enum Custody {
    /// An account outside the service, named by its identity.
    Account(AccountId),
    /// The custody of the campaign with this identifier.
    Campaign(u64),
    /// The service's own custody, where collected fees accumulate.
    Service,
}

/// One external effect the host must execute.
#[derive(Clone, Copy, Debug, PartialEq, Eq, Structural)]
pub enum Effect {
    /// Move an exact amount of settlement currency between custodies.
    TransferCurrency { from: Custody, to: Custody, amount: u64 },
    /// Mint new loyalty tokens into a wallet, authorized by the service.
    MintReward { wallet: AccountId, amount: u64 },
    /// Move loyalty tokens between holdings.
    TransferToken { from: Custody, to: Custody, amount: u64 },
}

} // verus!
