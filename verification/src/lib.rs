//! A crowdfunding ledger engine.
//!
//! The library tracks one global service ledger and many independent
//! fundraising campaigns. It accepts contributions in a native settlement
//! currency and in a loyalty token, computes a configurable service fee,
//! maintains bounded top-contributor rankings (top 3 per campaign, top 10
//! globally), keeps an ordered index of active campaign balances, and
//! redistributes the pooled balance of a canceled campaign across the
//! remaining active campaigns in proportion to their balances.
//!
//! The engine is pure state-transition logic: every operation validates its
//! preconditions, mutates the in-memory ledger state, and returns the list of
//! external effects (currency transfers, token mints and transfers) that a
//! host must execute atomically with the state commit. Durable storage,
//! signature verification, actual fund movement and the clock are the host's
//! business; the engine only decides.

pub mod amount_math;
pub mod balances;
pub mod campaign;
pub mod effects;
pub mod engine;
pub mod errors;
pub mod ledger;
pub mod ranking;
