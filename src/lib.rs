//! A governance-gated intent controller: owner-only policy configuration,
//! per-transaction and rolling daily spending caps, per-account replay
//! counters and a sequenced event log, all over an explicit state value.

pub mod amount;
pub mod controller;
pub mod events;
pub mod identity;
pub mod laws;
pub mod nonces;
pub mod text;

pub use amount::Amount;
pub use controller::{
    init_governance, submit_intent, update_policy, Controller, ControllerError, Governance,
    ONE_DAY,
};
pub use events::{EventField, EventKind, EventRecord};
pub use identity::AccountId;
pub use nonces::NonceEntry;
