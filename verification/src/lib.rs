//! An escrow-and-settlement engine.
//!
//! An agent pre-funds a vault; a facilitator later submits settlements on the
//! agent's behalf, each authorized by a message the agent signed offline for
//! that exact payment. Funds move from the vault to a registered provider's
//! destination account only if the authorization, replay-protection, and
//! balance checks all hold. The engine validates and decides; the host ledger
//! performs the actual value transfers and supplies signature attestations.

pub mod errors;
pub mod events;
pub mod state;
pub mod message;
pub mod store;
pub mod registry;
pub mod engine;
pub mod laws;
