use vstd::prelude::*;
use crate::state::AccountId;

verus! {

/// Emitted when a vault is created and funded.
#[derive(Clone, Copy, Debug)]
pub struct VaultCreated {
    /// The new vault's identity.
    pub vault: AccountId,
    /// The owning agent.
    pub agent: AccountId,
    /// The escrowed asset type.
    pub asset: AccountId,
    /// Amount moved into the vault's holding account.
    pub initial_deposit: u64,
}

/// Emitted when a settlement is accepted and applied.
#[derive(Clone, Debug)]
pub struct Settlement {
    /// The vault the value left.
    pub vault: AccountId,
    /// The provider paid.
    pub provider: AccountId,
    /// The agent whose signature authorized the payment.
    pub agent: AccountId,
    /// Amount paid out.
    pub amount: u64,
    /// The nonce this settlement consumed.
    pub nonce: u64,
    /// The provider's merchant identifier, if one is registered.
    pub external_merchant_id: Option<String>,
}

/// Emitted when a vault is drained and destroyed.
#[derive(Clone, Copy, Debug)]
pub struct Withdrawn {
    /// The destroyed vault's identity.
    pub vault: AccountId,
    /// The agent the residual funds went to.
    pub agent: AccountId,
    /// The holding account's entire balance at withdrawal time.
    pub amount: u64,
}

} // verus!
