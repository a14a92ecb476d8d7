use vstd::prelude::*;
use crate::errors::FlowError;
use crate::events::{Settlement, VaultCreated, Withdrawn};
use crate::message::{bytes_eq, canonical_message, id_eq, spec_canonical_message};
use crate::registry::{has_provider, provider_of, ProviderRegistry};
use crate::state::{
    AccountId, Attestation, GlobalConfig, PaymentProtocol, Provider, Transfer, Vault,
};
use crate::store::{has_vault, vault_index, vault_of, VaultStore};

verus! {

/// What an accepted settlement asks of the host: the transfer to perform and
/// the record to emit.
#[derive(Clone, Debug)]
pub struct SettlementResult {
    /// Value movement from the vault's holding account to the provider's
    /// registered destination.
    pub transfer: Transfer,
    /// Observability record of the accepted settlement.
    pub event: Settlement,
}

/// The escrow-and-settlement engine: configuration, pause flag, active
/// vaults, and registered providers, mutated one operation at a time.
pub struct Engine {
    /// Administrative record; `None` until initialized.
    pub config: Option<GlobalConfig>,
    /// Recorded pause intent; no operation consults it.
    pub paused: bool,
    /// Active vaults, one per agent.
    pub vaults: VaultStore,
    /// Registered providers, one per authority.
    pub providers: ProviderRegistry,
}

/// Whether `att` proves that `agent` signed the canonical message for exactly
/// this settlement: right signer, and byte-for-byte the right message.
pub open spec fn spec_attestation_ok(
    att: Option<Attestation>,
    agent: Seq<u8>,
    provider: Seq<u8>,
    amount: u64,
    nonce: u64,
) -> bool {
    &&& att is Some
    &&& att->0.signer@ == agent
    &&& att->0.message@ == spec_canonical_message(agent, provider, amount, nonce)
}

/// The vault as one accepted settlement leaves it: `amount` added to the
/// settled total, the nonce consumed, the sequence marker refreshed.
pub open spec fn spec_settled_vault(v: Vault, amount: u64, nonce: u64, slot: u64) -> Vault {
    Vault {
        total_settled: (v.total_settled + amount) as u64,
        nonce,
        last_settlement_slot: slot,
        ..v
    }
}

/// The first check a settlement request fails, or `None` if every check
/// passes. Checks run in this order: the config, vault, and provider records
/// must exist; the attestation must match; the amount must reach the
/// threshold; the nonce must be exactly the next one (its increment must not
/// overflow); the vault must cover the amount; and the submitted destination
/// must be the provider's registered one.
pub open spec fn spec_settle_error(
    e: Engine,
    agent: Seq<u8>,
    provider: Seq<u8>,
    destination: Seq<u8>,
    amount: u64,
    nonce: u64,
    att: Option<Attestation>,
) -> Option<FlowError> {
    if e.config is None {
        Some(FlowError::NotFound)
    } else if !has_vault(e.vaults.entries@, agent) {
        Some(FlowError::NotFound)
    } else if !has_provider(e.providers.entries@, provider) {
        Some(FlowError::NotFound)
    } else if !spec_attestation_ok(att, agent, provider, amount, nonce) {
        Some(FlowError::InvalidSignature)
    } else if amount < e.config->0.settle_threshold {
        Some(FlowError::BelowThreshold)
    } else if vault_of(e.vaults.entries@, agent).nonce == u64::MAX {
        Some(FlowError::Overflow)
    } else if nonce != vault_of(e.vaults.entries@, agent).nonce + 1 {
        Some(FlowError::InvalidNonce)
    } else if vault_of(e.vaults.entries@, agent).deposit_amount - vault_of(
        e.vaults.entries@,
        agent,
    ).total_settled < amount {
        Some(FlowError::InsufficientFunds)
    } else if provider_of(e.providers.entries@, provider).destination@ != destination {
        Some(FlowError::Unauthorized)
    } else {
        None
    }
}

/// Why a withdrawal is rejected, or `None` if it is accepted: the agent must
/// have an active vault, and only the agent may drain it.
pub open spec fn spec_withdraw_error(e: Engine, caller: Seq<u8>, agent: Seq<u8>) -> Option<
    FlowError,
> {
    if !has_vault(e.vaults.entries@, agent) {
        Some(FlowError::NotFound)
    } else if caller != agent {
        Some(FlowError::Unauthorized)
    } else {
        None
    }
}

impl Engine {
    /// The stores' invariants hold.
    pub open spec fn wf(self) -> bool {
        &&& self.vaults.wf()
        &&& self.providers.wf()
    }

    /// A fresh engine: unconfigured, unpaused, with no vaults or providers.
    pub fn new() -> (e: Engine)
        ensures
            e.wf(),
            e.config is None,
            !e.paused,
            e.vaults.entries@.len() == 0,
            e.providers.entries@.len() == 0,
    {
        Engine {
            config: None,
            paused: false,
            vaults: VaultStore::new(),
            providers: ProviderRegistry::new(),
        }
    }

    /// One-time administrative setup; rejected once a config exists.
    pub fn initialize_config(
        &mut self,
        admin: AccountId,
        settle_threshold: u64,
        fee_bps: u16,
    ) -> (r: Result<(), FlowError>)
        requires
            old(self).wf(),
        ensures
            final(self).wf(),
            final(self).vaults == old(self).vaults,
            final(self).providers == old(self).providers,
            final(self).paused == old(self).paused,
            match r {
                Ok(()) => old(self).config is None && final(self).config == Some(
                    (GlobalConfig { admin, settle_threshold, fee_bps }),
                ),
                Err(e) => e == FlowError::AlreadyExists && old(self).config is Some && *final(self)
                    == *old(self),
            },
    {
        if self.config.is_some() {
            return Err(FlowError::AlreadyExists);
        }
        self.config = Some(GlobalConfig { admin, settle_threshold, fee_bps });
        Ok(())
    }

    /// Registers a provider under its authority's identity, which becomes the
    /// provider's own identity; rejected if the authority already has one.
    pub fn register_provider(
        &mut self,
        authority: AccountId,
        destination: AccountId,
        external_merchant_id: Option<String>,
        protocol: PaymentProtocol,
    ) -> (r: Result<AccountId, FlowError>)
        requires
            old(self).wf(),
        ensures
            final(self).wf(),
            final(self).config == old(self).config,
            final(self).vaults == old(self).vaults,
            final(self).paused == old(self).paused,
            match r {
                Ok(id) => !has_provider(old(self).providers.entries@, authority@) && id == authority
                    && final(self).providers.entries@ == old(self).providers.entries@.push(
                    (Provider { authority, destination, external_merchant_id, protocol }),
                ),
                Err(e) => e == FlowError::AlreadyExists && has_provider(
                    old(self).providers.entries@,
                    authority@,
                ) && *final(self) == *old(self),
            },
    {
        let p = Provider { authority, destination, external_merchant_id, protocol };
        match self.providers.insert(p) {
            Ok(()) => Ok(authority),
            Err(e) => Err(e),
        }
    }

    /// Creates and records a vault for `agent`, which becomes the vault's own
    /// identity; rejected if the agent already has one. The host moves the
    /// deposit into `vault_account` as part of the same committed operation.
    pub fn create_vault(
        &mut self,
        agent: AccountId,
        asset: AccountId,
        vault_account: AccountId,
        deposit_amount: u64,
    ) -> (r: Result<VaultCreated, FlowError>)
        requires
            old(self).wf(),
        ensures
            final(self).wf(),
            final(self).config == old(self).config,
            final(self).providers == old(self).providers,
            final(self).paused == old(self).paused,
            match r {
                Ok(ev) => !has_vault(old(self).vaults.entries@, agent@) && final(self).vaults.entries@ == old(self).vaults.entries@.push(
                    (Vault {
                        agent,
                        value_mint: asset,
                        vault_account,
                        deposit_amount,
                        total_settled: 0,
                        last_settlement_slot: 0,
                        nonce: 0,
                    }),
                ) && ev == (VaultCreated { vault: agent, agent, asset, initial_deposit: deposit_amount }),
                Err(e) => e == FlowError::AlreadyExists && has_vault(
                    old(self).vaults.entries@,
                    agent@,
                ) && *final(self) == *old(self),
            },
    {
        let v = Vault {
            agent,
            value_mint: asset,
            vault_account,
            deposit_amount,
            total_settled: 0,
            last_settlement_slot: 0,
            nonce: 0,
        };
        match self.vaults.insert(v) {
            Ok(()) => Ok(VaultCreated { vault: agent, agent, asset, initial_deposit: deposit_amount }),
            Err(e) => Err(e),
        }
    }

    /// Validates one settlement request and, if every check passes, applies
    /// it atomically: the vault's settled total grows by `amount`, the nonce
    /// is consumed, and the returned transfer moves `amount` from the vault's
    /// holding account to the provider's registered destination. Any rejected
    /// request leaves the engine exactly as it was.
    ///
    /// The facilitator merely relays the request; nothing is checked against
    /// its identity, since authorization comes from the agent's signature.
    pub fn settle_batch(
        &mut self,
        _facilitator: AccountId,
        agent: AccountId,
        provider: AccountId,
        destination: AccountId,
        amount: u64,
        nonce: u64,
        attestation: &Option<Attestation>,
        current_slot: u64,
    ) -> (r: Result<SettlementResult, FlowError>)
        requires
            old(self).wf(),
        ensures
            final(self).wf(),
            final(self).config == old(self).config,
            final(self).providers == old(self).providers,
            final(self).paused == old(self).paused,
            match r {
                Ok(res) => {
                    &&& spec_settle_error(
                        *old(self),
                        agent@,
                        provider@,
                        destination@,
                        amount,
                        nonce,
                        *attestation,
                    ) is None
                    &&& final(self).vaults.entries@ == old(self).vaults.entries@.update(
                        vault_index(old(self).vaults.entries@, agent@),
                        spec_settled_vault(
                            vault_of(old(self).vaults.entries@, agent@),
                            amount,
                            nonce,
                            current_slot,
                        ),
                    )
                    &&& res.transfer == (Transfer {
                        from: vault_of(old(self).vaults.entries@, agent@).vault_account,
                        to: destination,
                        amount,
                    })
                    &&& res.event.vault == agent
                    &&& res.event.provider == provider
                    &&& res.event.agent == agent
                    &&& res.event.amount == amount
                    &&& res.event.nonce == nonce
                    &&& res.event.external_merchant_id.deep_view() == provider_of(
                        old(self).providers.entries@,
                        provider@,
                    ).external_merchant_id.deep_view()
                },
                Err(e) => Some(e) == spec_settle_error(
                    *old(self),
                    agent@,
                    provider@,
                    destination@,
                    amount,
                    nonce,
                    *attestation,
                ) && *final(self) == *old(self),
            },
    {
        let threshold = match &self.config {
            Some(c) => c.settle_threshold,
            None => {
                return Err(FlowError::NotFound);
            },
        };
        let vi = match self.vaults.find_index(&agent) {
            Some(i) => i,
            None => {
                return Err(FlowError::NotFound);
            },
        };
        let pi = match self.providers.find_index(&provider) {
            Some(i) => i,
            None => {
                return Err(FlowError::NotFound);
            },
        };
        let attested = match attestation {
            Some(att) => {
                if !id_eq(&att.signer, &agent) {
                    false
                } else {
                    let expected = canonical_message(&agent, &provider, amount, nonce);
                    bytes_eq(&att.message, &expected)
                }
            },
            None => false,
        };
        if !attested {
            return Err(FlowError::InvalidSignature);
        }
        if amount < threshold {
            return Err(FlowError::BelowThreshold);
        }
        let vault = self.vaults.entries[vi];
        if vault.nonce == u64::MAX {
            return Err(FlowError::Overflow);
        }
        if nonce != vault.nonce + 1 {
            return Err(FlowError::InvalidNonce);
        }
        let available = vault.deposit_amount - vault.total_settled;
        if available < amount {
            return Err(FlowError::InsufficientFunds);
        }
        if !id_eq(&self.providers.entries[pi].destination, &destination) {
            return Err(FlowError::Unauthorized);
        }
        let updated = Vault {
            total_settled: vault.total_settled + amount,
            nonce,
            last_settlement_slot: current_slot,
            ..vault
        };
        self.vaults.update(vi, updated);
        let merchant: Option<String> = match &self.providers.entries[pi].external_merchant_id {
            Some(s) => Some(s.clone()),
            None => None,
        };
        Ok(
            SettlementResult {
                transfer: Transfer { from: vault.vault_account, to: destination, amount },
                event: Settlement {
                    vault: agent,
                    provider,
                    agent,
                    amount,
                    nonce,
                    external_merchant_id: merchant,
                },
            },
        )
    }

    /// Drains the vault's holding account — whose current balance the host
    /// reads and passes in — back to the agent, and destroys the vault.
    /// No threshold or nonce checks apply; only the agent may withdraw.
    pub fn withdraw(&mut self, caller: AccountId, agent: AccountId, holding_balance: u64) -> (r:
        Result<Withdrawn, FlowError>)
        requires
            old(self).wf(),
        ensures
            final(self).wf(),
            final(self).config == old(self).config,
            final(self).providers == old(self).providers,
            final(self).paused == old(self).paused,
            match r {
                Ok(ev) => {
                    &&& spec_withdraw_error(*old(self), caller@, agent@) is None
                    &&& final(self).vaults.entries@ == old(self).vaults.entries@.remove(
                        vault_index(old(self).vaults.entries@, agent@),
                    )
                    &&& !has_vault(final(self).vaults.entries@, agent@)
                    &&& ev == (Withdrawn { vault: agent, agent, amount: holding_balance })
                },
                Err(e) => Some(e) == spec_withdraw_error(*old(self), caller@, agent@) && *final(self) == *old(self),
            },
    {
        let vi = match self.vaults.find_index(&agent) {
            Some(i) => i,
            None => {
                return Err(FlowError::NotFound);
            },
        };
        if !id_eq(&caller, &agent) {
            return Err(FlowError::Unauthorized);
        }
        let ghost old_entries = self.vaults.entries@;
        self.vaults.remove(vi);
        proof {
            assert forall|j: int| 0 <= j < self.vaults.entries@.len() implies self.vaults.entries@[
                j
            ].agent@ != agent@ by {
                if j < vi {
                    assert(self.vaults.entries@[j] == old_entries[j]);
                } else {
                    assert(self.vaults.entries@[j] == old_entries[j + 1]);
                }
            }
        }
        Ok(Withdrawn { vault: agent, agent, amount: holding_balance })
    }

    /// Records the administrator's pause intent. By design the flag gates
    /// nothing: the settlement path never consults it.
    pub fn emergency_pause(&mut self, caller: AccountId, paused: bool) -> (r: Result<
        (),
        FlowError,
    >)
        requires
            old(self).wf(),
        ensures
            final(self).wf(),
            final(self).config == old(self).config,
            final(self).vaults == old(self).vaults,
            final(self).providers == old(self).providers,
            match r {
                Ok(()) => old(self).config is Some && caller@ == old(self).config->0.admin@ && final(self).paused == paused,
                Err(e) => *final(self) == *old(self) && match old(self).config {
                    None => e == FlowError::NotFound,
                    Some(c) => caller@ != c.admin@ && e == FlowError::Unauthorized,
                },
            },
    {
        let admin = match &self.config {
            Some(c) => c.admin,
            None => {
                return Err(FlowError::NotFound);
            },
        };
        if !id_eq(&caller, &admin) {
            return Err(FlowError::Unauthorized);
        }
        self.paused = paused;
        Ok(())
    }
}

} // verus!
