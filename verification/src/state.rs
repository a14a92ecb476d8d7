use vstd::prelude::*;

verus! {

/// A 32-byte account identity, as the host ledger addresses accounts.
pub type AccountId = [u8; 32];

/// The all-zero identity, the default for unset identity fields.
pub open spec fn spec_zero_id() -> Seq<u8> {
    Seq::new(32, |i: int| 0u8)
}

/// How a provider is paid out.
#[derive(Clone, Copy, Debug, PartialEq, Eq, Structural)]
pub enum PaymentProtocol {
    /// Direct transfer on the host ledger.
    NativeTransfer,
    /// Transfer through a bridge, described by the provider's merchant id.
    BridgeProtocol,
}

/// Per-agent escrow record tracking deposited and settled value.
///
/// A vault is addressed by its agent's identity: exactly one vault exists per
/// agent while active.
#[derive(Clone, Copy, Debug)]
pub struct Vault {
    /// The owning agent's identity; also the vault's own identity.
    pub agent: AccountId,
    /// Identity of the asset type held in escrow.
    pub value_mint: AccountId,
    /// Identity of the ledger account holding the escrowed value.
    pub vault_account: AccountId,
    /// Cumulative amount ever deposited.
    pub deposit_amount: u64,
    /// Cumulative amount paid out through settlements.
    pub total_settled: u64,
    /// Sequence marker of the last accepted settlement.
    pub last_settlement_slot: u64,
    /// Last consumed replay-protection counter; starts at 0.
    pub nonce: u64,
}

impl Vault {
    /// The vault never pays out more than was deposited.
    pub open spec fn wf(self) -> bool {
        self.total_settled <= self.deposit_amount
    }
}

impl Default for Vault {
    fn default() -> (v: Vault)
        ensures
            v.agent@ == spec_zero_id(),
            v.value_mint@ == spec_zero_id(),
            v.vault_account@ == spec_zero_id(),
            v.deposit_amount == 0,
            v.total_settled == 0,
            v.last_settlement_slot == 0,
            v.nonce == 0,
            v.wf(),
    {
        Vault {
            agent: [0u8; 32],
            value_mint: [0u8; 32],
            vault_account: [0u8; 32],
            deposit_amount: 0,
            total_settled: 0,
            last_settlement_slot: 0,
            nonce: 0,
        }
    }
}

/// Registered payee with a fixed destination account and protocol tag.
#[derive(Clone, Debug)]
pub struct Provider {
    /// The registrant's identity; also the provider's own identity.
    pub authority: AccountId,
    /// Payout account, immutable after registration.
    pub destination: AccountId,
    /// Nullable protocol-specific merchant identifier.
    pub external_merchant_id: Option<String>,
    /// How this provider is paid out.
    pub protocol: PaymentProtocol,
}

impl Default for Provider {
    fn default() -> (p: Provider)
        ensures
            p.authority@ == spec_zero_id(),
            p.destination@ == spec_zero_id(),
            p.external_merchant_id is None,
            p.protocol == PaymentProtocol::NativeTransfer,
    {
        Provider {
            authority: [0u8; 32],
            destination: [0u8; 32],
            external_merchant_id: None,
            protocol: PaymentProtocol::NativeTransfer,
        }
    }
}

/// Process-wide administrative record, initialized once.
#[derive(Clone, Copy, Debug)]
pub struct GlobalConfig {
    /// Administrator identity.
    pub admin: AccountId,
    /// Minimum accepted settlement amount.
    pub settle_threshold: u64,
    /// Fee rate in basis points; recorded but not applied to any transfer.
    pub fee_bps: u16,
}

impl Default for GlobalConfig {
    fn default() -> (c: GlobalConfig)
        ensures
            c.admin@ == spec_zero_id(),
            c.settle_threshold == 0,
            c.fee_bps == 0,
    {
        GlobalConfig { admin: [0u8; 32], settle_threshold: 0, fee_bps: 0 }
    }
}

/// Externally verified proof that `signer` signed exactly `message`.
///
/// Produced by the host's signature-verification side channel; the engine
/// validates its content, never the cryptography.
#[derive(Clone, Debug)]
pub struct Attestation {
    /// Identity attested to have signed the message.
    pub signer: AccountId,
    /// The exact bytes that were signed.
    pub message: Vec<u8>,
}

/// One value movement for the host ledger to perform.
#[derive(Clone, Copy, Debug)]
pub struct Transfer {
    /// Account the value leaves.
    pub from: AccountId,
    /// Account the value reaches.
    pub to: AccountId,
    /// Amount moved.
    pub amount: u64,
}

} // verus!
