use vstd::prelude::*;
use crate::engine::{
    spec_attestation_ok, spec_settle_error, spec_settled_vault, spec_withdraw_error, Engine,
};
use crate::errors::FlowError;
use crate::message::spec_canonical_message;
use crate::registry::has_provider;
use crate::state::{Attestation, Vault};
use crate::store::{has_vault, vault_of};

verus! {

/// The conditions under which the engine accepts one settlement against a
/// vault, together with the exact state it leaves: precisely what
/// `Engine::settle_batch` ensures of the stored vault on success.
pub open spec fn spec_accepted_step(v: Vault, amount: u64, nonce: u64, slot: u64, v2: Vault) -> bool {
    &&& v.nonce < u64::MAX
    &&& nonce == v.nonce + 1
    &&& v.total_settled + amount <= v.deposit_amount
    &&& v2 == spec_settled_vault(v, amount, nonce, slot)
}

/// The sum of a sequence of settlement amounts.
pub open spec fn spec_sum(amounts: Seq<u64>) -> int
    decreases amounts.len(),
{
    if amounts.len() == 0 {
        0
    } else {
        spec_sum(amounts.drop_last()) + amounts.last()
    }
}

/// An accepted settlement leaves the stored vault exactly one accepted step
/// further: the nonce was the vault's nonce plus one, the amount fit in the
/// remaining balance, and the vault's counters advanced accordingly.
pub proof fn lemma_settle_ok_is_accepted_step(
    e: Engine,
    agent: Seq<u8>,
    provider: Seq<u8>,
    destination: Seq<u8>,
    amount: u64,
    nonce: u64,
    att: Option<Attestation>,
    slot: u64,
)
    requires
        e.wf(),
        spec_settle_error(e, agent, provider, destination, amount, nonce, att) is None,
    ensures
        spec_accepted_step(
            vault_of(e.vaults.entries@, agent),
            amount,
            nonce,
            slot,
            spec_settled_vault(vault_of(e.vaults.entries@, agent), amount, nonce, slot),
        ),
{
    let v = vault_of(e.vaults.entries@, agent);
    assert(has_vault(e.vaults.entries@, agent));
    assert(v.wf());
}

/// Over any chain of accepted settlements on a vault, the settled total
/// grows by exactly the amount of each step, so it ends at the start total
/// plus the sum of all amounts; it never exceeds the deposit; the deposit
/// itself never moves; and the consumed nonces are exactly the consecutive
/// integers following the starting nonce, with no gap and no repeat.
pub proof fn lemma_settlement_sequence(
    trace: Seq<Vault>,
    amounts: Seq<u64>,
    nonces: Seq<u64>,
    slots: Seq<u64>,
)
    requires
        trace.len() == amounts.len() + 1,
        nonces.len() == amounts.len(),
        slots.len() == amounts.len(),
        trace[0].wf(),
        forall|i: int|
            0 <= i < amounts.len() ==> #[trigger] spec_accepted_step(
                trace[i],
                amounts[i],
                nonces[i],
                slots[i],
                trace[i + 1],
            ),
    ensures
        trace.last().total_settled == trace[0].total_settled + spec_sum(amounts),
        forall|i: int|
            0 <= i < trace.len() ==> (#[trigger] trace[i]).wf() && trace[i].deposit_amount
                == trace[0].deposit_amount && trace[i].nonce == trace[0].nonce + i,
        forall|i: int| 0 <= i < nonces.len() ==> nonces[i] == trace[0].nonce + i + 1,
    decreases amounts.len(),
{
    if amounts.len() == 0 {
        assert(spec_sum(amounts) == 0);
    } else {
        let n = amounts.len() as int;
        lemma_settlement_sequence(
            trace.drop_last(),
            amounts.drop_last(),
            nonces.drop_last(),
            slots.drop_last(),
        );
        assert(spec_accepted_step(trace[n - 1], amounts[n - 1], nonces[n - 1], slots[n - 1], trace[n]));
        assert(trace.drop_last().last() == trace[n - 1]);
        assert(spec_sum(amounts) == spec_sum(amounts.drop_last()) + amounts[n - 1]);
        assert(trace.last() == trace[n]);
        assert forall|i: int| 0 <= i < trace.len() implies (#[trigger] trace[i]).wf()
            && trace[i].deposit_amount == trace[0].deposit_amount && trace[i].nonce == trace[0].nonce
            + i by {
            if i < n {
                assert(trace.drop_last()[i] == trace[i]);
                assert(trace.drop_last()[0] == trace[0]);
            }
        }
        assert forall|i: int| 0 <= i < nonces.len() implies nonces[i] == trace[0].nonce + i
            + 1 by {
            if i < n - 1 {
                assert(nonces.drop_last()[i] == nonces[i]);
            } else {
                assert(trace[n - 1].nonce == trace[0].nonce + n - 1);
            }
        }
    }
}

/// Replay protection: with the records present, a fully valid signature, and
/// an amount at or above the threshold, a settlement whose nonce is not
/// exactly the vault's nonce plus one — a replay of a consumed nonce as much
/// as a skip ahead — is rejected as `InvalidNonce`. Since every rejection
/// leaves the engine unchanged, such a request produces zero state change.
pub proof fn lemma_replay_or_skip_rejected(
    e: Engine,
    agent: Seq<u8>,
    provider: Seq<u8>,
    destination: Seq<u8>,
    amount: u64,
    nonce: u64,
    att: Option<Attestation>,
)
    requires
        e.config is Some,
        has_vault(e.vaults.entries@, agent),
        has_provider(e.providers.entries@, provider),
        spec_attestation_ok(att, agent, provider, amount, nonce),
        amount >= e.config->0.settle_threshold,
        vault_of(e.vaults.entries@, agent).nonce < u64::MAX,
        nonce != vault_of(e.vaults.entries@, agent).nonce + 1,
    ensures
        spec_settle_error(e, agent, provider, destination, amount, nonce, att) == Some(
            FlowError::InvalidNonce,
        ),
{
}

/// Tamper detection: an attestation over a message that differs from the
/// canonical settlement message in even a single byte — in the tag, the
/// vault identity, the provider identity, the amount, or the nonce — is
/// rejected as `InvalidSignature`, whoever signed it.
pub proof fn lemma_byte_flip_rejected(
    e: Engine,
    agent: Seq<u8>,
    provider: Seq<u8>,
    destination: Seq<u8>,
    amount: u64,
    nonce: u64,
    att: Attestation,
    i: int,
)
    requires
        e.config is Some,
        has_vault(e.vaults.entries@, agent),
        has_provider(e.providers.entries@, provider),
        att.message@.len() == spec_canonical_message(agent, provider, amount, nonce).len(),
        0 <= i < att.message@.len(),
        att.message@[i] != spec_canonical_message(agent, provider, amount, nonce)[i],
    ensures
        spec_settle_error(e, agent, provider, destination, amount, nonce, Some(att)) == Some(
            FlowError::InvalidSignature,
        ),
{
    assert(att.message@ != spec_canonical_message(agent, provider, amount, nonce));
}

/// Threshold enforcement: even with a fully valid signature and the correct
/// nonce, an amount below the configured threshold is rejected as
/// `BelowThreshold`; no rejection moves funds or touches state.
pub proof fn lemma_below_threshold_rejected(
    e: Engine,
    agent: Seq<u8>,
    provider: Seq<u8>,
    destination: Seq<u8>,
    amount: u64,
    nonce: u64,
    att: Option<Attestation>,
)
    requires
        e.config is Some,
        has_vault(e.vaults.entries@, agent),
        has_provider(e.providers.entries@, provider),
        spec_attestation_ok(att, agent, provider, amount, nonce),
        nonce == vault_of(e.vaults.entries@, agent).nonce + 1,
        amount < e.config->0.settle_threshold,
    ensures
        spec_settle_error(e, agent, provider, destination, amount, nonce, att) == Some(
            FlowError::BelowThreshold,
        ),
{
}

/// Terminal state: once no vault exists for an agent — as after a
/// withdrawal — every settlement or withdrawal referencing that vault is
/// rejected as `NotFound`.
pub proof fn lemma_missing_vault_not_found(
    e: Engine,
    caller: Seq<u8>,
    agent: Seq<u8>,
    provider: Seq<u8>,
    destination: Seq<u8>,
    amount: u64,
    nonce: u64,
    att: Option<Attestation>,
)
    requires
        !has_vault(e.vaults.entries@, agent),
    ensures
        spec_settle_error(e, agent, provider, destination, amount, nonce, att) == Some(
            FlowError::NotFound,
        ),
        spec_withdraw_error(e, caller, agent) == Some(FlowError::NotFound),
{
}

} // verus!
