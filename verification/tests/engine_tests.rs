use flow_vault::engine::Engine;
use flow_vault::errors::FlowError;
use flow_vault::message::canonical_message;
use flow_vault::state::{Attestation, PaymentProtocol, Vault};

fn id(b: u8) -> [u8; 32] {
    [b; 32]
}

fn att_for(agent: [u8; 32], provider: [u8; 32], amount: u64, nonce: u64) -> Option<Attestation> {
    Some(Attestation { signer: agent, message: canonical_message(&agent, &provider, amount, nonce) })
}

/// An engine with config (admin 9, threshold 1000), provider 2 paying to 3,
/// and a vault for agent 1 holding account 8 with a 1_000_000 deposit.
fn funded_engine() -> Engine {
    let mut e = Engine::new();
    e.initialize_config(id(9), 1_000, 25).unwrap();
    e.register_provider(id(2), id(3), None, PaymentProtocol::NativeTransfer).unwrap();
    e.create_vault(id(1), id(7), id(8), 1_000_000).unwrap();
    e
}

#[test]
fn scenario_full_lifecycle() {
    let mut e = funded_engine();

    let r = e
        .settle_batch(id(5), id(1), id(2), id(3), 1_000, 1, &att_for(id(1), id(2), 1_000, 1), 42)
        .unwrap();
    assert_eq!(r.transfer.from, id(8));
    assert_eq!(r.transfer.to, id(3));
    assert_eq!(r.transfer.amount, 1_000);
    assert_eq!(r.event.vault, id(1));
    assert_eq!(r.event.provider, id(2));
    assert_eq!(r.event.agent, id(1));
    assert_eq!(r.event.amount, 1_000);
    assert_eq!(r.event.nonce, 1);
    assert_eq!(e.vaults.entries[0].total_settled, 1_000);
    assert_eq!(e.vaults.entries[0].nonce, 1);
    assert_eq!(e.vaults.entries[0].last_settlement_slot, 42);

    let replay = e.settle_batch(
        id(5),
        id(1),
        id(2),
        id(3),
        1_000,
        1,
        &att_for(id(1), id(2), 1_000, 1),
        43,
    );
    assert_eq!(replay.unwrap_err(), FlowError::InvalidNonce);
    assert_eq!(e.vaults.entries[0].total_settled, 1_000);
    assert_eq!(e.vaults.entries[0].nonce, 1);

    let too_much = e.settle_batch(
        id(5),
        id(1),
        id(2),
        id(3),
        999_001,
        2,
        &att_for(id(1), id(2), 999_001, 2),
        44,
    );
    assert_eq!(too_much.unwrap_err(), FlowError::InsufficientFunds);
    assert_eq!(e.vaults.entries[0].total_settled, 1_000);

    let rest = e
        .settle_batch(
            id(5),
            id(1),
            id(2),
            id(3),
            999_000,
            2,
            &att_for(id(1), id(2), 999_000, 2),
            45,
        )
        .unwrap();
    assert_eq!(rest.event.amount, 999_000);
    assert_eq!(e.vaults.entries[0].total_settled, 1_000_000);
    assert_eq!(e.vaults.entries[0].nonce, 2);

    let w = e.withdraw(id(1), id(1), 0).unwrap();
    assert_eq!(w.vault, id(1));
    assert_eq!(w.agent, id(1));
    assert_eq!(w.amount, 0);
    assert!(e.vaults.entries.is_empty());

    let gone = e.settle_batch(
        id(5),
        id(1),
        id(2),
        id(3),
        1_000,
        3,
        &att_for(id(1), id(2), 1_000, 3),
        46,
    );
    assert_eq!(gone.unwrap_err(), FlowError::NotFound);
    assert_eq!(e.withdraw(id(1), id(1), 0).unwrap_err(), FlowError::NotFound);
}

#[test]
fn settled_total_accumulates_and_nonces_are_consecutive() {
    let mut e = funded_engine();
    let amounts = [1_000u64, 2_500, 40_000];
    let mut total = 0u64;
    for (k, amount) in amounts.iter().enumerate() {
        let nonce = (k as u64) + 1;
        let r = e
            .settle_batch(
                id(5),
                id(1),
                id(2),
                id(3),
                *amount,
                nonce,
                &att_for(id(1), id(2), *amount, nonce),
                100 + nonce,
            )
            .unwrap();
        total += *amount;
        assert_eq!(r.event.nonce, nonce);
        assert_eq!(e.vaults.entries[0].total_settled, total);
        assert_eq!(e.vaults.entries[0].nonce, nonce);
        assert!(e.vaults.entries[0].total_settled <= e.vaults.entries[0].deposit_amount);
    }
}

#[test]
fn nonce_skip_is_rejected() {
    let mut e = funded_engine();
    let r = e.settle_batch(id(5), id(1), id(2), id(3), 1_000, 2, &att_for(id(1), id(2), 1_000, 2), 1);
    assert_eq!(r.unwrap_err(), FlowError::InvalidNonce);
    assert_eq!(e.vaults.entries[0].nonce, 0);
    assert_eq!(e.vaults.entries[0].total_settled, 0);
}

#[test]
fn every_single_byte_flip_invalidates_the_signature() {
    let mut e = funded_engine();
    let good = canonical_message(&id(1), &id(2), 5_000, 1);
    assert_eq!(good.len(), 96);
    for i in 0..96 {
        let mut bad = good.clone();
        bad[i] ^= 0x01;
        let att = Some(Attestation { signer: id(1), message: bad });
        let r = e.settle_batch(id(5), id(1), id(2), id(3), 5_000, 1, &att, 7);
        assert_eq!(r.unwrap_err(), FlowError::InvalidSignature);
        assert_eq!(e.vaults.entries[0].total_settled, 0);
        assert_eq!(e.vaults.entries[0].nonce, 0);
    }
    let r = e
        .settle_batch(id(5), id(1), id(2), id(3), 5_000, 1, &Some(Attestation { signer: id(1), message: good }), 7)
        .unwrap();
    assert_eq!(r.event.amount, 5_000);
}

#[test]
fn wrong_signer_is_rejected() {
    let mut e = funded_engine();
    let att = Some(Attestation { signer: id(4), message: canonical_message(&id(1), &id(2), 5_000, 1) });
    let r = e.settle_batch(id(5), id(1), id(2), id(3), 5_000, 1, &att, 7);
    assert_eq!(r.unwrap_err(), FlowError::InvalidSignature);
}

#[test]
fn missing_attestation_is_rejected() {
    let mut e = funded_engine();
    let r = e.settle_batch(id(5), id(1), id(2), id(3), 5_000, 1, &None, 7);
    assert_eq!(r.unwrap_err(), FlowError::InvalidSignature);
}

#[test]
fn below_threshold_is_rejected_despite_valid_signature_and_nonce() {
    let mut e = funded_engine();
    let r = e.settle_batch(id(5), id(1), id(2), id(3), 999, 1, &att_for(id(1), id(2), 999, 1), 7);
    assert_eq!(r.unwrap_err(), FlowError::BelowThreshold);
    assert_eq!(e.vaults.entries[0].total_settled, 0);
    assert_eq!(e.vaults.entries[0].nonce, 0);
}

#[test]
fn amount_equal_to_threshold_is_accepted() {
    let mut e = funded_engine();
    let r = e.settle_batch(id(5), id(1), id(2), id(3), 1_000, 1, &att_for(id(1), id(2), 1_000, 1), 7);
    assert!(r.is_ok());
}

#[test]
fn destination_mismatch_is_rejected() {
    let mut e = funded_engine();
    let r = e.settle_batch(id(5), id(1), id(2), id(4), 5_000, 1, &att_for(id(1), id(2), 5_000, 1), 7);
    assert_eq!(r.unwrap_err(), FlowError::Unauthorized);
    assert_eq!(e.vaults.entries[0].total_settled, 0);
}

#[test]
fn unknown_provider_is_rejected() {
    let mut e = funded_engine();
    let r = e.settle_batch(id(5), id(1), id(6), id(3), 5_000, 1, &att_for(id(1), id(6), 5_000, 1), 7);
    assert_eq!(r.unwrap_err(), FlowError::NotFound);
}

#[test]
fn uninitialized_config_rejects_settlement() {
    let mut e = Engine::new();
    e.register_provider(id(2), id(3), None, PaymentProtocol::NativeTransfer).unwrap();
    e.create_vault(id(1), id(7), id(8), 1_000_000).unwrap();
    let r = e.settle_batch(id(5), id(1), id(2), id(3), 5_000, 1, &att_for(id(1), id(2), 5_000, 1), 7);
    assert_eq!(r.unwrap_err(), FlowError::NotFound);
}

#[test]
fn nonce_increment_overflow_is_reported() {
    let mut e = funded_engine();
    e.vaults.entries[0].nonce = u64::MAX;
    let r = e.settle_batch(id(5), id(1), id(2), id(3), 5_000, 0, &att_for(id(1), id(2), 5_000, 0), 7);
    assert_eq!(r.unwrap_err(), FlowError::Overflow);
}

#[test]
fn merchant_id_is_carried_into_the_settlement_event() {
    let mut e = Engine::new();
    e.initialize_config(id(9), 1_000, 25).unwrap();
    e.register_provider(
        id(2),
        id(3),
        Some(String::from("merchant-77")),
        PaymentProtocol::BridgeProtocol,
    )
    .unwrap();
    e.create_vault(id(1), id(7), id(8), 1_000_000).unwrap();
    let r = e
        .settle_batch(id(5), id(1), id(2), id(3), 5_000, 1, &att_for(id(1), id(2), 5_000, 1), 7)
        .unwrap();
    assert_eq!(r.event.external_merchant_id, Some(String::from("merchant-77")));
}

#[test]
fn withdraw_returns_the_full_holding_balance() {
    let mut e = funded_engine();
    let w = e.withdraw(id(1), id(1), 994_000).unwrap();
    assert_eq!(w.amount, 994_000);
    assert!(e.vaults.entries.is_empty());
}

#[test]
fn withdraw_by_anyone_but_the_agent_is_rejected() {
    let mut e = funded_engine();
    let r = e.withdraw(id(4), id(1), 100);
    assert_eq!(r.unwrap_err(), FlowError::Unauthorized);
    assert_eq!(e.vaults.entries.len(), 1);
}

#[test]
fn duplicate_vault_is_rejected() {
    let mut e = funded_engine();
    let r = e.create_vault(id(1), id(7), id(8), 500);
    assert_eq!(r.unwrap_err(), FlowError::AlreadyExists);
    assert_eq!(e.vaults.entries.len(), 1);
    assert_eq!(e.vaults.entries[0].deposit_amount, 1_000_000);
}

#[test]
fn vault_can_be_recreated_after_withdrawal() {
    let mut e = funded_engine();
    e.withdraw(id(1), id(1), 0).unwrap();
    let ev = e.create_vault(id(1), id(7), id(8), 2_000).unwrap();
    assert_eq!(ev.initial_deposit, 2_000);
    assert_eq!(e.vaults.entries[0].nonce, 0);
    assert_eq!(e.vaults.entries[0].total_settled, 0);
}

#[test]
fn duplicate_provider_is_rejected() {
    let mut e = funded_engine();
    let r = e.register_provider(id(2), id(6), None, PaymentProtocol::NativeTransfer);
    assert_eq!(r.unwrap_err(), FlowError::AlreadyExists);
    assert_eq!(e.providers.entries.len(), 1);
    assert_eq!(e.providers.entries[0].destination, id(3));
}

#[test]
fn provider_registration_returns_the_authority_as_id() {
    let mut e = Engine::new();
    let pid = e.register_provider(id(2), id(3), None, PaymentProtocol::NativeTransfer).unwrap();
    assert_eq!(pid, id(2));
}

#[test]
fn config_initializes_once() {
    let mut e = Engine::new();
    e.initialize_config(id(9), 77, 3).unwrap();
    let c = e.config.unwrap();
    assert_eq!(c.admin, id(9));
    assert_eq!(c.settle_threshold, 77);
    assert_eq!(c.fee_bps, 3);
    let again = e.initialize_config(id(10), 88, 4);
    assert_eq!(again.unwrap_err(), FlowError::AlreadyExists);
    assert_eq!(e.config.unwrap().settle_threshold, 77);
}

#[test]
fn pause_flag_is_recorded_but_gates_nothing() {
    let mut e = funded_engine();
    assert_eq!(e.emergency_pause(id(4), true).unwrap_err(), FlowError::Unauthorized);
    assert!(!e.paused);
    e.emergency_pause(id(9), true).unwrap();
    assert!(e.paused);
    let r = e.settle_batch(id(5), id(1), id(2), id(3), 5_000, 1, &att_for(id(1), id(2), 5_000, 1), 7);
    assert!(r.is_ok());
    e.emergency_pause(id(9), false).unwrap();
    assert!(!e.paused);
}

#[test]
fn pause_without_config_is_not_found() {
    let mut e = Engine::new();
    assert_eq!(e.emergency_pause(id(9), true).unwrap_err(), FlowError::NotFound);
}

#[test]
fn two_vaults_settle_independently() {
    let mut e = funded_engine();
    e.create_vault(id(11), id(7), id(18), 50_000).unwrap();
    let r = e
        .settle_batch(id(5), id(11), id(2), id(3), 20_000, 1, &att_for(id(11), id(2), 20_000, 1), 9)
        .unwrap();
    assert_eq!(r.transfer.from, id(18));
    assert_eq!(e.vaults.entries[0].total_settled, 0);
    assert_eq!(e.vaults.entries[1].total_settled, 20_000);
    let v: Vault = e.vaults.entries[1];
    assert_eq!(v.agent, id(11));
    assert_eq!(v.deposit_amount, 50_000);
}
