use tx_builder::builder::{Finalizable, TransactionBuilder};
use tx_builder::crypto::SigningKey;
use tx_builder::gas::default_gas_costs;
use tx_builder::params::{FeeParameters, TxParameters};
use tx_builder::types::{Output, TxPointer, Witness};

#[test]
fn default_gas_costs_hold_the_published_table() {
    let g = default_gas_costs();
    assert_eq!(g.add, 1);
    assert_eq!(g.bal, 13);
    assert_eq!(g.eck1, 951);
    assert_eq!(g.tro, 60);
    assert_eq!(g.wqmd, 4);
    assert_eq!(g.k256.base, 11);
    assert_eq!(g.k256.dep_per_unit, 214);
    assert_eq!(g.contract_root.base, 75);
    assert_eq!(g.contract_root.dep_per_unit, 1);
}

#[test]
fn builders_start_from_the_standard_parameter_profile() {
    let b = TransactionBuilder::script(vec![], vec![]);
    assert_eq!(b.get_chain_id(), 0);
    assert_eq!(b.get_tx_params().max_inputs, 255);
    assert_eq!(b.get_fee_params().gas_per_byte, 4);
    assert_eq!(b.get_params().base_asset_id, [0u8; 32]);
    assert_eq!(b.get_contract_params().max_storage_slots, 255);
    assert_eq!(b.get_script_params().max_script_length, 1_048_576);
    assert_eq!(b.get_predicate_params().max_gas_per_predicate, 30_000_000);
}

#[test]
fn subgroup_setters_replace_wholesale() {
    let mut b = TransactionBuilder::script(vec![], vec![]);
    b.with_tx_params(TxParameters {
        max_inputs: 4,
        max_outputs: 4,
        max_witnesses: 4,
        max_gas_per_tx: 1000,
        max_size: 2000,
    });
    assert_eq!(b.get_tx_params().max_inputs, 4);
    assert_eq!(b.get_tx_params().max_size, 2000);
    b.with_fee_params(FeeParameters { gas_price_factor: 2, gas_per_byte: 3 });
    assert_eq!(b.get_fee_params().gas_price_factor, 2);
    b.with_base_asset_id([7u8; 32]);
    assert_eq!(b.get_params().base_asset_id, [7u8; 32]);
}

#[test]
fn chain_id_flows_into_the_derived_id() {
    let mut a = TransactionBuilder::script(vec![], vec![]);
    let t0 = a.finalize_without_signature();
    a.with_chain_id(3);
    assert_eq!(a.get_chain_id(), 3);
    let t3 = a.finalize_without_signature();
    assert_ne!(t0.metadata.unwrap().id, t3.metadata.unwrap().id);
}

#[test]
fn invalid_key_bytes_are_rejected_at_construction() {
    assert!(SigningKey::from_bytes(&[0u8; 32]).is_none());
    assert!(SigningKey::from_bytes(&[0xFFu8; 32]).is_none());
    let k = SigningKey::from_bytes(&[1u8; 32]).expect("valid scalar");
    assert_eq!(k.as_bytes(), &[1u8; 32]);
}

#[test]
fn signatures_match_the_crypto_collaborator() {
    // the library's witness payloads are real secp256k1 signatures: 64 bytes,
    // deterministic, and not the key or message echoed back
    let mut b = TransactionBuilder::script(vec![], vec![]);
    let k = SigningKey::from_bytes(&[2u8; 32]).unwrap();
    b.add_unsigned_coin_input(k, tx_builder::types::UtxoId { tx_id: [0u8; 32], output_index: 0 },
        1, [0u8; 32], TxPointer::new(0, 0));
    let tx = b.finalize();
    let sig = &tx.witnesses[0].data;
    assert_eq!(sig.len(), 64);
    assert_ne!(&sig[..32], &k.as_bytes()[..]);
    let again = b.finalize();
    assert_eq!(sig, &again.witnesses[0].data);
}

#[test]
fn key_validation_and_owner_derivation_match_fuel_crypto() {
    for bytes in [[0u8; 32], [1u8; 32], [0x7Fu8; 32], [0xFFu8; 32]] {
        let theirs = fuel_crypto::SecretKey::try_from(&bytes[..]).is_ok();
        assert_eq!(SigningKey::from_bytes(&bytes).is_some(), theirs);
    }
    // an input's owner is the hash of the public key derived from its secret
    let mut b = TransactionBuilder::script(vec![], vec![]);
    let k = SigningKey::from_bytes(&[3u8; 32]).unwrap();
    b.add_unsigned_coin_input(k, tx_builder::types::UtxoId { tx_id: [0u8; 32], output_index: 0 },
        1, [0u8; 32], TxPointer::new(0, 0));
    let secret = fuel_crypto::SecretKey::try_from(&[3u8; 32][..]).unwrap();
    let expected: [u8; 32] = *secret.public_key().hash();
    match &b.inputs()[0] {
        tx_builder::types::Input::CoinSigned { owner, .. } => assert_eq!(owner, &expected),
        _ => panic!("expected a coin input"),
    }
}

#[test]
fn accumulators_append_in_order() {
    let mut b = TransactionBuilder::script(vec![], vec![]);
    b.add_output(Output::Coin { to: [1u8; 32], amount: 5, asset_id: [0u8; 32] });
    b.add_output(Output::Change { to: [2u8; 32], amount: 0, asset_id: [0u8; 32] });
    b.add_witness(Witness::from_bytes(vec![9, 9]));
    assert_eq!(b.outputs().len(), 2);
    match b.outputs()[0] {
        Output::Coin { amount, .. } => assert_eq!(amount, 5),
        _ => panic!("expected the coin output first"),
    }
    assert_eq!(b.witnesses().len(), 1);
    assert_eq!(b.witnesses()[0].data, vec![9, 9]);
}

#[test]
fn policy_setters_land_on_the_finalized_value() {
    let mut b = TransactionBuilder::script(vec![], vec![]);
    b.tip(11);
    b.maturity(22);
    b.witness_limit(33);
    b.max_fee_limit(44);
    b.script_gas_limit(55);
    let tx = b.finalize_without_signature();
    assert_eq!(tx.policies.tip, Some(11));
    assert_eq!(tx.policies.maturity, Some(22));
    assert_eq!(tx.policies.witness_limit, Some(33));
    assert_eq!(tx.policies.max_fee, Some(44));
    assert_eq!(tx.script_gas_limit, 55);
}

#[test]
fn fresh_drafts_carry_a_zeroed_max_fee_policy() {
    let b = TransactionBuilder::script(vec![], vec![]);
    let tx = b.finalize_without_signature();
    assert_eq!(tx.policies.max_fee, Some(0));
    assert_eq!(tx.policies.tip, None);
    let c = TransactionBuilder::create(Witness::from_bytes(vec![]), [0u8; 32], vec![]);
    let ct = c.finalize_without_signature();
    assert_eq!(ct.policies.max_fee, Some(0));
}
