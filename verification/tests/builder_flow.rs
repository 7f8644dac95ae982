use tx_builder::builder::{Finalizable, TransactionBuilder};
use tx_builder::crypto::SigningKey;
use tx_builder::types::{StorageSlot, TxPointer, UtxoId, Witness};
use tx_builder::tx::Transaction;

fn key(tag: u8) -> SigningKey {
    SigningKey::from_bytes(&[tag; 32]).expect("a small scalar is a valid secret key")
}

fn slot(key_tag: u8, value_tag: u8) -> StorageSlot {
    let mut k = [0u8; 32];
    k[31] = key_tag;
    let mut v = [0u8; 32];
    v[31] = value_tag;
    StorageSlot { key: k, value: v }
}

fn utxo(tag: u8) -> UtxoId {
    UtxoId { tx_id: [tag; 32], output_index: tag as u16 }
}

fn coin_witness_index(input: &tx_builder::types::Input) -> u8 {
    match input {
        tx_builder::types::Input::CoinSigned { witness_index, .. } => *witness_index,
        _ => panic!("expected a coin input"),
    }
}

#[test]
fn same_key_twice_appends_one_witness_and_both_inputs_point_at_slot_zero() {
    let mut b = TransactionBuilder::script(vec![1, 2, 3], vec![]);
    let k = key(7);
    b.add_unsigned_coin_input(k, utxo(1), 100, [9u8; 32], TxPointer::new(0, 0));
    b.add_unsigned_coin_input(k, utxo(2), 200, [9u8; 32], TxPointer::new(0, 0));
    assert_eq!(b.witnesses().len(), 1);
    assert_eq!(b.inputs().len(), 2);
    assert_eq!(coin_witness_index(&b.inputs()[0]), 0);
    assert_eq!(coin_witness_index(&b.inputs()[1]), 0);
    let tx = b.finalize();
    assert_eq!(tx.witnesses.len(), 1);
    assert_eq!(tx.witnesses[0].data.len(), 64);
}

#[test]
fn distinct_keys_get_indices_zero_up_on_a_script_builder() {
    let mut b = TransactionBuilder::script(vec![], vec![]);
    for tag in 1..=3u8 {
        b.add_unsigned_coin_input(key(tag), utxo(tag), 10, [0u8; 32], TxPointer::new(0, 0));
    }
    assert_eq!(b.witnesses().len(), 3);
    for i in 0..3usize {
        assert_eq!(coin_witness_index(&b.inputs()[i]), i as u8);
    }
}

#[test]
fn distinct_keys_get_indices_one_up_on_a_create_builder() {
    let mut b = TransactionBuilder::create(Witness::from_bytes(vec![0u8; 8]), [5u8; 32], vec![]);
    b.add_unsigned_coin_input(key(1), utxo(1), 10, [0u8; 32], TxPointer::new(0, 0));
    b.add_unsigned_coin_input(key(2), utxo(2), 10, [0u8; 32], TxPointer::new(0, 0));
    assert_eq!(b.witnesses().len(), 3);
    assert_eq!(coin_witness_index(&b.inputs()[0]), 1);
    assert_eq!(coin_witness_index(&b.inputs()[1]), 2);
}

#[test]
fn create_sorts_storage_slots_ascending_by_key() {
    let slots = vec![slot(3, 30), slot(1, 10), slot(2, 20)];
    let b = TransactionBuilder::create(Witness::from_bytes(vec![]), [0u8; 32], slots);
    let tx = b.finalize();
    assert_eq!(tx.storage_slots.len(), 3);
    assert_eq!(tx.storage_slots[0].key[31], 1);
    assert_eq!(tx.storage_slots[1].key[31], 2);
    assert_eq!(tx.storage_slots[2].key[31], 3);
    assert_eq!(tx.storage_slots[0].value[31], 10);
    assert_eq!(tx.storage_slots[2].value[31], 30);
}

#[test]
fn create_records_bytecode_as_witness_zero_and_its_quarter_length() {
    let b = TransactionBuilder::create(Witness::from_bytes(vec![7u8; 10]), [0u8; 32], vec![]);
    let tx = b.finalize_without_signature();
    assert_eq!(tx.bytecode_witness_index, 0);
    assert_eq!(tx.bytecode_length, 2);
    assert_eq!(tx.witnesses.len(), 1);
    assert_eq!(tx.witnesses[0].data, vec![7u8; 10]);
}

#[test]
fn unsigned_finalize_leaves_placeholder_witnesses_empty() {
    let mut b = TransactionBuilder::script(vec![], vec![]);
    b.add_unsigned_coin_input(key(1), utxo(1), 10, [0u8; 32], TxPointer::new(0, 0));
    b.add_unsigned_message_input(key(2), [4u8; 32], [6u8; 32], 50, vec![1, 2]);
    let tx = b.finalize_without_signature();
    assert_eq!(tx.witnesses.len(), 2);
    assert!(tx.witnesses[0].data.is_empty());
    assert!(tx.witnesses[1].data.is_empty());
    let signed = b.finalize();
    assert_eq!(signed.witnesses[0].data.len(), 64);
    assert_eq!(signed.witnesses[1].data.len(), 64);
}

#[test]
fn finalize_twice_yields_identical_derived_ids() {
    let mut b = TransactionBuilder::script(vec![1], vec![2]);
    b.add_unsigned_coin_input(key(1), utxo(1), 10, [3u8; 32], TxPointer::new(7, 1));
    let t1 = b.finalize();
    let t2 = b.finalize();
    assert_eq!(t1.metadata.unwrap().id, t2.metadata.unwrap().id);
    assert_eq!(t1.witnesses[0].data, t2.witnesses[0].data);
    let u1 = b.finalize_without_signature();
    let u2 = b.finalize_without_signature();
    assert_eq!(u1.metadata.unwrap().id, u2.metadata.unwrap().id);
}

#[test]
fn mutation_changes_the_derived_id() {
    let mut b = TransactionBuilder::script(vec![1], vec![2]);
    let t1 = b.finalize();
    b.tip(5);
    let t2 = b.finalize();
    assert_ne!(t1.metadata.unwrap().id, t2.metadata.unwrap().id);
    assert_eq!(t2.policies.tip, Some(5));
}

#[test]
fn canonicalization_digests_rather_than_echoes_the_body() {
    // the encoding of a fresh script draft under chain id 0 starts with
    // sixteen zero bytes; the cached id is a SHA-256 digest, not that prefix
    let b = TransactionBuilder::script(vec![], vec![]);
    let tx = b.finalize_without_signature();
    let id = tx.metadata.unwrap().id;
    assert_ne!(&id[..16], &[0u8; 16][..]);
}

#[test]
fn signing_derives_owner_addresses_rather_than_echoing_key_bytes() {
    let mut b = TransactionBuilder::script(vec![], vec![]);
    let k = key(1);
    b.add_unsigned_coin_input(k, utxo(1), 10, [0u8; 32], TxPointer::new(0, 0));
    match &b.inputs()[0] {
        tx_builder::types::Input::CoinSigned { owner, .. } => {
            assert_ne!(owner, k.as_bytes());
        },
        _ => panic!("expected a coin input"),
    }
}

#[test]
fn sign_keys_iterate_in_key_byte_order_not_insertion_order() {
    let mut b = TransactionBuilder::script(vec![], vec![]);
    b.add_unsigned_coin_input(key(2), utxo(1), 10, [0u8; 32], TxPointer::new(0, 0));
    b.add_unsigned_coin_input(key(1), utxo(2), 10, [0u8; 32], TxPointer::new(0, 0));
    let keys = b.sign_keys();
    assert_eq!(keys.len(), 2);
    assert_eq!(keys[0].as_bytes(), &[1u8; 32]);
    assert_eq!(keys[1].as_bytes(), &[2u8; 32]);
    // indices were fixed at insertion, regardless of iteration order
    assert_eq!(coin_witness_index(&b.inputs()[0]), 0);
    assert_eq!(coin_witness_index(&b.inputs()[1]), 1);
}

#[test]
fn mint_finalizations_coincide_and_carry_no_witnesses() {
    let input_contract = tx_builder::types::InputContract {
        utxo_id: utxo(1),
        balance_root: [0u8; 32],
        state_root: [0u8; 32],
        tx_pointer: TxPointer::new(0, 0),
        contract_id: [8u8; 32],
    };
    let output_contract = tx_builder::types::OutputContract {
        input_index: 0,
        balance_root: [0u8; 32],
        state_root: [0u8; 32],
    };
    let b = TransactionBuilder::mint(9, 2, input_contract, output_contract, 500, [1u8; 32], 10);
    let t1 = b.finalize();
    let t2 = b.finalize_without_signature();
    assert_eq!(t1.metadata.unwrap().id, t2.metadata.unwrap().id);
    assert_eq!(t1.tx_pointer.block_height, 9);
    assert_eq!(t1.tx_pointer.tx_index, 2);
    assert_eq!(t1.mint_amount, 500);
    // the reward kind has no witness or input/output accumulators at all
    match TransactionBuilder::mint(9, 2, input_contract, output_contract, 500, [1u8; 32], 10)
        .finalize_as_transaction()
    {
        Transaction::Mint(_) => {},
        _ => panic!("expected a mint transaction"),
    }
}

#[test]
fn a_known_key_is_reused_even_past_the_one_byte_witness_range() {
    let mut b = TransactionBuilder::script(vec![], vec![]);
    let k = key(9);
    b.add_unsigned_coin_input(k, utxo(1), 1, [0u8; 32], TxPointer::new(0, 0));
    for _ in 0..300 {
        b.add_witness(Witness::from_bytes(vec![0]));
    }
    // the key is known: registering it again must succeed with its old index
    // and append nothing, however far the witness sequence has grown
    b.add_unsigned_coin_input(k, utxo(2), 2, [0u8; 32], TxPointer::new(0, 0));
    assert_eq!(b.witnesses().len(), 301);
    assert_eq!(coin_witness_index(&b.inputs()[1]), 0);
}

#[test]
fn fee_inputs_are_deterministic_across_builders() {
    let mut a = TransactionBuilder::script(vec![], vec![]);
    let mut b = TransactionBuilder::script(vec![], vec![]);
    a.add_random_fee_input();
    b.add_random_fee_input();
    match (&a.inputs()[0], &b.inputs()[0]) {
        (
            tx_builder::types::Input::CoinSigned {
                utxo_id: u1, owner: o1, amount: m1, asset_id: s1, witness_index: w1, ..
            },
            tx_builder::types::Input::CoinSigned {
                utxo_id: u2, owner: o2, amount: m2, asset_id: s2, witness_index: w2, ..
            },
        ) => {
            assert_eq!(u1.tx_id, u2.tx_id);
            assert_eq!(u1.output_index, u2.output_index);
            assert_eq!(o1, o2);
            assert_eq!(m1, m2);
            assert_eq!(s1, s2);
            assert_eq!(w1, w2);
        },
        _ => panic!("expected coin inputs"),
    }
    // a second call draws the same key, so it appends a duplicate input but
    // reuses the witness slot
    a.add_random_fee_input();
    assert_eq!(a.inputs().len(), 2);
    assert_eq!(a.witnesses().len(), 1);
    assert_eq!(coin_witness_index(&a.inputs()[1]), 0);
}

#[test]
fn random_fee_input_registers_one_key_and_one_coin() {
    let mut b = TransactionBuilder::script(vec![], vec![]);
    b.add_random_fee_input();
    assert_eq!(b.inputs().len(), 1);
    assert_eq!(b.witnesses().len(), 1);
    assert_eq!(coin_witness_index(&b.inputs()[0]), 0);
    let tx = b.finalize();
    assert_eq!(tx.witnesses[0].data.len(), 64);
}

#[test]
fn finalize_as_transaction_wraps_the_concrete_kind() {
    let mut b = TransactionBuilder::script(vec![1], vec![]);
    match b.finalize_as_transaction() {
        Transaction::Script(s) => {
            assert!(s.metadata.is_some());
        },
        _ => panic!("expected a script transaction"),
    }
    let mut c = TransactionBuilder::create(Witness::from_bytes(vec![]), [0u8; 32], vec![]);
    match c.finalize_without_signature_as_transaction() {
        Transaction::Create(t) => {
            assert!(t.metadata.is_some());
        },
        _ => panic!("expected a creation transaction"),
    }
}
