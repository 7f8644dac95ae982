//! Laws of the builder, stated and proved over the same spec functions its
//! contracts use.

use vstd::prelude::*;
use crate::builder::{
    Buildable, BuildableAloc, BuildableStd, BuilderV, builder_wf, spec_add_coin, spec_finalized,
    spec_finalized_unsigned, spec_upsert,
};
use crate::crypto::owner_of;
use crate::ledger::{
    LedgerEntryV, ledger_contains, ledger_index_of, lemma_ledger_insert_properties,
};
use crate::tx::{Create, CreateV, slots_sorted};
use crate::types::{InputV, TxPointer, UtxoIdV};

verus! {

/// Registering an already-known signing key changes nothing at all — no new
/// witness, no ledger growth, no counter advance — and returns the index
/// fixed at its first registration, whatever the witness count has grown to.
pub proof fn lemma_upsert_known_key<Tx: Buildable>(b: BuilderV<<Tx as View>::V>, key: Seq<u8>)
    requires
        ledger_contains(b.sign_keys, key),
    ensures
        spec_upsert::<Tx>(b, key).0 == b,
        spec_upsert::<Tx>(b, key).1 == ledger_index_of(b.sign_keys, key),
{
}

/// Registering a fresh signing key appends exactly one empty placeholder
/// witness, assigns the witness count before the append as the key's index,
/// records the mapping, and touches nothing else: inputs, outputs, policies,
/// metadata, parameters and every other key's index stay as they were.
pub proof fn lemma_upsert_fresh_key<Tx: Buildable>(b: BuilderV<<Tx as View>::V>, key: Seq<u8>)
    requires
        builder_wf::<Tx>(b),
        !ledger_contains(b.sign_keys, key),
        Tx::v_witnesses(b.tx).len() <= 255,
    ensures
        ({
            let r = spec_upsert::<Tx>(b, key);
            &&& r.1 as int == Tx::v_witnesses(b.tx).len()
            &&& Tx::v_witnesses(r.0.tx) == Tx::v_witnesses(b.tx).push(Seq::<u8>::empty())
            &&& Tx::v_inputs(r.0.tx) == Tx::v_inputs(b.tx)
            &&& Tx::v_outputs(r.0.tx) == Tx::v_outputs(b.tx)
            &&& Tx::v_policies(r.0.tx) == Tx::v_policies(b.tx)
            &&& Tx::v_metadata(r.0.tx) == Tx::v_metadata(b.tx)
            &&& r.0.params == b.params
            &&& r.0.sign_keys.len() == b.sign_keys.len() + 1
            &&& ledger_contains(r.0.sign_keys, key)
            &&& ledger_index_of(r.0.sign_keys, key) == r.1
            &&& forall|k: Seq<u8>|
                k != key ==> #[trigger] ledger_contains(r.0.sign_keys, k) == ledger_contains(
                    b.sign_keys,
                    k,
                )
            &&& forall|k: Seq<u8>|
                k != key && ledger_contains(b.sign_keys, k) ==> #[trigger] ledger_index_of(
                    r.0.sign_keys,
                    k,
                ) == ledger_index_of(b.sign_keys, k)
        }),
{
    let idx = Tx::v_witnesses(b.tx).len() as u8;
    lemma_ledger_insert_properties(b.sign_keys, LedgerEntryV { key, index: idx });
    Tx::lemma_components(
        b.tx,
        Tx::v_inputs(b.tx),
        Tx::v_outputs(b.tx),
        Tx::v_witnesses(b.tx).push(Seq::empty()),
        Tx::v_policies(b.tx),
        Tx::v_metadata(b.tx),
    );
}

/// Registering an already-known signing key changes nothing and returns the
/// index fixed at its first registration; a fresh key appends exactly one
/// witness. So a key added any number of times accounts for exactly one
/// appended witness and one stable index.
pub proof fn lemma_upsert_idempotent<Tx: Buildable>(b: BuilderV<<Tx as View>::V>, key: Seq<u8>)
    requires
        builder_wf::<Tx>(b),
        ledger_contains(b.sign_keys, key) || Tx::v_witnesses(b.tx).len() <= 255,
    ensures
        ({
            let first = spec_upsert::<Tx>(b, key);
            let second = spec_upsert::<Tx>(first.0, key);
            &&& second.0 == first.0
            &&& second.1 == first.1
            &&& ledger_contains(b.sign_keys, key) ==> first.0 == b
            &&& !ledger_contains(b.sign_keys, key) ==> Tx::v_witnesses(first.0.tx)
                == Tx::v_witnesses(b.tx).push(Seq::<u8>::empty())
        }),
{
    if !ledger_contains(b.sign_keys, key) {
        let idx = Tx::v_witnesses(b.tx).len() as u8;
        let e = LedgerEntryV { key, index: idx };
        lemma_ledger_insert_properties(b.sign_keys, e);
        Tx::lemma_components(
            b.tx,
            Tx::v_inputs(b.tx),
            Tx::v_outputs(b.tx),
            Tx::v_witnesses(b.tx).push(Seq::empty()),
            Tx::v_policies(b.tx),
            Tx::v_metadata(b.tx),
        );
    }
}

/// Two coin inputs added under the same (previously unknown) signing key:
/// exactly one witness is appended in all, and both inputs reference that
/// same single witness index, the witness count at first registration.
pub proof fn lemma_same_key_single_witness<Tx: Buildable>(
    b: BuilderV<<Tx as View>::V>,
    key: Seq<u8>,
    u1: UtxoIdV,
    a1: u64,
    s1: Seq<u8>,
    p1: TxPointer,
    u2: UtxoIdV,
    a2: u64,
    s2: Seq<u8>,
    p2: TxPointer,
)
    requires
        builder_wf::<Tx>(b),
        !ledger_contains(b.sign_keys, key),
        Tx::v_witnesses(b.tx).len() <= 255,
    ensures
        ({
            let idx = Tx::v_witnesses(b.tx).len() as u8;
            let b1 = spec_add_coin::<Tx>(b, key, u1, a1, s1, p1);
            let b2 = spec_add_coin::<Tx>(b1, key, u2, a2, s2, p2);
            &&& Tx::v_witnesses(b2.tx) == Tx::v_witnesses(b.tx).push(Seq::<u8>::empty())
            &&& Tx::v_inputs(b2.tx) == Tx::v_inputs(b.tx).push(
                InputV::CoinSigned {
                    utxo_id: u1,
                    owner: owner_of(key),
                    amount: a1,
                    asset_id: s1,
                    tx_pointer: p1,
                    witness_index: idx,
                },
            ).push(
                InputV::CoinSigned {
                    utxo_id: u2,
                    owner: owner_of(key),
                    amount: a2,
                    asset_id: s2,
                    tx_pointer: p2,
                    witness_index: idx,
                },
            )
        }),
{
    let idx = Tx::v_witnesses(b.tx).len() as u8;
    let e = LedgerEntryV { key, index: idx };
    lemma_ledger_insert_properties(b.sign_keys, e);
    let w1 = Tx::v_witnesses(b.tx).push(Seq::empty());
    Tx::lemma_components(
        b.tx,
        Tx::v_inputs(b.tx),
        Tx::v_outputs(b.tx),
        w1,
        Tx::v_policies(b.tx),
        Tx::v_metadata(b.tx),
    );
    let up1 = spec_upsert::<Tx>(b, key);
    let i1 = InputV::CoinSigned {
        utxo_id: u1,
        owner: owner_of(key),
        amount: a1,
        asset_id: s1,
        tx_pointer: p1,
        witness_index: idx,
    };
    Tx::lemma_components(
        up1.0.tx,
        Tx::v_inputs(up1.0.tx).push(i1),
        Tx::v_outputs(up1.0.tx),
        Tx::v_witnesses(up1.0.tx),
        Tx::v_policies(up1.0.tx),
        Tx::v_metadata(up1.0.tx),
    );
    let b1 = spec_add_coin::<Tx>(b, key, u1, a1, s1, p1);
    // the key is known in b1, with the same index
    assert(ledger_contains(b1.sign_keys, key));
    assert(ledger_index_of(b1.sign_keys, key) == idx);
    let i2 = InputV::CoinSigned {
        utxo_id: u2,
        owner: owner_of(key),
        amount: a2,
        asset_id: s2,
        tx_pointer: p2,
        witness_index: idx,
    };
    Tx::lemma_components(
        b1.tx,
        Tx::v_inputs(b1.tx).push(i2),
        Tx::v_outputs(b1.tx),
        Tx::v_witnesses(b1.tx),
        Tx::v_policies(b1.tx),
        Tx::v_metadata(b1.tx),
    );
}

/// The state after registering a sequence of keys, one by one.
pub open spec fn spec_upsert_all<Tx: Buildable>(
    b: BuilderV<<Tx as View>::V>,
    keys: Seq<Seq<u8>>,
) -> BuilderV<<Tx as View>::V>
    decreases keys.len(),
{
    if keys.len() == 0 {
        b
    } else {
        spec_upsert::<Tx>(spec_upsert_all::<Tx>(b, keys.drop_last()), keys.last()).0
    }
}

/// Registering `n` distinct keys on a builder whose ledger is empty yields
/// witness indices exactly `w, w+1, ..., w+n-1`, where `w` is the witness
/// count the builder started with: 0 for a fresh executable-kind builder,
/// 1 for a fresh creation-kind builder (slot 0 holds its bytecode). Every
/// appended witness placeholder is empty.
pub proof fn lemma_distinct_keys_consecutive_indices<Tx: Buildable>(
    b: BuilderV<<Tx as View>::V>,
    keys: Seq<Seq<u8>>,
)
    requires
        builder_wf::<Tx>(b),
        b.sign_keys == Seq::<LedgerEntryV>::empty(),
        forall|i: int, j: int| 0 <= i < j < keys.len() ==> keys[i] != keys[j],
        Tx::v_witnesses(b.tx).len() + keys.len() <= 256,
    ensures
        ({
            let r = spec_upsert_all::<Tx>(b, keys);
            let w = Tx::v_witnesses(b.tx).len() as int;
            &&& builder_wf::<Tx>(r)
            &&& Tx::v_witnesses(r.tx).len() == w + keys.len()
            &&& forall|i: int|
                0 <= i < Tx::v_witnesses(b.tx).len() ==> Tx::v_witnesses(r.tx)[i]
                    == Tx::v_witnesses(b.tx)[i]
            &&& forall|i: int|
                w <= i < w + keys.len() ==> Tx::v_witnesses(r.tx)[i] == Seq::<u8>::empty()
            &&& forall|k: Seq<u8>| #[trigger] ledger_contains(r.sign_keys, k) == keys.contains(k)
            &&& forall|i: int|
                0 <= i < keys.len() ==> ledger_contains(r.sign_keys, #[trigger] keys[i])
                    && ledger_index_of(r.sign_keys, keys[i]) as int == w + i
        }),
    decreases keys.len(),
{
    if keys.len() == 0 {
        assert forall|k: Seq<u8>| #[trigger] ledger_contains(b.sign_keys, k)
            == keys.contains(k) by {
            assert(!ledger_contains(b.sign_keys, k));
            assert(!keys.contains(k));
        }
    } else {
        let head = keys.drop_last();
        let last = keys.last();
        lemma_distinct_keys_consecutive_indices::<Tx>(b, head);
        let r0 = spec_upsert_all::<Tx>(b, head);
        let w = Tx::v_witnesses(b.tx).len() as int;
        assert forall|i: int, j: int| 0 <= i < j < head.len() implies head[i] != head[j] by {
            assert(head[i] == keys[i]);
            assert(head[j] == keys[j]);
        }
        // the last key is fresh in r0
        assert(!head.contains(last)) by {
            if head.contains(last) {
                let i = choose|i: int| 0 <= i < head.len() && head[i] == last;
                assert(keys[i] == keys[keys.len() - 1]);
            }
        }
        assert(!ledger_contains(r0.sign_keys, last));
        let idx = Tx::v_witnesses(r0.tx).len() as u8;
        let e = LedgerEntryV { key: last, index: idx };
        lemma_ledger_insert_properties(r0.sign_keys, e);
        Tx::lemma_components(
            r0.tx,
            Tx::v_inputs(r0.tx),
            Tx::v_outputs(r0.tx),
            Tx::v_witnesses(r0.tx).push(Seq::empty()),
            Tx::v_policies(r0.tx),
            Tx::v_metadata(r0.tx),
        );
        let r = spec_upsert_all::<Tx>(b, keys);
        assert(r == spec_upsert::<Tx>(r0, last).0);
        crate::ledger::lemma_ledger_insert_elements(r0.sign_keys, e);
        assert forall|t: int| 0 <= t < r.sign_keys.len() implies (
        #[trigger] r.sign_keys[t].index as int) < Tx::v_witnesses(r.tx).len() by {
            let entry = r.sign_keys[t];
            if entry != e {
                assert(r0.sign_keys.contains(entry));
                let j = choose|j: int|
                    0 <= j < r0.sign_keys.len() && r0.sign_keys[j] == entry;
            }
        }
        assert forall|k: Seq<u8>| #[trigger] ledger_contains(r.sign_keys, k)
            == keys.contains(k) by {
            if k == last {
                assert(keys.contains(k)) by {
                    assert(keys[keys.len() - 1] == k);
                }
            } else {
                assert(ledger_contains(r.sign_keys, k) == ledger_contains(r0.sign_keys, k));
                if head.contains(k) {
                    let i = choose|i: int| 0 <= i < head.len() && head[i] == k;
                    assert(keys[i] == k);
                    assert(keys.contains(k));
                }
                if keys.contains(k) {
                    let i = choose|i: int| 0 <= i < keys.len() && keys[i] == k;
                    assert(i < keys.len() - 1);
                    assert(head[i] == k);
                    assert(head.contains(k));
                }
            }
        }
        assert forall|i: int| 0 <= i < keys.len() implies ledger_contains(
            r.sign_keys,
            #[trigger] keys[i],
        ) && ledger_index_of(r.sign_keys, keys[i]) as int == w + i by {
            if i < keys.len() - 1 {
                assert(head[i] == keys[i]);
                assert(head.contains(keys[i])) by {
                    assert(head[i] == keys[i]);
                }
                assert(keys[i] != last) by {
                    assert(keys[i] == keys[i]);
                }
                assert(ledger_index_of(r.sign_keys, keys[i]) == ledger_index_of(
                    r0.sign_keys,
                    keys[i],
                ));
            } else {
                assert(keys[i] == last);
                assert(ledger_index_of(r.sign_keys, last) == idx);
            }
        }
    }
}

/// After `i` distinct keys were registered on a builder that started with an
/// empty ledger (and no interleaved witness or input additions), the next
/// fresh key receives index `w + i`, where `w` is the starting witness count:
/// the `(i+1)`-th distinct key on a fresh executable-kind builder gets index
/// `i`, and on a fresh creation-kind builder index `i + 1`.
pub proof fn lemma_next_key_gets_next_index<Tx: Buildable>(
    b: BuilderV<<Tx as View>::V>,
    keys: Seq<Seq<u8>>,
    key: Seq<u8>,
)
    requires
        builder_wf::<Tx>(b),
        b.sign_keys == Seq::<LedgerEntryV>::empty(),
        forall|i: int, j: int| 0 <= i < j < keys.len() ==> keys[i] != keys[j],
        !keys.contains(key),
        Tx::v_witnesses(b.tx).len() + keys.len() + 1 <= 256,
    ensures
        spec_upsert::<Tx>(spec_upsert_all::<Tx>(b, keys), key).1 as int == Tx::v_witnesses(
            b.tx,
        ).len() + keys.len(),
{
    lemma_distinct_keys_consecutive_indices::<Tx>(b, keys);
}

/// On a fresh executable-kind builder (no witnesses yet), `n` distinct keys
/// receive witness indices exactly `0, 1, ..., n-1`.
pub proof fn lemma_script_indices_start_at_zero(b: BuilderV<crate::tx::ScriptV>, keys: Seq<Seq<u8>>)
    requires
        b.sign_keys == Seq::<LedgerEntryV>::empty(),
        b.tx.witnesses == Seq::<Seq<u8>>::empty(),
        forall|i: int, j: int| 0 <= i < j < keys.len() ==> keys[i] != keys[j],
        keys.len() <= 256,
    ensures
        ({
            let r = spec_upsert_all::<crate::tx::Script>(b, keys);
            forall|i: int|
                0 <= i < keys.len() ==> ledger_contains(r.sign_keys, #[trigger] keys[i])
                    && ledger_index_of(r.sign_keys, keys[i]) as int == i
        }),
{
    lemma_distinct_keys_consecutive_indices::<crate::tx::Script>(b, keys);
}

/// On a fresh creation-kind builder, whose witness slot 0 already holds the
/// bytecode, `n` distinct keys receive witness indices exactly `1, ..., n`.
pub proof fn lemma_create_indices_start_at_one(b: BuilderV<CreateV>, keys: Seq<Seq<u8>>)
    requires
        b.sign_keys == Seq::<LedgerEntryV>::empty(),
        b.tx.witnesses.len() == 1,
        forall|i: int, j: int| 0 <= i < j < keys.len() ==> keys[i] != keys[j],
        keys.len() <= 255,
    ensures
        ({
            let r = spec_upsert_all::<Create>(b, keys);
            forall|i: int|
                0 <= i < keys.len() ==> ledger_contains(r.sign_keys, #[trigger] keys[i])
                    && ledger_index_of(r.sign_keys, keys[i]) as int == i + 1
        }),
{
    lemma_distinct_keys_consecutive_indices::<Create>(b, keys);
}

/// The unsigned finalization changes no witness: its result carries exactly
/// the draft's witness sequence (default-empty placeholders, plus whatever
/// was pre-populated, such as a creation draft's bytecode slot), and only the
/// cached metadata is new.
pub proof fn lemma_unsigned_finalize_keeps_witnesses<Tx: Buildable>(
    v: <Tx as View>::V,
    chain_id: u64,
)
    ensures
        Tx::v_witnesses(spec_finalized_unsigned::<Tx>(v, chain_id)) == Tx::v_witnesses(v),
        Tx::v_inputs(spec_finalized_unsigned::<Tx>(v, chain_id)) == Tx::v_inputs(v),
        Tx::v_outputs(spec_finalized_unsigned::<Tx>(v, chain_id)) == Tx::v_outputs(v),
        Tx::v_policies(spec_finalized_unsigned::<Tx>(v, chain_id)) == Tx::v_policies(v),
{
    Tx::lemma_components(
        v,
        Tx::v_inputs(v),
        Tx::v_outputs(v),
        Tx::v_witnesses(v),
        Tx::v_policies(v),
        Some(crate::crypto::sha256_of(Tx::v_id_bytes(v, chain_id))),
    );
}

/// Signing and canonicalization leave a creation draft's body fields alone:
/// in particular the finalized storage-slot sequence is the draft's, which
/// the creation constructor sorted ascending by key. So a finalized creation
/// transaction's slots are sorted whatever order they were given in.
pub proof fn lemma_finalized_create_slots_sorted(
    b: BuilderV<CreateV>,
    chain_id: u64,
)
    requires
        slots_sorted(b.tx.storage_slots),
    ensures
        spec_finalized::<Create>(b.tx, b.sign_keys, chain_id).storage_slots
            == b.tx.storage_slots,
        slots_sorted(spec_finalized::<Create>(b.tx, b.sign_keys, chain_id).storage_slots),
        spec_finalized_unsigned::<Create>(b.tx, chain_id).storage_slots == b.tx.storage_slots,
{
    let digest = crate::crypto::sha256_of(Create::v_signing_bytes(b.tx, chain_id));
    lemma_create_fold_keeps_slots(b.tx, b.sign_keys, digest);
}

/// Writing signatures into witness slots never touches a creation draft's
/// storage slots.
proof fn lemma_create_fold_keeps_slots(v: CreateV, entries: Seq<LedgerEntryV>, digest: Seq<u8>)
    ensures
        crate::builder::spec_sign_fold::<Create>(v, entries, digest).storage_slots
            == v.storage_slots,
    decreases entries.len(),
{
    if entries.len() > 0 {
        lemma_create_fold_keeps_slots(v, entries.drop_last(), digest);
    }
}

/// Finalization is deterministic: two finalized values obtained from the
/// same builder state (no mutation in between) are equal, their cached
/// derived id included.
pub proof fn lemma_finalize_deterministic<Tx: Buildable>(
    t1: <Tx as View>::V,
    t2: <Tx as View>::V,
    v: <Tx as View>::V,
    entries: Seq<LedgerEntryV>,
    chain_id: u64,
)
    requires
        t1 == spec_finalized::<Tx>(v, entries, chain_id),
        t2 == spec_finalized::<Tx>(v, entries, chain_id),
    ensures
        t1 == t2,
        Tx::v_metadata(t1) == Tx::v_metadata(t2),
{
}

} // verus!
