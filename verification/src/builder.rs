//! The transaction builder: capability contracts, mutation, the signing-key
//! ledger hookup, and the two-phase finalize protocol.

use vstd::prelude::*;
use crate::crypto::{SigningKey, sha256_of, sig_of, owner_of, sign_digest, owner_address};
use crate::crypto::{
    draw_fee_values, fee_amount_of, fee_asset_of, fee_key_of, fee_output_index_of, fee_tx_id_of,
    is_valid_secret,
};
use crate::ledger::{
    KeyLedger, LedgerEntryV, ledger_contains, ledger_index_of, ledger_sorted,
    spec_ledger_insert, lemma_ledger_insert_properties, lemma_ledger_insert_elements,
};
use crate::params::{
    ConsensusParameters, ContractParameters, FeeParameters, PredicateParameters,
    ScriptParameters, TxParameters, is_standard_params,
};
use crate::gas::GasCosts;
use crate::types::{
    Input, InputV, Output, Policies, StorageSlot, TxPointer, UtxoId, UtxoIdV, Witness,
    views_of_inputs, views_of_witnesses,
};
use crate::tx::{
    Create, CreateV, Mint, MintV, Script, ScriptV, Transaction, TransactionV, sort_slots,
    slots_sorted, spec_finalized_mint,
};

verus! {

// ---------------------------------------------------------------------------
// Capability contracts
// ---------------------------------------------------------------------------

/// The core capability: a draft with input/output/witness accumulators and
/// policy overrides, clonable and convertible to the unified representation.
/// The spec functions name the five mutable components of the draft's view;
/// `v_with` is the view with exactly those components replaced, so a contract
/// over it pins every other field unchanged.
pub trait BuildableAloc: View + Sized {
    spec fn v_inputs(v: Self::V) -> Seq<InputV>;

    spec fn v_outputs(v: Self::V) -> Seq<Output>;

    spec fn v_witnesses(v: Self::V) -> Seq<Seq<u8>>;

    spec fn v_policies(v: Self::V) -> Policies;

    spec fn v_metadata(v: Self::V) -> Option<Seq<u8>>;

    spec fn v_with(
        v: Self::V,
        inputs: Seq<InputV>,
        outputs: Seq<Output>,
        witnesses: Seq<Seq<u8>>,
        policies: Policies,
        metadata: Option<Seq<u8>>,
    ) -> Self::V;

    /// Replacing the five components yields a view with exactly those
    /// components; nothing else of the draft moves.
    proof fn lemma_components(
        v: Self::V,
        inputs: Seq<InputV>,
        outputs: Seq<Output>,
        witnesses: Seq<Seq<u8>>,
        policies: Policies,
        metadata: Option<Seq<u8>>,
    )
        ensures
            Self::v_inputs(Self::v_with(v, inputs, outputs, witnesses, policies, metadata))
                == inputs,
            Self::v_outputs(Self::v_with(v, inputs, outputs, witnesses, policies, metadata))
                == outputs,
            Self::v_witnesses(Self::v_with(v, inputs, outputs, witnesses, policies, metadata))
                == witnesses,
            Self::v_policies(Self::v_with(v, inputs, outputs, witnesses, policies, metadata))
                == policies,
            Self::v_metadata(Self::v_with(v, inputs, outputs, witnesses, policies, metadata))
                == metadata,
    ;

    fn clone_draft(&self) -> (r: Self)
        ensures
            r@ == self@,
    ;

    fn inputs(&self) -> (r: &Vec<Input>)
        ensures
            views_of_inputs(r@) == Self::v_inputs(self@),
    ;

    fn outputs(&self) -> (r: &Vec<Output>)
        ensures
            r@ == Self::v_outputs(self@),
    ;

    fn witnesses(&self) -> (r: &Vec<Witness>)
        ensures
            views_of_witnesses(r@) == Self::v_witnesses(self@),
    ;

    fn push_input(&mut self, input: Input)
        ensures
            final(self)@ == Self::v_with(
                old(self)@,
                Self::v_inputs(old(self)@).push(input@),
                Self::v_outputs(old(self)@),
                Self::v_witnesses(old(self)@),
                Self::v_policies(old(self)@),
                Self::v_metadata(old(self)@),
            ),
            Self::v_inputs(final(self)@) == Self::v_inputs(old(self)@).push(input@),
            Self::v_outputs(final(self)@) == Self::v_outputs(old(self)@),
            Self::v_witnesses(final(self)@) == Self::v_witnesses(old(self)@),
            Self::v_policies(final(self)@) == Self::v_policies(old(self)@),
            Self::v_metadata(final(self)@) == Self::v_metadata(old(self)@),
    ;

    fn push_output(&mut self, output: Output)
        ensures
            final(self)@ == Self::v_with(
                old(self)@,
                Self::v_inputs(old(self)@),
                Self::v_outputs(old(self)@).push(output),
                Self::v_witnesses(old(self)@),
                Self::v_policies(old(self)@),
                Self::v_metadata(old(self)@),
            ),
            Self::v_inputs(final(self)@) == Self::v_inputs(old(self)@),
            Self::v_outputs(final(self)@) == Self::v_outputs(old(self)@).push(output),
            Self::v_witnesses(final(self)@) == Self::v_witnesses(old(self)@),
            Self::v_policies(final(self)@) == Self::v_policies(old(self)@),
            Self::v_metadata(final(self)@) == Self::v_metadata(old(self)@),
    ;

    fn push_witness(&mut self, witness: Witness)
        ensures
            final(self)@ == Self::v_with(
                old(self)@,
                Self::v_inputs(old(self)@),
                Self::v_outputs(old(self)@),
                Self::v_witnesses(old(self)@).push(witness@),
                Self::v_policies(old(self)@),
                Self::v_metadata(old(self)@),
            ),
            Self::v_inputs(final(self)@) == Self::v_inputs(old(self)@),
            Self::v_outputs(final(self)@) == Self::v_outputs(old(self)@),
            Self::v_witnesses(final(self)@) == Self::v_witnesses(old(self)@).push(witness@),
            Self::v_policies(final(self)@) == Self::v_policies(old(self)@),
            Self::v_metadata(final(self)@) == Self::v_metadata(old(self)@),
    ;

    fn set_witness_data(&mut self, index: u8, data: Vec<u8>)
        requires
            (index as int) < Self::v_witnesses(old(self)@).len(),
        ensures
            final(self)@ == Self::v_with(
                old(self)@,
                Self::v_inputs(old(self)@),
                Self::v_outputs(old(self)@),
                Self::v_witnesses(old(self)@).update(index as int, data@),
                Self::v_policies(old(self)@),
                Self::v_metadata(old(self)@),
            ),
            Self::v_inputs(final(self)@) == Self::v_inputs(old(self)@),
            Self::v_outputs(final(self)@) == Self::v_outputs(old(self)@),
            Self::v_witnesses(final(self)@) == Self::v_witnesses(old(self)@).update(
                index as int,
                data@,
            ),
            Self::v_policies(final(self)@) == Self::v_policies(old(self)@),
            Self::v_metadata(final(self)@) == Self::v_metadata(old(self)@),
    ;

    fn set_policies(&mut self, policies: Policies)
        ensures
            final(self)@ == Self::v_with(
                old(self)@,
                Self::v_inputs(old(self)@),
                Self::v_outputs(old(self)@),
                Self::v_witnesses(old(self)@),
                policies,
                Self::v_metadata(old(self)@),
            ),
            Self::v_inputs(final(self)@) == Self::v_inputs(old(self)@),
            Self::v_outputs(final(self)@) == Self::v_outputs(old(self)@),
            Self::v_witnesses(final(self)@) == Self::v_witnesses(old(self)@),
            Self::v_policies(final(self)@) == policies,
            Self::v_metadata(final(self)@) == Self::v_metadata(old(self)@),
    ;

    fn get_policies(&self) -> (r: Policies)
        ensures
            r == Self::v_policies(self@),
    ;
}

/// The signing and caching capabilities: a digest of the assembled body for
/// per-input signatures (independent of witness contents), and
/// canonicalization, which caches the derived transaction id.
pub trait BuildableStd: BuildableAloc {
    spec fn v_signing_bytes(v: Self::V, chain_id: u64) -> Seq<u8>;

    spec fn v_id_bytes(v: Self::V, chain_id: u64) -> Seq<u8>;

    fn signing_digest(&self, chain_id: u64) -> (d: [u8; 32])
        ensures
            d@ == sha256_of(Self::v_signing_bytes(self@, chain_id)),
    ;

    fn precompute(&mut self, chain_id: u64)
        ensures
            final(self)@ == Self::v_with(
                old(self)@,
                Self::v_inputs(old(self)@),
                Self::v_outputs(old(self)@),
                Self::v_witnesses(old(self)@),
                Self::v_policies(old(self)@),
                Some(sha256_of(Self::v_id_bytes(old(self)@, chain_id))),
            ),
            Self::v_inputs(final(self)@) == Self::v_inputs(old(self)@),
            Self::v_outputs(final(self)@) == Self::v_outputs(old(self)@),
            Self::v_witnesses(final(self)@) == Self::v_witnesses(old(self)@),
            Self::v_policies(final(self)@) == Self::v_policies(old(self)@),
            Self::v_metadata(final(self)@) == Some(
                sha256_of(Self::v_id_bytes(old(self)@, chain_id)),
            ),
    ;
}

/// Both capability sets together.
pub trait BuildableSet: BuildableAloc + BuildableStd {

}

/// A transaction kind the builder can fully drive: mutate, sign and
/// canonicalize.
pub trait Buildable: BuildableSet {

}

/// Conversion into the unified transaction sum type.
pub trait IntoTransaction: View + Sized {
    spec fn v_wrap(v: Self::V) -> TransactionV;

    fn into_transaction(self) -> (t: Transaction)
        ensures
            t@ == Self::v_wrap(self@),
    ;
}

// ---------------------------------------------------------------------------
// The builder
// ---------------------------------------------------------------------------

/// A draft transaction under construction, with an owned consensus-parameter
/// snapshot and the signing-key ledger.
#[derive(Debug)]
pub struct TransactionBuilder<Tx> {
    tx: Tx,
    params: ConsensusParameters,
    sign_keys: KeyLedger,
}

/// The mathematical value of a builder.
#[verifier::ext_equal]
pub ghost struct BuilderV<TxV> {
    pub tx: TxV,
    pub params: ConsensusParameters,
    pub sign_keys: Seq<LedgerEntryV>,
}

impl<Tx: View> View for TransactionBuilder<Tx> {
    type V = BuilderV<<Tx as View>::V>;

    closed spec fn view(&self) -> BuilderV<<Tx as View>::V> {
        BuilderV { tx: self.tx@, params: self.params, sign_keys: self.sign_keys@ }
    }
}

/// The builder's internal invariant: the ledger is sorted by key bytes and
/// every recorded witness index points into the draft's witness sequence.
pub open spec fn builder_wf<Tx: Buildable>(b: BuilderV<<Tx as View>::V>) -> bool {
    &&& ledger_sorted(b.sign_keys)
    &&& forall|i: int|
        0 <= i < b.sign_keys.len() ==> (#[trigger] b.sign_keys[i].index as int) < Tx::v_witnesses(
            b.tx,
        ).len()
}

/// Registering a signing key: if the key is known, nothing changes and its
/// index is returned; otherwise one empty witness is appended, the index is
/// the witness count before the append, and the mapping is recorded.
pub open spec fn spec_upsert<Tx: Buildable>(b: BuilderV<<Tx as View>::V>, key: Seq<u8>) -> (
    BuilderV<<Tx as View>::V>,
    u8,
) {
    if ledger_contains(b.sign_keys, key) {
        (b, ledger_index_of(b.sign_keys, key))
    } else {
        let idx = Tx::v_witnesses(b.tx).len() as u8;
        (
            BuilderV {
                tx: Tx::v_with(
                    b.tx,
                    Tx::v_inputs(b.tx),
                    Tx::v_outputs(b.tx),
                    Tx::v_witnesses(b.tx).push(Seq::empty()),
                    Tx::v_policies(b.tx),
                    Tx::v_metadata(b.tx),
                ),
                params: b.params,
                sign_keys: spec_ledger_insert(b.sign_keys, LedgerEntryV { key, index: idx }),
            },
            idx,
        )
    }
}

/// Registering a key and appending a coin input that spends under it.
pub open spec fn spec_add_coin<Tx: Buildable>(
    b: BuilderV<<Tx as View>::V>,
    key: Seq<u8>,
    utxo_id: UtxoIdV,
    amount: u64,
    asset_id: Seq<u8>,
    tx_pointer: TxPointer,
) -> BuilderV<<Tx as View>::V> {
    let r = spec_upsert::<Tx>(b, key);
    let input = InputV::CoinSigned {
        utxo_id,
        owner: owner_of(key),
        amount,
        asset_id,
        tx_pointer,
        witness_index: r.1,
    };
    BuilderV {
        tx: Tx::v_with(
            r.0.tx,
            Tx::v_inputs(r.0.tx).push(input),
            Tx::v_outputs(r.0.tx),
            Tx::v_witnesses(r.0.tx),
            Tx::v_policies(r.0.tx),
            Tx::v_metadata(r.0.tx),
        ),
        params: r.0.params,
        sign_keys: r.0.sign_keys,
    }
}

/// Registering a key and appending a message input whose recipient is the
/// key's owner address.
pub open spec fn spec_add_message<Tx: Buildable>(
    b: BuilderV<<Tx as View>::V>,
    key: Seq<u8>,
    sender: Seq<u8>,
    nonce: Seq<u8>,
    amount: u64,
    data: Seq<u8>,
) -> BuilderV<<Tx as View>::V> {
    let r = spec_upsert::<Tx>(b, key);
    let input = InputV::MessageCoinSigned {
        sender,
        recipient: owner_of(key),
        amount,
        nonce,
        witness_index: r.1,
        data,
    };
    BuilderV {
        tx: Tx::v_with(
            r.0.tx,
            Tx::v_inputs(r.0.tx).push(input),
            Tx::v_outputs(r.0.tx),
            Tx::v_witnesses(r.0.tx),
            Tx::v_policies(r.0.tx),
            Tx::v_metadata(r.0.tx),
        ),
        params: r.0.params,
        sign_keys: r.0.sign_keys,
    }
}

/// The draft after the signatures of the first `entries` ledger keys were
/// written, each into the witness slot its key was assigned. `digest` is the
/// signing digest of the draft, computed once before any signature lands.
pub open spec fn spec_sign_fold<Tx: Buildable>(
    v: <Tx as View>::V,
    entries: Seq<LedgerEntryV>,
    digest: Seq<u8>,
) -> <Tx as View>::V
    decreases entries.len(),
{
    if entries.len() == 0 {
        v
    } else {
        let prev = spec_sign_fold::<Tx>(v, entries.drop_last(), digest);
        let e = entries.last();
        Tx::v_with(
            prev,
            Tx::v_inputs(prev),
            Tx::v_outputs(prev),
            Tx::v_witnesses(prev).update(e.index as int, sig_of(e.key, digest)),
            Tx::v_policies(prev),
            Tx::v_metadata(prev),
        )
    }
}

/// Full finalization: sign every ledger key's slot, then canonicalize.
pub open spec fn spec_finalized<Tx: Buildable>(
    v: <Tx as View>::V,
    entries: Seq<LedgerEntryV>,
    chain_id: u64,
) -> <Tx as View>::V {
    let signed = spec_sign_fold::<Tx>(v, entries, sha256_of(Tx::v_signing_bytes(v, chain_id)));
    Tx::v_with(
        signed,
        Tx::v_inputs(signed),
        Tx::v_outputs(signed),
        Tx::v_witnesses(signed),
        Tx::v_policies(signed),
        Some(sha256_of(Tx::v_id_bytes(signed, chain_id))),
    )
}

/// Finalization without the signing phase: canonicalize the draft as it is.
pub open spec fn spec_finalized_unsigned<Tx: Buildable>(
    v: <Tx as View>::V,
    chain_id: u64,
) -> <Tx as View>::V {
    Tx::v_with(
        v,
        Tx::v_inputs(v),
        Tx::v_outputs(v),
        Tx::v_witnesses(v),
        Tx::v_policies(v),
        Some(sha256_of(Tx::v_id_bytes(v, chain_id))),
    )
}

impl TransactionBuilder<Script> {
    /// A fresh executable-kind builder: empty collections, zeroed max-fee
    /// policy, zeroed receipts root, no metadata, standard parameters, empty
    /// ledger.
    pub fn script(script: Vec<u8>, script_data: Vec<u8>) -> (r: Self)
        ensures
            r@.tx == (ScriptV {
                script_gas_limit: 0,
                script: script@,
                script_data: script_data@,
                policies: Policies {
                    tip: None,
                    witness_limit: None,
                    maturity: None,
                    max_fee: Some(0),
                },
                inputs: Seq::empty(),
                outputs: Seq::empty(),
                witnesses: Seq::empty(),
                receipts_root: Seq::new(32, |i: int| 0u8),
                metadata: None,
            }),
            r@.sign_keys == Seq::<LedgerEntryV>::empty(),
            is_standard_params(r@.params),
            builder_wf::<Script>(r@),
    {
        let tx = Script {
            script_gas_limit: 0,
            script,
            script_data,
            policies: Policies::new().with_max_fee(0),
            inputs: Vec::new(),
            outputs: Vec::new(),
            witnesses: Vec::new(),
            receipts_root: [0u8; 32],
            metadata: None,
        };
        proof {
            assert(tx.receipts_root@ =~= Seq::new(32, |i: int| 0u8));
            assert(views_of_inputs(tx.inputs@) =~= Seq::<InputV>::empty());
            assert(views_of_witnesses(tx.witnesses@) =~= Seq::<Seq<u8>>::empty());
            assert(tx.outputs@ =~= Seq::<Output>::empty());
        }
        Self::with_tx(tx)
    }
}

impl TransactionBuilder<Create> {
    /// A fresh creation-kind builder. The storage slots are sorted ascending
    /// by key before the builder exists; the bytecode occupies witness slot 0
    /// and the bytecode length is `floor(byte length / 4)`, both fixed before
    /// any signing key can be registered.
    pub fn create(bytecode: Witness, salt: [u8; 32], storage_slots: Vec<StorageSlot>) -> (r: Self)
        ensures
            slots_sorted(r@.tx.storage_slots),
            r@.tx.storage_slots.to_multiset() == storage_slots@.to_multiset(),
            r@.tx.storage_slots.len() == storage_slots@.len(),
            r@.tx.bytecode_length == (bytecode@.len() / 4) as u64,
            r@.tx.bytecode_witness_index == 0,
            r@.tx.salt == salt@,
            r@.tx.policies == (Policies {
                tip: None,
                witness_limit: None,
                maturity: None,
                max_fee: Some(0),
            }),
            r@.tx.inputs == Seq::<InputV>::empty(),
            r@.tx.outputs == Seq::<Output>::empty(),
            r@.tx.witnesses == seq![bytecode@],
            r@.tx.metadata == None::<Seq<u8>>,
            r@.sign_keys == Seq::<LedgerEntryV>::empty(),
            is_standard_params(r@.params),
            builder_wf::<Create>(r@),
    {
        let sorted = sort_slots(storage_slots);
        let byte_len = bytecode.data.len();
        let mut witnesses: Vec<Witness> = Vec::new();
        let ghost bv = bytecode@;
        witnesses.push(bytecode);
        let tx = Create {
            bytecode_length: (byte_len / 4) as u64,
            bytecode_witness_index: 0,
            salt,
            storage_slots: sorted,
            policies: Policies::new().with_max_fee(0),
            inputs: Vec::new(),
            outputs: Vec::new(),
            witnesses,
            metadata: None,
        };
        proof {
            assert(views_of_inputs(tx.inputs@) =~= Seq::<InputV>::empty());
            assert(views_of_witnesses(tx.witnesses@) =~= seq![bv]);
            assert(tx.outputs@ =~= Seq::<Output>::empty());
        }
        Self::with_tx(tx)
    }
}

impl TransactionBuilder<Mint> {
    /// A fresh reward-kind builder. The draft's block-position pointer is
    /// derived from the block height and in-block index; the kind has no
    /// input/output/witness sequences and accepts no signing keys.
    pub fn mint(
        block_height: u32,
        tx_index: u16,
        input_contract: crate::types::InputContract,
        output_contract: crate::types::OutputContract,
        mint_amount: u64,
        mint_asset_id: [u8; 32],
        gas_price: u64,
    ) -> (r: Self)
        ensures
            r@.tx == (MintV {
                tx_pointer: TxPointer { block_height, tx_index },
                input_contract,
                output_contract,
                mint_amount,
                mint_asset_id: mint_asset_id@,
                gas_price,
                metadata: None,
            }),
            r@.sign_keys == Seq::<LedgerEntryV>::empty(),
            is_standard_params(r@.params),
    {
        let tx = Mint {
            tx_pointer: TxPointer::new(block_height, tx_index),
            input_contract,
            output_contract,
            mint_amount,
            mint_asset_id,
            gas_price,
            metadata: None,
        };
        Self::with_tx(tx)
    }
}

impl<Tx: View> TransactionBuilder<Tx> {
    /// Wrap a fresh draft with the standard parameter profile and an empty
    /// ledger.
    fn with_tx(tx: Tx) -> (r: Self)
        ensures
            r@.tx == tx@,
            r@.sign_keys == Seq::<LedgerEntryV>::empty(),
            is_standard_params(r@.params),
            ledger_sorted(r@.sign_keys),
    {
        TransactionBuilder { tx, params: ConsensusParameters::standard(), sign_keys: KeyLedger::new() }
    }

    pub fn get_params(&self) -> (r: &ConsensusParameters)
        ensures
            r == self@.params,
    {
        &self.params
    }

    pub fn get_tx_params(&self) -> (r: &TxParameters)
        ensures
            r == self@.params.tx_params,
    {
        self.params.tx_params()
    }

    pub fn get_predicate_params(&self) -> (r: &PredicateParameters)
        ensures
            r == self@.params.predicate_params,
    {
        self.params.predicate_params()
    }

    pub fn get_script_params(&self) -> (r: &ScriptParameters)
        ensures
            r == self@.params.script_params,
    {
        self.params.script_params()
    }

    pub fn get_contract_params(&self) -> (r: &ContractParameters)
        ensures
            r == self@.params.contract_params,
    {
        self.params.contract_params()
    }

    pub fn get_fee_params(&self) -> (r: &FeeParameters)
        ensures
            r == self@.params.fee_params,
    {
        self.params.fee_params()
    }

    pub fn get_chain_id(&self) -> (r: u64)
        ensures
            r == self@.params.chain_id,
    {
        self.params.chain_id()
    }

    /// Replace the whole parameter snapshot.
    pub fn with_params(&mut self, params: ConsensusParameters)
        ensures
            final(self)@ == (BuilderV { params, ..old(self)@ }),
    {
        self.params = params;
    }

    /// Replace the transaction-limit subgroup wholesale.
    pub fn with_tx_params(&mut self, tx_params: TxParameters)
        ensures
            final(self)@ == (BuilderV {
                params: ConsensusParameters { tx_params, ..old(self)@.params },
                ..old(self)@
            }),
    {
        self.params.tx_params = tx_params;
    }

    /// Replace the predicate-limit subgroup wholesale.
    pub fn with_predicate_params(&mut self, predicate_params: PredicateParameters)
        ensures
            final(self)@ == (BuilderV {
                params: ConsensusParameters { predicate_params, ..old(self)@.params },
                ..old(self)@
            }),
    {
        self.params.predicate_params = predicate_params;
    }

    /// Replace the script-limit subgroup wholesale.
    pub fn with_script_params(&mut self, script_params: ScriptParameters)
        ensures
            final(self)@ == (BuilderV {
                params: ConsensusParameters { script_params, ..old(self)@.params },
                ..old(self)@
            }),
    {
        self.params.script_params = script_params;
    }

    /// Replace the contract-limit subgroup wholesale.
    pub fn with_contract_params(&mut self, contract_params: ContractParameters)
        ensures
            final(self)@ == (BuilderV {
                params: ConsensusParameters { contract_params, ..old(self)@.params },
                ..old(self)@
            }),
    {
        self.params.contract_params = contract_params;
    }

    /// Replace the fee-parameter subgroup wholesale.
    pub fn with_fee_params(&mut self, fee_params: FeeParameters)
        ensures
            final(self)@ == (BuilderV {
                params: ConsensusParameters { fee_params, ..old(self)@.params },
                ..old(self)@
            }),
    {
        self.params.fee_params = fee_params;
    }

    /// Replace the base asset id.
    pub fn with_base_asset_id(&mut self, base_asset_id: [u8; 32])
        ensures
            final(self)@ == (BuilderV {
                params: ConsensusParameters { base_asset_id, ..old(self)@.params },
                ..old(self)@
            }),
    {
        self.params.base_asset_id = base_asset_id;
    }

    /// Replace the gas-cost table wholesale.
    pub fn with_gas_costs(&mut self, gas_costs: GasCosts)
        ensures
            final(self)@ == (BuilderV {
                params: ConsensusParameters { gas_costs, ..old(self)@.params },
                ..old(self)@
            }),
    {
        self.params.gas_costs = gas_costs;
    }
}

impl<Tx: Buildable> TransactionBuilder<Tx> {
    /// The registered signing keys, in ascending key-byte order.
    pub fn sign_keys(&self) -> (r: Vec<SigningKey>)
        ensures
            r@.len() == self@.sign_keys.len(),
            forall|i: int| 0 <= i < r@.len() ==> r@[i]@ == self@.sign_keys[i].key,
    {
        self.sign_keys.keys()
    }

    /// Set the tip policy.
    pub fn tip(&mut self, tip: u64)
        ensures
            final(self)@.tx == Tx::v_with(
                old(self)@.tx,
                Tx::v_inputs(old(self)@.tx),
                Tx::v_outputs(old(self)@.tx),
                Tx::v_witnesses(old(self)@.tx),
                Policies { tip: Some(tip), ..Tx::v_policies(old(self)@.tx) },
                Tx::v_metadata(old(self)@.tx),
            ),
            Tx::v_witnesses(final(self)@.tx) == Tx::v_witnesses(old(self)@.tx),
            final(self)@.params == old(self)@.params,
            final(self)@.sign_keys == old(self)@.sign_keys,
            builder_wf::<Tx>(old(self)@) ==> builder_wf::<Tx>(final(self)@),
    {
        let p = self.tx.get_policies();
        self.tx.set_policies(
            Policies {
                tip: Some(tip),
                witness_limit: p.witness_limit,
                maturity: p.maturity,
                max_fee: p.max_fee,
            },
        );
    }

    /// Set the maturity policy.
    pub fn maturity(&mut self, maturity: u32)
        ensures
            final(self)@.tx == Tx::v_with(
                old(self)@.tx,
                Tx::v_inputs(old(self)@.tx),
                Tx::v_outputs(old(self)@.tx),
                Tx::v_witnesses(old(self)@.tx),
                Policies { maturity: Some(maturity), ..Tx::v_policies(old(self)@.tx) },
                Tx::v_metadata(old(self)@.tx),
            ),
            Tx::v_witnesses(final(self)@.tx) == Tx::v_witnesses(old(self)@.tx),
            final(self)@.params == old(self)@.params,
            final(self)@.sign_keys == old(self)@.sign_keys,
            builder_wf::<Tx>(old(self)@) ==> builder_wf::<Tx>(final(self)@),
    {
        let p = self.tx.get_policies();
        self.tx.set_policies(
            Policies {
                tip: p.tip,
                witness_limit: p.witness_limit,
                maturity: Some(maturity),
                max_fee: p.max_fee,
            },
        );
    }

    /// Set the witness-limit policy.
    pub fn witness_limit(&mut self, witness_limit: u64)
        ensures
            final(self)@.tx == Tx::v_with(
                old(self)@.tx,
                Tx::v_inputs(old(self)@.tx),
                Tx::v_outputs(old(self)@.tx),
                Tx::v_witnesses(old(self)@.tx),
                Policies {
                    witness_limit: Some(witness_limit),
                    ..Tx::v_policies(old(self)@.tx)
                },
                Tx::v_metadata(old(self)@.tx),
            ),
            Tx::v_witnesses(final(self)@.tx) == Tx::v_witnesses(old(self)@.tx),
            final(self)@.params == old(self)@.params,
            final(self)@.sign_keys == old(self)@.sign_keys,
            builder_wf::<Tx>(old(self)@) ==> builder_wf::<Tx>(final(self)@),
    {
        let p = self.tx.get_policies();
        self.tx.set_policies(
            Policies {
                tip: p.tip,
                witness_limit: Some(witness_limit),
                maturity: p.maturity,
                max_fee: p.max_fee,
            },
        );
    }

    /// Set the max-fee policy.
    pub fn max_fee_limit(&mut self, max_fee: u64)
        ensures
            final(self)@.tx == Tx::v_with(
                old(self)@.tx,
                Tx::v_inputs(old(self)@.tx),
                Tx::v_outputs(old(self)@.tx),
                Tx::v_witnesses(old(self)@.tx),
                Policies { max_fee: Some(max_fee), ..Tx::v_policies(old(self)@.tx) },
                Tx::v_metadata(old(self)@.tx),
            ),
            Tx::v_witnesses(final(self)@.tx) == Tx::v_witnesses(old(self)@.tx),
            final(self)@.params == old(self)@.params,
            final(self)@.sign_keys == old(self)@.sign_keys,
            builder_wf::<Tx>(old(self)@) ==> builder_wf::<Tx>(final(self)@),
    {
        let p = self.tx.get_policies();
        self.tx.set_policies(
            Policies {
                tip: p.tip,
                witness_limit: p.witness_limit,
                maturity: p.maturity,
                max_fee: Some(max_fee),
            },
        );
    }

    /// Replace the chain id used for signing and canonicalization.
    pub fn with_chain_id(&mut self, chain_id: u64)
        ensures
            final(self)@ == (BuilderV {
                params: ConsensusParameters { chain_id, ..old(self)@.params },
                ..old(self)@
            }),
    {
        self.params.chain_id = chain_id;
    }

    /// The draft's inputs.
    pub fn inputs(&self) -> (r: &Vec<Input>)
        ensures
            views_of_inputs(r@) == Tx::v_inputs(self@.tx),
    {
        self.tx.inputs()
    }

    /// The draft's outputs.
    pub fn outputs(&self) -> (r: &Vec<Output>)
        ensures
            r@ == Tx::v_outputs(self@.tx),
    {
        self.tx.outputs()
    }

    /// The draft's witnesses.
    pub fn witnesses(&self) -> (r: &Vec<Witness>)
        ensures
            views_of_witnesses(r@) == Tx::v_witnesses(self@.tx),
    {
        self.tx.witnesses()
    }

    /// Append an input: purely structural accumulation.
    pub fn add_input(&mut self, input: Input)
        ensures
            final(self)@.tx == Tx::v_with(
                old(self)@.tx,
                Tx::v_inputs(old(self)@.tx).push(input@),
                Tx::v_outputs(old(self)@.tx),
                Tx::v_witnesses(old(self)@.tx),
                Tx::v_policies(old(self)@.tx),
                Tx::v_metadata(old(self)@.tx),
            ),
            Tx::v_inputs(final(self)@.tx) == Tx::v_inputs(old(self)@.tx).push(input@),
            Tx::v_witnesses(final(self)@.tx) == Tx::v_witnesses(old(self)@.tx),
            final(self)@.params == old(self)@.params,
            final(self)@.sign_keys == old(self)@.sign_keys,
            builder_wf::<Tx>(old(self)@) ==> builder_wf::<Tx>(final(self)@),
    {
        self.tx.push_input(input);
    }

    /// Append an output: purely structural accumulation.
    pub fn add_output(&mut self, output: Output)
        ensures
            final(self)@.tx == Tx::v_with(
                old(self)@.tx,
                Tx::v_inputs(old(self)@.tx),
                Tx::v_outputs(old(self)@.tx).push(output),
                Tx::v_witnesses(old(self)@.tx),
                Tx::v_policies(old(self)@.tx),
                Tx::v_metadata(old(self)@.tx),
            ),
            Tx::v_outputs(final(self)@.tx) == Tx::v_outputs(old(self)@.tx).push(output),
            Tx::v_witnesses(final(self)@.tx) == Tx::v_witnesses(old(self)@.tx),
            final(self)@.params == old(self)@.params,
            final(self)@.sign_keys == old(self)@.sign_keys,
            builder_wf::<Tx>(old(self)@) ==> builder_wf::<Tx>(final(self)@),
    {
        self.tx.push_output(output);
    }

    /// Append a witness: purely structural accumulation.
    pub fn add_witness(&mut self, witness: Witness)
        ensures
            final(self)@.tx == Tx::v_with(
                old(self)@.tx,
                Tx::v_inputs(old(self)@.tx),
                Tx::v_outputs(old(self)@.tx),
                Tx::v_witnesses(old(self)@.tx).push(witness@),
                Tx::v_policies(old(self)@.tx),
                Tx::v_metadata(old(self)@.tx),
            ),
            Tx::v_witnesses(final(self)@.tx) == Tx::v_witnesses(old(self)@.tx).push(witness@),
            final(self)@.params == old(self)@.params,
            final(self)@.sign_keys == old(self)@.sign_keys,
            builder_wf::<Tx>(old(self)@) ==> builder_wf::<Tx>(final(self)@),
    {
        self.tx.push_witness(witness);
    }

    /// Register a signing key: idempotent per key; a fresh key appends one
    /// empty placeholder witness and is assigned the witness count before the
    /// append. A known key always succeeds, whatever the witness count; only
    /// a fresh key needs a representable one-byte index, so only then must
    /// the witness count still fit.
    fn upsert_secret(&mut self, secret: &SigningKey) -> (idx: u8)
        requires
            builder_wf::<Tx>(old(self)@),
            ledger_contains(old(self)@.sign_keys, secret@) || Tx::v_witnesses(
                old(self)@.tx,
            ).len() <= 255,
        ensures
            final(self)@ == spec_upsert::<Tx>(old(self)@, secret@).0,
            idx == spec_upsert::<Tx>(old(self)@, secret@).1,
            builder_wf::<Tx>(final(self)@),
    {
        let witness_len = self.tx.witnesses().len();
        match self.sign_keys.get(secret) {
            Some(i) => i,
            None => {
                let idx = witness_len as u8;
                self.tx.push_witness(Witness::empty());
                proof {
                    lemma_ledger_insert_properties(
                        old(self)@.sign_keys,
                        LedgerEntryV { key: secret@, index: idx },
                    );
                    lemma_ledger_insert_elements(
                        old(self)@.sign_keys,
                        LedgerEntryV { key: secret@, index: idx },
                    );
                }
                self.sign_keys.insert_new(secret, idx);
                proof {
                    assert(self@ =~= spec_upsert::<Tx>(old(self)@, secret@).0);
                    let e = LedgerEntryV { key: secret@, index: idx };
                    assert forall|t: int| 0 <= t < self@.sign_keys.len() implies (
                    #[trigger] self@.sign_keys[t].index as int) < Tx::v_witnesses(
                        self@.tx,
                    ).len() by {
                        let entry = self@.sign_keys[t];
                        if entry != e {
                            assert(old(self)@.sign_keys.contains(entry));
                            let j = choose|j: int|
                                0 <= j < old(self)@.sign_keys.len() && old(
                                    self,
                                )@.sign_keys[j] == entry;
                        }
                    }
                }
                idx
            },
        }
    }

    /// Register `secret` and append a coin input owned by the key's derived
    /// address, referencing the key's witness slot. A known key reuses its
    /// index whatever the witness count; only a fresh key needs the count to
    /// still fit a one-byte index.
    pub fn add_unsigned_coin_input(
        &mut self,
        secret: SigningKey,
        utxo_id: UtxoId,
        amount: u64,
        asset_id: [u8; 32],
        tx_pointer: TxPointer,
    )
        requires
            builder_wf::<Tx>(old(self)@),
            ledger_contains(old(self)@.sign_keys, secret@) || Tx::v_witnesses(
                old(self)@.tx,
            ).len() <= 255,
        ensures
            final(self)@ == spec_add_coin::<Tx>(
                old(self)@,
                secret@,
                utxo_id@,
                amount,
                asset_id@,
                tx_pointer,
            ),
            builder_wf::<Tx>(final(self)@),
    {
        let owner = owner_address(&secret);
        let witness_index = self.upsert_secret(&secret);
        self.tx.push_input(
            Input::CoinSigned { utxo_id, owner, amount, asset_id, tx_pointer, witness_index },
        );
        proof {
            assert(self@ =~= spec_add_coin::<Tx>(
                old(self)@,
                secret@,
                utxo_id@,
                amount,
                asset_id@,
                tx_pointer,
            ));
        }
    }

    /// Register `secret` and append a message input whose recipient is the
    /// key's derived address, referencing the key's witness slot. As with
    /// coin inputs, only a fresh key needs the witness count to still fit.
    pub fn add_unsigned_message_input(
        &mut self,
        secret: SigningKey,
        sender: [u8; 32],
        nonce: [u8; 32],
        amount: u64,
        data: Vec<u8>,
    )
        requires
            builder_wf::<Tx>(old(self)@),
            ledger_contains(old(self)@.sign_keys, secret@) || Tx::v_witnesses(
                old(self)@.tx,
            ).len() <= 255,
        ensures
            final(self)@ == spec_add_message::<Tx>(
                old(self)@,
                secret@,
                sender@,
                nonce@,
                amount,
                data@,
            ),
            builder_wf::<Tx>(final(self)@),
    {
        let recipient = owner_address(&secret);
        let witness_index = self.upsert_secret(&secret);
        self.tx.push_input(
            Input::MessageCoinSigned { sender, recipient, amount, nonce, witness_index, data },
        );
        proof {
            assert(self@ =~= spec_add_message::<Tx>(
                old(self)@,
                secret@,
                sender@,
                nonce@,
                amount,
                data@,
            ));
        }
    }

    /// Append a coin input under a key drawn from a generator seeded with the
    /// fixed constant 2322, for fee estimation. Despite the name the call is
    /// deterministic: the drawn key, utxo, amount and asset id are functions
    /// of that seed, so two fresh builders gain identical inputs, and a
    /// second call on one builder reuses the key's witness slot and appends
    /// no further witness.
    pub fn add_random_fee_input(&mut self)
        requires
            builder_wf::<Tx>(old(self)@),
            Tx::v_witnesses(old(self)@.tx).len() <= 255,
        ensures
            final(self)@ == spec_add_coin::<Tx>(
                old(self)@,
                fee_key_of(2322),
                UtxoIdV { tx_id: fee_tx_id_of(2322), output_index: fee_output_index_of(2322) },
                fee_amount_of(2322),
                fee_asset_of(2322),
                TxPointer { block_height: 0, tx_index: 0 },
            ),
            is_valid_secret(fee_key_of(2322)),
            builder_wf::<Tx>(final(self)@),
    {
        let (secret, tx_id, output_index, amount, asset_id) = draw_fee_values(2322u64);
        let utxo_id = UtxoId { tx_id, output_index };
        self.add_unsigned_coin_input(
            secret,
            utxo_id,
            amount,
            asset_id,
            TxPointer::new(0, 0),
        );
    }

    /// Clone the draft, write every ledger key's signature into its assigned
    /// witness slot (the builder itself is untouched and stays reusable),
    /// then canonicalize.
    fn finalize_inner(&self) -> (tx: Tx)
        requires
            builder_wf::<Tx>(self@),
        ensures
            tx@ == spec_finalized::<Tx>(self@.tx, self@.sign_keys, self@.params.chain_id),
    {
        let chain_id = self.get_chain_id();
        let mut tx = self.tx.clone_draft();
        let digest = tx.signing_digest(chain_id);
        let ghost d = sha256_of(Tx::v_signing_bytes(self@.tx, chain_id));
        let n = self.sign_keys.len();
        let mut i: usize = 0;
        while i < n
            invariant
                0 <= i <= n,
                n == self@.sign_keys.len(),
                builder_wf::<Tx>(self@),
                chain_id == self@.params.chain_id,
                digest@ == d,
                d == sha256_of(Tx::v_signing_bytes(self@.tx, chain_id)),
                tx@ == spec_sign_fold::<Tx>(self@.tx, self@.sign_keys.take(i as int), d),
                Tx::v_witnesses(tx@).len() == Tx::v_witnesses(self@.tx).len(),
            decreases n - i,
        {
            let key = self.sign_keys.key_at(i);
            let index = self.sign_keys.index_at(i);
            let sig = sign_digest(&key, &digest);
            let ghost pre = tx@;
            tx.set_witness_data(index, sig);
            proof {
                let entries = self@.sign_keys;
                assert(entries.take(i + 1 as int).drop_last() =~= entries.take(i as int));
                assert(entries.take(i + 1 as int).last() == entries[i as int]);
                assert(tx@ == spec_sign_fold::<Tx>(self@.tx, entries.take(i + 1 as int), d));
            }
            i += 1;
        }
        proof {
            assert(self@.sign_keys.take(n as int) =~= self@.sign_keys);
        }
        tx.precompute(chain_id);
        tx
    }

    /// Clone the draft and canonicalize it without any signing: witness slots
    /// keep exactly the draft's contents.
    pub fn finalize_without_signature_inner(&self) -> (tx: Tx)
        ensures
            tx@ == spec_finalized_unsigned::<Tx>(self@.tx, self@.params.chain_id),
            Tx::v_witnesses(tx@) == Tx::v_witnesses(self@.tx),
            Tx::v_inputs(tx@) == Tx::v_inputs(self@.tx),
            Tx::v_outputs(tx@) == Tx::v_outputs(self@.tx),
            Tx::v_policies(tx@) == Tx::v_policies(self@.tx),
            Tx::v_metadata(tx@) == Some(
                sha256_of(Tx::v_id_bytes(self@.tx, self@.params.chain_id)),
            ),
    {
        let chain_id = self.get_chain_id();
        let mut tx = self.tx.clone_draft();
        tx.precompute(chain_id);
        tx
    }
}

// ---------------------------------------------------------------------------
// Finalization entry points
// ---------------------------------------------------------------------------

/// The finalize protocol: an owned, canonicalized transaction value of the
/// concrete kind, leaving the builder reusable.
pub trait Finalizable<Tx: View>: View + Sized {
    /// What `finalize` needs of the builder's state (its internal invariant).
    spec fn finalize_ready(&self) -> bool;

    /// The finalized value: signed (where the kind supports signing), then
    /// canonicalized.
    spec fn finalized_view(&self) -> <Tx as View>::V;

    /// The finalized value with the signing phase skipped.
    spec fn finalized_unsigned_view(&self) -> <Tx as View>::V;

    fn finalize(&self) -> (tx: Tx)
        requires
            self.finalize_ready(),
        ensures
            tx@ == self.finalized_view(),
    ;

    fn finalize_without_signature(&self) -> (tx: Tx)
        requires
            self.finalize_ready(),
        ensures
            tx@ == self.finalized_unsigned_view(),
    ;
}

impl Finalizable<Script> for TransactionBuilder<Script> {
    open spec fn finalize_ready(&self) -> bool {
        builder_wf::<Script>(self@)
    }

    open spec fn finalized_view(&self) -> ScriptV {
        spec_finalized::<Script>(self@.tx, self@.sign_keys, self@.params.chain_id)
    }

    open spec fn finalized_unsigned_view(&self) -> ScriptV {
        spec_finalized_unsigned::<Script>(self@.tx, self@.params.chain_id)
    }

    fn finalize(&self) -> (tx: Script) {
        self.finalize_inner()
    }

    fn finalize_without_signature(&self) -> (tx: Script) {
        self.finalize_without_signature_inner()
    }
}

impl Finalizable<Create> for TransactionBuilder<Create> {
    open spec fn finalize_ready(&self) -> bool {
        builder_wf::<Create>(self@)
    }

    open spec fn finalized_view(&self) -> CreateV {
        spec_finalized::<Create>(self@.tx, self@.sign_keys, self@.params.chain_id)
    }

    open spec fn finalized_unsigned_view(&self) -> CreateV {
        spec_finalized_unsigned::<Create>(self@.tx, self@.params.chain_id)
    }

    fn finalize(&self) -> (tx: Create) {
        self.finalize_inner()
    }

    fn finalize_without_signature(&self) -> (tx: Create) {
        self.finalize_without_signature_inner()
    }
}

impl Finalizable<Mint> for TransactionBuilder<Mint> {
    open spec fn finalize_ready(&self) -> bool {
        true
    }

    open spec fn finalized_view(&self) -> MintV {
        spec_finalized_mint(self@.tx, self@.params.chain_id)
    }

    /// For the reward kind the two finalizations coincide: signing never
    /// applies.
    open spec fn finalized_unsigned_view(&self) -> MintV {
        spec_finalized_mint(self@.tx, self@.params.chain_id)
    }

    fn finalize(&self) -> (tx: Mint) {
        let mut tx = self.tx;
        tx.precompute(self.params.chain_id());
        tx
    }

    fn finalize_without_signature(&self) -> (tx: Mint) {
        self.finalize()
    }
}

impl<Tx: View + IntoTransaction> TransactionBuilder<Tx> where
    TransactionBuilder<Tx>: Finalizable<Tx>,
 {
    /// Finalize and wrap the result into the unified transaction type.
    pub fn finalize_as_transaction(&mut self) -> (t: Transaction)
        requires
            old(self).finalize_ready(),
        ensures
            t@ == Tx::v_wrap(old(self).finalized_view()),
            final(self)@ == old(self)@,
    {
        self.finalize().into_transaction()
    }

    /// Finalize without signing and wrap the result into the unified
    /// transaction type.
    pub fn finalize_without_signature_as_transaction(&mut self) -> (t: Transaction)
        requires
            old(self).finalize_ready(),
        ensures
            t@ == Tx::v_wrap(old(self).finalized_unsigned_view()),
            final(self)@ == old(self)@,
    {
        self.finalize_without_signature().into_transaction()
    }
}

impl TransactionBuilder<Script> {
    /// Set the executable draft's gas limit.
    pub fn script_gas_limit(&mut self, gas_limit: u64)
        ensures
            final(self)@.tx == (ScriptV { script_gas_limit: gas_limit, ..old(self)@.tx }),
            final(self)@.params == old(self)@.params,
            final(self)@.sign_keys == old(self)@.sign_keys,
            builder_wf::<Script>(old(self)@) ==> builder_wf::<Script>(final(self)@),
    {
        self.tx.script_gas_limit = gas_limit;
        proof {
            assert(self@.tx =~= (ScriptV { script_gas_limit: gas_limit, ..old(self)@.tx }));
        }
    }
}

} // verus!
