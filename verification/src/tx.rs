//! The three draft-transaction kinds and their capability implementations.

use vstd::prelude::*;
use vstd::seq_lib::lemma_multiset_commutative;
use vstd::multiset::Multiset;
use crate::bytes::{lex_lt, lemma_lex_transitive, lemma_lex_trichotomy, cmp_bytes32, ByteOrder};
use crate::crypto::{sha256_of, sha256_digest};
use crate::encode::{
    Enc, enc_u64, enc_bytes, enc_policies, enc_tx_pointer, enc_input_contract,
    enc_output_contract, enc_input_list, enc_output_list, enc_witness_list, enc_slot_list,
};
use crate::types::{
    Input, InputV, Output, InputContract, OutputContract, Policies, StorageSlot, TxPointer,
    TxMetadata, Witness, views_of_inputs, views_of_witnesses, clone_bytes, clone_inputs,
    clone_outputs, clone_witnesses, clone_slots,
};
use crate::builder::{BuildableAloc, BuildableStd, BuildableSet, Buildable, IntoTransaction};

verus! {

// ---------------------------------------------------------------------------
// Storage-slot ordering
// ---------------------------------------------------------------------------

/// `a` does not come after `b`: slots are ordered by key bytes, then by value
/// bytes.
pub open spec fn slot_le(a: StorageSlot, b: StorageSlot) -> bool {
    ||| lex_lt(a.key@, b.key@)
    ||| (a.key@ == b.key@ && (lex_lt(a.value@, b.value@) || a.value@ == b.value@))
}

/// Slots ascending by key (and value among equal keys).
pub open spec fn slots_sorted(s: Seq<StorageSlot>) -> bool {
    forall|i: int, j: int| 0 <= i < j < s.len() ==> slot_le(#[trigger] s[i], #[trigger] s[j])
}

pub proof fn lemma_slot_le_total(a: StorageSlot, b: StorageSlot)
    ensures
        slot_le(a, b) || slot_le(b, a),
{
    lemma_lex_trichotomy(a.key@, b.key@);
    lemma_lex_trichotomy(a.value@, b.value@);
}

pub proof fn lemma_slot_le_transitive(a: StorageSlot, b: StorageSlot, c: StorageSlot)
    requires
        slot_le(a, b),
        slot_le(b, c),
    ensures
        slot_le(a, c),
{
    if lex_lt(a.key@, b.key@) && lex_lt(b.key@, c.key@) {
        lemma_lex_transitive(a.key@, b.key@, c.key@);
    }
    if a.key@ == b.key@ && b.key@ == c.key@ {
        if lex_lt(a.value@, b.value@) && lex_lt(b.value@, c.value@) {
            lemma_lex_transitive(a.value@, b.value@, c.value@);
        }
    }
}

/// Whether `a` comes no later than `b` in slot order.
pub fn slot_le_exec(a: &StorageSlot, b: &StorageSlot) -> (r: bool)
    ensures
        r == slot_le(*a, *b),
{
    match cmp_bytes32(&a.key, &b.key) {
        ByteOrder::Less => true,
        ByteOrder::Greater => {
            proof {
                crate::bytes::lemma_lex_asymmetric(b.key@, a.key@);
            }
            false
        },
        ByteOrder::Equal => {
            match cmp_bytes32(&a.value, &b.value) {
                ByteOrder::Less => true,
                ByteOrder::Equal => true,
                ByteOrder::Greater => {
                    proof {
                        crate::bytes::lemma_lex_asymmetric(b.value@, a.value@);
                        crate::bytes::lemma_lex_irreflexive(a.key@);
                    }
                    false
                },
            }
        },
    }
}

/// Insert `x` into the sorted slot sequence `out`, keeping it sorted.
fn insert_slot_sorted(out: &mut Vec<StorageSlot>, x: StorageSlot)
    requires
        slots_sorted(old(out)@),
    ensures
        slots_sorted(final(out)@),
        final(out)@.to_multiset() == old(out)@.to_multiset().insert(x),
        final(out)@.len() == old(out)@.len() + 1,
{
    broadcast use vstd::seq_lib::group_to_multiset_ensures;

    let ghost pre = out@;
    let n = out.len();
    let mut p: usize = 0;
    let mut scanning = true;
    while scanning && p < n
        invariant
            0 <= p <= n,
            n == out@.len(),
            out@ == pre,
            forall|t: int| 0 <= t < p ==> slot_le(#[trigger] pre[t], x),
            !scanning ==> p < n && !slot_le(pre[p as int], x),
        decreases n - p + if scanning { 1int } else { 0int },
    {
        if slot_le_exec(&out[p], &x) {
            p += 1;
        } else {
            scanning = false;
        }
    }
    out.insert(p, x);
    proof {
        let post = out@;
        assert(post =~= pre.insert(p as int, x));
        // sortedness
        assert forall|i: int, j: int| 0 <= i < j < post.len() implies slot_le(
            #[trigger] post[i],
            #[trigger] post[j],
        ) by {
            if (p as int) < pre.len() {
                lemma_slot_le_total(pre[p as int], x);
            }
            assert forall|t: int| p <= t < pre.len() implies slot_le(x, #[trigger] pre[t]) by {
                lemma_slot_le_total(pre[p as int], x);
                if t > p {
                    lemma_slot_le_transitive(x, pre[p as int], pre[t]);
                }
            }
            if i < p && j < p {
            } else if i < p && j == p {
            } else if i == p && j > p {
                assert(post[j] == pre[j - 1]);
            } else if i < p && j > p {
                assert(post[i] == pre[i]);
                assert(post[j] == pre[j - 1]);
            } else if i > p && j > p {
                assert(post[i] == pre[i - 1]);
                assert(post[j] == pre[j - 1]);
            }
        }
        // multiset
        let t1 = pre.take(p as int);
        let t2 = pre.skip(p as int);
        assert(post =~= t1 + (seq![x] + t2));
        lemma_multiset_commutative(t1, seq![x] + t2);
        lemma_multiset_commutative(seq![x], t2);
        lemma_multiset_commutative(t1, t2);
        assert(pre =~= t1 + t2);
        assert(seq![x] =~= Seq::<StorageSlot>::empty().push(x));
        assert(seq![x].to_multiset() =~= Multiset::<StorageSlot>::empty().insert(x));
        assert(post.to_multiset() =~= pre.to_multiset().insert(x));
    }
}

/// Sort storage slots ascending by key (and value among equal keys). The
/// result is a permutation of the input.
pub fn sort_slots(v: Vec<StorageSlot>) -> (r: Vec<StorageSlot>)
    ensures
        slots_sorted(r@),
        r@.to_multiset() == v@.to_multiset(),
        r@.len() == v@.len(),
{
    broadcast use vstd::seq_lib::group_to_multiset_ensures;

    let mut r: Vec<StorageSlot> = Vec::new();
    let mut i: usize = 0;
    while i < v.len()
        invariant
            0 <= i <= v.len(),
            slots_sorted(r@),
            r@.to_multiset() == v@.take(i as int).to_multiset(),
            r@.len() == i,
        decreases v.len() - i,
    {
        insert_slot_sorted(&mut r, v[i]);
        proof {
            let tk = v@.take(i as int);
            let x = v@[i as int];
            assert(v@.take(i + 1 as int) =~= tk.push(x));
            tk.to_multiset_ensures();
            assert(tk.push(x).to_multiset() =~= tk.to_multiset().insert(x));
        }
        i += 1;
    }
    proof {
        assert(v@.take(v@.len() as int) =~= v@);
    }
    r
}

// ---------------------------------------------------------------------------
// Script: the general-purpose executable transaction
// ---------------------------------------------------------------------------

/// A general-purpose executable transaction.
#[derive(Debug)]
pub struct Script {
    pub script_gas_limit: u64,
    pub script: Vec<u8>,
    pub script_data: Vec<u8>,
    pub policies: Policies,
    pub inputs: Vec<Input>,
    pub outputs: Vec<Output>,
    pub witnesses: Vec<Witness>,
    pub receipts_root: [u8; 32],
    pub metadata: Option<TxMetadata>,
}

/// The mathematical value of a [`Script`].
#[verifier::ext_equal]
pub ghost struct ScriptV {
    pub script_gas_limit: u64,
    pub script: Seq<u8>,
    pub script_data: Seq<u8>,
    pub policies: Policies,
    pub inputs: Seq<InputV>,
    pub outputs: Seq<Output>,
    pub witnesses: Seq<Seq<u8>>,
    pub receipts_root: Seq<u8>,
    pub metadata: Option<Seq<u8>>,
}

pub open spec fn metadata_view(m: Option<TxMetadata>) -> Option<Seq<u8>> {
    match m {
        Some(t) => Some(t.id@),
        None => None,
    }
}

impl View for Script {
    type V = ScriptV;

    open spec fn view(&self) -> ScriptV {
        ScriptV {
            script_gas_limit: self.script_gas_limit,
            script: self.script@,
            script_data: self.script_data@,
            policies: self.policies,
            inputs: views_of_inputs(self.inputs@),
            outputs: self.outputs@,
            witnesses: views_of_witnesses(self.witnesses@),
            receipts_root: self.receipts_root@,
            metadata: metadata_view(self.metadata),
        }
    }
}

/// The signing encoding of a script body: everything but witnesses and
/// metadata.
pub open spec fn script_core_bytes(v: ScriptV, chain_id: u64) -> Seq<u8> {
    enc_u64(0) + enc_u64(chain_id) + enc_u64(v.script_gas_limit) + enc_bytes(v.script) + enc_bytes(
        v.script_data,
    ) + enc_policies(v.policies) + v.receipts_root + enc_u64(v.inputs.len() as u64)
        + enc_input_list(v.inputs) + enc_u64(v.outputs.len() as u64) + enc_output_list(v.outputs)
}

impl Script {
    /// The body bytes without witnesses, then with them when asked: the two
    /// encodings canonicalization hashes.
    fn encode_core(&self, chain_id: u64) -> (r: Enc)
        ensures
            r.buf@ == script_core_bytes(self@, chain_id),
    {
        let mut e = Enc::new();
        e.put_u64(0);
        e.put_u64(chain_id);
        e.put_u64(self.script_gas_limit);
        e.put_bytes(&self.script);
        e.put_bytes(&self.script_data);
        e.put_policies(&self.policies);
        e.put_arr32(&self.receipts_root);
        e.put_inputs(&self.inputs);
        e.put_outputs(&self.outputs);
        proof {
            assert(e.buf@ =~= script_core_bytes(self@, chain_id));
        }
        e
    }
}

impl BuildableAloc for Script {
    open spec fn v_inputs(v: ScriptV) -> Seq<InputV> {
        v.inputs
    }

    open spec fn v_outputs(v: ScriptV) -> Seq<Output> {
        v.outputs
    }

    open spec fn v_witnesses(v: ScriptV) -> Seq<Seq<u8>> {
        v.witnesses
    }

    open spec fn v_policies(v: ScriptV) -> Policies {
        v.policies
    }

    open spec fn v_metadata(v: ScriptV) -> Option<Seq<u8>> {
        v.metadata
    }

    open spec fn v_with(
        v: ScriptV,
        inputs: Seq<InputV>,
        outputs: Seq<Output>,
        witnesses: Seq<Seq<u8>>,
        policies: Policies,
        metadata: Option<Seq<u8>>,
    ) -> ScriptV {
        ScriptV { inputs, outputs, witnesses, policies, metadata, ..v }
    }

    proof fn lemma_components(
        v: Self::V,
        inputs: Seq<InputV>,
        outputs: Seq<Output>,
        witnesses: Seq<Seq<u8>>,
        policies: Policies,
        metadata: Option<Seq<u8>>,
    ) {
    }

    fn clone_draft(&self) -> (r: Self) {
        let r = Script {
            script_gas_limit: self.script_gas_limit,
            script: clone_bytes(&self.script),
            script_data: clone_bytes(&self.script_data),
            policies: self.policies,
            inputs: clone_inputs(&self.inputs),
            outputs: clone_outputs(&self.outputs),
            witnesses: clone_witnesses(&self.witnesses),
            receipts_root: self.receipts_root,
            metadata: self.metadata,
        };
        proof {
            assert(r@ =~= self@);
        }
        r
    }

    fn inputs(&self) -> (r: &Vec<Input>) {
        &self.inputs
    }

    fn outputs(&self) -> (r: &Vec<Output>) {
        &self.outputs
    }

    fn witnesses(&self) -> (r: &Vec<Witness>) {
        &self.witnesses
    }

    fn push_input(&mut self, input: Input) {
        let ghost pre = self@;
        self.inputs.push(input);
        proof {
            assert(views_of_inputs(self.inputs@) =~= pre.inputs.push(input@));
            assert(self@ =~= Self::v_with(
                pre,
                pre.inputs.push(input@),
                pre.outputs,
                pre.witnesses,
                pre.policies,
                pre.metadata,
            ));
        }
    }

    fn push_output(&mut self, output: Output) {
        let ghost pre = self@;
        self.outputs.push(output);
        proof {
            assert(self@ =~= Self::v_with(
                pre,
                pre.inputs,
                pre.outputs.push(output),
                pre.witnesses,
                pre.policies,
                pre.metadata,
            ));
        }
    }

    fn push_witness(&mut self, witness: Witness) {
        let ghost pre = self@;
        let ghost wv = witness@;
        self.witnesses.push(witness);
        proof {
            assert(views_of_witnesses(self.witnesses@) =~= pre.witnesses.push(wv));
            assert(self@ =~= Self::v_with(
                pre,
                pre.inputs,
                pre.outputs,
                pre.witnesses.push(wv),
                pre.policies,
                pre.metadata,
            ));
        }
    }

    fn set_witness_data(&mut self, index: u8, data: Vec<u8>) {
        let ghost pre = self@;
        let ghost dv = data@;
        self.witnesses[index as usize] = Witness::from_bytes(data);
        proof {
            assert(views_of_witnesses(self.witnesses@) =~= pre.witnesses.update(
                index as int,
                dv,
            ));
            assert(self@ =~= Self::v_with(
                pre,
                pre.inputs,
                pre.outputs,
                pre.witnesses.update(index as int, dv),
                pre.policies,
                pre.metadata,
            ));
        }
    }

    fn set_policies(&mut self, policies: Policies) {
        let ghost pre = self@;
        self.policies = policies;
        proof {
            assert(self@ =~= Self::v_with(
                pre,
                pre.inputs,
                pre.outputs,
                pre.witnesses,
                policies,
                pre.metadata,
            ));
        }
    }

    fn get_policies(&self) -> (r: Policies) {
        self.policies
    }
}

impl BuildableStd for Script {
    open spec fn v_signing_bytes(v: ScriptV, chain_id: u64) -> Seq<u8> {
        script_core_bytes(v, chain_id)
    }

    open spec fn v_id_bytes(v: ScriptV, chain_id: u64) -> Seq<u8> {
        script_core_bytes(v, chain_id) + enc_u64(v.witnesses.len() as u64) + enc_witness_list(
            v.witnesses,
        )
    }

    fn signing_digest(&self, chain_id: u64) -> (d: [u8; 32]) {
        let e = self.encode_core(chain_id);
        sha256_digest(&e.buf)
    }

    fn precompute(&mut self, chain_id: u64) {
        let ghost pre = self@;
        let mut e = self.encode_core(chain_id);
        e.put_witnesses(&self.witnesses);
        proof {
            assert(e.buf@ =~= Self::v_id_bytes(pre, chain_id));
        }
        let d = sha256_digest(&e.buf);
        self.metadata = Some(TxMetadata { id: d });
        proof {
            assert(self@ =~= Self::v_with(
                pre,
                pre.inputs,
                pre.outputs,
                pre.witnesses,
                pre.policies,
                Some(sha256_of(Self::v_id_bytes(pre, chain_id))),
            ));
        }
    }
}

impl BuildableSet for Script {

}

impl Buildable for Script {

}

// ---------------------------------------------------------------------------
// Create: the contract-creation transaction
// ---------------------------------------------------------------------------

/// A contract-creation transaction.
#[derive(Debug)]
pub struct Create {
    pub bytecode_length: u64,
    pub bytecode_witness_index: u8,
    pub salt: [u8; 32],
    pub storage_slots: Vec<StorageSlot>,
    pub policies: Policies,
    pub inputs: Vec<Input>,
    pub outputs: Vec<Output>,
    pub witnesses: Vec<Witness>,
    pub metadata: Option<TxMetadata>,
}

/// The mathematical value of a [`Create`].
#[verifier::ext_equal]
pub ghost struct CreateV {
    pub bytecode_length: u64,
    pub bytecode_witness_index: u8,
    pub salt: Seq<u8>,
    pub storage_slots: Seq<StorageSlot>,
    pub policies: Policies,
    pub inputs: Seq<InputV>,
    pub outputs: Seq<Output>,
    pub witnesses: Seq<Seq<u8>>,
    pub metadata: Option<Seq<u8>>,
}

impl View for Create {
    type V = CreateV;

    open spec fn view(&self) -> CreateV {
        CreateV {
            bytecode_length: self.bytecode_length,
            bytecode_witness_index: self.bytecode_witness_index,
            salt: self.salt@,
            storage_slots: self.storage_slots@,
            policies: self.policies,
            inputs: views_of_inputs(self.inputs@),
            outputs: self.outputs@,
            witnesses: views_of_witnesses(self.witnesses@),
            metadata: metadata_view(self.metadata),
        }
    }
}

/// The signing encoding of a creation body: everything but witnesses and
/// metadata.
pub open spec fn create_core_bytes(v: CreateV, chain_id: u64) -> Seq<u8> {
    enc_u64(1) + enc_u64(chain_id) + enc_u64(v.bytecode_length) + enc_u64(
        v.bytecode_witness_index as u64,
    ) + v.salt + enc_u64(v.storage_slots.len() as u64) + enc_slot_list(v.storage_slots)
        + enc_policies(v.policies) + enc_u64(v.inputs.len() as u64) + enc_input_list(v.inputs)
        + enc_u64(v.outputs.len() as u64) + enc_output_list(v.outputs)
}

impl Create {
    fn encode_core(&self, chain_id: u64) -> (r: Enc)
        ensures
            r.buf@ == create_core_bytes(self@, chain_id),
    {
        let mut e = Enc::new();
        e.put_u64(1);
        e.put_u64(chain_id);
        e.put_u64(self.bytecode_length);
        e.put_u64(self.bytecode_witness_index as u64);
        e.put_arr32(&self.salt);
        e.put_slots(&self.storage_slots);
        e.put_policies(&self.policies);
        e.put_inputs(&self.inputs);
        e.put_outputs(&self.outputs);
        proof {
            assert(e.buf@ =~= create_core_bytes(self@, chain_id));
        }
        e
    }
}

impl BuildableAloc for Create {
    open spec fn v_inputs(v: CreateV) -> Seq<InputV> {
        v.inputs
    }

    open spec fn v_outputs(v: CreateV) -> Seq<Output> {
        v.outputs
    }

    open spec fn v_witnesses(v: CreateV) -> Seq<Seq<u8>> {
        v.witnesses
    }

    open spec fn v_policies(v: CreateV) -> Policies {
        v.policies
    }

    open spec fn v_metadata(v: CreateV) -> Option<Seq<u8>> {
        v.metadata
    }

    open spec fn v_with(
        v: CreateV,
        inputs: Seq<InputV>,
        outputs: Seq<Output>,
        witnesses: Seq<Seq<u8>>,
        policies: Policies,
        metadata: Option<Seq<u8>>,
    ) -> CreateV {
        CreateV { inputs, outputs, witnesses, policies, metadata, ..v }
    }

    proof fn lemma_components(
        v: Self::V,
        inputs: Seq<InputV>,
        outputs: Seq<Output>,
        witnesses: Seq<Seq<u8>>,
        policies: Policies,
        metadata: Option<Seq<u8>>,
    ) {
    }

    fn clone_draft(&self) -> (r: Self) {
        let r = Create {
            bytecode_length: self.bytecode_length,
            bytecode_witness_index: self.bytecode_witness_index,
            salt: self.salt,
            storage_slots: clone_slots(&self.storage_slots),
            policies: self.policies,
            inputs: clone_inputs(&self.inputs),
            outputs: clone_outputs(&self.outputs),
            witnesses: clone_witnesses(&self.witnesses),
            metadata: self.metadata,
        };
        proof {
            assert(r@ =~= self@);
        }
        r
    }

    fn inputs(&self) -> (r: &Vec<Input>) {
        &self.inputs
    }

    fn outputs(&self) -> (r: &Vec<Output>) {
        &self.outputs
    }

    fn witnesses(&self) -> (r: &Vec<Witness>) {
        &self.witnesses
    }

    fn push_input(&mut self, input: Input) {
        let ghost pre = self@;
        self.inputs.push(input);
        proof {
            assert(views_of_inputs(self.inputs@) =~= pre.inputs.push(input@));
            assert(self@ =~= Self::v_with(
                pre,
                pre.inputs.push(input@),
                pre.outputs,
                pre.witnesses,
                pre.policies,
                pre.metadata,
            ));
        }
    }

    fn push_output(&mut self, output: Output) {
        let ghost pre = self@;
        self.outputs.push(output);
        proof {
            assert(self@ =~= Self::v_with(
                pre,
                pre.inputs,
                pre.outputs.push(output),
                pre.witnesses,
                pre.policies,
                pre.metadata,
            ));
        }
    }

    fn push_witness(&mut self, witness: Witness) {
        let ghost pre = self@;
        let ghost wv = witness@;
        self.witnesses.push(witness);
        proof {
            assert(views_of_witnesses(self.witnesses@) =~= pre.witnesses.push(wv));
            assert(self@ =~= Self::v_with(
                pre,
                pre.inputs,
                pre.outputs,
                pre.witnesses.push(wv),
                pre.policies,
                pre.metadata,
            ));
        }
    }

    fn set_witness_data(&mut self, index: u8, data: Vec<u8>) {
        let ghost pre = self@;
        let ghost dv = data@;
        self.witnesses[index as usize] = Witness::from_bytes(data);
        proof {
            assert(views_of_witnesses(self.witnesses@) =~= pre.witnesses.update(
                index as int,
                dv,
            ));
            assert(self@ =~= Self::v_with(
                pre,
                pre.inputs,
                pre.outputs,
                pre.witnesses.update(index as int, dv),
                pre.policies,
                pre.metadata,
            ));
        }
    }

    fn set_policies(&mut self, policies: Policies) {
        let ghost pre = self@;
        self.policies = policies;
        proof {
            assert(self@ =~= Self::v_with(
                pre,
                pre.inputs,
                pre.outputs,
                pre.witnesses,
                policies,
                pre.metadata,
            ));
        }
    }

    fn get_policies(&self) -> (r: Policies) {
        self.policies
    }
}

impl BuildableStd for Create {
    open spec fn v_signing_bytes(v: CreateV, chain_id: u64) -> Seq<u8> {
        create_core_bytes(v, chain_id)
    }

    open spec fn v_id_bytes(v: CreateV, chain_id: u64) -> Seq<u8> {
        create_core_bytes(v, chain_id) + enc_u64(v.witnesses.len() as u64) + enc_witness_list(
            v.witnesses,
        )
    }

    fn signing_digest(&self, chain_id: u64) -> (d: [u8; 32]) {
        let e = self.encode_core(chain_id);
        sha256_digest(&e.buf)
    }

    fn precompute(&mut self, chain_id: u64) {
        let ghost pre = self@;
        let mut e = self.encode_core(chain_id);
        e.put_witnesses(&self.witnesses);
        proof {
            assert(e.buf@ =~= Self::v_id_bytes(pre, chain_id));
        }
        let d = sha256_digest(&e.buf);
        self.metadata = Some(TxMetadata { id: d });
        proof {
            assert(self@ =~= Self::v_with(
                pre,
                pre.inputs,
                pre.outputs,
                pre.witnesses,
                pre.policies,
                Some(sha256_of(Self::v_id_bytes(pre, chain_id))),
            ));
        }
    }
}

impl BuildableSet for Create {

}

impl Buildable for Create {

}

// ---------------------------------------------------------------------------
// Mint: the protocol-internal block-reward transaction
// ---------------------------------------------------------------------------

/// A block-reward transaction. It carries no input/output/witness sequences
/// and is never signed: it is protocol-authored.
#[derive(Debug, Clone, Copy)]
pub struct Mint {
    pub tx_pointer: TxPointer,
    pub input_contract: InputContract,
    pub output_contract: OutputContract,
    pub mint_amount: u64,
    pub mint_asset_id: [u8; 32],
    pub gas_price: u64,
    pub metadata: Option<TxMetadata>,
}

/// The mathematical value of a [`Mint`].
#[verifier::ext_equal]
pub ghost struct MintV {
    pub tx_pointer: TxPointer,
    pub input_contract: InputContract,
    pub output_contract: OutputContract,
    pub mint_amount: u64,
    pub mint_asset_id: Seq<u8>,
    pub gas_price: u64,
    pub metadata: Option<Seq<u8>>,
}

impl View for Mint {
    type V = MintV;

    open spec fn view(&self) -> MintV {
        MintV {
            tx_pointer: self.tx_pointer,
            input_contract: self.input_contract,
            output_contract: self.output_contract,
            mint_amount: self.mint_amount,
            mint_asset_id: self.mint_asset_id@,
            gas_price: self.gas_price,
            metadata: metadata_view(self.metadata),
        }
    }
}

/// The canonical encoding of a reward body (it has no witnesses).
pub open spec fn mint_id_bytes(v: MintV, chain_id: u64) -> Seq<u8> {
    enc_u64(2) + enc_u64(chain_id) + enc_tx_pointer(v.tx_pointer) + enc_input_contract(
        v.input_contract,
    ) + enc_output_contract(v.output_contract) + enc_u64(v.mint_amount) + v.mint_asset_id
        + enc_u64(v.gas_price)
}

/// A reward body canonicalized under `chain_id`.
pub open spec fn spec_finalized_mint(v: MintV, chain_id: u64) -> MintV {
    MintV { metadata: Some(sha256_of(mint_id_bytes(v, chain_id))), ..v }
}

impl Mint {
    /// Canonicalize: cache the derived transaction id on the value.
    pub fn precompute(&mut self, chain_id: u64)
        ensures
            final(self)@ == spec_finalized_mint(old(self)@, chain_id),
    {
        let ghost pre = self@;
        let mut e = Enc::new();
        e.put_u64(2);
        e.put_u64(chain_id);
        e.put_tx_pointer(&self.tx_pointer);
        e.put_input_contract(&self.input_contract);
        e.put_output_contract(&self.output_contract);
        e.put_u64(self.mint_amount);
        e.put_arr32(&self.mint_asset_id);
        e.put_u64(self.gas_price);
        proof {
            assert(e.buf@ =~= mint_id_bytes(pre, chain_id));
        }
        let d = sha256_digest(&e.buf);
        self.metadata = Some(TxMetadata { id: d });
        proof {
            assert(self@ =~= spec_finalized_mint(pre, chain_id));
        }
    }
}

// ---------------------------------------------------------------------------
// The unified transaction sum type
// ---------------------------------------------------------------------------

/// A finalized (or draft) transaction of any kind.
#[derive(Debug)]
pub enum Transaction {
    Script(Script),
    Create(Create),
    Mint(Mint),
}

/// The mathematical value of a [`Transaction`].
pub ghost enum TransactionV {
    Script(ScriptV),
    Create(CreateV),
    Mint(MintV),
}

impl View for Transaction {
    type V = TransactionV;

    open spec fn view(&self) -> TransactionV {
        match self {
            Transaction::Script(s) => TransactionV::Script(s@),
            Transaction::Create(c) => TransactionV::Create(c@),
            Transaction::Mint(m) => TransactionV::Mint(m@),
        }
    }
}

impl IntoTransaction for Script {
    open spec fn v_wrap(v: ScriptV) -> TransactionV {
        TransactionV::Script(v)
    }

    fn into_transaction(self) -> (t: Transaction) {
        Transaction::Script(self)
    }
}

impl IntoTransaction for Create {
    open spec fn v_wrap(v: CreateV) -> TransactionV {
        TransactionV::Create(v)
    }

    fn into_transaction(self) -> (t: Transaction) {
        Transaction::Create(self)
    }
}

impl IntoTransaction for Mint {
    open spec fn v_wrap(v: MintV) -> TransactionV {
        TransactionV::Mint(v)
    }

    fn into_transaction(self) -> (t: Transaction) {
        Transaction::Mint(self)
    }
}

} // verus!
