//! The plain data model of draft transactions: inputs, outputs, witnesses,
//! storage slots and policy overrides.

use vstd::prelude::*;

verus! {

/// A witness: an indexed payload slot of a transaction, holding a signature
/// or auxiliary bytes. Its default value is the empty payload.
#[derive(Debug)]
pub struct Witness {
    pub data: Vec<u8>,
}

impl View for Witness {
    type V = Seq<u8>;

    open spec fn view(&self) -> Seq<u8> {
        self.data@
    }
}

impl Witness {
    /// The empty witness: the placeholder appended for a newly registered
    /// signing key.
    pub fn empty() -> (r: Witness)
        ensures
            r@ == Seq::<u8>::empty(),
    {
        Witness { data: Vec::new() }
    }

    pub fn from_bytes(data: Vec<u8>) -> (r: Witness)
        ensures
            r@ == data@,
    {
        Witness { data }
    }
}

impl Clone for Witness {
    fn clone(&self) -> (r: Self)
        ensures
            r@ == self@,
    {
        Witness { data: clone_bytes(&self.data) }
    }
}

/// Copy a byte vector element by element.
pub fn clone_bytes(v: &Vec<u8>) -> (r: Vec<u8>)
    ensures
        r@ == v@,
{
    let mut r: Vec<u8> = Vec::new();
    let mut i: usize = 0;
    while i < v.len()
        invariant
            0 <= i <= v.len(),
            r@ == v@.take(i as int),
        decreases v.len() - i,
    {
        r.push(v[i]);
        proof {
            assert(v@.take(i + 1 as int) =~= v@.take(i as int).push(v@[i as int]));
        }
        i += 1;
    }
    proof {
        assert(v@.take(v@.len() as int) =~= v@);
    }
    r
}

/// Identifier of an unspent transaction output.
#[derive(Clone, Copy, Debug)]
pub struct UtxoId {
    pub tx_id: [u8; 32],
    pub output_index: u16,
}

/// The mathematical value of a [`UtxoId`].
#[verifier::ext_equal]
pub ghost struct UtxoIdV {
    pub tx_id: Seq<u8>,
    pub output_index: u16,
}

impl View for UtxoId {
    type V = UtxoIdV;

    open spec fn view(&self) -> UtxoIdV {
        UtxoIdV { tx_id: self.tx_id@, output_index: self.output_index }
    }
}

/// A compact block-position pointer: the block height and the index of the
/// transaction inside that block.
#[derive(Clone, Copy, Debug)]
pub struct TxPointer {
    pub block_height: u32,
    pub tx_index: u16,
}

impl TxPointer {
    pub fn new(block_height: u32, tx_index: u16) -> (r: TxPointer)
        ensures
            r.block_height == block_height,
            r.tx_index == tx_index,
    {
        TxPointer { block_height, tx_index }
    }
}

/// One key/value slot of a contract-creation transaction's initial storage.
#[derive(Clone, Copy, Debug)]
pub struct StorageSlot {
    pub key: [u8; 32],
    pub value: [u8; 32],
}

/// A contract input: the reference a block-reward transaction (and contract
/// calls) hold to an existing contract.
#[derive(Clone, Copy, Debug)]
pub struct InputContract {
    pub utxo_id: UtxoId,
    pub balance_root: [u8; 32],
    pub state_root: [u8; 32],
    pub tx_pointer: TxPointer,
    pub contract_id: [u8; 32],
}

/// A contract output: the updated roots a transaction leaves on a contract.
#[derive(Clone, Copy, Debug)]
pub struct OutputContract {
    pub input_index: u16,
    pub balance_root: [u8; 32],
    pub state_root: [u8; 32],
}

/// An input of a draft transaction.
#[derive(Debug)]
pub enum Input {
    /// A coin spent by a signature held in the witness at `witness_index`.
    CoinSigned {
        utxo_id: UtxoId,
        owner: [u8; 32],
        amount: u64,
        asset_id: [u8; 32],
        tx_pointer: TxPointer,
        witness_index: u8,
    },
    /// A message coin spent by a signature held in the witness at
    /// `witness_index`.
    MessageCoinSigned {
        sender: [u8; 32],
        recipient: [u8; 32],
        amount: u64,
        nonce: [u8; 32],
        witness_index: u8,
        data: Vec<u8>,
    },
    /// A contract reference.
    Contract(InputContract),
}

/// The mathematical value of an [`Input`]: byte words as byte sequences.
pub ghost enum InputV {
    CoinSigned {
        utxo_id: UtxoIdV,
        owner: Seq<u8>,
        amount: u64,
        asset_id: Seq<u8>,
        tx_pointer: TxPointer,
        witness_index: u8,
    },
    MessageCoinSigned {
        sender: Seq<u8>,
        recipient: Seq<u8>,
        amount: u64,
        nonce: Seq<u8>,
        witness_index: u8,
        data: Seq<u8>,
    },
    Contract(InputContract),
}

impl View for Input {
    type V = InputV;

    open spec fn view(&self) -> InputV {
        match self {
            Input::CoinSigned { utxo_id, owner, amount, asset_id, tx_pointer, witness_index } => {
                InputV::CoinSigned {
                    utxo_id: utxo_id@,
                    owner: owner@,
                    amount: *amount,
                    asset_id: asset_id@,
                    tx_pointer: *tx_pointer,
                    witness_index: *witness_index,
                }
            },
            Input::MessageCoinSigned { sender, recipient, amount, nonce, witness_index, data } => {
                InputV::MessageCoinSigned {
                    sender: sender@,
                    recipient: recipient@,
                    amount: *amount,
                    nonce: nonce@,
                    witness_index: *witness_index,
                    data: data@,
                }
            },
            Input::Contract(c) => InputV::Contract(*c),
        }
    }
}

impl Clone for Input {
    fn clone(&self) -> (r: Self)
        ensures
            r@ == self@,
    {
        match self {
            Input::CoinSigned { utxo_id, owner, amount, asset_id, tx_pointer, witness_index } => {
                Input::CoinSigned {
                    utxo_id: *utxo_id,
                    owner: *owner,
                    amount: *amount,
                    asset_id: *asset_id,
                    tx_pointer: *tx_pointer,
                    witness_index: *witness_index,
                }
            },
            Input::MessageCoinSigned { sender, recipient, amount, nonce, witness_index, data } => {
                Input::MessageCoinSigned {
                    sender: *sender,
                    recipient: *recipient,
                    amount: *amount,
                    nonce: *nonce,
                    witness_index: *witness_index,
                    data: clone_bytes(data),
                }
            },
            Input::Contract(c) => Input::Contract(*c),
        }
    }
}

/// An output of a draft transaction.
#[derive(Clone, Copy, Debug)]
pub enum Output {
    /// A coin sent to an address.
    Coin { to: [u8; 32], amount: u64, asset_id: [u8; 32] },
    /// A contract state update.
    Contract(OutputContract),
    /// The change returned to an address.
    Change { to: [u8; 32], amount: u64, asset_id: [u8; 32] },
    /// The contract a creation transaction deploys.
    ContractCreated { contract_id: [u8; 32], state_root: [u8; 32] },
}

/// The policy overrides of a chargeable draft: named fee/limit fields, each
/// settable independently. A fresh draft carries a zeroed max-fee policy and
/// nothing else.
#[derive(Clone, Copy, Debug)]
pub struct Policies {
    pub tip: Option<u64>,
    pub witness_limit: Option<u64>,
    pub maturity: Option<u32>,
    pub max_fee: Option<u64>,
}

impl Policies {
    /// No policy set.
    pub fn new() -> (r: Policies)
        ensures
            r == (Policies { tip: None, witness_limit: None, maturity: None, max_fee: None }),
    {
        Policies { tip: None, witness_limit: None, maturity: None, max_fee: None }
    }

    /// Replace the max-fee policy.
    pub fn with_max_fee(self, max_fee: u64) -> (r: Policies)
        ensures
            r == (Policies { max_fee: Some(max_fee), ..self }),
    {
        Policies { max_fee: Some(max_fee), ..self }
    }
}

/// Derived metadata cached on a finalized transaction.
#[derive(Clone, Copy, Debug)]
pub struct TxMetadata {
    pub id: [u8; 32],
}

/// The views of a sequence of inputs.
pub open spec fn views_of_inputs(s: Seq<Input>) -> Seq<InputV> {
    s.map_values(|i: Input| i@)
}

/// The views of a sequence of witnesses.
pub open spec fn views_of_witnesses(s: Seq<Witness>) -> Seq<Seq<u8>> {
    s.map_values(|w: Witness| w@)
}

/// Copy a vector of inputs element by element.
pub fn clone_inputs(v: &Vec<Input>) -> (r: Vec<Input>)
    ensures
        views_of_inputs(r@) == views_of_inputs(v@),
{
    let mut r: Vec<Input> = Vec::new();
    let mut i: usize = 0;
    while i < v.len()
        invariant
            0 <= i <= v.len(),
            views_of_inputs(r@) == views_of_inputs(v@.take(i as int)),
        decreases v.len() - i,
    {
        r.push(v[i].clone());
        proof {
            assert(views_of_inputs(v@.take(i + 1 as int)) =~= views_of_inputs(
                v@.take(i as int),
            ).push(v@[i as int]@));
            assert(views_of_inputs(r@) =~= views_of_inputs(v@.take(i + 1 as int)));
        }
        i += 1;
    }
    proof {
        assert(v@.take(v@.len() as int) =~= v@);
    }
    r
}

/// Copy a vector of outputs element by element.
pub fn clone_outputs(v: &Vec<Output>) -> (r: Vec<Output>)
    ensures
        r@ == v@,
{
    let mut r: Vec<Output> = Vec::new();
    let mut i: usize = 0;
    while i < v.len()
        invariant
            0 <= i <= v.len(),
            r@ == v@.take(i as int),
        decreases v.len() - i,
    {
        r.push(v[i]);
        proof {
            assert(v@.take(i + 1 as int) =~= v@.take(i as int).push(v@[i as int]));
        }
        i += 1;
    }
    proof {
        assert(v@.take(v@.len() as int) =~= v@);
    }
    r
}

/// Copy a vector of witnesses element by element.
pub fn clone_witnesses(v: &Vec<Witness>) -> (r: Vec<Witness>)
    ensures
        views_of_witnesses(r@) == views_of_witnesses(v@),
{
    let mut r: Vec<Witness> = Vec::new();
    let mut i: usize = 0;
    while i < v.len()
        invariant
            0 <= i <= v.len(),
            views_of_witnesses(r@) == views_of_witnesses(v@.take(i as int)),
        decreases v.len() - i,
    {
        r.push(v[i].clone());
        proof {
            assert(views_of_witnesses(v@.take(i + 1 as int)) =~= views_of_witnesses(
                v@.take(i as int),
            ).push(v@[i as int]@));
            assert(views_of_witnesses(r@) =~= views_of_witnesses(v@.take(i + 1 as int)));
        }
        i += 1;
    }
    proof {
        assert(v@.take(v@.len() as int) =~= v@);
    }
    r
}

/// Copy a vector of storage slots element by element.
pub fn clone_slots(v: &Vec<StorageSlot>) -> (r: Vec<StorageSlot>)
    ensures
        r@ == v@,
{
    let mut r: Vec<StorageSlot> = Vec::new();
    let mut i: usize = 0;
    while i < v.len()
        invariant
            0 <= i <= v.len(),
            r@ == v@.take(i as int),
        decreases v.len() - i,
    {
        r.push(v[i]);
        proof {
            assert(v@.take(i + 1 as int) =~= v@.take(i as int).push(v@[i as int]));
        }
        i += 1;
    }
    proof {
        assert(v@.take(v@.len() as int) =~= v@);
    }
    r
}

} // verus!
