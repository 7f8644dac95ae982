//! A deterministic flattening of draft-transaction bodies to bytes.
//!
//! Canonicalization hands these bytes to the digest collaborator; the
//! encoding is a function of the body's mathematical value alone, which makes
//! the derived metadata reproducible.

use vstd::prelude::*;
use crate::types::{
    Input, InputV, Output, InputContract, OutputContract, Policies, StorageSlot, TxPointer,
    UtxoId, UtxoIdV, Witness, views_of_inputs, views_of_witnesses,
};

verus! {

/// `x` as 8 big-endian bytes.
pub open spec fn enc_u64(x: u64) -> Seq<u8> {
    seq![
        (x >> 56) as u8,
        (x >> 48) as u8,
        (x >> 40) as u8,
        (x >> 32) as u8,
        (x >> 24) as u8,
        (x >> 16) as u8,
        (x >> 8) as u8,
        x as u8,
    ]
}

/// A length-prefixed byte string.
pub open spec fn enc_bytes(s: Seq<u8>) -> Seq<u8> {
    enc_u64(s.len() as u64) + s
}

/// A tagged optional 64-bit value.
pub open spec fn enc_opt_u64(o: Option<u64>) -> Seq<u8> {
    match o {
        Some(x) => enc_u64(1) + enc_u64(x),
        None => enc_u64(0),
    }
}

/// A tagged optional 32-bit value.
pub open spec fn enc_opt_u32(o: Option<u32>) -> Seq<u8> {
    match o {
        Some(x) => enc_u64(1) + enc_u64(x as u64),
        None => enc_u64(0),
    }
}

pub open spec fn enc_policies(p: Policies) -> Seq<u8> {
    enc_opt_u64(p.tip) + enc_opt_u64(p.witness_limit) + enc_opt_u32(p.maturity) + enc_opt_u64(
        p.max_fee,
    )
}

pub open spec fn enc_tx_pointer(t: TxPointer) -> Seq<u8> {
    enc_u64(t.block_height as u64) + enc_u64(t.tx_index as u64)
}

pub open spec fn enc_utxo_id(u: UtxoIdV) -> Seq<u8> {
    u.tx_id + enc_u64(u.output_index as u64)
}

pub open spec fn enc_input_contract(c: InputContract) -> Seq<u8> {
    enc_utxo_id(c.utxo_id@) + c.balance_root@ + c.state_root@ + enc_tx_pointer(c.tx_pointer)
        + c.contract_id@
}

pub open spec fn enc_output_contract(c: OutputContract) -> Seq<u8> {
    enc_u64(c.input_index as u64) + c.balance_root@ + c.state_root@
}

pub open spec fn enc_input(i: InputV) -> Seq<u8> {
    match i {
        InputV::CoinSigned { utxo_id, owner, amount, asset_id, tx_pointer, witness_index } => {
            enc_u64(0) + enc_utxo_id(utxo_id) + owner + enc_u64(amount) + asset_id
                + enc_tx_pointer(tx_pointer) + enc_u64(witness_index as u64)
        },
        InputV::MessageCoinSigned { sender, recipient, amount, nonce, witness_index, data } => {
            enc_u64(1) + sender + recipient + enc_u64(amount) + nonce + enc_u64(
                witness_index as u64,
            ) + enc_bytes(data)
        },
        InputV::Contract(c) => enc_u64(2) + enc_input_contract(c),
    }
}

pub open spec fn enc_output(o: Output) -> Seq<u8> {
    match o {
        Output::Coin { to, amount, asset_id } => enc_u64(0) + to@ + enc_u64(amount) + asset_id@,
        Output::Contract(c) => enc_u64(1) + enc_output_contract(c),
        Output::Change { to, amount, asset_id } => enc_u64(2) + to@ + enc_u64(amount) + asset_id@,
        Output::ContractCreated { contract_id, state_root } => enc_u64(3) + contract_id@
            + state_root@,
    }
}

pub open spec fn enc_slot(s: StorageSlot) -> Seq<u8> {
    s.key@ + s.value@
}

/// The concatenated encodings of a sequence of inputs.
pub open spec fn enc_input_list(s: Seq<InputV>) -> Seq<u8>
    decreases s.len(),
{
    if s.len() == 0 {
        Seq::empty()
    } else {
        enc_input_list(s.drop_last()) + enc_input(s.last())
    }
}

pub open spec fn enc_output_list(s: Seq<Output>) -> Seq<u8>
    decreases s.len(),
{
    if s.len() == 0 {
        Seq::empty()
    } else {
        enc_output_list(s.drop_last()) + enc_output(s.last())
    }
}

pub open spec fn enc_witness_list(s: Seq<Seq<u8>>) -> Seq<u8>
    decreases s.len(),
{
    if s.len() == 0 {
        Seq::empty()
    } else {
        enc_witness_list(s.drop_last()) + enc_bytes(s.last())
    }
}

pub open spec fn enc_slot_list(s: Seq<StorageSlot>) -> Seq<u8>
    decreases s.len(),
{
    if s.len() == 0 {
        Seq::empty()
    } else {
        enc_slot_list(s.drop_last()) + enc_slot(s.last())
    }
}

/// An accumulating byte encoder. Every operation appends the encoding of its
/// argument to the buffer.
pub struct Enc {
    pub buf: Vec<u8>,
}

impl Enc {
    pub fn new() -> (r: Enc)
        ensures
            r.buf@ == Seq::<u8>::empty(),
    {
        Enc { buf: Vec::new() }
    }

    pub fn put_u64(&mut self, x: u64)
        ensures
            final(self).buf@ == old(self).buf@ + enc_u64(x),
    {
        self.buf.push((x >> 56) as u8);
        self.buf.push((x >> 48) as u8);
        self.buf.push((x >> 40) as u8);
        self.buf.push((x >> 32) as u8);
        self.buf.push((x >> 24) as u8);
        self.buf.push((x >> 16) as u8);
        self.buf.push((x >> 8) as u8);
        self.buf.push(x as u8);
        proof {
            assert(self.buf@ =~= old(self).buf@ + enc_u64(x));
        }
    }

    pub fn put_arr32(&mut self, a: &[u8; 32])
        ensures
            final(self).buf@ == old(self).buf@ + a@,
    {
        let mut i: usize = 0;
        while i < 32
            invariant
                0 <= i <= 32,
                self.buf@ == old(self).buf@ + a@.take(i as int),
            decreases 32 - i,
        {
            self.buf.push(a[i]);
            proof {
                assert(a@.take(i + 1 as int) =~= a@.take(i as int).push(a@[i as int]));
                assert(self.buf@ =~= old(self).buf@ + a@.take(i + 1 as int));
            }
            i += 1;
        }
        proof {
            assert(a@.take(32) =~= a@);
        }
    }

    pub fn put_bytes(&mut self, v: &Vec<u8>)
        ensures
            final(self).buf@ == old(self).buf@ + enc_bytes(v@),
    {
        self.put_u64(v.len() as u64);
        let ghost mid = self.buf@;
        let mut i: usize = 0;
        while i < v.len()
            invariant
                0 <= i <= v.len(),
                self.buf@ == mid + v@.take(i as int),
            decreases v.len() - i,
        {
            self.buf.push(v[i]);
            proof {
                assert(v@.take(i + 1 as int) =~= v@.take(i as int).push(v@[i as int]));
                assert(self.buf@ =~= mid + v@.take(i + 1 as int));
            }
            i += 1;
        }
        proof {
            assert(v@.take(v@.len() as int) =~= v@);
            assert(self.buf@ =~= old(self).buf@ + enc_bytes(v@));
        }
    }

    pub fn put_opt_u64(&mut self, o: &Option<u64>)
        ensures
            final(self).buf@ == old(self).buf@ + enc_opt_u64(*o),
    {
        match o {
            Some(x) => {
                self.put_u64(1);
                self.put_u64(*x);
                proof {
                    assert(self.buf@ =~= old(self).buf@ + enc_opt_u64(*o));
                }
            },
            None => {
                self.put_u64(0);
            },
        }
    }

    pub fn put_opt_u32(&mut self, o: &Option<u32>)
        ensures
            final(self).buf@ == old(self).buf@ + enc_opt_u32(*o),
    {
        match o {
            Some(x) => {
                self.put_u64(1);
                self.put_u64(*x as u64);
                proof {
                    assert(self.buf@ =~= old(self).buf@ + enc_opt_u32(*o));
                }
            },
            None => {
                self.put_u64(0);
            },
        }
    }

    pub fn put_policies(&mut self, p: &Policies)
        ensures
            final(self).buf@ == old(self).buf@ + enc_policies(*p),
    {
        self.put_opt_u64(&p.tip);
        self.put_opt_u64(&p.witness_limit);
        self.put_opt_u32(&p.maturity);
        self.put_opt_u64(&p.max_fee);
        proof {
            assert(self.buf@ =~= old(self).buf@ + enc_policies(*p));
        }
    }

    pub fn put_tx_pointer(&mut self, t: &TxPointer)
        ensures
            final(self).buf@ == old(self).buf@ + enc_tx_pointer(*t),
    {
        self.put_u64(t.block_height as u64);
        self.put_u64(t.tx_index as u64);
        proof {
            assert(self.buf@ =~= old(self).buf@ + enc_tx_pointer(*t));
        }
    }

    pub fn put_utxo_id(&mut self, u: &UtxoId)
        ensures
            final(self).buf@ == old(self).buf@ + enc_utxo_id(u@),
    {
        self.put_arr32(&u.tx_id);
        self.put_u64(u.output_index as u64);
        proof {
            assert(self.buf@ =~= old(self).buf@ + enc_utxo_id(u@));
        }
    }

    pub fn put_input_contract(&mut self, c: &InputContract)
        ensures
            final(self).buf@ == old(self).buf@ + enc_input_contract(*c),
    {
        self.put_utxo_id(&c.utxo_id);
        self.put_arr32(&c.balance_root);
        self.put_arr32(&c.state_root);
        self.put_tx_pointer(&c.tx_pointer);
        self.put_arr32(&c.contract_id);
        proof {
            assert(self.buf@ =~= old(self).buf@ + enc_input_contract(*c));
        }
    }

    pub fn put_output_contract(&mut self, c: &OutputContract)
        ensures
            final(self).buf@ == old(self).buf@ + enc_output_contract(*c),
    {
        self.put_u64(c.input_index as u64);
        self.put_arr32(&c.balance_root);
        self.put_arr32(&c.state_root);
        proof {
            assert(self.buf@ =~= old(self).buf@ + enc_output_contract(*c));
        }
    }

    pub fn put_input(&mut self, i: &Input)
        ensures
            final(self).buf@ == old(self).buf@ + enc_input(i@),
    {
        match i {
            Input::CoinSigned { utxo_id, owner, amount, asset_id, tx_pointer, witness_index } => {
                self.put_u64(0);
                self.put_utxo_id(utxo_id);
                self.put_arr32(owner);
                self.put_u64(*amount);
                self.put_arr32(asset_id);
                self.put_tx_pointer(tx_pointer);
                self.put_u64(*witness_index as u64);
                proof {
                    assert(self.buf@ =~= old(self).buf@ + enc_input(i@));
                }
            },
            Input::MessageCoinSigned { sender, recipient, amount, nonce, witness_index, data } => {
                self.put_u64(1);
                self.put_arr32(sender);
                self.put_arr32(recipient);
                self.put_u64(*amount);
                self.put_arr32(nonce);
                self.put_u64(*witness_index as u64);
                self.put_bytes(data);
                proof {
                    assert(self.buf@ =~= old(self).buf@ + enc_input(i@));
                }
            },
            Input::Contract(c) => {
                self.put_u64(2);
                self.put_input_contract(c);
                proof {
                    assert(self.buf@ =~= old(self).buf@ + enc_input(i@));
                }
            },
        }
    }

    pub fn put_output(&mut self, o: &Output)
        ensures
            final(self).buf@ == old(self).buf@ + enc_output(*o),
    {
        match o {
            Output::Coin { to, amount, asset_id } => {
                self.put_u64(0);
                self.put_arr32(to);
                self.put_u64(*amount);
                self.put_arr32(asset_id);
                proof {
                    assert(self.buf@ =~= old(self).buf@ + enc_output(*o));
                }
            },
            Output::Contract(c) => {
                self.put_u64(1);
                self.put_output_contract(c);
                proof {
                    assert(self.buf@ =~= old(self).buf@ + enc_output(*o));
                }
            },
            Output::Change { to, amount, asset_id } => {
                self.put_u64(2);
                self.put_arr32(to);
                self.put_u64(*amount);
                self.put_arr32(asset_id);
                proof {
                    assert(self.buf@ =~= old(self).buf@ + enc_output(*o));
                }
            },
            Output::ContractCreated { contract_id, state_root } => {
                self.put_u64(3);
                self.put_arr32(contract_id);
                self.put_arr32(state_root);
                proof {
                    assert(self.buf@ =~= old(self).buf@ + enc_output(*o));
                }
            },
        }
    }

    pub fn put_inputs(&mut self, v: &Vec<Input>)
        ensures
            final(self).buf@ == old(self).buf@ + enc_u64(v@.len() as u64) + enc_input_list(
                views_of_inputs(v@),
            ),
    {
        self.put_u64(v.len() as u64);
        let ghost mid = self.buf@;
        let mut i: usize = 0;
        while i < v.len()
            invariant
                0 <= i <= v.len(),
                self.buf@ == mid + enc_input_list(views_of_inputs(v@.take(i as int))),
            decreases v.len() - i,
        {
            self.put_input(&v[i]);
            proof {
                let pre = views_of_inputs(v@.take(i as int));
                let post = views_of_inputs(v@.take(i + 1 as int));
                assert(post.drop_last() =~= pre);
                assert(post.last() == v@[i as int]@);
                assert(enc_input_list(post) == enc_input_list(pre) + enc_input(v@[i as int]@));
                assert(self.buf@ =~= mid + enc_input_list(post));
            }
            i += 1;
        }
        proof {
            assert(v@.take(v@.len() as int) =~= v@);
        }
    }

    pub fn put_outputs(&mut self, v: &Vec<Output>)
        ensures
            final(self).buf@ == old(self).buf@ + enc_u64(v@.len() as u64) + enc_output_list(v@),
    {
        self.put_u64(v.len() as u64);
        let ghost mid = self.buf@;
        let mut i: usize = 0;
        while i < v.len()
            invariant
                0 <= i <= v.len(),
                self.buf@ == mid + enc_output_list(v@.take(i as int)),
            decreases v.len() - i,
        {
            self.put_output(&v[i]);
            proof {
                let pre = v@.take(i as int);
                let post = v@.take(i + 1 as int);
                assert(post.drop_last() =~= pre);
                assert(post.last() == v@[i as int]);
                assert(enc_output_list(post) == enc_output_list(pre) + enc_output(v@[i as int]));
                assert(self.buf@ =~= mid + enc_output_list(post));
            }
            i += 1;
        }
        proof {
            assert(v@.take(v@.len() as int) =~= v@);
        }
    }

    pub fn put_witnesses(&mut self, v: &Vec<Witness>)
        ensures
            final(self).buf@ == old(self).buf@ + enc_u64(v@.len() as u64) + enc_witness_list(
                views_of_witnesses(v@),
            ),
    {
        self.put_u64(v.len() as u64);
        let ghost mid = self.buf@;
        let mut i: usize = 0;
        while i < v.len()
            invariant
                0 <= i <= v.len(),
                self.buf@ == mid + enc_witness_list(views_of_witnesses(v@.take(i as int))),
            decreases v.len() - i,
        {
            self.put_bytes(&v[i].data);
            proof {
                let pre = views_of_witnesses(v@.take(i as int));
                let post = views_of_witnesses(v@.take(i + 1 as int));
                assert(post.drop_last() =~= pre);
                assert(post.last() == v@[i as int]@);
                assert(enc_witness_list(post) == enc_witness_list(pre) + enc_bytes(
                    v@[i as int]@,
                ));
                assert(self.buf@ =~= mid + enc_witness_list(post));
            }
            i += 1;
        }
        proof {
            assert(v@.take(v@.len() as int) =~= v@);
        }
    }

    pub fn put_slots(&mut self, v: &Vec<StorageSlot>)
        ensures
            final(self).buf@ == old(self).buf@ + enc_u64(v@.len() as u64) + enc_slot_list(v@),
    {
        self.put_u64(v.len() as u64);
        let ghost mid = self.buf@;
        let mut i: usize = 0;
        while i < v.len()
            invariant
                0 <= i <= v.len(),
                self.buf@ == mid + enc_slot_list(v@.take(i as int)),
            decreases v.len() - i,
        {
            self.put_arr32(&v[i].key);
            self.put_arr32(&v[i].value);
            proof {
                let pre = v@.take(i as int);
                let post = v@.take(i + 1 as int);
                assert(post.drop_last() =~= pre);
                assert(post.last() == v@[i as int]);
                assert(enc_slot_list(post) == enc_slot_list(pre) + enc_slot(v@[i as int]));
                assert(self.buf@ =~= mid + enc_slot_list(post));
            }
            i += 1;
        }
        proof {
            assert(v@.take(v@.len() as int) =~= v@);
        }
    }
}

} // verus!
