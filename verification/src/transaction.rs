//! Transactions, their inputs and outputs.
use vstd::prelude::*;
use vstd::string::StringExecFns;
use crate::digest::{sha256_hex, sha256_hex_digest};
use crate::{TResult, REWARD};

verus! {

/// A reference to one output of an earlier transaction.
#[derive(Debug)]
pub struct TXInput {
    pub tx_id: String,
    pub v_out: i32,
    pub script_sig: String,
}

/// An amount and the address it is locked to.
#[derive(Debug)]
pub struct TXOutput {
    pub value: i32,
    pub script_pub_key: String,
}

#[derive(Debug)]
pub struct Transaction {
    pub id: String,
    pub v_in: Vec<TXInput>,
    pub v_out: Vec<TXOutput>,
}

pub struct TXInputView {
    pub tx_id: Seq<char>,
    pub v_out: i32,
    pub script_sig: Seq<char>,
}

pub struct TXOutputView {
    pub value: i32,
    pub script_pub_key: Seq<char>,
}

pub struct TransactionView {
    pub id: Seq<char>,
    pub v_in: Seq<TXInputView>,
    pub v_out: Seq<TXOutputView>,
}

impl View for TXInput {
    type V = TXInputView;

    open spec fn view(&self) -> TXInputView {
        TXInputView { tx_id: self.tx_id@, v_out: self.v_out, script_sig: self.script_sig@ }
    }
}

impl View for TXOutput {
    type V = TXOutputView;

    open spec fn view(&self) -> TXOutputView {
        TXOutputView { value: self.value, script_pub_key: self.script_pub_key@ }
    }
}

impl View for Transaction {
    type V = TransactionView;

    open spec fn view(&self) -> TransactionView {
        TransactionView { id: self.id@, v_in: input_views(self.v_in@), v_out: output_views(self.v_out@) }
    }
}

pub open spec fn input_views(v: Seq<TXInput>) -> Seq<TXInputView> {
    Seq::new(v.len(), |i: int| v[i]@)
}

pub open spec fn output_views(v: Seq<TXOutput>) -> Seq<TXOutputView> {
    Seq::new(v.len(), |i: int| v[i]@)
}

pub open spec fn tx_views(v: Seq<Transaction>) -> Seq<TransactionView> {
    Seq::new(v.len(), |i: int| v[i]@)
}

/// Whether an input is proof enough to spend what is locked to `address`.
/// Equality stands in for a signature check.
pub open spec fn input_unlocks(i: TXInputView, address: Seq<char>) -> bool {
    i.script_sig == address
}

/// Whether an output may be spent by `address`.
pub open spec fn output_locked_to(o: TXOutputView, address: Seq<char>) -> bool {
    o.script_pub_key == address
}

/// A coinbase transaction mints its outputs: its one input refers to nothing.
pub open spec fn is_coinbase_tx(t: TransactionView) -> bool {
    &&& t.v_in.len() == 1
    &&& t.v_in[0].tx_id.len() == 0
    &&& t.v_in[0].v_out == -1
}

/// The note a coinbase input carries when the caller gives none.
pub open spec fn default_memo(to: Seq<char>) -> Seq<char> {
    "Reward to '"@ + to + "'"@
}

/// The coinbase transaction paying `to`, before it is given its id.
pub open spec fn coinbase_body(to: Seq<char>, data: Seq<char>) -> TransactionView {
    TransactionView {
        id: Seq::empty(),
        v_in: seq![
            TXInputView {
                tx_id: Seq::empty(),
                v_out: -1i32,
                script_sig: if data.len() == 0 { default_memo(to) } else { data },
            },
        ],
        v_out: seq![TXOutputView { value: REWARD, script_pub_key: to }],
    }
}

/// The bytes of a transaction in the canonical binary encoding.
pub uninterp spec fn transaction_bytes(
    id: Seq<char>,
    v_in: Seq<TXInputView>,
    v_out: Seq<TXOutputView>,
) -> Seq<u8>;

/// The id that belongs to a transaction: the digest of its content with the
/// id field held empty.
pub open spec fn id_of(t: TransactionView) -> Seq<char> {
    sha256_hex_digest(transaction_bytes(Seq::empty(), t.v_in, t.v_out))
}

/// Calls `bincode::serialize` on the three fields of a transaction, in order,
/// each input and output given as the tuple of its fields. The result is the
/// encoding named by [`transaction_bytes`].
#[verifier::external_body]
fn encode_transaction(id: &str, v_in: &Vec<TXInput>, v_out: &Vec<TXOutput>) -> (r: Vec<u8>)
    ensures
        r@ == transaction_bytes(id@, input_views(v_in@), output_views(v_out@)),
{
    let ins: Vec<(&str, i32, &str)> =
        v_in.iter().map(|i| (i.tx_id.as_str(), i.v_out, i.script_sig.as_str())).collect();
    let outs: Vec<(i32, &str)> = v_out.iter().map(|o| (o.value, o.script_pub_key.as_str())).collect();
    bincode::serialize(&(id, ins, outs)).unwrap()
}

impl TXInput {
    pub fn can_unlock_output_with(&self, unlocking_data: &str) -> (r: bool)
        ensures
            r == input_unlocks(self@, unlocking_data@),
    {
        same_text(&self.script_sig, unlocking_data)
    }
}

impl Clone for TXInput {
    fn clone(&self) -> (r: Self)
        ensures
            r@ == self@,
    {
        TXInput { tx_id: self.tx_id.clone(), v_out: self.v_out, script_sig: self.script_sig.clone() }
    }
}

impl TXOutput {
    pub fn can_be_unlock_with(&self, unlocking_data: &str) -> (r: bool)
        ensures
            r == output_locked_to(self@, unlocking_data@),
    {
        same_text(&self.script_pub_key, unlocking_data)
    }
}

impl Clone for TXOutput {
    fn clone(&self) -> (r: Self)
        ensures
            r@ == self@,
    {
        TXOutput { value: self.value, script_pub_key: self.script_pub_key.clone() }
    }
}

/// Compares two texts character by character.
pub fn same_text(a: &String, b: &str) -> (r: bool)
    ensures
        r == (a@ == b@),
{
    let other: String = b.to_owned();
    *a == other
}

pub fn clone_inputs(v: &Vec<TXInput>) -> (r: Vec<TXInput>)
    ensures
        input_views(r@) == input_views(v@),
{
    let mut out: Vec<TXInput> = Vec::new();
    let mut i: usize = 0;
    while i < v.len()
        invariant
            i <= v.len(),
            out.len() == i,
            forall|j: int| 0 <= j < i ==> out[j]@ == v[j]@,
        decreases v.len() - i,
    {
        out.push(v[i].clone());
        i += 1;
    }
    assert(input_views(out@) =~= input_views(v@));
    out
}

pub fn clone_outputs(v: &Vec<TXOutput>) -> (r: Vec<TXOutput>)
    ensures
        output_views(r@) == output_views(v@),
{
    let mut out: Vec<TXOutput> = Vec::new();
    let mut i: usize = 0;
    while i < v.len()
        invariant
            i <= v.len(),
            out.len() == i,
            forall|j: int| 0 <= j < i ==> out[j]@ == v[j]@,
        decreases v.len() - i,
    {
        out.push(v[i].clone());
        i += 1;
    }
    assert(output_views(out@) =~= output_views(v@));
    out
}

pub fn clone_transactions(v: &Vec<Transaction>) -> (r: Vec<Transaction>)
    ensures
        tx_views(r@) == tx_views(v@),
{
    let mut out: Vec<Transaction> = Vec::new();
    let mut i: usize = 0;
    while i < v.len()
        invariant
            i <= v.len(),
            out.len() == i,
            forall|j: int| 0 <= j < i ==> out[j]@ == v[j]@,
        decreases v.len() - i,
    {
        out.push(v[i].clone());
        i += 1;
    }
    assert(tx_views(out@) =~= tx_views(v@));
    out
}

impl Clone for Transaction {
    fn clone(&self) -> (r: Self)
        ensures
            r@ == self@,
    {
        Transaction {
            id: self.id.clone(),
            v_in: clone_inputs(&self.v_in),
            v_out: clone_outputs(&self.v_out),
        }
    }
}

impl Transaction {
    /// Builds the transaction that mints the reward for `to`. An empty `data`
    /// is replaced by a note that names the beneficiary.
    pub fn new_coinbase(to: String, data: String) -> (r: TResult<Self>)
        ensures
            r is Ok,
            r->Ok_0@.v_in == coinbase_body(to@, data@).v_in,
            r->Ok_0@.v_out == coinbase_body(to@, data@).v_out,
            r->Ok_0@.id == id_of(coinbase_body(to@, data@)),
            is_coinbase_tx(r->Ok_0@),
    {
        let memo: String = if data.as_str().is_empty() {
            String::from_str("Reward to '").concat(to.as_str()).concat("'")
        } else {
            data
        };
        let mut tx = Transaction {
            id: String::new(),
            v_in: vec![TXInput { tx_id: String::new(), v_out: -1, script_sig: memo }],
            v_out: vec![TXOutput { value: REWARD, script_pub_key: to }],
        };
        proof {
            assert(tx@.v_in =~= coinbase_body(to@, data@).v_in);
            assert(tx@.v_out =~= coinbase_body(to@, data@).v_out);
        }
        tx.set_id();
        Ok(tx)
    }

    /// Gives the transaction the id that belongs to its inputs and outputs.
    pub fn set_id(&mut self)
        ensures
            final(self)@.id == id_of(old(self)@),
            final(self)@.v_in == old(self)@.v_in,
            final(self)@.v_out == old(self)@.v_out,
    {
        let data: Vec<u8> = encode_transaction("", &self.v_in, &self.v_out);
        proof {
            reveal_strlit("");
            assert(""@ =~= Seq::<char>::empty());
        }
        self.id = sha256_hex(data.as_slice());
    }

    pub fn is_coinbase(&self) -> (r: bool)
        ensures
            r == is_coinbase_tx(self@),
    {
        self.v_in.len() == 1 && self.v_in[0].tx_id.as_str().is_empty() && self.v_in[0].v_out == -1
    }
}

} // verus!
