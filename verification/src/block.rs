//! Blocks and the proof-of-work puzzle that seals them.
//!
//! Mining searches the nonces upward from the one the block holds. The search
//! is bounded by the largest nonce: with a target that no nonce meets it ends
//! in an error after going through all of them, which can take very long.
use vstd::prelude::*;
use vstd::string::StringExecFns;
use std::time::{Duration, SystemTime, UNIX_EPOCH};
use crate::digest::{has_zero_prefix, meets_target, sha256_hex, sha256_hex_digest};
use crate::transaction::{
    clone_transactions, tx_views, TXInput, TXOutput, Transaction, TransactionView,
};
use crate::{ChainError, TResult, TARGET_HEX};

verus! {

#[derive(Debug)]
pub struct Block {
    timestamp: u128,
    transactions: Vec<Transaction>,
    prev_block_hash: String,
    hash: String,
    height: usize,
    nonce: i32,
}

pub struct BlockView {
    pub timestamp: u128,
    pub transactions: Seq<TransactionView>,
    pub prev_block_hash: Seq<char>,
    pub hash: Seq<char>,
    pub height: usize,
    pub nonce: i32,
}

impl View for Block {
    type V = BlockView;

    closed spec fn view(&self) -> BlockView {
        BlockView {
            timestamp: self.timestamp,
            transactions: tx_views(self.transactions@),
            prev_block_hash: self.prev_block_hash@,
            hash: self.hash@,
            height: self.height,
            nonce: self.nonce,
        }
    }
}

pub open spec fn block_views(v: Seq<Block>) -> Seq<BlockView> {
    Seq::new(v.len(), |i: int| v[i]@)
}

/// The hash held by a block that has not been mined.
pub open spec fn placeholder_hash() -> Seq<char> {
    "empty"@
}

/// A block as it is created: nonce zero and the placeholder hash.
pub open spec fn unmined(
    transactions: Seq<TransactionView>,
    prev_block_hash: Seq<char>,
    height: usize,
    timestamp: u128,
) -> BlockView {
    BlockView {
        timestamp,
        transactions,
        prev_block_hash,
        hash: placeholder_hash(),
        height,
        nonce: 0i32,
    }
}

/// The bytes that are hashed: previous hash, transactions, timestamp, target
/// and nonce, in that order, in the canonical binary encoding.
pub uninterp spec fn hash_content_bytes(
    prev_block_hash: Seq<char>,
    transactions: Seq<TransactionView>,
    timestamp: u128,
    target: usize,
    nonce: i32,
) -> Seq<u8>;

/// The bytes under which a whole block is stored.
pub uninterp spec fn block_record(b: BlockView) -> Seq<u8>;

/// The block that stored bytes stand for, if they stand for one.
pub uninterp spec fn parsed_record(bytes: Seq<u8>) -> Option<BlockView>;

/// The canonical hash of a block's content under a target and a nonce.
pub open spec fn hash_with(b: BlockView, target: usize, nonce: i32) -> Seq<char> {
    sha256_hex_digest(
        hash_content_bytes(b.prev_block_hash, b.transactions, b.timestamp, target, nonce),
    )
}

/// Whether `nonce` solves the puzzle of `b` at `target`.
pub open spec fn solves(b: BlockView, target: usize, nonce: i32) -> bool {
    meets_target(hash_with(b, target, nonce), target as int)
}

/// A sealed block: its nonce solves the puzzle and its hash is the canonical one.
pub open spec fn sealed(b: BlockView, target: usize) -> bool {
    &&& solves(b, target, b.nonce)
    &&& b.hash == hash_with(b, target, b.nonce)
}

/// `b` with the nonce fixed to `nonce` and the hash that belongs to it.
pub open spec fn seal_at(b: BlockView, target: usize, nonce: i32) -> BlockView {
    BlockView { nonce, hash: hash_with(b, target, nonce), ..b }
}

/// No nonce from `from` up to, not including, `to` solves the puzzle.
pub open spec fn none_solves(b: BlockView, target: usize, from: int, to: int) -> bool {
    forall|k: i32| from <= k < to ==> !#[trigger] solves(b, target, k)
}

/// The genesis block is the one without a parent.
pub open spec fn is_genesis(b: BlockView) -> bool {
    b.height == 0 && b.prev_block_hash.len() == 0
}

/// A reading of the system clock, `std::time::SystemTime`.
#[verifier::external_type_specification]
#[verifier::external_body]
pub struct ExSystemTime(SystemTime);

/// Calls `SystemTime::now`. Nothing is claimed of the time it gives.
#[verifier::external_body]
fn clock_now() -> SystemTime {
    SystemTime::now()
}

/// Calls `SystemTime::duration_since` with the Unix epoch: the time passed
/// since then, `None` for a clock set before it.
#[verifier::external_body]
fn since_epoch(t: &SystemTime) -> Option<Duration> {
    t.duration_since(UNIX_EPOCH).ok()
}

/// Calls `Duration::as_millis`.
#[verifier::external_body]
fn millis_of(d: &Duration) -> u128 {
    d.as_millis()
}

/// The milliseconds since the Unix epoch by the clock of the machine, zero
/// for a clock set before it.
fn unix_millis() -> u128 {
    let now: SystemTime = clock_now();
    match since_epoch(&now) {
        Some(d) => millis_of(&d),
        None => 0,
    }
}

/// Calls `bincode::serialize` on the tuple of previous hash, transactions,
/// timestamp, target and nonce, each transaction given as the tuple of its
/// fields. The result is the encoding named by [`hash_content_bytes`].
#[verifier::external_body]
fn encode_hash_content(
    prev_block_hash: &str,
    transactions: &Vec<Transaction>,
    timestamp: u128,
    target: usize,
    nonce: i32,
) -> (r: Vec<u8>)
    ensures
        r@ == hash_content_bytes(prev_block_hash@, tx_views(transactions@), timestamp, target, nonce),
{
    let txs: Vec<RawTransaction> = transactions.iter().map(raw_transaction).collect();
    bincode::serialize(&(prev_block_hash, txs, timestamp, target, nonce)).unwrap()
}

/// Calls `bincode::serialize` on the six fields of a block in the order of
/// their declaration. The result is the encoding named by [`block_record`].
#[verifier::external_body]
fn encode_block(b: &Block) -> (r: Vec<u8>)
    ensures
        r@ == block_record(b@),
{
    let txs: Vec<RawTransaction> = b.transactions.iter().map(raw_transaction).collect();
    let fields = (b.timestamp, txs, &b.prev_block_hash, &b.hash, b.height, b.nonce);
    bincode::serialize(&fields).unwrap()
}

/// Calls `bincode::deserialize` for the six fields of a block. The result is
/// the block named by [`parsed_record`], `None` where bincode reports an error.
#[verifier::external_body]
fn decode_block(bytes: &[u8]) -> (r: Option<Block>)
    ensures
        r.is_some() == parsed_record(bytes@).is_some(),
        r matches Some(b) ==> parsed_record(bytes@) == Some(b@),
{
    match bincode::deserialize::<RawBlock>(bytes) {
        Ok((timestamp, txs, prev_block_hash, hash, height, nonce)) => Some(
            Block {
                timestamp,
                transactions: txs.into_iter().map(transaction_of_raw).collect(),
                prev_block_hash,
                hash,
                height,
                nonce,
            },
        ),
        Err(_) => None,
    }
}

pub type RawInput = (String, i32, String);

pub type RawOutput = (i32, String);

pub type RawTransaction = (String, Vec<RawInput>, Vec<RawOutput>);

pub type RawBlock = (u128, Vec<RawTransaction>, String, String, usize, i32);

/// A transaction as the tuple of its fields.
pub fn raw_transaction(t: &Transaction) -> (r: RawTransaction)
    ensures
        r.0@ == t@.id,
        r.1@.len() == t@.v_in.len(),
        forall|i: int|
            0 <= i < r.1@.len() ==> r.1@[i].0@ == t@.v_in[i].tx_id && r.1@[i].1 == t@.v_in[i].v_out
                && r.1@[i].2@ == t@.v_in[i].script_sig,
        r.2@.len() == t@.v_out.len(),
        forall|i: int|
            0 <= i < r.2@.len() ==> r.2@[i].0 == t@.v_out[i].value && r.2@[i].1@
                == t@.v_out[i].script_pub_key,
{
    let mut ins: Vec<RawInput> = Vec::new();
    let mut i: usize = 0;
    while i < t.v_in.len()
        invariant
            i <= t.v_in.len(),
            ins.len() == i,
            forall|j: int|
                0 <= j < i ==> ins@[j].0@ == t.v_in[j].tx_id@ && ins@[j].1 == t.v_in[j].v_out
                    && ins@[j].2@ == t.v_in[j].script_sig@,
        decreases t.v_in.len() - i,
    {
        ins.push((t.v_in[i].tx_id.clone(), t.v_in[i].v_out, t.v_in[i].script_sig.clone()));
        i += 1;
    }
    let mut outs: Vec<RawOutput> = Vec::new();
    let mut k: usize = 0;
    while k < t.v_out.len()
        invariant
            k <= t.v_out.len(),
            outs.len() == k,
            forall|j: int|
                0 <= j < k ==> outs@[j].0 == t.v_out[j].value && outs@[j].1@
                    == t.v_out[j].script_pub_key@,
        decreases t.v_out.len() - k,
    {
        outs.push((t.v_out[k].value, t.v_out[k].script_pub_key.clone()));
        k += 1;
    }
    (t.id.clone(), ins, outs)
}

/// The transaction that a tuple of fields stands for.
pub fn transaction_of_raw(raw: RawTransaction) -> (r: Transaction)
    ensures
        r@.id == raw.0@,
        r@.v_in.len() == raw.1@.len(),
        forall|i: int|
            0 <= i < raw.1@.len() ==> r@.v_in[i].tx_id == raw.1@[i].0@ && r@.v_in[i].v_out
                == raw.1@[i].1 && r@.v_in[i].script_sig == raw.1@[i].2@,
        r@.v_out.len() == raw.2@.len(),
        forall|i: int|
            0 <= i < raw.2@.len() ==> r@.v_out[i].value == raw.2@[i].0
                && r@.v_out[i].script_pub_key == raw.2@[i].1@,
{
    let (id, raw_ins, raw_outs) = raw;
    let mut v_in: Vec<TXInput> = Vec::new();
    let mut i: usize = 0;
    while i < raw_ins.len()
        invariant
            i <= raw_ins.len(),
            v_in.len() == i,
            forall|j: int|
                0 <= j < i ==> v_in@[j].tx_id@ == raw_ins@[j].0@ && v_in@[j].v_out == raw_ins@[j].1
                    && v_in@[j].script_sig@ == raw_ins@[j].2@,
        decreases raw_ins.len() - i,
    {
        v_in.push(
            TXInput {
                tx_id: raw_ins[i].0.clone(),
                v_out: raw_ins[i].1,
                script_sig: raw_ins[i].2.clone(),
            },
        );
        i += 1;
    }
    let mut v_out: Vec<TXOutput> = Vec::new();
    let mut k: usize = 0;
    while k < raw_outs.len()
        invariant
            k <= raw_outs.len(),
            v_out.len() == k,
            forall|j: int|
                0 <= j < k ==> v_out@[j].value == raw_outs@[j].0 && v_out@[j].script_pub_key@
                    == raw_outs@[j].1@,
        decreases raw_outs.len() - k,
    {
        v_out.push(TXOutput { value: raw_outs[k].0, script_pub_key: raw_outs[k].1.clone() });
        k += 1;
    }
    Transaction { id, v_in, v_out }
}

impl Clone for Block {
    fn clone(&self) -> (r: Self)
        ensures
            r@ == self@,
    {
        Block {
            timestamp: self.timestamp,
            transactions: clone_transactions(&self.transactions),
            prev_block_hash: self.prev_block_hash.clone(),
            hash: self.hash.clone(),
            height: self.height,
            nonce: self.nonce,
        }
    }
}

impl Block {
    /// An unmined block over `data`, stamped with the current time.
    pub fn new(data: Vec<Transaction>, prev_block_hash: String, height: usize) -> (r: TResult<Self>)
        ensures
            r is Ok,
            r->Ok_0@ == unmined(tx_views(data@), prev_block_hash@, height, r->Ok_0@.timestamp),
    {
        let timestamp: u128 = unix_millis();
        Ok(Block::with_timestamp(data, prev_block_hash, height, timestamp))
    }

    /// An unmined block over `data` with the given timestamp.
    pub fn with_timestamp(
        data: Vec<Transaction>,
        prev_block_hash: String,
        height: usize,
        timestamp: u128,
    ) -> (r: Self)
        ensures
            r@ == unmined(tx_views(data@), prev_block_hash@, height, timestamp),
    {
        Block {
            timestamp,
            transactions: data,
            prev_block_hash,
            hash: String::from_str("empty"),
            height,
            nonce: 0,
        }
    }

    /// The unmined first block of a chain, holding the coinbase transaction.
    pub fn genesis_block(coinbase: Transaction) -> (r: Self)
        ensures
            is_genesis(r@),
            r@ == unmined(seq![coinbase@], Seq::empty(), 0, r@.timestamp),
    {
        let data: Vec<Transaction> = vec![coinbase];
        assert(tx_views(data@) =~= seq![coinbase@]);
        let timestamp: u128 = unix_millis();
        Block::with_timestamp(data, String::new(), 0, timestamp)
    }

    pub fn hash_str(&self) -> (r: &String)
        ensures
            r@ == self@.hash,
    {
        &self.hash
    }

    pub fn prev_hash_str(&self) -> (r: &String)
        ensures
            r@ == self@.prev_block_hash,
    {
        &self.prev_block_hash
    }

    pub fn transactions(&self) -> (r: &Vec<Transaction>)
        ensures
            tx_views(r@) == self@.transactions,
    {
        &self.transactions
    }

    pub fn height(&self) -> (r: usize)
        ensures
            r == self@.height,
    {
        self.height
    }

    pub fn nonce(&self) -> (r: i32)
        ensures
            r == self@.nonce,
    {
        self.nonce
    }

    pub fn timestamp(&self) -> (r: u128)
        ensures
            r == self@.timestamp,
    {
        self.timestamp
    }

    /// The bytes that are hashed for `nonce` at `target`.
    pub fn prepare_hash_data(&self, target: usize, nonce: i32) -> (r: Vec<u8>)
        ensures
            r@ == hash_content_bytes(
                self@.prev_block_hash,
                self@.transactions,
                self@.timestamp,
                target,
                nonce,
            ),
    {
        encode_hash_content(
            self.prev_block_hash.as_str(),
            &self.transactions,
            self.timestamp,
            target,
            nonce,
        )
    }

    /// The canonical hash of this block for `nonce` at `target`.
    pub fn hash_with_nonce(&self, target: usize, nonce: i32) -> (r: String)
        ensures
            r@ == hash_with(self@, target, nonce),
            r@.len() == 64,
    {
        let data: Vec<u8> = self.prepare_hash_data(target, nonce);
        sha256_hex(data.as_slice())
    }

    /// The canonical hash of this block as it stands.
    pub fn hash_block(&self) -> (r: String)
        ensures
            r@ == hash_with(self@, TARGET_HEX, self@.nonce),
    {
        self.hash_with_nonce(TARGET_HEX, self.nonce)
    }

    /// Whether the nonce that the block holds solves its puzzle at `target`.
    pub fn validate_target(&self, target: usize) -> (r: bool)
        ensures
            r == solves(self@, target, self@.nonce),
    {
        let hash: String = self.hash_with_nonce(target, self.nonce);
        has_zero_prefix(hash.as_str(), target)
    }

    /// Whether the nonce that the block holds solves its puzzle.
    pub fn validate(&self) -> (r: bool)
        ensures
            r == solves(self@, TARGET_HEX, self@.nonce),
    {
        self.validate_target(TARGET_HEX)
    }

    /// Whether the block is sealed: its nonce solves the puzzle and the hash it
    /// holds is the canonical one.
    pub fn is_sealed(&self) -> (r: bool)
        ensures
            r == sealed(self@, TARGET_HEX),
    {
        let hash: String = self.hash_with_nonce(TARGET_HEX, self.nonce);
        has_zero_prefix(hash.as_str(), TARGET_HEX) && hash == self.hash
    }

    /// Seals the block at `target` with the first nonce, counted upward from
    /// the one it holds, that solves the puzzle. Where none does, the block is
    /// left as it was.
    pub fn mine_target(&mut self, target: usize) -> (r: TResult<()>)
        ensures
            match r {
                Ok(_) => {
                    &&& old(self)@.nonce <= final(self)@.nonce
                    &&& solves(old(self)@, target, final(self)@.nonce)
                    &&& none_solves(
                        old(self)@,
                        target,
                        old(self)@.nonce as int,
                        final(self)@.nonce as int,
                    )
                    &&& final(self)@ == seal_at(old(self)@, target, final(self)@.nonce)
                    &&& sealed(final(self)@, target)
                    &&& final(self)@.hash.len() == 64
                },
                Err(e) => {
                    &&& e == ChainError::NonceExhausted
                    &&& none_solves(old(self)@, target, old(self)@.nonce as int, i32::MAX + 1)
                    &&& final(self)@ == old(self)@
                },
            },
    {
        let mut nonce: i32 = self.nonce;
        loop
            invariant
                *self == *old(self),
                self@.nonce <= nonce,
                none_solves(self@, target, self@.nonce as int, nonce as int),
            decreases i32::MAX - nonce,
        {
            let hash: String = self.hash_with_nonce(target, nonce);
            if has_zero_prefix(hash.as_str(), target) {
                self.nonce = nonce;
                self.hash = hash;
                return Ok(());
            }
            if nonce == i32::MAX {
                return Err(ChainError::NonceExhausted);
            }
            nonce += 1;
        }
    }

    /// Seals the block: see [`Block::mine_target`], here at [`TARGET_HEX`].
    pub fn mine(&mut self) -> (r: TResult<()>)
        ensures
            match r {
                Ok(_) => {
                    &&& old(self)@.nonce <= final(self)@.nonce
                    &&& solves(old(self)@, TARGET_HEX, final(self)@.nonce)
                    &&& none_solves(
                        old(self)@,
                        TARGET_HEX,
                        old(self)@.nonce as int,
                        final(self)@.nonce as int,
                    )
                    &&& final(self)@ == seal_at(old(self)@, TARGET_HEX, final(self)@.nonce)
                    &&& sealed(final(self)@, TARGET_HEX)
                    &&& final(self)@.hash.len() == 64
                },
                Err(e) => {
                    &&& e == ChainError::NonceExhausted
                    &&& none_solves(old(self)@, TARGET_HEX, old(self)@.nonce as int, i32::MAX + 1)
                    &&& final(self)@ == old(self)@
                },
            },
    {
        self.mine_target(TARGET_HEX)
    }

    /// The bytes under which the block is stored.
    pub fn to_record(&self) -> (r: Vec<u8>)
        ensures
            r@ == block_record(self@),
    {
        encode_block(self)
    }

    /// Reads a block back from stored bytes.
    pub fn from_record(bytes: &[u8]) -> (r: Option<Block>)
        ensures
            r.is_some() == parsed_record(bytes@).is_some(),
            r matches Some(b) ==> parsed_record(bytes@) == Some(b@),
    {
        decode_block(bytes)
    }
}

/// Mining is deterministic and minimal: two nonces that both solve the puzzle
/// with no solution below them, counted from the same start, are the same
/// nonce, and so give the same sealed block.
pub proof fn mined_nonce_is_unique(b: BlockView, target: usize, start: i32, n1: i32, n2: i32)
    requires
        start <= n1,
        start <= n2,
        solves(b, target, n1),
        solves(b, target, n2),
        none_solves(b, target, start as int, n1 as int),
        none_solves(b, target, start as int, n2 as int),
    ensures
        n1 == n2,
        seal_at(b, target, n1) == seal_at(b, target, n2),
{
}

/// A block sealed from a fresh one has a hash that starts with `target`
/// zeros, and its nonce is the least non-negative one with that property.
pub proof fn mined_from_fresh_is_least(fresh: BlockView, target: usize, nonce: i32, other: i32)
    requires
        fresh.nonce == 0,
        solves(fresh, target, nonce),
        none_solves(fresh, target, 0, nonce as int),
        0 <= other,
        solves(fresh, target, other),
    ensures
        nonce <= other,
        meets_target(seal_at(fresh, target, nonce).hash, target as int),
{
}

} // verus!
