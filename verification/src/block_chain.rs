//! The chain store: blocks kept under their hashes, a tip and a height.
//!
//! Appending a block makes three writes: the block, the tip and the height.
//! They are not one atomic unit. A failure between them can leave a block that
//! no tip leads to, or a height that differs from the depth of the chain.
use vstd::prelude::*;
use vstd::bytes::{spec_u64_from_le_bytes, spec_u64_to_le_bytes, u64_from_le_bytes, u64_to_le_bytes};
use vstd::string::StringExecFns;
use vstd::utf8::{decode_utf8, encode_utf8, valid_utf8};
use crate::block::{
    block_views, is_genesis, none_solves, parsed_record, block_record, seal_at, sealed, unmined, Block, BlockView,
};
use crate::store::{db_entries, db_flush, db_get, db_insert, text_of_bytes};
use crate::transaction::{
    coinbase_body, id_of, output_views, tx_views, TXOutput, Transaction, TransactionView,
};
use crate::utxo::{unspent_outputs, unspent_transactions, unspent_txs_of, utxo_of};

use crate::{ChainError, TResult, TARGET_HEX};

verus! {

#[derive(Debug)]
pub struct BlockChain {
    current_hash: String,
    db: sled::Db,
}

/// A cursor that walks the chain from the tip back to the genesis block.
pub struct BlockChainIter<'a> {
    current_hash: String,
    expected: Option<usize>,
    finished: bool,
    block_chain: &'a BlockChain,
}

/// What one step of the walk gives.
pub enum ChainStep {
    /// The next block toward the genesis block.
    Next(Block),
    /// The genesis block was given before: the walk is over.
    End,
    /// The block that should come next could not be read
    /// ([`ChainError::Storage`]) or is absent, unreadable or out of place
    /// ([`ChainError::Integrity`]).
    Broken(ChainError),
}

/// The key of the tip: the text `LAST`.
pub open spec fn tip_key() -> Seq<u8> {
    seq![0x4cu8, 0x41u8, 0x53u8, 0x54u8]
}

/// The key of the height: the text `HEIGHT`.
pub open spec fn height_key() -> Seq<u8> {
    seq![0x48u8, 0x45u8, 0x49u8, 0x47u8, 0x48u8, 0x54u8]
}

/// The key under which a block with this hash is stored.
pub open spec fn block_key(hash: Seq<char>) -> Seq<u8> {
    encode_utf8(hash)
}

/// The stored form of a height: eight bytes, least significant first.
pub open spec fn height_bytes(h: usize) -> Seq<u8> {
    spec_u64_to_le_bytes(h as u64)
}

/// The tip that a store records, if it records one that is text.
pub open spec fn recorded_tip(entries: Map<Seq<u8>, Seq<u8>>) -> Option<Seq<char>> {
    match tip_of(lookup(entries, tip_key())) {
        Ok(tip) => Some(tip),
        Err(_) => None,
    }
}

/// The height that a store records, if it records one of the right width.
pub open spec fn recorded_height(entries: Map<Seq<u8>, Seq<u8>>) -> Option<usize> {
    match height_of(lookup(entries, height_key())) {
        Ok(h) => Some(h),
        Err(_) => None,
    }
}

/// The store after `b` was recorded as the new tip: the block under its hash,
/// then the tip, then the height.
pub open spec fn recorded(entries: Map<Seq<u8>, Seq<u8>>, b: BlockView) -> Map<Seq<u8>, Seq<u8>> {
    entries.insert(block_key(b.hash), block_record(b)).insert(tip_key(), block_key(b.hash)).insert(
        height_key(),
        height_bytes(b.height),
    )
}

/// A block mined from a fresh one: sealed at the least nonce from zero.
pub open spec fn freshly_mined(
    b: BlockView,
    transactions: Seq<TransactionView>,
    prev_block_hash: Seq<char>,
    height: usize,
) -> bool {
    let fresh = unmined(transactions, prev_block_hash, height, b.timestamp);
    &&& 0 <= b.nonce
    &&& b == seal_at(fresh, TARGET_HEX, b.nonce)
    &&& sealed(b, TARGET_HEX)
    &&& none_solves(fresh, TARGET_HEX, 0, b.nonce as int)
}

/// Whether `b` is in place under `hash`: it names itself by that hash, has
/// the height that is expected, if one is, and is without a parent exactly
/// when its height is zero.
pub open spec fn in_place(b: BlockView, hash: Seq<char>, expected: Option<usize>) -> bool {
    &&& b.hash == hash
    &&& expected matches Some(h) ==> b.height == h
    &&& (b.height == 0) <==> (b.prev_block_hash.len() == 0)
}

/// The tip that a record under the tip's key stands for.
pub open spec fn tip_of(found: Option<Seq<u8>>) -> TResult<Seq<char>> {
    match found {
        None => Err(ChainError::MissingTip),
        Some(bytes) => if valid_utf8(bytes) {
            Ok(decode_utf8(bytes))
        } else {
            Err(ChainError::BadTip)
        },
    }
}

/// The height that a record under the height's key stands for.
pub open spec fn height_of(found: Option<Seq<u8>>) -> TResult<usize> {
    match found {
        None => Err(ChainError::BadHeight),
        Some(bytes) => if bytes.len() == 8 && spec_u64_from_le_bytes(bytes) <= usize::MAX {
            Ok(spec_u64_from_le_bytes(bytes) as usize)
        } else {
            Err(ChainError::BadHeight)
        },
    }
}

/// What a store holds under `key`.
pub open spec fn lookup(entries: Map<Seq<u8>, Seq<u8>>, key: Seq<u8>) -> Option<Seq<u8>> {
    if entries.contains_key(key) {
        Some(entries[key])
    } else {
        None
    }
}

/// Reads the tip from what the store holds under the tip's key.
pub fn tip_from_record(found: Option<Vec<u8>>) -> (r: TResult<String>)
    ensures
        match tip_of(
            match found {
                Some(bytes) => Some(bytes@),
                None => None,
            },
        ) {
            Ok(tip) => r matches Ok(s) && s@ == tip,
            Err(e) => r matches Err(x) && x == e,
        },
{
    match found {
        None => Err(ChainError::MissingTip),
        Some(bytes) => match text_of_bytes(bytes) {
            None => Err(ChainError::BadTip),
            Some(hash) => Ok(hash),
        },
    }
}

/// Reads the height from what the store holds under the height's key.
pub fn height_from_record(found: Option<Vec<u8>>) -> (r: TResult<usize>)
    ensures
        r == height_of(
            match found {
                Some(bytes) => Some(bytes@),
                None => None,
            },
        ),
{
    match found {
        None => Err(ChainError::BadHeight),
        Some(bytes) => {
            if bytes.len() != 8 {
                return Err(ChainError::BadHeight);
            }
            let h: u64 = u64_from_le_bytes(bytes.as_slice());
            if h > usize::MAX as u64 {
                return Err(ChainError::BadHeight);
            }
            Ok(h as usize)
        },
    }
}

/// Tests whether a block read under `hash` is in place there.
pub fn is_in_place(block: &Block, hash: &String, expected: Option<usize>) -> (r: bool)
    ensures
        r == in_place(block@, hash@, expected),
{
    let height: usize = block.height();
    let as_expected: bool = match expected {
        None => true,
        Some(h) => height == h,
    };
    let parentless: bool = block.prev_hash_str().as_str().is_empty();
    *block.hash_str() == *hash && as_expected && (height == 0) == parentless
}

/// The block that the walk gives at `hash`: the one stored under it, if it
/// reads back, names itself by that hash, has the height that is expected and
/// is without a parent exactly when its height is zero.
pub open spec fn block_at(
    entries: Map<Seq<u8>, Seq<u8>>,
    hash: Seq<char>,
    expected: Option<usize>,
) -> Option<BlockView> {
    if !entries.contains_key(block_key(hash)) {
        None
    } else {
        match parsed_record(entries[block_key(hash)]) {
            None => None,
            Some(b) => if in_place(b, hash, expected) {
                Some(b)
            } else {
                None
            },
        }
    }
}

/// `front` followed by the blocks of `rest`, where there are any.
pub open spec fn prepend(front: Seq<BlockView>, rest: Option<Seq<BlockView>>) -> Option<
    Seq<BlockView>,
> {
    match rest {
        None => None,
        Some(s) => Some(front + s),
    }
}

pub open spec fn budget(expected: Option<usize>) -> int {
    match expected {
        None => usize::MAX + 1,
        Some(h) => h as int,
    }
}

/// The blocks from `hash` back to the genesis block, or `None` where a block
/// on the way is absent, unreadable or out of place.
pub open spec fn walk(
    entries: Map<Seq<u8>, Seq<u8>>,
    hash: Seq<char>,
    expected: Option<usize>,
) -> Option<Seq<BlockView>>
    decreases budget(expected),
{
    match block_at(entries, hash, expected) {
        None => None,
        Some(b) => if b.height == 0 {
            Some(seq![b])
        } else {
            prepend(seq![b], walk(entries, b.prev_block_hash, Some((b.height - 1) as usize)))
        },
    }
}

fn tip_key_bytes() -> (r: Vec<u8>)
    ensures
        r@ == tip_key(),
{
    let r: Vec<u8> = vec![0x4cu8, 0x41u8, 0x53u8, 0x54u8];
    assert(r@ =~= tip_key());
    r
}

fn height_key_bytes() -> (r: Vec<u8>)
    ensures
        r@ == height_key(),
{
    let r: Vec<u8> = vec![0x48u8, 0x45u8, 0x49u8, 0x47u8, 0x48u8, 0x54u8];
    assert(r@ =~= height_key());
    r
}

impl BlockChain {
    /// What the store holds.
    pub closed spec fn entries(&self) -> Map<Seq<u8>, Seq<u8>> {
        db_entries(self.db)
    }

    /// The hash of the most recent block.
    pub closed spec fn tip(&self) -> Seq<char> {
        self.current_hash@
    }

    /// Reopens the chain that `db` holds, at the tip it records.
    pub fn new(db: sled::Db) -> (r: TResult<Self>)
        ensures
            match r {
                Ok(c) => c.entries() == db_entries(db) && recorded_tip(db_entries(db)) == Some(
                    c.tip(),
                ),
                Err(ChainError::MissingTip) => !db_entries(db).contains_key(tip_key()),
                Err(ChainError::BadTip) => db_entries(db).contains_key(tip_key()) && recorded_tip(
                    db_entries(db),
                ) is None,
                Err(e) => e == ChainError::Storage,
            },
    {
        let key: Vec<u8> = tip_key_bytes();
        match db_get(&db, key.as_slice()) {
            Err(_) => Err(ChainError::Storage),
            Ok(found) => match tip_from_record(found) {
                Err(e) => Err(e),
                Ok(hash) => Ok(BlockChain { current_hash: hash, db }),
            },
        }
    }

    /// Opens the chain that `db` holds or, where it records no tip, starts one:
    /// a genesis block with a coinbase transaction for `address` is mined and
    /// recorded, and the store is flushed.
    pub fn create_blockchain(db: sled::Db, address: String) -> (r: TResult<BlockChain>)
        ensures
            match r {
                Ok(c) => if db_entries(db).contains_key(tip_key()) {
                    c.entries() == db_entries(db) && recorded_tip(db_entries(db)) == Some(c.tip())
                } else {
                    exists|b: BlockView, t: TransactionView|
                        {
                            &&& t.v_in == coinbase_body(address@, genesis_memo()).v_in
                            &&& t.v_out == coinbase_body(address@, genesis_memo()).v_out
                            &&& t.id == id_of(coinbase_body(address@, genesis_memo()))
                            &&& #[trigger] freshly_mined(b, seq![t], Seq::empty(), 0)
                            &&& b.hash.len() == 64
                            &&& is_genesis(b)
                            &&& c.entries() == recorded(db_entries(db), b)
                            &&& c.tip() == b.hash
                        }
                },
                Err(ChainError::BadTip) => db_entries(db).contains_key(tip_key()) && recorded_tip(
                    db_entries(db),
                ) is None,
                Err(e) => e == ChainError::Storage || e == ChainError::NonceExhausted,
            },
    {
        let key: Vec<u8> = tip_key_bytes();
        match db_get(&db, key.as_slice()) {
            Err(_) => Err(ChainError::Storage),
            Ok(Some(bytes)) => match tip_from_record(Some(bytes)) {
                Err(e) => Err(e),
                Ok(hash) => Ok(BlockChain { current_hash: hash, db }),
            },
            Ok(None) => {
                let memo: String = String::from_str("GENESIS_COINBASE_TX");
                let coinbase: Transaction = match Transaction::new_coinbase(address, memo) {
                    Ok(t) => t,
                    Err(e) => {
                        return Err(e);
                    },
                };
                let ghost t = coinbase@;
                let mut block: Block = Block::genesis_block(coinbase);
                let ghost fresh = block@;
                match block.mine() {
                    Err(e) => {
                        return Err(e);
                    },
                    Ok(_) => {},
                }
                let mut chain = BlockChain { current_hash: String::new(), db };
                match chain.record(&block) {
                    Err(e) => {
                        return Err(e);
                    },
                    Ok(_) => {},
                }
                match db_flush(&chain.db) {
                    Err(_) => {
                        return Err(ChainError::Storage);
                    },
                    Ok(_) => {},
                }
                proof {
                    assert(fresh == unmined(seq![t], Seq::empty(), 0, block@.timestamp));
                    assert(freshly_mined(block@, seq![t], Seq::empty(), 0));
                }
                Ok(chain)
            },
        }
    }

    /// Writes `block` under its hash, then the tip, then the height, and moves
    /// the tip to it.
    fn record(&mut self, block: &Block) -> (r: TResult<()>)
        ensures
            match r {
                Ok(_) => final(self).entries() == recorded(old(self).entries(), block@)
                    && final(self).tip() == block@.hash,
                Err(e) => e == ChainError::Storage && final(self).tip() == old(self).tip(),
            },
    {
        let hash: &String = block.hash_str();
        let record: Vec<u8> = block.to_record();
        if db_insert(&mut self.db, hash.as_str().as_bytes(), record.as_slice()).is_err() {
            return Err(ChainError::Storage);
        }
        let tip: Vec<u8> = tip_key_bytes();
        if db_insert(&mut self.db, tip.as_slice(), hash.as_str().as_bytes()).is_err() {
            return Err(ChainError::Storage);
        }
        let key: Vec<u8> = height_key_bytes();
        let height: Vec<u8> = u64_to_le_bytes(block.height() as u64);
        if db_insert(&mut self.db, key.as_slice(), height.as_slice()).is_err() {
            return Err(ChainError::Storage);
        }
        self.current_hash = hash.clone();
        Ok(())
    }

    /// The height that the store records.
    pub fn height(&self) -> (r: TResult<usize>)
        ensures
            match r {
                Ok(h) => recorded_height(self.entries()) == Some(h),
                Err(ChainError::BadHeight) => recorded_height(self.entries()) is None,
                Err(e) => e == ChainError::Storage,
            },
    {
        let key: Vec<u8> = height_key_bytes();
        match db_get(&self.db, key.as_slice()) {
            Err(_) => Err(ChainError::Storage),
            Ok(found) => height_from_record(found),
        }
    }

    /// The hash of the most recent block.
    pub fn tip_hash(&self) -> (r: &String)
        ensures
            r@ == self.tip(),
    {
        &self.current_hash
    }

    /// Appends a block over `data`, stamped with the current time: see
    /// [`BlockChain::add_block_at`].
    pub fn add_block(&mut self, data: Vec<Transaction>) -> (r: TResult<()>)
        ensures
            match r {
                Ok(_) => exists|b: BlockView|
                    {
                        &&& recorded_height(old(self).entries()) is Some
                        &&& recorded_height(old(self).entries())->Some_0 < usize::MAX
                        &&& b.height == recorded_height(old(self).entries())->Some_0 + 1
                        &&& #[trigger] freshly_mined(b, tx_views(data@), old(self).tip(), b.height)
                        &&& b.hash.len() == 64
                        &&& final(self).entries() == recorded(old(self).entries(), b)
                        &&& final(self).tip() == b.hash
                    },
                Err(ChainError::BadHeight) => {
                    &&& recorded_height(old(self).entries()) is None || recorded_height(
                        old(self).entries(),
                    ) == Some(usize::MAX)
                    &&& final(self).entries() == old(self).entries()
                    &&& final(self).tip() == old(self).tip()
                },
                Err(ChainError::NonceExhausted) => {
                    &&& final(self).entries() == old(self).entries()
                    &&& final(self).tip() == old(self).tip()
                },
                Err(e) => e == ChainError::Storage && final(self).tip() == old(self).tip(),
            },
    {
        let mut block: Block = match self.next_block(data) {
            Ok(b) => b,
            Err(e) => {
                return Err(e);
            },
        };
        let ghost fresh = block@;
        let ghost before = self.entries();
        let r = self.seal_and_record(block);
        proof {
            if r is Ok {
                let n = choose|n: i32|
                    {
                        &&& fresh.nonce <= n
                        &&& none_solves(fresh, TARGET_HEX, fresh.nonce as int, n as int)
                        &&& #[trigger] sealed(seal_at(fresh, TARGET_HEX, n), TARGET_HEX)
                        &&& seal_at(fresh, TARGET_HEX, n).hash.len() == 64
                        &&& self.entries() == recorded(before, seal_at(fresh, TARGET_HEX, n))
                        &&& self.tip() == seal_at(fresh, TARGET_HEX, n).hash
                    };
                let b = seal_at(fresh, TARGET_HEX, n);
                assert(freshly_mined(b, tx_views(data@), old(self).tip(), b.height));
            }
        }
        r
    }

    /// The unmined block that would follow the tip: over `data`, stamped with
    /// the current time, one higher than the recorded height.
    pub fn next_block(&self, data: Vec<Transaction>) -> (r: TResult<Block>)
        ensures
            match r {
                Ok(b) => {
                    &&& recorded_height(self.entries()) is Some
                    &&& recorded_height(self.entries())->Some_0 < usize::MAX
                    &&& b@ == unmined(
                        tx_views(data@),
                        self.tip(),
                        (recorded_height(self.entries())->Some_0 + 1) as usize,
                        b@.timestamp,
                    )
                },
                Err(ChainError::BadHeight) => recorded_height(self.entries()) is None
                    || recorded_height(self.entries()) == Some(usize::MAX),
                Err(e) => e == ChainError::Storage,
            },
    {
        let height: usize = match self.height() {
            Ok(h) => h,
            Err(e) => {
                return Err(e);
            },
        };
        if height == usize::MAX {
            return Err(ChainError::BadHeight);
        }
        Block::new(data, self.current_hash.clone(), height + 1)
    }

    /// Mines `block` and records it as the new tip. Where no nonce solves the
    /// puzzle nothing is written.
    pub fn seal_and_record(&mut self, block: Block) -> (r: TResult<()>)
        ensures
            match r {
                Ok(_) => exists|n: i32|
                    {
                        &&& block@.nonce <= n
                        &&& none_solves(block@, TARGET_HEX, block@.nonce as int, n as int)
                        &&& #[trigger] sealed(seal_at(block@, TARGET_HEX, n), TARGET_HEX)
                        &&& seal_at(block@, TARGET_HEX, n).hash.len() == 64
                        &&& final(self).entries() == recorded(
                            old(self).entries(),
                            seal_at(block@, TARGET_HEX, n),
                        )
                        &&& final(self).tip() == seal_at(block@, TARGET_HEX, n).hash
                    },
                Err(ChainError::NonceExhausted) => {
                    &&& none_solves(block@, TARGET_HEX, block@.nonce as int, i32::MAX + 1)
                    &&& final(self).entries() == old(self).entries()
                    &&& final(self).tip() == old(self).tip()
                },
                Err(e) => e == ChainError::Storage && final(self).tip() == old(self).tip(),
            },
    {
        let mut block = block;
        let ghost fresh = block@;
        match block.mine() {
            Err(e) => {
                return Err(e);
            },
            Ok(_) => {},
        }
        let r = self.record(&block);
        proof {
            if r is Ok {
                assert(sealed(seal_at(fresh, TARGET_HEX, block@.nonce), TARGET_HEX));
            }
        }
        r
    }
}

impl BlockChain {
    /// A fresh cursor at the tip.
    pub fn iter(&self) -> (r: BlockChainIter<'_>)
        ensures
            r.entries() == self.entries(),
            r.cursor() == self.tip(),
            r.expected() is None,
            !r.finished(),
    {
        BlockChainIter {
            current_hash: self.current_hash.clone(),
            expected: None,
            finished: false,
            block_chain: self,
        }
    }

    /// The blocks of the chain from the tip back to the genesis block.
    pub fn blocks(&self) -> (r: TResult<Vec<Block>>)
        ensures
            match r {
                Ok(v) => walk(self.entries(), self.tip(), None) == Some(block_views(v@)),
                Err(ChainError::Integrity) => walk(self.entries(), self.tip(), None) is None,
                Err(e) => e == ChainError::Storage,
            },
    {
        let mut it = self.iter();
        let mut out: Vec<Block> = Vec::new();
        assert(block_views(out@) =~= Seq::<BlockView>::empty());
        loop
            invariant
                it.entries() == self.entries(),
                walk(self.entries(), self.tip(), None) == prepend(block_views(out@), it.remaining()),
            decreases it.fuel(),
        {
            let ghost before = block_views(out@);
            let ghost rest = it.remaining();
            match it.next() {
                ChainStep::Next(b) => {
                    out.push(b);
                    proof {
                        assert(block_views(out@) =~= before.push(b@));
                        if it.remaining() is Some {
                            let tail = it.remaining()->Some_0;
                            assert(rest == Some(seq![b@] + tail));
                            assert(before + (seq![b@] + tail) =~= before.push(b@) + tail);
                        }
                    }
                },
                ChainStep::End => {
                    assert(before + Seq::<BlockView>::empty() =~= before);
                    return Ok(out);
                },
                ChainStep::Broken(e) => {
                    return Err(e);
                },
            }
        }
    }

    /// The transactions that hold an unspent output of `addr`.
    pub fn find_unspent_transactions(&self, addr: &str) -> (r: TResult<Vec<Transaction>>)
        ensures
            match r {
                Ok(v) => walk(self.entries(), self.tip(), None) matches Some(chain) && tx_views(v@)
                    == unspent_txs_of(chain, addr@),
                Err(ChainError::Integrity) => walk(self.entries(), self.tip(), None) is None,
                Err(e) => e == ChainError::Storage,
            },
    {
        match self.blocks() {
            Ok(blocks) => Ok(unspent_transactions(&blocks, addr)),
            Err(e) => Err(e),
        }
    }

    /// The outputs that `addr` can spend.
    #[allow(non_snake_case)]
    pub fn find_UTXo(&self, addr: &str) -> (r: TResult<Vec<TXOutput>>)
        ensures
            match r {
                Ok(v) => walk(self.entries(), self.tip(), None) matches Some(chain) && output_views(
                    v@,
                ) == utxo_of(chain, addr@),
                Err(ChainError::Integrity) => walk(self.entries(), self.tip(), None) is None,
                Err(e) => e == ChainError::Storage,
            },
    {
        match self.find_unspent_transactions(addr) {
            Ok(txs) => Ok(unspent_outputs(&txs, addr)),
            Err(e) => Err(e),
        }
    }
}

impl<'a> BlockChainIter<'a> {
    /// What the store under the cursor holds.
    pub closed spec fn entries(&self) -> Map<Seq<u8>, Seq<u8>> {
        self.block_chain.entries()
    }

    /// The hash of the block that comes next.
    pub closed spec fn cursor(&self) -> Seq<char> {
        self.current_hash@
    }

    /// The height that the next block must have, once a block was given.
    pub closed spec fn expected(&self) -> Option<usize> {
        self.expected
    }

    /// Whether the genesis block was given.
    pub closed spec fn finished(&self) -> bool {
        self.finished
    }

    /// The blocks still to come, `None` where the way to the genesis block is
    /// broken.
    pub open spec fn remaining(&self) -> Option<Seq<BlockView>> {
        if self.finished() {
            Some(Seq::empty())
        } else {
            walk(self.entries(), self.cursor(), self.expected())
        }
    }

    /// A bound on the number of blocks still to come.
    pub open spec fn fuel(&self) -> int {
        if self.finished() {
            0
        } else {
            budget(self.expected()) + 1
        }
    }

    /// Gives the block under the cursor and moves the cursor to its parent.
    /// After the genesis block the walk is over; a block that cannot be given
    /// leaves the cursor where it is.
    pub fn next(&mut self) -> (r: ChainStep)
        ensures
            final(self).entries() == old(self).entries(),
            match r {
                ChainStep::Next(b) => {
                    &&& !old(self).finished()
                    &&& block_at(old(self).entries(), old(self).cursor(), old(self).expected())
                        == Some(b@)
                    &&& final(self).finished() == (b@.height == 0)
                    &&& final(self).cursor() == b@.prev_block_hash
                    &&& b@.height > 0 ==> final(self).expected() == Some((b@.height - 1) as usize)
                    &&& old(self).remaining() == prepend(seq![b@], final(self).remaining())
                    &&& final(self).fuel() < old(self).fuel()
                },
                ChainStep::End => old(self).finished() && *final(self) == *old(self),
                ChainStep::Broken(e) => {
                    &&& !old(self).finished()
                    &&& *final(self) == *old(self)
                    &&& e == ChainError::Storage || e == ChainError::Integrity
                    &&& e == ChainError::Integrity ==> block_at(
                        old(self).entries(),
                        old(self).cursor(),
                        old(self).expected(),
                    ) is None
                },
            },
            block_at(old(self).entries(), old(self).cursor(), old(self).expected()) is None
                && !old(self).finished() ==> r is Broken,
    {
        if self.finished {
            return ChainStep::End;
        }
        let found = match db_get(&self.block_chain.db, self.current_hash.as_str().as_bytes()) {
            Err(_) => {
                return ChainStep::Broken(ChainError::Storage);
            },
            Ok(found) => found,
        };
        let bytes: Vec<u8> = match found {
            None => {
                return ChainStep::Broken(ChainError::Integrity);
            },
            Some(bytes) => bytes,
        };
        let block: Block = match Block::from_record(bytes.as_slice()) {
            None => {
                return ChainStep::Broken(ChainError::Integrity);
            },
            Some(block) => block,
        };
        if !is_in_place(&block, &self.current_hash, self.expected) {
            return ChainStep::Broken(ChainError::Integrity);
        }
        let height: usize = block.height();
        self.current_hash = block.prev_hash_str().clone();
        if height == 0 {
            self.finished = true;
        } else {
            self.expected = Some(height - 1);
        }
        proof {
            assert(seq![block@] + Seq::<BlockView>::empty() =~= seq![block@]);
        }
        ChainStep::Next(block)
    }
}

/// The note in the coinbase input of a genesis block.
pub open spec fn genesis_memo() -> Seq<char> {
    "GENESIS_COINBASE_TX"@
}

/// A walk that reaches the genesis block starts at the block asked for, ends
/// at a block without a parent, counts one block more than the height of its
/// first block, descends by one height each step, follows the links from each
/// block to its parent, and gives each block as the store holds it.
pub proof fn walk_ends_at_genesis(
    entries: Map<Seq<u8>, Seq<u8>>,
    hash: Seq<char>,
    expected: Option<usize>,
    s: Seq<BlockView>,
)
    requires
        walk(entries, hash, expected) == Some(s),
    ensures
        s.len() == s[0].height + 1,
        s[0].hash == hash,
        expected matches Some(h) ==> s[0].height == h,
        is_genesis(s.last()),
        forall|i: int| 0 <= i < s.len() ==> (#[trigger] s[i]).height + i == s[0].height,
        forall|i: int| 0 <= i < s.len() - 1 ==> (#[trigger] s[i]).prev_block_hash == s[i + 1].hash,
        forall|i: int|
            0 <= i < s.len() ==> entries.contains_key(block_key((#[trigger] s[i]).hash))
                && parsed_record(entries[block_key(s[i].hash)]) == Some(s[i]),
    decreases budget(expected),
{
    let b = block_at(entries, hash, expected)->Some_0;
    if b.height == 0 {
        assert(s =~= seq![b]);
    } else {
        let next = Some((b.height - 1) as usize);
        let rest = walk(entries, b.prev_block_hash, next)->Some_0;
        walk_ends_at_genesis(entries, b.prev_block_hash, next, rest);
        assert(s =~= seq![b] + rest);
        assert(s[0] == b);
        assert forall|i: int| 0 < i < s.len() implies s[i] == rest[i - 1] by {}
        assert(s.last() == rest.last());
        assert forall|i: int| 0 <= i < s.len() implies (#[trigger] s[i]).height + i
            == s[0].height by {
            if i > 0 {
                assert(s[i] == rest[i - 1]);
            }
        }
        assert forall|i: int| 0 <= i < s.len() - 1 implies (#[trigger] s[i]).prev_block_hash
            == s[i + 1].hash by {
            assert(s[i + 1] == rest[i]);
            if i > 0 {
                assert(s[i] == rest[i - 1]);
            }
        }
        assert forall|i: int| 0 <= i < s.len() implies entries.contains_key(
            block_key((#[trigger] s[i]).hash),
        ) && parsed_record(entries[block_key(s[i].hash)]) == Some(s[i]) by {
            if i > 0 {
                assert(s[i] == rest[i - 1]);
            }
        }
    }
}

/// A walk gives the same blocks on another store that holds the same records
/// under the hashes it visits, also when the height of its first block is
/// asked for.
proof fn walk_transfers(
    entries: Map<Seq<u8>, Seq<u8>>,
    other: Map<Seq<u8>, Seq<u8>>,
    hash: Seq<char>,
    expected: Option<usize>,
    asked: Option<usize>,
    s: Seq<BlockView>,
)
    requires
        walk(entries, hash, expected) == Some(s),
        asked is None || asked == Some(s[0].height),
        forall|i: int|
            0 <= i < s.len() ==> other.contains_key(block_key((#[trigger] s[i]).hash))
                && other[block_key(s[i].hash)] == entries[block_key(s[i].hash)],
    ensures
        walk(other, hash, asked) == Some(s),
    decreases budget(expected),
{
    walk_ends_at_genesis(entries, hash, expected, s);
    let b = block_at(entries, hash, expected)->Some_0;
    assert(s[0].hash == hash);
    if b.height == 0 {
        assert(s =~= seq![b]);
        assert(block_at(other, hash, asked) == Some(b));
    } else {
        let next = Some((b.height - 1) as usize);
        let rest = walk(entries, b.prev_block_hash, next)->Some_0;
        assert(s =~= seq![b] + rest);
        assert(s[0] == b);
        walk_ends_at_genesis(entries, b.prev_block_hash, next, rest);
        assert forall|i: int| 0 <= i < rest.len() implies other.contains_key(
            block_key((#[trigger] rest[i]).hash),
        ) && other[block_key(rest[i].hash)] == entries[block_key(rest[i].hash)] by {
            assert(rest[i] == s[i + 1]);
        }
        walk_transfers(entries, other, b.prev_block_hash, next, next, rest);
        assert(block_at(other, hash, asked) == Some(b));
    }
}

/// The key of a block whose hash has the 64 characters of a digest is neither
/// the key of the tip nor that of the height.
pub proof fn digest_key_is_no_fixed_key(hash: Seq<char>)
    requires
        hash.len() == 64,
    ensures
        block_key(hash) != tip_key(),
        block_key(hash) != height_key(),
{
    let tip_text = seq!['L', 'A', 'S', 'T'];
    let height_text = seq!['H', 'E', 'I', 'G', 'H', 'T'];
    assert(vstd::utf8::is_ascii_chars(tip_text));
    assert(vstd::utf8::is_ascii_chars(height_text));
    vstd::utf8::is_ascii_chars_encode_utf8(tip_text);
    vstd::utf8::is_ascii_chars_encode_utf8(height_text);
    assert(tip_text[0] as u8 == 0x4cu8 && tip_text[1] as u8 == 0x41u8 && tip_text[2] as u8 == 0x53u8
        && tip_text[3] as u8 == 0x54u8);
    assert(height_text[0] as u8 == 0x48u8 && height_text[1] as u8 == 0x45u8 && height_text[2] as u8
        == 0x49u8 && height_text[3] as u8 == 0x47u8 && height_text[4] as u8 == 0x48u8
        && height_text[5] as u8 == 0x54u8);
    assert(encode_utf8(tip_text) =~= tip_key());
    assert(encode_utf8(height_text) =~= height_key());
    vstd::utf8::encode_utf8_decode_utf8(hash);
    vstd::utf8::encode_utf8_decode_utf8(tip_text);
    vstd::utf8::encode_utf8_decode_utf8(height_text);
}

/// A store is well formed at a tip when the walk from the tip reaches the
/// genesis block, every hash on the way has the 64 characters of a digest, and
/// the store records that tip and, as its height, the height of the tip's
/// block.
pub open spec fn well_formed(entries: Map<Seq<u8>, Seq<u8>>, tip: Seq<char>) -> bool {
    &&& walk(entries, tip, None) matches Some(s) && {
        &&& recorded_height(entries) == Some(s[0].height)
        &&& forall|i: int| 0 <= i < s.len() ==> (#[trigger] s[i]).hash.len() == 64
    }
    &&& recorded_tip(entries) == Some(tip)
}

/// Whether `b` can follow the tip of a well-formed store: it is one higher
/// than the recorded height, names the tip as its parent, has a digest as its
/// hash that no block on the chain has, and reads back from its record as it
/// is written.
pub open spec fn can_follow(entries: Map<Seq<u8>, Seq<u8>>, tip: Seq<char>, b: BlockView) -> bool {
    &&& well_formed(entries, tip)
    &&& b.prev_block_hash == tip
    &&& b.height == recorded_height(entries)->Some_0 + 1
    &&& b.hash.len() == 64
    &&& parsed_record(block_record(b)) == Some(b)
    &&& forall|i: int|
        0 <= i < walk(entries, tip, None)->Some_0.len() ==> (#[trigger] walk(
            entries,
            tip,
            None,
        )->Some_0[i]).hash != b.hash
}

/// The store after the first `k` blocks of `added` were recorded in turn.
pub open spec fn recorded_all(
    entries: Map<Seq<u8>, Seq<u8>>,
    added: Seq<BlockView>,
    k: int,
) -> Map<Seq<u8>, Seq<u8>>
    decreases k,
{
    if k <= 0 {
        entries
    } else {
        recorded(recorded_all(entries, added, k - 1), added[k - 1])
    }
}

/// The tip after the first `k` blocks of `added` were recorded in turn.
pub open spec fn tip_after(tip: Seq<char>, added: Seq<BlockView>, k: int) -> Seq<char> {
    if k <= 0 {
        tip
    } else {
        added[k - 1].hash
    }
}

/// Recording a genesis block that reads back from its record as it is written
/// gives a well-formed store of height zero, whose walk is that one block.
pub proof fn genesis_store_is_well_formed(entries: Map<Seq<u8>, Seq<u8>>, b: BlockView)
    requires
        is_genesis(b),
        b.hash.len() == 64,
        parsed_record(block_record(b)) == Some(b),
    ensures
        well_formed(recorded(entries, b), b.hash),
        walk(recorded(entries, b), b.hash, None) == Some(seq![b]),
        recorded_height(recorded(entries, b)) == Some(0usize),
{
    let after = recorded(entries, b);
    digest_key_is_no_fixed_key(b.hash);
    assert(tip_key().len() == 4 && height_key().len() == 6);
    vstd::utf8::encode_utf8_decode_utf8(b.hash);
    vstd::utf8::encode_utf8_valid_utf8(b.hash);
    vstd::bytes::lemma_auto_spec_u64_to_from_le_bytes();
    assert(after[height_key()] == height_bytes(b.height));
    assert(spec_u64_from_le_bytes(height_bytes(b.height)) == b.height as u64);
    assert(block_at(after, b.hash, None) == Some(b));
    assert(seq![b][0] == b);
}

/// Recording a block that can follow the tip of a chain of height `h` gives a
/// well-formed chain of height `h + 1`: the store records that height and the
/// new tip, and the walk from the new tip gives the new block followed by the
/// blocks of the old walk, one block more, still ending at the genesis block.
pub proof fn recorded_block_extends_the_walk(
    entries: Map<Seq<u8>, Seq<u8>>,
    tip: Seq<char>,
    b: BlockView,
)
    requires
        can_follow(entries, tip, b),
    ensures
        well_formed(recorded(entries, b), b.hash),
        walk(recorded(entries, b), b.hash, None) == Some(
            seq![b] + walk(entries, tip, None)->Some_0,
        ),
        walk(recorded(entries, b), b.hash, None)->Some_0.len() == walk(entries, tip, None)->Some_0.len()
            + 1,
        is_genesis(walk(recorded(entries, b), b.hash, None)->Some_0.last()),
        recorded_height(recorded(entries, b)) == Some(b.height),
{
    let s = walk(entries, tip, None)->Some_0;
    let after = recorded(entries, b);
    walk_ends_at_genesis(entries, tip, None, s);
    digest_key_is_no_fixed_key(b.hash);
    assert(s[0].hash.len() == 64);
    assert(tip.len() > 0);
    assert(tip_key().len() == 4 && height_key().len() == 6);
    assert(tip_key() != height_key());
    vstd::utf8::encode_utf8_decode_utf8(b.hash);
    vstd::utf8::encode_utf8_valid_utf8(b.hash);
    vstd::bytes::lemma_auto_spec_u64_to_from_le_bytes();
    assert(after[height_key()] == height_bytes(b.height));
    assert(spec_u64_from_le_bytes(height_bytes(b.height)) == b.height as u64);
    assert forall|i: int| 0 <= i < s.len() implies after.contains_key(
        block_key((#[trigger] s[i]).hash),
    ) && after[block_key(s[i].hash)] == entries[block_key(s[i].hash)] by {
        vstd::utf8::encode_utf8_decode_utf8(s[i].hash);
        digest_key_is_no_fixed_key(s[i].hash);
        assert(block_key(s[i].hash) != block_key(b.hash));
    }
    walk_transfers(entries, after, tip, None, Some(s[0].height), s);
    assert(block_at(after, b.hash, None) == Some(b));
    let w = seq![b] + s;
    assert(w.last() == s.last());
    assert(w[0] == b);
    assert forall|i: int| 0 <= i < w.len() implies (#[trigger] w[i]).hash.len() == 64 by {
        if i > 0 {
            assert(w[i] == s[i - 1]);
        }
    }
}

/// After `k` blocks were recorded in turn on a well-formed chain of height
/// `h`, each able to follow the tip it met, the chain is well formed, the
/// recorded height is `h + k`, and the walk from the tip gives `h + k + 1`
/// blocks and ends at the genesis block.
pub proof fn successive_blocks_raise_the_height(
    entries: Map<Seq<u8>, Seq<u8>>,
    tip: Seq<char>,
    added: Seq<BlockView>,
    k: int,
)
    requires
        0 <= k <= added.len(),
        well_formed(entries, tip),
        forall|j: int|
            0 <= j < k ==> can_follow(
                recorded_all(entries, added, j),
                tip_after(tip, added, j),
                #[trigger] added[j],
            ),
    ensures
        well_formed(recorded_all(entries, added, k), tip_after(tip, added, k)),
        recorded_height(recorded_all(entries, added, k)) matches Some(n) && n == recorded_height(
            entries,
        )->Some_0 + k,
        walk(recorded_all(entries, added, k), tip_after(tip, added, k), None)->Some_0.len()
            == recorded_height(entries)->Some_0 + k + 1,
        is_genesis(
            walk(recorded_all(entries, added, k), tip_after(tip, added, k), None)->Some_0.last(),
        ),
    decreases k,
{
    if k == 0 {
        let s = walk(entries, tip, None)->Some_0;
        walk_ends_at_genesis(entries, tip, None, s);
    } else {
        successive_blocks_raise_the_height(entries, tip, added, k - 1);
        let before = recorded_all(entries, added, k - 1);
        let at = tip_after(tip, added, k - 1);
        let b = added[k - 1];
        assert(can_follow(before, at, b));
        recorded_block_extends_the_walk(before, at, b);
        assert(recorded_all(entries, added, k) == recorded(before, b));
        assert(tip_after(tip, added, k) == b.hash);
        assert(b.height == recorded_height(before)->Some_0 + 1);
    }
}

} // verus!
