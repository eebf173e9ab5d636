//! A single-node ledger: proof-of-work blocks linked by hash, kept in a
//! key-value store, with unspent outputs derived by scanning the chain.
use vstd::prelude::*;

pub mod digest;
pub mod transaction;
pub mod block;
pub mod store;
pub mod block_chain;
pub mod utxo;

verus! {

/// Number of leading hexadecimal zeros that the hash of a sealed block has.
pub const TARGET_HEX: usize = 3;

/// Amount paid by a coinbase transaction.
pub const REWARD: i32 = 100;

/// What can go wrong in the ledger.
#[derive(Debug, Clone, Copy, PartialEq, Eq, Structural)]
pub enum ChainError {
    /// No nonce from the starting one up to the largest meets the target.
    NonceExhausted,
    /// The backing store reported a failure.
    Storage,
    /// The store records no tip.
    MissingTip,
    /// The recorded tip is not text.
    BadTip,
    /// The recorded height is absent, has the wrong width or cannot grow.
    BadHeight,
    /// A block on the path from the tip is absent, unreadable or out of place.
    Integrity,
}

pub type TResult<T> = Result<T, ChainError>;

} // verus!
