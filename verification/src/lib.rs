//! A single-node proof-of-work ledger: blocks sealed by a nonce search and
//! linked to their predecessor by digest.
//!
//! A [`Block`] is sealed by [`seal`], which tries nonces from 0 upward until
//! the block's digest, computed by [`hash_block`], begins with the required
//! number of zero characters. A [`Blockchain`] starts with a genesis block
//! and only ever grows. [`Blockchain::append`] takes any block;
//! [`Blockchain::try_append`] takes only a sealed successor of the current
//! tail, which is what keeps producers that share a chain from forking it.

pub mod block;
pub mod chain;
pub mod clock;
pub mod encoding;
pub mod hasher;
pub mod miner;

pub use block::{zero_hash, Block};
pub use chain::{check_successor, Blockchain, Rejection};
pub use clock::now;
pub use encoding::{push_decimal, to_hex};
pub use hasher::{block_preimage, hash_block, DIGEST_LEN};
pub use miner::{
    find_nonce, meets_difficulty, mine_block, mine_block_at, seal, seal_within, SealError,
    DIFFICULTY,
};
