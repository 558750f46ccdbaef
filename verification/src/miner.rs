//! Sealing a block: the search for a nonce whose digest begins with enough
//! zeros.

use crate::block::{Block, BlockView};
use crate::clock::now;
use crate::hasher::{block_digest, hash_block, DIGEST_LEN};
use vstd::prelude::*;
use vstd::string::*;

verus! {

/// Leading zero characters that a sealed block's digest must have.
pub const DIFFICULTY: usize = 4;

/// `text` begins with `difficulty` zero characters. More zeros may follow:
/// this is a prefix test, not a count of the run.
pub open spec fn has_zero_prefix(text: Seq<char>, difficulty: nat) -> bool {
    &&& difficulty <= text.len()
    &&& forall|i: int| 0 <= i < difficulty ==> text[i] == '0'
}

/// The digest for `nonce` begins with `difficulty` zeros.
pub open spec fn qualifies(
    index: u64,
    timestamp: u64,
    data: Seq<char>,
    prev_hash: Seq<char>,
    nonce: u64,
    difficulty: nat,
) -> bool {
    has_zero_prefix(block_digest(index, timestamp, data, prev_hash, nonce), difficulty)
}

/// `nonce` is the first that qualifies: it does, and none below it does.
pub open spec fn is_first_nonce(
    index: u64,
    timestamp: u64,
    data: Seq<char>,
    prev_hash: Seq<char>,
    nonce: u64,
    difficulty: nat,
) -> bool {
    &&& qualifies(index, timestamp, data, prev_hash, nonce, difficulty)
    &&& forall|n: u64|
        n < nonce ==> !#[trigger] qualifies(index, timestamp, data, prev_hash, n, difficulty)
}

/// No nonce up to and including `max_nonce` qualifies.
pub open spec fn none_qualifies(
    index: u64,
    timestamp: u64,
    data: Seq<char>,
    prev_hash: Seq<char>,
    max_nonce: u64,
    difficulty: nat,
) -> bool {
    forall|n: u64|
        n <= max_nonce ==> !#[trigger] qualifies(index, timestamp, data, prev_hash, n, difficulty)
}

/// `block` is what sealing `data` onto `prev` at `timestamp` gives: it links
/// to `prev`, stores the digest of its fields, that digest begins with
/// `difficulty` zeros, and its nonce is the first for which it does.
pub open spec fn sealed_onto(
    block: BlockView,
    prev: BlockView,
    data: Seq<char>,
    timestamp: u64,
    difficulty: nat,
) -> bool {
    &&& block.follows(prev)
    &&& block.timestamp == timestamp
    &&& block.data == data
    &&& block.is_hashed()
    &&& has_zero_prefix(block.hash, difficulty)
    &&& is_first_nonce(block.index, timestamp, data, prev.hash, block.nonce, difficulty)
}

/// No block can be sealed onto `prev` with this payload and timestamp by a
/// search that stops after `max_nonce`: the index has room for a successor,
/// and no nonce up to `max_nonce` qualifies.
pub open spec fn unsealable(
    prev: BlockView,
    data: Seq<char>,
    timestamp: u64,
    difficulty: nat,
    max_nonce: u64,
) -> bool {
    &&& prev.index < u64::MAX
    &&& none_qualifies(
        (prev.index + 1) as u64,
        timestamp,
        data,
        prev.hash,
        max_nonce,
        difficulty,
    )
}

/// Why no block was sealed.
#[derive(Debug, Clone, Copy, PartialEq, Eq, Structural)]
pub enum SealError {
    /// The predecessor already carries the largest index.
    IndexOverflow,
    /// Every nonce that the search was allowed was tried, and none
    /// qualifies.
    SearchExhausted,
    /// The system clock stands before the Unix epoch, so there is no
    /// timestamp to give the block.
    ClockBeforeEpoch,
}

/// Tests whether `hash` begins with `difficulty` zero characters.
pub fn meets_difficulty(hash: &str, difficulty: usize) -> (ok: bool)
    ensures
        ok == has_zero_prefix(hash@, difficulty as nat),
{
    if hash.unicode_len() < difficulty {
        return false;
    }
    let mut i: usize = 0;
    while i < difficulty
        invariant
            i <= difficulty <= hash@.len(),
            forall|j: int| 0 <= j < i ==> hash@[j] == '0',
        decreases difficulty - i,
    {
        if hash.get_char(i) != '0' {
            return false;
        }
        i += 1;
    }
    true
}

/// Tries the nonces 0, 1, 2, ... up to and including `max_nonce`, in that
/// order and each once, and returns the first whose digest begins with
/// `difficulty` zeros, together with that digest. `None` when none of them
/// qualifies.
///
/// The search is capped by `max_nonce` alone; it has no other way out.
pub fn find_nonce(
    index: u64,
    timestamp: u64,
    data: &str,
    prev_hash: &str,
    difficulty: usize,
    max_nonce: u64,
) -> (found: Option<(u64, String)>)
    ensures
        match found {
            Some((nonce, hash)) => {
                &&& nonce <= max_nonce
                &&& hash@ == block_digest(index, timestamp, data@, prev_hash@, nonce)
                &&& hash@.len() == DIGEST_LEN
                &&& is_first_nonce(index, timestamp, data@, prev_hash@, nonce, difficulty as nat)
            },
            None => none_qualifies(
                index,
                timestamp,
                data@,
                prev_hash@,
                max_nonce,
                difficulty as nat,
            ),
        },
{
    let mut nonce: u64 = 0;
    loop
        invariant
            nonce <= max_nonce,
            forall|n: u64|
                n < nonce ==> !#[trigger] qualifies(
                    index,
                    timestamp,
                    data@,
                    prev_hash@,
                    n,
                    difficulty as nat,
                ),
        decreases max_nonce - nonce,
    {
        let hash = hash_block(index, timestamp, data, prev_hash, nonce);
        if meets_difficulty(hash.as_str(), difficulty) {
            return Some((nonce, hash));
        }
        if nonce == max_nonce {
            return None;
        }
        nonce += 1;
    }
}

/// Seals `data` into a block that follows `prev_block`, created at
/// `timestamp`: tries the nonces from 0 up to and including `max_nonce` and
/// takes the first whose digest begins with `difficulty` zeros.
pub fn seal_within(
    prev_block: &Block,
    data: String,
    timestamp: u64,
    difficulty: usize,
    max_nonce: u64,
) -> (sealed: Result<Block, SealError>)
    ensures
        match sealed {
            Ok(block) => {
                &&& sealed_onto(block@, prev_block@, data@, timestamp, difficulty as nat)
                &&& block.hash@.len() == DIGEST_LEN
                &&& block.nonce <= max_nonce
            },
            Err(SealError::IndexOverflow) => prev_block.index == u64::MAX,
            Err(SealError::SearchExhausted) => unsealable(
                prev_block@,
                data@,
                timestamp,
                difficulty as nat,
                max_nonce,
            ),
            Err(SealError::ClockBeforeEpoch) => false,
        },
{
    if prev_block.index == u64::MAX {
        return Err(SealError::IndexOverflow);
    }
    let index: u64 = prev_block.index + 1;
    let prev_hash = prev_block.hash.clone();
    match find_nonce(index, timestamp, data.as_str(), prev_hash.as_str(), difficulty, max_nonce) {
        Some((nonce, hash)) => Ok(Block { index, timestamp, data, prev_hash, hash, nonce }),
        None => Err(SealError::SearchExhausted),
    }
}

/// Seals `data` into a block that follows `prev_block`, created at
/// `timestamp`, searching the whole nonce space.
///
/// There is no cap on the attempts and no way to call the search off: it
/// returns when a nonce qualifies, which takes about sixteen to the power of
/// `difficulty` attempts, or when all nonces are spent. Where that is too
/// long, use [`seal_within`].
pub fn seal(prev_block: &Block, data: String, timestamp: u64, difficulty: usize) -> (sealed: Result<
    Block,
    SealError,
>)
    ensures
        match sealed {
            Ok(block) => {
                &&& sealed_onto(block@, prev_block@, data@, timestamp, difficulty as nat)
                &&& block.hash@.len() == DIGEST_LEN
            },
            Err(SealError::IndexOverflow) => prev_block.index == u64::MAX,
            Err(SealError::SearchExhausted) => unsealable(
                prev_block@,
                data@,
                timestamp,
                difficulty as nat,
                u64::MAX,
            ),
            Err(SealError::ClockBeforeEpoch) => false,
        },
{
    seal_within(prev_block, data, timestamp, difficulty, u64::MAX)
}

/// Mines the block that carries `data` after `prev_block`, given what the
/// clock read: checks that the index has room, then that the reading is a
/// timestamp, then seals at [`DIFFICULTY`] with that timestamp.
pub fn mine_block_at(prev_block: Block, data: String, reading: Option<u64>) -> (mined: Result<
    Block,
    SealError,
>)
    ensures
        match mined {
            Ok(block) => {
                &&& reading matches Some(timestamp)
                &&& sealed_onto(block@, prev_block@, data@, timestamp, DIFFICULTY as nat)
                &&& block.hash@.len() == DIGEST_LEN
            },
            Err(SealError::IndexOverflow) => prev_block.index == u64::MAX,
            Err(SealError::ClockBeforeEpoch) => prev_block.index < u64::MAX && reading is None,
            Err(SealError::SearchExhausted) => {
                &&& reading matches Some(timestamp)
                &&& unsealable(prev_block@, data@, timestamp, DIFFICULTY as nat, u64::MAX)
            },
        },
{
    if prev_block.index == u64::MAX {
        return Err(SealError::IndexOverflow);
    }
    match reading {
        Some(timestamp) => seal(&prev_block, data, timestamp, DIFFICULTY),
        None => Err(SealError::ClockBeforeEpoch),
    }
}

/// Mines the block that carries `data` after `prev_block`: reads the clock
/// once, not once per attempt, then seals at [`DIFFICULTY`]. Fails without
/// a search where the index has no room or the clock stands before the
/// epoch.
pub fn mine_block(prev_block: Block, data: String) -> (mined: Result<Block, SealError>)
    ensures
        match mined {
            Ok(block) => {
                &&& sealed_onto(block@, prev_block@, data@, block.timestamp, DIFFICULTY as nat)
                &&& block.hash@.len() == DIGEST_LEN
            },
            Err(SealError::IndexOverflow) => prev_block.index == u64::MAX,
            Err(SealError::ClockBeforeEpoch) => prev_block.index < u64::MAX,
            Err(SealError::SearchExhausted) => exists|timestamp: u64| #[trigger]
                unsealable(prev_block@, data@, timestamp, DIFFICULTY as nat, u64::MAX),
        },
{
    let reading = now();
    mine_block_at(prev_block, data, reading)
}

} // verus!
