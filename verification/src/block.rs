//! One entry of the ledger and the mathematical value it stands for.

use crate::hasher::{block_digest, DIGEST_LEN};
use vstd::prelude::*;
use vstd::string::*;

verus! {

/// A block as plain mathematical values: the model that contracts speak of.
pub struct BlockView {
    pub index: u64,
    pub timestamp: u64,
    pub data: Seq<char>,
    pub prev_hash: Seq<char>,
    pub hash: Seq<char>,
    pub nonce: u64,
}

/// One entry of the ledger.
///
/// `hash` is the digest of the other five fields once the block is sealed;
/// `prev_hash` names the block that this one claims to follow.
#[derive(Debug)]
pub struct Block {
    /// Position in the chain; the genesis block has 0.
    pub index: u64,
    /// Seconds since the Unix epoch, taken when the block was created.
    pub timestamp: u64,
    /// Application data, with no structure imposed.
    pub data: String,
    /// Digest of the preceding block.
    pub prev_hash: String,
    /// Digest of this block's own fields.
    pub hash: String,
    /// The value varied by the search until the digest qualifies.
    pub nonce: u64,
}

impl View for Block {
    type V = BlockView;

    open spec fn view(&self) -> BlockView {
        BlockView {
            index: self.index,
            timestamp: self.timestamp,
            data: self.data@,
            prev_hash: self.prev_hash@,
            hash: self.hash@,
            nonce: self.nonce,
        }
    }
}

impl Clone for Block {
    fn clone(&self) -> (copy: Block)
        ensures
            copy == *self,
    {
        Block {
            index: self.index,
            timestamp: self.timestamp,
            data: self.data.clone(),
            prev_hash: self.prev_hash.clone(),
            hash: self.hash.clone(),
            nonce: self.nonce,
        }
    }
}

/// The sentinel digest: sixty-four zero characters.
pub open spec fn zero_digest() -> Seq<char> {
    Seq::new(DIGEST_LEN as nat, |i: int| '0')
}

/// The genesis block created at `timestamp`: index 0, with the sentinel as
/// both its digest and its predecessor's. It is a seed, not a mined block,
/// so its digest is not the digest of its fields.
pub open spec fn genesis_view(timestamp: u64) -> BlockView {
    BlockView {
        index: 0,
        timestamp,
        data: "Genesis Block"@,
        prev_hash: zero_digest(),
        hash: zero_digest(),
        nonce: 0,
    }
}

impl BlockView {
    /// The digest that the five hashed fields determine.
    pub open spec fn digest(self) -> Seq<char> {
        block_digest(self.index, self.timestamp, self.data, self.prev_hash, self.nonce)
    }

    /// The stored digest is the digest of the fields.
    pub open spec fn is_hashed(self) -> bool {
        self.hash == self.digest()
    }

    /// This block links to `prev`: it carries the next index and names
    /// `prev`'s digest.
    pub open spec fn follows(self, prev: BlockView) -> bool {
        &&& self.index == prev.index + 1
        &&& self.prev_hash == prev.hash
    }

    /// This block is a genesis block, whatever its timestamp.
    pub open spec fn is_genesis(self) -> bool {
        self == genesis_view(self.timestamp)
    }
}

/// Two blocks that agree on index, timestamp, payload, predecessor digest
/// and nonce have the same digest.
pub proof fn digest_deterministic(a: BlockView, b: BlockView)
    requires
        a.index == b.index,
        a.timestamp == b.timestamp,
        a.data == b.data,
        a.prev_hash == b.prev_hash,
        a.nonce == b.nonce,
    ensures
        a.digest() == b.digest(),
{
}

/// The sentinel digest as text.
pub fn zero_hash() -> (text: String)
    ensures
        text@ == zero_digest(),
{
    let text = String::from_str("0000000000000000000000000000000000000000000000000000000000000000");
    proof {
        reveal_strlit("0000000000000000000000000000000000000000000000000000000000000000");
        assert(text@ =~= zero_digest());
    }
    text
}

impl Block {
    /// The genesis block for a chain created at `timestamp`.
    pub fn genesis(timestamp: u64) -> (block: Block)
        ensures
            block@ == genesis_view(timestamp),
    {
        Block {
            index: 0,
            timestamp,
            data: String::from_str("Genesis Block"),
            prev_hash: zero_hash(),
            hash: zero_hash(),
            nonce: 0,
        }
    }
}

} // verus!
