//! The ledger: an append-only sequence of blocks that starts with a genesis
//! block.

use crate::block::{genesis_view, Block, BlockView};
use crate::clock::now;
use crate::hasher::{hash_block, DIGEST_LEN};
use crate::miner::{
    has_zero_prefix, meets_difficulty, mine_block, sealed_onto, unsealable, SealError, DIFFICULTY,
};
use vstd::prelude::*;

verus! {

/// The values that a sequence of blocks stands for.
pub open spec fn views(blocks: Seq<Block>) -> Seq<BlockView> {
    blocks.map_values(|block: Block| block@)
}

/// Every block but the first links to the one before it.
pub open spec fn linked(chain: Seq<BlockView>) -> bool {
    forall|i: int| 0 < i < chain.len() ==> (#[trigger] chain[i]).follows(chain[i - 1])
}

/// Every block but the first stores the digest of its own fields, and that
/// digest begins with `difficulty` zeros.
pub open spec fn all_sealed(chain: Seq<BlockView>, difficulty: nat) -> bool {
    forall|i: int|
        0 < i < chain.len() ==> {
            &&& (#[trigger] chain[i]).is_hashed()
            &&& has_zero_prefix(chain[i].hash, difficulty)
        }
}

/// A chain as it should be: a genesis block first, then blocks that are each
/// sealed and linked to their predecessor.
pub open spec fn valid_chain(chain: Seq<BlockView>, difficulty: nat) -> bool {
    &&& chain.len() > 0
    &&& chain[0].is_genesis()
    &&& linked(chain)
    &&& all_sealed(chain, difficulty)
}

/// What [`Blockchain::try_append`] decides about `block` as a successor of
/// `tail`: the first of the four checks that fails, or `None` when all pass.
pub open spec fn verdict(tail: BlockView, block: BlockView, difficulty: nat) -> Option<Rejection> {
    if block.index != tail.index + 1 {
        Some(Rejection::WrongIndex)
    } else if block.prev_hash != tail.hash {
        Some(Rejection::WrongPredecessor)
    } else if !block.is_hashed() {
        Some(Rejection::WrongDigest)
    } else if !has_zero_prefix(block.hash, difficulty) {
        Some(Rejection::InsufficientWork)
    } else {
        None
    }
}

/// Why a block was not admitted to the chain.
#[derive(Debug, Clone, Copy, PartialEq, Eq, Structural)]
pub enum Rejection {
    /// The block's index is not the tail's index plus one.
    WrongIndex,
    /// The block does not name the tail's digest as its predecessor.
    WrongPredecessor,
    /// The block's stored digest is not the digest of its fields.
    WrongDigest,
    /// The block's digest does not begin with enough zeros.
    InsufficientWork,
}

impl Rejection {
    /// The block was mined on a tail that has since been replaced: sealing
    /// the same payload onto the new tail can still get it in. The other
    /// two reasons are faults of the block itself.
    pub open spec fn stale(self) -> bool {
        self == Rejection::WrongIndex || self == Rejection::WrongPredecessor
    }

    /// Tells a producer whether to read the tail again and mine once more.
    pub fn is_stale(self) -> (stale: bool)
        ensures
            stale == self.stale(),
    {
        match self {
            Rejection::WrongIndex => true,
            Rejection::WrongPredecessor => true,
            Rejection::WrongDigest => false,
            Rejection::InsufficientWork => false,
        }
    }
}

/// An append-only chain of blocks, owned by whoever holds the value. It is
/// never empty: it is created with a genesis block and blocks are only added.
///
/// To share one between producers, put it behind a lock and hold the lock
/// for one call at a time.
pub struct Blockchain {
    genesis: Block,
    appended: Vec<Block>,
}

impl View for Blockchain {
    type V = Seq<BlockView>;

    closed spec fn view(&self) -> Seq<BlockView> {
        seq![self.genesis@] + views(self.appended@)
    }
}

impl Blockchain {
    /// A chain that holds only the genesis block for `timestamp`.
    pub fn with_genesis(timestamp: u64) -> (created: Blockchain)
        ensures
            created@ == seq![genesis_view(timestamp)],
    {
        let created = Blockchain { genesis: Block::genesis(timestamp), appended: Vec::new() };
        assert(created@ =~= seq![genesis_view(timestamp)]);
        created
    }

    /// A fresh chain: exactly one block, the genesis block, stamped with the
    /// current time. `None` where the clock stands before the epoch and so
    /// gives no timestamp.
    pub fn new() -> (created: Option<Blockchain>)
        ensures
            created matches Some(chain) ==> {
                &&& chain@.len() == 1
                &&& chain@[0].index == 0
                &&& chain@[0].is_genesis()
                &&& valid_chain(chain@, DIFFICULTY as nat)
            },
    {
        match now() {
            Some(timestamp) => Some(Blockchain::with_genesis(timestamp)),
            None => None,
        }
    }

    /// A copy of the most recently appended block, or of the genesis block
    /// if none was appended. The chain is left as it is, so repeated reads
    /// with no append between them give the same block.
    pub fn read_tail(&self) -> (tail: Block)
        ensures
            self@.len() > 0,
            tail@ == self@.last(),
    {
        self.tail().clone()
    }

    /// Adds `block` to the end of the chain, whatever it holds: neither its
    /// index, nor its link, nor its digest is looked at. A chain filled this
    /// way may hold two blocks with one index; use
    /// [`Blockchain::try_append`] to keep it valid.
    pub fn append(&mut self, block: Block)
        ensures
            final(self)@ == old(self)@.push(block@),
    {
        self.appended.push(block);
        assert(self@ =~= old(self)@.push(block@));
    }

    /// Adds `block` to the end of the chain if it is a sealed successor of
    /// the current tail, and says why not otherwise. A block mined on a tail
    /// that has since been replaced is turned away with
    /// [`Rejection::WrongIndex`], so two producers that raced on one tail
    /// cannot both get in.
    pub fn try_append(&mut self, block: Block) -> (admitted: Result<(), Rejection>)
        ensures
            old(self)@.len() > 0,
            match admitted {
                Ok(()) => {
                    &&& verdict(old(self)@.last(), block@, DIFFICULTY as nat) is None
                    &&& final(self)@ == old(self)@.push(block@)
                },
                Err(reason) => {
                    &&& verdict(old(self)@.last(), block@, DIFFICULTY as nat) == Some(reason)
                    &&& final(self)@ == old(self)@
                },
            },
            valid_chain(old(self)@, DIFFICULTY as nat) ==> valid_chain(
                final(self)@,
                DIFFICULTY as nat,
            ),
    {
        match check_successor(self.tail(), &block, DIFFICULTY) {
            Some(reason) => Err(reason),
            None => {
                proof {
                    extension_keeps_valid(self@, block@, DIFFICULTY as nat);
                }
                self.append(block);
                Ok(())
            },
        }
    }

    /// Mines a block that carries `data` onto the current tail and appends
    /// it. On an error, the clock's included, the chain is left as it was.
    pub fn add_block(&mut self, data: String) -> (added: Result<(), SealError>)
        ensures
            old(self)@.len() > 0,
            match added {
                Ok(()) => {
                    &&& final(self)@.len() == old(self)@.len() + 1
                    &&& final(self)@.drop_last() == old(self)@
                    &&& sealed_onto(
                        final(self)@.last(),
                        old(self)@.last(),
                        data@,
                        final(self)@.last().timestamp,
                        DIFFICULTY as nat,
                    )
                    &&& final(self)@.last().hash.len() == DIGEST_LEN
                },
                Err(SealError::IndexOverflow) => {
                    &&& final(self)@ == old(self)@
                    &&& old(self)@.last().index == u64::MAX
                },
                Err(SealError::ClockBeforeEpoch) => {
                    &&& final(self)@ == old(self)@
                    &&& old(self)@.last().index < u64::MAX
                },
                Err(SealError::SearchExhausted) => {
                    &&& final(self)@ == old(self)@
                    &&& exists|timestamp: u64| #[trigger]
                        unsealable(
                            old(self)@.last(),
                            data@,
                            timestamp,
                            DIFFICULTY as nat,
                            u64::MAX,
                        )
                },
            },
            linked(old(self)@) ==> linked(final(self)@),
            valid_chain(old(self)@, DIFFICULTY as nat) ==> valid_chain(
                final(self)@,
                DIFFICULTY as nat,
            ),
    {
        let last_block = self.read_tail();
        match mine_block(last_block, data) {
            Ok(new_block) => {
                proof {
                    extension_keeps_linked(self@, new_block@);
                    extension_keeps_valid(self@, new_block@, DIFFICULTY as nat);
                }
                self.append(new_block);
                assert(self@.drop_last() =~= old(self)@);
                Ok(())
            },
            Err(reason) => Err(reason),
        }
    }

    /// A copy of the whole chain, in order, for reporting.
    pub fn snapshot(&self) -> (blocks: Vec<Block>)
        ensures
            views(blocks@) == self@,
    {
        let mut blocks: Vec<Block> = Vec::new();
        blocks.push(self.genesis.clone());
        let mut i: usize = 0;
        while i < self.appended.len()
            invariant
                i <= self.appended@.len(),
                blocks@.len() == i + 1,
                blocks@[0] == self.genesis,
                forall|k: int| 0 <= k < i ==> blocks@[k + 1] == self.appended@[k],
            decreases self.appended@.len() - i,
        {
            blocks.push(self.appended[i].clone());
            i += 1;
        }
        assert(views(blocks@) =~= self@);
        blocks
    }

    /// The last block of the chain.
    fn tail(&self) -> (tail: &Block)
        ensures
            self@.len() > 0,
            tail@ == self@.last(),
    {
        if self.appended.len() == 0 {
            &self.genesis
        } else {
            &self.appended[self.appended.len() - 1]
        }
    }
}

/// Decides whether `block` may follow `tail`: runs the four checks in order
/// and names the first that fails.
pub fn check_successor(tail: &Block, block: &Block, difficulty: usize) -> (reason: Option<
    Rejection,
>)
    ensures
        reason == verdict(tail@, block@, difficulty as nat),
{
    if tail.index == u64::MAX || block.index != tail.index + 1 {
        return Some(Rejection::WrongIndex);
    }
    if block.prev_hash != tail.hash {
        return Some(Rejection::WrongPredecessor);
    }
    let digest = hash_block(
        block.index,
        block.timestamp,
        block.data.as_str(),
        block.prev_hash.as_str(),
        block.nonce,
    );
    if block.hash != digest {
        return Some(Rejection::WrongDigest);
    }
    if !meets_difficulty(block.hash.as_str(), difficulty) {
        return Some(Rejection::InsufficientWork);
    }
    None
}

/// A linked chain stays linked when a block that follows its last block is
/// added.
pub proof fn extension_keeps_linked(chain: Seq<BlockView>, block: BlockView)
    requires
        chain.len() > 0,
        block.follows(chain.last()),
    ensures
        linked(chain) ==> linked(chain.push(block)),
{
    let longer = chain.push(block);
    if linked(chain) {
        assert forall|i: int| 0 < i < longer.len() implies (#[trigger] longer[i]).follows(
            longer[i - 1],
        ) by {
            if i < chain.len() {
                assert(chain[i].follows(chain[i - 1]));
            }
        }
    }
}

/// A valid chain stays valid when a sealed block that follows its last block
/// is added.
pub proof fn extension_keeps_valid(chain: Seq<BlockView>, block: BlockView, difficulty: nat)
    requires
        chain.len() > 0,
        block.follows(chain.last()),
        block.is_hashed(),
        has_zero_prefix(block.hash, difficulty),
    ensures
        valid_chain(chain, difficulty) ==> valid_chain(chain.push(block), difficulty),
{
    let longer = chain.push(block);
    if valid_chain(chain, difficulty) {
        extension_keeps_linked(chain, block);
        assert forall|i: int| 0 < i < longer.len() implies {
            &&& (#[trigger] longer[i]).is_hashed()
            &&& has_zero_prefix(longer[i].hash, difficulty)
        } by {
            if i < chain.len() {
                assert(chain[i].is_hashed());
            }
        }
        assert(longer[0] == chain[0]);
    }
}

/// In a linked chain the indices count up by one from block to block.
pub proof fn linked_indices_count_up(chain: Seq<BlockView>, i: int, j: int)
    requires
        linked(chain),
        0 <= i <= j < chain.len(),
    ensures
        chain[j].index == chain[i].index + (j - i),
    decreases j - i,
{
    if i < j {
        linked_indices_count_up(chain, i, j - 1);
        assert(chain[j].follows(chain[j - 1]));
    }
}

/// A linked chain holds no fork: no two of its blocks share an index.
pub proof fn linked_has_no_fork(chain: Seq<BlockView>, i: int, j: int)
    requires
        linked(chain),
        0 <= i < chain.len(),
        0 <= j < chain.len(),
        i != j,
    ensures
        chain[i].index != chain[j].index,
{
    if i < j {
        linked_indices_count_up(chain, i, j);
    } else {
        linked_indices_count_up(chain, j, i);
    }
}

/// In a valid chain each block's index is its position.
pub proof fn valid_index_is_position(chain: Seq<BlockView>, difficulty: nat, i: int)
    requires
        valid_chain(chain, difficulty),
        0 <= i < chain.len(),
    ensures
        chain[i].index == i,
{
    linked_indices_count_up(chain, 0, i);
}

} // verus!
