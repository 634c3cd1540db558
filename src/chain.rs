//! Chain validation, fork choice, and growing the local chain.
use crate::block::{has_difficulty_prefix, meets_difficulty, Block, GENESIS_NONCE, GENESIS_TEXT};
use crate::hexcode::{decode_hex, encode_hex, hex_bytes, hex_chars, hex_decodes, lemma_decode_encode};
use vstd::prelude::*;

verus! {

/// The first check that a block fails against its parent, in the order
/// in which they are made.
#[derive(Clone, Copy, Debug, PartialEq, Eq, Structural)]
pub enum BlockFault {
    /// The block does not name the parent's hash.
    PreviousHashMismatch,
    /// The block's hash is not hexadecimal text.
    MalformedHash,
    /// The block's hash does not meet the difficulty.
    Difficulty,
    /// The block's id does not follow the parent's.
    IdMismatch,
    /// The parent's recomputed hash is not what the block names.
    ParentDigestMismatch,
}

/// Conditions under which the chain cannot do what was asked.
#[derive(Clone, Copy, Debug, PartialEq, Eq, Structural)]
pub enum ChainError {
    /// The chain holds no block yet.
    NotInitialized,
    /// Neither candidate of a fork choice is a valid chain.
    BothChainsInvalid,
    /// The tip's id is the largest there is: no block can follow it.
    IdSpaceExhausted,
    /// No nonce makes the new block meet the difficulty.
    NonceSpaceExhausted,
}

/// The outcome of checking `b` against its parent `p`.
pub open spec fn block_check(b: Block, p: Block) -> Result<(), BlockFault> {
    if b.previous_hash@ != p.hash@ {
        Err(BlockFault::PreviousHashMismatch)
    } else if !hex_decodes(b.hash@) {
        Err(BlockFault::MalformedHash)
    } else if !meets_difficulty(hex_bytes(b.hash@)) {
        Err(BlockFault::Difficulty)
    } else if b.id != p.id + 1 {
        Err(BlockFault::IdMismatch)
    } else if hex_chars(p.digest()) != b.previous_hash@ {
        Err(BlockFault::ParentDigestMismatch)
    } else {
        Ok(())
    }
}

pub open spec fn block_valid(b: Block, p: Block) -> bool {
    block_check(b, p) is Ok
}

/// Every block after the first is valid against the one before it.
pub open spec fn chain_valid(c: Seq<Block>) -> bool {
    forall|i: int| 1 <= i < c.len() ==> #[trigger] block_valid(c[i], c[i - 1])
}

/// What fork choice picks when at least one candidate is valid: the longer
/// of two valid chains, the local one on a tie, else the valid one.
pub open spec fn chosen(local: Seq<Block>, remote: Seq<Block>) -> Seq<Block> {
    if chain_valid(local) && chain_valid(remote) {
        if local.len() >= remote.len() {
            local
        } else {
            remote
        }
    } else if chain_valid(remote) {
        remote
    } else {
        local
    }
}

/// The outcome of fork choice between `local` and `remote`.
pub open spec fn choice(local: Seq<Block>, remote: Seq<Block>) -> Result<Seq<Block>, ChainError> {
    if !chain_valid(local) && !chain_valid(remote) {
        Err(ChainError::BothChainsInvalid)
    } else {
        Ok(chosen(local, remote))
    }
}

/// The blocks a node holds, genesis first.
pub struct Chain {
    pub blocks: Vec<Block>,
}

/// Checks `block` against its parent and names the first check it fails.
pub fn check_block(block: &Block, previous_block: &Block) -> (r: Result<(), BlockFault>)
    ensures
        r == block_check(*block, *previous_block),
{
    if block.previous_hash != previous_block.hash {
        return Err(BlockFault::PreviousHashMismatch);
    }
    match decode_hex(block.hash.as_str()) {
        Err(_) => {
            return Err(BlockFault::MalformedHash);
        },
        Ok(raw) => {
            if !has_difficulty_prefix(raw.as_slice()) {
                return Err(BlockFault::Difficulty);
            }
        },
    }
    if previous_block.id == u64::MAX || block.id != previous_block.id + 1 {
        return Err(BlockFault::IdMismatch);
    }
    let parent_hash = encode_hex(previous_block.calculate_hash().as_slice());
    if parent_hash != block.previous_hash {
        return Err(BlockFault::ParentDigestMismatch);
    }
    Ok(())
}

impl Chain {
    /// An empty chain.
    pub fn new() -> (r: Chain)
        ensures
            r.blocks@ == Seq::<Block>::empty(),
    {
        Chain { blocks: Vec::new() }
    }

    /// Appends a genesis block stamped with `timestamp`.
    pub fn genesis(&mut self, timestamp: i64)
        ensures
            final(self).blocks@.len() == old(self).blocks@.len() + 1,
            final(self).blocks@.drop_last() == old(self).blocks@,
            final(self).blocks@.last().id == 0,
            final(self).blocks@.last().previous_hash@ == GENESIS_TEXT@,
            final(self).blocks@.last().data@ == GENESIS_TEXT@,
            final(self).blocks@.last().nonce == GENESIS_NONCE,
            final(self).blocks@.last().timestamp == timestamp,
            final(self).blocks@.last().hash_consistent(),
    {
        let g = Block::genesis(timestamp);
        self.blocks.push(g);
        assert(self.blocks@.drop_last() =~= old(self).blocks@);
    }

    /// Whether `block` is valid as the child of `previous_block`.
    pub fn is_block_valid(&self, block: &Block, previous_block: &Block) -> (r: bool)
        ensures
            r == block_valid(*block, *previous_block),
    {
        check_block(block, previous_block).is_ok()
    }

    /// Whether every block of `chain` after the first is valid against its predecessor.
    pub fn is_chain_valid(&self, chain: &[Block]) -> (r: bool)
        ensures
            r == chain_valid(chain@),
    {
        let mut i: usize = 1;
        while i < chain.len()
            invariant
                1 <= i,
                forall|j: int| 1 <= j < i && j < chain@.len() ==> #[trigger] block_valid(chain@[j], chain@[j - 1]),
            decreases chain.len() - i,
        {
            if !self.is_block_valid(&chain[i], &chain[i - 1]) {
                return false;
            }
            i = i + 1;
        }
        true
    }

    /// Fork choice: the longer of two valid chains (the local one on a tie),
    /// else whichever is valid; an error when neither is.
    pub fn choose_chain(&mut self, local: Vec<Block>, remote: Vec<Block>) -> (r: Result<Vec<Block>, ChainError>)
        ensures
            *final(self) == *old(self),
            match r {
                Ok(c) => choice(local@, remote@) == Ok::<Seq<Block>, ChainError>(c@),
                Err(e) => choice(local@, remote@) == Err::<Seq<Block>, ChainError>(e),
            },
    {
        let is_local_valid = self.is_chain_valid(local.as_slice());
        let is_remote_valid = self.is_chain_valid(remote.as_slice());
        if is_local_valid && is_remote_valid {
            if local.len() >= remote.len() {
                Ok(local)
            } else {
                Ok(remote)
            }
        } else if is_remote_valid {
            Ok(remote)
        } else if is_local_valid {
            Ok(local)
        } else {
            Err(ChainError::BothChainsInvalid)
        }
    }

    /// Appends `block` if it is valid against the tip. Gives whether it was appended.
    pub fn try_add_block(&mut self, block: Block) -> (r: Result<bool, ChainError>)
        ensures
            old(self).blocks@.len() == 0 ==> r == Err::<bool, ChainError>(ChainError::NotInitialized)
                && final(self).blocks@ == old(self).blocks@,
            old(self).blocks@.len() > 0 ==> {
                let ok = block_valid(block, old(self).blocks@.last());
                &&& r == Ok::<bool, ChainError>(ok)
                &&& final(self).blocks@ == if ok {
                    old(self).blocks@.push(block)
                } else {
                    old(self).blocks@
                }
            },
            chain_valid(old(self).blocks@) ==> chain_valid(final(self).blocks@),
    {
        let n = self.blocks.len();
        if n == 0 {
            return Err(ChainError::NotInitialized);
        }
        let ok = self.is_block_valid(&block, &self.blocks[n - 1]);
        if ok {
            self.blocks.push(block);
            proof {
                if chain_valid(old(self).blocks@) {
                    lemma_push_valid(old(self).blocks@, block);
                }
            }
        }
        Ok(ok)
    }
}

/// Appending a block that is valid against the tip keeps a chain valid.
pub proof fn lemma_push_valid(c: Seq<Block>, b: Block)
    requires
        chain_valid(c),
        c.len() > 0,
        block_valid(b, c.last()),
    ensures
        chain_valid(c.push(b)),
{
    let d = c.push(b);
    assert forall|i: int| 1 <= i < d.len() implies #[trigger] block_valid(d[i], d[i - 1]) by {
        if i < c.len() {
            assert(d[i] == c[i] && d[i - 1] == c[i - 1]);
        }
    }
}

/// A mined block is valid against the block it was mined from, provided
/// that block holds its own hash.
pub proof fn lemma_mined_block_valid(b: Block, p: Block)
    requires
        b.mined_from(p),
        p.hash_consistent(),
    ensures
        block_valid(b, p),
{
    lemma_decode_encode(b.digest());
}

/// Blocks mined one after another, starting from a block that holds its own
/// hash (such as a genesis block), form a valid chain.
pub proof fn lemma_mined_chain_valid(c: Seq<Block>)
    requires
        c.len() > 0,
        c[0].hash_consistent(),
        forall|i: int| 1 <= i < c.len() ==> #[trigger] c[i].mined_from(c[i - 1]),
    ensures
        chain_valid(c),
{
    assert forall|i: int| 1 <= i < c.len() implies #[trigger] block_valid(c[i], c[i - 1]) by {
        if i > 1 {
            let j = i - 1;
            assert(c[j].mined_from(c[j - 1]));
        }
        lemma_mined_block_valid(c[i], c[i - 1]);
    }
}

/// Of two valid chains fork choice keeps the longer, and the local one when
/// they are equally long.
pub proof fn lemma_choice_prefers_longer(local: Seq<Block>, remote: Seq<Block>)
    requires
        chain_valid(local),
        chain_valid(remote),
    ensures
        remote.len() > local.len() ==> choice(local, remote) == Ok::<Seq<Block>, ChainError>(remote),
        remote.len() <= local.len() ==> choice(local, remote) == Ok::<Seq<Block>, ChainError>(local),
{
}

/// When neither chain is valid fork choice fails, and never hands back
/// either of them.
pub proof fn lemma_choice_both_invalid(local: Seq<Block>, remote: Seq<Block>)
    requires
        !chain_valid(local),
        !chain_valid(remote),
    ensures
        choice(local, remote) == Err::<Seq<Block>, ChainError>(ChainError::BothChainsInvalid),
{
}

} // verus!
