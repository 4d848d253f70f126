//! A chain of blocks and the fork-choice rule.

use crate::models::block::{has_leading_zeros, Block, BlockView};
use vstd::prelude::*;
use vstd::string::StringExecFns;

verus! {

/// The ledger: blocks in order, the first one at index zero.
#[derive(Debug)]
pub struct Blockchain {
    /// The blocks, oldest first.
    pub chain: Vec<Block>,
    /// Number of leading zeros that a block's hash must have.
    pub difficulty: usize,
}

/// The mathematical value of a [`Blockchain`].
pub struct BlockchainView {
    pub chain: Seq<BlockView>,
    pub difficulty: usize,
}

impl View for Blockchain {
    type V = BlockchainView;

    open spec fn view(&self) -> BlockchainView {
        BlockchainView {
            chain: Seq::new(self.chain@.len(), |i: int| self.chain@[i]@),
            difficulty: self.difficulty,
        }
    }
}

/// What the first block of a chain names as its predecessor: the text `0`.
pub open spec fn genesis_previous_hash() -> Seq<char> {
    seq!['0']
}

/// A block before mining: counter zero and no hash.
pub open spec fn unmined_block(index: u64, timestamp: u64, previous_hash: Seq<char>) -> BlockView {
    BlockView { index, timestamp, proof_of_work: 0, previous_hash, hash: Seq::empty() }
}

impl BlockchainView {
    /// The block at `i` carries its own position and names the hash of the
    /// block before it, the first block naming `0`.
    pub open spec fn links_at(self, i: int) -> bool {
        &&& self.chain[i].index == i
        &&& self.chain[i].previous_hash == if i == 0 {
            genesis_previous_hash()
        } else {
            self.chain[i - 1].hash
        }
    }

    /// Every block is linked to the one before it.
    pub open spec fn is_linked(self) -> bool {
        forall|i: int| 0 <= i < self.chain.len() ==> self.links_at(i)
    }

    /// Every block's hash is the hash of its other fields.
    pub open spec fn is_sealed(self) -> bool {
        forall|i: int| 0 <= i < self.chain.len() ==> (#[trigger] self.chain[i]).is_sealed()
    }

    /// The block at `i` meets the chain's difficulty, or its search ran out
    /// of counters.
    pub open spec fn worked_at(self, i: int) -> bool {
        has_leading_zeros(self.chain[i].hash, self.difficulty as nat) || self.chain[i].proof_of_work
            == u64::MAX
    }

    /// Every block has been mined at the chain's difficulty.
    pub open spec fn is_worked(self) -> bool {
        forall|i: int| 0 <= i < self.chain.len() ==> self.worked_at(i)
    }

    /// The invariant of a chain that was built by mining.
    pub open spec fn well_formed(self) -> bool {
        &&& self.is_linked()
        &&& self.is_sealed()
        &&& self.is_worked()
    }

    /// The chain of the first `n` blocks, at the same difficulty.
    pub open spec fn prefix(self, n: int) -> BlockchainView {
        BlockchainView { chain: self.chain.take(n), ..self }
    }

    /// The block at `i` is what mining left of a fresh block appended to the
    /// blocks before it.
    pub open spec fn grown_at(self, i: int) -> bool {
        self.prefix(i).is_mined_successor(self.chain[i])
    }

    /// The chain was built from nothing by mining one block after the other.
    pub open spec fn is_grown(self) -> bool {
        forall|i: int| 0 <= i < self.chain.len() ==> self.grown_at(i)
    }

    /// `block` is what mining leaves of a fresh block appended to this chain.
    pub open spec fn is_mined_successor(self, block: BlockView) -> bool {
        let seed = unmined_block(
            self.chain.len() as u64,
            block.timestamp,
            if self.chain.len() == 0 {
                genesis_previous_hash()
            } else {
                self.chain.last().hash
            },
        );
        &&& seed.search_stops_at(block.proof_of_work, self.difficulty as nat)
        &&& block == seed.mined_at(block.proof_of_work)
    }
}

impl Blockchain {
    /// A ledger without blocks, at difficulty zero.
    pub fn empty() -> (blockchain: Blockchain)
        ensures
            blockchain@.chain.len() == 0,
            blockchain@.difficulty == 0,
            blockchain@.is_grown(),
            blockchain@.well_formed(),
    {
        Blockchain { chain: Vec::new(), difficulty: 0 }
    }

    /// Whether the ledger holds no block.
    pub fn is_empty(&self) -> (empty: bool)
        ensures
            empty == (self@.chain.len() == 0),
    {
        self.chain.len() == 0
    }

    /// A chain of one block, the genesis block, mined at `difficulty`.
    pub fn new(difficulty: usize) -> (blockchain: Blockchain)
        ensures
            blockchain@.difficulty == difficulty,
            blockchain@.chain.len() == 1,
            (BlockchainView { chain: Seq::empty(), difficulty }).is_mined_successor(
                blockchain@.chain[0],
            ),
            blockchain@.is_grown(),
            blockchain@.well_formed(),
    {
        let genesis_block = Block::new(0, String::from_str("0"));
        proof {
            reveal_strlit("0");
            assert(genesis_block@.previous_hash =~= genesis_previous_hash());
        }
        let mut chain: Vec<Block> = Vec::new();
        chain.push(genesis_block);
        let mut blockchain = Blockchain { chain, difficulty };
        blockchain.mine_block(0);
        proof {
            assert(blockchain@.prefix(0).chain =~= Seq::empty());
            assert(blockchain@.grown_at(0));
            lemma_grown_chain_is_well_formed(blockchain@);
        }
        blockchain
    }

    /// Appends a fresh block that names the last block's hash, and mines it
    /// at the chain's own difficulty. The blocks already there stay.
    pub fn add_block(&mut self)
        requires
            old(self)@.chain.len() > 0,
        ensures
            final(self)@.difficulty == old(self)@.difficulty,
            final(self)@.chain.len() == old(self)@.chain.len() + 1,
            final(self)@.chain.drop_last() == old(self)@.chain,
            old(self)@.is_mined_successor(final(self)@.chain.last()),
            old(self)@.well_formed() ==> final(self)@.well_formed(),
            old(self)@.is_grown() ==> final(self)@.is_grown(),
    {
        let tip: usize = self.chain.len() - 1;
        let previous_hash = self.chain[tip].hash.clone();
        let index = self.chain.len() as u64;
        let mut new_block = Block::new(index, previous_hash);
        new_block.mine(self.difficulty);
        self.chain.push(new_block);
        proof {
            assert(final(self)@.chain.drop_last() =~= old(self)@.chain);
            assert(self@.chain =~= old(self)@.chain.push(self@.chain.last()));
            if old(self)@.well_formed() {
                lemma_successor_keeps_well_formed(old(self)@, self@.chain.last());
            }
            if old(self)@.is_grown() {
                lemma_successor_keeps_grown(old(self)@, self@.chain.last());
            }
        }
    }

    /// Mines the block at `index` at the chain's difficulty; without such a
    /// block nothing changes.
    pub fn mine_block(&mut self, index: u64)
        requires
            index < old(self)@.chain.len() ==> old(self)@.chain[index as int].proof_of_work
                < u64::MAX,
        ensures
            final(self)@.difficulty == old(self)@.difficulty,
            final(self)@.chain.len() == old(self)@.chain.len(),
            index >= old(self)@.chain.len() ==> final(self)@ == old(self)@,
            forall|i: int|
                0 <= i < old(self)@.chain.len() && i != index ==> final(self)@.chain[i] == old(
                    self,
                )@.chain[i],
            index < old(self)@.chain.len() ==> {
                let before = old(self)@.chain[index as int];
                let after = final(self)@.chain[index as int];
                &&& before.search_stops_at(after.proof_of_work, old(self)@.difficulty as nat)
                &&& after == before.mined_at(after.proof_of_work)
                &&& final(self)@.worked_at(index as int)
            },
    {
        if index < self.chain.len() as u64 {
            let difficulty = self.difficulty;
            let block = &mut self.chain[index as usize];
            block.mine(difficulty);
        }
        assert(index >= old(self)@.chain.len() ==> final(self)@.chain =~= old(self)@.chain);
    }

    /// The fork-choice rule: the first chain if it has strictly more blocks,
    /// the second otherwise.
    pub fn compare<'a>(chain1: &'a Blockchain, chain2: &'a Blockchain) -> (better: &'a Blockchain)
        ensures
            chain1@.chain.len() > chain2@.chain.len() ==> better == chain1,
            chain1@.chain.len() <= chain2@.chain.len() ==> better == chain2,
    {
        if chain1.chain.len() > chain2.chain.len() {
            return chain1;
        }
        chain2
    }
}

impl Clone for Blockchain {
    fn clone(&self) -> (copy: Blockchain)
        ensures
            copy@ == self@,
    {
        let mut chain: Vec<Block> = Vec::new();
        let mut i: usize = 0;
        while i < self.chain.len()
            invariant
                i <= self.chain.len(),
                chain@.len() == i,
                forall|j: int| 0 <= j < i ==> chain@[j]@ == self.chain@[j]@,
            decreases self.chain.len() - i,
        {
            chain.push(self.chain[i].clone());
            i += 1;
        }
        let copy = Blockchain { chain, difficulty: self.difficulty };
        assert(copy@.chain =~= self@.chain);
        copy
    }
}

/// In a linked chain every block but the first names the hash of the block
/// before it, and every block carries its own position.
pub proof fn lemma_linked_chain(blockchain: BlockchainView, i: int)
    requires
        blockchain.is_linked(),
        0 <= i < blockchain.chain.len(),
    ensures
        blockchain.chain[i].index == i,
        i > 0 ==> blockchain.chain[i].previous_hash == blockchain.chain[i - 1].hash,
        i == 0 ==> blockchain.chain[i].previous_hash == genesis_previous_hash(),
{
    assert(blockchain.links_at(i));
}

/// Appending a mined successor keeps a chain well formed.
pub proof fn lemma_successor_keeps_well_formed(blockchain: BlockchainView, block: BlockView)
    requires
        blockchain.well_formed(),
        blockchain.chain.len() <= u64::MAX,
        blockchain.is_mined_successor(block),
    ensures
        (BlockchainView { chain: blockchain.chain.push(block), ..blockchain }).well_formed(),
{
    let longer = BlockchainView { chain: blockchain.chain.push(block), ..blockchain };
    assert forall|i: int| 0 <= i < longer.chain.len() implies longer.links_at(i) by {
        if i < blockchain.chain.len() {
            assert(blockchain.links_at(i));
        }
    }
    assert forall|i: int| 0 <= i < longer.chain.len() implies (#[trigger] longer.chain[i]).is_sealed() by {
        if i < blockchain.chain.len() {
            assert(blockchain.chain[i].is_sealed());
        }
    }
    assert forall|i: int| 0 <= i < longer.chain.len() implies longer.worked_at(i) by {
        if i < blockchain.chain.len() {
            assert(blockchain.worked_at(i));
        }
    }
}

/// Appending a mined successor to a grown chain gives a grown chain.
pub proof fn lemma_successor_keeps_grown(blockchain: BlockchainView, block: BlockView)
    requires
        blockchain.is_grown(),
        blockchain.is_mined_successor(block),
    ensures
        (BlockchainView { chain: blockchain.chain.push(block), ..blockchain }).is_grown(),
{
    let longer = BlockchainView { chain: blockchain.chain.push(block), ..blockchain };
    assert forall|i: int| 0 <= i < longer.chain.len() implies longer.grown_at(i) by {
        if i < blockchain.chain.len() {
            assert(blockchain.grown_at(i));
            assert(longer.prefix(i).chain =~= blockchain.prefix(i).chain);
        } else {
            assert(longer.prefix(i).chain =~= blockchain.chain);
        }
    }
}

/// A chain that was grown by mining is well formed: every block carries its
/// own position, every block but the first names the hash of the block
/// before it, the first names `0`, and every hash is the hash of its block.
pub proof fn lemma_grown_chain_is_well_formed(blockchain: BlockchainView)
    requires
        blockchain.is_grown(),
        blockchain.chain.len() <= u64::MAX,
    ensures
        blockchain.well_formed(),
        forall|i: int|
            0 <= i < blockchain.chain.len() ==> (#[trigger] blockchain.chain[i]).index == i,
        forall|i: int|
            0 < i < blockchain.chain.len() ==> (#[trigger] blockchain.chain[i]).previous_hash
                == blockchain.chain[i - 1].hash,
{
    assert forall|i: int| 0 <= i < blockchain.chain.len() implies blockchain.links_at(i) by {
        assert(blockchain.grown_at(i));
        if i > 0 {
            assert(blockchain.prefix(i).chain.last() == blockchain.chain[i - 1]);
        }
    }
    assert forall|i: int| 0 <= i < blockchain.chain.len() implies (
    #[trigger] blockchain.chain[i]).is_sealed() by {
        assert(blockchain.grown_at(i));
    }
    assert forall|i: int| 0 <= i < blockchain.chain.len() implies blockchain.worked_at(i) by {
        assert(blockchain.grown_at(i));
    }
    assert forall|i: int| 0 <= i < blockchain.chain.len() implies (
    #[trigger] blockchain.chain[i]).index == i by {
        assert(blockchain.links_at(i));
    }
    assert forall|i: int| 0 < i < blockchain.chain.len() implies (
    #[trigger] blockchain.chain[i]).previous_hash == blockchain.chain[i - 1].hash by {
        assert(blockchain.links_at(i));
    }
}

/// The fork-choice rule never picks the shorter chain, and gives the second
/// chain on a tie.
pub proof fn lemma_longer_chain_wins(first: BlockchainView, second: BlockchainView)
    ensures
        fork_choice(first, second).chain.len() >= first.chain.len(),
        fork_choice(first, second).chain.len() >= second.chain.len(),
        first.chain.len() == second.chain.len() ==> fork_choice(first, second) == second,
{
}

/// The chain that the fork-choice rule picks of two.
pub open spec fn fork_choice(first: BlockchainView, second: BlockchainView) -> BlockchainView {
    if first.chain.len() > second.chain.len() {
        first
    } else {
        second
    }
}

} // verus!
