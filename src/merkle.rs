use vstd::prelude::*;

use crate::error::ChainError;
use crate::mailbox::{ChainDomain, ContractLocator};
use crate::sequence::SequenceQuery;

verus! {

/// Depth of the commitment tree.
pub const TREE_DEPTH: usize = 32;

/// The on-chain incremental merkle tree as the contract reports it: one branch
/// hash per level and the number of leaves inserted. It is only read here.
#[derive(Debug)]
pub struct CommitmentTree {
    pub branch: Vec<[u8; 32]>,
    pub count: u64,
}

impl CommitmentTree {
    pub open spec fn wf(&self) -> bool {
        self.branch@.len() == TREE_DEPTH
    }

    /// Takes the branch and count verbatim; the hashes are not checked against
    /// each other. A branch that is not one hash per level is malformed.
    pub fn from_parts(branch: Vec<[u8; 32]>, count: u64) -> (r: Result<CommitmentTree, ChainError>)
        ensures
            branch@.len() == TREE_DEPTH ==> (r matches Ok(t) && t.wf() && t.branch@ == branch@
                && t.count == count),
            branch@.len() != TREE_DEPTH ==> (r matches Err(e) && e == ChainError::ProtocolDecode),
    {
        if branch.len() != TREE_DEPTH {
            return Err(ChainError::ProtocolDecode);
        }
        Ok(CommitmentTree { branch, count })
    }
}

/// A signed-off state of the tree: its root at a leaf index.
#[derive(Debug, Clone, Copy, PartialEq, Eq)]
pub struct Checkpoint {
    pub merkle_tree_hook_address: [u8; 32],
    pub mailbox_domain: u32,
    pub root: [u8; 32],
    pub index: u32,
}

/// A merkle tree hook contract on one chain.
#[derive(Debug, Clone, Copy)]
pub struct EthereumMerkleTreeHook {
    pub address: [u8; 32],
    pub domain: ChainDomain,
}

impl EthereumMerkleTreeHook {
    pub fn new(locator: &ContractLocator) -> (r: Self)
        ensures
            r.address == locator.address,
            r.domain == locator.domain,
    {
        EthereumMerkleTreeHook { address: locator.address, domain: locator.domain }
    }

    /// The checkpoint for the root and index that the contract reported.
    pub fn checkpoint(&self, root: [u8; 32], index: u32) -> (r: Checkpoint)
        ensures
            r == (Checkpoint {
                merkle_tree_hook_address: self.address,
                mailbox_domain: self.domain.id,
                root,
                index,
            }),
    {
        Checkpoint {
            merkle_tree_hook_address: self.address,
            mailbox_domain: self.domain.id,
            root,
            index,
        }
    }
}

/// Reads the tree insertion events of a merkle tree hook. Blocks count as final
/// once `reorg_period` newer blocks exist.
#[derive(Debug, Clone, Copy)]
pub struct EthereumMerkleTreeHookIndexer {
    pub address: [u8; 32],
    pub reorg_period: u32,
}

impl EthereumMerkleTreeHookIndexer {
    pub fn new(locator: &ContractLocator, reorg_period: u32) -> (r: Self)
        ensures
            r.address == locator.address,
            r.reorg_period == reorg_period,
    {
        EthereumMerkleTreeHookIndexer { address: locator.address, reorg_period }
    }

    /// Insertions are sequenced by the tree's leaf count.
    pub fn sequence_query(&self) -> (r: SequenceQuery)
        ensures
            r == (SequenceQuery { has_counter: true, tip: None }),
    {
        SequenceQuery::new(true)
    }

    /// The finalized height given the latest block: `latest - reorg_period`. A
    /// chain shorter than the reorg period has no final block yet; a height past
    /// 32 bits is malformed.
    pub fn finalized_block_number(&self, latest: u64) -> (r: Result<u32, ChainError>)
        ensures
            latest < self.reorg_period ==> r == Err::<u32, ChainError>(ChainError::FinalityUnknown),
            latest >= self.reorg_period && latest - self.reorg_period <= u32::MAX ==> r == Ok::<
                u32,
                ChainError,
            >((latest - self.reorg_period) as u32),
            latest >= self.reorg_period && latest - self.reorg_period > u32::MAX ==> r == Err::<
                u32,
                ChainError,
            >(ChainError::ProtocolDecode),
    {
        if latest < self.reorg_period as u64 {
            return Err(ChainError::FinalityUnknown);
        }
        let h = latest - self.reorg_period as u64;
        if h <= u32::MAX as u64 {
            Ok(h as u32)
        } else {
            Err(ChainError::ProtocolDecode)
        }
    }
}

} // verus!
