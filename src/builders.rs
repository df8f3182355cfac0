use vstd::prelude::*;

use crate::batch::TransactionOverrides;
use crate::indexer::EthereumMailboxIndexer;
use crate::mailbox::{ContractLocator, EthereumMailbox};
use crate::merkle::{EthereumMerkleTreeHook, EthereumMerkleTreeHookIndexer};

verus! {

/// What a connection must be able to do for a built handle.
#[derive(Debug, Clone, Copy, PartialEq, Eq, Structural)]
pub enum Capability {
    ReadOnly,
    Signing,
}

/// Builds the indexer of dispatched messages.
pub struct SequenceIndexerBuilder {}

impl SequenceIndexerBuilder {
    pub fn capability(&self) -> (r: Capability)
        ensures
            r == Capability::ReadOnly,
    {
        Capability::ReadOnly
    }

    pub fn build(&self, locator: &ContractLocator) -> (r: EthereumMailboxIndexer)
        ensures
            r.address == locator.address,
    {
        EthereumMailboxIndexer::new(locator)
    }
}

/// Builds the indexer of delivered message ids.
pub struct DeliveryIndexerBuilder {}

impl DeliveryIndexerBuilder {
    pub fn capability(&self) -> (r: Capability)
        ensures
            r == Capability::ReadOnly,
    {
        Capability::ReadOnly
    }

    pub fn build(&self, locator: &ContractLocator) -> (r: EthereumMailboxIndexer)
        ensures
            r.address == locator.address,
    {
        EthereumMailboxIndexer::new(locator)
    }
}

/// Builds a mailbox handle, which sends transactions and so needs a signer.
pub struct MailboxBuilder {}

impl MailboxBuilder {
    pub fn capability(&self) -> (r: Capability)
        ensures
            r == Capability::Signing,
    {
        Capability::Signing
    }

    pub fn build(&self, locator: &ContractLocator, transaction_overrides: TransactionOverrides) -> (r:
        EthereumMailbox)
        ensures
            r.address == locator.address,
            r.domain == locator.domain,
            r.transaction_overrides == transaction_overrides,
            r.arbitrum_node_interface is Some <==> locator.domain.is_arbitrum_nitro,
    {
        EthereumMailbox::new(locator, transaction_overrides)
    }
}

/// Builds a merkle tree hook handle.
pub struct MerkleTreeHookBuilder {}

impl MerkleTreeHookBuilder {
    pub fn capability(&self) -> (r: Capability)
        ensures
            r == Capability::ReadOnly,
    {
        Capability::ReadOnly
    }

    pub fn build(&self, locator: &ContractLocator) -> (r: EthereumMerkleTreeHook)
        ensures
            r.address == locator.address,
            r.domain == locator.domain,
    {
        EthereumMerkleTreeHook::new(locator)
    }
}

/// Builds the indexer of tree insertions.
pub struct MerkleTreeHookIndexerBuilder {
    pub reorg_period: u32,
}

impl MerkleTreeHookIndexerBuilder {
    pub fn capability(&self) -> (r: Capability)
        ensures
            r == Capability::ReadOnly,
    {
        Capability::ReadOnly
    }

    pub fn build(&self, locator: &ContractLocator) -> (r: EthereumMerkleTreeHookIndexer)
        ensures
            r.address == locator.address,
            r.reorg_period == self.reorg_period,
    {
        EthereumMerkleTreeHookIndexer::new(locator, self.reorg_period)
    }
}

/// The mailbox's ABI as far as callers need it: calldata starts with a selector
/// of this many bytes.
pub struct EthereumMailboxAbi;

impl EthereumMailboxAbi {
    pub const SELECTOR_SIZE_BYTES: usize = 4;
}

} // verus!
