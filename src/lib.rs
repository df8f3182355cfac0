//! Chain adapter core for a mailbox contract and its merkle tree hook:
//! ordering of indexed events, batch simulation and submission decisions,
//! finality waits and gas cost estimation, all over plain values.

mod error;
mod batch;
mod finality;
mod indexer;
mod sequence;
mod mailbox;
mod merkle;
mod builders;

pub use error::ChainError;
pub use batch::{
    all_indices, count_successes, failed_indices, is_plan_for, kept_calls, lemma_batch_sizes,
    lemma_simulation_repeatable, simulate_batch, BatchResult, BatchSimulation, SubmittableBatch,
    TransactionOverrides,
};

pub use finality::{
    finalized_block_number, lagged_block_number, outcome_of, double_saturating, min_u64,
    FinalityPolicy, FinalityStep, FinalityWait, TxOutcome, TxReceipt,
};

pub use indexer::{
    MESSAGE_HEADER_LEN, LogMeta, DispatchedMessage, message_nonce, decodes_to, all_well_formed,
    raw_view, decoded_view, decodes_in_order, sorted_by_nonce, is_dispatch_order_of,
    decode_dispatch, decode_dispatches, check_range, decoded_views, raw_views, nonces_consistent,
    dispatches_in_range, with_nonce, EthereumMailboxIndexer, blocks_within, lemma_dispatches_stay_in_range,
};

pub use sequence::{
    SequencePosition, SequenceStep, SequenceQuery, query_after_tip, tip_step, counter_step,
    lemma_count_read_at_tip, RETRY_DELAY_MS, RetryStep, retry_indefinitely_step,
};

pub use mailbox::{
    GAS_ESTIMATE_BUFFER, PROCESS_SIGNATURE, ChainDomain, ContractLocator, TxCostEstimate,
    node_interface_spec, node_interface_address, fill_gas_limit, gas_limit_spec, fill_gas_price,
    abi_word, padded_len, zero_padded, abi_bytes_pair, selector_of, MAX_ENCODED_PAYLOAD,
    EthereumMailbox,
};

pub use merkle::{
    TREE_DEPTH, CommitmentTree, Checkpoint, EthereumMerkleTreeHook, EthereumMerkleTreeHookIndexer,
};

pub use builders::{
    Capability, SequenceIndexerBuilder, DeliveryIndexerBuilder, MailboxBuilder,
    MerkleTreeHookBuilder, MerkleTreeHookIndexerBuilder, EthereumMailboxAbi,
};
