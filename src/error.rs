use vstd::prelude::*;

verus! {

/// What can go wrong while talking to the ledger through this adapter.
#[derive(Debug, Clone, Copy, PartialEq, Eq, Structural)]
pub enum ChainError {
    /// The RPC transport failed; usually worth a retry by the caller.
    Transport,
    /// A log or a reply did not have the expected shape.
    ProtocolDecode,
    /// The ledger reported no finalized block at all.
    FinalityUnknown,
    /// The inclusion block did not become final within the retry budget.
    FinalityTimeout,
    /// Gas price or gas limit could not be resolved.
    GasFill,
    /// A call that must carry a gas limit carries none.
    GasLimitUnavailable,
    /// A lag reaches below the first block of the chain.
    LagExceedsHistory,
    /// A block range whose start lies after its end.
    EmptyRange,
    /// The ledger did not accept the transaction.
    Submission,
    /// A message with its metadata is too large to encode as one call.
    PayloadTooLarge,
}

} // verus!
