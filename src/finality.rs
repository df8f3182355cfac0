use vstd::prelude::*;

use crate::error::ChainError;

verus! {

/// Turns the ledger's answer for its latest finalized block into a block height.
///
/// `reported` is the outcome of the read: a transport failure, no finalized block
/// at all (a node still syncing), or a height. Heights are 32-bit in this adapter;
/// a larger one is a malformed answer.
pub fn finalized_block_number(reported: Result<Option<u64>, ChainError>) -> (r: Result<
    u32,
    ChainError,
>)
    ensures
        reported matches Err(e) ==> r == Err::<u32, ChainError>(e),
        reported matches Ok(None) ==> r == Err::<u32, ChainError>(ChainError::FinalityUnknown),
        reported matches Ok(Some(n)) ==> (n <= u32::MAX ==> r == Ok::<u32, ChainError>(n as u32)),
        reported matches Ok(Some(n)) ==> (n > u32::MAX ==> r == Err::<u32, ChainError>(
            ChainError::ProtocolDecode,
        )),
{
    match reported {
        Err(e) => Err(e),
        Ok(None) => Err(ChainError::FinalityUnknown),
        Ok(Some(n)) => {
            if n <= u32::MAX as u64 {
                Ok(n as u32)
            } else {
                Err(ChainError::ProtocolDecode)
            }
        },
    }
}

/// The height at which a lagged read is made: `tip - lag`, or `tip` without a lag.
/// A lag that reaches below the first block is refused.
pub fn lagged_block_number(tip: u64, maybe_lag: Option<u64>) -> (r: Result<u64, ChainError>)
    ensures
        maybe_lag is None ==> r == Ok::<u64, ChainError>(tip),
        maybe_lag matches Some(lag) ==> (lag <= tip ==> r == Ok::<u64, ChainError>(
            (tip - lag) as u64,
        )),
        maybe_lag matches Some(lag) ==> (lag > tip ==> r == Err::<u64, ChainError>(
            ChainError::LagExceedsHistory,
        )),
{
    match maybe_lag {
        None => Ok(tip),
        Some(lag) => {
            if lag <= tip {
                Ok(tip - lag)
            } else {
                Err(ChainError::LagExceedsHistory)
            }
        },
    }
}

/// What the ledger reported for a transaction once it was included.
#[derive(Debug, Clone, Copy, PartialEq, Eq)]
pub struct TxReceipt {
    pub transaction_hash: [u8; 32],
    pub block_number: Option<u64>,
    pub gas_used: u128,
    pub executed: bool,
}

/// A transaction whose inclusion block is final.
#[derive(Debug, Clone, Copy, PartialEq, Eq)]
pub struct TxOutcome {
    pub transaction_hash: [u8; 32],
    pub block_number: u64,
    pub gas_used: u128,
    pub executed: bool,
}

/// The retry budget of a finality wait: at most `max_attempts` reads of the
/// finalized height, waiting `initial_delay_ms` after the first one and twice as
/// long after each further one, never longer than `max_delay_ms`.
#[derive(Debug, Clone, Copy, PartialEq, Eq, Structural)]
pub struct FinalityPolicy {
    pub max_attempts: u32,
    pub initial_delay_ms: u64,
    pub max_delay_ms: u64,
}

/// What to do after one read of the finalized height.
#[derive(Debug, Clone, Copy, PartialEq, Eq)]
pub enum FinalityStep {
    /// The inclusion block is final: the transaction's outcome.
    Confirmed(TxOutcome),
    /// Not final yet: read again after this many milliseconds.
    RetryAfter(u64),
    /// The budget is spent without the block becoming final.
    TimedOut,
}

/// The wait for a submitted transaction's inclusion block to become final.
pub struct FinalityWait {
    pub receipt: TxReceipt,
    pub block_number: u64,
    pub policy: FinalityPolicy,
    pub attempts: u32,
    pub next_delay_ms: u64,
}

/// The outcome that a receipt included at `block_number` gives.
pub open spec fn outcome_of(receipt: TxReceipt, block_number: u64) -> TxOutcome {
    TxOutcome {
        transaction_hash: receipt.transaction_hash,
        block_number,
        gas_used: receipt.gas_used,
        executed: receipt.executed,
    }
}

impl FinalityWait {
    pub open spec fn wf(&self) -> bool {
        &&& self.receipt.block_number == Some(self.block_number)
        &&& self.attempts <= self.policy.max_attempts
    }

    /// Starts the wait for the block that a receipt names. A receipt without a
    /// block was not included, which is a failed submission.
    pub fn start(receipt: TxReceipt, policy: FinalityPolicy) -> (r: Result<FinalityWait, ChainError>)
        ensures
            receipt.block_number is None ==> r == Err::<FinalityWait, ChainError>(
                ChainError::Submission,
            ),
            receipt.block_number matches Some(b) ==> (r matches Ok(w) && w.wf() && w.receipt
                == receipt && w.block_number == b && w.policy == policy && w.attempts == 0
                && w.next_delay_ms == policy.initial_delay_ms),
    {
        match receipt.block_number {
            None => Err(ChainError::Submission),
            Some(block_number) => Ok(
                FinalityWait {
                    receipt,
                    block_number,
                    policy,
                    attempts: 0,
                    next_delay_ms: policy.initial_delay_ms,
                },
            ),
        }
    }

    /// Takes one answer of the finality oracle (see `finalized_block_number`).
    ///
    /// The outcome is confirmed only when the reported finalized height has
    /// reached the inclusion block; a transport failure or a lower height uses up
    /// one attempt. Once the attempts are spent the wait has timed out.
    pub fn on_report(&mut self, finalized: Result<u32, ChainError>) -> (step: FinalityStep)
        requires
            old(self).wf(),
        ensures
            final(self).wf(),
            final(self).receipt == old(self).receipt,
            final(self).block_number == old(self).block_number,
            final(self).policy == old(self).policy,
            step matches FinalityStep::Confirmed(o) ==> (finalized matches Ok(f) && f
                >= o.block_number && o == outcome_of(old(self).receipt, old(self).block_number)),
            (finalized matches Ok(f) && f >= old(self).block_number) ==> (step
                == FinalityStep::Confirmed(outcome_of(old(self).receipt, old(self).block_number))
                && final(self).attempts == old(self).attempts),
            !(finalized matches Ok(f) && f >= old(self).block_number) ==> {
                &&& old(self).attempts < old(self).policy.max_attempts ==> final(self).attempts
                    == old(self).attempts + 1
                &&& old(self).attempts >= old(self).policy.max_attempts ==> final(self).attempts
                    == old(self).attempts
                &&& final(self).attempts >= old(self).policy.max_attempts ==> step
                    == FinalityStep::TimedOut
                &&& final(self).attempts < old(self).policy.max_attempts ==> {
                    &&& step == FinalityStep::RetryAfter(
                        min_u64(old(self).next_delay_ms, old(self).policy.max_delay_ms),
                    )
                    &&& final(self).next_delay_ms == min_u64(
                        double_saturating(
                            min_u64(old(self).next_delay_ms, old(self).policy.max_delay_ms),
                        ),
                        old(self).policy.max_delay_ms,
                    )
                }
            },
    {
        let reached = match finalized {
            Ok(f) => f as u64 >= self.block_number,
            Err(_) => false,
        };
        if reached {
            return FinalityStep::Confirmed(
                TxOutcome {
                    transaction_hash: self.receipt.transaction_hash,
                    block_number: self.block_number,
                    gas_used: self.receipt.gas_used,
                    executed: self.receipt.executed,
                },
            );
        }
        if self.attempts < self.policy.max_attempts {
            self.attempts = self.attempts + 1;
        }
        if self.attempts >= self.policy.max_attempts {
            return FinalityStep::TimedOut;
        }
        let delay = if self.next_delay_ms < self.policy.max_delay_ms {
            self.next_delay_ms
        } else {
            self.policy.max_delay_ms
        };
        let doubled: u64 = if delay <= u64::MAX / 2 {
            delay * 2
        } else {
            u64::MAX
        };
        self.next_delay_ms = if doubled < self.policy.max_delay_ms {
            doubled
        } else {
            self.policy.max_delay_ms
        };
        FinalityStep::RetryAfter(delay)
    }
}

pub open spec fn double_saturating(x: u64) -> u64 {
    if 2 * x > u64::MAX {
        u64::MAX
    } else {
        (2 * x) as u64
    }
}

pub open spec fn min_u64(a: u64, b: u64) -> u64 {
    if a < b {
        a
    } else {
        b
    }
}

} // verus!
