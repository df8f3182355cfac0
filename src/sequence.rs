use vstd::prelude::*;

use crate::error::ChainError;

verus! {

/// How far an index reaches: the number of sequenced items known at `tip`, if the
/// event kind has a sequence counter, and the finalized block `tip` itself.
/// Without a counter, callers order by log position, never by count.
#[derive(Debug, Clone, Copy, PartialEq, Eq, Structural)]
pub struct SequencePosition {
    pub known_count: Option<u32>,
    pub tip: u32,
}

/// What a sequence query needs next.
#[derive(Debug, Clone, Copy, PartialEq, Eq, Structural)]
pub enum SequenceStep {
    /// Read the contract's counter as of this block.
    ReadCounterAt(u32),
    /// The answer.
    Done(SequencePosition),
    /// A read failed; the failure is passed on.
    Failed(ChainError),
}

/// A query for the latest sequence count and tip: first the finalized tip, then,
/// for event kinds with a counter (dispatches, tree insertions), the counter as of
/// that same block.
#[derive(Debug, Clone, Copy, PartialEq, Eq, Structural)]
pub struct SequenceQuery {
    pub has_counter: bool,
    pub tip: Option<u32>,
}

/// The query once the finality oracle has answered.
pub open spec fn query_after_tip(q: SequenceQuery, finalized: Result<u32, ChainError>) -> SequenceQuery {
    match finalized {
        Ok(t) => SequenceQuery { has_counter: q.has_counter, tip: Some(t) },
        Err(_) => q,
    }
}

/// The step after the finality oracle's answer.
pub open spec fn tip_step(q: SequenceQuery, finalized: Result<u32, ChainError>) -> SequenceStep {
    match finalized {
        Err(e) => SequenceStep::Failed(e),
        Ok(t) => if q.has_counter {
            SequenceStep::ReadCounterAt(t)
        } else {
            SequenceStep::Done(SequencePosition { known_count: None, tip: t })
        },
    }
}

/// The step after the counter was read at the query's tip.
pub open spec fn counter_step(q: SequenceQuery, counter: Result<u32, ChainError>) -> SequenceStep {
    match counter {
        Err(e) => SequenceStep::Failed(e),
        Ok(c) => SequenceStep::Done(SequencePosition { known_count: Some(c), tip: q.tip.unwrap() }),
    }
}

impl SequenceQuery {
    pub fn new(has_counter: bool) -> (r: SequenceQuery)
        ensures
            r == (SequenceQuery { has_counter, tip: None }),
    {
        SequenceQuery { has_counter, tip: None }
    }

    /// Takes the finalized tip (see `finalized_block_number`).
    pub fn on_tip(&mut self, finalized: Result<u32, ChainError>) -> (step: SequenceStep)
        ensures
            *final(self) == query_after_tip(*old(self), finalized),
            step == tip_step(*old(self), finalized),
    {
        match finalized {
            Err(e) => SequenceStep::Failed(e),
            Ok(t) => {
                self.tip = Some(t);
                if self.has_counter {
                    SequenceStep::ReadCounterAt(t)
                } else {
                    SequenceStep::Done(SequencePosition { known_count: None, tip: t })
                }
            },
        }
    }

    /// Takes the counter read at the block that `on_tip` asked for.
    pub fn on_counter(&self, counter: Result<u32, ChainError>) -> (step: SequenceStep)
        requires
            self.tip is Some,
        ensures
            step == counter_step(*self, counter),
    {
        match counter {
            Err(e) => SequenceStep::Failed(e),
            Ok(c) => SequenceStep::Done(
                SequencePosition { known_count: Some(c), tip: self.tip.unwrap() },
            ),
        }
    }
}

/// No skew between count and tip: the counter is read at exactly the block that
/// the answer reports as its tip, and the same counter value read at the same tip
/// gives the same answer. Kinds without a counter report no count.
pub proof fn lemma_count_read_at_tip(has_counter: bool, tip: u32, counter: u32, again: u32)
    requires
        counter == again,
    ensures
        ({
            let q = query_after_tip(SequenceQuery { has_counter, tip: None }, Ok(tip));
            &&& has_counter ==> tip_step(SequenceQuery { has_counter, tip: None }, Ok(tip))
                == SequenceStep::ReadCounterAt(tip)
            &&& has_counter ==> counter_step(q, Ok(counter)) == SequenceStep::Done(
                SequencePosition { known_count: Some(counter), tip },
            )
            &&& counter_step(q, Ok(counter)) == counter_step(q, Ok(again))
            &&& !has_counter ==> tip_step(SequenceQuery { has_counter, tip: None }, Ok(tip))
                == SequenceStep::Done(SequencePosition { known_count: None, tip })
        }),
{
}

/// Pause between two attempts of a read that is retried until it succeeds.
pub const RETRY_DELAY_MS: u64 = 5000;

/// What to do after one attempt of a read that is retried until it succeeds.
pub enum RetryStep<T> {
    Done(T),
    RetryAfter(u64),
}

/// Retry policy of reads by transaction: a failure is never surfaced, the read is
/// made again after `RETRY_DELAY_MS`; a success ends the loop with its value.
pub fn retry_indefinitely_step<T>(attempt: Result<T, ChainError>) -> (step: RetryStep<T>)
    ensures
        attempt matches Ok(v) ==> (step matches RetryStep::Done(w) && w == v),
        attempt is Err ==> (step matches RetryStep::RetryAfter(d) && d == RETRY_DELAY_MS),
{
    match attempt {
        Ok(v) => RetryStep::Done(v),
        Err(_) => RetryStep::RetryAfter(RETRY_DELAY_MS),
    }
}

} // verus!
