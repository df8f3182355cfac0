use vstd::prelude::*;

use crate::error::ChainError;
use crate::finality::TxOutcome;

verus! {

/// Gas settings that the operator fixed for every transaction.
#[derive(Debug, Clone, Copy, PartialEq, Eq, Structural)]
pub struct TransactionOverrides {
    /// A fixed gas price, in wei.
    pub gas_price: Option<u128>,
    /// A fixed gas limit.
    pub gas_limit: Option<u64>,
    /// A multiplier for the network's gas price, in percent.
    pub gas_price_multiplier_percent: Option<u64>,
}

/// How many of the simulated calls succeeded.
pub open spec fn count_successes(flags: Seq<bool>) -> nat
    decreases flags.len(),
{
    if flags.len() == 0 {
        0
    } else {
        count_successes(flags.drop_last()) + if flags.last() {
            1nat
        } else {
            0nat
        }
    }
}

/// The positions of the failed calls, in ascending order.
pub open spec fn failed_indices(flags: Seq<bool>) -> Seq<usize>
    decreases flags.len(),
{
    if flags.len() == 0 {
        seq![]
    } else if flags.last() {
        failed_indices(flags.drop_last())
    } else {
        failed_indices(flags.drop_last()).push((flags.len() - 1) as usize)
    }
}

/// The calls whose flag is set, in the order in which they were given.
pub open spec fn kept_calls<C>(calls: Seq<C>, flags: Seq<bool>) -> Seq<C>
    decreases calls.len(),
{
    if calls.len() == 0 || flags.len() == 0 {
        seq![]
    } else if flags.last() {
        kept_calls(calls.drop_last(), flags.drop_last()).push(calls.last())
    } else {
        kept_calls(calls.drop_last(), flags.drop_last())
    }
}

/// Every position `0, 1, ..., n - 1`.
pub open spec fn all_indices(n: nat) -> Seq<usize> {
    Seq::new(n, |i: int| i as usize)
}

/// One aggregated call, ready to be sent, made of the calls that passed simulation.
pub struct SubmittableBatch<C> {
    pub call: Vec<C>,
    pub transaction_overrides: TransactionOverrides,
}

/// The outcome of simulating a batch: the aggregate to submit, if any, and the
/// positions of the operations that are left out of it.
pub struct BatchSimulation<C> {
    pub call: Option<SubmittableBatch<C>>,
    /// Positions of excluded calls in the batch (because they either failed the
    /// simulation or they were the only successful call).
    pub excluded_call_indexes: Vec<usize>,
}

impl<C> BatchSimulation<C> {
    pub fn new(call: Option<SubmittableBatch<C>>, excluded_call_indexes: Vec<usize>) -> (r: Self)
        ensures
            r.call == call,
            r.excluded_call_indexes == excluded_call_indexes,
    {
        BatchSimulation { call, excluded_call_indexes }
    }

    /// A batch that forms no aggregate: every one of its operations is excluded.
    pub fn failed(ops_count: usize) -> (r: Self)
        ensures
            r.call.is_none(),
            r.excluded_call_indexes@ == all_indices(ops_count as nat),
    {
        BatchSimulation { call: None, excluded_call_indexes: index_list(ops_count) }
    }
}

/// The positions `0, 1, ..., n - 1`.
fn index_list(n: usize) -> (r: Vec<usize>)
    ensures
        r@ == all_indices(n as nat),
{
    let mut indexes: Vec<usize> = Vec::new();
    let mut i: usize = 0;
    while i < n
        invariant
            i <= n,
            indexes@ == all_indices(i as nat),
        decreases n - i,
    {
        indexes.push(i);
        i = i + 1;
        assert(indexes@ =~= all_indices(i as nat));
    }
    indexes
}

/// What a batch delivery reports to its caller: the aggregate's outcome, if one
/// was submitted, and the positions of the operations that were not in it.
#[derive(Debug)]
pub struct BatchResult {
    pub outcome: Option<TxOutcome>,
    pub failed_indexes: Vec<usize>,
}

impl BatchResult {
    pub fn new(outcome: Option<TxOutcome>, failed_indexes: Vec<usize>) -> (r: Self)
        ensures
            r.outcome == outcome,
            r.failed_indexes == failed_indexes,
    {
        BatchResult { outcome, failed_indexes }
    }

    /// No aggregate was submitted: all `ops_count` operations failed.
    pub fn failed(ops_count: usize) -> (r: Self)
        ensures
            r.outcome is None,
            r.failed_indexes@ == all_indices(ops_count as nat),
    {
        BatchResult { outcome: None, failed_indexes: index_list(ops_count) }
    }

    /// The result once the plan was carried out: `outcome` is the finalized
    /// outcome of the aggregate when the plan had one, `None` when it had none.
    /// Without an aggregate, every operation of the batch counts as failed.
    pub fn from_submission(outcome: Option<TxOutcome>, excluded_call_indexes: Vec<usize>) -> (r: Self)
        ensures
            outcome is Some ==> r.outcome == outcome && r.failed_indexes
                == excluded_call_indexes,
            outcome is None ==> r.outcome is None && r.failed_indexes@ == all_indices(
                excluded_call_indexes@.len(),
            ),
    {
        match outcome {
            Some(o) => BatchResult::new(Some(o), excluded_call_indexes),
            None => BatchResult::failed(excluded_call_indexes.len()),
        }
    }
}

/// Batch sizes: with `k` successes among `n` calls, the aggregate, when formed,
/// holds exactly `k` calls and `n - k` positions are excluded; without one,
/// all `n` positions are excluded.
pub proof fn lemma_batch_sizes<C>(calls: Seq<C>, flags: Seq<bool>, sim: BatchSimulation<C>)
    requires
        calls.len() == flags.len(),
        is_plan_for(sim, calls, flags),
    ensures
        count_successes(flags) >= 2 ==> (sim.call matches Some(b) && b.call@.len()
            == count_successes(flags) && sim.excluded_call_indexes@.len() == calls.len()
            - count_successes(flags)),
        count_successes(flags) < 2 ==> (sim.call is None && sim.excluded_call_indexes@.len()
            == calls.len()),
{
    lemma_partition_lengths(calls, flags);
}

/// Simulating the same calls twice, with the same per-call outcomes, gives the
/// same plan: the same excluded positions and the same aggregated calls.
pub proof fn lemma_simulation_repeatable<C>(
    calls: Seq<C>,
    flags: Seq<bool>,
    first: BatchSimulation<C>,
    second: BatchSimulation<C>,
)
    requires
        is_plan_for(first, calls, flags),
        is_plan_for(second, calls, flags),
    ensures
        first.excluded_call_indexes@ == second.excluded_call_indexes@,
        first.call is Some <==> second.call is Some,
        first.call matches Some(a) ==> (second.call matches Some(b) && a.call@ == b.call@),
{
}

proof fn lemma_partition_lengths<C>(calls: Seq<C>, flags: Seq<bool>)
    requires
        calls.len() == flags.len(),
    ensures
        kept_calls(calls, flags).len() == count_successes(flags),
        failed_indices(flags).len() + count_successes(flags) == flags.len(),
    decreases flags.len(),
{
    if flags.len() > 0 {
        lemma_partition_lengths(calls.drop_last(), flags.drop_last());
    }
}

/// `sim` is the plan that simulation must give for `calls` with per-call outcomes `flags`.
pub open spec fn is_plan_for<C>(sim: BatchSimulation<C>, calls: Seq<C>, flags: Seq<bool>) -> bool {
    &&& count_successes(flags) >= 2 ==> {
        &&& sim.call matches Some(b)
        &&& b.call@ == kept_calls(calls, flags)
        &&& sim.excluded_call_indexes@ == failed_indices(flags)
    }
    &&& count_successes(flags) < 2 ==> {
        &&& sim.call is None
        &&& sim.excluded_call_indexes@ == all_indices(calls.len())
    }
}

/// Decides, from the per-call success flags of a simulation, what to submit.
///
/// With at least two successes the aggregate holds exactly the successful calls,
/// in the order in which they were given, and the failed positions are excluded. With fewer,
/// no aggregate is formed and every position is excluded. A reply whose number
/// of flags differs from the number of calls is malformed.
pub fn simulate_batch<C>(
    contract_calls: Vec<C>,
    call_results: &Vec<bool>,
    transaction_overrides: TransactionOverrides,
) -> (r: Result<BatchSimulation<C>, ChainError>)
    ensures
        contract_calls@.len() != call_results@.len() ==> r == Err::<BatchSimulation<C>, ChainError>(
            ChainError::ProtocolDecode,
        ),
        contract_calls@.len() == call_results@.len() ==> r is Ok,
        r matches Ok(sim) ==> {
            &&& is_plan_for(sim, contract_calls@, call_results@)
            &&& sim.call matches Some(b) ==> b.transaction_overrides == transaction_overrides
        },
{
    let call_count = contract_calls.len();
    if call_count != call_results.len() {
        return Err(ChainError::ProtocolDecode);
    }
    let ghost orig = contract_calls@;
    let mut rest = contract_calls;
    let mut kept: Vec<C> = Vec::new();
    let mut failed_calls: Vec<usize> = Vec::new();
    let mut successes: usize = 0;
    let mut i: usize = 0;
    while i < call_count
        invariant
            call_count == orig.len(),
            call_count == call_results@.len(),
            i <= call_count,
            rest@ == orig.subrange(i as int, call_count as int),
            kept@ == kept_calls(orig.subrange(0, i as int), call_results@.subrange(0, i as int)),
            failed_calls@ == failed_indices(call_results@.subrange(0, i as int)),
            successes == count_successes(call_results@.subrange(0, i as int)),
            successes <= i,
        decreases call_count - i,
    {
        let ghost calls_before = orig.subrange(0, i as int);
        let ghost flags_before = call_results@.subrange(0, i as int);
        let call = rest.remove(0);
        if call_results[i] {
            kept.push(call);
            successes = successes + 1;
        } else {
            failed_calls.push(i);
        }
        i = i + 1;
        proof {
            let calls_now = orig.subrange(0, i as int);
            let flags_now = call_results@.subrange(0, i as int);
            assert(calls_now.drop_last() =~= calls_before);
            assert(flags_now.drop_last() =~= flags_before);
            assert(rest@ =~= orig.subrange(i as int, call_count as int));
        }
    }
    proof {
        assert(orig.subrange(0, call_count as int) =~= orig);
        assert(call_results@.subrange(0, call_count as int) =~= call_results@);
    }
    // only send a batch if there are at least two successful calls
    if successes >= 2 {
        let batch = SubmittableBatch { call: kept, transaction_overrides };
        Ok(BatchSimulation::new(Some(batch), failed_calls))
    } else {
        Ok(BatchSimulation::failed(call_count))
    }
}

} // verus!
