use atleta_adapter::{simulate_batch, BatchResult, BatchSimulation, ChainError, TransactionOverrides, TxOutcome};

fn no_overrides() -> TransactionOverrides {
    TransactionOverrides { gas_price: None, gas_limit: None, gas_price_multiplier_percent: None }
}

#[test]
fn three_operations_one_failing_form_an_aggregate_of_two() {
    let sim = simulate_batch(vec!["a", "b", "c"], &vec![true, false, true], no_overrides()).unwrap();
    let batch = sim.call.expect("an aggregate");
    assert_eq!(batch.call, vec!["a", "c"]);
    assert_eq!(sim.excluded_call_indexes, vec![1]);
}

#[test]
fn single_successful_operation_forms_no_aggregate() {
    let sim = simulate_batch(vec![7u32], &vec![true], no_overrides()).unwrap();
    assert!(sim.call.is_none());
    assert_eq!(sim.excluded_call_indexes, vec![0]);
}

#[test]
fn sizes_follow_the_number_of_successes() {
    let flags = vec![false, true, true, false, true];
    let sim = simulate_batch(vec![10, 11, 12, 13, 14], &flags, no_overrides()).unwrap();
    let batch = sim.call.unwrap();
    assert_eq!(batch.call.len(), 3);
    assert_eq!(batch.call, vec![11, 12, 14]);
    assert_eq!(sim.excluded_call_indexes, vec![0, 3]);

    let none = simulate_batch(vec![1, 2, 3, 4], &vec![false, false, false, false], no_overrides()).unwrap();
    assert!(none.call.is_none());
    assert_eq!(none.excluded_call_indexes, vec![0, 1, 2, 3]);

    let one = simulate_batch(vec![1, 2, 3], &vec![false, true, false], no_overrides()).unwrap();
    assert!(one.call.is_none());
    assert_eq!(one.excluded_call_indexes, vec![0, 1, 2]);
}

#[test]
fn all_successful_calls_exclude_nothing() {
    let sim = simulate_batch(vec![1, 2], &vec![true, true], no_overrides()).unwrap();
    assert_eq!(sim.call.unwrap().call, vec![1, 2]);
    assert!(sim.excluded_call_indexes.is_empty());
}

#[test]
fn empty_batch_forms_no_aggregate() {
    let sim = simulate_batch(Vec::<u8>::new(), &vec![], no_overrides()).unwrap();
    assert!(sim.call.is_none());
    assert!(sim.excluded_call_indexes.is_empty());
}

#[test]
fn simulating_twice_gives_the_same_plan() {
    let flags = vec![true, false, true, true];
    let first = simulate_batch(vec![1, 2, 3, 4], &flags, no_overrides()).unwrap();
    let second = simulate_batch(vec![1, 2, 3, 4], &flags, no_overrides()).unwrap();
    assert_eq!(first.excluded_call_indexes, second.excluded_call_indexes);
    assert_eq!(first.call.unwrap().call, second.call.unwrap().call);
}

#[test]
fn aggregate_carries_the_overrides() {
    let overrides = TransactionOverrides { gas_price: Some(5), gas_limit: Some(9), gas_price_multiplier_percent: None };
    let sim = simulate_batch(vec![1, 2], &vec![true, true], overrides).unwrap();
    assert_eq!(sim.call.unwrap().transaction_overrides, overrides);
}

#[test]
fn mismatched_reply_is_malformed() {
    let r = simulate_batch(vec![1, 2, 3], &vec![true, true], no_overrides());
    assert!(matches!(r, Err(ChainError::ProtocolDecode)));
}

#[test]
fn failed_simulation_excludes_everything() {
    let sim: BatchSimulation<u8> = BatchSimulation::failed(3);
    assert!(sim.call.is_none());
    assert_eq!(sim.excluded_call_indexes, vec![0, 1, 2]);
}

#[test]
fn batch_result_after_submission() {
    let outcome = TxOutcome { transaction_hash: [1u8; 32], block_number: 40, gas_used: 21000, executed: true };
    let submitted = BatchResult::from_submission(Some(outcome), vec![1]);
    assert_eq!(submitted.outcome, Some(outcome));
    assert_eq!(submitted.failed_indexes, vec![1]);

    let none = BatchResult::from_submission(None, vec![0, 1, 2]);
    assert!(none.outcome.is_none());
    assert_eq!(none.failed_indexes, vec![0, 1, 2]);

    let failed = BatchResult::failed(2);
    assert_eq!(failed.failed_indexes, vec![0, 1]);
}
