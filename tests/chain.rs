use atleta_adapter::{
    fill_gas_limit, fill_gas_price, finalized_block_number, lagged_block_number, node_interface_address,
    ChainDomain, ChainError, CommitmentTree, ContractLocator, EthereumMailbox, EthereumMailboxAbi,
    FinalityPolicy, FinalityStep, FinalityWait, MailboxBuilder, MerkleTreeHookBuilder,
    MerkleTreeHookIndexerBuilder, TransactionOverrides, TxCostEstimate, TxReceipt, Capability,
    GAS_ESTIMATE_BUFFER, TREE_DEPTH,
};

fn no_overrides() -> TransactionOverrides {
    TransactionOverrides { gas_price: None, gas_limit: None, gas_price_multiplier_percent: None }
}

fn locator(nitro: bool) -> ContractLocator {
    ContractLocator { domain: ChainDomain { id: 98867, is_arbitrum_nitro: nitro }, address: [0u8; 32] }
}

#[test]
fn test_process_estimate_costs_sets_l2_gas_limit_for_arbitrum() {
    // An Arbitrum Nitro chain
    let mailbox = EthereumMailbox::new(&locator(true), no_overrides());
    assert!(mailbox.arbitrum_node_interface.is_some());
    let mut expected_address = [0u8; 20];
    expected_address[19] = 0xC8;
    assert_eq!(mailbox.arbitrum_node_interface.unwrap(), expected_address);

    // eth_estimateGas for the process call: 1M gas
    let gas_limit = fill_gas_limit(None, Some(1_000_000), &mailbox.transaction_overrides).unwrap();
    // eth_estimateGas to the node interface: 200k gas
    let l2_gas_limit = 200_000u64;
    // eth_gasPrice: 15 gwei
    let gas_price = fill_gas_price(Some(15_000_000_000), &mailbox.transaction_overrides).unwrap();

    let tx_cost_estimate = mailbox.process_estimate_costs(Some(gas_limit), Some(l2_gas_limit), gas_price).unwrap();

    // The estimate's gas limit includes the buffer
    assert_eq!(
        tx_cost_estimate,
        TxCostEstimate { gas_limit: 1_075_000, gas_price: 15_000_000_000, l2_gas_limit: Some(200_000) },
    );
}

#[test]
fn non_rollup_chain_reports_no_l2_gas_limit() {
    let mailbox = EthereumMailbox::new(&locator(false), no_overrides());
    assert!(!mailbox.needs_l2_estimate());
    let e = mailbox.process_estimate_costs(Some(90_000), Some(5), 7).unwrap();
    assert_eq!(e, TxCostEstimate { gas_limit: 90_000, gas_price: 7, l2_gas_limit: None });
}

#[test]
fn rollup_chain_without_l2_estimate_or_call_without_limit_fails() {
    let rollup = EthereumMailbox::new(&locator(true), no_overrides());
    assert!(rollup.needs_l2_estimate());
    assert!(matches!(rollup.process_estimate_costs(Some(1), None, 1), Err(ChainError::GasLimitUnavailable)));
    let plain = EthereumMailbox::new(&locator(false), no_overrides());
    assert!(matches!(plain.process_estimate_costs(None, None, 1), Err(ChainError::GasLimitUnavailable)));
}

#[test]
fn node_interface_is_at_c8() {
    let a = node_interface_address();
    assert_eq!(a[19], 0xC8);
    assert!(a[..19].iter().all(|b| *b == 0));
}

#[test]
fn gas_limit_policy() {
    assert_eq!(fill_gas_limit(Some(100), Some(5), &no_overrides()), Ok(100 + GAS_ESTIMATE_BUFFER));
    assert_eq!(fill_gas_limit(None, Some(u64::MAX - 10), &no_overrides()), Ok(u64::MAX));
    let fixed = TransactionOverrides { gas_limit: Some(1_000_000), ..no_overrides() };
    assert_eq!(fill_gas_limit(None, Some(10), &fixed), Ok(1_000_000));
    assert_eq!(fill_gas_limit(None, Some(2_000_000), &fixed), Ok(2_075_000));
    assert_eq!(fill_gas_limit(None, None, &fixed), Err(ChainError::GasFill));
}

#[test]
fn gas_price_policy() {
    let fixed = TransactionOverrides { gas_price: Some(42), ..no_overrides() };
    assert_eq!(fill_gas_price(None, &fixed), Ok(42));
    assert_eq!(fill_gas_price(None, &no_overrides()), Err(ChainError::GasFill));
    let scaled = TransactionOverrides { gas_price_multiplier_percent: Some(150), ..no_overrides() };
    assert_eq!(fill_gas_price(Some(1_000), &scaled), Ok(1_500));
    assert_eq!(fill_gas_price(Some(u128::MAX), &scaled), Err(ChainError::GasFill));
}

#[test]
fn process_calldata_is_selector_and_abi_encoding() {
    let mailbox = EthereumMailbox::new(&locator(false), no_overrides());
    let data = mailbox.process_calldata(&vec![0xAB, 0xCD], &vec![]);
    assert_eq!(data.len(), 4 + 5 * 32);
    assert_eq!(&data[..EthereumMailboxAbi::SELECTOR_SIZE_BYTES], &[0x7c, 0x39, 0xd1, 0x30]);
    let words = &data[4..];
    // offsets of the metadata and of the message
    assert_eq!(words[31], 0x40);
    assert_eq!(words[63], 0x60);
    // empty metadata, then the two message bytes
    assert_eq!(words[95], 0);
    assert_eq!(words[127], 2);
    assert_eq!(&words[128..130], &[0xAB, 0xCD]);
    assert!(words[130..].iter().all(|b| *b == 0));
}

#[test]
fn finalized_block_number_cases() {
    assert_eq!(finalized_block_number(Ok(Some(500))), Ok(500));
    assert_eq!(finalized_block_number(Ok(None)), Err(ChainError::FinalityUnknown));
    assert_eq!(finalized_block_number(Err(ChainError::Transport)), Err(ChainError::Transport));
    assert_eq!(finalized_block_number(Ok(Some(u32::MAX as u64 + 1))), Err(ChainError::ProtocolDecode));
}

#[test]
fn lag_cases() {
    assert_eq!(lagged_block_number(100, None), Ok(100));
    assert_eq!(lagged_block_number(100, Some(30)), Ok(70));
    assert_eq!(lagged_block_number(100, Some(100)), Ok(0));
    assert_eq!(lagged_block_number(100, Some(101)), Err(ChainError::LagExceedsHistory));
}

fn receipt(block: Option<u64>) -> TxReceipt {
    TxReceipt { transaction_hash: [9u8; 32], block_number: block, gas_used: 50_000, executed: true }
}

#[test]
fn finality_wait_confirms_only_final_blocks() {
    let policy = FinalityPolicy { max_attempts: 5, initial_delay_ms: 100, max_delay_ms: 250 };
    let mut wait = FinalityWait::start(receipt(Some(1_000)), policy).unwrap();
    assert_eq!(wait.on_report(Ok(998)), FinalityStep::RetryAfter(100));
    assert_eq!(wait.on_report(Err(ChainError::Transport)), FinalityStep::RetryAfter(200));
    assert_eq!(wait.on_report(Ok(999)), FinalityStep::RetryAfter(250));
    match wait.on_report(Ok(1_000)) {
        FinalityStep::Confirmed(o) => {
            assert_eq!(o.block_number, 1_000);
            assert_eq!(o.transaction_hash, [9u8; 32]);
            assert_eq!(o.gas_used, 50_000);
            assert!(o.executed);
        }
        other => panic!("expected a confirmation, got {:?}", other),
    }
}

#[test]
fn finality_wait_times_out() {
    let policy = FinalityPolicy { max_attempts: 2, initial_delay_ms: 10, max_delay_ms: 10 };
    let mut wait = FinalityWait::start(receipt(Some(50)), policy).unwrap();
    assert_eq!(wait.on_report(Ok(10)), FinalityStep::RetryAfter(10));
    assert_eq!(wait.on_report(Ok(49)), FinalityStep::TimedOut);
}

#[test]
fn receipt_without_block_is_a_failed_submission() {
    let policy = FinalityPolicy { max_attempts: 2, initial_delay_ms: 10, max_delay_ms: 10 };
    assert!(matches!(FinalityWait::start(receipt(None), policy), Err(ChainError::Submission)));
}

#[test]
fn commitment_tree_needs_one_hash_per_level() {
    let t = CommitmentTree::from_parts(vec![[1u8; 32]; TREE_DEPTH], 17).unwrap();
    assert_eq!(t.count, 17);
    assert_eq!(t.branch.len(), 32);
    assert!(matches!(CommitmentTree::from_parts(vec![[1u8; 32]; 31], 17), Err(ChainError::ProtocolDecode)));
}

#[test]
fn merkle_handles() {
    let mut loc = locator(false);
    loc.address = [5u8; 32];
    let hook = MerkleTreeHookBuilder {}.build(&loc);
    let cp = hook.checkpoint([6u8; 32], 12);
    assert_eq!(cp.merkle_tree_hook_address, [5u8; 32]);
    assert_eq!(cp.mailbox_domain, 98867);
    assert_eq!(cp.root, [6u8; 32]);
    assert_eq!(cp.index, 12);

    let builder = MerkleTreeHookIndexerBuilder { reorg_period: 10 };
    assert_eq!(builder.capability(), Capability::ReadOnly);
    let indexer = builder.build(&loc);
    assert_eq!(indexer.finalized_block_number(110), Ok(100));
    assert_eq!(indexer.finalized_block_number(5), Err(ChainError::FinalityUnknown));
    assert!(indexer.sequence_query().has_counter);

    let mb = MailboxBuilder {};
    assert_eq!(mb.capability(), Capability::Signing);
    assert!(mb.build(&locator(true), no_overrides()).arbitrum_node_interface.is_some());
}

#[test]
fn finality_delays_never_exceed_the_ceiling() {
    let policy = FinalityPolicy { max_attempts: 4, initial_delay_ms: 1_000, max_delay_ms: 300 };
    let mut wait = FinalityWait::start(receipt(Some(8)), policy).unwrap();
    assert_eq!(wait.on_report(Ok(1)), FinalityStep::RetryAfter(300));
    assert_eq!(wait.on_report(Ok(2)), FinalityStep::RetryAfter(300));
    assert_eq!(wait.on_report(Ok(3)), FinalityStep::RetryAfter(300));
    assert_eq!(wait.on_report(Ok(4)), FinalityStep::TimedOut);
}

#[test]
fn process_calldata_pads_each_value_to_whole_words() {
    let mailbox = EthereumMailbox::new(&locator(false), no_overrides());
    let metadata: Vec<u8> = (1..=33).collect();
    let data = mailbox.process_calldata(&vec![0xEE], &metadata);
    assert_eq!(data.len(), 4 + 2 * 32 + 32 + 64 + 32 + 32);
    let words = &data[4..];
    assert_eq!(words[31], 0x40);
    // second offset: two head words, the metadata's length word and two data words
    assert_eq!(words[63], 0xA0);
    assert_eq!(words[95], 33);
    assert_eq!(&words[96..129], &metadata[..]);
    assert!(words[129..160].iter().all(|b| *b == 0));
    assert_eq!(words[191], 1);
    assert_eq!(words[192], 0xEE);
    assert!(words[193..].iter().all(|b| *b == 0));
}
