//! The transaction assembler and the multi-provider broadcast
//! orchestrator, run against real solana-sdk signing.
use solana_sdk::instruction::Instruction;
use solana_sdk::message::VersionedMessage;
use solana_sdk::pubkey::Pubkey;
use solana_sdk::signature::Keypair;
use solana_sdk::signer::Signer;
use solana_trading_sdk::builder::build_transaction;
use solana_trading_sdk::builder::build_transaction_ext;
use solana_trading_sdk::builder::NonceInfo;
use solana_trading_sdk::builder::PriorityFee;
use solana_trading_sdk::builder::SignedTransaction;
use solana_trading_sdk::builder::TipFee;
use solana_trading_sdk::trading_endpoint::aggregate_batch_outcome;
use solana_trading_sdk::trading_endpoint::confirm_poll_step;
use solana_trading_sdk::trading_endpoint::BatchTxItem;
use solana_trading_sdk::trading_endpoint::ConfirmPoll;
use solana_trading_sdk::trading_endpoint::CONFIRM_TIMEOUT_SECONDS;
use solana_trading_sdk::trading_endpoint::ProviderDescriptor;
use solana_trading_sdk::trading_endpoint::TradingEndpoint;
use solana_trading_sdk::trading_endpoint::TransportOutcome;

fn custom_instruction(tag: u8) -> Instruction {
    Instruction {
        program_id: Pubkey::from([tag; 32]),
        accounts: vec![],
        data: vec![tag, tag, tag],
    }
}

fn compiled_program_ids(signed: &SignedTransaction) -> Vec<Pubkey> {
    match &signed.transaction.message {
        VersionedMessage::V0(message) => message
            .instructions
            .iter()
            .map(|ix| message.account_keys[ix.program_id_index as usize])
            .collect(),
        _ => panic!("expected a v0 message"),
    }
}

#[test]
fn assembled_transaction_orders_fee_tip_then_business() {
    let payer = Keypair::new();
    let blockhash = solana_sdk::hash::Hash::default();
    let instructions = vec![custom_instruction(7)];
    let fee = PriorityFee { unit_limit: 100_000, unit_price: 10_000_000 };
    let tip = TipFee { tip_account: Pubkey::from([9u8; 32]), tip_lamports: 1_000 };
    let signed = build_transaction(&payer, &instructions, &blockhash, Some(fee), Some(tip), &vec![])
        .expect("assembly should succeed");
    let program_ids = compiled_program_ids(&signed);
    assert_eq!(program_ids.len(), 4);
    assert_eq!(program_ids[0], solana_sdk_ids::compute_budget::ID);
    assert_eq!(program_ids[1], solana_sdk_ids::compute_budget::ID);
    assert_eq!(program_ids[2], solana_sdk_ids::system_program::ID);
    assert_eq!(program_ids[3], Pubkey::from([7u8; 32]));
    assert_eq!(signed.signature, signed.transaction.signatures[0]);
    // The two fee instructions carry the right payloads in the right
    // order: set-unit-price (tag 3) first, set-unit-limit (tag 2) next.
    match &signed.transaction.message {
        VersionedMessage::V0(message) => {
            let mut price_data = vec![3u8];
            price_data.extend(10_000_000u64.to_le_bytes());
            assert_eq!(message.instructions[0].data, price_data);
            let mut limit_data = vec![2u8];
            limit_data.extend(100_000u32.to_le_bytes());
            assert_eq!(message.instructions[1].data, limit_data);
        }
        _ => panic!("expected a v0 message"),
    }
}

#[test]
fn assembled_transaction_without_fee_or_tip_keeps_only_business() {
    let payer = Keypair::new();
    let blockhash = solana_sdk::hash::Hash::default();
    let instructions = vec![custom_instruction(3), custom_instruction(4)];
    let signed = build_transaction(&payer, &instructions, &blockhash, None, None, &vec![])
        .expect("assembly should succeed");
    let program_ids = compiled_program_ids(&signed);
    assert_eq!(program_ids, vec![Pubkey::from([3u8; 32]), Pubkey::from([4u8; 32])]);
}

#[test]
fn nonce_advance_comes_before_everything_else() {
    let payer = Keypair::new();
    let blockhash = solana_sdk::hash::Hash::default();
    let instructions = vec![custom_instruction(5)];
    let fee = PriorityFee { unit_limit: 50_000, unit_price: 1 };
    let nonce = NonceInfo {
        nonce_account: Pubkey::from([11u8; 32]),
        nonce_authority: payer.pubkey(),
    };
    let signed = build_transaction_ext(
        &payer, &instructions, &blockhash, Some(fee), None, &vec![], Some(nonce),
    )
    .expect("assembly should succeed");
    let program_ids = compiled_program_ids(&signed);
    assert_eq!(program_ids.len(), 4);
    assert_eq!(program_ids[0], solana_sdk_ids::system_program::ID);
    assert_eq!(program_ids[1], solana_sdk_ids::compute_budget::ID);
    assert_eq!(program_ids[2], solana_sdk_ids::compute_budget::ID);
    assert_eq!(program_ids[3], Pubkey::from([5u8; 32]));
}

#[test]
fn tipless_single_broadcast_skips_tip_requiring_provider() {
    // Providers A and B have no tip account, C requires one; with no tip
    // supplied, exactly A and B get transactions and C is skipped
    // without an error.
    let endpoint = TradingEndpoint::new(vec![
        ProviderDescriptor { name: String::from("provider_a"), tip_account: None },
        ProviderDescriptor { name: String::from("provider_b"), tip_account: None },
        ProviderDescriptor { name: String::from("provider_c"), tip_account: Some(Pubkey::from([1u8; 32])) },
    ]);
    let payer = Keypair::new();
    let blockhash = solana_sdk::hash::Hash::default();
    let sb = endpoint
        .build_single_broadcast(&payer, &vec![custom_instruction(2)], &blockhash, None, None, &vec![])
        .expect("building should succeed");
    assert_eq!(sb.signatures.len(), 2);
    assert_eq!(sb.dispatches.len(), 2);
    assert_eq!(sb.dispatches[0].provider_index, 0);
    assert_eq!(sb.dispatches[1].provider_index, 1);
    for (signature, dispatch) in sb.signatures.iter().zip(sb.dispatches.iter()) {
        assert_eq!(*signature, dispatch.transaction.signature);
    }
}

#[test]
fn tipped_single_broadcast_reaches_every_provider_with_its_own_tip() {
    let tip_c = Pubkey::from([1u8; 32]);
    let endpoint = TradingEndpoint::new(vec![
        ProviderDescriptor { name: String::from("provider_a"), tip_account: None },
        ProviderDescriptor { name: String::from("provider_c"), tip_account: Some(tip_c) },
    ]);
    let payer = Keypair::new();
    let blockhash = solana_sdk::hash::Hash::default();
    let sb = endpoint
        .build_single_broadcast(
            &payer,
            &vec![custom_instruction(2)],
            &blockhash,
            None,
            Some(5_000),
            &vec![],
        )
        .expect("building should succeed");
    assert_eq!(sb.dispatches.len(), 2);
    // The tip-free provider's transaction holds only the business
    // instruction; the tipped provider's starts with a system transfer.
    let plain_ids = compiled_program_ids(&sb.dispatches[0].transaction);
    assert_eq!(plain_ids, vec![Pubkey::from([2u8; 32])]);
    let tipped_ids = compiled_program_ids(&sb.dispatches[1].transaction);
    assert_eq!(tipped_ids, vec![solana_sdk_ids::system_program::ID, Pubkey::from([2u8; 32])]);
    // The tip transfer pays 5_000 lamports to provider C's own account:
    // the system transfer payload is the 4-byte variant tag followed by
    // the little-endian amount.
    match &sb.dispatches[1].transaction.transaction.message {
        VersionedMessage::V0(message) => {
            assert!(message.account_keys.contains(&tip_c));
            let transfer = &message.instructions[0];
            let mut expected_data = vec![2, 0, 0, 0];
            expected_data.extend(5_000u64.to_le_bytes());
            assert_eq!(transfer.data, expected_data);
            let to_index = transfer.accounts[1] as usize;
            assert_eq!(message.account_keys[to_index], tip_c);
            let from_index = transfer.accounts[0] as usize;
            assert_eq!(message.account_keys[from_index], payer.pubkey());
        }
        _ => panic!("expected a v0 message"),
    }
}

#[test]
fn assembly_is_deterministic() {
    // Identical payer, instructions, blockhash, fee and signers give a
    // byte-identical transaction and signature.
    let payer = Keypair::new();
    let blockhash = solana_sdk::hash::Hash::default();
    let instructions = vec![custom_instruction(8)];
    let fee = PriorityFee { unit_limit: 10_000, unit_price: 5 };
    let first = build_transaction(&payer, &instructions, &blockhash, Some(fee), None, &vec![])
        .expect("assembly should succeed");
    let second = build_transaction(&payer, &instructions, &blockhash, Some(fee), None, &vec![])
        .expect("assembly should succeed");
    assert_eq!(first.signature, second.signature);
    assert_eq!(first.transaction, second.transaction);
    assert_eq!(first.signature, first.transaction.signatures[0]);
}

#[test]
fn oversized_instruction_is_an_error_not_a_panic() {
    // 70 KB of payload passes message compilation but cannot be
    // length-prefixed on the wire; assembly must surface a hard error.
    let payer = Keypair::new();
    let blockhash = solana_sdk::hash::Hash::default();
    let huge = Instruction {
        program_id: Pubkey::from([6u8; 32]),
        accounts: vec![],
        data: vec![0u8; 70_000],
    };
    let result = build_transaction(&payer, &vec![huge], &blockhash, None, None, &vec![]);
    let error = result.err().expect("an oversized instruction must fail assembly");
    assert!(!error.message.is_empty());
}

#[test]
fn batch_missing_tip_account_is_found_before_building() {
    // The first provider's batch would fail assembly (oversized
    // payload), but the second provider's missing tip account must be
    // reported instead: tip accounts are checked before anything is
    // built.
    let endpoint = TradingEndpoint::new(vec![
        ProviderDescriptor { name: String::from("tipped"), tip_account: Some(Pubkey::from([1u8; 32])) },
        ProviderDescriptor { name: String::from("untipped"), tip_account: None },
    ]);
    let huge = Instruction {
        program_id: Pubkey::from([6u8; 32]),
        accounts: vec![],
        data: vec![0u8; 70_000],
    };
    let items = vec![BatchTxItem { payer: Keypair::new(), instructions: vec![huge] }];
    let fee = PriorityFee { unit_limit: 100_000, unit_price: 1 };
    let err = endpoint
        .build_batch_broadcast(&items, &solana_sdk::hash::Hash::default(), fee, 700)
        .err()
        .expect("a provider without a tip account must fail the batch");
    match err {
        solana_trading_sdk::trading_endpoint::BatchBuildError::MissingTipAccount { provider_name } => {
            assert_eq!(provider_name, "untipped");
        }
        _ => panic!("expected the missing tip account to be found before building"),
    }
}

#[test]
fn assembly_fails_when_a_signer_is_not_required() {
    // An extra signer the message never references cannot sign it; the
    // assembler surfaces that as an assembly error rather than panicking.
    let payer = Keypair::new();
    let unrelated = Keypair::new();
    let blockhash = solana_sdk::hash::Hash::default();
    let result = build_transaction(
        &payer,
        &vec![custom_instruction(6)],
        &blockhash,
        None,
        None,
        &vec![unrelated],
    );
    let error = result.err().expect("an unneeded signer must fail signing");
    assert!(!error.message.is_empty());
}

#[test]
fn batch_broadcast_requires_a_tip_account_everywhere() {
    let endpoint = TradingEndpoint::new(vec![
        ProviderDescriptor { name: String::from("tipped"), tip_account: Some(Pubkey::from([1u8; 32])) },
        ProviderDescriptor { name: String::from("untipped"), tip_account: None },
    ]);
    let items = vec![BatchTxItem { payer: Keypair::new(), instructions: vec![custom_instruction(2)] }];
    let blockhash = solana_sdk::hash::Hash::default();
    let fee = PriorityFee { unit_limit: 100_000, unit_price: 1 };
    let err = endpoint
        .build_batch_broadcast(&items, &blockhash, fee, 700)
        .err()
        .expect("a provider without a tip account must fail the batch");
    match err {
        solana_trading_sdk::trading_endpoint::BatchBuildError::MissingTipAccount { provider_name } => {
            assert_eq!(provider_name, "untipped");
        }
        _ => panic!("expected a missing-tip-account error"),
    }
}

#[test]
fn batch_broadcast_tips_every_item_per_provider() {
    let tip_one = Pubkey::from([1u8; 32]);
    let tip_two = Pubkey::from([2u8; 32]);
    let endpoint = TradingEndpoint::new(vec![
        ProviderDescriptor { name: String::from("one"), tip_account: Some(tip_one) },
        ProviderDescriptor { name: String::from("two"), tip_account: Some(tip_two) },
    ]);
    let items = vec![
        BatchTxItem { payer: Keypair::new(), instructions: vec![custom_instruction(3)] },
        BatchTxItem { payer: Keypair::new(), instructions: vec![custom_instruction(4)] },
    ];
    let blockhash = solana_sdk::hash::Hash::default();
    let fee = PriorityFee { unit_limit: 100_000, unit_price: 1 };
    let bb = endpoint
        .build_batch_broadcast(&items, &blockhash, fee, 700)
        .expect("building should succeed");
    // One signature per item, aligned with the first provider's batch.
    assert_eq!(bb.signatures.len(), 2);
    assert_eq!(bb.dispatches.len(), 2);
    for (p, dispatch) in bb.dispatches.iter().enumerate() {
        assert_eq!(dispatch.transactions.len(), 2);
        let own_tip = if p == 0 { tip_one } else { tip_two };
        // Every item: fee bid (price, limit), the provider's tip
        // transfer, then the business instruction.
        for signed in &dispatch.transactions {
            let ids = compiled_program_ids(signed);
            assert_eq!(ids.len(), 4);
            assert_eq!(ids[0], solana_sdk_ids::compute_budget::ID);
            assert_eq!(ids[1], solana_sdk_ids::compute_budget::ID);
            assert_eq!(ids[2], solana_sdk_ids::system_program::ID);
            match &signed.transaction.message {
                VersionedMessage::V0(message) => {
                    assert!(message.account_keys.contains(&own_tip));
                }
                _ => panic!("expected a v0 message"),
            }
        }
    }
    assert_eq!(bb.signatures[0], bb.dispatches[0].transactions[0].signature);
    assert_eq!(bb.signatures[1], bb.dispatches[0].transactions[1].signature);
}

#[test]
fn confirmation_poll_decides_each_round() {
    // A positive observed slot confirms, whatever the clock says.
    assert_eq!(confirm_poll_step(Some(5), 0, CONFIRM_TIMEOUT_SECONDS), ConfirmPoll::Confirmed);
    assert_eq!(confirm_poll_step(Some(7), 99, CONFIRM_TIMEOUT_SECONDS), ConfirmPoll::Confirmed);
    // Not observed: keep polling while time remains, then give up.
    assert_eq!(confirm_poll_step(None, 3, 10), ConfirmPoll::KeepWaiting);
    assert_eq!(confirm_poll_step(None, 10, 10), ConfirmPoll::KeepWaiting);
    assert_eq!(confirm_poll_step(None, 11, 10), ConfirmPoll::TimedOut);
    // A zero slot does not count as on-chain.
    assert_eq!(confirm_poll_step(Some(0), 5, 10), ConfirmPoll::KeepWaiting);
    assert_eq!(confirm_poll_step(Some(0), 11, 10), ConfirmPoll::TimedOut);
}

#[test]
fn batch_failure_of_one_provider_fails_the_whole_batch() {
    // Two items, two providers; provider two's transmission fails. The
    // aggregate must be an error naming provider two, with no partial
    // success reported.
    let outcomes = vec![
        TransportOutcome { provider_name: String::from("provider_one"), error: None },
        TransportOutcome {
            provider_name: String::from("provider_two"),
            error: Some(String::from("connection reset")),
        },
    ];
    let failure = aggregate_batch_outcome(&outcomes).err().expect("one failure fails the batch");
    assert_eq!(failure.failures.len(), 1);
    assert_eq!(failure.failures[0].provider_name, "provider_two");
    assert_eq!(failure.failures[0].error.as_deref(), Some("connection reset"));
}

#[test]
fn batch_with_all_providers_succeeding_aggregates_to_success() {
    let outcomes = vec![
        TransportOutcome { provider_name: String::from("provider_one"), error: None },
        TransportOutcome { provider_name: String::from("provider_two"), error: None },
    ];
    assert!(aggregate_batch_outcome(&outcomes).is_ok());
    assert!(aggregate_batch_outcome(&vec![]).is_ok());
}

#[test]
fn batch_with_every_provider_failing_lists_them_all() {
    let outcomes = vec![
        TransportOutcome { provider_name: String::from("one"), error: Some(String::from("timeout")) },
        TransportOutcome { provider_name: String::from("two"), error: Some(String::from("rejected")) },
    ];
    let failure = aggregate_batch_outcome(&outcomes).err().expect("all failed");
    assert_eq!(failure.failures.len(), 2);
    assert_eq!(failure.failures[0].provider_name, "one");
    assert_eq!(failure.failures[1].provider_name, "two");
}
