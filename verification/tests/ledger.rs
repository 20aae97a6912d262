use bitcoin::secp256k1::{Secp256k1, SecretKey};
use deposits_protocol::conformance::{ConformanceViolation, NoVerify};
use deposits_protocol::error::DepositsError;
use deposits_protocol::ledger_state::LedgerState;
use deposits_protocol::operation::LedgerOperation;
use deposits_protocol::pubkey::PublicKey;
use deposits_protocol::types::{compute_deposit_id, DescriptorWitness, FeeStructure};

fn key(seed: u8) -> PublicKey {
    let secp = Secp256k1::new();
    let sk = SecretKey::from_slice(&[seed; 32]).unwrap();
    let pk = bitcoin::secp256k1::PublicKey::from_secret_key(&secp, &sk);
    PublicKey::from_slice(&pk.serialize()).unwrap()
}

fn open_op(descriptor: &str) -> LedgerOperation {
    LedgerOperation::DepositOpen {
        deposit_id: compute_deposit_id(descriptor),
        descriptor: descriptor.to_string(),
        fees: None,
        transfer_fees: None,
        payment_hash: None,
        invoice: None,
        cosigner_guarantee_signature: None,
        receive_requires_sig: false,
        fee_change_after_blocks: None,
        fee_change_notice_blocks: None,
        fee_change_limit_bps: None,
    }
}

fn credit_op(descriptor: &str, amount: u64, hash: u8) -> LedgerOperation {
    LedgerOperation::OnchainCredit {
        txid: [hash; 32],
        vout: 0,
        deposit_id: compute_deposit_id(descriptor),
        amount,
        funding_address: "bc1q".to_string(),
    }
}

fn balance_of(state: &LedgerState, descriptor: &str) -> (u64, u64) {
    let id = compute_deposit_id(descriptor);
    for (k, d) in &state.deposits {
        if *k == id {
            return (d.balance, d.locked_balance);
        }
    }
    panic!("no deposit");
}

#[test]
fn test_ledger_state() {
    let op = key(1);
    let partner = key(1);
    let mut state = LedgerState::new(op, hex::encode(partner.serialize()), 0);
    assert_eq!(state.total_deposit_balance(), 0);
    assert_eq!(state.reserves_amount, 0);
    assert!(state.has_sufficient_reserves());
    state.reserves_amount = 100_000;
    assert_eq!(state.reserves_amount, 100_000);
}

#[test]
fn open_credit_and_close_deposit() {
    let state = LedgerState::new(key(1), "reserves".to_string(), 10);
    let s1 = state.apply(&open_op("pk(a)")).unwrap();
    assert_eq!(s1.deposits.len(), 1);
    assert_eq!(state.apply(&open_op("pk(a)")).is_ok(), true);
    assert_eq!(s1.apply(&open_op("pk(a)")).unwrap_err(), DepositsError::DepositAlreadyExists);
    let s2 = s1.apply(&credit_op("pk(a)", 5_000, 1)).unwrap();
    assert_eq!(balance_of(&s2, "pk(a)"), (5_000, 0));
    let close = LedgerOperation::DepositClose { deposit_id: compute_deposit_id("pk(a)") };
    assert_eq!(s2.apply(&close).unwrap_err(), DepositsError::NonZeroBalance { balance: 5_000 });
    let s3 = s1.apply(&close).unwrap();
    assert!(s3.deposits.is_empty());
    let unknown = credit_op("pk(b)", 1, 1);
    assert_eq!(s1.apply(&unknown).unwrap_err(), DepositsError::DepositNotFound);
}

#[test]
fn duplicate_invoice_credit_is_refused() {
    let state = LedgerState::new(key(1), "reserves".to_string(), 10);
    let s1 = state.apply(&open_op("pk(a)")).unwrap();
    let credit = LedgerOperation::InvoiceCredit {
        payment_hash: [0xAB; 32],
        deposit_id: compute_deposit_id("pk(a)"),
        amount: 700,
        invoice_id: "inv".to_string(),
        sequence_number: 1,
    };
    let s2 = s1.apply(&credit).unwrap();
    assert_eq!(balance_of(&s2, "pk(a)"), (700, 0));
    match s2.apply(&credit).unwrap_err() {
        DepositsError::ProtocolViolation { violation_type, details } => {
            assert_eq!(violation_type, "duplicate_credit");
            assert_eq!(details, "Payment abababababababab already credited");
        }
        other => panic!("unexpected {:?}", other),
    }
}

#[test]
fn invoice_lock_fail_releases_lock_and_charges_fixed_fee() {
    let state = LedgerState::new(key(1), "reserves".to_string(), 10);
    let s1 = state.apply(&open_op("pk(a)")).unwrap();
    let s2 = s1.apply(&credit_op("pk(a)", 1_000, 1)).unwrap();
    let lock = LedgerOperation::InvoiceLock {
        deposit_id: compute_deposit_id("pk(a)"),
        amount: 400,
        payment_id: [9; 32],
        sequence_number: 3,
        witness: DescriptorWitness::new(),
    };
    let s3 = s2.apply(&lock).unwrap();
    assert_eq!(balance_of(&s3, "pk(a)"), (1_000, 400));
    assert_eq!(s3.open_invoice_locks.len(), 1);
    let too_much = LedgerOperation::InvoiceLock {
        deposit_id: compute_deposit_id("pk(a)"),
        amount: 601,
        payment_id: [8; 32],
        sequence_number: 4,
        witness: DescriptorWitness::new(),
    };
    assert_eq!(
        s3.apply(&too_much).unwrap_err(),
        DepositsError::InsufficientDepositBalance { available: 600, required: 601 }
    );
    let fail = LedgerOperation::InvoiceFail {
        deposit_id: compute_deposit_id("pk(a)"),
        amount: 400,
        payment_id: [9; 32],
        sequence_number: 5,
    };
    let s4 = s3.apply(&fail).unwrap();
    // The default transfer fee schedule charges a fixed 2 msats.
    assert_eq!(balance_of(&s4, "pk(a)"), (998, 0));
    assert_eq!(s4.fees_accumulated, 2);
    assert!(s4.open_invoice_locks.is_empty());
}

#[test]
fn transfer_lock_and_complete_moves_funds() {
    let state = LedgerState::new(key(1), "reserves".to_string(), 10);
    let s = state.apply(&open_op("pk(a)")).unwrap();
    let s = s.apply(&open_op("pk(b)")).unwrap();
    let s = s.apply(&credit_op("pk(a)", 10_000, 1)).unwrap();
    let lock = LedgerOperation::TransferLock {
        nonce: [1; 32],
        source_deposit_id: compute_deposit_id("pk(a)"),
        destination_deposit_id: compute_deposit_id("pk(b)"),
        amount: 3_000,
        fee: 30,
        completion_script: "sha256(00)".to_string(),
        timeout_height: 100,
        transfer_id: [7; 32],
        witness: DescriptorWitness::new(),
    };
    let s = s.apply(&lock).unwrap();
    assert_eq!(balance_of(&s, "pk(a)"), (10_000, 3_030));
    let complete = LedgerOperation::TransferComplete {
        transfer_id: [7; 32],
        script_witness: DescriptorWitness::new(),
    };
    let s = s.apply(&complete).unwrap();
    assert_eq!(balance_of(&s, "pk(a)"), (7_000, 0));
    assert_eq!(balance_of(&s, "pk(b)"), (3_000, 0));
    assert_eq!(s.fees_accumulated, 30);
    assert!(s.pending_transfers.is_empty());
}

#[test]
fn quorum_members_are_staged_then_promoted() {
    let state = LedgerState::new(key(1), "reserves".to_string(), 10);
    let add = |k: PublicKey| LedgerOperation::QuorumAddMember {
        quorum_member: k,
        quorum_member_signature: [0; 64],
        member_ledger_id: "ledger".to_string(),
        min_fee_bps: None,
        min_fee_fixed: None,
        max_fee_period: None,
        membership_until: None,
        dispute_response_blocks: None,
        dispute_arm_blocks: None,
        service_response_blocks: None,
        max_transfer_timeout_blocks: None,
        max_descriptor_bytes: None,
        compensation_bps: None,
        compensation_deposit_id: None,
        compensation_frequency_blocks: None,
    };
    let s = state.apply(&add(key(2))).unwrap();
    let s = s.apply(&add(key(3))).unwrap();
    let s = s.apply(&add(key(2))).unwrap();
    assert_eq!(s.next_quorum_members.len(), 2);
    let begin = LedgerOperation::QuorumBegin {
        reserves_id: "new".to_string(),
        spending_txid: [0; 32],
        new_outpoint_txid: [0; 32],
        new_outpoint_vout: 0,
        amount: 50,
        quorum_expiry: 900,
        ledger_hash: [0; 32],
        quorum_members: vec![deposits_protocol::operation::QuorumMemberRef::pubkey_only(key(3))],
        collateral_amount: 5,
    };
    let s = s.apply(&begin).unwrap();
    assert_eq!(s.quorum_members.len(), 1);
    assert_eq!(s.quorum_members[0].pubkey, key(3));
    assert!(s.next_quorum_members.is_empty());
    assert_eq!(s.quorum_expiry, Some(900));
    assert_eq!(s.reserves_key, "new");
}

#[test]
fn reserve_shortfall_is_a_conformance_violation() {
    let state = LedgerState::new(key(1), "reserves".to_string(), 10);
    let s = state.apply(&open_op("pk(a)")).unwrap();
    let (next, violations) = s.apply_with_verifier(&credit_op("pk(a)", 500, 1), &NoVerify).unwrap();
    assert_eq!(next.total_deposit_balance(), 500);
    assert_eq!(
        violations,
        vec![ConformanceViolation::InsufficientReserves { reserves: 0, obligations: 500 }]
    );
    assert_eq!(violations[0].describe(), "reserves (0) < obligations (500)");
    match s.check_and_apply(&credit_op("pk(a)", 500, 1), &NoVerify).unwrap_err() {
        DepositsError::ProtocolViolation { violation_type, details } => {
            assert_eq!(violation_type, "conformance");
            assert_eq!(details, "reserves (0) < obligations (500)");
        }
        other => panic!("unexpected {:?}", other),
    }
}

#[test]
fn fee_collect_applies_pending_fee_change() {
    let state = LedgerState::new(key(1), "reserves".to_string(), 10);
    let s = state.apply(&open_op("pk(a)")).unwrap();
    let s = s.apply(&credit_op("pk(a)", 1_000, 1)).unwrap();
    let change = LedgerOperation::FeeChange {
        deposit_id: compute_deposit_id("pk(a)"),
        new_fees: FeeStructure::new(9, 9, 9),
        effective_block: 200,
    };
    let s = s.apply(&change).unwrap();
    let collect = |h: u32| LedgerOperation::FeeCollect {
        deposit_id: compute_deposit_id("pk(a)"),
        amount: 100,
        block_height: h,
    };
    let early = s.apply(&collect(150)).unwrap();
    assert_eq!(early.deposits[0].1.fees, FeeStructure::default());
    assert_eq!(early.deposits[0].1.balance, 900);
    assert_eq!(early.fees_accumulated, 100);
    let late = s.apply(&collect(250)).unwrap();
    assert_eq!(late.deposits[0].1.fees, FeeStructure::new(9, 9, 9));
    assert_eq!(late.deposits[0].1.pending_fee_change, None);
    assert_eq!(late.deposits[0].1.last_fee_assessment, 250);
}

#[test]
fn quorum_join_only_extends_membership() {
    let state = LedgerState::new(key(1), "reserves".to_string(), 10);
    let join = |expires: u32| LedgerOperation::QuorumJoin {
        operator_id: key(2),
        ledger_id: "ab".repeat(32),
        membership_expires: expires,
    };
    let s1 = state.apply(&join(500)).unwrap();
    assert_eq!(s1.joined_quorums.len(), 1);
    assert_eq!(s1.joined_quorums[0].membership_expires, 500);
    let s2 = s1.apply(&join(300)).unwrap();
    assert_eq!(s2.joined_quorums.len(), 1);
    assert_eq!(s2.joined_quorums[0].membership_expires, 500);
    let s3 = s2.apply(&join(900)).unwrap();
    assert_eq!(s3.joined_quorums[0].membership_expires, 900);
}
