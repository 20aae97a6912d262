use deposits_protocol::messages::{
    COORDINATION, COORDINATION_RESPONSE, HANDSHAKE, HANDSHAKE_RESPONSE, LEDGER_UPDATE,
    LEDGER_UPDATE_RESPONSE, SYNC, SYNC_RESPONSE,
};
use deposits_protocol::operation::{LedgerOperation, ReplacementCollateral};
use deposits_protocol::operation_binary::BinaryCodec;
use deposits_protocol::tlv::{TlvDecode, TlvEncode};
use deposits_protocol::types::{compute_deposit_id, DescriptorWitness, FeeStructure};

fn wire_roundtrip(op: &LedgerOperation) -> LedgerOperation {
    let mut bytes = Vec::new();
    op.write_to(&mut bytes).unwrap();
    let mut pos = 0usize;
    LedgerOperation::read_from(&bytes, &mut pos).unwrap()
}

#[test]
fn test_message_type_constants() {
    assert_eq!(LEDGER_UPDATE & 1, 1);
    assert_eq!(LEDGER_UPDATE_RESPONSE & 1, 1);
    assert_eq!(HANDSHAKE & 1, 1);
    assert_eq!(HANDSHAKE_RESPONSE & 1, 1);
    assert_eq!(SYNC & 1, 1);
    assert_eq!(SYNC_RESPONSE & 1, 1);
    assert_eq!(COORDINATION & 1, 1);
    assert_eq!(COORDINATION_RESPONSE & 1, 1);
}

#[test]
fn test_all_message_types_are_odd() {
    let types = [
        LEDGER_UPDATE,
        LEDGER_UPDATE_RESPONSE,
        HANDSHAKE,
        HANDSHAKE_RESPONSE,
        SYNC,
        SYNC_RESPONSE,
        COORDINATION,
        COORDINATION_RESPONSE,
    ];
    for t in types {
        assert!(t & 1 == 1, "Message type 0x{:04X} is not odd", t);
    }
}

#[test]
fn test_ledger_operation_roundtrip() {
    let ops = vec![LedgerOperation::FeeCollect {
        deposit_id: compute_deposit_id("pk(test)"),
        amount: 500,
        block_height: 800000,
    }];
    for op in ops {
        let decoded = wire_roundtrip(&op);
        assert_eq!(op, decoded);
    }

    // DepositOpen: the legacy format keeps the deposit id (in a 33-byte key
    // slot) and not the descriptor, which comes back as `legacy(<hex id>)`.
    let deposit_id = compute_deposit_id("pk(test)");
    let deposit_open = LedgerOperation::DepositOpen {
        deposit_id,
        descriptor: "pk(test)".to_string(),
        fees: Some(FeeStructure { annualized_msats: 1000, annualized_bps: 50, frequency_blocks: 144 }),
        transfer_fees: None,
        payment_hash: Some([0xAB; 32]),
        invoice: Some("lnbc...".to_string()),
        cosigner_guarantee_signature: None,
        receive_requires_sig: false,
        fee_change_after_blocks: None,
        fee_change_notice_blocks: None,
        fee_change_limit_bps: None,
    };
    let decoded = wire_roundtrip(&deposit_open);
    if let LedgerOperation::DepositOpen { deposit_id: decoded_id, descriptor, .. } = decoded {
        assert_eq!(decoded_id, deposit_id);
        assert_eq!(descriptor, format!("legacy({})", hex::encode(deposit_id)));
    } else {
        panic!("Expected DepositOpen");
    }
}

#[test]
fn test_transfer_lock_wire_roundtrip() {
    let source_id = compute_deposit_id("pk(alice)");
    let dest_id = compute_deposit_id("pk(bob)");
    let op = LedgerOperation::TransferLock {
        nonce: [0x42u8; 32],
        source_deposit_id: source_id,
        destination_deposit_id: dest_id,
        amount: 100_000,
        fee: 1_000,
        completion_script:
            "sha256(deadbeef0123456789abcdef0123456789abcdef0123456789abcdef01234567)".to_string(),
        timeout_height: 850_000,
        transfer_id: [0xABu8; 32],
        witness: DescriptorWitness { stack: vec![[0x11u8; 64].to_vec()] },
    };
    let decoded = wire_roundtrip(&op);
    if let LedgerOperation::TransferLock {
        nonce,
        source_deposit_id,
        destination_deposit_id,
        amount,
        fee,
        completion_script,
        timeout_height,
        transfer_id,
        witness,
    } = decoded
    {
        assert_eq!(nonce, [0x42u8; 32]);
        assert_eq!(source_deposit_id, source_id);
        assert_eq!(destination_deposit_id, dest_id);
        assert_eq!(amount, 100_000);
        assert_eq!(fee, 1_000);
        assert_eq!(
            completion_script,
            "sha256(deadbeef0123456789abcdef0123456789abcdef0123456789abcdef01234567)"
        );
        assert_eq!(timeout_height, 850_000);
        assert_eq!(transfer_id, [0xABu8; 32]);
        assert_eq!(witness.stack.len(), 1);
        assert_eq!(witness.stack[0].len(), 64);
    } else {
        panic!("Expected TransferLock");
    }
}

#[test]
fn test_transfer_complete_wire_roundtrip() {
    let op = LedgerOperation::TransferComplete {
        transfer_id: [0xCDu8; 32],
        script_witness: DescriptorWitness { stack: vec![[0x11u8; 32].to_vec()] },
    };
    let decoded = wire_roundtrip(&op);
    if let LedgerOperation::TransferComplete { transfer_id, script_witness } = decoded {
        assert_eq!(transfer_id, [0xCDu8; 32]);
        assert_eq!(script_witness.stack.len(), 1);
        assert_eq!(script_witness.stack[0], [0x11u8; 32].to_vec());
    } else {
        panic!("Expected TransferComplete");
    }
}

#[test]
fn test_transfer_fail_wire_roundtrip() {
    let op = LedgerOperation::TransferFail {
        transfer_id: [0xEFu8; 32],
        block_hash: [0x99u8; 32],
        reason: 1,
    };
    let decoded = wire_roundtrip(&op);
    assert_eq!(op, decoded);
}

#[test]
fn test_transfer_lock_tlv_roundtrip() {
    let source_id = compute_deposit_id("pk(source_key)");
    let dest_id = compute_deposit_id("pk(dest_key)");
    let op = LedgerOperation::TransferLock {
        nonce: [0x55u8; 32],
        source_deposit_id: source_id,
        destination_deposit_id: dest_id,
        amount: 250_000,
        fee: 2_500,
        completion_script: "sha256(cafebabe)".to_string(),
        timeout_height: 900_000,
        transfer_id: [0x77u8; 32],
        witness: DescriptorWitness { stack: vec![[0x88u8; 64].to_vec()] },
    };
    let encoded = op.tlv_encode();
    let decoded = LedgerOperation::tlv_decode(&encoded).unwrap();
    if let LedgerOperation::TransferLock {
        nonce,
        source_deposit_id,
        destination_deposit_id,
        amount,
        fee,
        completion_script,
        timeout_height,
        transfer_id,
        witness,
    } = decoded
    {
        assert_eq!(nonce, [0x55u8; 32]);
        assert_eq!(source_deposit_id, source_id);
        assert_eq!(destination_deposit_id, dest_id);
        assert_eq!(amount, 250_000);
        assert_eq!(fee, 2_500);
        assert_eq!(completion_script, "sha256(cafebabe)");
        assert_eq!(timeout_height, 900_000);
        assert_eq!(transfer_id, [0x77u8; 32]);
        assert_eq!(witness.stack.len(), 1);
    } else {
        panic!("Expected TransferLock");
    }
}

#[test]
fn test_transfer_complete_tlv_roundtrip() {
    let op = LedgerOperation::TransferComplete {
        transfer_id: [0xAAu8; 32],
        script_witness: DescriptorWitness { stack: vec![vec![1, 2, 3, 4], vec![5, 6, 7, 8]] },
    };
    let encoded = op.tlv_encode();
    let decoded = LedgerOperation::tlv_decode(&encoded).unwrap();
    if let LedgerOperation::TransferComplete { transfer_id, script_witness } = decoded {
        assert_eq!(transfer_id, [0xAAu8; 32]);
        assert_eq!(script_witness.stack.len(), 2);
        assert_eq!(script_witness.stack[0], vec![1, 2, 3, 4]);
        assert_eq!(script_witness.stack[1], vec![5, 6, 7, 8]);
    } else {
        panic!("Expected TransferComplete");
    }
}

#[test]
fn test_transfer_fail_tlv_roundtrip() {
    let op = LedgerOperation::TransferFail {
        transfer_id: [0xBBu8; 32],
        block_hash: [0xCCu8; 32],
        reason: 1,
    };
    let encoded = op.tlv_encode();
    let decoded = LedgerOperation::tlv_decode(&encoded).unwrap();
    assert_eq!(op, decoded);
}

#[test]
fn test_transfer_discriminants() {
    let source_id = compute_deposit_id("pk(test)");
    let dest_id = compute_deposit_id("pk(test2)");
    let lock = LedgerOperation::TransferLock {
        nonce: [0u8; 32],
        source_deposit_id: source_id,
        destination_deposit_id: dest_id,
        amount: 1000,
        fee: 10,
        completion_script: "sha256(00)".to_string(),
        timeout_height: 100,
        transfer_id: [0u8; 32],
        witness: DescriptorWitness { stack: vec![] },
    };
    let complete = LedgerOperation::TransferComplete {
        transfer_id: [0u8; 32],
        script_witness: DescriptorWitness { stack: vec![] },
    };
    let timeout = LedgerOperation::TransferFail {
        transfer_id: [0u8; 32],
        block_hash: [0u8; 32],
        reason: 1,
    };
    assert_eq!(lock.discriminant(), 70);
    assert_eq!(complete.discriminant(), 71);
    assert_eq!(timeout.discriminant(), 72);
}

#[test]
fn wire_roundtrip_keeps_string_and_collateral_fields() {
    let ops = vec![
        LedgerOperation::InvoiceCredit {
            payment_hash: [0x11; 32],
            deposit_id: [0x22; 16],
            amount: 42,
            invoice_id: "inv-é".to_string(),
            sequence_number: 9,
        },
        LedgerOperation::OnchainFulfill {
            deposit_id: [0x33; 16],
            withdrawal_id: [0x44; 32],
            amount: 7,
            txid: [0x55; 32],
            destination_address: "bc1qdest".to_string(),
        },
        LedgerOperation::DisputeArmed {
            armed_block: 800_000,
            commitment_hash: [0x66; 20],
            target_reserves: "reserves".to_string(),
            replacement_collateral: Some(ReplacementCollateral {
                txid: [0x77; 32],
                vout: 3,
                amount: 1000,
            }),
        },
        LedgerOperation::DisputeArmed {
            armed_block: 1,
            commitment_hash: [0; 20],
            target_reserves: String::new(),
            replacement_collateral: None,
        },
        LedgerOperation::DepositClose { deposit_id: [0x88; 16] },
    ];
    for op in &ops {
        assert_eq!(&wire_roundtrip(op), op);
    }
}
