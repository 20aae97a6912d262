use bitcoin::secp256k1::{Secp256k1, SecretKey};
use deposits_protocol::messages::{MIN_PROTOCOL_VERSION, PROTOCOL_VERSION};
use deposits_protocol::operation::LedgerOperation;
use deposits_protocol::operation_binary::BinaryCodec;
use deposits_protocol::pubkey::PublicKey;
use deposits_protocol::session::{
    HandshakeMsg, HandshakeResponseMsg, LedgerUpdateMsg, LedgerUpdateResponseMsg, SyncMsg,
};
use deposits_protocol::tlv::{TlvDecode, TlvEncode, TlvError};
use deposits_protocol::types::{compute_deposit_id, FeeStructure};

fn secp_key() -> bitcoin::secp256k1::PublicKey {
    let secp = Secp256k1::new();
    let sk = SecretKey::from_slice(&[1u8; 32]).unwrap();
    bitcoin::secp256k1::PublicKey::from_secret_key(&secp, &sk)
}

fn test_pubkey() -> PublicKey {
    PublicKey::from_slice(&secp_key().serialize()).unwrap()
}

fn key_text() -> String {
    secp_key().to_string()
}

#[test]
fn test_sync_msg_tlv_roundtrip() {
    let msg = SyncMsg { ledger_id: [0x12; 32], last_known_sequence: 5, last_known_hash: [0xAA; 32] };
    let encoded = msg.tlv_encode();
    let decoded = SyncMsg::tlv_decode(&encoded).unwrap();
    assert_eq!(msg, decoded);
}

#[test]
fn test_handshake_msg_tlv_roundtrip() {
    let msg = HandshakeMsg {
        protocol_version: PROTOCOL_VERSION,
        min_protocol_version: MIN_PROTOCOL_VERSION,
        features: 0,
        operator_id: test_pubkey(),
        reserves_id: key_text(),
        funding_txid: [0x11; 32],
        funding_vout: 0,
    };
    let encoded = msg.tlv_encode();
    let decoded = HandshakeMsg::tlv_decode(&encoded).unwrap();
    assert_eq!(msg, decoded);
}

#[test]
fn test_handshake_response_msg_tlv_roundtrip() {
    let msg = HandshakeResponseMsg {
        request_hash: [0xAA; 32],
        protocol_version: PROTOCOL_VERSION,
        accepted: true,
        error: None,
        reserves_id: key_text(),
    };
    let encoded = msg.tlv_encode();
    let decoded = HandshakeResponseMsg::tlv_decode(&encoded).unwrap();
    assert_eq!(msg, decoded);
}

#[test]
fn test_ledger_update_msg_tlv_roundtrip() {
    let msg = LedgerUpdateMsg {
        operator_id: test_pubkey(),
        reserves_id: key_text(),
        operation: LedgerOperation::FeeCollect {
            deposit_id: compute_deposit_id("pk(test)"),
            amount: 500,
            block_height: 800000,
        },
        sequence_number: 1,
        previous_hash: [0u8; 32],
        content_hash: [0xAB; 32],
        operator_signature: [0xCD; 64],
    };
    let encoded = msg.tlv_encode();
    let decoded = LedgerUpdateMsg::tlv_decode(&encoded).unwrap();
    assert_eq!(msg, decoded);
}

#[test]
fn test_ledger_update_response_msg_tlv_roundtrip() {
    let msg = LedgerUpdateResponseMsg {
        operator_id: test_pubkey(),
        reserves_id: key_text(),
        request_hash: [0xAA; 32],
        accepted: true,
        error: None,
        cosign_signature: Some([0xBB; 64]),
        confirmed_sequence: 5,
        confirmed_hash: [0xCC; 32],
    };
    let encoded = msg.tlv_encode();
    let decoded = LedgerUpdateResponseMsg::tlv_decode(&encoded).unwrap();
    assert_eq!(msg, decoded);
}

#[test]
fn test_ledger_operation_tlv_roundtrip() {
    let ops = vec![
        LedgerOperation::DepositOpen {
            deposit_id: compute_deposit_id("pk(test)"),
            descriptor: "pk(test)".to_string(),
            fees: Some(FeeStructure::new(100, 10, 144)),
            transfer_fees: None,
            payment_hash: Some([0xAA; 32]),
            invoice: Some("lnbc...".to_string()),
            cosigner_guarantee_signature: None,
            receive_requires_sig: false,
            fee_change_after_blocks: Some(52560),
            fee_change_notice_blocks: Some(2016),
            fee_change_limit_bps: Some(1000),
        },
        LedgerOperation::DepositClose { deposit_id: compute_deposit_id("pk(test)") },
        LedgerOperation::InvoiceCredit {
            payment_hash: [0xBB; 32],
            deposit_id: compute_deposit_id("pk(test)"),
            amount: 50000,
            invoice_id: "inv123".to_string(),
            sequence_number: 1,
        },
        LedgerOperation::LedgerClose,
    ];
    for op in ops {
        let encoded = op.tlv_encode();
        let decoded = LedgerOperation::tlv_decode(&encoded).unwrap();
        assert_eq!(op, decoded, "TLV roundtrip failed for {:?}", op);
    }
}

#[test]
fn sync_msg_with_short_hash_is_refused() {
    let msg = SyncMsg { ledger_id: [0x12; 32], last_known_sequence: 5, last_known_hash: [0xAA; 32] };
    let mut encoded = msg.tlv_encode();
    // Drop the last byte of the last record's value and fix its length.
    let n = encoded.len();
    encoded.truncate(n - 1);
    encoded[n - 1 - 32] = 31;
    let err = SyncMsg::tlv_decode(&encoded).unwrap_err();
    assert!(matches!(err, TlvError::InvalidFieldValue { .. }));
}

#[test]
fn handshake_without_vout_reports_missing_field() {
    let data = vec![0u8, 2, 0, 2];
    let err = HandshakeMsg::tlv_decode(&data).unwrap_err();
    assert_eq!(err, TlvError::MissingRequiredField { field_type: 2 });
}

#[test]
fn handshake_response_error_text_roundtrips() {
    let msg = HandshakeResponseMsg {
        request_hash: [0x01; 32],
        protocol_version: 1,
        accepted: false,
        error: Some("version mismatch".to_string()),
        reserves_id: "r".to_string(),
    };
    let decoded = HandshakeResponseMsg::tlv_decode(&msg.tlv_encode()).unwrap();
    assert_eq!(decoded, msg);
}

#[test]
fn ledger_update_binary_roundtrip() {
    let msg = LedgerUpdateMsg {
        operator_id: test_pubkey(),
        reserves_id: key_text(),
        operation: LedgerOperation::FeeCollect {
            deposit_id: compute_deposit_id("pk(test)"),
            amount: 500,
            block_height: 800000,
        },
        sequence_number: 7,
        previous_hash: [3u8; 32],
        content_hash: [4u8; 32],
        operator_signature: [5u8; 64],
    };
    let mut bytes = Vec::new();
    msg.write_to(&mut bytes).unwrap();
    let mut pos = 0usize;
    let decoded = LedgerUpdateMsg::read_from(&bytes, &mut pos).unwrap();
    assert_eq!(decoded, msg);
    assert_eq!(pos, bytes.len());
}
