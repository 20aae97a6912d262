use bitcoin::secp256k1::{Secp256k1, SecretKey};
use deposits_protocol::codec::CodecError;
use deposits_protocol::coordination::CoordinationMsg;
use deposits_protocol::deposits_message::DepositsMessage;
use deposits_protocol::messages::{
    COORDINATION, HANDSHAKE, LEDGER_CLOSE, LEDGER_UPDATE, MIN_PROTOCOL_VERSION, PROTOCOL_VERSION,
    RESERVES_ADD_OUTPUT, SYNC,
};
use deposits_protocol::operation::LedgerOperation;
use deposits_protocol::operation_binary::BinaryCodec;
use deposits_protocol::pubkey::PublicKey;
use deposits_protocol::responses::{CoordinationResponseMsg, SyncResponseMsg};
use deposits_protocol::session::{
    HandshakeMsg, HandshakeResponseMsg, LedgerUpdateMsg, LedgerUpdateResponseMsg, SyncMsg,
};
use deposits_protocol::tlv::{TlvDecode, TlvEncode, TlvError};
use deposits_protocol::types::compute_deposit_id;
use deposits_protocol::updates::SignedLedgerUpdate;
use deposits_protocol::wire_messages::{ReservesAddOutputMsg, ReservesRemoveOutputMsg};

fn secp_key() -> bitcoin::secp256k1::PublicKey {
    let secp = Secp256k1::new();
    let sk = SecretKey::from_slice(&[1u8; 32]).unwrap();
    bitcoin::secp256k1::PublicKey::from_secret_key(&secp, &sk)
}

fn test_pubkey() -> PublicKey {
    PublicKey::from_slice(&secp_key().serialize()).unwrap()
}

fn other_pubkey() -> PublicKey {
    let secp = Secp256k1::new();
    let sk = SecretKey::from_slice(&[2u8; 32]).unwrap();
    let pk = bitcoin::secp256k1::PublicKey::from_secret_key(&secp, &sk);
    PublicKey::from_slice(&pk.serialize()).unwrap()
}

fn sample_update() -> SignedLedgerUpdate {
    let mut update = SignedLedgerUpdate {
        message: vec![0x00, 0x01, 60],
        message_type: LEDGER_CLOSE,
        operator_id: test_pubkey(),
        ledger_id: [0x12; 32],
        sequence_number: 1,
        previous_hash: [0xCC; 32],
        content_hash: [0u8; 32],
        block_height: 12345,
        block_hash: [0x11; 32],
        cosign_signature: [0xFF; 64],
        operator_signature: [0xEE; 64],
        cosigner_pubkey: None,
        member_ledger_hash: None,
        cosignatures: Vec::new(),
    };
    update.content_hash = update.compute_hash();
    update
}

#[test]
fn test_ledger_update_message_roundtrip() {
    let msg = DepositsMessage::LedgerUpdate(LedgerUpdateMsg {
        operator_id: test_pubkey(),
        reserves_id: secp_key().to_string(),
        operation: LedgerOperation::FeeCollect {
            deposit_id: compute_deposit_id("pk(test)"),
            amount: 500,
            block_height: 800000,
        },
        sequence_number: 1,
        previous_hash: [0u8; 32],
        content_hash: [0xAB; 32],
        operator_signature: [0xCD; 64],
    });

    let encoded = msg.encode();
    let decoded = DepositsMessage::decode(&encoded).unwrap();
    assert_eq!(msg, decoded);
    assert_eq!(decoded.message_type(), LEDGER_UPDATE);
}

#[test]
fn test_handshake_roundtrip() {
    let msg = DepositsMessage::Handshake(HandshakeMsg {
        protocol_version: PROTOCOL_VERSION,
        min_protocol_version: MIN_PROTOCOL_VERSION,
        features: 0,
        operator_id: test_pubkey(),
        reserves_id: secp_key().to_string(),
        funding_txid: [0x11; 32],
        funding_vout: 0,
    });

    let encoded = msg.encode();
    let decoded = DepositsMessage::decode(&encoded).unwrap();
    assert_eq!(msg, decoded);
}

#[test]
fn test_coordination_message_roundtrip() {
    let msg = DepositsMessage::Coordination(CoordinationMsg::CosignInvoice {
        operator_id: test_pubkey(),
        reserves_id: secp_key().to_string(),
        amount: 50000,
        payment_hash: [0x11; 32],
        expires: 1234567890,
        assigned_deposit: test_pubkey(),
        invoice_id: "inv123".to_string(),
        bolt11_invoice: "lnbc...".to_string(),
    });

    let encoded = msg.encode();
    let decoded = DepositsMessage::decode(&encoded).unwrap();
    assert_eq!(msg, decoded);
}

#[test]
fn test_sync_response_msg_tlv_roundtrip() {
    let msg = SyncResponseMsg {
        ledger_id: [0x12; 32],
        request_hash: [0xAA; 32],
        updates: vec![sample_update()],
        current_sequence: 10,
        content_hash: [0xBB; 32],
    };

    let encoded = msg.tlv_encode();
    let decoded = SyncResponseMsg::tlv_decode(&encoded).unwrap();
    assert_eq!(msg, decoded);
}

#[test]
fn test_coordination_response_msg_tlv_roundtrip() {
    let msgs = vec![
        CoordinationResponseMsg::InvoiceCosigned {
            request_hash: [0xAA; 32],
            cosignature: [0xBB; 64],
        },
        CoordinationResponseMsg::QuorumJoinResponse {
            request_hash: [0xCC; 32],
            accepted: true,
            members: vec![test_pubkey(), test_pubkey()],
            threshold: 2,
            last_sequence: 100,
            content_hash: [0xDD; 32],
            rejection_reason: None,
        },
    ];

    for msg in msgs {
        let encoded = msg.tlv_encode();
        let decoded = CoordinationResponseMsg::tlv_decode(&encoded).unwrap();
        assert_eq!(msg, decoded);
    }
}

#[test]
fn test_deposits_message_v2_tlv_roundtrip() {
    let messages = vec![
        DepositsMessage::LedgerUpdate(LedgerUpdateMsg {
            operator_id: test_pubkey(),
            reserves_id: secp_key().to_string(),
            operation: LedgerOperation::InvoiceCredit {
                payment_hash: [0xAA; 32],
                deposit_id: compute_deposit_id("pk(test)"),
                amount: 100000,
                invoice_id: "inv123".to_string(),
                sequence_number: 1,
            },
            sequence_number: 1,
            previous_hash: [0xBB; 32],
            content_hash: [0xCC; 32],
            operator_signature: [0xDD; 64],
        }),
        DepositsMessage::Handshake(HandshakeMsg {
            protocol_version: PROTOCOL_VERSION,
            min_protocol_version: 1,
            features: 0,
            operator_id: test_pubkey(),
            reserves_id: secp_key().to_string(),
            funding_txid: [0xEE; 32],
            funding_vout: 0,
        }),
        DepositsMessage::Sync(SyncMsg {
            ledger_id: [0x12; 32],
            last_known_sequence: 5,
            last_known_hash: [0xFF; 32],
        }),
    ];

    for msg in messages {
        let encoded = msg.tlv_encode();
        let decoded = DepositsMessage::tlv_decode(&encoded).unwrap();
        assert_eq!(msg, decoded);
    }
}

fn every_kind() -> Vec<DepositsMessage> {
    vec![
        DepositsMessage::LedgerUpdateResponse(LedgerUpdateResponseMsg {
            operator_id: test_pubkey(),
            reserves_id: "res-1".to_string(),
            request_hash: [3; 32],
            accepted: false,
            error: Some("stale".to_string()),
            cosign_signature: Some([4; 64]),
            confirmed_sequence: 9,
            confirmed_hash: [5; 32],
        }),
        DepositsMessage::HandshakeResponse(HandshakeResponseMsg {
            request_hash: [6; 32],
            protocol_version: 2,
            accepted: true,
            error: None,
            reserves_id: "res-2".to_string(),
        }),
        DepositsMessage::SyncResponse(SyncResponseMsg {
            ledger_id: [7; 32],
            request_hash: [8; 32],
            updates: vec![sample_update()],
            current_sequence: 3,
            content_hash: [9; 32],
        }),
        DepositsMessage::CoordinationResponse(CoordinationResponseMsg::AcceptReserves {
            channel_id: [10; 32],
        }),
        DepositsMessage::ReservesAddOutput(ReservesAddOutputMsg {
            initial_amount: 21_000,
            spend_to: test_pubkey(),
            reserves_id: "res-3".to_string(),
            quorum_members: vec![test_pubkey(), other_pubkey()],
        }),
        DepositsMessage::ReservesRemoveOutput(ReservesRemoveOutputMsg {
            reserves_id: "res-4".to_string(),
            remove_all: true,
        }),
    ]
}

#[test]
fn every_kind_roundtrips_in_both_encodings() {
    for msg in every_kind() {
        let binary = msg.encode();
        assert_eq!(&binary[..2], &msg.message_type().to_be_bytes());
        assert_eq!(DepositsMessage::decode(&binary).unwrap(), msg);
        let tlv = msg.tlv_encode();
        assert_eq!(DepositsMessage::tlv_decode(&tlv).unwrap(), msg);
    }
}

#[test]
fn decode_refuses_short_and_unknown_input() {
    assert_eq!(DepositsMessage::decode(&[0x80]), Err(CodecError::TooShort));
    assert_eq!(
        DepositsMessage::decode(&[0x12, 0x34, 0, 0]),
        Err(CodecError::InvalidMessageType(0x1234))
    );
}

#[test]
fn decode_ignores_trailing_bytes() {
    let msg = DepositsMessage::Sync(SyncMsg {
        ledger_id: [1; 32],
        last_known_sequence: 2,
        last_known_hash: [3; 32],
    });
    let mut bytes = msg.encode();
    bytes.extend_from_slice(&[0xFF, 0xFF]);
    assert_eq!(DepositsMessage::decode(&bytes).unwrap(), msg);
    assert_eq!(msg.message_type(), SYNC);
}

#[test]
fn tlv_decode_names_unknown_type_in_uppercase_hex() {
    let mut stream = deposits_protocol::tlv::TlvBuilder::new()
        .u16_field(0, 0xabcd)
        .bytes_field(2, &[])
        .build();
    match DepositsMessage::tlv_decode(&stream) {
        Err(TlvError::InvalidFieldValue { field_type, reason }) => {
            assert_eq!(field_type, 0);
            assert_eq!(reason, "unknown message type: 0xABCD");
        }
        other => panic!("unexpected {:?}", other),
    }
    stream = deposits_protocol::tlv::TlvBuilder::new().u16_field(0, SYNC).build();
    assert_eq!(
        DepositsMessage::tlv_decode(&stream),
        Err(TlvError::MissingRequiredField { field_type: 2 })
    );
}

#[test]
fn message_accessors() {
    let update = DepositsMessage::LedgerUpdate(LedgerUpdateMsg {
        operator_id: test_pubkey(),
        reserves_id: "res".to_string(),
        operation: LedgerOperation::LedgerClose,
        sequence_number: 4,
        previous_hash: [0; 32],
        content_hash: [1; 32],
        operator_signature: [2; 64],
    });
    assert_eq!(update.variant_name(), "LedgerUpdate");
    assert_eq!(update.reserves_id(), Some("res".to_string()));
    assert_eq!(update.to_operation(), Some(LedgerOperation::LedgerClose));
    let sync = DepositsMessage::Sync(SyncMsg {
        ledger_id: [0; 32],
        last_known_sequence: 0,
        last_known_hash: [0; 32],
    });
    assert_eq!(sync.variant_name(), "Sync");
    assert_eq!(sync.reserves_id(), None);
    assert_eq!(sync.to_operation(), None);
    let kinds: Vec<&str> = every_kind().iter().map(|m| m.variant_name()).collect();
    assert_eq!(
        kinds,
        vec![
            "LedgerUpdateResponse",
            "HandshakeResponse",
            "SyncResponse",
            "CoordinationResponse",
            "ReservesAddOutput",
            "ReservesRemoveOutput"
        ]
    );
    assert_eq!(every_kind()[4].message_type(), RESERVES_ADD_OUTPUT);
    assert_eq!(every_kind()[4].reserves_id(), Some("res-3".to_string()));
    assert_eq!(every_kind()[3].reserves_id(), None);
    assert_eq!(HANDSHAKE & 1, 1);
    assert_eq!(COORDINATION & 1, 1);
}

#[test]
fn add_output_members_decode_in_chunks() {
    let msg = ReservesAddOutputMsg {
        initial_amount: 5,
        spend_to: test_pubkey(),
        reserves_id: "r".to_string(),
        quorum_members: vec![other_pubkey()],
    };
    let bytes = msg.tlv_encode();
    assert_eq!(ReservesAddOutputMsg::tlv_decode(&bytes).unwrap(), msg);
    // A partial trailing chunk is no key.
    let mut members = other_pubkey().serialize().to_vec();
    members.extend_from_slice(&[2, 3]);
    let bad = deposits_protocol::tlv::TlvBuilder::new()
        .u64_field(0, 5)
        .pubkey_field(2, &test_pubkey())
        .string_field(4, "r")
        .bytes_field(6, &members)
        .build();
    match ReservesAddOutputMsg::tlv_decode(&bad) {
        Err(TlvError::InvalidFieldValue { field_type, reason }) => {
            assert_eq!(field_type, 6);
            assert_eq!(reason, "invalid pubkey: malformed public key");
        }
        other => panic!("unexpected {:?}", other),
    }
    let mut out = Vec::new();
    msg.write_to(&mut out).unwrap();
    let mut pos = 0usize;
    assert_eq!(ReservesAddOutputMsg::read_from(&out, &mut pos).unwrap(), msg);
    assert_eq!(pos, out.len());
}
