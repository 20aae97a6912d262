use bitcoin::secp256k1::{Secp256k1, SecretKey};
use deposits_protocol::coordination::CoordinationMsg;
use deposits_protocol::operation_binary::BinaryCodec;
use deposits_protocol::pubkey::PublicKey;
use deposits_protocol::tlv::{TlvDecode, TlvEncode, TlvError};

fn secp_key() -> bitcoin::secp256k1::PublicKey {
    let secp = Secp256k1::new();
    let sk = SecretKey::from_slice(&[1u8; 32]).unwrap();
    bitcoin::secp256k1::PublicKey::from_secret_key(&secp, &sk)
}

fn test_pubkey() -> PublicKey {
    PublicKey::from_slice(&secp_key().serialize()).unwrap()
}

fn sample_messages() -> Vec<CoordinationMsg> {
    vec![
        CoordinationMsg::CosignInvoice {
            operator_id: test_pubkey(),
            reserves_id: secp_key().to_string(),
            amount: 100000,
            payment_hash: [0xAA; 32],
            expires: 1234567890,
            assigned_deposit: test_pubkey(),
            invoice_id: "inv123".to_string(),
            bolt11_invoice: "lnbc100...".to_string(),
        },
        CoordinationMsg::CollateralConsentRequest {
            operator_id: test_pubkey(),
            reserves_id: secp_key().to_string(),
            operator_signature: [0xBB; 64],
        },
        CoordinationMsg::QuorumVoteRequest {
            vote_round_id: [0xCC; 32],
            operator_id: test_pubkey(),
            reserves_id: secp_key().to_string(),
            sequence_number: 50,
            state_hash: [0xDD; 32],
            claimed_reserves: 500000,
            collateral_amounts: vec![100000, 200000, 150000],
            reserves_outpoint: vec![0xEE; 36],
            destination_script: vec![0xFF; 25],
            fee_rate_sat_vbyte: 5,
            timestamp: 1234567890,
        },
    ]
}

fn more_messages() -> Vec<CoordinationMsg> {
    vec![
        CoordinationMsg::QuorumJoinRequest {
            requester_pubkey: test_pubkey(),
            operator_id: test_pubkey(),
            reserves_id: "res".to_string(),
            protocol_version: 3,
            timestamp: 77,
            signature: [1; 64],
            compensation_bps: Some(25),
            compensation_deposit_id: Some([4; 16]),
            compensation_frequency_blocks: None,
        },
        CoordinationMsg::QuorumVote {
            vote_round_id: [2; 32],
            voter_pubkey: test_pubkey(),
            vote: true,
            voter_sequence: 9,
            voter_state_hash: [3; 32],
            evidence: Some(vec![5, 6, 7]),
            signature: [8; 64],
            spend_signature: None,
        },
        CoordinationMsg::UpdateReserves {
            channel_id: [9; 32],
            reserves_sats: 1000,
            script_pubkey: vec![0x51],
            ledger_hash: [10; 32],
            remote_ledger_hash: [11; 32],
        },
    ]
}

#[test]
fn test_coordination_msg_tlv_roundtrip() {
    for msg in sample_messages() {
        let encoded = msg.tlv_encode();
        let decoded = CoordinationMsg::tlv_decode(&encoded).unwrap();
        assert_eq!(msg, decoded);
    }
}

#[test]
fn coordination_tlv_and_binary_roundtrip_all_kinds() {
    for msg in sample_messages().into_iter().chain(more_messages()) {
        let decoded = CoordinationMsg::tlv_decode(&msg.tlv_encode()).unwrap();
        assert_eq!(msg, decoded);
        let mut bytes = Vec::new();
        msg.write_to(&mut bytes).unwrap();
        let mut pos = 0usize;
        let back = CoordinationMsg::read_from(&bytes, &mut pos).unwrap();
        assert_eq!(msg, back);
        assert_eq!(pos, bytes.len());
    }
}

#[test]
fn coordination_encodings_start_with_kind() {
    let msg = &more_messages()[2];
    let mut bytes = Vec::new();
    msg.write_to(&mut bytes).unwrap();
    assert_eq!(bytes[0], 5);
    assert_eq!(bytes.len(), 1 + 32 + 8 + 4 + 1 + 32 + 32);
    let tlv = msg.tlv_encode();
    assert_eq!(&tlv[..3], &[0, 1, 5]);
}

#[test]
fn coordination_reserves_id() {
    let msgs = sample_messages();
    assert_eq!(msgs[0].reserves_id(), Some(secp_key().to_string()));
    assert_eq!(more_messages()[1].reserves_id(), None);
    assert_eq!(more_messages()[2].reserves_id(), None);
}

#[test]
fn coordination_unknown_kind_rejected() {
    let bad = [0u8, 1, 9];
    match CoordinationMsg::tlv_decode(&bad) {
        Err(TlvError::InvalidFieldValue { field_type, reason }) => {
            assert_eq!(field_type, 0);
            assert_eq!(reason, "unknown CoordinationMsg discriminant: 9");
        }
        other => panic!("unexpected {:?}", other),
    }
    let mut pos = 0usize;
    assert!(CoordinationMsg::read_from(&[6u8], &mut pos).is_err());
}
