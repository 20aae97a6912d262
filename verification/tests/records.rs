use bitcoin::secp256k1::{Message, Secp256k1, SecretKey};
use deposits_protocol::deposit_records::{DEPOSIT_OPENED_AT_BLOCK, DEPOSIT_RECEIVE_REQUIRES_SIG, DEPOSIT_TRANSFER_FEES};
use deposits_protocol::pubkey::PublicKey;
use deposits_protocol::quorum::ReservesOutput;
use deposits_protocol::signature::EcdsaSignature;
use deposits_protocol::tlv::{
    decode_signature, encode_signature, TlvBuilder, TlvDecode, TlvEncode, TlvError, TlvReader,
};
use deposits_protocol::types::{
    compute_deposit_id, Deposit, FeeStructure, Invoice, PendingInvoice, TransferFeeSchedule,
};

fn secp_key() -> bitcoin::secp256k1::PublicKey {
    let secp = Secp256k1::new();
    let sk = SecretKey::from_slice(&[1u8; 32]).unwrap();
    bitcoin::secp256k1::PublicKey::from_secret_key(&secp, &sk)
}

fn test_pubkey() -> PublicKey {
    PublicKey::from_slice(&secp_key().serialize()).unwrap()
}

fn descriptor() -> String {
    format!("pk({})", hex::encode(secp_key().serialize()))
}

fn sample_deposit() -> Deposit {
    let descriptor = descriptor();
    let deposit_id = compute_deposit_id(&descriptor);
    Deposit {
        deposit_id,
        descriptor,
        balance: 1_000_000,
        locked_balance: 50_000,
        invoices: vec![Invoice {
            id: "inv1".to_string(),
            payment_hash: [0x11; 32],
            amount: 10_000,
            expires: 1700000000,
            assigned_deposit: deposit_id,
            bolt11: "lnbc10n1...".to_string(),
        }],
        fees: FeeStructure::new(100, 25, 2016),
        last_fee_assessment: 800_000,
        transfer_fees: TransferFeeSchedule::default(),
        receive_requires_sig: false,
        fee_change_after_blocks: Some(52560),
        fee_change_notice_blocks: Some(2016),
        fee_change_limit_bps: Some(1000),
        opened_at_block: 100,
        pending_fee_change: None,
    }
}

#[test]
fn test_invoice_tlv_roundtrip() {
    let deposit_id = compute_deposit_id(&descriptor());
    let original = Invoice {
        id: "test-invoice-123".to_string(),
        payment_hash: [0xab; 32],
        amount: 100_000,
        expires: 1700000000,
        assigned_deposit: deposit_id,
        bolt11: "lnbc100n1...".to_string(),
    };
    let encoded = original.tlv_encode();
    let decoded = Invoice::tlv_decode(&encoded).unwrap();
    assert_eq!(original, decoded);
}

#[test]
fn test_pending_invoice_tlv_roundtrip() {
    let deposit_id = compute_deposit_id(&descriptor());
    let original = PendingInvoice {
        amount: 50_000,
        payment_hash: [0xcd; 32],
        expires: 1700001000,
        assigned_deposit: deposit_id,
        invoice_id: "pending-456".to_string(),
        bolt11: "lnbc1...".to_string(),
    };
    let encoded = original.tlv_encode();
    let decoded = PendingInvoice::tlv_decode(&encoded).unwrap();
    assert_eq!(original, decoded);
}

#[test]
fn test_deposit_tlv_roundtrip() {
    let original = sample_deposit();
    let encoded = original.tlv_encode();
    let decoded = Deposit::tlv_decode(&encoded).unwrap();
    assert_eq!(original, decoded);
}

#[test]
fn test_reserves_output_tlv_roundtrip() {
    let original = ReservesOutput { channel_id: [0x42; 32], amount: 5_000_000, spend_to: test_pubkey() };
    let encoded = original.tlv_encode();
    let decoded = ReservesOutput::tlv_decode(&encoded).unwrap();
    assert_eq!(original, decoded);
}

#[test]
fn deposit_decode_fills_absent_fields_with_defaults() {
    let mut original = sample_deposit();
    original.pending_fee_change = Some((FeeStructure::new(1, 2, 3), 7));
    original.transfer_fees = TransferFeeSchedule::new(9, 9);
    original.receive_requires_sig = true;
    let encoded = original.tlv_encode();
    // The pending fee change is not encoded.
    let decoded = Deposit::tlv_decode(&encoded).unwrap();
    assert_eq!(decoded.pending_fee_change, None);
    assert_eq!(decoded.transfer_fees, TransferFeeSchedule::new(9, 9));
    assert!(decoded.receive_requires_sig);
    // Drop the transfer fees, the flag and the opening block.
    let mut stream = deposits_protocol::tlv::TlvStream::decode(&encoded).unwrap();
    stream.take(DEPOSIT_TRANSFER_FEES);
    stream.take(DEPOSIT_RECEIVE_REQUIRES_SIG);
    stream.take(DEPOSIT_OPENED_AT_BLOCK);
    let trimmed = stream.encode();
    let decoded = Deposit::tlv_decode(&trimmed).unwrap();
    assert_eq!(decoded.transfer_fees, TransferFeeSchedule::default());
    assert!(!decoded.receive_requires_sig);
    assert_eq!(decoded.opened_at_block, 0);
    assert_eq!(decoded.invoices, original.invoices);
}

#[test]
fn deposit_decode_requires_fees() {
    let encoded = sample_deposit().tlv_encode();
    let mut stream = deposits_protocol::tlv::TlvStream::decode(&encoded).unwrap();
    stream.take(8);
    assert_eq!(
        Deposit::tlv_decode(&stream.encode()),
        Err(TlvError::MissingRequiredField { field_type: 8 })
    );
}

#[test]
fn signature_fields_roundtrip() {
    let secp = Secp256k1::new();
    let sk = SecretKey::from_slice(&[3u8; 32]).unwrap();
    let msg = Message::from_digest([5u8; 32]);
    let sig = secp.sign_ecdsa(&msg, &sk).serialize_compact();
    let ours = EcdsaSignature::from_compact(&sig).unwrap();
    assert_eq!(ours.serialize_compact(), sig);
    assert_eq!(encode_signature(&ours), sig.to_vec());
    assert_eq!(decode_signature(&sig).unwrap(), ours);
    let bytes = TlvBuilder::new().signature_field(4, &ours).build();
    let reader = TlvReader::new(&bytes).unwrap();
    assert_eq!(reader.read_signature(4).unwrap(), ours);
    assert_eq!(reader.read_signature_opt(4).unwrap(), Some(ours));
    assert_eq!(reader.read_signature_opt(6).unwrap(), None);
    assert_eq!(reader.read_signature(6), Err(TlvError::MissingRequiredField { field_type: 6 }));
}

#[test]
fn signature_decoding_refuses_overflow_and_bad_length() {
    for bad in [vec![0xFFu8; 64], vec![1u8; 63]] {
        match decode_signature(&bad) {
            Err(TlvError::InvalidFieldValue { field_type, reason }) => {
                assert_eq!(field_type, 0);
                assert_eq!(reason, "invalid signature: malformed signature");
            }
            other => panic!("unexpected {:?}", other),
        }
    }
}

#[test]
fn deposit_info_summarizes_a_deposit() {
    let d = sample_deposit();
    let info = deposits_protocol::reports::DepositInfo::from_deposit(&d);
    assert_eq!(info.deposit_id, hex::encode(d.deposit_id));
    assert_eq!(info.descriptor, d.descriptor);
    assert_eq!(info.balance, 1_000_000);
    assert_eq!(info.locked_balance, 50_000);
    assert_eq!(info.invoice_count, 1);
    assert_eq!(info.fees, d.fees);
}
