use deposits_protocol::text::{decimal, text_with_hex4, text_with_number, text_with_numbers};
use bitcoin::secp256k1::{Secp256k1, SecretKey};
use deposits_protocol::codec::CodecError;
use deposits_protocol::error::{DepositsError, DepositsResult, HandlerError};
use deposits_protocol::pubkey::PublicKey;
use deposits_protocol::tlv::TlvError;

#[test]
fn test_error_display() {
    let err = DepositsError::InsufficientReserves { required: 100000, available: 50000 };
    assert!(err.message().contains("100000"));
    assert!(err.message().contains("50000"));
}

#[test]
#[allow(clippy::unnecessary_literal_unwrap)]
fn test_result_type() {
    let ok: DepositsResult<u64> = Ok(42);
    assert_eq!(ok.unwrap(), 42);

    let err: DepositsResult<u64> = Err(DepositsError::DepositNotFound);
    assert!(err.is_err());
}

#[test]
fn deposits_error_texts() {
    assert_eq!(
        DepositsError::InsufficientReserves { required: 100000, available: 50000 }.message(),
        "Insufficient reserves: required 100000, available 50000"
    );
    assert_eq!(DepositsError::DepositNotFound.message(), "Deposit not found");
    assert_eq!(
        DepositsError::OutstandingInvoices { count: 3 }.message(),
        "Deposit has 3 outstanding invoices"
    );
    assert_eq!(
        DepositsError::ProtocolViolation { violation_type: "a".to_string(), details: "b".to_string() }
            .message(),
        "Protocol violation: a - b"
    );
    assert_eq!(
        DepositsError::InsufficientBondRatio { n: 3, actual: 10, required: 20, numerator: 1, denominator: 2 }
            .message(),
        "Insufficient bond at N=3: bond 10 sats < required 20 sats (1/2 of disputed value)"
    );
    assert_eq!(DepositsError::InvalidState("x".to_string()).message(), "Invalid state: x");
}

#[test]
fn tlv_and_codec_error_texts() {
    assert_eq!(TlvError::UnexpectedEof.message(), "unexpected end of TLV data");
    assert_eq!(
        TlvError::MissingRequiredField { field_type: 7 }.message(),
        "missing required TLV field type 7"
    );
    assert_eq!(
        TlvError::InvalidFieldValue { field_type: 2, reason: "bad".to_string() }.message(),
        "invalid value for TLV field 2: bad"
    );
    assert_eq!(TlvError::NonCanonicalOrder { field_type: 4 }.message(), "TLV field 4 not in canonical order");
    assert_eq!(CodecError::TooShort.message(), "buffer too short");
    assert_eq!(CodecError::InvalidMessageType(0x80ab).message(), "invalid message type: 0x80AB");
    assert_eq!(CodecError::InvalidDiscriminant(9).message(), "invalid discriminant: 9");
}

#[test]
fn handler_error_texts() {
    let secp = Secp256k1::new();
    let sk = SecretKey::from_slice(&[1u8; 32]).unwrap();
    let pk = bitcoin::secp256k1::PublicKey::from_secret_key(&secp, &sk);
    let ours = PublicKey::from_slice(&pk.serialize()).unwrap();
    let e = HandlerError::LedgerNotFound { operator: ours, reserves_id: "r1".to_string() };
    assert_eq!(e.message(), format!("ledger not found: operator={}, reserves_id=r1", pk));
    assert_eq!(HandlerError::Internal("boom".to_string()).message(), "internal error: boom");
    assert_eq!(
        HandlerError::ValidationFailed("v".to_string()).message(),
        "validation failed: v"
    );
}

#[test]
fn numbers_render_in_decimal_and_hex() {
    assert_eq!(decimal(0), "0");
    assert_eq!(decimal(10), "10");
    assert_eq!(decimal(u64::MAX), "18446744073709551615");
    assert_eq!(text_with_number("seq ", 42, "!"), "seq 42!");
    assert_eq!(text_with_numbers("a", 1, "b", 907), "a1b907");
    assert_eq!(text_with_hex4("0x", 0x80F1), "0x80F1");
    assert_eq!(text_with_hex4("", 0x000a), "000A");
}
