use deposits_protocol::messages::{
    is_deposits_message_type, DEPOSIT_KEY_ROTATE, QUORUM_BEGIN, QUORUM_JOIN, TRANSFER_COMPLETE,
    TRANSFER_FAIL, TRANSFER_LOCK,
};
use bitcoin::secp256k1::{Secp256k1, SecretKey};
use deposits_protocol::pubkey::PublicKey;
use deposits_protocol::tlv::{TlvDecode, TlvEncode};
use deposits_protocol::types::{Deposit, DisputeState, FeeStructure};

fn test_pubkey() -> PublicKey {
    let secp = Secp256k1::new();
    let sk = SecretKey::from_slice(&[1u8; 32]).unwrap();
    let pk = bitcoin::secp256k1::PublicKey::from_secret_key(&secp, &sk);
    PublicKey::from_slice(&pk.serialize()).unwrap()
}

#[test]
fn test_fee_calculation() {
    let fees = FeeStructure::new(52560, 100, 144);
    let fee = fees.calculate_fee(1_000_000, 52560);
    assert!(fee > 60000 && fee < 65000);
}

#[test]
fn test_deposit_operations() {
    let pk = test_pubkey();
    let mut deposit = Deposit::from_pubkey(&pk, None);
    deposit.credit(100_000);
    assert_eq!(deposit.balance, 100_000);
    deposit.lock(30_000).unwrap();
    assert_eq!(deposit.locked_balance, 30_000);
    assert_eq!(deposit.available_balance(), 70_000);
    assert!(deposit.lock(80_000).is_err());
    deposit.unlock(30_000);
    assert_eq!(deposit.locked_balance, 0);
    deposit.debit(50_000).unwrap();
    assert_eq!(deposit.balance, 50_000);
}

#[test]
fn test_fee_structure_tlv_roundtrip() {
    let original = FeeStructure::new(1000, 50, 144);
    let encoded = original.tlv_encode();
    let decoded = FeeStructure::tlv_decode(&encoded).unwrap();
    assert_eq!(original, decoded);
}

#[test]
fn test_dispute_state_allows_operations() {
    assert!(DisputeState::Normal.allows_operations());
    assert!(DisputeState::Normal.allows_operation(10));
    assert!(!DisputeState::Normal.allows_operation(55));
    assert!(!DisputeState::Normal.allows_operation(56));
    assert!(!DisputeState::Normal.allows_operation(57));

    assert!(DisputeState::Disputed.allows_operations());
    assert!(DisputeState::Disputed.allows_operation(43));
    assert!(DisputeState::Disputed.allows_operation(57));
    assert!(!DisputeState::Disputed.allows_operation(10));
    assert!(!DisputeState::Disputed.allows_operation(55));

    assert!(DisputeState::Armed.allows_operations());
    assert!(DisputeState::Armed.allows_operation(55));
    assert!(DisputeState::Armed.allows_operation(56));
    assert!(!DisputeState::Armed.allows_operation(43));
    assert!(!DisputeState::Armed.allows_operation(57));

    assert!(!DisputeState::Tombstoned.allows_operations());
    assert!(!DisputeState::Tombstoned.allows_operation(55));
    assert!(!DisputeState::Tombstoned.allows_operation(56));
}

#[test]
fn collect_fees_spares_the_locked_balance() {
    let mut deposit = Deposit::new("pk(x)".to_string(), Some(FeeStructure::new(0, 1000, 10)));
    let funds: u64 = 100_000_000;
    deposit.credit(funds);
    let due = deposit.calculate_fees_due(20);
    assert!(due > 0);
    // Lock all but less than the fee: nothing is collected.
    deposit.lock(funds - due + 1).unwrap();
    let before = deposit.clone();
    assert_eq!(deposit.collect_fees(20), due);
    assert_eq!(deposit, before);
    // With the locked part small enough, the fee is collected.
    deposit.unlock(funds - due + 1);
    deposit.lock(10).unwrap();
    assert_eq!(deposit.collect_fees(20), due);
    assert_eq!(deposit.balance, funds - due);
    assert_eq!(deposit.last_fee_assessment, 20);
    assert!(deposit.locked_balance <= deposit.balance);
}

#[test]
fn every_operation_type_is_a_protocol_type() {
    for t in [TRANSFER_LOCK, TRANSFER_COMPLETE, TRANSFER_FAIL, QUORUM_BEGIN, QUORUM_JOIN, DEPOSIT_KEY_ROTATE] {
        assert!(is_deposits_message_type(t));
    }
    assert!(!is_deposits_message_type(0x0001));
}

#[test]
fn default_parent_pubkey_is_the_generator() {
    let g = deposits_protocol::types::default_parent_pubkey().unwrap();
    assert_eq!(
        deposits_protocol::crypto::hex_encode(&g.serialize()),
        "0279be667ef9dcbbac55a06295ce870b07029bfcdb2dce28d959f2815b16f81798"
    );
}
