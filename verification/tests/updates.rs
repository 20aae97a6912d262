use bitcoin::secp256k1::{Secp256k1, SecretKey};
use deposits_protocol::error::DepositsError;
use deposits_protocol::pubkey::PublicKey;
use deposits_protocol::updates::{
    CosignEntry, LedgerUpdate, SignedLedgerUpdate, SignedLedgerUpdateLog,
};

fn test_pubkey() -> PublicKey {
    let secp = Secp256k1::new();
    let sk = SecretKey::from_slice(&[1u8; 32]).unwrap();
    let pk = bitcoin::secp256k1::PublicKey::from_secret_key(&secp, &sk);
    PublicKey::from_slice(&pk.serialize()).unwrap()
}

fn other_pubkey(b: u8) -> PublicKey {
    let secp = Secp256k1::new();
    let sk = SecretKey::from_slice(&[b; 32]).unwrap();
    let pk = bitcoin::secp256k1::PublicKey::from_secret_key(&secp, &sk);
    PublicKey::from_slice(&pk.serialize()).unwrap()
}

fn base_update() -> SignedLedgerUpdate {
    SignedLedgerUpdate {
        message: vec![1, 2, 3],
        message_type: 1,
        operator_id: test_pubkey(),
        ledger_id: [0x12; 32],
        sequence_number: 1,
        previous_hash: [0u8; 32],
        content_hash: [0u8; 32],
        block_height: 0,
        block_hash: [0u8; 32],
        cosign_signature: [0u8; 64],
        operator_signature: [0u8; 64],
        cosigner_pubkey: None,
        member_ledger_hash: None,
        cosignatures: Vec::new(),
    }
}

#[test]
fn test_signed_update_hash() {
    let update = base_update();
    let hash = update.compute_hash();
    assert_ne!(hash, [0u8; 32]);
}

#[test]
fn test_signed_update_signature_methods() {
    let mut update = base_update();

    let cosign_data = update.cosign_data();
    assert!(!cosign_data.is_empty());

    let operator_data = update.operator_signing_data();
    assert!(operator_data.len() > cosign_data.len());
    assert_eq!(operator_data.len(), cosign_data.len() + 64);

    assert!(!update.is_fully_signed());
    assert!(!update.has_cosign_signature());
    assert!(!update.has_operator_signature());

    update.cosign_signature = [0xaa; 64];
    assert!(update.has_cosign_signature());
    assert!(!update.is_fully_signed());

    update.operator_signature = [0xbb; 64];
    assert!(update.has_operator_signature());
    assert!(update.is_fully_signed());
}

#[test]
fn hash_changes_with_content() {
    let a = base_update();
    let mut b = base_update();
    b.message = vec![1, 2, 4];
    assert_ne!(a.compute_hash(), b.compute_hash());
    let mut c = base_update();
    c.content_hash = c.compute_hash();
    assert!(c.verify_hash());
    assert!(!a.verify_hash());
    assert_ne!(c.chain_hash(), c.content_hash);
    assert_eq!(c.ledger_id_hex(), "12".repeat(32));
}

#[test]
fn ledger_update_hash_covers_fields() {
    let u = LedgerUpdate {
        sequence_number: 5,
        message: vec![9, 9],
        previous_hash: [1; 32],
        consensus_hash: [0; 32],
    };
    let h = u.calculate_hash();
    let mut input = 5u64.to_le_bytes().to_vec();
    input.extend_from_slice(&[1; 32]);
    input.extend_from_slice(&[9, 9]);
    let expected = <sha2::Sha256 as sha2::Digest>::digest(&input);
    assert_eq!(h.as_slice(), expected.as_slice());
}

fn chained(prev: Option<&SignedLedgerUpdate>, seq: u64) -> SignedLedgerUpdate {
    let mut u = base_update();
    u.sequence_number = seq;
    u.message = vec![seq as u8];
    u.previous_hash = match prev {
        Some(p) => p.chain_hash(),
        None => [0u8; 32],
    };
    u.content_hash = u.compute_hash();
    u.operator_signature = [seq as u8 + 1; 64];
    u
}

#[test]
fn log_keeps_the_chain() {
    let mut log = SignedLedgerUpdateLog::new([0x34; 32]);
    assert!(log.is_empty());
    assert_eq!(log.tail_hash(), [0u8; 32]);
    assert_eq!(log.ledger_id_hex(), "34".repeat(32));
    let u0 = chained(None, 0);
    assert_eq!(log.add_update(u0.clone()), Ok(()));
    let u1 = chained(Some(&u0), 1);
    assert_eq!(log.add_update(u1.clone()), Ok(()));
    assert_eq!(log.len(), 2);
    assert_eq!(log.next_sequence, 2);
    assert_eq!(log.tail_hash(), u1.content_hash);
    assert_eq!(log.verify_chain(), Ok(()));
    let since = log.get_updates_since(0);
    assert_eq!(since, vec![u1.clone()]);
    assert_eq!(log.get_updates_since(5), Vec::<SignedLedgerUpdate>::new());

    let wrong_seq = chained(Some(&u1), 7);
    assert_eq!(
        log.add_update(wrong_seq),
        Err(DepositsError::InvalidState("Sequence mismatch: expected 2, got 7".to_string()))
    );
    let mut wrong_link = chained(Some(&u1), 2);
    wrong_link.previous_hash = [0xee; 32];
    let expected = format!(
        "Hash chain broken: expected {}, got {}",
        hex::encode(u1.chain_hash()),
        "ee".repeat(32)
    );
    assert_eq!(log.add_update(wrong_link), Err(DepositsError::InvalidState(expected)));
    assert_eq!(log.len(), 2);
}

#[test]
fn verify_chain_reports_first_break() {
    let u0 = chained(None, 0);
    let u1 = chained(Some(&u0), 1);
    let mut log = SignedLedgerUpdateLog::new([0; 32]);
    log.updates = vec![u0.clone(), u1.clone()];
    log.updates[1].sequence_number = 9;
    assert_eq!(
        log.verify_chain(),
        Err(DepositsError::InvalidState(
            "Sequence mismatch at index 1: expected 1, got 9".to_string()
        ))
    );
    log.updates = vec![u0.clone(), u1.clone()];
    log.updates[1].previous_hash = [1; 32];
    assert_eq!(
        log.verify_chain(),
        Err(DepositsError::InvalidState("Hash chain broken at index 1".to_string()))
    );
}

#[test]
fn cosignature_checks() {
    let mut u = base_update();
    assert_eq!(
        u.verify_cosign_signatures(&[], 1),
        Err("No cosignatures present".to_string())
    );
    let member = other_pubkey(2);
    u.cosignatures = vec![CosignEntry {
        cosigner_pubkey: member,
        cosign_signature: [0; 64],
        member_ledger_hash: [0; 32],
    }];
    assert_eq!(
        u.verify_cosign_signatures(&[member], 2),
        Err("Insufficient cosignatures: 1 of 2 required".to_string())
    );
    let prefix = hex::encode(&member.serialize()[..8]);
    assert_eq!(
        u.verify_cosign_signatures(&[], 1),
        Err(format!("Cosigner {} not in quorum", prefix))
    );
    assert_eq!(
        u.verify_cosign_signatures(&[member], 1),
        Err(format!(
            "Cosig verification failed for {}: signature failed verification",
            prefix
        ))
    );
    u.cosignatures.push(u.cosignatures[0].clone());
    assert_eq!(
        u.verify_cosign_signatures(&[member], 1),
        Err(format!(
            "Cosig verification failed for {}: signature failed verification",
            prefix
        ))
    );
}

#[test]
fn cosignature_order_does_not_change_hash() {
    let a = CosignEntry {
        cosigner_pubkey: other_pubkey(2),
        cosign_signature: [0x21; 64],
        member_ledger_hash: [0x31; 32],
    };
    let b = CosignEntry {
        cosigner_pubkey: other_pubkey(3),
        cosign_signature: [0x22; 64],
        member_ledger_hash: [0x32; 32],
    };
    let mut u1 = base_update();
    u1.cosignatures = vec![a.clone(), b.clone()];
    let mut u2 = base_update();
    u2.cosignatures = vec![b, a];
    assert_eq!(u1.compute_hash(), u2.compute_hash());
    assert_eq!(u1.operator_signing_data(), u2.operator_signing_data());
    assert_ne!(u1.compute_hash(), base_update().compute_hash());
}
