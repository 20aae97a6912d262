use bitcoin::secp256k1::{Secp256k1, SecretKey};
use deposits_protocol::pubkey::PublicKey;
use deposits_protocol::signing::{
    compute_transfer_id, invoice_lock_signing_message, transfer_lock_signing_message,
    withdrawal_signing_message,
};
use deposits_protocol::types::{compute_deposit_id, DescriptorWitness};
use deposits_protocol::withdrawal::{DepositOffer, OnChainWithdrawal};
use sha2::{Digest, Sha256};

fn key() -> PublicKey {
    let secp = Secp256k1::new();
    let sk = SecretKey::from_slice(&[1u8; 32]).unwrap();
    let pk = bitcoin::secp256k1::PublicKey::from_secret_key(&secp, &sk);
    PublicKey::from_slice(&pk.serialize()).unwrap()
}

fn sha(data: &[u8]) -> [u8; 32] {
    let mut h = Sha256::new();
    h.update(data);
    h.finalize().into()
}

fn withdrawal() -> OnChainWithdrawal {
    OnChainWithdrawal {
        withdrawal_id: [0x5a; 32],
        nonce: [0x01; 32],
        deposit_id: compute_deposit_id("pk(a)"),
        destination_address: "bc1qxyz".to_string(),
        amount_sats: 25_000,
        fee_sats: 300,
        requested_at_block: 800_000,
        memo: None,
        depositor_witness: DescriptorWitness::new(),
    }
}

#[test]
fn test_transfer_lock_signing_message() {
    let nonce = [0x01u8; 32];
    let source_id = compute_deposit_id("pk(source)");
    let dest_id = compute_deposit_id("pk(dest)");
    let amount = 100_000u64;
    let fee = 1_000u64;
    let completion_script = "sha256(0123456789abcdef0123456789abcdef0123456789abcdef0123456789abcdef)";
    let timeout_height = 850_000u32;
    let msg1 = transfer_lock_signing_message(&nonce, &source_id, &dest_id, amount, fee, completion_script, timeout_height);
    let msg2 = transfer_lock_signing_message(&nonce, &source_id, &dest_id, amount, fee, completion_script, timeout_height);
    assert_eq!(msg1, msg2, "Same inputs should produce same signing message");
    let different_nonce = [0x02u8; 32];
    let msg3 = transfer_lock_signing_message(&different_nonce, &source_id, &dest_id, amount, fee, completion_script, timeout_height);
    assert_ne!(msg1, msg3, "Different nonce should produce different message");
    let msg4 = transfer_lock_signing_message(&nonce, &source_id, &dest_id, amount + 1, fee, completion_script, timeout_height);
    assert_ne!(msg1, msg4, "Different amount should produce different message");
    let msg5 = transfer_lock_signing_message(&nonce, &source_id, &dest_id, amount, fee + 1, completion_script, timeout_height);
    assert_ne!(msg1, msg5, "Different fee should produce different message");
}

#[test]
fn test_compute_transfer_id() {
    let nonce = [0x42u8; 32];
    let source_id = compute_deposit_id("pk(alice)");
    let dest_id = compute_deposit_id("pk(bob)");
    let signing_msg = transfer_lock_signing_message(&nonce, &source_id, &dest_id, 50_000, 500, "sha256(deadbeef)", 900_000);
    let transfer_id = compute_transfer_id(&signing_msg);
    assert_eq!(transfer_id.len(), 32);
    let transfer_id2 = compute_transfer_id(&signing_msg);
    assert_eq!(transfer_id, transfer_id2);
    let different_signing_msg = transfer_lock_signing_message(&[0x43u8; 32], &source_id, &dest_id, 50_000, 500, "sha256(deadbeef)", 900_000);
    assert_ne!(transfer_id, compute_transfer_id(&different_signing_msg));
}

#[test]
fn transfer_lock_message_text() {
    let nonce = [0xabu8; 32];
    let src = [1u8; 16];
    let dst = [2u8; 16];
    let text = format!(
        "TRANSFER:{}:{}:{}:7:8:sha256(00):9",
        hex::encode(nonce),
        hex::encode(src),
        hex::encode(dst)
    );
    assert_eq!(transfer_lock_signing_message(&nonce, &src, &dst, 7, 8, "sha256(00)", 9), sha(text.as_bytes()));
    assert_eq!(compute_transfer_id(&[3u8; 32]), sha(&[3u8; 32]));
}

#[test]
fn invoice_lock_message_text() {
    let id = [0x11u8; 16];
    let hash = [0x22u8; 32];
    let text = format!("INVOICE:{}:{}:12345", hex::encode(id), hex::encode(hash));
    assert_eq!(invoice_lock_signing_message(&id, &hash, 12345), sha(text.as_bytes()));
}

#[test]
fn withdrawal_messages_and_tag() {
    let w = withdrawal();
    let expected = format!(
        "WITHDRAWAL:{}:{}:bc1qxyz:25000:300",
        hex::encode([0x01u8; 32]),
        hex::encode(w.deposit_id)
    );
    assert_eq!(w.get_signing_message(), expected);
    assert_eq!(OnChainWithdrawal::compute_withdrawal_id(&expected), sha(expected.as_bytes()));
    assert_eq!(
        withdrawal_signing_message(&w.nonce, &w.deposit_id, "bc1qxyz", 25_000, 300),
        sha(expected.as_bytes())
    );
    assert_eq!(w.total_debit(), 25_300);
    let mut big = withdrawal();
    big.amount_sats = u64::MAX;
    assert_eq!(big.total_debit(), u64::MAX);
    let tag = w.op_return_data();
    assert_eq!(&tag[..5], b"WDRL:");
    assert_eq!(&tag[5..], &[0x5a; 28]);
    assert!(w.verify_op_return(&tag));
    assert!(!w.verify_op_return(&tag[..32]));
    let mut wrong = tag;
    wrong[32] = 0;
    assert!(!w.verify_op_return(&wrong));
}

#[test]
fn deposit_offer_message_and_limits() {
    let offer = DepositOffer {
        operator_id: key(),
        ledger_id: "ab".repeat(32),
        deposit_id: compute_deposit_id("pk(a)"),
        descriptor: "pk(a)".to_string(),
        funding_address: "bc1qfund".to_string(),
        max_amount_sats: 100_000,
        min_amount_sats: 1_000,
        deadline_block: 850_000,
        created_at_block: 849_000,
        offer_id: [0; 32],
        operator_signature: [0; 64],
        fees: None,
        transfer_fees: None,
    };
    let expected = format!(
        "DEPOSIT_OFFER:{}:{}:{}:bc1qfund:100000:1000:850000",
        hex::encode(key().serialize()),
        "ab".repeat(32),
        hex::encode(offer.deposit_id)
    );
    assert_eq!(offer.get_signing_message(), expected);
    assert_eq!(DepositOffer::compute_offer_id(&expected), sha(expected.as_bytes()));
    assert!(!offer.is_expired(850_000));
    assert!(offer.is_expired(850_001));
    assert!(offer.is_amount_valid(1_000));
    assert!(offer.is_amount_valid(100_000));
    assert!(!offer.is_amount_valid(999));
    assert!(!offer.is_amount_valid(100_001));
}
