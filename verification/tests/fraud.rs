use std::collections::HashMap;

use bitcoin::secp256k1::{Secp256k1, SecretKey};
use deposits_protocol::fraud::{
    verify_fraud_broadcast, verify_quorum_expired, verify_stale_cosignature, verify_uncredited_onchain,
    quorum_expired_verdict_for, BlockOracle, CausalLink, FraudBroadcast, FraudEvidence,
    FraudProof, FraudProofType, LedgerProvider, ProofEmbedding, KIND_FRAUD_PROOF,
};
use deposits_protocol::operation::LedgerOperation;
use deposits_protocol::pubkey::PublicKey;
use deposits_protocol::tlv::TlvEncode;
use deposits_protocol::updates::SignedLedgerUpdate;

fn make_proof() -> FraudProof {
    FraudProof {
        proof_type: FraudProofType::UncreditedOnchainPayment,
        accused: "02".to_string() + &"ab".repeat(32),
        ledger_id: "aa".repeat(32),
        evidence: FraudEvidence::UncreditedOnchain {
            offer_id: "bb".repeat(16),
            funding_address: "bcrt1qtest".to_string(),
            accused_operator_pubkey: "02".to_string() + &"ab".repeat(32),
            deadline_block: 600,
            cosigner_pubkey: "02".to_string() + &"cc".repeat(32),
            cosigner_ledger_hash: "00".repeat(32),
            cosign_signature: "dd".repeat(32),
            txid: "ee".repeat(32),
            vout: 0,
            amount_sats: 100_000,
            confirmed_at_block_hash: [0xAA; 32],
            required_confirmations: 6,
            proof_sequence: 42,
        },
    }
}

fn test_pubkey() -> PublicKey {
    let secp = Secp256k1::new();
    let sk = SecretKey::from_slice(&[7u8; 32]).unwrap();
    let pk = bitcoin::secp256k1::PublicKey::from_secret_key(&secp, &sk);
    PublicKey::from_slice(&pk.serialize()).unwrap()
}

fn update_with(sequence_number: u64, message: Vec<u8>) -> SignedLedgerUpdate {
    SignedLedgerUpdate {
        message,
        message_type: 0,
        operator_id: test_pubkey(),
        ledger_id: [0x12; 32],
        sequence_number,
        previous_hash: [0u8; 32],
        content_hash: [0u8; 32],
        block_height: 0,
        block_hash: [0u8; 32],
        cosign_signature: [0u8; 64],
        operator_signature: [0u8; 64],
        cosigner_pubkey: None,
        member_ledger_hash: None,
        cosignatures: Vec::new(),
    }
}

fn quorum_begin(expiry: u32) -> Vec<u8> {
    LedgerOperation::QuorumBegin {
        reserves_id: "r".to_string(),
        spending_txid: [1; 32],
        new_outpoint_txid: [2; 32],
        new_outpoint_vout: 0,
        amount: 1000,
        quorum_expiry: expiry,
        ledger_hash: [3; 32],
        quorum_members: Vec::new(),
        collateral_amount: 0,
    }
    .tlv_encode()
}

struct Chain(HashMap<[u8; 32], u32>);

impl BlockOracle for Chain {
    // The specification hook of `confirms`, read by Verus and never called.
    fn confirmed_height(&self, _block_hash: vstd::seq::Seq<u8>) -> Option<u32> {
        None
    }

    fn confirms(&self, block_hash: &[u8; 32]) -> Option<u32> {
        self.0.get(block_hash).copied()
    }
}

struct Ledgers(HashMap<String, Vec<SignedLedgerUpdate>>);

impl LedgerProvider for Ledgers {
    // The specification hook of `ledger_history`, read by Verus and never called.
    fn history(&self, _ledger_id: vstd::seq::Seq<char>) -> Option<vstd::seq::Seq<SignedLedgerUpdate>> {
        None
    }

    fn ledger_history(&self, ledger_id: &str) -> Option<Vec<SignedLedgerUpdate>> {
        self.0.get(ledger_id).cloned()
    }
}

#[test]
fn proof_hash_is_deterministic() {
    let proof = make_proof();
    let h1 = proof.proof_hash();
    let h2 = proof.proof_hash();
    assert_eq!(h1, h2);
    assert_ne!(h1, [0u8; 32]);
}

#[test]
fn different_evidence_different_hash() {
    let mut p1 = make_proof();
    let p2 = make_proof();
    if let FraudEvidence::UncreditedOnchain { ref mut amount_sats, .. } = p1.evidence {
        *amount_sats = 200_000;
    }
    assert_ne!(p1.proof_hash(), p2.proof_hash());
}

#[test]
fn direct_embedding_empty_chain_valid() {
    let proof = make_proof();
    let broadcast = FraudBroadcast {
        embedding: ProofEmbedding {
            ledger_id: proof.ledger_id.clone(),
            sequence: 50,
            update_hash: "ff".repeat(32),
            field: "transfer_nonce".to_string(),
        },
        causal_chain: vec![],
        proof,
    };
    assert!(broadcast.verify_chain_structure().is_ok());
}

#[test]
fn one_hop_chain_valid() {
    let proof = make_proof();
    let member_ledger = "11".repeat(32);
    let broadcast = FraudBroadcast {
        embedding: ProofEmbedding {
            ledger_id: member_ledger.clone(),
            sequence: 10,
            update_hash: "22".repeat(32),
            field: "transfer_nonce".to_string(),
        },
        causal_chain: vec![CausalLink {
            ledger_id: proof.ledger_id.clone(),
            sequence: 55,
            update_hash: "33".repeat(32),
            member_ledger_hash: "44".repeat(32),
            source_ledger_id: member_ledger.clone(),
        }],
        proof,
    };
    assert!(broadcast.verify_chain_structure().is_ok());
}

#[test]
fn indirect_embedding_missing_chain_rejected() {
    let proof = make_proof();
    let broadcast = FraudBroadcast {
        embedding: ProofEmbedding {
            ledger_id: "11".repeat(32),
            sequence: 10,
            update_hash: "22".repeat(32),
            field: "transfer_nonce".to_string(),
        },
        causal_chain: vec![],
        proof,
    };
    assert!(broadcast.verify_chain_structure().is_err());
}

#[test]
fn chain_not_reaching_accused_rejected() {
    let proof = make_proof();
    let broadcast = FraudBroadcast {
        embedding: ProofEmbedding {
            ledger_id: "11".repeat(32),
            sequence: 10,
            update_hash: "22".repeat(32),
            field: "transfer_nonce".to_string(),
        },
        causal_chain: vec![CausalLink {
            ledger_id: "99".repeat(32),
            sequence: 55,
            update_hash: "33".repeat(32),
            member_ledger_hash: "44".repeat(32),
            source_ledger_id: "11".repeat(32),
        }],
        proof,
    };
    assert!(broadcast.verify_chain_structure().is_err());
}

#[test]
fn two_hop_chain_valid() {
    let proof = make_proof();
    let ledger_a = "11".repeat(32);
    let ledger_b = "22".repeat(32);
    let broadcast = FraudBroadcast {
        embedding: ProofEmbedding {
            ledger_id: ledger_a.clone(),
            sequence: 10,
            update_hash: "ff".repeat(32),
            field: "transfer_nonce".to_string(),
        },
        causal_chain: vec![
            CausalLink {
                ledger_id: ledger_b.clone(),
                sequence: 20,
                update_hash: "ee".repeat(32),
                member_ledger_hash: "dd".repeat(32),
                source_ledger_id: ledger_a.clone(),
            },
            CausalLink {
                ledger_id: proof.ledger_id.clone(),
                sequence: 30,
                update_hash: "cc".repeat(32),
                member_ledger_hash: "bb".repeat(32),
                source_ledger_id: ledger_b.clone(),
            },
        ],
        proof,
    };
    assert!(broadcast.verify_chain_structure().is_ok());
}

#[test]
fn chain_structure_error_texts() {
    let proof = make_proof();
    let direct = FraudBroadcast {
        embedding: ProofEmbedding {
            ledger_id: proof.ledger_id.clone(),
            sequence: 1,
            update_hash: String::new(),
            field: String::new(),
        },
        causal_chain: vec![CausalLink {
            ledger_id: "x".to_string(),
            sequence: 1,
            update_hash: String::new(),
            member_ledger_hash: String::new(),
            source_ledger_id: "y".to_string(),
        }],
        proof: proof.clone(),
    };
    assert_eq!(
        direct.verify_chain_structure(),
        Err("Direct embedding should have empty causal chain".to_string())
    );
    let broken = FraudBroadcast {
        embedding: ProofEmbedding {
            ledger_id: "e".to_string(),
            sequence: 1,
            update_hash: String::new(),
            field: String::new(),
        },
        causal_chain: vec![
            CausalLink {
                ledger_id: "b".to_string(),
                sequence: 1,
                update_hash: String::new(),
                member_ledger_hash: String::new(),
                source_ledger_id: "e".to_string(),
            },
            CausalLink {
                ledger_id: proof.ledger_id.clone(),
                sequence: 2,
                update_hash: String::new(),
                member_ledger_hash: String::new(),
                source_ledger_id: "c".to_string(),
            },
        ],
        proof: proof.clone(),
    };
    assert_eq!(
        broken.verify_chain_structure(),
        Err("Causal link 1 source c doesn't match previous link ledger b".to_string())
    );
    let wrong_first = FraudBroadcast {
        embedding: ProofEmbedding {
            ledger_id: "e".to_string(),
            sequence: 1,
            update_hash: String::new(),
            field: String::new(),
        },
        causal_chain: vec![CausalLink {
            ledger_id: proof.ledger_id.clone(),
            sequence: 1,
            update_hash: String::new(),
            member_ledger_hash: String::new(),
            source_ledger_id: "z".to_string(),
        }],
        proof,
    };
    assert_eq!(
        wrong_first.verify_chain_structure(),
        Err("First causal link source z doesn't match embedding ledger e".to_string())
    );
}

#[test]
fn kinds_and_embedding() {
    assert!(FraudProofType::QuorumExpired.is_respectful());
    assert!(!FraudProofType::StaleCosignature.is_respectful());
    assert_eq!(FraudProofType::WinnerCollateralDeviation.discriminant(), 7);
    assert_eq!(FraudProofType::UncreditedOnchainPayment.discriminant(), 1);
    assert_eq!(KIND_FRAUD_PROOF, 9101);
    let proof = make_proof();
    let h = proof.proof_hash();
    assert!(proof.verify_embedding(&h));
    assert!(!proof.verify_embedding(&[0u8; 32]));
    let ev = FraudEvidence::QuorumExpired { anchor_block_hash: [9; 32], quorum_expiry: 0x01020304 };
    let mut expected = vec![9u8; 32];
    expected.extend_from_slice(&[4, 3, 2, 1]);
    assert_eq!(ev.canonical_bytes(), expected);
}

#[test]
fn embedding_found_in_history() {
    let nonce = [0x5a; 32];
    let op = LedgerOperation::DeliveryEmbed {
        request_hash: nonce,
        target_ledger_id: [1; 32],
        target_operator: test_pubkey(),
    };
    let history = vec![update_with(3, vec![1, 2]), update_with(4, op.tlv_encode())];
    let embedding = ProofEmbedding {
        ledger_id: "l".to_string(),
        sequence: 4,
        update_hash: String::new(),
        field: "request_hash".to_string(),
    };
    assert!(embedding.verify_in_history(&history, &nonce));
    assert!(!embedding.verify_in_history(&history, &[0u8; 32]));
    let elsewhere = ProofEmbedding { sequence: 3, ..embedding };
    assert!(!elsewhere.verify_in_history(&history, &nonce));
}

#[test]
fn stale_cosignature_parse_errors() {
    let mut proof = make_proof();
    assert_eq!(
        verify_stale_cosignature(&proof, &[], &[]),
        Err("verify_stale_cosignature: wrong evidence type".to_string())
    );
    proof.evidence = FraudEvidence::StaleCosign {
        stale_update_sequence: 1,
        stale_update_hash: "abc".to_string(),
        declared_member_hash: "00".repeat(32),
        member_later_sequence: 2,
        member_later_hash: "00".repeat(32),
        member_ledger_id: "m".to_string(),
    };
    assert_eq!(
        verify_stale_cosignature(&proof, &[], &[]),
        Err("stale_update_hash: Odd number of digits".to_string())
    );
    proof.evidence = FraudEvidence::StaleCosign {
        stale_update_sequence: 1,
        stale_update_hash: "00".repeat(16),
        declared_member_hash: "00".repeat(32),
        member_later_sequence: 2,
        member_later_hash: "00".repeat(32),
        member_ledger_id: "m".to_string(),
    };
    assert_eq!(
        verify_stale_cosignature(&proof, &[], &[]),
        Err("stale_update_hash: expected 32 bytes".to_string())
    );
    proof.evidence = FraudEvidence::StaleCosign {
        stale_update_sequence: 1,
        stale_update_hash: "00".repeat(32),
        declared_member_hash: "00".repeat(32),
        member_later_sequence: 2,
        member_later_hash: "00".repeat(32),
        member_ledger_id: "m".to_string(),
    };
    assert_eq!(
        verify_stale_cosignature(&proof, &[], &[]),
        Err("stale_update_sequence 1 not in accused history".to_string())
    );
}

#[test]
fn quorum_expired_claims() {
    let anchor = [0x77; 32];
    let proof = FraudProof {
        proof_type: FraudProofType::QuorumExpired,
        accused: "02".to_string(),
        ledger_id: "acc".to_string(),
        evidence: FraudEvidence::QuorumExpired { anchor_block_hash: anchor, quorum_expiry: 100 },
    };
    let history = vec![update_with(0, quorum_begin(50)), update_with(1, quorum_begin(100))];
    let mut heights = HashMap::new();
    heights.insert(anchor, 150u32);
    let chain = Chain(heights);
    assert_eq!(verify_quorum_expired(&proof, &history, &chain), Ok(()));
    assert_eq!(
        quorum_expired_verdict_for(&proof, &history, Some(100)),
        Err("anchor block at height 100 is not past quorum_expiry 100 (expiry block itself is still cosignable; need anchor > expiry)".to_string())
    );
    assert_eq!(
        quorum_expired_verdict_for(&proof, &history, None),
        Err(format!("anchor_block_hash {} not in verifier's confirmed chain", "77".repeat(8)))
    );
    let old = vec![update_with(0, quorum_begin(90))];
    assert_eq!(
        verify_quorum_expired(&proof, &old, &chain),
        Err("claimed quorum_expiry 100 doesn't match the ledger's most recent QuorumBegin's quorum_expiry 90".to_string())
    );
    assert_eq!(
        verify_quorum_expired(&proof, &[], &chain),
        Err("accused ledger has no QuorumBegin — quorum was never active, can't be 'expired'".to_string())
    );

    let mut ledgers = HashMap::new();
    let nonce = proof.proof_hash();
    let embed = LedgerOperation::DeliveryEmbed {
        request_hash: nonce,
        target_ledger_id: [1; 32],
        target_operator: test_pubkey(),
    };
    let mut with_embed = history.clone();
    with_embed.push(update_with(2, embed.tlv_encode()));
    ledgers.insert("acc".to_string(), with_embed);
    let broadcast = FraudBroadcast {
        proof: proof.clone(),
        embedding: ProofEmbedding {
            ledger_id: "acc".to_string(),
            sequence: 2,
            update_hash: String::new(),
            field: "request_hash".to_string(),
        },
        causal_chain: vec![],
    };
    assert_eq!(verify_fraud_broadcast(&broadcast, &Ledgers(ledgers), &chain), Ok(()));
    let missing = verify_fraud_broadcast(&broadcast, &Ledgers(HashMap::new()), &chain);
    assert_eq!(missing, Err("embedding ledger acc not available to verifier".to_string()));
}

#[test]
fn uncredited_onchain_does_not_check_the_offer_cosignature() {
    // The proof's cosignature is no valid signature at all.
    let proof = make_proof();
    let mut update = update_with(42, vec![]);
    update.block_hash = [0xBB; 32];
    let mut heights = HashMap::new();
    heights.insert([0xAA; 32], 100u32);
    heights.insert([0xBB; 32], 110u32);
    let chain = Chain(heights);
    assert_eq!(verify_uncredited_onchain(&proof, &[update.clone()], &chain), Ok(()));
    let mut early = update;
    early.block_hash = [0xAA; 32];
    assert_eq!(
        verify_uncredited_onchain(&proof, &[early], &chain),
        Err("proof_sequence block 100 only 0 blocks past funding block 100; need 6 confs".to_string())
    );
    assert_eq!(
        verify_uncredited_onchain(&proof, &[], &Chain(HashMap::new())),
        Err(format!("confirmed_at_block_hash {} not in verifier's confirmed chain", "aa".repeat(8)))
    );
}

#[test]
fn ledger_ids_are_cut_at_a_character_boundary() {
    let anchor = [0x77; 32];
    let proof = FraudProof {
        proof_type: FraudProofType::QuorumExpired,
        accused: "02".to_string(),
        ledger_id: "abcdefghijklmnoé-ledger".to_string(),
        evidence: FraudEvidence::QuorumExpired { anchor_block_hash: anchor, quorum_expiry: 100 },
    };
    let mut heights = HashMap::new();
    heights.insert(anchor, 150u32);
    let chain = Chain(heights);
    let embed = LedgerOperation::DeliveryEmbed {
        request_hash: proof.proof_hash(),
        target_ledger_id: [1; 32],
        target_operator: test_pubkey(),
    };
    let long_id = "abcdefghijklmnoé-ledger".to_string();
    let mut ledgers = HashMap::new();
    ledgers.insert(
        long_id.clone(),
        vec![
            update_with(0, quorum_begin(50)),
            update_with(1, quorum_begin(100)),
            update_with(2, embed.tlv_encode()),
        ],
    );
    let broadcast = FraudBroadcast {
        proof,
        embedding: ProofEmbedding {
            ledger_id: long_id,
            sequence: 2,
            update_hash: String::new(),
            field: "request_hash".to_string(),
        },
        causal_chain: vec![],
    };
    assert_eq!(verify_fraud_broadcast(&broadcast, &Ledgers(ledgers), &chain), Ok(()));
    assert_eq!(
        verify_fraud_broadcast(&broadcast, &Ledgers(HashMap::new()), &chain),
        Err("embedding ledger abcdefghijklmno not available to verifier".to_string())
    );
}
