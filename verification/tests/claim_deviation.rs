use std::str::FromStr;

use bitcoin::secp256k1::{Secp256k1, SecretKey};
use deposits_protocol::claim_deviation::{
    verify_winner_collateral_deviation, winner_deviation_verdict, ClaimTransaction,
};
use deposits_protocol::fraud::{BlockOracle, FraudEvidence, FraudProof, FraudProofType};
use deposits_protocol::operation::{LedgerOperation, ReplacementCollateral};
use deposits_protocol::pubkey::PublicKey;
use deposits_protocol::tlv::TlvEncode;
use deposits_protocol::updates::SignedLedgerUpdate;

const TARGET: &str = "bc1qar0srrr7xfkvy5l643lydnw9re59gtzzwf5mdq";

struct Confirms(bool);

impl BlockOracle for Confirms {
    // The specification hook of `confirms`, read by Verus and never called.
    fn confirmed_height(&self, _block_hash: vstd::seq::Seq<u8>) -> Option<u32> {
        None
    }

    fn confirms(&self, _block_hash: &[u8; 32]) -> Option<u32> {
        if self.0 {
            Some(800_000)
        } else {
            None
        }
    }
}

fn test_pubkey() -> PublicKey {
    let secp = Secp256k1::new();
    let sk = SecretKey::from_slice(&[7u8; 32]).unwrap();
    let pk = bitcoin::secp256k1::PublicKey::from_secret_key(&secp, &sk);
    PublicKey::from_slice(&pk.serialize()).unwrap()
}

fn target_script() -> Vec<u8> {
    bitcoin::Address::from_str(TARGET).unwrap().assume_checked().script_pubkey().to_bytes()
}

fn armed_update_hex(collateral: Option<ReplacementCollateral>) -> String {
    let op = LedgerOperation::DisputeArmed {
        armed_block: 900,
        commitment_hash: [3; 20],
        target_reserves: TARGET.to_string(),
        replacement_collateral: collateral,
    };
    let update = SignedLedgerUpdate {
        message: op.tlv_encode(),
        message_type: 0,
        operator_id: test_pubkey(),
        ledger_id: [0x12; 32],
        sequence_number: 5,
        previous_hash: [0u8; 32],
        content_hash: [0u8; 32],
        block_height: 0,
        block_hash: [0u8; 32],
        cosign_signature: [0u8; 64],
        operator_signature: [0u8; 64],
        cosigner_pubkey: None,
        member_ledger_hash: None,
        cosignatures: Vec::new(),
    };
    hex::encode(update.tlv_encode())
}

fn collateral() -> ReplacementCollateral {
    ReplacementCollateral { txid: [9; 32], vout: 1, amount: 50_000 }
}

fn claim_proof(armed_hex: String) -> FraudProof {
    FraudProof {
        proof_type: FraudProofType::WinnerCollateralDeviation,
        accused: "02".to_string() + &"ab".repeat(32),
        ledger_id: "aa".repeat(32),
        evidence: FraudEvidence::WinnerCollateralDeviation {
            winner_armed_update_hex: armed_hex,
            claim_txid: "cd".repeat(32),
            claim_block_hash: [0xEE; 32],
        },
    }
}

fn honest_tx() -> ClaimTransaction {
    ClaimTransaction {
        txid: "cd".repeat(32),
        inputs: vec![([1; 32], 0), ([9; 32], 1)],
        outputs: vec![(target_script(), 100_000 + 50_000 - 2_000)],
    }
}

#[test]
fn honest_claim_shows_no_deviation() {
    let p = claim_proof(armed_update_hex(Some(collateral())));
    assert_eq!(
        verify_winner_collateral_deviation(&p, &honest_tx(), 100_000, &Confirms(true)),
        Err("claim TX matches the declared replacement_collateral and target_reserves; no deviation found"
            .to_string())
    );
}

#[test]
fn deviations_are_proven() {
    let p = claim_proof(armed_update_hex(Some(collateral())));
    let mut skipped_input = honest_tx();
    skipped_input.inputs.truncate(1);
    assert_eq!(verify_winner_collateral_deviation(&p, &skipped_input, 100_000, &Confirms(true)), Ok(()));
    let mut elsewhere = honest_tx();
    elsewhere.outputs[0].0 = vec![0x51];
    assert_eq!(verify_winner_collateral_deviation(&p, &elsewhere, 100_000, &Confirms(true)), Ok(()));
    let mut short = honest_tx();
    short.outputs[0].1 = 100_000 + 50_000 - 10_001;
    assert_eq!(verify_winner_collateral_deviation(&p, &short, 100_000, &Confirms(true)), Ok(()));
    let mut at_allowance = honest_tx();
    at_allowance.outputs[0].1 = 100_000 + 50_000 - 10_000;
    assert!(verify_winner_collateral_deviation(&p, &at_allowance, 100_000, &Confirms(true)).is_err());
}

#[test]
fn deviation_claim_refusals() {
    let p = claim_proof(armed_update_hex(Some(collateral())));
    assert_eq!(
        verify_winner_collateral_deviation(&p, &honest_tx(), 100_000, &Confirms(false)),
        Err("claim_block_hash eeeeeeeeeeeeeeee not in verifier's confirmed chain".to_string())
    );
    let mut other = honest_tx();
    other.txid = "ab".repeat(32);
    assert_eq!(
        winner_deviation_verdict(&p, &other, 100_000, Some(1)),
        Err(format!(
            "claim TX txid mismatch: proof claims {}, supplied tx is {}",
            "cd".repeat(32),
            "ab".repeat(32)
        ))
    );
    let undeclared = claim_proof(armed_update_hex(None));
    assert_eq!(
        winner_deviation_verdict(&undeclared, &honest_tx(), 100_000, Some(1)),
        Err("winner declared no replacement_collateral — there's nothing for the claim TX to deviate from"
            .to_string())
    );
    let bad_hex = claim_proof("zz".to_string());
    assert!(winner_deviation_verdict(&bad_hex, &honest_tx(), 100_000, Some(1))
        .unwrap_err()
        .starts_with("winner_armed_update_hex: "));
    let not_tlv = claim_proof("00".to_string());
    assert!(winner_deviation_verdict(&not_tlv, &honest_tx(), 100_000, Some(1))
        .unwrap_err()
        .starts_with("winner_armed_update decode: "));
    let mut wrong = claim_proof(armed_update_hex(Some(collateral())));
    wrong.evidence = FraudEvidence::QuorumExpired { anchor_block_hash: [0; 32], quorum_expiry: 1 };
    assert_eq!(
        winner_deviation_verdict(&wrong, &honest_tx(), 100_000, Some(1)),
        Err("verify_winner_collateral_deviation: wrong evidence type".to_string())
    );
}
