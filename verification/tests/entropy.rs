use bitcoin::secp256k1::{Secp256k1, SecretKey};
use deposits_protocol::entropy::{entropy_selection_score, is_entropy_winner, select_entropy_winner};
use deposits_protocol::pubkey::PublicKey;

fn key(b: u8) -> PublicKey {
    let secp = Secp256k1::new();
    let pk = bitcoin::secp256k1::PublicKey::from_secret_key(
        &secp,
        &SecretKey::from_slice(&[b; 32]).unwrap(),
    );
    PublicKey::from_slice(&pk.serialize()).unwrap()
}

#[test]
fn test_entropy_selection_deterministic() {
    let entropy_hash = [0x42u8; 32];
    let pk1 = key(1);
    let pk2 = key(2);
    let pk3 = key(3);
    let candidates = vec![pk1, pk2, pk3];
    let winner1 = select_entropy_winner(&entropy_hash, &candidates);
    let winner2 = select_entropy_winner(&entropy_hash, &candidates);
    assert_eq!(winner1, winner2);
    let reversed = vec![pk3, pk2, pk1];
    let winner3 = select_entropy_winner(&entropy_hash, &reversed);
    assert_eq!(winner1, winner3);
}

#[test]
fn test_entropy_selection_different_hashes() {
    let candidates = vec![key(1), key(2)];
    let hash1 = [0x01u8; 32];
    let hash2 = [0x02u8; 32];
    assert!(select_entropy_winner(&hash1, &candidates).is_some());
    assert!(select_entropy_winner(&hash2, &candidates).is_some());
}

#[test]
fn test_is_entropy_winner() {
    let entropy_hash = [0x42u8; 32];
    let pk1 = key(1);
    let pk2 = key(2);
    let candidates = vec![pk1, pk2];
    let winner = select_entropy_winner(&entropy_hash, &candidates).unwrap();
    assert!(is_entropy_winner(&entropy_hash, &winner, &candidates));
    let loser = if winner == pk1 { pk2 } else { pk1 };
    assert!(!is_entropy_winner(&entropy_hash, &loser, &candidates));
}

#[test]
fn test_entropy_selection_empty() {
    let entropy_hash = [0x42u8; 32];
    let candidates: Vec<PublicKey> = vec![];
    assert!(select_entropy_winner(&entropy_hash, &candidates).is_none());
}

#[test]
fn winner_has_the_lowest_score() {
    let h = [7u8; 32];
    let candidates: Vec<PublicKey> = (1..6).map(key).collect();
    let winner = select_entropy_winner(&h, &candidates).unwrap();
    let ws = entropy_selection_score(&h, &winner);
    for c in &candidates {
        assert!(ws <= entropy_selection_score(&h, c));
    }
    let mut input = h.to_vec();
    input.extend_from_slice(&winner.serialize());
    let expected = <bitcoin::hashes::sha256::Hash as bitcoin::hashes::Hash>::hash(&input);
    assert_eq!(&ws[..], &expected[..]);
    assert!(!is_entropy_winner(&h, &winner, &[]));
}
