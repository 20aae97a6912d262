//! Entropy-based selection of a dispute winner: each candidate is scored by
//! the SHA-256 of the entropy block hash and its key, and the lowest score
//! wins.

use vstd::prelude::*;

use crate::bytes::{
    bytes_less, bytes_lt, extend_bytes, lemma_bytes_lt_irreflexive, lemma_bytes_lt_total,
    lemma_bytes_lt_transitive,
};
use crate::crypto::{sha256, sha256_of};
use crate::pubkey::PublicKey;

verus! {

/// A candidate's score: SHA-256 of the entropy block hash and its key.
pub open spec fn entropy_score_of(entropy_block_hash: Seq<u8>, key: Seq<u8>) -> Seq<u8> {
    sha256_of(entropy_block_hash + key)
}

/// The position of the first candidate with the lowest score among the
/// first `n`, as a scan keeping the first strictly lower score finds it.
pub open spec fn winner_index(h: Seq<u8>, keys: Seq<Seq<u8>>, n: int) -> int
    decreases n,
{
    if n <= 1 {
        0
    } else {
        let i = winner_index(h, keys, n - 1);
        if bytes_lt(entropy_score_of(h, keys[n - 1]), entropy_score_of(h, keys[i])) {
            n - 1
        } else {
            i
        }
    }
}

/// The candidates' keys.
pub open spec fn keys_of(cs: Seq<PublicKey>) -> Seq<Seq<u8>> {
    cs.map_values(|c: PublicKey| c@)
}

/// The score of a candidate.
pub fn entropy_selection_score(entropy_block_hash: &[u8; 32], candidate: &PublicKey) -> (r: [u8; 32])
    ensures
        r@ == entropy_score_of(entropy_block_hash@, candidate@),
{
    let mut input: Vec<u8> = Vec::new();
    extend_bytes(&mut input, entropy_block_hash.as_slice());
    let k = candidate.serialize();
    extend_bytes(&mut input, k.as_slice());
    sha256(input.as_slice())
}

/// The candidate with the lowest score (the first of equal lowest scores),
/// or `None` when there are no candidates.
pub fn select_entropy_winner(entropy_block_hash: &[u8; 32], candidates: &[PublicKey]) -> (r: Option<
    PublicKey,
>)
    ensures
        candidates@.len() == 0 ==> r is None,
        candidates@.len() > 0 ==> r == Some(
            candidates@[winner_index(entropy_block_hash@, keys_of(candidates@), candidates@.len() as int)],
        ),
{
    if candidates.len() == 0 {
        return None;
    }
    let ghost ks = keys_of(candidates@);
    let mut best: usize = 0;
    let mut best_score = entropy_selection_score(entropy_block_hash, &candidates[0]);
    let mut i: usize = 1;
    while i < candidates.len()
        invariant
            1 <= i <= candidates@.len(),
            ks == keys_of(candidates@),
            best == winner_index(entropy_block_hash@, ks, i as int),
            best < i,
            best_score@ == entropy_score_of(entropy_block_hash@, ks[best as int]),
        decreases candidates@.len() - i,
    {
        let s = entropy_selection_score(entropy_block_hash, &candidates[i]);
        assert(ks[i as int] == candidates@[i as int]@);
        if bytes_less(s.as_slice(), best_score.as_slice()) {
            best = i;
            best_score = s;
        }
        i = i + 1;
    }
    Some(candidates[best])
}

/// Whether `candidate` is the selected winner among `all_candidates`.
pub fn is_entropy_winner(entropy_block_hash: &[u8; 32], candidate: &PublicKey, all_candidates: &[PublicKey]) -> (r:
    bool)
    ensures
        r == (all_candidates@.len() > 0 && all_candidates@[winner_index(
            entropy_block_hash@,
            keys_of(all_candidates@),
            all_candidates@.len() as int,
        )]@ == candidate@),
{
    match select_entropy_winner(entropy_block_hash, all_candidates) {
        Some(w) => w == *candidate,
        None => false,
    }
}

/// The winner lies among the candidates and no candidate scores below it.
pub proof fn lemma_winner_is_lowest(h: Seq<u8>, keys: Seq<Seq<u8>>, n: int)
    requires
        1 <= n <= keys.len(),
    ensures
        0 <= winner_index(h, keys, n) < n,
        forall|j: int|
            0 <= j < n ==> !bytes_lt(
                #[trigger] entropy_score_of(h, keys[j]),
                entropy_score_of(h, keys[winner_index(h, keys, n)]),
            ),
    decreases n,
{
    if n <= 1 {
        lemma_bytes_lt_irreflexive(entropy_score_of(h, keys[0]));
    } else {
        lemma_winner_is_lowest(h, keys, n - 1);
        let i = winner_index(h, keys, n - 1);
        let si = entropy_score_of(h, keys[i]);
        let sn = entropy_score_of(h, keys[n - 1]);
        if bytes_lt(sn, si) {
            assert(winner_index(h, keys, n) == n - 1);
            assert forall|j: int| 0 <= j < n implies !bytes_lt(
                #[trigger] entropy_score_of(h, keys[j]),
                sn,
            ) by {
                let sj = entropy_score_of(h, keys[j]);
                if j == n - 1 {
                    lemma_bytes_lt_irreflexive(sn);
                } else if bytes_lt(sj, sn) {
                    lemma_bytes_lt_transitive(sj, sn, si);
                }
            }
        } else {
            assert(winner_index(h, keys, n) == i);
            assert forall|j: int| 0 <= j < n implies !bytes_lt(
                #[trigger] entropy_score_of(h, keys[j]),
                si,
            ) by {
            }
        }
    }
}

/// The selection does not depend on the order of the candidates: two lists
/// holding the same candidates, each with pairwise distinct scores, select
/// the same winner.
pub proof fn lemma_winner_ignores_order(h: Seq<u8>, a: Seq<Seq<u8>>, b: Seq<Seq<u8>>)
    requires
        a.len() > 0,
        b.len() > 0,
        forall|i: int| 0 <= i < a.len() ==> b.contains(#[trigger] a[i]),
        forall|i: int| 0 <= i < b.len() ==> a.contains(#[trigger] b[i]),
        forall|i: int, j: int|
            0 <= i < a.len() && 0 <= j < a.len() && i != j ==> entropy_score_of(h, a[i])
                != entropy_score_of(h, a[j]),
    ensures
        a[winner_index(h, a, a.len() as int)] == b[winner_index(h, b, b.len() as int)],
{
    lemma_winner_is_lowest(h, a, a.len() as int);
    lemma_winner_is_lowest(h, b, b.len() as int);
    let wa = winner_index(h, a, a.len() as int);
    let wb = winner_index(h, b, b.len() as int);
    assert(b.contains(a[wa]));
    let ja = choose|j: int| 0 <= j < b.len() && b[j] == a[wa];
    assert(a.contains(b[wb]));
    let jb = choose|j: int| 0 <= j < a.len() && a[j] == b[wb];
    let sa = entropy_score_of(h, a[wa]);
    let sb = entropy_score_of(h, b[wb]);
    assert(!bytes_lt(entropy_score_of(h, b[ja]), sb));
    assert(!bytes_lt(entropy_score_of(h, a[jb]), sa));
    lemma_bytes_lt_total(sa, sb);
    if jb != wa {
        assert(sa != sb);
    }
}

} // verus!
