//! Fraud proofs: the hashable evidence of dishonesty, where its hash was
//! embedded, the causal chain that carries it to the accused ledger, and the
//! checks a verifier makes of each kind of claim.

use vstd::prelude::*;
use vstd::string::StringSliceAdditionalSpecFns;
use vstd::utf8::{decode_utf8, encode_utf8, encode_utf8_decode_utf8, is_char_boundary};

use crate::bytes::{bytes_eq, copy_range, extend_bytes, push_u32_le, push_u64_le, u32_le, u64_le};
use crate::crypto::{hex_decode, hex_decode_error, hex_decoded, hex_encode, hex_lower, sha256, sha256_of};
use crate::operation::{embedded_hash_of, LedgerOperation, OperationView};
use crate::operation_tlv::operation_from_fields;
use crate::pubkey::{key_from_hex, PublicKey};
use crate::records::parse_with;
use crate::text::{concat_text, decimal_digits, text_with_number, text_with_numbers, utf8_bytes};
use crate::tlv::TlvDecode;
use crate::types::DepositId;
use crate::updates::{chain_hash_of, SignedLedgerUpdate};

verus! {

// ============================================================================
// The proof
// ============================================================================

/// Evidence of operator or quorum member dishonesty; its hash is what gets
/// embedded into a ledger chain.
#[derive(Clone, Debug)]
pub struct FraudProof {
    /// The kind of fraud claimed.
    pub proof_type: FraudProofType,
    /// The accused operator or member (hex public key).
    pub accused: String,
    /// The ledger where the fraud occurred (hex).
    pub ledger_id: String,
    /// Evidence for the claim.
    pub evidence: FraudEvidence,
}

/// The kinds of fraud the protocol recognises.
#[derive(Clone, Debug)]
pub enum FraudProofType {
    /// An on-chain payment to a cosigned offer was never credited.
    UncreditedOnchainPayment,
    /// A paid, cosigned invoice was never credited.
    UncreditedLightningPayment,
    /// A cosignature declared an already superseded member ledger hash.
    StaleCosignature,
    /// An active quorum member did not act on known fraud in time.
    DisputeDereliction,
    /// The operator signed an update that breaks protocol rules.
    NonConformingUpdate,
    /// The operator did not rotate the quorum before its expiry.
    QuorumExpired,
    /// A lottery winner's claim deviates from the collateral it declared.
    WinnerCollateralDeviation,
}

/// Evidence for each kind of claim.
#[derive(Clone, Debug)]
pub enum FraudEvidence {
    /// An on-chain payment that was not credited.
    UncreditedOnchain {
        offer_id: String,
        funding_address: String,
        accused_operator_pubkey: String,
        deadline_block: u32,
        cosigner_pubkey: String,
        cosigner_ledger_hash: String,
        cosign_signature: String,
        txid: String,
        vout: u32,
        amount_sats: u64,
        confirmed_at_block_hash: [u8; 32],
        required_confirmations: u32,
        proof_sequence: u64,
    },
    /// A lightning payment that was not credited.
    UncreditedLightning {
        invoice: String,
        payment_hash: String,
        deposit_id: DepositId,
        amount_msat: u64,
        cosigner_pubkey: String,
        cosigner_ledger_hash: String,
        cosign_signature: String,
        preimage: String,
        proof_sequence: u64,
    },
    /// A cosigner that backdated its ledger hash.
    StaleCosign {
        stale_update_sequence: u64,
        stale_update_hash: String,
        declared_member_hash: String,
        member_later_sequence: u64,
        member_later_hash: String,
        member_ledger_id: String,
    },
    /// A quorum member that was online but did not act.
    DisputeDereliction {
        original_fraud_hash: String,
        original_fraud_block_hash: [u8; 32],
        required_response_blocks: u32,
        member_ledger_id: String,
        member_active_sequence: u64,
        member_pubkey: String,
    },
    /// A non-conforming update.
    NonConforming { sequence: u64, update_b64: String, violation: String },
    /// A claim transaction that deviates from the declared collateral.
    WinnerCollateralDeviation {
        winner_armed_update_hex: String,
        claim_txid: String,
        claim_block_hash: [u8; 32],
    },
    /// A quorum that expired without rotation.
    QuorumExpired { anchor_block_hash: [u8; 32], quorum_expiry: u32 },
}

/// The byte that identifies each kind of fraud in the proof hash.
pub open spec fn proof_type_byte(t: FraudProofType) -> u8 {
    match t {
        FraudProofType::UncreditedOnchainPayment => 1,
        FraudProofType::UncreditedLightningPayment => 2,
        FraudProofType::StaleCosignature => 3,
        FraudProofType::DisputeDereliction => 4,
        FraudProofType::NonConformingUpdate => 5,
        FraudProofType::QuorumExpired => 6,
        FraudProofType::WinnerCollateralDeviation => 7,
    }
}

impl FraudProofType {
    /// Whether the proof is respectful (a missed schedule) rather than
    /// punitive: only an expired quorum is.
    pub fn is_respectful(&self) -> (r: bool)
        ensures
            r == (*self is QuorumExpired),
    {
        match self {
            FraudProofType::QuorumExpired => true,
            _ => false,
        }
    }

    /// The identifying byte of the kind.
    pub fn discriminant(&self) -> (r: u8)
        ensures
            r == proof_type_byte(*self),
    {
        match self {
            FraudProofType::UncreditedOnchainPayment => 1,
            FraudProofType::UncreditedLightningPayment => 2,
            FraudProofType::StaleCosignature => 3,
            FraudProofType::DisputeDereliction => 4,
            FraudProofType::NonConformingUpdate => 5,
            FraudProofType::QuorumExpired => 6,
            FraudProofType::WinnerCollateralDeviation => 7,
        }
    }
}

/// The key fields of the evidence that the proof hash covers, in order:
/// text as UTF-8, integers little-endian, hashes as their bytes.
pub open spec fn evidence_bytes(e: FraudEvidence) -> Seq<u8> {
    match e {
        FraudEvidence::UncreditedOnchain {
            offer_id,
            deadline_block,
            txid,
            vout,
            amount_sats,
            confirmed_at_block_hash,
            ..
        } => encode_utf8(offer_id@) + u32_le(deadline_block) + encode_utf8(txid@) + u32_le(vout)
            + u64_le(amount_sats) + confirmed_at_block_hash@,
        FraudEvidence::UncreditedLightning { payment_hash, deposit_id, amount_msat, preimage, .. } =>
            encode_utf8(payment_hash@) + deposit_id@ + u64_le(amount_msat) + encode_utf8(preimage@),
        FraudEvidence::StaleCosign {
            stale_update_hash,
            declared_member_hash,
            member_later_hash,
            ..
        } => encode_utf8(stale_update_hash@) + encode_utf8(declared_member_hash@) + encode_utf8(
            member_later_hash@,
        ),
        FraudEvidence::DisputeDereliction {
            original_fraud_hash,
            original_fraud_block_hash,
            member_ledger_id,
            member_pubkey,
            ..
        } => encode_utf8(original_fraud_hash@) + original_fraud_block_hash@ + encode_utf8(
            member_ledger_id@,
        ) + encode_utf8(member_pubkey@),
        FraudEvidence::NonConforming { sequence, update_b64, violation } => u64_le(sequence)
            + encode_utf8(update_b64@) + encode_utf8(violation@),
        FraudEvidence::QuorumExpired { anchor_block_hash, quorum_expiry } => anchor_block_hash@
            + u32_le(quorum_expiry),
        FraudEvidence::WinnerCollateralDeviation {
            winner_armed_update_hex,
            claim_txid,
            claim_block_hash,
        } => encode_utf8(winner_armed_update_hex@) + encode_utf8(claim_txid@) + claim_block_hash@,
    }
}

/// Appends the UTF-8 bytes of `s`.
fn push_text(out: &mut Vec<u8>, s: &str)
    ensures
        final(out)@ == old(out)@ + encode_utf8(s@),
{
    let b = utf8_bytes(s);
    extend_bytes(out, b.as_slice());
}

impl FraudEvidence {
    /// The key fields that identify this evidence, as bytes.
    pub fn canonical_bytes(&self) -> (r: Vec<u8>)
        ensures
            r@ == evidence_bytes(*self),
    {
        let mut out: Vec<u8> = Vec::new();
        match self {
            FraudEvidence::UncreditedOnchain {
                offer_id,
                deadline_block,
                txid,
                vout,
                amount_sats,
                confirmed_at_block_hash,
                ..
            } => {
                push_text(&mut out, offer_id.as_str());
                push_u32_le(&mut out, *deadline_block);
                push_text(&mut out, txid.as_str());
                push_u32_le(&mut out, *vout);
                push_u64_le(&mut out, *amount_sats);
                extend_bytes(&mut out, confirmed_at_block_hash.as_slice());
            },
            FraudEvidence::UncreditedLightning { payment_hash, deposit_id, amount_msat, preimage, .. } => {
                push_text(&mut out, payment_hash.as_str());
                extend_bytes(&mut out, deposit_id.as_slice());
                push_u64_le(&mut out, *amount_msat);
                push_text(&mut out, preimage.as_str());
            },
            FraudEvidence::StaleCosign {
                stale_update_hash,
                declared_member_hash,
                member_later_hash,
                ..
            } => {
                push_text(&mut out, stale_update_hash.as_str());
                push_text(&mut out, declared_member_hash.as_str());
                push_text(&mut out, member_later_hash.as_str());
            },
            FraudEvidence::DisputeDereliction {
                original_fraud_hash,
                original_fraud_block_hash,
                member_ledger_id,
                member_pubkey,
                ..
            } => {
                push_text(&mut out, original_fraud_hash.as_str());
                extend_bytes(&mut out, original_fraud_block_hash.as_slice());
                push_text(&mut out, member_ledger_id.as_str());
                push_text(&mut out, member_pubkey.as_str());
            },
            FraudEvidence::NonConforming { sequence, update_b64, violation } => {
                push_u64_le(&mut out, *sequence);
                push_text(&mut out, update_b64.as_str());
                push_text(&mut out, violation.as_str());
            },
            FraudEvidence::QuorumExpired { anchor_block_hash, quorum_expiry } => {
                extend_bytes(&mut out, anchor_block_hash.as_slice());
                push_u32_le(&mut out, *quorum_expiry);
            },
            FraudEvidence::WinnerCollateralDeviation {
                winner_armed_update_hex,
                claim_txid,
                claim_block_hash,
            } => {
                push_text(&mut out, winner_armed_update_hex.as_str());
                push_text(&mut out, claim_txid.as_str());
                extend_bytes(&mut out, claim_block_hash.as_slice());
            },
        }
        assert(out@ =~= evidence_bytes(*self));
        out
    }
}

/// The proof hash: SHA-256 under the tag "deposits/fraud_proof" (the tag's
/// hash twice) of the kind byte, the accused, the ledger and the evidence.
pub open spec fn proof_hash_of(p: FraudProof) -> Seq<u8> {
    let t = sha256_of(encode_utf8("deposits/fraud_proof"@));
    sha256_of(
        t + t + seq![proof_type_byte(p.proof_type)] + encode_utf8(p.accused@) + encode_utf8(
            p.ledger_id@,
        ) + evidence_bytes(p.evidence),
    )
}

impl FraudProof {
    /// The 32-byte hash to embed into a ledger chain.
    pub fn proof_hash(&self) -> (r: [u8; 32])
        ensures
            r@ == proof_hash_of(*self),
    {
        let tag = utf8_bytes("deposits/fraud_proof");
        let tag_hash = sha256(tag.as_slice());
        let mut input: Vec<u8> = Vec::new();
        extend_bytes(&mut input, tag_hash.as_slice());
        extend_bytes(&mut input, tag_hash.as_slice());
        input.push(self.proof_type.discriminant());
        push_text(&mut input, self.accused.as_str());
        push_text(&mut input, self.ledger_id.as_str());
        let ev = self.evidence.canonical_bytes();
        extend_bytes(&mut input, ev.as_slice());
        let ghost t = tag_hash@;
        assert(input@ =~= t + t + seq![proof_type_byte(self.proof_type)] + encode_utf8(self.accused@)
            + encode_utf8(self.ledger_id@) + evidence_bytes(self.evidence));
        sha256(input.as_slice())
    }

    /// Whether `embedded_hash` is this proof's hash.
    pub fn verify_embedding(&self, embedded_hash: &[u8; 32]) -> (r: bool)
        ensures
            r == (proof_hash_of(*self) == embedded_hash@),
    {
        let h = self.proof_hash();
        bytes_eq(h.as_slice(), embedded_hash.as_slice())
    }
}


/// Nostr event kind of fraud proof broadcasts.
pub const KIND_FRAUD_PROOF: u16 = 9101;

// ============================================================================
// Embedding and the causal chain
// ============================================================================

/// Where a proof hash was embedded.
#[derive(Clone, Debug)]
pub struct ProofEmbedding {
    /// The ledger holding the hash.
    pub ledger_id: String,
    /// Sequence number of the update holding the hash.
    pub sequence: u64,
    /// Content hash of that update.
    pub update_hash: String,
    /// The field that holds the hash.
    pub field: String,
}

/// One co-signed update that entangles one ledger into the next.
#[derive(Clone, Debug)]
pub struct CausalLink {
    /// The ledger this update is on.
    pub ledger_id: String,
    /// Sequence number of the update.
    pub sequence: u64,
    /// Content hash of the update.
    pub update_hash: String,
    /// The member ledger hash the co-signature carries (hex).
    pub member_ledger_hash: String,
    /// The ledger that hash came from.
    pub source_ledger_id: String,
}

/// A fraud proof with where it was embedded and the causal chain from
/// there to the accused ledger.
#[derive(Clone, Debug)]
pub struct FraudBroadcast {
    /// The proof.
    pub proof: FraudProof,
    /// Where its hash was embedded.
    pub embedding: ProofEmbedding,
    /// The links from the embedding ledger to the accused ledger; empty for
    /// an embedding on the accused ledger itself.
    pub causal_chain: Vec<CausalLink>,
}

/// What an update's message decodes to as an operation, if it decodes.
pub open spec fn decoded_op(msg: Seq<u8>) -> Option<OperationView> {
    match parse_with(msg, |m: Map<u64, Seq<u8>>| operation_from_fields(m)) {
        Ok(v) => Some(v),
        Err(_) => None,
    }
}

/// Decodes an update's message as an operation.
fn decode_op(msg: &Vec<u8>) -> (r: Option<LedgerOperation>)
    ensures
        match decoded_op(msg@) {
            Some(v) => r is Some && r->0@ == v,
            None => r is None,
        },
{
    match LedgerOperation::tlv_decode(msg.as_slice()) {
        Ok(op) => Some(op),
        Err(_) => None,
    }
}

/// `u` is at sequence `seq` and its operation embeds `h`.
#[verifier::opaque]
pub open spec fn embeds_at(u: SignedLedgerUpdate, seq: u64, h: Seq<u8>) -> bool {
    &&& u.sequence_number == seq
    &&& match decoded_op(u.message@) {
        Some(v) => embedded_hash_of(v) == Some(h),
        None => false,
    }
}

impl ProofEmbedding {
    /// Whether some update of `history` at this embedding's sequence embeds
    /// `proof_hash` (as a transfer nonce or a delivery request hash). The
    /// embedding's ledger identifier, update hash and field name are not
    /// consulted.
    pub fn verify_in_history(&self, history: &[SignedLedgerUpdate], proof_hash: &[u8; 32]) -> (r: bool)
        ensures
            r == exists|i: int|
                0 <= i < history@.len() && #[trigger] embeds_at(history@[i], self.sequence, proof_hash@),
    {
        let mut i: usize = 0;
        while i < history.len()
            invariant
                i <= history@.len(),
                forall|k: int| 0 <= k < i ==> !#[trigger] embeds_at(history@[k], self.sequence, proof_hash@),
            decreases history@.len() - i,
        {
            reveal(embeds_at);
            let u = &history[i];
            if u.sequence_number == self.sequence {
                match decode_op(&u.message) {
                    Some(op) => {
                        match op.embedded_hash() {
                            Some(h) => {
                                if bytes_eq(h.as_slice(), proof_hash.as_slice()) {
                                    assert(embeds_at(history@[i as int], self.sequence, proof_hash@));
                                    return true;
                                }
                            },
                            None => {},
                        }
                    },
                    None => {},
                }
            }
            i = i + 1;
        }
        false
    }
}

/// The first `k` in `1..n` whose link does not start where link `k - 1`
/// ends.
pub open spec fn first_broken_link(c: Seq<CausalLink>, n: int) -> Option<int>
    decreases n,
{
    if n <= 1 {
        None
    } else {
        match first_broken_link(c, n - 1) {
            Some(k) => Some(k),
            None => if c[n - 1].source_ledger_id@ != c[n - 2].ledger_id@ {
                Some(n - 1)
            } else {
                None
            },
        }
    }
}

/// The verdict on a broadcast's chain: a direct embedding has no links; an
/// indirect one has links from the embedding ledger, each starting where
/// the last ended, the last on the accused ledger.
pub open spec fn chain_structure_verdict(b: FraudBroadcast) -> Result<(), Seq<char>> {
    let e = b.embedding.ledger_id@;
    let accused = b.proof.ledger_id@;
    let c = b.causal_chain@;
    if e == accused {
        if c.len() == 0 {
            Ok(())
        } else {
            Err("Direct embedding should have empty causal chain"@)
        }
    } else if c.len() == 0 {
        Err("Indirect embedding requires at least one causal link"@)
    } else if c[0].source_ledger_id@ != e {
        Err(
            "First causal link source "@ + c[0].source_ledger_id@ + " doesn't match embedding ledger "@
                + e,
        )
    } else {
        match first_broken_link(c, c.len() as int) {
            Some(k) => Err(
                "Causal link "@ + decimal_digits(k as nat) + " source "@ + c[k].source_ledger_id@
                    + " doesn't match previous link ledger "@ + c[k - 1].ledger_id@,
            ),
            None => if c.last().ledger_id@ != accused {
                Err(
                    "Last causal link ledger "@ + c.last().ledger_id@
                        + " doesn't reach accused ledger "@ + accused,
                )
            } else {
                Ok(())
            },
        }
    }
}

/// `r` is the outcome `v` describes, the error taken by its text.
pub open spec fn verdict_is(r: Result<(), String>, v: Result<(), Seq<char>>) -> bool {
    match v {
        Ok(()) => r is Ok,
        Err(m) => r is Err && r->Err_0@ == m,
    }
}

impl FraudBroadcast {
    /// Checks that the causal chain connects the embedding ledger to the
    /// accused ledger; signatures and presence are not checked here.
    pub fn verify_chain_structure(&self) -> (r: Result<(), String>)
        ensures
            verdict_is(r, chain_structure_verdict(*self)),
    {
        let c = &self.causal_chain;
        if self.embedding.ledger_id == self.proof.ledger_id {
            if c.len() != 0 {
                return Err("Direct embedding should have empty causal chain".to_owned());
            }
            return Ok(());
        }
        if c.len() == 0 {
            return Err("Indirect embedding requires at least one causal link".to_owned());
        }
        if c[0].source_ledger_id != self.embedding.ledger_id {
            let mut m = concat_text("First causal link source ", c[0].source_ledger_id.as_str());
            m.append(" doesn't match embedding ledger ");
            m.append(self.embedding.ledger_id.as_str());
            return Err(m);
        }
        let ghost cs = c@;
        let mut i: usize = 1;
        while i < c.len()
            invariant
                1 <= i <= cs.len(),
                cs == c@,
                cs == self.causal_chain@,
                first_broken_link(cs, i as int) is None,
                self.embedding.ledger_id@ != self.proof.ledger_id@,
                cs[0].source_ledger_id@ == self.embedding.ledger_id@,
            decreases cs.len() - i,
        {
            if c[i].source_ledger_id != c[i - 1].ledger_id {
                let mut m = text_with_number("Causal link ", i as u64, " source ");
                m.append(c[i].source_ledger_id.as_str());
                m.append(" doesn't match previous link ledger ");
                m.append(c[i - 1].ledger_id.as_str());
                proof {
                    assert(m@ =~= "Causal link "@ + decimal_digits(i as nat) + " source "@
                        + cs[i as int].source_ledger_id@ + " doesn't match previous link ledger "@
                        + cs[i - 1].ledger_id@);
                    assert(first_broken_link(cs, i + 1) == Some(i as int));
                    lemma_broken_link_stays(cs, i + 1, cs.len() as int);
                }
                return Err(m);
            }
            i = i + 1;
        }
        let last = &c[c.len() - 1];
        if last.ledger_id != self.proof.ledger_id {
            let mut m = concat_text("Last causal link ledger ", last.ledger_id.as_str());
            m.append(" doesn't reach accused ledger ");
            m.append(self.proof.ledger_id.as_str());
            return Err(m);
        }
        Ok(())
    }
}

/// A broken link found among the first links is the first broken link of
/// any longer prefix.
proof fn lemma_broken_link_stays(c: Seq<CausalLink>, n: int, m: int)
    requires
        n <= m,
        first_broken_link(c, n) is Some,
    ensures
        first_broken_link(c, m) == first_broken_link(c, n),
    decreases m - n,
{
    if n < m {
        lemma_broken_link_stays(c, n, m - 1);
    }
}

// ============================================================================
// What the verifier supplies
// ============================================================================

/// The verifier's view of the block chain: the height of a block hash if
/// that block is in its confirmed chain. What it answers rests on the chain
/// the verifier follows.
pub trait BlockOracle {
    /// The height this oracle gives `block_hash`: where it is in the
    /// confirmed chain, or `None`.
    spec fn confirmed_height(&self, block_hash: Seq<u8>) -> Option<u32>;

    /// The height of `block_hash` in the confirmed chain, if it is there.
    fn confirms(&self, block_hash: &[u8; 32]) -> (r: Option<u32>)
        ensures
            r == self.confirmed_height(block_hash@),
    ;
}

/// The ledger histories the verifier can see, by ledger ID.
pub trait LedgerProvider {
    /// The updates this provider holds for `ledger_id`, or `None`.
    spec fn history(&self, ledger_id: Seq<char>) -> Option<Seq<SignedLedgerUpdate>>;

    /// The updates of the ledger, if the verifier has them.
    fn ledger_history(&self, ledger_id: &str) -> (r: Option<Vec<SignedLedgerUpdate>>)
        ensures
            match r {
                Some(h) => self.history(ledger_id@) == Some(h@),
                None => self.history(ledger_id@) is None,
            },
    ;
}

// ============================================================================
// Parsing helpers
// ============================================================================

/// What parsing `s` as 32 bytes of hex gives; errors are prefixed with
/// `label`.
pub open spec fn hex32_of(s: Seq<char>, label: Seq<char>) -> Result<Seq<u8>, Seq<char>> {
    match hex_decoded(s) {
        None => Err(label + ": "@ + hex_decode_error(s)),
        Some(b) => if b.len() == 32 {
            Ok(b)
        } else {
            Err(label + ": expected 32 bytes"@)
        },
    }
}

/// Parses 32 bytes of hex.
fn parse_hex32(s: &str, label: &str) -> (r: Result<[u8; 32], String>)
    ensures
        match hex32_of(s@, label@) {
            Ok(b) => r is Ok && r->Ok_0@ == b,
            Err(m) => r is Err && r->Err_0@ == m,
        },
{
    let bytes = match hex_decode(s) {
        Ok(b) => b,
        Err(e) => {
            let mut m = concat_text(label, ": ");
            m.append(e.as_str());
            return Err(m);
        },
    };
    if bytes.len() != 32 {
        return Err(concat_text(label, ": expected 32 bytes"));
    }
    let mut out = [0u8; 32];
    let mut i: usize = 0;
    while i < 32
        invariant
            i <= 32,
            bytes@.len() == 32,
            forall|k: int| 0 <= k < i ==> out@[k] == bytes@[k],
        decreases 32 - i,
    {
        out.set(i, bytes[i]);
        i = i + 1;
    }
    assert(out@ =~= bytes@);
    Ok(out)
}

/// The first update of `h` with sequence number `seq`.
pub open spec fn find_seq(h: Seq<SignedLedgerUpdate>, seq: u64) -> Option<SignedLedgerUpdate>
    decreases h.len(),
{
    if h.len() == 0 {
        None
    } else if h[0].sequence_number == seq {
        Some(h[0])
    } else {
        find_seq(h.drop_first(), seq)
    }
}

/// Finds the first update with sequence number `seq`.
fn find_update(h: &[SignedLedgerUpdate], seq: u64) -> (r: Option<&SignedLedgerUpdate>)
    ensures
        match find_seq(h@, seq) {
            Some(u) => r is Some && *r->0 == u,
            None => r is None,
        },
{
    let mut i: usize = 0;
    assert(h@.skip(0) =~= h@);
    while i < h.len()
        invariant
            i <= h@.len(),
            find_seq(h@.skip(i as int), seq) == find_seq(h@, seq),
        decreases h@.len() - i,
    {
        assert(h@.skip(i as int)[0] == h@[i as int]);
        assert(h@.skip(i as int).drop_first() =~= h@.skip(i + 1));
        if h[i].sequence_number == seq {
            return Some(&h[i]);
        }
        i = i + 1;
    }
    assert(h@.skip(i as int).len() == 0);
    None
}

/// The first eight bytes of `b`, as hex.
pub open spec fn hex8(b: Seq<u8>) -> Seq<char> {
    hex_lower(b.subrange(0, 8))
}

/// Renders the first eight bytes of `b` as hex.
fn hex_prefix(b: &[u8]) -> (r: String)
    requires
        b@.len() >= 8,
    ensures
        r@ == hex8(b@),
{
    let p = copy_range(b, 0, 8);
    hex_encode(p.as_slice())
}


// ============================================================================
// Stale cosignatures
// ============================================================================

/// Some cosignature on `u` declares the member ledger hash `h`.
pub open spec fn declares_member_hash(u: SignedLedgerUpdate, h: Seq<u8>) -> bool {
    exists|k: int| 0 <= k < u.cosignatures@.len() && #[trigger] u.cosignatures@[k].member_ledger_hash@ == h
}

/// The first update of `h` whose chain hash is `d` and whose sequence number
/// is below `before`.
pub open spec fn first_declared(h: Seq<SignedLedgerUpdate>, d: Seq<u8>, before: u64) -> Option<SignedLedgerUpdate>
    decreases h.len(),
{
    if h.len() == 0 {
        None
    } else if chain_hash_of(h[0].content_hash@, h[0].operator_signature@) == d && h[0].sequence_number
        < before {
        Some(h[0])
    } else {
        first_declared(h.drop_first(), d, before)
    }
}

/// Some update of `h` lies after sequence `after`, at or before `upto`, at a
/// block height no greater than `height`.
pub open spec fn advanced_by(h: Seq<SignedLedgerUpdate>, after: u64, upto: u64, height: u32) -> bool {
    exists|k: int|
        0 <= k < h.len() && (#[trigger] h[k]).sequence_number > after && h[k].sequence_number <= upto
            && h[k].block_height <= height
}

/// The verdict on a stale-cosignature claim, given the accused and the
/// member histories.
pub open spec fn stale_cosign_verdict(
    p: FraudProof,
    accused: Seq<SignedLedgerUpdate>,
    member: Seq<SignedLedgerUpdate>,
) -> Result<(), Seq<char>> {
    match p.evidence {
        FraudEvidence::StaleCosign {
            stale_update_sequence,
            stale_update_hash,
            declared_member_hash,
            member_later_sequence,
            member_later_hash,
            ..
        } => match hex32_of(stale_update_hash@, "stale_update_hash"@) {
            Err(m) => Err(m),
            Ok(sb) => match hex32_of(declared_member_hash@, "declared_member_hash"@) {
                Err(m) => Err(m),
                Ok(db) => match hex32_of(member_later_hash@, "member_later_hash"@) {
                    Err(m) => Err(m),
                    Ok(lb) => match find_seq(accused, stale_update_sequence) {
                        None => Err(
                            "stale_update_sequence "@ + decimal_digits(stale_update_sequence as nat)
                                + " not in accused history"@,
                        ),
                        Some(su) => if su.content_hash@ != sb {
                            Err(
                                "stale_update_hash mismatch at seq "@ + decimal_digits(
                                    stale_update_sequence as nat,
                                ) + ": claimed "@ + hex8(sb) + ", actual "@ + hex8(su.content_hash@),
                            )
                        } else if !declares_member_hash(su, db) {
                            Err(
                                "declared_member_hash "@ + hex8(db)
                                    + " not found among CosignEntries on stale update"@,
                            )
                        } else {
                            match find_seq(member, member_later_sequence) {
                                None => Err(
                                    "member_later_sequence "@ + decimal_digits(
                                        member_later_sequence as nat,
                                    ) + " not in member history"@,
                                ),
                                Some(lu) => {
                                    let lch = chain_hash_of(lu.content_hash@, lu.operator_signature@);
                                    if lch != lb {
                                        Err(
                                            "member_later_hash mismatch at seq "@ + decimal_digits(
                                                member_later_sequence as nat,
                                            ) + ": claimed "@ + hex8(lb) + ", actual "@ + hex8(lch),
                                        )
                                    } else {
                                        match first_declared(member, db, member_later_sequence) {
                                            None => Err(
                                                "declared_member_hash "@ + hex8(db)
                                                    + " doesn't appear in member history before seq "@
                                                    + decimal_digits(member_later_sequence as nat),
                                            ),
                                            Some(sd) => if !advanced_by(
                                                member,
                                                sd.sequence_number,
                                                member_later_sequence,
                                                su.block_height,
                                            ) {
                                                Err(
                                                    "member did not advance past declared_member_hash before cosign at block "@
                                                        + decimal_digits(su.block_height as nat),
                                                )
                                            } else {
                                                Ok(())
                                            },
                                        }
                                    }
                                },
                            }
                        },
                    },
                },
            },
        },
        _ => Err("verify_stale_cosignature: wrong evidence type"@),
    }
}

/// Whether some cosignature declares the member ledger hash `h`.
fn has_member_hash(es: &Vec<crate::updates::CosignEntry>, h: &[u8; 32]) -> (r: bool)
    ensures
        r == exists|k: int| 0 <= k < es@.len() && #[trigger] es@[k].member_ledger_hash@ == h@,
{
    let mut i: usize = 0;
    while i < es.len()
        invariant
            i <= es@.len(),
            forall|k: int| 0 <= k < i ==> (#[trigger] es@[k]).member_ledger_hash@ != h@,
        decreases es@.len() - i,
    {
        if bytes_eq(es[i].member_ledger_hash.as_slice(), h.as_slice()) {
            return true;
        }
        i = i + 1;
    }
    false
}

/// Finds the first update whose chain hash is `d` below sequence `before`.
fn find_declared<'a>(h: &'a [SignedLedgerUpdate], d: &[u8; 32], before: u64) -> (r: Option<&'a SignedLedgerUpdate>)
    ensures
        match first_declared(h@, d@, before) {
            Some(u) => r is Some && *r->0 == u,
            None => r is None,
        },
{
    let mut i: usize = 0;
    assert(h@.skip(0) =~= h@);
    while i < h.len()
        invariant
            i <= h@.len(),
            first_declared(h@.skip(i as int), d@, before) == first_declared(h@, d@, before),
        decreases h@.len() - i,
    {
        assert(h@.skip(i as int)[0] == h@[i as int]);
        assert(h@.skip(i as int).drop_first() =~= h@.skip(i + 1));
        let ch = h[i].chain_hash();
        if bytes_eq(ch.as_slice(), d.as_slice()) && h[i].sequence_number < before {
            return Some(&h[i]);
        }
        i = i + 1;
    }
    assert(h@.skip(i as int).len() == 0);
    None
}

/// Whether some update lies after `after`, at or before `upto`, at a block
/// height no greater than `height`.
fn advanced(h: &[SignedLedgerUpdate], after: u64, upto: u64, height: u32) -> (r: bool)
    ensures
        r == advanced_by(h@, after, upto, height),
{
    let mut i: usize = 0;
    while i < h.len()
        invariant
            i <= h@.len(),
            forall|k: int|
                0 <= k < i ==> !((#[trigger] h@[k]).sequence_number > after && h@[k].sequence_number <= upto
                    && h@[k].block_height <= height),
        decreases h@.len() - i,
    {
        let u = &h[i];
        if u.sequence_number > after && u.sequence_number <= upto && u.block_height <= height {
            return true;
        }
        i = i + 1;
    }
    false
}

/// Verifies a stale-cosignature claim: the accused's update at the claimed
/// sequence has the claimed content hash and a cosignature declaring the
/// claimed member hash; the member's update at the later sequence has the
/// claimed chain hash; the declared hash was an earlier member chain hash;
/// and the member had moved past it by the accused's block. Cosignature
/// signatures are not checked here.
pub fn verify_stale_cosignature(
    proof: &FraudProof,
    accused_history: &[SignedLedgerUpdate],
    member_history: &[SignedLedgerUpdate],
) -> (r: Result<(), String>)
    ensures
        verdict_is(r, stale_cosign_verdict(*proof, accused_history@, member_history@)),
{
    match &proof.evidence {
        FraudEvidence::StaleCosign {
            stale_update_sequence,
            stale_update_hash,
            declared_member_hash,
            member_later_sequence,
            member_later_hash,
            ..
        } => {
            let sb = match parse_hex32(stale_update_hash.as_str(), "stale_update_hash") {
                Ok(b) => b,
                Err(e) => {
                    return Err(e);
                },
            };
            let db = match parse_hex32(declared_member_hash.as_str(), "declared_member_hash") {
                Ok(b) => b,
                Err(e) => {
                    return Err(e);
                },
            };
            let lb = match parse_hex32(member_later_hash.as_str(), "member_later_hash") {
                Ok(b) => b,
                Err(e) => {
                    return Err(e);
                },
            };
            let su = match find_update(accused_history, *stale_update_sequence) {
                Some(u) => u,
                None => {
                    return Err(
                        text_with_number(
                            "stale_update_sequence ",
                            *stale_update_sequence,
                            " not in accused history",
                        ),
                    );
                },
            };
            if !bytes_eq(su.content_hash.as_slice(), sb.as_slice()) {
                let mut m = text_with_number(
                    "stale_update_hash mismatch at seq ",
                    *stale_update_sequence,
                    ": claimed ",
                );
                m.append(hex_prefix(sb.as_slice()).as_str());
                m.append(", actual ");
                m.append(hex_prefix(su.content_hash.as_slice()).as_str());
                return Err(m);
            }
            if !has_member_hash(&su.cosignatures, &db) {
                let mut m = concat_text("declared_member_hash ", hex_prefix(db.as_slice()).as_str());
                m.append(" not found among CosignEntries on stale update");
                return Err(m);
            }
            let lu = match find_update(member_history, *member_later_sequence) {
                Some(u) => u,
                None => {
                    return Err(
                        text_with_number(
                            "member_later_sequence ",
                            *member_later_sequence,
                            " not in member history",
                        ),
                    );
                },
            };
            let lch = lu.chain_hash();
            if !bytes_eq(lch.as_slice(), lb.as_slice()) {
                let mut m = text_with_number(
                    "member_later_hash mismatch at seq ",
                    *member_later_sequence,
                    ": claimed ",
                );
                m.append(hex_prefix(lb.as_slice()).as_str());
                m.append(", actual ");
                m.append(hex_prefix(lch.as_slice()).as_str());
                return Err(m);
            }
            let sd = match find_declared(member_history, &db, *member_later_sequence) {
                Some(u) => u,
                None => {
                    let mut m = concat_text("declared_member_hash ", hex_prefix(db.as_slice()).as_str());
                    m.append(
                        text_with_number(
                            " doesn't appear in member history before seq ",
                            *member_later_sequence,
                            "",
                        ).as_str(),
                    );
                    proof {
                        reveal_strlit("");
                        assert(m@ =~= "declared_member_hash "@ + hex8(db@)
                            + " doesn't appear in member history before seq "@ + decimal_digits(
                            *member_later_sequence as nat,
                        ));
                    }
                    return Err(m);
                },
            };
            if !advanced(member_history, sd.sequence_number, *member_later_sequence, su.block_height) {
                let m = text_with_number(
                    "member did not advance past declared_member_hash before cosign at block ",
                    su.block_height as u64,
                    "",
                );
                proof {
                    reveal_strlit("");
                }
                return Err(m);
            }
            Ok(())
        },
        _ => Err("verify_stale_cosignature: wrong evidence type".to_owned()),
    }
}


// ============================================================================
// Signatures on cosigned offers and invoices
// ============================================================================

/// Parses a hex public key; the error names the field.
pub open spec fn key_of(s: Seq<char>, label: Seq<char>) -> Result<Seq<u8>, Seq<char>> {
    match key_from_hex(s) {
        Some(k) => Ok(k),
        None => Err("invalid "@ + label + ": malformed public key"@),
    }
}

/// Parses a hex public key; the error names the field.
fn parse_key(s: &str, label: &str) -> (r: Result<PublicKey, String>)
    ensures
        match key_of(s@, label@) {
            Ok(k) => r is Ok && r->Ok_0@ == k,
            Err(m) => r is Err && r->Err_0@ == m,
        },
{
    match PublicKey::from_hex_str(s) {
        Ok(k) => Ok(k),
        Err(e) => {
            let mut m = concat_text("invalid ", label);
            m.append(": ");
            m.append(e.as_str());
            proof {
                reveal_strlit(": ");
                reveal_strlit("malformed public key");
                reveal_strlit(": malformed public key");
                assert(m@ =~= "invalid "@ + label@ + ": malformed public key"@);
            }
            Err(m)
        },
    }
}

// ============================================================================
// Uncredited lightning payments
// ============================================================================

/// The message naming `u` as settling the payment `ph`, if it credits the
/// invoice or fulfills it with a preimage of `ph`.
#[verifier::opaque]
pub open spec fn lightning_settlement(u: SignedLedgerUpdate, ph: Seq<u8>) -> Option<Seq<char>> {
    match decoded_op(u.message@) {
        Some(OperationView::InvoiceCredit { payment_hash, .. }) => if payment_hash == ph {
            Some(
                "InvoiceCredit found at seq "@ + decimal_digits(u.sequence_number as nat)
                    + " — operator did credit, not fraud"@,
            )
        } else {
            None
        },
        Some(OperationView::InvoiceFulfill { preimage, .. }) => if sha256_of(preimage) == ph {
            Some(
                "InvoiceFulfill found at seq "@ + decimal_digits(u.sequence_number as nat)
                    + " — operator fulfilled, not fraud"@,
            )
        } else {
            None
        },
        _ => None,
    }
}

/// The first settlement of `ph` among the updates up to sequence `upto`.
pub open spec fn first_settlement(h: Seq<SignedLedgerUpdate>, upto: u64, ph: Seq<u8>) -> Option<Seq<char>>
    decreases h.len(),
{
    if h.len() == 0 {
        None
    } else if h[0].sequence_number <= upto && lightning_settlement(h[0], ph) is Some {
        lightning_settlement(h[0], ph)
    } else {
        first_settlement(h.drop_first(), upto, ph)
    }
}

/// The message naming `u` as settling the payment `ph`, if it does.
fn settlement_message(u: &SignedLedgerUpdate, ph: &[u8; 32]) -> (r: Option<String>)
    ensures
        match lightning_settlement(*u, ph@) {
            Some(m) => r is Some && r->0@ == m,
            None => r is None,
        },
{
    reveal(lightning_settlement);
    match decode_op(&u.message) {
        Some(LedgerOperation::InvoiceCredit { payment_hash, .. }) => {
            if bytes_eq(payment_hash.as_slice(), ph.as_slice()) {
                Some(
                    text_with_number(
                        "InvoiceCredit found at seq ",
                        u.sequence_number,
                        " — operator did credit, not fraud",
                    ),
                )
            } else {
                None
            }
        },
        Some(LedgerOperation::InvoiceFulfill { preimage, .. }) => {
            let hh = sha256(preimage.as_slice());
            if bytes_eq(hh.as_slice(), ph.as_slice()) {
                Some(
                    text_with_number(
                        "InvoiceFulfill found at seq ",
                        u.sequence_number,
                        " — operator fulfilled, not fraud",
                    ),
                )
            } else {
                None
            }
        },
        _ => None,
    }
}

/// Finds the first settlement of `ph` among the updates up to `upto`.
#[verifier::rlimit(60)]
#[verifier::spinoff_prover]
fn find_settlement(h: &[SignedLedgerUpdate], upto: u64, ph: &[u8; 32]) -> (r: Option<String>)
    ensures
        match first_settlement(h@, upto, ph@) {
            Some(m) => r is Some && r->0@ == m,
            None => r is None,
        },
{
    let mut i: usize = 0;
    assert(h@.skip(0) =~= h@);
    while i < h.len()
        invariant
            i <= h@.len(),
            first_settlement(h@.skip(i as int), upto, ph@) == first_settlement(h@, upto, ph@),
        decreases h@.len() - i,
    {
        assert(h@.skip(i as int)[0] == h@[i as int]);
        assert(h@.skip(i as int).drop_first() =~= h@.skip(i + 1));
        if h[i].sequence_number <= upto {
            match settlement_message(&h[i], ph) {
                Some(m) => {
                    return Some(m);
                },
                None => {},
            }
        }
        i = i + 1;
    }
    assert(h@.skip(i as int).len() == 0);
    None
}

/// The verdict on an uncredited-lightning claim, given the accused history:
/// the preimage hashes to the payment hash, the accused signed an update at
/// the proof sequence, and no update up to it credited or fulfilled the
/// payment. The invoice cosignature is not checked.
pub open spec fn lightning_verdict(p: FraudProof, accused: Seq<SignedLedgerUpdate>) -> Result<(), Seq<char>> {
    match p.evidence {
        FraudEvidence::UncreditedLightning { payment_hash, preimage, proof_sequence, .. } => match hex32_of(
            payment_hash@,
            "payment_hash"@,
        ) {
            Err(m) => Err(m),
            Ok(phb) => match hex32_of(preimage@, "preimage"@) {
                Err(m) => Err(m),
                Ok(pre) => if sha256_of(pre) != phb {
                    Err(
                        "preimage doesn't hash to payment_hash: computed "@ + hex8(sha256_of(pre))
                            + " vs claimed "@ + hex8(phb),
                    )
                } else {
                    match find_seq(accused, proof_sequence) {
                        None => Err(
                            "proof_sequence "@ + decimal_digits(proof_sequence as nat)
                                + " not in accused history"@,
                        ),
                        Some(_) => match first_settlement(accused, proof_sequence, phb) {
                            Some(m) => Err(m),
                            None => Ok(()),
                        },
                    }
                },
            },
        },
        _ => Err("verify_uncredited_lightning: wrong evidence type"@),
    }
}

/// Verifies an uncredited-lightning claim against the accused history.
pub fn verify_uncredited_lightning(proof: &FraudProof, accused_history: &[SignedLedgerUpdate]) -> (r: Result<
    (),
    String,
>)
    ensures
        verdict_is(r, lightning_verdict(*proof, accused_history@)),
{
    match &proof.evidence {
        FraudEvidence::UncreditedLightning { payment_hash, preimage, proof_sequence, .. } => {
            let phb = match parse_hex32(payment_hash.as_str(), "payment_hash") {
                Ok(b) => b,
                Err(e) => {
                    return Err(e);
                },
            };
            let pre = match parse_hex32(preimage.as_str(), "preimage") {
                Ok(b) => b,
                Err(e) => {
                    return Err(e);
                },
            };
            let computed = sha256(pre.as_slice());
            if !bytes_eq(computed.as_slice(), phb.as_slice()) {
                let mut m = concat_text(
                    "preimage doesn't hash to payment_hash: computed ",
                    hex_prefix(computed.as_slice()).as_str(),
                );
                m.append(" vs claimed ");
                m.append(hex_prefix(phb.as_slice()).as_str());
                return Err(m);
            }
            match find_update(accused_history, *proof_sequence) {
                Some(_) => {},
                None => {
                    return Err(
                        text_with_number("proof_sequence ", *proof_sequence, " not in accused history"),
                    );
                },
            }
            match find_settlement(accused_history, *proof_sequence, &phb) {
                Some(m) => Err(m),
                None => Ok(()),
            }
        },
        _ => Err("verify_uncredited_lightning: wrong evidence type".to_owned()),
    }
}

// ============================================================================
// Uncredited on-chain payments
// ============================================================================

/// The first check of an uncredited on-chain claim: the evidence is of
/// that kind and its txid is 32 bytes of hex. The offer's cosignature is
/// not checked.
pub open spec fn offer_verdict(p: FraudProof) -> Result<(), Seq<char>> {
    match p.evidence {
        FraudEvidence::UncreditedOnchain { txid, .. } => match hex32_of(txid@, "txid"@) {
            Err(m) => Err(m),
            Ok(_) => Ok(()),
        },
        _ => Err("verify_uncredited_onchain: wrong evidence type"@),
    }
}

/// The message naming `u` as crediting the output `(txid, vout)`, if it does.
#[verifier::opaque]
pub open spec fn onchain_credit(u: SignedLedgerUpdate, txid: Seq<u8>, vout: u32) -> Option<Seq<char>> {
    match decoded_op(u.message@) {
        Some(OperationView::OnchainCredit { txid: t, vout: v, .. }) => if t == txid && v == vout {
            Some(
                "OnchainCredit found at seq "@ + decimal_digits(u.sequence_number as nat)
                    + " — operator did credit, not fraud"@,
            )
        } else {
            None
        },
        _ => None,
    }
}

/// The first credit of `(txid, vout)` among the updates up to `upto`.
pub open spec fn first_onchain_credit(h: Seq<SignedLedgerUpdate>, upto: u64, txid: Seq<u8>, vout: u32) -> Option<
    Seq<char>,
>
    decreases h.len(),
{
    if h.len() == 0 {
        None
    } else if h[0].sequence_number <= upto && onchain_credit(h[0], txid, vout) is Some {
        onchain_credit(h[0], txid, vout)
    } else {
        first_onchain_credit(h.drop_first(), upto, txid, vout)
    }
}

/// The message naming `u` as crediting `(txid, vout)`, if it does.
fn credit_message(u: &SignedLedgerUpdate, txid: &[u8; 32], vout: u32) -> (r: Option<String>)
    ensures
        match onchain_credit(*u, txid@, vout) {
            Some(m) => r is Some && r->0@ == m,
            None => r is None,
        },
{
    reveal(onchain_credit);
    match decode_op(&u.message) {
        Some(LedgerOperation::OnchainCredit { txid: t, vout: v, .. }) => {
            if bytes_eq(t.as_slice(), txid.as_slice()) && v == vout {
                Some(
                    text_with_number(
                        "OnchainCredit found at seq ",
                        u.sequence_number,
                        " — operator did credit, not fraud",
                    ),
                )
            } else {
                None
            }
        },
        _ => None,
    }
}

/// Finds the first credit of `(txid, vout)` among the updates up to `upto`.
#[verifier::rlimit(60)]
#[verifier::spinoff_prover]
fn find_onchain_credit(h: &[SignedLedgerUpdate], upto: u64, txid: &[u8; 32], vout: u32) -> (r: Option<String>)
    ensures
        match first_onchain_credit(h@, upto, txid@, vout) {
            Some(m) => r is Some && r->0@ == m,
            None => r is None,
        },
{
    let mut i: usize = 0;
    assert(h@.skip(0) =~= h@);
    while i < h.len()
        invariant
            i <= h@.len(),
            first_onchain_credit(h@.skip(i as int), upto, txid@, vout) == first_onchain_credit(
                h@,
                upto,
                txid@,
                vout,
            ),
        decreases h@.len() - i,
    {
        assert(h@.skip(i as int)[0] == h@[i as int]);
        assert(h@.skip(i as int).drop_first() =~= h@.skip(i + 1));
        if h[i].sequence_number <= upto {
            match credit_message(&h[i], txid, vout) {
                Some(m) => {
                    return Some(m);
                },
                None => {},
            }
        }
        i = i + 1;
    }
    assert(h@.skip(i as int).len() == 0);
    None
}

/// `a - b`, or 0 when `b` is larger.
pub open spec fn saturating_gap(a: u32, b: u32) -> u32 {
    if a >= b {
        (a - b) as u32
    } else {
        0
    }
}

/// The rest of an uncredited on-chain claim, given the heights the
/// verifier's chain gives the funding block and the block of the accused's
/// update at the proof sequence: that update exists, came at least the
/// required confirmations after funding, and no update up to it credited
/// the output.
pub open spec fn onchain_rest_verdict(
    p: FraudProof,
    accused: Seq<SignedLedgerUpdate>,
    confirmed_height: Option<u32>,
    proof_height: Option<u32>,
) -> Result<(), Seq<char>> {
    match p.evidence {
        FraudEvidence::UncreditedOnchain {
            txid,
            vout,
            confirmed_at_block_hash,
            required_confirmations,
            proof_sequence,
            ..
        } => match hex32_of(txid@, "txid"@) {
            Err(m) => Err(m),
            Ok(tb) => match confirmed_height {
                None => Err(
                    "confirmed_at_block_hash "@ + hex8(confirmed_at_block_hash@)
                        + " not in verifier's confirmed chain"@,
                ),
                Some(ch) => match find_seq(accused, proof_sequence) {
                    None => Err(
                        "proof_sequence "@ + decimal_digits(proof_sequence as nat)
                            + " not in accused history"@,
                    ),
                    Some(u) => match proof_height {
                        None => Err(
                            "proof_sequence update's block_hash "@ + hex8(u.block_hash@)
                                + " not in verifier's confirmed chain"@,
                        ),
                        Some(ph) => if saturating_gap(ph, ch) < required_confirmations {
                            Err(
                                "proof_sequence block "@ + decimal_digits(ph as nat) + " only "@
                                    + decimal_digits(saturating_gap(ph, ch) as nat)
                                    + " blocks past funding block "@ + decimal_digits(ch as nat)
                                    + "; need "@ + decimal_digits(required_confirmations as nat)
                                    + " confs"@,
                            )
                        } else {
                            match first_onchain_credit(accused, proof_sequence, tb, vout) {
                                Some(m) => Err(m),
                                None => Ok(()),
                            }
                        },
                    },
                },
            },
        },
        _ => Err("verify_uncredited_onchain: wrong evidence type"@),
    }
}

/// The verdict on an uncredited on-chain claim, given the chain heights.
pub open spec fn onchain_verdict(
    p: FraudProof,
    accused: Seq<SignedLedgerUpdate>,
    confirmed_height: Option<u32>,
    proof_height: Option<u32>,
) -> Result<(), Seq<char>> {
    match offer_verdict(p) {
        Err(m) => Err(m),
        Ok(()) => onchain_rest_verdict(p, accused, confirmed_height, proof_height),
    }
}

/// Checks the evidence kind and the txid of an uncredited on-chain claim.
fn check_offer(proof: &FraudProof) -> (r: Result<(), String>)
    ensures
        verdict_is(r, offer_verdict(*proof)),
{
    match &proof.evidence {
        FraudEvidence::UncreditedOnchain { txid, .. } => match parse_hex32(txid.as_str(), "txid") {
            Ok(_) => Ok(()),
            Err(e) => Err(e),
        },
        _ => Err("verify_uncredited_onchain: wrong evidence type".to_owned()),
    }
}

/// The rest of an uncredited on-chain claim, given the chain heights.
#[verifier::rlimit(40)]
fn check_onchain_rest(
    proof: &FraudProof,
    accused_history: &[SignedLedgerUpdate],
    confirmed_height: Option<u32>,
    proof_height: Option<u32>,
) -> (r: Result<(), String>)
    ensures
        verdict_is(r, onchain_rest_verdict(*proof, accused_history@, confirmed_height, proof_height)),
{
    match &proof.evidence {
        FraudEvidence::UncreditedOnchain {
            txid,
            vout,
            confirmed_at_block_hash,
            required_confirmations,
            proof_sequence,
            ..
        } => {
            let tb = match parse_hex32(txid.as_str(), "txid") {
                Ok(b) => b,
                Err(e) => {
                    return Err(e);
                },
            };
            let ch = match confirmed_height {
                Some(h) => h,
                None => {
                    let mut m = concat_text(
                        "confirmed_at_block_hash ",
                        hex_prefix(confirmed_at_block_hash.as_slice()).as_str(),
                    );
                    m.append(" not in verifier's confirmed chain");
                    return Err(m);
                },
            };
            let u = match find_update(accused_history, *proof_sequence) {
                Some(u) => u,
                None => {
                    return Err(
                        text_with_number("proof_sequence ", *proof_sequence, " not in accused history"),
                    );
                },
            };
            let ph = match proof_height {
                Some(h) => h,
                None => {
                    let mut m = concat_text(
                        "proof_sequence update's block_hash ",
                        hex_prefix(u.block_hash.as_slice()).as_str(),
                    );
                    m.append(" not in verifier's confirmed chain");
                    return Err(m);
                },
            };
            let elapsed: u32 = if ph >= ch {
                ph - ch
            } else {
                0
            };
            if elapsed < *required_confirmations {
                let mut m = text_with_numbers("proof_sequence block ", ph as u64, " only ", elapsed as u64);
                m.append(
                    text_with_numbers(
                        " blocks past funding block ",
                        ch as u64,
                        "; need ",
                        *required_confirmations as u64,
                    ).as_str(),
                );
                m.append(" confs");
                proof {
                    assert(elapsed == saturating_gap(ph, ch));
                    assert(m@ =~= "proof_sequence block "@ + decimal_digits(ph as nat) + " only "@
                        + decimal_digits(elapsed as nat) + " blocks past funding block "@
                        + decimal_digits(ch as nat) + "; need "@ + decimal_digits(
                        *required_confirmations as nat,
                    ) + " confs"@);
                }
                return Err(m);
            }
            match find_onchain_credit(accused_history, *proof_sequence, &tb, *vout) {
                Some(m) => Err(m),
                None => Ok(()),
            }
        },
        _ => Err("verify_uncredited_onchain: wrong evidence type".to_owned()),
    }
}

/// The verdict on an uncredited on-chain claim for the chain heights the
/// verifier found: the funding block's and that of the accused's update at
/// the proof sequence.
pub fn uncredited_onchain_verdict(
    proof: &FraudProof,
    accused_history: &[SignedLedgerUpdate],
    confirmed_height: Option<u32>,
    proof_height: Option<u32>,
) -> (r: Result<(), String>)
    ensures
        verdict_is(r, onchain_verdict(*proof, accused_history@, confirmed_height, proof_height)),
{
    match check_offer(proof) {
        Err(e) => Err(e),
        Ok(()) => check_onchain_rest(proof, accused_history, confirmed_height, proof_height),
    }
}

/// The heights the oracle gives an uncredited on-chain claim: the funding
/// block's, and, when that is confirmed, that of the block of the accused's
/// update at the proof sequence.
pub open spec fn onchain_heights<O: BlockOracle>(
    p: FraudProof,
    accused: Seq<SignedLedgerUpdate>,
    oracle: &O,
) -> (Option<u32>, Option<u32>) {
    match p.evidence {
        FraudEvidence::UncreditedOnchain { confirmed_at_block_hash, proof_sequence, .. } => {
            let c = oracle.confirmed_height(confirmed_at_block_hash@);
            let h = match c {
                Some(_) => match find_seq(accused, proof_sequence) {
                    Some(u) => oracle.confirmed_height(u.block_hash@),
                    None => None,
                },
                None => None,
            };
            (c, h)
        },
        _ => (None, None),
    }
}

/// Verifies an uncredited on-chain claim: the evidence names the output by a
/// txid of 32 bytes of hex (the offer's cosignature is not checked), the
/// funding block and the accused's update at the proof sequence are in
/// the verifier's chain far enough apart, and no update up to it credited
/// the output. The oracle is asked for the funding block once the offer
/// checks out, and for the update's block once the funding block is found.
pub fn verify_uncredited_onchain<O: BlockOracle>(
    proof: &FraudProof,
    accused_history: &[SignedLedgerUpdate],
    block_oracle: &O,
) -> (r: Result<(), String>)
    ensures
        verdict_is(
            r,
            onchain_verdict(
                *proof,
                accused_history@,
                onchain_heights(*proof, accused_history@, block_oracle).0,
                onchain_heights(*proof, accused_history@, block_oracle).1,
            ),
        ),
{
    match check_offer(proof) {
        Err(e) => {
            let r = Err(e);
            assert(verdict_is(r, onchain_verdict(*proof, accused_history@, None, None)));
            return r;
        },
        Ok(()) => {},
    }
    let (c, h) = match &proof.evidence {
        FraudEvidence::UncreditedOnchain { confirmed_at_block_hash, proof_sequence, .. } => {
            let c = block_oracle.confirms(confirmed_at_block_hash);
            let h = match c {
                Some(_) => match find_update(accused_history, *proof_sequence) {
                    Some(u) => block_oracle.confirms(&u.block_hash),
                    None => None,
                },
                None => None,
            };
            (c, h)
        },
        _ => (None, None),
    };
    let r = check_onchain_rest(proof, accused_history, c, h);
    assert(verdict_is(r, onchain_verdict(*proof, accused_history@, c, h)));
    r
}


// ============================================================================
// Dispute dereliction
// ============================================================================

/// The verdict on a dereliction claim, given the member history and the
/// heights the verifier's chain gives the original fraud block and the block
/// of the member's update at the active sequence: that update exists, came
/// at least the required blocks later, and was signed by the member.
pub open spec fn dereliction_verdict(
    p: FraudProof,
    member: Seq<SignedLedgerUpdate>,
    original_height: Option<u32>,
    member_height: Option<u32>,
) -> Result<(), Seq<char>> {
    match p.evidence {
        FraudEvidence::DisputeDereliction {
            original_fraud_block_hash,
            required_response_blocks,
            member_active_sequence,
            member_pubkey,
            ..
        } => match original_height {
            None => Err(
                "original_fraud_block_hash "@ + hex8(original_fraud_block_hash@)
                    + " not in verifier's confirmed chain"@,
            ),
            Some(oh) => match find_seq(member, member_active_sequence) {
                None => Err(
                    "member_active_sequence "@ + decimal_digits(member_active_sequence as nat)
                        + " not in member history"@,
                ),
                Some(u) => match member_height {
                    None => Err(
                        "member-active update's block_hash "@ + hex8(u.block_hash@)
                            + " not in verifier's confirmed chain"@,
                    ),
                    Some(mh) => if saturating_gap(mh, oh) < required_response_blocks {
                        Err(
                            "member-active block "@ + decimal_digits(mh as nat) + " only "@
                                + decimal_digits(saturating_gap(mh, oh) as nat)
                                + " blocks past original-fraud block "@ + decimal_digits(oh as nat)
                                + "; need "@ + decimal_digits(required_response_blocks as nat),
                        )
                    } else {
                        match key_of(member_pubkey@, "member_pubkey"@) {
                            Err(m) => Err(m),
                            Ok(k) => if u.operator_id@ != k {
                                Err(
                                    "member-active update at seq "@ + decimal_digits(
                                        member_active_sequence as nat,
                                    ) + " signed by "@ + hex8(u.operator_id@) + " not member_pubkey "@
                                        + hex8(k),
                                )
                            } else {
                                Ok(())
                            },
                        }
                    },
                },
            },
        },
        _ => Err("verify_inactive_quorum_member: wrong evidence type"@),
    }
}

/// The verdict on a dereliction claim for the chain heights the verifier
/// found: the original fraud block's and that of the member's update at the
/// active sequence.
#[verifier::rlimit(40)]
pub fn inactive_member_verdict(
    proof: &FraudProof,
    member_history: &[SignedLedgerUpdate],
    original_height: Option<u32>,
    member_height: Option<u32>,
) -> (r: Result<(), String>)
    ensures
        verdict_is(r, dereliction_verdict(*proof, member_history@, original_height, member_height)),
{
    match &proof.evidence {
        FraudEvidence::DisputeDereliction {
            original_fraud_block_hash,
            required_response_blocks,
            member_active_sequence,
            member_pubkey,
            ..
        } => {
            let oh = match original_height {
                Some(h) => h,
                None => {
                    let mut m = concat_text(
                        "original_fraud_block_hash ",
                        hex_prefix(original_fraud_block_hash.as_slice()).as_str(),
                    );
                    m.append(" not in verifier's confirmed chain");
                    return Err(m);
                },
            };
            let u = match find_update(member_history, *member_active_sequence) {
                Some(u) => u,
                None => {
                    return Err(
                        text_with_number(
                            "member_active_sequence ",
                            *member_active_sequence,
                            " not in member history",
                        ),
                    );
                },
            };
            let mh = match member_height {
                Some(h) => h,
                None => {
                    let mut m = concat_text(
                        "member-active update's block_hash ",
                        hex_prefix(u.block_hash.as_slice()).as_str(),
                    );
                    m.append(" not in verifier's confirmed chain");
                    return Err(m);
                },
            };
            let elapsed: u32 = if mh >= oh {
                mh - oh
            } else {
                0
            };
            if elapsed < *required_response_blocks {
                let mut m = text_with_numbers("member-active block ", mh as u64, " only ", elapsed as u64);
                m.append(
                    text_with_numbers(
                        " blocks past original-fraud block ",
                        oh as u64,
                        "; need ",
                        *required_response_blocks as u64,
                    ).as_str(),
                );
                proof {
                    assert(elapsed == saturating_gap(mh, oh));
                    assert(m@ =~= "member-active block "@ + decimal_digits(mh as nat) + " only "@
                        + decimal_digits(elapsed as nat) + " blocks past original-fraud block "@
                        + decimal_digits(oh as nat) + "; need "@ + decimal_digits(
                        *required_response_blocks as nat,
                    ));
                }
                return Err(m);
            }
            let k = match parse_key(member_pubkey.as_str(), "member_pubkey") {
                Ok(k) => k,
                Err(e) => {
                    return Err(e);
                },
            };
            if u.operator_id != k {
                let op = u.operator_id.serialize();
                let kb = k.serialize();
                let mut m = text_with_number(
                    "member-active update at seq ",
                    *member_active_sequence,
                    " signed by ",
                );
                m.append(hex_prefix(op.as_slice()).as_str());
                m.append(" not member_pubkey ");
                m.append(hex_prefix(kb.as_slice()).as_str());
                return Err(m);
            }
            Ok(())
        },
        _ => Err("verify_inactive_quorum_member: wrong evidence type".to_owned()),
    }
}

/// The heights the oracle gives a dereliction claim: the original fraud
/// block's, and, when that is confirmed, that of the block of the member's
/// update at the active sequence.
pub open spec fn dereliction_heights<O: BlockOracle>(
    p: FraudProof,
    member: Seq<SignedLedgerUpdate>,
    oracle: &O,
) -> (Option<u32>, Option<u32>) {
    match p.evidence {
        FraudEvidence::DisputeDereliction { original_fraud_block_hash, member_active_sequence, .. } => {
            let o = oracle.confirmed_height(original_fraud_block_hash@);
            let m = match o {
                Some(_) => match find_seq(member, member_active_sequence) {
                    Some(u) => oracle.confirmed_height(u.block_hash@),
                    None => None,
                },
                None => None,
            };
            (o, m)
        },
        _ => (None, None),
    }
}

/// Verifies a dereliction claim: the original fraud block and the member's
/// later update are in the verifier's chain at least the required blocks
/// apart, and the member signed that update. The oracle is asked for the
/// original block, and for the update's block once the original is found.
pub fn verify_inactive_quorum_member<O: BlockOracle>(
    proof: &FraudProof,
    member_history: &[SignedLedgerUpdate],
    block_oracle: &O,
) -> (r: Result<(), String>)
    ensures
        verdict_is(
            r,
            dereliction_verdict(
                *proof,
                member_history@,
                dereliction_heights(*proof, member_history@, block_oracle).0,
                dereliction_heights(*proof, member_history@, block_oracle).1,
            ),
        ),
{
    let (o, m) = match &proof.evidence {
        FraudEvidence::DisputeDereliction { original_fraud_block_hash, member_active_sequence, .. } => {
            let o = block_oracle.confirms(original_fraud_block_hash);
            let m = match o {
                Some(_) => match find_update(member_history, *member_active_sequence) {
                    Some(u) => block_oracle.confirms(&u.block_hash),
                    None => None,
                },
                None => None,
            };
            (o, m)
        },
        _ => (None, None),
    };
    let r = inactive_member_verdict(proof, member_history, o, m);
    assert(verdict_is(r, dereliction_verdict(*proof, member_history@, o, m)));
    r
}

// ============================================================================
// Expired quorums
// ============================================================================

/// The quorum expiry `u` declares, if its operation begins a quorum.
pub open spec fn begin_expiry(u: SignedLedgerUpdate) -> Option<u32> {
    match decoded_op(u.message@) {
        Some(OperationView::QuorumBegin { quorum_expiry, .. }) => Some(quorum_expiry),
        _ => None,
    }
}

/// The quorum expiry of the last quorum begun in `h`.
pub open spec fn last_begin_expiry(h: Seq<SignedLedgerUpdate>) -> Option<u32>
    decreases h.len(),
{
    if h.len() == 0 {
        None
    } else {
        match begin_expiry(h.last()) {
            Some(e) => Some(e),
            None => last_begin_expiry(h.drop_last()),
        }
    }
}

/// The quorum expiry `u` declares, if it begins a quorum.
fn begin_expiry_of(u: &SignedLedgerUpdate) -> (r: Option<u32>)
    ensures
        r == begin_expiry(*u),
{
    match decode_op(&u.message) {
        Some(LedgerOperation::QuorumBegin { quorum_expiry, .. }) => Some(quorum_expiry),
        _ => None,
    }
}

/// The verdict on an expired-quorum claim, given the accused history and the
/// height the verifier's chain gives the anchor block: the anchor is past
/// the claimed expiry, which is the expiry of the last quorum begun.
pub open spec fn quorum_expired_verdict(
    p: FraudProof,
    accused: Seq<SignedLedgerUpdate>,
    anchor_height: Option<u32>,
) -> Result<(), Seq<char>> {
    match p.evidence {
        FraudEvidence::QuorumExpired { anchor_block_hash, quorum_expiry } => match anchor_height {
            None => Err(
                "anchor_block_hash "@ + hex8(anchor_block_hash@) + " not in verifier's confirmed chain"@,
            ),
            Some(ah) => if ah <= quorum_expiry {
                Err(
                    "anchor block at height "@ + decimal_digits(ah as nat) + " is not past quorum_expiry "@
                        + decimal_digits(quorum_expiry as nat)
                        + " (expiry block itself is still cosignable; need anchor > expiry)"@,
                )
            } else {
                match last_begin_expiry(accused) {
                    None => Err(
                        "accused ledger has no QuorumBegin — quorum was never active, can't be 'expired'"@,
                    ),
                    Some(actual) => if quorum_expiry != actual {
                        Err(
                            "claimed quorum_expiry "@ + decimal_digits(quorum_expiry as nat)
                                + " doesn't match the ledger's most recent QuorumBegin's quorum_expiry "@
                                + decimal_digits(actual as nat),
                        )
                    } else {
                        Ok(())
                    },
                }
            },
        },
        _ => Err("verify_quorum_expired: wrong evidence type"@),
    }
}

/// The verdict on an expired-quorum claim for the anchor height the verifier
/// found.
pub fn quorum_expired_verdict_for(
    proof: &FraudProof,
    accused_history: &[SignedLedgerUpdate],
    anchor_height: Option<u32>,
) -> (r: Result<(), String>)
    ensures
        verdict_is(r, quorum_expired_verdict(*proof, accused_history@, anchor_height)),
{
    match &proof.evidence {
        FraudEvidence::QuorumExpired { anchor_block_hash, quorum_expiry } => {
            let ah = match anchor_height {
                Some(h) => h,
                None => {
                    let mut m = concat_text(
                        "anchor_block_hash ",
                        hex_prefix(anchor_block_hash.as_slice()).as_str(),
                    );
                    m.append(" not in verifier's confirmed chain");
                    return Err(m);
                },
            };
            if ah <= *quorum_expiry {
                let mut m = text_with_numbers(
                    "anchor block at height ",
                    ah as u64,
                    " is not past quorum_expiry ",
                    *quorum_expiry as u64,
                );
                m.append(" (expiry block itself is still cosignable; need anchor > expiry)");
                return Err(m);
            }
            let ghost h = accused_history@;
            let mut last: Option<u32> = None;
            let mut i: usize = 0;
            while i < accused_history.len()
                invariant
                    i <= h.len(),
                    h == accused_history@,
                    last == last_begin_expiry(h.take(i as int)),
                decreases h.len() - i,
            {
                proof {
                    assert(h.take(i + 1).drop_last() =~= h.take(i as int));
                    assert(h.take(i + 1).last() == h[i as int]);
                }
                match begin_expiry_of(&accused_history[i]) {
                    Some(e) => {
                        last = Some(e);
                    },
                    None => {},
                }
                i = i + 1;
            }
            assert(h.take(i as int) =~= h);
            let actual = match last {
                Some(e) => e,
                None => {
                    return Err(
                        "accused ledger has no QuorumBegin — quorum was never active, can't be 'expired'".to_owned(),
                    );
                },
            };
            if *quorum_expiry != actual {
                let m = text_with_numbers(
                    "claimed quorum_expiry ",
                    *quorum_expiry as u64,
                    " doesn't match the ledger's most recent QuorumBegin's quorum_expiry ",
                    actual as u64,
                );
                return Err(m);
            }
            Ok(())
        },
        _ => Err("verify_quorum_expired: wrong evidence type".to_owned()),
    }
}

/// The height the oracle gives the anchor block of an expired-quorum claim.
pub open spec fn anchor_height<O: BlockOracle>(p: FraudProof, oracle: &O) -> Option<u32> {
    match p.evidence {
        FraudEvidence::QuorumExpired { anchor_block_hash, .. } => oracle.confirmed_height(anchor_block_hash@),
        _ => None,
    }
}

/// Verifies an expired-quorum claim: the anchor block is in the verifier's
/// chain past the claimed expiry, and the claimed expiry is that of the
/// last quorum the accused began.
pub fn verify_quorum_expired<O: BlockOracle>(
    proof: &FraudProof,
    accused_history: &[SignedLedgerUpdate],
    block_oracle: &O,
) -> (r: Result<(), String>)
    ensures
        verdict_is(r, quorum_expired_verdict(*proof, accused_history@, anchor_height(*proof, block_oracle))),
{
    let a = match &proof.evidence {
        FraudEvidence::QuorumExpired { anchor_block_hash, .. } => block_oracle.confirms(anchor_block_hash),
        _ => None,
    };
    let r = quorum_expired_verdict_for(proof, accused_history, a);
    assert(verdict_is(r, quorum_expired_verdict(*proof, accused_history@, a)));
    r
}


// ============================================================================
// The whole broadcast
// ============================================================================

/// The largest character boundary of `b` at or below `i`.
pub open spec fn boundary_at_or_below(b: Seq<u8>, i: int) -> int
    decreases i,
{
    if i <= 0 {
        0
    } else if is_char_boundary(b, i) {
        i
    } else {
        boundary_at_or_below(b, i - 1)
    }
}

/// How many bytes of an identifier's encoding a message shows: the first
/// sixteen (all of a shorter one), cut back to the last character boundary
/// at or before that.
pub open spec fn short_len(b: Seq<u8>) -> int {
    boundary_at_or_below(
        b,
        if b.len() < 16 {
            b.len() as int
        } else {
            16
        },
    )
}

/// The identifier as messages show it: its first `short_len` bytes.
pub open spec fn short_text(s: Seq<char>) -> Seq<char> {
    decode_utf8(encode_utf8(s).subrange(0, short_len(encode_utf8(s))))
}

/// The first sixteen bytes of an identifier, or fewer where a character
/// crosses the sixteenth byte.
fn short_id(s: &str) -> (r: &str)
    ensures
        r@ == short_text(s@),
{
    let bytes = s.as_bytes();
    let mut n: usize = if bytes.len() < 16 {
        bytes.len()
    } else {
        16
    };
    let ghost b = encode_utf8(s@);
    let ghost cap = n as int;
    proof {
        assert(s.spec_bytes() == b);
        vstd::utf8::encode_utf8_valid_utf8(s@);
        assert(cap == (if b.len() < 16 {
            b.len() as int
        } else {
            16
        }));
    }
    while n > 0 && !s.is_char_boundary(n)
        invariant
            n <= cap,
            b == s.spec_bytes(),
            vstd::utf8::valid_utf8(b),
            boundary_at_or_below(b, cap) == boundary_at_or_below(b, n as int),
        decreases n,
    {
        n = n - 1;
    }
    assert(boundary_at_or_below(b, n as int) == n as int);
    let (a, _) = s.split_at(n);
    proof {
        assert(a.spec_bytes() == encode_utf8(a@));
        encode_utf8_decode_utf8(a@);
    }
    a
}

/// `u` is the co-signed update a causal link names: at its sequence, with a
/// member ledger hash whose hex is the link's.
pub open spec fn link_found(u: SignedLedgerUpdate, l: CausalLink) -> bool {
    &&& u.sequence_number == l.sequence
    &&& u.member_ledger_hash matches Some(h) && hex_lower(h@) == l.member_ledger_hash@
}

/// The message for a ledger the provider does not hold.
pub open spec fn unavailable(what: Seq<char>, id: Seq<char>) -> Seq<char> {
    what + short_text(id) + " not available"@
}

/// The outcome of checking one causal link against the provider's history
/// of its ledger.
pub open spec fn link_verdict<L: LedgerProvider>(l: CausalLink, ledgers: &L) -> Result<(), Seq<char>> {
    match ledgers.history(l.ledger_id@) {
        None => Err("link ledger "@ + short_text(l.ledger_id@) + " not available to verifier"@),
        Some(h) => if exists|i: int| 0 <= i < h.len() && #[trigger] link_found(h[i], l) {
            Ok(())
        } else {
            Err(
                "causal link not found at seq "@ + decimal_digits(l.sequence as nat) + " on ledger "@
                    + short_text(l.ledger_id@),
            )
        },
    }
}

/// The outcome of checking causal links in order: the first failure.
pub open spec fn links_verdict<L: LedgerProvider>(chain: Seq<CausalLink>, ledgers: &L) -> Result<(), Seq<char>>
    decreases chain.len(),
{
    if chain.len() == 0 {
        Ok(())
    } else {
        match link_verdict(chain[0], ledgers) {
            Err(m) => Err(m),
            Ok(()) => links_verdict(chain.drop_first(), ledgers),
        }
    }
}

/// The outcome of checking the claim of a proof against the histories and
/// heights the provider and the oracle give; the kinds checked elsewhere
/// pass here.
#[verifier::opaque]
pub open spec fn claim_verdict<L: LedgerProvider, O: BlockOracle>(
    p: FraudProof,
    ledgers: &L,
    oracle: &O,
) -> Result<(), Seq<char>> {
    let aid = p.ledger_id@;
    match p.proof_type {
        FraudProofType::StaleCosignature => match p.evidence {
            FraudEvidence::StaleCosign { member_ledger_id, .. } => match ledgers.history(aid) {
                None => Err(unavailable("accused ledger "@, aid)),
                Some(a) => match ledgers.history(member_ledger_id@) {
                    None => Err(unavailable("member ledger "@, member_ledger_id@)),
                    Some(m) => stale_cosign_verdict(p, a, m),
                },
            },
            _ => Err("StaleCosignature: wrong evidence type"@),
        },
        FraudProofType::UncreditedLightningPayment => match ledgers.history(aid) {
            None => Err(unavailable("accused ledger "@, aid)),
            Some(a) => lightning_verdict(p, a),
        },
        FraudProofType::DisputeDereliction => match p.evidence {
            FraudEvidence::DisputeDereliction { member_ledger_id, .. } => match ledgers.history(member_ledger_id@) {
                None => Err(unavailable("member ledger "@, member_ledger_id@)),
                Some(m) => dereliction_verdict(
                    p,
                    m,
                    dereliction_heights(p, m, oracle).0,
                    dereliction_heights(p, m, oracle).1,
                ),
            },
            _ => Err("DisputeDereliction: wrong evidence type"@),
        },
        FraudProofType::UncreditedOnchainPayment => match ledgers.history(aid) {
            None => Err(unavailable("accused ledger "@, aid)),
            Some(a) => onchain_verdict(p, a, onchain_heights(p, a, oracle).0, onchain_heights(p, a, oracle).1),
        },
        FraudProofType::NonConformingUpdate => Ok(()),
        FraudProofType::QuorumExpired => match ledgers.history(aid) {
            None => Err(unavailable("accused ledger "@, aid)),
            Some(a) => quorum_expired_verdict(p, a, anchor_height(p, oracle)),
        },
        FraudProofType::WinnerCollateralDeviation => Ok(()),
    }
}

/// Some update of `h` at `seq` embeds `hash`.
pub open spec fn embedded_in(h: Seq<SignedLedgerUpdate>, seq: u64, hash: Seq<u8>) -> bool {
    exists|i: int| 0 <= i < h.len() && #[trigger] embeds_at(h[i], seq, hash)
}

/// The outcome of checking the embedding: the provider's history of the
/// embedding ledger holds the proof hash at the claimed sequence.
pub open spec fn embedding_verdict<L: LedgerProvider>(b: FraudBroadcast, ledgers: &L) -> Result<(), Seq<char>> {
    let eid = b.embedding.ledger_id@;
    let hash = proof_hash_of(b.proof);
    match ledgers.history(eid) {
        None => Err("embedding ledger "@ + short_text(eid) + " not available to verifier"@),
        Some(h) => if embedded_in(h, b.embedding.sequence, hash) {
            Ok(())
        } else {
            Err(
                "proof_hash "@ + hex8(hash) + " not embedded at seq "@ + decimal_digits(
                    b.embedding.sequence as nat,
                ) + " on ledger "@ + short_text(eid),
            )
        },
    }
}

/// The outcome of verifying a broadcast against what the provider and the
/// oracle give: the chain's structure, the embedding, each link in order,
/// then the claim; the first failure.
pub open spec fn broadcast_verdict<L: LedgerProvider, O: BlockOracle>(
    b: FraudBroadcast,
    ledgers: &L,
    oracle: &O,
) -> Result<(), Seq<char>> {
    match chain_structure_verdict(b) {
        Err(m) => Err(m),
        Ok(()) => match embedding_verdict(b, ledgers) {
            Err(m) => Err(m),
            Ok(()) => match links_verdict(b.causal_chain@, ledgers) {
                Err(m) => Err(m),
                Ok(()) => claim_verdict(b.proof, ledgers, oracle),
            },
        },
    }
}

/// Whether some update of `h` is the one link `l` names.
fn find_link(h: &Vec<SignedLedgerUpdate>, l: &CausalLink) -> (r: bool)
    ensures
        r == exists|i: int| 0 <= i < h@.len() && #[trigger] link_found(h@[i], *l),
{
    let mut i: usize = 0;
    while i < h.len()
        invariant
            i <= h@.len(),
            forall|k: int| 0 <= k < i ==> !#[trigger] link_found(h@[k], *l),
        decreases h@.len() - i,
    {
        let u = &h[i];
        if u.sequence_number == l.sequence {
            match &u.member_ledger_hash {
                Some(mh) => {
                    let x = hex_encode(mh.as_slice());
                    if x == l.member_ledger_hash {
                        assert(link_found(h@[i as int], *l));
                        return true;
                    }
                },
                None => {},
            }
        }
        i = i + 1;
    }
    false
}

/// The history of a ledger, or the error naming it as unavailable.
fn history_or<L: LedgerProvider>(ledgers: &L, id: &str, what: &str) -> (r: Result<Vec<SignedLedgerUpdate>, String>)
    ensures
        match ledgers.history(id@) {
            Some(h) => r is Ok && r->Ok_0@ == h,
            None => r is Err && r->Err_0@ == unavailable(what@, id@),
        },
{
    match ledgers.ledger_history(id) {
        Some(h) => Ok(h),
        None => {
            let mut m = concat_text(what, short_id(id));
            m.append(" not available");
            Err(m)
        },
    }
}

/// Verifies a fraud broadcast: the causal chain's structure, the proof hash
/// embedded at the claimed update, each causal link present on its ledger,
/// and the claim itself. Histories come from `ledgers` and block heights from
/// `block_oracle`; the outcome is `broadcast_verdict` on what they give.
/// The message for a proof hash missing at `seq` on ledger `eid`.
fn not_embedded_message(hash: &[u8; 32], seq: u64, eid: &str) -> (r: String)
    ensures
        r@ == "proof_hash "@ + hex8(hash@) + " not embedded at seq "@ + decimal_digits(seq as nat) + " on ledger "@
            + short_text(eid@),
{
    let mut m = concat_text("proof_hash ", hex_prefix(hash.as_slice()).as_str());
    m.append(" not embedded at seq ");
    m.append(crate::text::decimal(seq).as_str());
    m.append(" on ledger ");
    m.append(short_id(eid));
    m
}

/// Checks that the embedding ledger's history holds the proof hash at the
/// claimed sequence.
#[verifier::rlimit(100)]
#[verifier::spinoff_prover]
fn check_embedding<L: LedgerProvider>(broadcast: &FraudBroadcast, ledgers: &L) -> (r: Result<(), String>)
    ensures
        verdict_is(r, embedding_verdict(*broadcast, ledgers)),
{
    let proof_hash = broadcast.proof.proof_hash();
    let eid = broadcast.embedding.ledger_id.as_str();
    let embed_history = match ledgers.ledger_history(eid) {
        Some(h) => h,
        None => {
            let mut m = concat_text("embedding ledger ", short_id(eid));
            m.append(" not available to verifier");
            return Err(m);
        },
    };
    if !broadcast.embedding.verify_in_history(embed_history.as_slice(), &proof_hash) {
        let m = not_embedded_message(&proof_hash, broadcast.embedding.sequence, eid);
        return Err(m);
    }
    assert(ledgers.history(broadcast.embedding.ledger_id@) == Some(embed_history@));
    assert(embedded_in(embed_history@, broadcast.embedding.sequence, proof_hash_of(broadcast.proof)));
    Ok(())
}

/// Checks causal links in order against the provider's histories.
fn check_links<L: LedgerProvider>(chain: &Vec<CausalLink>, ledgers: &L) -> (r: Result<(), String>)
    ensures
        verdict_is(r, links_verdict(chain@, ledgers)),
{
    assert(chain@.skip(0) =~= chain@);
    let mut i: usize = 0;
    while i < chain.len()
        invariant
            i <= chain@.len(),
            links_verdict(chain@, ledgers) == links_verdict(chain@.skip(i as int), ledgers),
        decreases chain@.len() - i,
    {
        let link = &chain[i];
        assert(chain@.skip(i as int)[0] == chain@[i as int]);
        assert(chain@.skip(i as int).drop_first() =~= chain@.skip(i + 1));
        let lid = link.ledger_id.as_str();
        let history = match ledgers.ledger_history(lid) {
            Some(h) => h,
            None => {
                let mut m = concat_text("link ledger ", short_id(lid));
                m.append(" not available to verifier");
                return Err(m);
            },
        };
        if !find_link(&history, link) {
            let mut m = text_with_number("causal link not found at seq ", link.sequence, " on ledger ");
            m.append(short_id(lid));
            return Err(m);
        }
        i = i + 1;
    }
    assert(chain@.skip(i as int) =~= Seq::<CausalLink>::empty());
    Ok(())
}

/// Checks the claim of a proof against the histories and heights the
/// provider and the oracle give.
#[verifier::rlimit(40)]
fn check_claim<L: LedgerProvider, O: BlockOracle>(proof: &FraudProof, ledgers: &L, block_oracle: &O) -> (r: Result<
    (),
    String,
>)
    ensures
        verdict_is(r, claim_verdict(*proof, ledgers, block_oracle)),
{
    reveal(claim_verdict);
    let aid = proof.ledger_id.as_str();
    match proof.proof_type {
        FraudProofType::StaleCosignature => {
            let mid = match &proof.evidence {
                FraudEvidence::StaleCosign { member_ledger_id, .. } => member_ledger_id.as_str(),
                _ => {
                    return Err("StaleCosignature: wrong evidence type".to_owned());
                },
            };
            let accused = match history_or(ledgers, aid, "accused ledger ") {
                Ok(h) => h,
                Err(e) => {
                    return Err(e);
                },
            };
            let member = match history_or(ledgers, mid, "member ledger ") {
                Ok(h) => h,
                Err(e) => {
                    return Err(e);
                },
            };
            match verify_stale_cosignature(proof, accused.as_slice(), member.as_slice()) {
                Ok(()) => {
                    assert(stale_cosign_verdict(*proof, accused@, member@) is Ok);
                },
                Err(e) => {
                    return Err(e);
                },
            }
        },
        FraudProofType::UncreditedLightningPayment => {
            let accused = match history_or(ledgers, aid, "accused ledger ") {
                Ok(h) => h,
                Err(e) => {
                    return Err(e);
                },
            };
            match verify_uncredited_lightning(proof, accused.as_slice()) {
                Ok(()) => {
                    assert(lightning_verdict(*proof, accused@) is Ok);
                },
                Err(e) => {
                    return Err(e);
                },
            }
        },
        FraudProofType::DisputeDereliction => {
            let mid = match &proof.evidence {
                FraudEvidence::DisputeDereliction { member_ledger_id, .. } => member_ledger_id.as_str(),
                _ => {
                    return Err("DisputeDereliction: wrong evidence type".to_owned());
                },
            };
            let member = match history_or(ledgers, mid, "member ledger ") {
                Ok(h) => h,
                Err(e) => {
                    return Err(e);
                },
            };
            match verify_inactive_quorum_member(proof, member.as_slice(), block_oracle) {
                Ok(()) => {},
                Err(e) => {
                    return Err(e);
                },
            }
        },
        FraudProofType::UncreditedOnchainPayment => {
            let accused = match history_or(ledgers, aid, "accused ledger ") {
                Ok(h) => h,
                Err(e) => {
                    return Err(e);
                },
            };
            match verify_uncredited_onchain(proof, accused.as_slice(), block_oracle) {
                Ok(()) => {},
                Err(e) => {
                    return Err(e);
                },
            }
        },
        FraudProofType::NonConformingUpdate => {},
        FraudProofType::QuorumExpired => {
            let accused = match history_or(ledgers, aid, "accused ledger ") {
                Ok(h) => h,
                Err(e) => {
                    return Err(e);
                },
            };
            match verify_quorum_expired(proof, accused.as_slice(), block_oracle) {
                Ok(()) => {},
                Err(e) => {
                    return Err(e);
                },
            }
        },
        FraudProofType::WinnerCollateralDeviation => {},
    }
    Ok(())
}


#[verifier::rlimit(40)]
pub fn verify_fraud_broadcast<L: LedgerProvider, O: BlockOracle>(
    broadcast: &FraudBroadcast,
    ledgers: &L,
    block_oracle: &O,
) -> (r: Result<(), String>)
    ensures
        verdict_is(r, broadcast_verdict(*broadcast, ledgers, block_oracle)),
{
    match broadcast.verify_chain_structure() {
        Ok(()) => {},
        Err(e) => {
            return Err(e);
        },
    }
    match check_embedding(broadcast, ledgers) {
        Ok(()) => {},
        Err(e) => {
            return Err(e);
        },
    }
    match check_links(&broadcast.causal_chain, ledgers) {
        Ok(()) => {},
        Err(e) => {
            return Err(e);
        },
    }
    check_claim(&broadcast.proof, ledgers, block_oracle)
}

// ============================================================================
// Laws of the verdicts
// ============================================================================

/// The update `find_seq` finds is one of the history's, at that sequence.
proof fn lemma_find_seq_member(h: Seq<SignedLedgerUpdate>, seq: u64)
    ensures
        find_seq(h, seq) matches Some(u) ==> exists|i: int|
            0 <= i < h.len() && #[trigger] h[i] == u && u.sequence_number == seq,
    decreases h.len(),
{
    if h.len() > 0 && h[0].sequence_number != seq {
        lemma_find_seq_member(h.drop_first(), seq);
        match find_seq(h, seq) {
            Some(u) => {
                let i = choose|i: int| 0 <= i < h.drop_first().len() && #[trigger] h.drop_first()[i] == u
                    && u.sequence_number == seq;
                assert(h[i + 1] == u);
            },
            None => {},
        }
    }
}

/// The update `first_declared` finds is one of the history's, with chain
/// hash `d`, below sequence `before`.
proof fn lemma_first_declared_member(h: Seq<SignedLedgerUpdate>, d: Seq<u8>, before: u64)
    ensures
        first_declared(h, d, before) matches Some(u) ==> exists|j: int|
            0 <= j < h.len() && #[trigger] h[j] == u && chain_hash_of(u.content_hash@, u.operator_signature@)
                == d && u.sequence_number < before,
    decreases h.len(),
{
    if h.len() > 0 && !(chain_hash_of(h[0].content_hash@, h[0].operator_signature@) == d
        && h[0].sequence_number < before) {
        lemma_first_declared_member(h.drop_first(), d, before);
        match first_declared(h, d, before) {
            Some(u) => {
                let j = choose|j: int| 0 <= j < h.drop_first().len() && #[trigger] h.drop_first()[j] == u
                    && chain_hash_of(u.content_hash@, u.operator_signature@) == d && u.sequence_number
                    < before;
                assert(h[j + 1] == u);
            },
            None => {},
        }
    }
}

/// A stale-cosignature claim is upheld only if the member's ledger moved on
/// in time: after the update that carries the declared hash, and at or
/// before the later sequence, the member has an update whose block height is
/// no greater than that of the accused's co-signed update.
pub proof fn lemma_stale_cosign_needs_timely_advance(
    p: FraudProof,
    accused: Seq<SignedLedgerUpdate>,
    member: Seq<SignedLedgerUpdate>,
)
    requires
        stale_cosign_verdict(p, accused, member) is Ok,
    ensures
        p.evidence is StaleCosign,
        exists|i: int, j: int, k: int|
            #![trigger accused[i], member[j], member[k]]
            0 <= i < accused.len() && 0 <= j < member.len() && 0 <= k < member.len()
                && accused[i].sequence_number == p.evidence->StaleCosign_stale_update_sequence
                && hex32_of(p.evidence->StaleCosign_declared_member_hash@, "declared_member_hash"@) == Ok::<
                Seq<u8>,
                Seq<char>,
            >(chain_hash_of(member[j].content_hash@, member[j].operator_signature@))
                && member[j].sequence_number < member[k].sequence_number
                && member[k].sequence_number <= p.evidence->StaleCosign_member_later_sequence
                && member[k].block_height <= accused[i].block_height,
{
    match p.evidence {
        FraudEvidence::StaleCosign {
            stale_update_sequence,
            declared_member_hash,
            member_later_sequence,
            ..
        } => {
            lemma_find_seq_member(accused, stale_update_sequence);
            let su = find_seq(accused, stale_update_sequence)->Some_0;
            let i = choose|i: int| 0 <= i < accused.len() && #[trigger] accused[i] == su
                && su.sequence_number == stale_update_sequence;
            let db = hex32_of(declared_member_hash@, "declared_member_hash"@)->Ok_0;
            lemma_first_declared_member(member, db, member_later_sequence);
            let sd = first_declared(member, db, member_later_sequence)->Some_0;
            let j = choose|j: int| 0 <= j < member.len() && #[trigger] member[j] == sd && chain_hash_of(
                sd.content_hash@,
                sd.operator_signature@,
            ) == db && sd.sequence_number < member_later_sequence;
            assert(advanced_by(member, sd.sequence_number, member_later_sequence, su.block_height));
            let k = choose|k: int|
                0 <= k < member.len() && (#[trigger] member[k]).sequence_number > sd.sequence_number
                    && member[k].sequence_number <= member_later_sequence && member[k].block_height
                    <= su.block_height;
            assert(accused[i] == su && member[j] == sd);
        },
        _ => {},
    }
}

/// Some update up to `upto` settling `ph` makes the first settlement found.
proof fn lemma_first_settlement_found(h: Seq<SignedLedgerUpdate>, upto: u64, ph: Seq<u8>, k: int)
    requires
        0 <= k < h.len(),
        h[k].sequence_number <= upto,
        lightning_settlement(h[k], ph) is Some,
    ensures
        first_settlement(h, upto, ph) is Some,
    decreases h.len(),
{
    if k > 0 && !(h[0].sequence_number <= upto && lightning_settlement(h[0], ph) is Some) {
        assert(h.drop_first()[k - 1] == h[k]);
        lemma_first_settlement_found(h.drop_first(), upto, ph, k - 1);
    }
}

/// An uncredited-lightning claim fails when the accused history holds, at or
/// before the proof sequence, an update that credited the invoice with the
/// claimed payment hash or fulfilled it with a preimage that hashes to it.
#[verifier::rlimit(40)]
#[verifier::spinoff_prover]
pub proof fn lemma_settled_payment_is_not_fraud(
    p: FraudProof,
    accused: Seq<SignedLedgerUpdate>,
    k: int,
    phb: Seq<u8>,
)
    requires
        p.evidence is UncreditedLightning,
        hex32_of(p.evidence->UncreditedLightning_payment_hash@, "payment_hash"@) == Ok::<Seq<u8>, Seq<char>>(
            phb,
        ),
        0 <= k < accused.len(),
        accused[k].sequence_number <= p.evidence->UncreditedLightning_proof_sequence,
        (decoded_op(accused[k].message@) matches Some(OperationView::InvoiceFulfill { preimage, .. })
            && sha256_of(preimage) == phb) || (decoded_op(accused[k].message@) matches Some(
            OperationView::InvoiceCredit { payment_hash, .. },
        ) && payment_hash == phb),
    ensures
        lightning_verdict(p, accused) is Err,
{
    reveal(lightning_settlement);
    assert(lightning_settlement(accused[k], phb) is Some);
    lemma_first_settlement_found(accused, p.evidence->UncreditedLightning_proof_sequence, phb, k);
}

} // verus!
