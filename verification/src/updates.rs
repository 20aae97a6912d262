//! Signed ledger updates: their content and chain hashes, the data each
//! party signs, signature checks, and the append-only log that keeps the
//! hash chain.

use std::collections::HashMap;

use vstd::prelude::*;

use crate::bytes::{bytes_eq, bytes_less, bytes_lt, copy_range, extend_bytes, push_u64_le, u64_le};
use crate::crypto::{hex_encode, hex_lower, sha256, sha256_of, sha2_digest, sha2_digest_of};
use crate::error::DepositsError;
use crate::pubkey::PublicKey;
use crate::text::{concat_text, decimal_digits, text_with_number, text_with_numbers, utf8_bytes};
use crate::types::{Deposit, DepositId, FeeStructure};

verus! {

// ============================================================================
// Signature verification
// ============================================================================

/// `sig` is a valid BIP-340 signature by the x-only form of `key` over
/// `digest`.
pub uninterp spec fn schnorr_valid(key: Seq<u8>, digest: Seq<u8>, sig: Seq<u8>) -> bool;

/// Verifies a BIP-340 signature over a 32-byte digest.
///
/// Trusted: converts the key, digest and signature to `secp256k1` values
/// (`PublicKey::from_slice`, `Message::from_digest`,
/// `schnorr::Signature::from_slice`, `x_only_public_key`; none of these fails
/// on a valid key and 64 bytes) and calls `Secp256k1::verify_schnorr`, whose
/// only error is `IncorrectSignature`, displayed as "signature failed
/// verification". Validity is named.
#[verifier::external_body]
pub(crate) fn verify_schnorr(key: &PublicKey, digest: &[u8; 32], sig: &[u8; 64]) -> (r: Result<(), String>)
    ensures
        match r {
            Ok(()) => schnorr_valid(key@, digest@, sig@),
            Err(e) => !schnorr_valid(key@, digest@, sig@) && e@ == "signature failed verification"@,
        },
{
    let pk = match bitcoin::secp256k1::PublicKey::from_slice(&key.serialize()) {
        Ok(p) => p,
        Err(e) => return Err(e.to_string()),
    };
    let sig = match bitcoin::secp256k1::schnorr::Signature::from_slice(sig) {
        Ok(s) => s,
        Err(e) => return Err(e.to_string()),
    };
    let msg = bitcoin::secp256k1::Message::from_digest(*digest);
    let (xonly, _) = pk.x_only_public_key();
    match bitcoin::secp256k1::Secp256k1::verification_only().verify_schnorr(&sig, &msg, &xonly) {
        Ok(()) => Ok(()),
        Err(e) => Err(e.to_string()),
    }
}

// ============================================================================
// Signed updates
// ============================================================================

/// One quorum member's cosignature.
#[derive(Clone, Debug, PartialEq, Eq)]
pub struct CosignEntry {
    /// The member who co-signed.
    pub cosigner_pubkey: PublicKey,
    /// Signature over the tagged cosign data and the member's ledger hash.
    pub cosign_signature: [u8; 64],
    /// Hash of the member's own ledger when signing.
    pub member_ledger_hash: [u8; 32],
}

/// A signed update to the ledger state.
#[derive(Clone, Debug, PartialEq, Eq)]
pub struct SignedLedgerUpdate {
    /// The serialized message carrying the operation.
    pub message: Vec<u8>,
    /// Type of the message.
    pub message_type: u16,
    /// Operator's public key.
    pub operator_id: PublicKey,
    /// Ledger identifier.
    pub ledger_id: [u8; 32],
    /// Sequence number (0 for the ledger's opening).
    pub sequence_number: u64,
    /// Chain hash of the previous update.
    pub previous_hash: [u8; 32],
    /// Hash of this update's content.
    pub content_hash: [u8; 32],
    /// Block height when the update was created.
    pub block_height: u32,
    /// Block hash when the update was created.
    pub block_hash: [u8; 32],
    /// Single co-signer's signature (legacy form).
    pub cosign_signature: [u8; 64],
    /// Operator's signature over the content and the cosignatures.
    pub operator_signature: [u8; 64],
    /// The single co-signer's key (legacy form).
    pub cosigner_pubkey: Option<PublicKey>,
    /// The single co-signer's ledger hash (legacy form).
    pub member_ledger_hash: Option<[u8; 32]>,
    /// Majority cosignatures; when present the legacy fields are ignored.
    pub cosignatures: Vec<CosignEntry>,
}

/// A cosignature as plain values: key, signature, member ledger hash.
pub type CosignView = (Seq<u8>, Seq<u8>, Seq<u8>);

/// A cosignature's plain values.
pub open spec fn entry_view(e: CosignEntry) -> CosignView {
    (e.cosigner_pubkey@, e.cosign_signature@, e.member_ledger_hash@)
}

/// A signed update as plain values.
pub struct SignedLedgerUpdateView {
    pub message: Seq<u8>,
    pub message_type: u16,
    pub operator_id: Seq<u8>,
    pub ledger_id: Seq<u8>,
    pub sequence_number: u64,
    pub previous_hash: Seq<u8>,
    pub content_hash: Seq<u8>,
    pub block_height: u32,
    pub block_hash: Seq<u8>,
    pub cosign_signature: Seq<u8>,
    pub operator_signature: Seq<u8>,
    pub cosigner_pubkey: Option<Seq<u8>>,
    pub member_ledger_hash: Option<Seq<u8>>,
    pub cosignatures: Seq<CosignView>,
}

impl View for SignedLedgerUpdate {
    type V = SignedLedgerUpdateView;

    open spec fn view(&self) -> SignedLedgerUpdateView {
        SignedLedgerUpdateView {
            message: self.message@,
            message_type: self.message_type,
            operator_id: self.operator_id@,
            ledger_id: self.ledger_id@,
            sequence_number: self.sequence_number,
            previous_hash: self.previous_hash@,
            content_hash: self.content_hash@,
            block_height: self.block_height,
            block_hash: self.block_hash@,
            cosign_signature: self.cosign_signature@,
            operator_signature: self.operator_signature@,
            cosigner_pubkey: match self.cosigner_pubkey {
                Some(k) => Some(k@),
                None => None,
            },
            member_ledger_hash: match self.member_ledger_hash {
                Some(h) => Some(h@),
                None => None,
            },
            cosignatures: self.cosignatures@.map_values(|e: CosignEntry| entry_view(e)),
        }
    }
}

/// Every byte is zero.
pub open spec fn all_zero(s: Seq<u8>) -> bool {
    forall|i: int| 0 <= i < s.len() ==> s[i] == 0
}

/// Whether every byte is zero.
pub(crate) fn is_zero(b: &[u8]) -> (r: bool)
    ensures
        r == all_zero(b@),
{
    let mut i: usize = 0;
    while i < b.len()
        invariant
            i <= b@.len(),
            forall|j: int| 0 <= j < i ==> b@[j] == 0,
        decreases b@.len() - i,
    {
        if b[i] != 0 {
            return false;
        }
        i = i + 1;
    }
    true
}

/// `a` is ordered before `b` by its cosigner's key.
pub open spec fn entry_before(a: CosignEntry, b: CosignEntry) -> bool {
    bytes_lt(a.cosigner_pubkey@, b.cosigner_pubkey@)
}

/// `x` inserted into `s` after every entry not ordered after it.
pub open spec fn insert_sorted(s: Seq<CosignEntry>, x: CosignEntry) -> Seq<CosignEntry>
    decreases s.len(),
{
    if s.len() == 0 {
        seq![x]
    } else if entry_before(x, s.last()) {
        insert_sorted(s.drop_last(), x).push(s.last())
    } else {
        s.push(x)
    }
}

/// The entries sorted by cosigner key, entries with equal keys in their
/// original order.
pub open spec fn sort_entries(s: Seq<CosignEntry>) -> Seq<CosignEntry>
    decreases s.len(),
{
    if s.len() == 0 {
        seq![]
    } else {
        insert_sorted(sort_entries(s.drop_last()), s.last())
    }
}

/// Where the insertion stops, inserting is placing `x` there.
proof fn lemma_insert_sorted_at(s: Seq<CosignEntry>, x: CosignEntry, j: int)
    requires
        0 <= j <= s.len(),
        forall|k: int| j <= k < s.len() ==> entry_before(x, #[trigger] s[k]),
        j == 0 || !entry_before(x, s[j - 1]),
    ensures
        insert_sorted(s, x) == s.insert(j, x),
    decreases s.len(),
{
    if s.len() == 0 {
        assert(s.insert(j, x) =~= seq![x]);
    } else if j == s.len() {
        assert(s.last() == s[j - 1]);
        assert(s.insert(j, x) =~= s.push(x));
    } else {
        let init = s.drop_last();
        assert(entry_before(x, s[s.len() - 1]));
        assert forall|k: int| j <= k < init.len() implies entry_before(x, #[trigger] init[k]) by {
            assert(init[k] == s[k]);
        }
        if j > 0 {
            assert(init[j - 1] == s[j - 1]);
        }
        lemma_insert_sorted_at(init, x, j);
        assert(init.insert(j, x).push(s.last()) =~= s.insert(j, x));
    }
}

fn copy_entry(e: &CosignEntry) -> (r: CosignEntry)
    ensures
        r == *e,
{
    CosignEntry {
        cosigner_pubkey: e.cosigner_pubkey,
        cosign_signature: e.cosign_signature,
        member_ledger_hash: e.member_ledger_hash,
    }
}

/// Inserts `x` into the sorted `v`.
pub(crate) fn insert_entry(v: &mut Vec<CosignEntry>, x: CosignEntry)
    ensures
        final(v)@ == insert_sorted(old(v)@, x),
{
    let ghost s = v@;
    let mut j: usize = v.len();
    let kx = x.cosigner_pubkey.serialize();
    while j > 0
        invariant
            j <= s.len(),
            v@ == s,
            kx@ == x.cosigner_pubkey@,
            forall|k: int| j <= k < s.len() ==> entry_before(x, #[trigger] s[k]),
        ensures
            j <= s.len(),
            v@ == s,
            forall|k: int| j <= k < s.len() ==> entry_before(x, #[trigger] s[k]),
            j == 0 || !entry_before(x, s[j - 1]),
        decreases j,
    {
        let ky = v[j - 1].cosigner_pubkey.serialize();
        if !bytes_less(kx.as_slice(), ky.as_slice()) {
            break;
        }
        j = j - 1;
    }
    proof {
        lemma_insert_sorted_at(s, x, j as int);
    }
    v.insert(j, x);
}

/// The bytes the content hash covers for sorted cosignatures: each entry's
/// ledger hash and signature.
pub open spec fn cosig_hash_bytes(es: Seq<CosignEntry>) -> Seq<u8>
    decreases es.len(),
{
    if es.len() == 0 {
        seq![]
    } else {
        cosig_hash_bytes(es.drop_last()) + es.last().member_ledger_hash@ + es.last().cosign_signature@
    }
}

/// The cosignatures of sorted entries, concatenated.
pub open spec fn cosig_signature_bytes(es: Seq<CosignEntry>) -> Seq<u8>
    decreases es.len(),
{
    if es.len() == 0 {
        seq![]
    } else {
        cosig_signature_bytes(es.drop_last()) + es.last().cosign_signature@
    }
}

/// What a co-signer signs: sequence number (little-endian), previous hash,
/// message.
pub open spec fn cosign_data_of(u: SignedLedgerUpdate) -> Seq<u8> {
    u64_le(u.sequence_number) + u.previous_hash@ + u.message@
}

/// What the content hash covers: the cosign data, then either every sorted
/// cosignature with its ledger hash, or the legacy ledger hash and nonzero
/// signature where present.
pub open spec fn content_preimage(u: SignedLedgerUpdate) -> Seq<u8> {
    cosign_data_of(u) + if u.cosignatures@.len() > 0 {
        cosig_hash_bytes(sort_entries(u.cosignatures@))
    } else {
        (match u.member_ledger_hash {
            Some(h) => h@,
            None => seq![],
        }) + if all_zero(u.cosign_signature@) {
            seq![]
        } else {
            u.cosign_signature@
        }
    }
}

/// What the operator signs: the cosign data and every cosignature (sorted),
/// or the legacy signature.
pub open spec fn operator_data_of(u: SignedLedgerUpdate) -> Seq<u8> {
    cosign_data_of(u) + if u.cosignatures@.len() > 0 {
        cosig_signature_bytes(sort_entries(u.cosignatures@))
    } else {
        u.cosign_signature@
    }
}

/// The tagged digest a co-signer signs: SHA-256 over the digest of
/// "deposits/cosign" twice, the cosign data and the member's ledger hash.
pub open spec fn cosign_digest(cosign_data: Seq<u8>, member_ledger_hash: Seq<u8>) -> Seq<u8> {
    let t = sha256_of(vstd::utf8::encode_utf8("deposits/cosign"@));
    sha256_of(t + t + cosign_data + member_ledger_hash)
}

/// The chain hash of an update with this content hash and operator
/// signature.
pub open spec fn chain_hash_of(content_hash: Seq<u8>, operator_signature: Seq<u8>) -> Seq<u8> {
    sha2_digest_of(content_hash + operator_signature)
}

/// The digest of `data` for a cosignature, with the member's ledger hash.
fn cosign_digest_exec(data: &Vec<u8>, member_ledger_hash: &[u8; 32]) -> (r: [u8; 32])
    ensures
        r@ == cosign_digest(data@, member_ledger_hash@),
{
    let tag = utf8_bytes("deposits/cosign");
    let tag_hash = sha256(tag.as_slice());
    let mut tagged: Vec<u8> = Vec::new();
    extend_bytes(&mut tagged, tag_hash.as_slice());
    extend_bytes(&mut tagged, tag_hash.as_slice());
    extend_bytes(&mut tagged, data.as_slice());
    extend_bytes(&mut tagged, member_ledger_hash.as_slice());
    sha256(tagged.as_slice())
}

/// The first 8 bytes of a key, as hex.
pub open spec fn key_prefix_hex(key: Seq<u8>) -> Seq<char> {
    hex_lower(key.subrange(0, 8))
}

/// Why a set of cosignatures fails verification, checking entries in order,
/// or `None`.
pub open spec fn cosignature_failure(
    entries: Seq<CosignEntry>,
    quorum: Seq<PublicKey>,
    cosign_data: Seq<u8>,
) -> Option<Seq<char>>
    decreases entries.len(),
{
    if entries.len() == 0 {
        None
    } else {
        match cosignature_failure(entries.drop_last(), quorum, cosign_data) {
            Some(f) => Some(f),
            None => {
                let e = entries.last();
                let key = e.cosigner_pubkey@;
                if exists|i: int| 0 <= i < entries.len() - 1 && #[trigger] entries[i].cosigner_pubkey@ == key {
                    Some("Duplicate cosigner: "@ + key_prefix_hex(key))
                } else if !(exists|i: int| 0 <= i < quorum.len() && #[trigger] quorum[i]@ == key) {
                    Some("Cosigner "@ + key_prefix_hex(key) + " not in quorum"@)
                } else if !schnorr_valid(
                    key,
                    cosign_digest(cosign_data, e.member_ledger_hash@),
                    e.cosign_signature@,
                ) {
                    Some(
                        "Cosig verification failed for "@ + key_prefix_hex(key)
                            + ": signature failed verification"@,
                    )
                } else {
                    None
                }
            },
        }
    }
}

/// A failure found among the first entries is the failure of the whole list.
proof fn lemma_failure_of_prefix(
    entries: Seq<CosignEntry>,
    n: int,
    quorum: Seq<PublicKey>,
    cosign_data: Seq<u8>,
)
    requires
        0 <= n <= entries.len(),
        cosignature_failure(entries.take(n), quorum, cosign_data) is Some,
    ensures
        cosignature_failure(entries, quorum, cosign_data) == cosignature_failure(
            entries.take(n),
            quorum,
            cosign_data,
        ),
    decreases entries.len(),
{
    if n == entries.len() {
        assert(entries.take(n) =~= entries);
    } else {
        assert(entries.drop_last().take(n) =~= entries.take(n));
        lemma_failure_of_prefix(entries.drop_last(), n, quorum, cosign_data);
    }
}

impl SignedLedgerUpdate {
    /// The cosignature entries sorted by cosigner key (stably).
    pub fn sorted_cosignatures(&self) -> (r: Vec<CosignEntry>)
        ensures
            r@ == sort_entries(self.cosignatures@),
    {
        let mut r: Vec<CosignEntry> = Vec::new();
        let mut i: usize = 0;
        while i < self.cosignatures.len()
            invariant
                i <= self.cosignatures@.len(),
                r@ == sort_entries(self.cosignatures@.take(i as int)),
            decreases self.cosignatures@.len() - i,
        {
            assert(self.cosignatures@.take(i + 1).drop_last() =~= self.cosignatures@.take(i as int));
            assert(self.cosignatures@.take(i + 1).last() == self.cosignatures@[i as int]);
            let e = copy_entry(&self.cosignatures[i]);
            insert_entry(&mut r, e);
            i = i + 1;
        }
        assert(self.cosignatures@.take(i as int) =~= self.cosignatures@);
        r
    }

    /// The data a co-signer signs: sequence number (little-endian),
    /// previous hash, message.
    pub fn cosign_data(&self) -> (r: Vec<u8>)
        ensures
            r@ == cosign_data_of(*self),
    {
        let mut data: Vec<u8> = Vec::new();
        push_u64_le(&mut data, self.sequence_number);
        extend_bytes(&mut data, self.previous_hash.as_slice());
        extend_bytes(&mut data, self.message.as_slice());
        data
    }

    /// The content hash: the `sha2` digest of the cosign data and the
    /// cosignatures (see [`content_preimage`]).
    pub fn compute_hash(&self) -> (r: [u8; 32])
        ensures
            r@ == sha2_digest_of(content_preimage(*self)),
    {
        let mut data = self.cosign_data();
        let ghost base = data@;
        if self.cosignatures.len() > 0 {
            let sorted = self.sorted_cosignatures();
            let mut i: usize = 0;
            while i < sorted.len()
                invariant
                    i <= sorted@.len(),
                    data@ == base + cosig_hash_bytes(sorted@.take(i as int)),
                decreases sorted@.len() - i,
            {
                assert(sorted@.take(i + 1).drop_last() =~= sorted@.take(i as int));
                assert(sorted@.take(i + 1).last() == sorted@[i as int]);
                extend_bytes(&mut data, sorted[i].member_ledger_hash.as_slice());
                extend_bytes(&mut data, sorted[i].cosign_signature.as_slice());
                i = i + 1;
            }
            assert(sorted@.take(i as int) =~= sorted@);
        } else {
            match &self.member_ledger_hash {
                Some(h) => extend_bytes(&mut data, h.as_slice()),
                None => {},
            }
            if !is_zero(self.cosign_signature.as_slice()) {
                extend_bytes(&mut data, self.cosign_signature.as_slice());
            }
        }
        assert(data@ =~= content_preimage(*self));
        sha2_digest(data.as_slice())
    }

    /// The chain hash: the `sha2` digest of the content hash and the
    /// operator signature; the next update's previous hash.
    pub fn chain_hash(&self) -> (r: [u8; 32])
        ensures
            r@ == chain_hash_of(self.content_hash@, self.operator_signature@),
    {
        let mut data: Vec<u8> = Vec::new();
        extend_bytes(&mut data, self.content_hash.as_slice());
        extend_bytes(&mut data, self.operator_signature.as_slice());
        sha2_digest(data.as_slice())
    }

    /// Whether the stored content hash is the computed one.
    pub fn verify_hash(&self) -> (r: bool)
        ensures
            r == (self.content_hash@ == sha2_digest_of(content_preimage(*self))),
    {
        let h = self.compute_hash();
        bytes_eq(h.as_slice(), self.content_hash.as_slice())
    }

    /// The ledger ID as lowercase hex.
    pub fn ledger_id_hex(&self) -> (r: String)
        ensures
            r@ == hex_lower(self.ledger_id@),
    {
        hex_encode(self.ledger_id.as_slice())
    }

    /// The data the operator signs: the cosign data and the cosignatures.
    pub fn operator_signing_data(&self) -> (r: Vec<u8>)
        ensures
            r@ == operator_data_of(*self),
    {
        let mut data = self.cosign_data();
        let ghost base = data@;
        if self.cosignatures.len() > 0 {
            let sorted = self.sorted_cosignatures();
            let mut i: usize = 0;
            while i < sorted.len()
                invariant
                    i <= sorted@.len(),
                    data@ == base + cosig_signature_bytes(sorted@.take(i as int)),
                decreases sorted@.len() - i,
            {
                assert(sorted@.take(i + 1).drop_last() =~= sorted@.take(i as int));
                assert(sorted@.take(i + 1).last() == sorted@[i as int]);
                extend_bytes(&mut data, sorted[i].cosign_signature.as_slice());
                i = i + 1;
            }
            assert(sorted@.take(i as int) =~= sorted@);
        } else {
            extend_bytes(&mut data, self.cosign_signature.as_slice());
        }
        assert(data@ =~= operator_data_of(*self));
        data
    }

    /// Verifies the legacy co-signer's signature; passes where no co-signer
    /// key is given or no signature is present.
    pub fn verify_cosign_signature(&self, partner_pubkey: Option<&PublicKey>) -> (r: Result<(), String>)
        ensures
            match partner_pubkey {
                None => r is Ok,
                Some(pk) => if all_zero(self.cosign_signature@) {
                    r is Ok
                } else {
                    let digest = cosign_digest(
                        cosign_data_of(*self),
                        match self.member_ledger_hash {
                            Some(h) => h@,
                            None => Seq::new(32, |i: int| 0u8),
                        },
                    );
                    if schnorr_valid(pk@, digest, self.cosign_signature@) {
                        r is Ok
                    } else {
                        r is Err && r->Err_0@
                            == "Co-signer signature verification failed: signature failed verification"@
                    }
                },
            },
    {
        let pk = match partner_pubkey {
            Some(pk) => pk,
            None => {
                return Ok(());
            },
        };
        if is_zero(self.cosign_signature.as_slice()) {
            return Ok(());
        }
        let data = self.cosign_data();
        let member_hash = match &self.member_ledger_hash {
            Some(h) => *h,
            None => [0u8; 32],
        };
        assert(member_hash@ == match self.member_ledger_hash {
            Some(h) => h@,
            None => Seq::new(32, |i: int| 0u8),
        });
        let digest = cosign_digest_exec(&data, &member_hash);
        match verify_schnorr(pk, &digest, &self.cosign_signature) {
            Ok(()) => Ok(()),
            Err(e) => {
                let m = concat_text("Co-signer signature verification failed: ", e.as_str());
                proof {
                    reveal_strlit("Co-signer signature verification failed: ");
                    reveal_strlit("signature failed verification");
                    reveal_strlit("Co-signer signature verification failed: signature failed verification");
                    assert(m@ =~= "Co-signer signature verification failed: signature failed verification"@);
                }
                Err(m)
            },
        }
    }

    /// Verifies the operator's signature over the operator signing data.
    pub fn verify_operator_signature(&self) -> (r: Result<(), String>)
        ensures
            if schnorr_valid(
                self.operator_id@,
                sha256_of(operator_data_of(*self)),
                self.operator_signature@,
            ) {
                r is Ok
            } else {
                r is Err && r->Err_0@
                    == "Operator signature verification failed: signature failed verification"@
            },
    {
        let data = self.operator_signing_data();
        let digest = sha256(data.as_slice());
        match verify_schnorr(&self.operator_id, &digest, &self.operator_signature) {
            Ok(()) => Ok(()),
            Err(e) => {
                let m = concat_text("Operator signature verification failed: ", e.as_str());
                proof {
                    reveal_strlit("Operator signature verification failed: ");
                    reveal_strlit("signature failed verification");
                    reveal_strlit("Operator signature verification failed: signature failed verification");
                    assert(m@ =~= "Operator signature verification failed: signature failed verification"@);
                }
                Err(m)
            },
        }
    }

    /// Verifies majority cosignatures: there are some, at least `threshold`,
    /// and each in turn is by a distinct quorum member with a valid
    /// signature.
    pub fn verify_cosign_signatures(&self, quorum_members: &[PublicKey], threshold: usize) -> (r: Result<
        (),
        String,
    >)
        ensures
            if self.cosignatures@.len() == 0 {
                r is Err && r->Err_0@ == "No cosignatures present"@
            } else if self.cosignatures@.len() < threshold {
                r is Err && r->Err_0@ == "Insufficient cosignatures: "@ + decimal_digits(
                    self.cosignatures@.len(),
                ) + " of "@ + decimal_digits(threshold as nat) + " required"@
            } else {
                match cosignature_failure(self.cosignatures@, quorum_members@, cosign_data_of(*self)) {
                    None => r is Ok,
                    Some(f) => r is Err && r->Err_0@ == f,
                }
            },
    {
        if self.cosignatures.len() == 0 {
            return Err("No cosignatures present".to_owned());
        }
        if self.cosignatures.len() < threshold {
            let mut m = text_with_numbers(
                "Insufficient cosignatures: ",
                self.cosignatures.len() as u64,
                " of ",
                threshold as u64,
            );
            m.append(" required");
            return Err(m);
        }
        let data = self.cosign_data();
        let ghost es = self.cosignatures@;
        let ghost q = quorum_members@;
        let mut i: usize = 0;
        while i < self.cosignatures.len()
            invariant
                i <= es.len(),
                es == self.cosignatures@,
                q == quorum_members@,
                data@ == cosign_data_of(*self),
                cosignature_failure(es.take(i as int), q, data@) is None,
                es.len() > 0,
                es.len() >= threshold,
            decreases es.len() - i,
        {
            let ghost pre = es.take(i as int);
            assert(es.take(i + 1).drop_last() =~= pre);
            assert(es.take(i + 1).last() == es[i as int]);
            let entry = &self.cosignatures[i];
            let key = entry.cosigner_pubkey.serialize();
            let prefix = crate::bytes::copy_range(key.as_slice(), 0, 8);
            let ghost kv = entry.cosigner_pubkey@;
            let mut j: usize = 0;
            while j < i
                invariant
                    j <= i < es.len(),
                    es == self.cosignatures@,
                    key@ == kv,
                    kv == es[i as int].cosigner_pubkey@,
                    *entry == es[i as int],
                    forall|k: int| 0 <= k < j ==> (#[trigger] es[k]).cosigner_pubkey@ != kv,
                    q == quorum_members@,
                    data@ == cosign_data_of(*self),
                    pre == es.take(i as int),
                    cosignature_failure(pre, q, data@) is None,
                    prefix@ == kv.subrange(0, 8),
                    es.len() > 0,
                    es.len() >= threshold,
                decreases i - j,
            {
                if self.cosignatures[j].cosigner_pubkey == entry.cosigner_pubkey {
                    assert(es.take(i + 1)[j as int].cosigner_pubkey@ == kv);
                    let h = hex_encode(prefix.as_slice());
                    let msg = concat_text("Duplicate cosigner: ", h.as_str());
                    proof {
                        let t = es.take(i + 1);
                        assert(t.drop_last() =~= pre);
                        assert(t.last() == es[i as int]);
                        assert(h@ == key_prefix_hex(kv));
                        assert(0 <= j < t.len() - 1 && t[j as int].cosigner_pubkey@ == kv);
                        assert(cosignature_failure(t, q, data@) == Some(msg@));
                        lemma_failure_of_prefix(es, i + 1, q, data@);
                    }
                    return Err(msg);
                }
                j = j + 1;
            }
            assert(!(exists|k: int| 0 <= k < es.take(i + 1).len() - 1 && #[trigger] es.take(i + 1)[k].cosigner_pubkey@ == kv)) by {
                assert forall|k: int| 0 <= k < es.take(i + 1).len() - 1 implies #[trigger] es.take(i + 1)[k].cosigner_pubkey@ != kv by {
                    assert(es.take(i + 1)[k] == es[k]);
                }
            }
            let mut found = false;
            let mut m: usize = 0;
            while m < quorum_members.len()
                invariant
                    m <= q.len(),
                    q == quorum_members@,
                    found == (exists|k: int| 0 <= k < m && #[trigger] q[k]@ == kv),
                    key@ == kv,
                    kv == entry.cosigner_pubkey@,
                    *entry == es[i as int],
                    es == self.cosignatures@,
                decreases q.len() - m,
            {
                if quorum_members[m] == entry.cosigner_pubkey {
                    found = true;
                }
                m = m + 1;
            }
            if !found {
                let h = hex_encode(prefix.as_slice());
                let mut msg = concat_text("Cosigner ", h.as_str());
                msg.append(" not in quorum");
                proof {
                    let t = es.take(i + 1);
                    assert(t.drop_last() =~= pre);
                    assert(t.last() == es[i as int]);
                    assert(h@ == key_prefix_hex(kv));
                    assert(cosignature_failure(t, q, data@) == Some(msg@));
                    lemma_failure_of_prefix(es, i + 1, q, data@);
                }
                return Err(msg);
            }
            let digest = cosign_digest_exec(&data, &entry.member_ledger_hash);
            match verify_schnorr(&entry.cosigner_pubkey, &digest, &entry.cosign_signature) {
                Ok(()) => {},
                Err(e) => {
                    let h = hex_encode(prefix.as_slice());
                    let mut msg = concat_text("Cosig verification failed for ", h.as_str());
                    msg.append(": ");
                    msg.append(e.as_str());
                    proof {
                        reveal_strlit(": ");
                        reveal_strlit("signature failed verification");
                        reveal_strlit(": signature failed verification");
                        assert(msg@ =~= "Cosig verification failed for "@ + h@ + ": signature failed verification"@);
                        let t = es.take(i + 1);
                        assert(t.drop_last() =~= pre);
                        assert(t.last() == es[i as int]);
                        assert(h@ == key_prefix_hex(kv));
                        assert(cosignature_failure(t, q, data@) == Some(msg@));
                        lemma_failure_of_prefix(es, i + 1, q, data@);
                    }
                    return Err(msg);
                },
            }
            i = i + 1;
        }
        assert(es.take(i as int) =~= es);
        Ok(())
    }

    /// Verifies the legacy co-signer's signature, then the operator's.
    pub fn verify_signatures(&self, partner_pubkey: Option<&PublicKey>) -> (r: Result<(), String>)
        ensures
            r is Ok <==> (self.verify_cosign_ok(partner_pubkey) && schnorr_valid(
                self.operator_id@,
                sha256_of(operator_data_of(*self)),
                self.operator_signature@,
            )),
    {
        match self.verify_cosign_signature(partner_pubkey) {
            Ok(()) => {},
            Err(e) => {
                return Err(e);
            },
        }
        self.verify_operator_signature()
    }

    /// The legacy cosignature check passes.
    pub open spec fn verify_cosign_ok(&self, partner_pubkey: Option<&PublicKey>) -> bool {
        match partner_pubkey {
            None => true,
            Some(pk) => all_zero(self.cosign_signature@) || schnorr_valid(
                pk@,
                cosign_digest(
                    cosign_data_of(*self),
                    match self.member_ledger_hash {
                        Some(h) => h@,
                        None => Seq::new(32, |i: int| 0u8),
                    },
                ),
                self.cosign_signature@,
            ),
        }
    }

    /// Whether some co-signer and the operator have signed (nonzero
    /// signatures).
    pub fn is_fully_signed(&self) -> (r: bool)
        ensures
            r == ((self.cosignatures@.len() > 0 || !all_zero(self.cosign_signature@)) && !all_zero(
                self.operator_signature@,
            )),
    {
        let has_cosig = self.cosignatures.len() > 0 || !is_zero(self.cosign_signature.as_slice());
        has_cosig && !is_zero(self.operator_signature.as_slice())
    }

    /// Whether some co-signer has signed.
    pub fn has_cosign_signature(&self) -> (r: bool)
        ensures
            r == (self.cosignatures@.len() > 0 || !all_zero(self.cosign_signature@)),
    {
        self.cosignatures.len() > 0 || !is_zero(self.cosign_signature.as_slice())
    }

    /// Whether the operator has signed (nonzero signature).
    pub fn has_operator_signature(&self) -> (r: bool)
        ensures
            r == !all_zero(self.operator_signature@),
    {
        !is_zero(self.operator_signature.as_slice())
    }
}


/// `a` and `b` hold the same values, their byte and cosignature lists
/// taken by their contents.
pub open spec fn same_update(a: SignedLedgerUpdate, b: SignedLedgerUpdate) -> bool {
    &&& a.message@ == b.message@
    &&& a.message_type == b.message_type
    &&& a.operator_id == b.operator_id
    &&& a.ledger_id == b.ledger_id
    &&& a.sequence_number == b.sequence_number
    &&& a.previous_hash == b.previous_hash
    &&& a.content_hash == b.content_hash
    &&& a.block_height == b.block_height
    &&& a.block_hash == b.block_hash
    &&& a.cosign_signature == b.cosign_signature
    &&& a.operator_signature == b.operator_signature
    &&& a.cosigner_pubkey == b.cosigner_pubkey
    &&& a.member_ledger_hash == b.member_ledger_hash
    &&& a.cosignatures@ == b.cosignatures@
}

/// A copy of `u`, field by field.
pub fn copy_update(u: &SignedLedgerUpdate) -> (r: SignedLedgerUpdate)
    ensures
        same_update(r, *u),
{
    let mut cos: Vec<CosignEntry> = Vec::new();
    let mut i: usize = 0;
    while i < u.cosignatures.len()
        invariant
            i <= u.cosignatures@.len(),
            cos@ == u.cosignatures@.take(i as int),
        decreases u.cosignatures@.len() - i,
    {
        cos.push(copy_entry(&u.cosignatures[i]));
        proof {
            assert(u.cosignatures@.take(i + 1) =~= u.cosignatures@.take(i as int).push(
                u.cosignatures@[i as int],
            ));
        }
        i = i + 1;
    }
    assert(u.cosignatures@.take(i as int) =~= u.cosignatures@);
    let r = SignedLedgerUpdate {
        message: copy_range(u.message.as_slice(), 0, u.message.len()),
        message_type: u.message_type,
        operator_id: u.operator_id,
        ledger_id: u.ledger_id,
        sequence_number: u.sequence_number,
        previous_hash: u.previous_hash,
        content_hash: u.content_hash,
        block_height: u.block_height,
        block_hash: u.block_hash,
        cosign_signature: u.cosign_signature,
        operator_signature: u.operator_signature,
        cosigner_pubkey: u.cosigner_pubkey,
        member_ledger_hash: u.member_ledger_hash,
        cosignatures: cos,
    };
    assert(r.message@ =~= u.message@);
    r
}

// ============================================================================
// Hash chain entries
// ============================================================================

/// One entry of a plain hash chain of updates.
#[derive(Clone, Debug, PartialEq, Eq)]
pub struct LedgerUpdate {
    /// Sequential update number, from 0.
    pub sequence_number: u64,
    /// The serialized protocol message of this transition.
    pub message: Vec<u8>,
    /// Hash of the previous update (zeros for the first).
    pub previous_hash: [u8; 32],
    /// Hash of this update.
    pub consensus_hash: [u8; 32],
}

/// The bytes an update's hash covers: the little-endian sequence number,
/// the previous hash and the message.
pub open spec fn ledger_update_preimage(u: LedgerUpdate) -> Seq<u8> {
    u64_le(u.sequence_number) + u.previous_hash@ + u.message@
}

impl LedgerUpdate {
    /// The `sha2` digest of the sequence number, previous hash and message.
    pub fn calculate_hash(&self) -> (r: [u8; 32])
        ensures
            r@ == sha2_digest_of(ledger_update_preimage(*self)),
    {
        let mut data: Vec<u8> = Vec::new();
        push_u64_le(&mut data, self.sequence_number);
        extend_bytes(&mut data, self.previous_hash.as_slice());
        extend_bytes(&mut data, self.message.as_slice());
        assert(data@ =~= ledger_update_preimage(*self));
        sha2_digest(data.as_slice())
    }
}

// ============================================================================
// The signed update log
// ============================================================================

/// An append-only log of signed updates that keeps the hash chain.
#[derive(Clone, Debug, PartialEq, Eq)]
pub struct SignedLedgerUpdateLog {
    /// Ledger identifier.
    pub ledger_id: [u8; 32],
    /// The updates, in sequence order.
    pub updates: Vec<SignedLedgerUpdate>,
    /// The next sequence number expected.
    pub next_sequence: u64,
    /// Updates that came early, keyed by sequence number.
    pub pending_updates: HashMap<u64, SignedLedgerUpdate>,
}

/// Thirty-two zero bytes.
pub open spec fn zero_hash() -> Seq<u8> {
    Seq::new(32, |_i: int| 0u8)
}

/// The previous hash the update at `i` must carry: zeros for the first,
/// else the chain hash of the update before it.
pub open spec fn expected_previous(us: Seq<SignedLedgerUpdate>, i: int) -> Seq<u8> {
    if i == 0 {
        zero_hash()
    } else {
        chain_hash_of(us[i - 1].content_hash@, us[i - 1].operator_signature@)
    }
}

/// The update at `i` has sequence number `i` and links to the one before.
pub open spec fn link_ok(us: Seq<SignedLedgerUpdate>, i: int) -> bool {
    &&& us[i].sequence_number == i
    &&& us[i].previous_hash@ == expected_previous(us, i)
}

/// Every update in `us` is in sequence and linked to the one before.
pub open spec fn chain_valid(us: Seq<SignedLedgerUpdate>) -> bool {
    forall|i: int| 0 <= i < us.len() ==> #[trigger] link_ok(us, i)
}

/// Why the update at `i` breaks the chain, given that it does.
pub open spec fn link_failure(us: Seq<SignedLedgerUpdate>, i: int) -> Seq<char> {
    if us[i].sequence_number != i {
        "Sequence mismatch at index "@ + decimal_digits(i as nat) + ": expected "@
            + decimal_digits(i as nat) + ", got "@ + decimal_digits(
            us[i].sequence_number as nat,
        )
    } else {
        "Hash chain broken at index "@ + decimal_digits(i as nat)
    }
}

/// The content hash of the last update, or zeros.
pub open spec fn tail_hash_of(us: Seq<SignedLedgerUpdate>) -> Seq<u8> {
    if us.len() == 0 {
        zero_hash()
    } else {
        us.last().content_hash@
    }
}

/// An error of the `InvalidState` kind with this text.
pub open spec fn is_invalid_state(r: Result<(), DepositsError>, text: Seq<char>) -> bool {
    r matches Err(DepositsError::InvalidState(m)) && m@ == text
}

/// The updates of `us` with a sequence number above `since`, in order.
pub open spec fn updates_since(us: Seq<SignedLedgerUpdate>, since: u64) -> Seq<SignedLedgerUpdate> {
    us.filter(|u: SignedLedgerUpdate| u.sequence_number > since)
}

impl SignedLedgerUpdateLog {
    /// An empty log.
    pub fn new(ledger_id: [u8; 32]) -> (r: Self)
        ensures
            r.ledger_id == ledger_id,
            r.updates@.len() == 0,
            r.next_sequence == 0,
            r.pending_updates@ == Map::<u64, SignedLedgerUpdate>::empty(),
    {
        SignedLedgerUpdateLog {
            ledger_id,
            updates: Vec::new(),
            next_sequence: 0,
            pending_updates: HashMap::new(),
        }
    }

    /// The ledger ID as lowercase hex.
    pub fn ledger_id_hex(&self) -> (r: String)
        ensures
            r@ == hex_lower(self.ledger_id@),
    {
        hex_encode(self.ledger_id.as_slice())
    }

    /// Appends `update` when its sequence number is the next one and its
    /// previous hash is the chain hash of the last update (zeros if none);
    /// otherwise refuses it and leaves the log as it was.
    pub fn add_update(&mut self, update: SignedLedgerUpdate) -> (r: Result<(), DepositsError>)
        requires
            update.sequence_number == old(self).next_sequence ==> old(self).next_sequence < u64::MAX,
        ensures
            ({
                let us = old(self).updates@;
                let expected = if us.len() == 0 {
                    zero_hash()
                } else {
                    chain_hash_of(us.last().content_hash@, us.last().operator_signature@)
                };
                if update.sequence_number != old(self).next_sequence {
                    &&& is_invalid_state(
                        r,
                        "Sequence mismatch: expected "@ + decimal_digits(
                            old(self).next_sequence as nat,
                        ) + ", got "@ + decimal_digits(update.sequence_number as nat),
                    )
                    &&& *final(self) == *old(self)
                } else if update.previous_hash@ != expected {
                    &&& is_invalid_state(
                        r,
                        "Hash chain broken: expected "@ + hex_lower(expected) + ", got "@
                            + hex_lower(update.previous_hash@),
                    )
                    &&& *final(self) == *old(self)
                } else {
                    &&& r is Ok
                    &&& final(self).updates@ == us.push(update)
                    &&& final(self).next_sequence == old(self).next_sequence + 1
                    &&& final(self).ledger_id == old(self).ledger_id
                    &&& final(self).pending_updates == old(self).pending_updates
                }
            }),
    {
        if update.sequence_number != self.next_sequence {
            return Err(
                DepositsError::InvalidState(
                    text_with_numbers(
                        "Sequence mismatch: expected ",
                        self.next_sequence,
                        ", got ",
                        update.sequence_number,
                    ),
                ),
            );
        }
        let n = self.updates.len();
        let expected: [u8; 32] = if n == 0 {
            [0u8; 32]
        } else {
            self.updates[n - 1].chain_hash()
        };
        proof {
            if n == 0 {
                assert(expected@ =~= zero_hash());
            }
        }
        if !bytes_eq(update.previous_hash.as_slice(), expected.as_slice()) {
            let mut m = concat_text("Hash chain broken: expected ", hex_encode(expected.as_slice()).as_str());
            m.append(", got ");
            m.append(hex_encode(update.previous_hash.as_slice()).as_str());
            return Err(DepositsError::InvalidState(m));
        }
        self.updates.push(update);
        self.next_sequence = self.next_sequence + 1;
        Ok(())
    }

    /// Checks the whole chain: sequence numbers count up from 0 and each
    /// previous hash is the chain hash of the update before (zeros first).
    /// The error names the first update that breaks it.
    pub fn verify_chain(&self) -> (r: Result<(), DepositsError>)
        ensures
            r is Ok <==> chain_valid(self.updates@),
            r is Err ==> exists|i: int|
                0 <= i < self.updates@.len() && (forall|j: int| 0 <= j < i ==> #[trigger] link_ok(self.updates@, j))
                    && !link_ok(self.updates@, i) && is_invalid_state(r, link_failure(self.updates@, i)),
    {
        let ghost us = self.updates@;
        let mut expected_prev: [u8; 32] = [0u8; 32];
        let mut i: usize = 0;
        assert(expected_prev@ =~= zero_hash());
        while i < self.updates.len()
            invariant
                i <= us.len(),
                us == self.updates@,
                expected_prev@ == expected_previous(us, i as int),
                forall|j: int| 0 <= j < i ==> #[trigger] link_ok(us, j),
            decreases us.len() - i,
        {
            let u = &self.updates[i];
            if u.sequence_number != i as u64 {
                let mut m = text_with_numbers("Sequence mismatch at index ", i as u64, ": expected ", i as u64);
                m.append(text_with_number(", got ", u.sequence_number, "").as_str());
                proof {
                    reveal_strlit("");
                    assert(m@ =~= link_failure(us, i as int));
                    assert(!link_ok(us, i as int));
                }
                let r = Err(DepositsError::InvalidState(m));
                assert(is_invalid_state(r, link_failure(us, i as int)));
                return r;
            }
            if !bytes_eq(u.previous_hash.as_slice(), expected_prev.as_slice()) {
                let m = text_with_number("Hash chain broken at index ", i as u64, "");
                proof {
                    reveal_strlit("");
                    assert(m@ =~= link_failure(us, i as int));
                    assert(!link_ok(us, i as int));
                }
                let r = Err(DepositsError::InvalidState(m));
                assert(is_invalid_state(r, link_failure(us, i as int)));
                return r;
            }
            expected_prev = u.chain_hash();
            i = i + 1;
        }
        Ok(())
    }

    /// Copies of the updates with a sequence number above `since_sequence`,
    /// in order.
    pub fn get_updates_since(&self, since_sequence: u64) -> (r: Vec<SignedLedgerUpdate>)
        ensures
            r@.len() == updates_since(self.updates@, since_sequence).len(),
            forall|k: int|
                0 <= k < r@.len() ==> same_update(
                    #[trigger] r@[k],
                    updates_since(self.updates@, since_sequence)[k],
                ),
    {
        let ghost us = self.updates@;
        let ghost pred = |u: SignedLedgerUpdate| u.sequence_number > since_sequence;
        let mut out: Vec<SignedLedgerUpdate> = Vec::new();
        let mut i: usize = 0;
        proof {
            reveal(Seq::filter);
            assert(us.take(0).filter(pred) =~= Seq::<SignedLedgerUpdate>::empty());
        }
        while i < self.updates.len()
            invariant
                i <= us.len(),
                us == self.updates@,
                pred == (|u: SignedLedgerUpdate| u.sequence_number > since_sequence),
                out@.len() == us.take(i as int).filter(pred).len(),
                forall|k: int| 0 <= k < out@.len() ==> same_update(#[trigger] out@[k], us.take(i as int).filter(pred)[k]),
            decreases us.len() - i,
        {
            proof {
                reveal(Seq::filter);
                assert(us.take(i + 1).drop_last() =~= us.take(i as int));
            }
            if self.updates[i].sequence_number > since_sequence {
                let c = copy_update(&self.updates[i]);
                out.push(c);
            }
            i = i + 1;
        }
        assert(us.take(i as int) =~= us);
        out
    }

    /// The content hash of the last update, or zeros when there is none.
    pub fn tail_hash(&self) -> (r: [u8; 32])
        ensures
            r@ == tail_hash_of(self.updates@),
    {
        let n = self.updates.len();
        if n == 0 {
            let z = [0u8; 32];
            assert(z@ =~= zero_hash());
            z
        } else {
            self.updates[n - 1].content_hash
        }
    }

    /// The number of updates.
    pub fn len(&self) -> (r: usize)
        ensures
            r == self.updates@.len(),
    {
        self.updates.len()
    }

    /// Whether there are no updates.
    pub fn is_empty(&self) -> (r: bool)
        ensures
            r == (self.updates@.len() == 0),
    {
        self.updates.len() == 0
    }
}

/// An update accepted by `add_update` onto a valid chain whose next
/// sequence number is its length keeps the chain valid: the log built by
/// `new` and accepted updates always passes `verify_chain`.
pub proof fn lemma_accepted_update_keeps_chain(us: Seq<SignedLedgerUpdate>, u: SignedLedgerUpdate)
    requires
        chain_valid(us),
        u.sequence_number == us.len(),
        u.previous_hash@ == (if us.len() == 0 {
            zero_hash()
        } else {
            chain_hash_of(us.last().content_hash@, us.last().operator_signature@)
        }),
    ensures
        chain_valid(us.push(u)),
{
    let vs = us.push(u);
    assert forall|i: int| 0 <= i < vs.len() implies #[trigger] link_ok(vs, i) by {
        if i < us.len() {
            assert(link_ok(us, i));
            if i > 0 {
                assert(vs[i - 1] == us[i - 1]);
            }
        }
    }
}

} // verus!
