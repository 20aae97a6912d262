//! secp256k1 public keys, held as their 33-byte compressed encoding.

use vstd::prelude::*;
use vstd::std_specs::cmp::PartialEqSpecImpl;

verus! {

/// What `secp256k1::PublicKey::from_slice` followed by `serialize` gives for
/// `data`: the compressed encoding of the key, or `None` where `data` is no
/// valid encoding of a curve point.
pub uninterp spec fn secp256k1_parse(data: Seq<u8>) -> Option<Seq<u8>>;

/// Parses `data` as a public key and returns its compressed encoding.
///
/// Trusted: calls `bitcoin::secp256k1::PublicKey::from_slice`, then
/// `serialize`. Beyond naming the result, the contract claims what
/// libsecp256k1's parser documents: only 33-byte compressed and 65-byte
/// uncompressed (or hybrid) encodings parse; a 33-byte compressed encoding
/// that parses serializes back to itself; and the compressed encoding of a
/// key parses back to the same key. On failure the crate's only error is
/// `InvalidPublicKey`, whose `Display` is "malformed public key".
#[verifier::external_body]
fn parse_compressed(data: &[u8]) -> (r: Result<[u8; 33], String>)
    ensures
        match r {
            Ok(k) => secp256k1_parse(data@) == Some(k@),
            Err(e) => secp256k1_parse(data@) is None && e@ == "malformed public key"@,
        },
        r is Ok ==> data@.len() == 33 || data@.len() == 65,
        r is Ok && data@.len() == 33 ==> r->Ok_0@ == data@,
        r matches Ok(k) ==> secp256k1_parse(k@) == Some(k@),
{
    match bitcoin::secp256k1::PublicKey::from_slice(data) {
        Ok(pk) => Ok(pk.serialize()),
        Err(e) => Err(e.to_string()),
    }
}


/// The compressed key that hex text `s` encodes: 33 or 65 bytes of hex that
/// parse as a key.
pub open spec fn key_from_hex(s: Seq<char>) -> Option<Seq<u8>> {
    match crate::crypto::hex_decoded(s) {
        Some(b) => if b.len() == 33 || b.len() == 65 {
            secp256k1_parse(b)
        } else {
            None
        },
        None => None,
    }
}

/// Parses a public key written in hex.
///
/// Trusted: calls `<bitcoin::secp256k1::PublicKey as FromStr>::from_str`
/// and `serialize`. Its source decodes the text as hex into a 65-byte
/// buffer, refusing odd, over-long or non-hex text, and passes 33 or 65
/// decoded bytes to `PublicKey::from_slice`; every failure is
/// `InvalidPublicKey`, displayed as "malformed public key".
#[verifier::external_body]
fn parse_key_text(s: &str) -> (r: Result<[u8; 33], String>)
    ensures
        match r {
            Ok(k) => key_from_hex(s@) == Some(k@),
            Err(e) => key_from_hex(s@) is None && e@ == "malformed public key"@,
        },
        r matches Ok(k) ==> secp256k1_parse(k@) == Some(k@),
{
    match <bitcoin::secp256k1::PublicKey as std::str::FromStr>::from_str(s) {
        Ok(pk) => Ok(pk.serialize()),
        Err(e) => Err(e.to_string()),
    }
}

/// `bytes` is the compressed encoding of a valid public key.
pub open spec fn is_valid_key(bytes: Seq<u8>) -> bool {
    secp256k1_parse(bytes) == Some(bytes)
}

/// A secp256k1 public key, held as its 33-byte compressed encoding.
#[derive(Clone, Copy, Debug, Eq)]
pub struct PublicKey {
    bytes: [u8; 33],
}

impl View for PublicKey {
    type V = Seq<u8>;

    closed spec fn view(&self) -> Seq<u8> {
        self.bytes@
    }
}

impl PartialEq for PublicKey {
    fn eq(&self, other: &Self) -> (r: bool) {
        crate::bytes::bytes_eq(self.bytes.as_slice(), other.bytes.as_slice())
    }
}

impl PartialEqSpecImpl for PublicKey {
    open spec fn obeys_eq_spec() -> bool {
        true
    }

    open spec fn eq_spec(&self, other: &Self) -> bool {
        self@ == other@
    }
}

impl PublicKey {
    #[verifier::type_invariant]
    closed spec fn valid(self) -> bool {
        is_valid_key(self.bytes@)
    }

    /// The encoding of a key is 33 bytes, and a valid key encoding.
    pub proof fn lemma_view(self)
        ensures
            self@.len() == 33,
    {
    }

    /// Parses a compressed (33-byte) or uncompressed (65-byte) encoding;
    /// the error is the text of the parser's error.
    pub fn from_slice(data: &[u8]) -> (r: Result<PublicKey, String>)
        ensures
            match secp256k1_parse(data@) {
                Some(k) => r is Ok && r->Ok_0@ == k,
                None => r is Err && r->Err_0@ == "malformed public key"@,
            },
            r is Ok && data@.len() == 33 ==> r->Ok_0@ == data@,
    {
        match parse_compressed(data) {
            Ok(k) => Ok(PublicKey { bytes: k }),
            Err(e) => Err(e),
        }
    }

    /// Parses a key written in hex (33 or 65 bytes); the error is the text
    /// of the parser's error.
    pub fn from_hex_str(s: &str) -> (r: Result<PublicKey, String>)
        ensures
            match key_from_hex(s@) {
                Some(k) => r is Ok && r->Ok_0@ == k,
                None => r is Err && r->Err_0@ == "malformed public key"@,
            },
    {
        match parse_key_text(s) {
            Ok(k) => Ok(PublicKey { bytes: k }),
            Err(e) => Err(e),
        }
    }

    /// The 33-byte compressed encoding.
    pub fn serialize(&self) -> (r: [u8; 33])
        ensures
            r@ == self@,
            is_valid_key(r@),
    {
        proof {
            use_type_invariant(self);
        }
        self.bytes
    }
}

} // verus!
