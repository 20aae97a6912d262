//! ECDSA signatures in their 64-byte compact form.

use vstd::prelude::*;

use crate::bytes::bytes_lt;

verus! {

/// The order of the secp256k1 group, as 32 big-endian bytes.
pub open spec fn curve_order_bytes() -> Seq<u8> {
    seq![
        0xFFu8, 0xFF, 0xFF, 0xFF, 0xFF, 0xFF, 0xFF, 0xFF, 0xFF, 0xFF, 0xFF, 0xFF, 0xFF, 0xFF, 0xFF,
        0xFE, 0xBA, 0xAE, 0xDC, 0xE6, 0xAF, 0x48, 0xA0, 0x3B, 0xBF, 0xD2, 0x5E, 0x8C, 0xD0, 0x36,
        0x41, 0x41,
    ]
}

/// `data` is a compact signature: 64 bytes, `r` then `s`, each a
/// big-endian number below the group order.
pub open spec fn is_compact_signature(data: Seq<u8>) -> bool {
    &&& data.len() == 64
    &&& bytes_lt(data.subrange(0, 32), curve_order_bytes())
    &&& bytes_lt(data.subrange(32, 64), curve_order_bytes())
}

/// Parses a compact ECDSA signature and serializes it back.
///
/// Trusted: calls `bitcoin::secp256k1::ecdsa::Signature::from_compact`,
/// then `serialize_compact`. Its source refuses any length but 64 and calls
/// libsecp256k1's `ecdsa_signature_parse_compact`, which succeeds exactly
/// when neither 32-byte half overflows the group order and stores both
/// halves unchanged, so that serializing gives the input back. Its only
/// error is `InvalidSignature`, displayed as "malformed signature".
#[verifier::external_body]
fn parse_compact(data: &[u8]) -> (r: Result<[u8; 64], String>)
    ensures
        match r {
            Ok(s) => is_compact_signature(data@) && s@ == data@,
            Err(e) => !is_compact_signature(data@) && e@ == "malformed signature"@,
        },
{
    match bitcoin::secp256k1::ecdsa::Signature::from_compact(data) {
        Ok(sig) => Ok(sig.serialize_compact()),
        Err(e) => Err(e.to_string()),
    }
}

/// An ECDSA signature over secp256k1, held in its compact form.
#[derive(Clone, Copy, Debug, PartialEq, Eq)]
pub struct EcdsaSignature {
    compact: [u8; 64],
}

impl View for EcdsaSignature {
    type V = Seq<u8>;

    closed spec fn view(&self) -> Seq<u8> {
        self.compact@
    }
}

impl EcdsaSignature {
    #[verifier::type_invariant]
    closed spec fn valid(self) -> bool {
        is_compact_signature(self.compact@)
    }

    /// The compact form of a signature is 64 bytes that parse.
    pub proof fn lemma_view(self)
        ensures
            self@.len() == 64,
    {
    }

    /// Parses a compact signature; the error is the text of the parser's
    /// error.
    pub fn from_compact(data: &[u8]) -> (r: Result<EcdsaSignature, String>)
        ensures
            match r {
                Ok(s) => is_compact_signature(data@) && s@ == data@,
                Err(e) => !is_compact_signature(data@) && e@ == "malformed signature"@,
            },
    {
        match parse_compact(data) {
            Ok(s) => Ok(EcdsaSignature { compact: s }),
            Err(e) => Err(e),
        }
    }

    /// The 64-byte compact form.
    pub fn serialize_compact(&self) -> (r: [u8; 64])
        ensures
            r@ == self@,
            is_compact_signature(r@),
    {
        proof {
            use_type_invariant(self);
        }
        self.compact
    }
}

} // verus!
