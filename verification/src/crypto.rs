//! Hashing and hex rendering used by the protocol.

use vstd::prelude::*;

verus! {

/// The SHA-256 digest of `data`.
pub uninterp spec fn sha256_of(data: Seq<u8>) -> Seq<u8>;

/// SHA-256 of `data`.
///
/// Trusted: calls `bitcoin::hashes::sha256::Hash::hash` and returns the
/// digest's bytes. The contract only names the digest, a function of the
/// input alone; its length of 32 bytes comes from the result's type.
#[verifier::external_body]
pub fn sha256(data: &[u8]) -> (r: [u8; 32])
    ensures
        r@ == sha256_of(data@),
{
    <bitcoin::hashes::sha256::Hash as bitcoin::hashes::Hash>::to_byte_array(
        <bitcoin::hashes::sha256::Hash as bitcoin::hashes::Hash>::hash(data),
    )
}

/// The character of a hex digit `d < 16`, lowercase.
pub open spec fn hex_digit(d: nat) -> char {
    if d < 10 {
        (48 + d) as char
    } else {
        (87 + d) as char
    }
}

/// The lowercase hex rendering of `bytes`, two digits per byte, most
/// significant digit first.
pub open spec fn hex_lower(bytes: Seq<u8>) -> Seq<char> {
    Seq::new(
        2 * bytes.len(),
        |i: int|
            if i % 2 == 0 {
                hex_digit((bytes[i / 2] / 16) as nat)
            } else {
                hex_digit((bytes[i / 2] % 16) as nat)
            },
    )
}

/// Renders `bytes` as lowercase hex.
///
/// Trusted: calls `hex::encode`, which the crate documents as encoding each
/// byte as two lowercase hex digits, high nibble first.
#[verifier::external_body]
pub fn hex_encode(bytes: &[u8]) -> (r: String)
    ensures
        r@ == hex_lower(bytes@),
{
    hex::encode(bytes)
}


/// The SHA-256 digest the `sha2` crate computes over `data`.
pub uninterp spec fn sha2_digest_of(data: Seq<u8>) -> Seq<u8>;

/// SHA-256 of `data`, by the `sha2` crate.
///
/// Trusted: calls `<sha2::Sha256 as sha2::Digest>::digest` and copies out
/// the 32-byte output. The contract names the digest, a function of the
/// input alone.
#[verifier::external_body]
pub fn sha2_digest(data: &[u8]) -> (r: [u8; 32])
    ensures
        r@ == sha2_digest_of(data@),
{
    let out = <sha2::Sha256 as sha2::Digest>::digest(data);
    let mut r = [0u8; 32];
    r.copy_from_slice(out.as_slice());
    r
}


/// The value of a hex digit of either case, or `None`.
pub open spec fn hex_digit_value(c: char) -> Option<u8> {
    if '0' <= c && c <= '9' {
        Some((c as u32 - 48) as u8)
    } else if 'a' <= c && c <= 'f' {
        Some((c as u32 - 87) as u8)
    } else if 'A' <= c && c <= 'F' {
        Some((c as u32 - 55) as u8)
    } else {
        None
    }
}

/// The bytes that hex text `s` encodes, two digits of either case per byte,
/// high digit first; `None` unless `s` is an even number of hex digits.
pub open spec fn hex_decoded(s: Seq<char>) -> Option<Seq<u8>>
    decreases s.len(),
{
    if s.len() % 2 != 0 {
        None
    } else if s.len() == 0 {
        Some(Seq::empty())
    } else {
        match (hex_digit_value(s[0]), hex_digit_value(s[1]), hex_decoded(s.skip(2))) {
            (Some(hi), Some(lo), Some(rest)) => Some(seq![(hi * 16 + lo) as u8] + rest),
            _ => None,
        }
    }
}

/// The text of the error `hex::decode` reports for `s`.
pub uninterp spec fn hex_decode_error(s: Seq<char>) -> Seq<char>;

/// Decodes hex text.
///
/// Trusted: calls `hex::decode`, which accepts an even number of hex digits
/// of either case and yields one byte per pair, high digit first; any other
/// input is refused with a `FromHexError`, whose `Display` text is named.
/// (A character outside ASCII is never a hex digit, so judging `s` by its
/// characters and by its UTF-8 bytes agrees.)
#[verifier::external_body]
pub fn hex_decode(s: &str) -> (r: Result<Vec<u8>, String>)
    ensures
        match r {
            Ok(b) => hex_decoded(s@) == Some(b@),
            Err(e) => hex_decoded(s@) is None && e@ == hex_decode_error(s@),
        },
{
    match hex::decode(s) {
        Ok(b) => Ok(b),
        Err(e) => Err(e.to_string()),
    }
}

} // verus!
