//! The legacy binary codec: fixed-width big-endian integers, byte strings
//! and strings behind a 32-bit length, options behind a one-byte flag.
//!
//! Readers take the data and a position in it. A read that runs past the
//! end consumes the rest of the data and fails with an I/O error, as reading
//! exactly from a byte slice does.

use vstd::prelude::*;
use vstd::utf8::{decode_utf8, encode_utf8, valid_utf8};

use crate::bytes::{
    copy_range, push_u16_be, push_u32_be, push_u64_be, u16_be, u16_from_be, u32_be,
    u32_from_be, u64_be, u64_from_be,
};
use crate::pubkey::{secp256k1_parse, PublicKey};
use crate::text::{
    concat_text, decimal, decimal_digits, string_from_utf8, text_with_hex4, upper_hex4, utf8_bytes,
    utf8_error_text,
};

verus! {

/// Errors of the binary codec.
#[derive(Debug, Clone, PartialEq, Eq)]
pub enum CodecError {
    /// The buffer is too short.
    TooShort,
    /// An unknown message type.
    InvalidMessageType(u16),
    /// An unknown operation discriminant.
    InvalidDiscriminant(u8),
    /// Malformed data.
    InvalidData(String),
    /// An I/O error.
    Io(String),
}

/// The text of a codec error.
pub open spec fn codec_error_text(e: CodecError) -> Seq<char> {
    match e {
        CodecError::TooShort => "buffer too short"@,
        CodecError::InvalidMessageType(t) => "invalid message type: 0x"@ + upper_hex4(t),
        CodecError::InvalidDiscriminant(d) => "invalid discriminant: "@ + decimal_digits(d as nat),
        CodecError::InvalidData(s) => "invalid data: "@ + s@,
        CodecError::Io(s) => "IO error: "@ + s@,
    }
}

impl CodecError {
    /// The text of this error.
    pub fn message(&self) -> (r: String)
        ensures
            r@ == codec_error_text(*self),
    {
        match self {
            CodecError::TooShort => "buffer too short".to_owned(),
            CodecError::InvalidMessageType(t) => text_with_hex4("invalid message type: 0x", *t),
            CodecError::InvalidDiscriminant(d) => {
                let mut r = "invalid discriminant: ".to_owned();
                r.append(decimal(*d as u64).as_str());
                r
            },
            CodecError::InvalidData(s) => concat_text("invalid data: ", s.as_str()),
            CodecError::Io(s) => concat_text("IO error: ", s.as_str()),
        }
    }
}

/// The kind of a [`CodecError`], without its text.
pub enum CodecFault {
    TooShort,
    InvalidMessageType(u16),
    InvalidDiscriminant(u8),
    InvalidData,
    Io,
}

/// An error's kind and its text (empty for kinds without text).
pub type CodecFailure = (CodecFault, Seq<char>);

/// `e` is the error `f` describes.
pub open spec fn codec_error_is(e: CodecError, f: CodecFailure) -> bool {
    match e {
        CodecError::TooShort => f.0 == CodecFault::TooShort,
        CodecError::InvalidMessageType(t) => f.0 == CodecFault::InvalidMessageType(t),
        CodecError::InvalidDiscriminant(d) => f.0 == CodecFault::InvalidDiscriminant(d),
        CodecError::InvalidData(text) => f.0 == CodecFault::InvalidData && text@ == f.1,
        CodecError::Io(text) => f.0 == CodecFault::Io && text@ == f.1,
    }
}

/// The error of a read past the end of the data.
pub open spec fn io_failure() -> CodecFailure {
    (CodecFault::Io, "failed to fill whole buffer"@)
}

/// The outcome of a read of `s`, and what of `s` is left after it.
pub type Read<T> = (Result<T, CodecFailure>, Seq<u8>);

/// `r` is the outcome `o` describes.
pub open spec fn read_is<T>(r: Result<T, CodecError>, o: Result<T, CodecFailure>) -> bool {
    match o {
        Ok(v) => r == Ok::<T, CodecError>(v),
        Err(f) => r is Err && codec_error_is(r->Err_0, f),
    }
}

/// `r` is the outcome `o` describes, comparing values by their views.
pub open spec fn read_is_view<T: View>(r: Result<T, CodecError>, o: Result<T::V, CodecFailure>) -> bool {
    match o {
        Ok(v) => r is Ok && r->Ok_0@ == v,
        Err(f) => r is Err && codec_error_is(r->Err_0, f),
    }
}

/// Reading exactly `n` bytes.
pub open spec fn rd_exact(s: Seq<u8>, n: nat) -> Read<Seq<u8>> {
    if s.len() >= n {
        (Ok(s.subrange(0, n as int)), s.skip(n as int))
    } else {
        (Err(io_failure()), seq![])
    }
}

/// Reading one byte.
pub open spec fn rd_u8(s: Seq<u8>) -> Read<u8> {
    if s.len() >= 1 {
        (Ok(s[0]), s.skip(1))
    } else {
        (Err(io_failure()), seq![])
    }
}

/// Reading a big-endian `u16`.
pub open spec fn rd_u16(s: Seq<u8>) -> Read<u16> {
    if s.len() >= 2 {
        (Ok(u16_from_be(s)), s.skip(2))
    } else {
        (Err(io_failure()), seq![])
    }
}

/// Reading a big-endian `u32`.
pub open spec fn rd_u32(s: Seq<u8>) -> Read<u32> {
    if s.len() >= 4 {
        (Ok(u32_from_be(s)), s.skip(4))
    } else {
        (Err(io_failure()), seq![])
    }
}

/// Reading a big-endian `u64`.
pub open spec fn rd_u64(s: Seq<u8>) -> Read<u64> {
    if s.len() >= 8 {
        (Ok(u64_from_be(s)), s.skip(8))
    } else {
        (Err(io_failure()), seq![])
    }
}

/// Reading a byte string behind its 32-bit length.
pub open spec fn rd_bytes(s: Seq<u8>) -> Read<Seq<u8>> {
    let (len, rest) = rd_u32(s);
    match len {
        Err(f) => (Err(f), rest),
        Ok(n) => rd_exact(rest, n as nat),
    }
}

/// Reading a UTF-8 string behind its 32-bit length.
#[verifier::opaque]
pub open spec fn rd_string(s: Seq<u8>) -> Read<Seq<char>> {
    let (b, rest) = rd_bytes(s);
    match b {
        Err(f) => (Err(f), rest),
        Ok(b) => if valid_utf8(b) {
            (Ok(decode_utf8(b)), rest)
        } else {
            (Err((CodecFault::InvalidData, utf8_error_text(b))), rest)
        },
    }
}

/// Reading a 33-byte public key.
pub open spec fn rd_pubkey(s: Seq<u8>) -> Read<Seq<u8>> {
    let (b, rest) = rd_exact(s, 33);
    match b {
        Err(f) => (Err(f), rest),
        Ok(b) => match secp256k1_parse(b) {
            Some(k) => (Ok(k), rest),
            None => (Err((CodecFault::InvalidData, "malformed public key"@)), rest),
        },
    }
}

/// The bytes of a `u32` length and then `b`.
pub open spec fn length_prefixed(b: Seq<u8>) -> Seq<u8> {
    u32_be(b.len() as u32) + b
}

/// Appends a byte.
pub fn write_u8(w: &mut Vec<u8>, v: u8)
    ensures
        final(w)@ == old(w)@ + seq![v],
{
    w.push(v);
    assert(w@ =~= old(w)@ + seq![v]);
}

/// Appends a big-endian `u16`.
pub fn write_u16(w: &mut Vec<u8>, v: u16)
    ensures
        final(w)@ == old(w)@ + u16_be(v),
{
    push_u16_be(w, v);
}

/// Appends a big-endian `u32`.
pub fn write_u32(w: &mut Vec<u8>, v: u32)
    ensures
        final(w)@ == old(w)@ + u32_be(v),
{
    push_u32_be(w, v);
}

/// Appends a big-endian `u64`.
pub fn write_u64(w: &mut Vec<u8>, v: u64)
    ensures
        final(w)@ == old(w)@ + u64_be(v),
{
    push_u64_be(w, v);
}

/// Appends a boolean as one byte, 1 or 0.
pub fn write_bool(w: &mut Vec<u8>, v: bool)
    ensures
        final(w)@ == old(w)@ + seq![if v { 1u8 } else { 0u8 }],
{
    write_u8(w, if v { 1 } else { 0 })
}

/// Appends a byte string behind its length as a `u32` (truncated).
pub fn write_bytes(w: &mut Vec<u8>, v: &[u8])
    ensures
        final(w)@ == old(w)@ + length_prefixed(v@),
{
    write_u32(w, v.len() as u32);
    crate::bytes::extend_bytes(w, v);
    assert(w@ =~= old(w)@ + length_prefixed(v@));
}

/// Appends a string's UTF-8 bytes behind their length.
pub fn write_string(w: &mut Vec<u8>, v: &str)
    ensures
        final(w)@ == old(w)@ + length_prefixed(encode_utf8(v@)),
{
    let b = utf8_bytes(v);
    write_bytes(w, b.as_slice());
}

/// Appends a public key's 33-byte compressed form.
pub fn write_pubkey(w: &mut Vec<u8>, pk: &PublicKey)
    ensures
        final(w)@ == old(w)@ + pk@,
{
    let b = pk.serialize();
    crate::bytes::extend_bytes(w, b.as_slice());
}

/// Appends a 16-byte array.
pub fn write_16(w: &mut Vec<u8>, v: &[u8; 16])
    ensures
        final(w)@ == old(w)@ + v@,
{
    crate::bytes::extend_bytes(w, v.as_slice());
}

/// Appends a 20-byte array.
pub fn write_20(w: &mut Vec<u8>, v: &[u8; 20])
    ensures
        final(w)@ == old(w)@ + v@,
{
    crate::bytes::extend_bytes(w, v.as_slice());
}

/// Appends a 32-byte array.
pub fn write_32(w: &mut Vec<u8>, v: &[u8; 32])
    ensures
        final(w)@ == old(w)@ + v@,
{
    crate::bytes::extend_bytes(w, v.as_slice());
}

/// Appends a 64-byte array.
pub fn write_64(w: &mut Vec<u8>, v: &[u8; 64])
    ensures
        final(w)@ == old(w)@ + v@,
{
    crate::bytes::extend_bytes(w, v.as_slice());
}

/// Reads exactly `n` bytes; past the end, consumes the rest and fails.
pub fn read_exact(data: &[u8], pos: &mut usize, n: usize) -> (r: Result<Vec<u8>, CodecError>)
    requires
        *old(pos) <= data@.len(),
    ensures
        *final(pos) <= data@.len(),
        data@.skip(*final(pos) as int) == rd_exact(data@.skip(*old(pos) as int), n as nat).1,
        read_is_view(r, rd_exact(data@.skip(*old(pos) as int), n as nat).0),
{
    let p = *pos;
    if data.len() - p < n {
        *pos = data.len();
        assert(data@.skip(data@.len() as int) =~= Seq::<u8>::empty());
        return Err(CodecError::Io("failed to fill whole buffer".to_owned()));
    }
    let r = copy_range(data, p, p + n);
    *pos = p + n;
    assert(r@ =~= data@.skip(p as int).subrange(0, n as int));
    assert(data@.skip(p + n) =~= data@.skip(p as int).skip(n as int));
    Ok(r)
}

/// Reads a byte.
pub fn read_u8(data: &[u8], pos: &mut usize) -> (r: Result<u8, CodecError>)
    requires
        *old(pos) <= data@.len(),
    ensures
        *final(pos) <= data@.len(),
        data@.skip(*final(pos) as int) == rd_u8(data@.skip(*old(pos) as int)).1,
        read_is(r, rd_u8(data@.skip(*old(pos) as int)).0),
{
    let p = *pos;
    if data.len() - p < 1 {
        *pos = data.len();
        assert(data@.skip(data@.len() as int) =~= Seq::<u8>::empty());
        return Err(CodecError::Io("failed to fill whole buffer".to_owned()));
    }
    *pos = p + 1;
    assert(data@.skip(p + 1) =~= data@.skip(p as int).skip(1));
    Ok(data[p])
}

/// Reads a big-endian `u16`.
pub fn read_u16(data: &[u8], pos: &mut usize) -> (r: Result<u16, CodecError>)
    requires
        *old(pos) <= data@.len(),
    ensures
        *final(pos) <= data@.len(),
        data@.skip(*final(pos) as int) == rd_u16(data@.skip(*old(pos) as int)).1,
        read_is(r, rd_u16(data@.skip(*old(pos) as int)).0),
{
    let p = *pos;
    if data.len() - p < 2 {
        *pos = data.len();
        assert(data@.skip(data@.len() as int) =~= Seq::<u8>::empty());
        return Err(CodecError::Io("failed to fill whole buffer".to_owned()));
    }
    let v = crate::bytes::get_u16_be(data, p);
    *pos = p + 2;
    assert(data@.skip(p + 2) =~= data@.skip(p as int).skip(2));
    assert(data@.subrange(p as int, p + 2) =~= data@.skip(p as int).subrange(0, 2));
    proof {
        crate::bytes::lemma_u16_from_be_prefix(data@.skip(p as int));
    }
    Ok(v)
}

/// Reads a big-endian `u32`.
pub fn read_u32(data: &[u8], pos: &mut usize) -> (r: Result<u32, CodecError>)
    requires
        *old(pos) <= data@.len(),
    ensures
        *final(pos) <= data@.len(),
        data@.skip(*final(pos) as int) == rd_u32(data@.skip(*old(pos) as int)).1,
        read_is(r, rd_u32(data@.skip(*old(pos) as int)).0),
{
    let p = *pos;
    if data.len() - p < 4 {
        *pos = data.len();
        assert(data@.skip(data@.len() as int) =~= Seq::<u8>::empty());
        return Err(CodecError::Io("failed to fill whole buffer".to_owned()));
    }
    let v = crate::bytes::get_u32_be(data, p);
    *pos = p + 4;
    assert(data@.skip(p + 4) =~= data@.skip(p as int).skip(4));
    assert(data@.subrange(p as int, p + 4) =~= data@.skip(p as int).subrange(0, 4));
    proof {
        crate::bytes::lemma_u32_from_be_prefix(data@.skip(p as int));
    }
    Ok(v)
}

/// Reads a big-endian `u64`.
pub fn read_u64(data: &[u8], pos: &mut usize) -> (r: Result<u64, CodecError>)
    requires
        *old(pos) <= data@.len(),
    ensures
        *final(pos) <= data@.len(),
        data@.skip(*final(pos) as int) == rd_u64(data@.skip(*old(pos) as int)).1,
        read_is(r, rd_u64(data@.skip(*old(pos) as int)).0),
{
    let p = *pos;
    if data.len() - p < 8 {
        *pos = data.len();
        assert(data@.skip(data@.len() as int) =~= Seq::<u8>::empty());
        return Err(CodecError::Io("failed to fill whole buffer".to_owned()));
    }
    let v = crate::bytes::get_u64_be(data, p);
    *pos = p + 8;
    assert(data@.skip(p + 8) =~= data@.skip(p as int).skip(8));
    assert(data@.subrange(p as int, p + 8) =~= data@.skip(p as int).subrange(0, 8));
    proof {
        crate::bytes::lemma_u64_from_be_prefix(data@.skip(p as int));
    }
    Ok(v)
}

/// Reads a boolean: any non-zero byte is true.
pub fn read_bool(data: &[u8], pos: &mut usize) -> (r: Result<bool, CodecError>)
    requires
        *old(pos) <= data@.len(),
    ensures
        *final(pos) <= data@.len(),
        data@.skip(*final(pos) as int) == rd_u8(data@.skip(*old(pos) as int)).1,
        read_is(
            r,
            match rd_u8(data@.skip(*old(pos) as int)).0 {
                Ok(b) => Ok(b != 0),
                Err(f) => Err(f),
            },
        ),
{
    match read_u8(data, pos) {
        Ok(b) => Ok(b != 0),
        Err(e) => Err(e),
    }
}

/// Reads a byte string behind its 32-bit length.
pub fn read_bytes(data: &[u8], pos: &mut usize) -> (r: Result<Vec<u8>, CodecError>)
    requires
        *old(pos) <= data@.len(),
    ensures
        *final(pos) <= data@.len(),
        data@.skip(*final(pos) as int) == rd_bytes(data@.skip(*old(pos) as int)).1,
        read_is_view(r, rd_bytes(data@.skip(*old(pos) as int)).0),
{
    let len = match read_u32(data, pos) {
        Ok(l) => l,
        Err(e) => {
            return Err(e);
        },
    };
    read_exact(data, pos, len as usize)
}

/// Reads a UTF-8 string behind its 32-bit length.
pub fn read_string(data: &[u8], pos: &mut usize) -> (r: Result<String, CodecError>)
    requires
        *old(pos) <= data@.len(),
    ensures
        *final(pos) <= data@.len(),
        data@.skip(*final(pos) as int) == rd_string(data@.skip(*old(pos) as int)).1,
        read_is_view(r, rd_string(data@.skip(*old(pos) as int)).0),
{
    proof {
        reveal(rd_string);
    }
    let bytes = match read_bytes(data, pos) {
        Ok(b) => b,
        Err(e) => {
            return Err(e);
        },
    };
    match string_from_utf8(bytes.as_slice()) {
        Ok(s) => Ok(s),
        Err(e) => Err(CodecError::InvalidData(e)),
    }
}

/// Reads a public key from 33 bytes.
pub fn read_pubkey(data: &[u8], pos: &mut usize) -> (r: Result<PublicKey, CodecError>)
    requires
        *old(pos) <= data@.len(),
    ensures
        *final(pos) <= data@.len(),
        data@.skip(*final(pos) as int) == rd_pubkey(data@.skip(*old(pos) as int)).1,
        read_is_view(r, rd_pubkey(data@.skip(*old(pos) as int)).0),
{
    let bytes = match read_exact(data, pos, 33) {
        Ok(b) => b,
        Err(e) => {
            return Err(e);
        },
    };
    match PublicKey::from_slice(bytes.as_slice()) {
        Ok(pk) => Ok(pk),
        Err(e) => Err(CodecError::InvalidData(e)),
    }
}

/// Reads a 16-byte array.
pub fn read_16(data: &[u8], pos: &mut usize) -> (r: Result<[u8; 16], CodecError>)
    requires
        *old(pos) <= data@.len(),
    ensures
        *final(pos) <= data@.len(),
        data@.skip(*final(pos) as int) == rd_exact(data@.skip(*old(pos) as int), 16).1,
        read_is_view(r, rd_exact(data@.skip(*old(pos) as int), 16).0),
{
    match read_exact(data, pos, 16) {
        Ok(b) => {
            let a: [u8; 16] = crate::bytes::array_at(b.as_slice(), 0);
            assert(a@ =~= b@);
            Ok(a)
        },
        Err(e) => Err(e),
    }
}

/// Reads a 20-byte array.
pub fn read_20(data: &[u8], pos: &mut usize) -> (r: Result<[u8; 20], CodecError>)
    requires
        *old(pos) <= data@.len(),
    ensures
        *final(pos) <= data@.len(),
        data@.skip(*final(pos) as int) == rd_exact(data@.skip(*old(pos) as int), 20).1,
        read_is_view(r, rd_exact(data@.skip(*old(pos) as int), 20).0),
{
    match read_exact(data, pos, 20) {
        Ok(b) => {
            let a: [u8; 20] = crate::bytes::array_at(b.as_slice(), 0);
            assert(a@ =~= b@);
            Ok(a)
        },
        Err(e) => Err(e),
    }
}

/// Reads a 32-byte array.
pub fn read_32(data: &[u8], pos: &mut usize) -> (r: Result<[u8; 32], CodecError>)
    requires
        *old(pos) <= data@.len(),
    ensures
        *final(pos) <= data@.len(),
        data@.skip(*final(pos) as int) == rd_exact(data@.skip(*old(pos) as int), 32).1,
        read_is_view(r, rd_exact(data@.skip(*old(pos) as int), 32).0),
{
    match read_exact(data, pos, 32) {
        Ok(b) => {
            let a: [u8; 32] = crate::bytes::array_at(b.as_slice(), 0);
            assert(a@ =~= b@);
            Ok(a)
        },
        Err(e) => Err(e),
    }
}

/// Reads a 33-byte array.
pub fn read_33(data: &[u8], pos: &mut usize) -> (r: Result<[u8; 33], CodecError>)
    requires
        *old(pos) <= data@.len(),
    ensures
        *final(pos) <= data@.len(),
        data@.skip(*final(pos) as int) == rd_exact(data@.skip(*old(pos) as int), 33).1,
        read_is_view(r, rd_exact(data@.skip(*old(pos) as int), 33).0),
{
    match read_exact(data, pos, 33) {
        Ok(b) => {
            let a: [u8; 33] = crate::bytes::array_at(b.as_slice(), 0);
            assert(a@ =~= b@);
            Ok(a)
        },
        Err(e) => Err(e),
    }
}

/// Reads a 64-byte array.
pub fn read_64(data: &[u8], pos: &mut usize) -> (r: Result<[u8; 64], CodecError>)
    requires
        *old(pos) <= data@.len(),
    ensures
        *final(pos) <= data@.len(),
        data@.skip(*final(pos) as int) == rd_exact(data@.skip(*old(pos) as int), 64).1,
        read_is_view(r, rd_exact(data@.skip(*old(pos) as int), 64).0),
{
    match read_exact(data, pos, 64) {
        Ok(b) => {
            let a: [u8; 64] = crate::bytes::array_at(b.as_slice(), 0);
            assert(a@ =~= b@);
            Ok(a)
        },
        Err(e) => Err(e),
    }
}

} // verus!
