//! TLV (type-length-value) codec for the Bitcoin Deposits protocol.
//!
//! Each record is a big-endian varint type, a big-endian varint length and
//! that many value bytes. Records of a stream appear in strictly increasing
//! type order, which makes the encoding of a stream canonical. Even types are
//! required and odd types optional by convention of the message formats.

use vstd::prelude::*;

use crate::bytes::{
    get_u16_be, get_u32_be, get_u64_be, lemma_u16_be, lemma_u32_be, lemma_u64_be, push_u16_be,
    push_u32_be, push_u64_be, u16_be, u16_from_be, u32_be, u32_from_be, u64_be, u64_from_be,
};
use crate::bytes::{array_at, array_to_vec, copy_range};
use crate::pubkey::{secp256k1_parse, PublicKey};
use crate::signature::{is_compact_signature, EcdsaSignature};
use crate::text::{
    concat_text, decimal, decimal_digits, string_from_utf8, text_with_number, text_with_numbers,
    utf8_bytes, utf8_error_text,
};
use vstd::utf8::{decode_utf8, encode_utf8, valid_utf8};

verus! {

// ============================================================================
// Errors
// ============================================================================

/// Errors of TLV encoding and decoding.
#[derive(Debug, Clone, PartialEq, Eq)]
pub enum TlvError {
    /// Unexpected end of data while reading.
    UnexpectedEof,
    /// A required field is missing.
    MissingRequiredField { field_type: u64 },
    /// A field value is invalid.
    InvalidFieldValue { field_type: u64, reason: String },
    /// A field type occurs twice.
    DuplicateField { field_type: u64 },
    /// Fields are not in canonical (strictly increasing) order.
    NonCanonicalOrder { field_type: u64 },
    /// An I/O error.
    IoError(String),
    /// A varint is not minimally encoded.
    InvalidVarint,
    /// A field type overflowed.
    TypeOverflow,
}

/// The text of a TLV error.
pub open spec fn tlv_error_text(e: TlvError) -> Seq<char> {
    match e {
        TlvError::UnexpectedEof => "unexpected end of TLV data"@,
        TlvError::MissingRequiredField { field_type } => "missing required TLV field type "@ + decimal_digits(field_type as nat),
        TlvError::InvalidFieldValue { field_type, reason } => "invalid value for TLV field "@ + decimal_digits(field_type as nat) + ": "@ + reason@,
        TlvError::DuplicateField { field_type } => "duplicate TLV field type "@ + decimal_digits(field_type as nat),
        TlvError::NonCanonicalOrder { field_type } => "TLV field "@ + decimal_digits(field_type as nat) + " not in canonical order"@,
        TlvError::IoError(a) => "TLV IO error: "@ + a@,
        TlvError::InvalidVarint => "invalid varint encoding"@,
        TlvError::TypeOverflow => "TLV type value overflow"@,
    }
}

impl TlvError {
    /// The text of this error.
    pub fn message(&self) -> (r: String)
        ensures
            r@ == tlv_error_text(*self),
    {
        match self {
            TlvError::UnexpectedEof => { let mut r = "unexpected end of TLV data".to_owned(); r },
            TlvError::MissingRequiredField { field_type } => { let mut r = "missing required TLV field type ".to_owned(); r.append(decimal(*field_type as u64).as_str()); r },
            TlvError::InvalidFieldValue { field_type, reason } => { let mut r = "invalid value for TLV field ".to_owned(); r.append(decimal(*field_type as u64).as_str()); r.append(": "); r.append(reason.as_str()); r },
            TlvError::DuplicateField { field_type } => { let mut r = "duplicate TLV field type ".to_owned(); r.append(decimal(*field_type as u64).as_str()); r },
            TlvError::NonCanonicalOrder { field_type } => { let mut r = "TLV field ".to_owned(); r.append(decimal(*field_type as u64).as_str()); r.append(" not in canonical order"); r },
            TlvError::IoError(a) => { let mut r = "TLV IO error: ".to_owned(); r.append(a.as_str()); r },
            TlvError::InvalidVarint => { let mut r = "invalid varint encoding".to_owned(); r },
            TlvError::TypeOverflow => { let mut r = "TLV type value overflow".to_owned(); r },
        }
    }
}

/// The kind of a [`TlvError`], with its field type but without its text.
pub enum TlvFault {
    UnexpectedEof,
    MissingRequiredField(u64),
    InvalidFieldValue(u64),
    DuplicateField(u64),
    NonCanonicalOrder(u64),
    Io,
    InvalidVarint,
    TypeOverflow,
}

impl TlvError {
    /// The kind of this error.
    pub open spec fn fault(self) -> TlvFault {
        match self {
            TlvError::UnexpectedEof => TlvFault::UnexpectedEof,
            TlvError::MissingRequiredField { field_type } => TlvFault::MissingRequiredField(
                field_type,
            ),
            TlvError::InvalidFieldValue { field_type, .. } => TlvFault::InvalidFieldValue(
                field_type,
            ),
            TlvError::DuplicateField { field_type } => TlvFault::DuplicateField(field_type),
            TlvError::NonCanonicalOrder { field_type } => TlvFault::NonCanonicalOrder(field_type),
            TlvError::IoError(_) => TlvFault::Io,
            TlvError::InvalidVarint => TlvFault::InvalidVarint,
            TlvError::TypeOverflow => TlvFault::TypeOverflow,
        }
    }
}

/// `e` is an invalid-value error for `field_type` whose text is `reason`.
pub open spec fn is_invalid_value(e: TlvError, field_type: u64, reason: Seq<char>) -> bool {
    &&& e matches TlvError::InvalidFieldValue { field_type: ft, reason: r }
    &&& ft == field_type
    &&& r@ == reason
}

/// Result type of TLV operations.
pub type TlvResult<T> = Result<T, TlvError>;

// ============================================================================
// Varint (big-endian, 1/3/5/9 bytes)
// ============================================================================

/// The canonical varint encoding of `v`.
pub open spec fn varint_bytes(v: u64) -> Seq<u8> {
    if v < 0xfd {
        seq![v as u8]
    } else if v <= 0xffff {
        seq![0xfdu8] + u16_be(v as u16)
    } else if v <= 0xffff_ffff {
        seq![0xfeu8] + u32_be(v as u32)
    } else {
        seq![0xffu8] + u64_be(v)
    }
}

/// Reading a varint from the front of `s`: the value and the number of
/// bytes it occupies, or why no varint can be read.
pub open spec fn varint_parse(s: Seq<u8>) -> Result<(u64, nat), TlvFault> {
    if s.len() == 0 {
        Err(TlvFault::UnexpectedEof)
    } else if s[0] <= 0xfc {
        Ok((s[0] as u64, 1))
    } else if s[0] == 0xfd {
        if s.len() < 3 {
            Err(TlvFault::UnexpectedEof)
        } else {
            let v = u16_from_be(s.subrange(1, 3));
            if v < 0xfd {
                Err(TlvFault::InvalidVarint)
            } else {
                Ok((v as u64, 3))
            }
        }
    } else if s[0] == 0xfe {
        if s.len() < 5 {
            Err(TlvFault::UnexpectedEof)
        } else {
            let v = u32_from_be(s.subrange(1, 5));
            if v <= 0xffff {
                Err(TlvFault::InvalidVarint)
            } else {
                Ok((v as u64, 5))
            }
        }
    } else {
        if s.len() < 9 {
            Err(TlvFault::UnexpectedEof)
        } else {
            let v = u64_from_be(s.subrange(1, 9));
            if v <= 0xffff_ffff {
                Err(TlvFault::InvalidVarint)
            } else {
                Ok((v, 9))
            }
        }
    }
}

/// The error value of a varint fault.
pub open spec fn varint_error_of(f: TlvFault) -> bool {
    f == TlvFault::UnexpectedEof || f == TlvFault::InvalidVarint
}

/// Reading the varint written for `v` in front of any bytes gives back `v`
/// and the length of its encoding.
pub proof fn lemma_varint_roundtrip(v: u64, rest: Seq<u8>)
    ensures
        1 <= varint_bytes(v).len() <= 9,
        varint_parse(varint_bytes(v) + rest) == Ok::<(u64, nat), TlvFault>(
            (v, varint_bytes(v).len()),
        ),
{
    let s = varint_bytes(v) + rest;
    if v < 0xfd {
    } else if v <= 0xffff {
        lemma_u16_be(v as u16, seq![]);
        assert(s.subrange(1, 3) =~= u16_be(v as u16));
    } else if v <= 0xffff_ffff {
        lemma_u32_be(v as u32, seq![]);
        assert(s.subrange(1, 5) =~= u32_be(v as u32));
    } else {
        lemma_u64_be(v, seq![]);
        assert(s.subrange(1, 9) =~= u64_be(v));
    }
}

/// Every varint that can be read is canonical: its bytes are the encoding of
/// the value read.
pub proof fn lemma_varint_canonical(s: Seq<u8>)
    requires
        varint_parse(s) is Ok,
    ensures
        ({
            let (v, n) = varint_parse(s)->Ok_0;
            &&& n <= s.len()
            &&& s.subrange(0, n as int) == varint_bytes(v)
        }),
{
    let (v, n) = varint_parse(s)->Ok_0;
    if s[0] <= 0xfc {
        assert(s.subrange(0, 1) =~= varint_bytes(v));
    } else if s[0] == 0xfd {
        lemma_u16_be(0, s.subrange(1, 3));
        assert(s.subrange(0, 3) =~= varint_bytes(v));
    } else if s[0] == 0xfe {
        lemma_u32_be(0, s.subrange(1, 5));
        assert(s.subrange(0, 5) =~= varint_bytes(v));
    } else {
        lemma_u64_be(0, s.subrange(1, 9));
        assert(s.subrange(0, 9) =~= varint_bytes(v));
    }
}

/// Appends the canonical varint encoding of `value`.
pub fn write_varint(writer: &mut Vec<u8>, value: u64)
    ensures
        final(writer)@ == old(writer)@ + varint_bytes(value),
{
    if value < 0xfd {
        writer.push(value as u8);
        assert(writer@ =~= old(writer)@ + varint_bytes(value));
    } else if value <= 0xffff {
        writer.push(0xfdu8);
        push_u16_be(writer, value as u16);
        assert(writer@ =~= old(writer)@ + varint_bytes(value));
    } else if value <= 0xffff_ffff {
        writer.push(0xfeu8);
        push_u32_be(writer, value as u32);
        assert(writer@ =~= old(writer)@ + varint_bytes(value));
    } else {
        writer.push(0xffu8);
        push_u64_be(writer, value);
        assert(writer@ =~= old(writer)@ + varint_bytes(value));
    }
}

/// Reads a varint from `reader` at `*pos`, advancing `*pos` past it.
pub fn read_varint(reader: &[u8], pos: &mut usize) -> (r: TlvResult<u64>)
    requires
        *old(pos) <= reader@.len(),
    ensures
        *final(pos) <= reader@.len(),
        match varint_parse(reader@.skip(*old(pos) as int)) {
            Ok((v, n)) => r == Ok::<u64, TlvError>(v) && *final(pos) == *old(pos) + n,
            Err(f) => r is Err && r->Err_0.fault() == f,
        },
{
    let p = *pos;
    let ghost s = reader@.skip(p as int);
    if p >= reader.len() {
        return Err(TlvError::UnexpectedEof);
    }
    let first = reader[p];
    assert(s[0] == first);
    if first <= 0xfc {
        *pos = p + 1;
        Ok(first as u64)
    } else if first == 0xfd {
        if reader.len() - p < 3 {
            return Err(TlvError::UnexpectedEof);
        }
        let val = get_u16_be(reader, p + 1);
        assert(reader@.subrange(p + 1, p + 3) =~= s.subrange(1, 3));
        if val < 0xfd {
            return Err(TlvError::InvalidVarint);
        }
        *pos = p + 3;
        Ok(val as u64)
    } else if first == 0xfe {
        if reader.len() - p < 5 {
            return Err(TlvError::UnexpectedEof);
        }
        let val = get_u32_be(reader, p + 1);
        assert(reader@.subrange(p + 1, p + 5) =~= s.subrange(1, 5));
        if val <= 0xffff {
            return Err(TlvError::InvalidVarint);
        }
        *pos = p + 5;
        Ok(val as u64)
    } else {
        if reader.len() - p < 9 {
            return Err(TlvError::UnexpectedEof);
        }
        let val = get_u64_be(reader, p + 1);
        assert(reader@.subrange(p + 1, p + 9) =~= s.subrange(1, 9));
        if val <= 0xffff_ffff {
            return Err(TlvError::InvalidVarint);
        }
        *pos = p + 9;
        Ok(val)
    }
}


// ============================================================================
// TLV stream
// ============================================================================

/// Largest value length a stream accepts when read (16 MiB).
pub const MAX_TLV_VALUE_LENGTH: u64 = 16777216;

/// Record keys strictly increase along `es`.
pub open spec fn keys_increasing(es: Seq<(u64, Seq<u8>)>) -> bool {
    forall|i: int, j: int| 0 <= i < j < es.len() ==> #[trigger] es[i].0 < #[trigger] es[j].0
}

/// The map of field types to values held by the records `es`.
pub open spec fn entries_map(es: Seq<(u64, Seq<u8>)>) -> Map<u64, Seq<u8>> {
    Map::new(
        |k: u64| exists|i: int| 0 <= i < es.len() && #[trigger] es[i].0 == k,
        |k: u64| es[choose|i: int| 0 <= i < es.len() && #[trigger] es[i].0 == k].1,
    )
}

/// In records with increasing keys, the record at `i` is what the map holds
/// for its key.
pub proof fn lemma_entries_map_at(es: Seq<(u64, Seq<u8>)>, i: int)
    requires
        keys_increasing(es),
        0 <= i < es.len(),
    ensures
        entries_map(es).contains_key(es[i].0),
        entries_map(es)[es[i].0] == es[i].1,
{
    let k = es[i].0;
    assert(exists|j: int| 0 <= j < es.len() && #[trigger] es[j].0 == k);
    let j = choose|j: int| 0 <= j < es.len() && #[trigger] es[j].0 == k;
    if j < i {
        assert(es[j].0 < es[i].0);
    } else if i < j {
        assert(es[i].0 < es[j].0);
    }
}

/// The bytes of one record: type, length, value.
pub open spec fn record_bytes(e: (u64, Seq<u8>)) -> Seq<u8> {
    varint_bytes(e.0) + varint_bytes(e.1.len() as u64) + e.1
}

/// The bytes of a sequence of records, in order.
pub open spec fn entries_bytes(es: Seq<(u64, Seq<u8>)>) -> Seq<u8>
    decreases es.len(),
{
    if es.len() == 0 {
        seq![]
    } else {
        entries_bytes(es.drop_last()) + record_bytes(es.last())
    }
}

/// The bytes of records are those of the first record followed by those of
/// the rest.
pub proof fn lemma_entries_bytes_cons(e: (u64, Seq<u8>), es: Seq<(u64, Seq<u8>)>)
    ensures
        entries_bytes(seq![e] + es) == record_bytes(e) + entries_bytes(es),
    decreases es.len(),
{
    let all = seq![e] + es;
    if es.len() == 0 {
        assert(all.drop_last() =~= Seq::<(u64, Seq<u8>)>::empty());
        assert(entries_bytes(all.drop_last()) == Seq::<u8>::empty());
        assert(all.last() == e);
        assert(entries_bytes(all) == entries_bytes(all.drop_last()) + record_bytes(e));
        assert(entries_bytes(es) == Seq::<u8>::empty());
        assert(Seq::<u8>::empty() + record_bytes(e) =~= record_bytes(e) + Seq::<u8>::empty());
    } else {
        lemma_entries_bytes_cons(e, es.drop_last());
        assert(all.drop_last() =~= seq![e] + es.drop_last());
        assert(all.last() == es.last());
        assert(entries_bytes(all) == entries_bytes(all.drop_last()) + record_bytes(es.last()));
        assert(entries_bytes(es) == entries_bytes(es.drop_last()) + record_bytes(es.last()));
        assert(record_bytes(e) + entries_bytes(es.drop_last()) + record_bytes(es.last())
            =~= record_bytes(e) + (entries_bytes(es.drop_last()) + record_bytes(es.last())));
    }
}

/// The error that reading a stream reports: its kind, and the reason text of
/// an invalid value (empty for the other kinds).
pub type StreamFault = (TlvFault, Seq<char>);

/// `e` is the error described by `f`.
pub open spec fn error_is(e: TlvError, f: StreamFault) -> bool {
    &&& e.fault() == f.0
    &&& (e matches TlvError::InvalidFieldValue { reason, .. } ==> reason@ == f.1)
    &&& (e matches TlvError::IoError(text) ==> text@ == f.1)
}

/// The reason given for a value length over the limit.
pub open spec fn length_over_limit_reason(len: u64) -> Seq<char> {
    "TLV value length "@ + decimal_digits(len as nat) + " exceeds maximum 16777216"@
}

/// Reading records from the front of `s`, where `last` is the type of the
/// record read before. A type varint that ends early, or no bytes at all,
/// ends the stream; every other failure is an error.
#[verifier::opaque]
pub open spec fn stream_parse(s: Seq<u8>, last: Option<u64>) -> Result<Seq<(u64, Seq<u8>)>, StreamFault>
    decreases s.len(),
{
    match varint_parse(s) {
        Err(TlvFault::UnexpectedEof) => Ok(seq![]),
        Err(f) => Err((f, seq![])),
        Ok((t, n)) => {
            if last is Some && t <= last->0 {
                Err((TlvFault::NonCanonicalOrder(t), seq![]))
            } else {
                let rest = s.skip(n as int);
                match varint_parse(rest) {
                    Err(f) => Err((f, seq![])),
                    Ok((len, m)) => {
                        if len > MAX_TLV_VALUE_LENGTH {
                            Err((TlvFault::InvalidFieldValue(t), length_over_limit_reason(len)))
                        } else if rest.len() < m + len {
                            Err((TlvFault::UnexpectedEof, seq![]))
                        } else {
                            let value = rest.subrange(m as int, m + len);
                            match stream_parse(rest.skip(m + len), Some(t)) {
                                Ok(es) => Ok(seq![(t, value)] + es),
                                Err(f) => Err(f),
                            }
                        }
                    },
                }
            }
        },
    }
}

/// The records held by a vector of owned records.
spec fn entries_of(v: Seq<(u64, Vec<u8>)>) -> Seq<(u64, Seq<u8>)> {
    v.map_values(|e: (u64, Vec<u8>)| (e.0, e.1@))
}

/// A collection of TLV records, kept sorted by type so that encoding is
/// canonical.
pub struct TlvStream {
    fields: Vec<(u64, Vec<u8>)>,
}

impl TlvStream {
    /// The records, in increasing type order.
    pub closed spec fn entries(self) -> Seq<(u64, Seq<u8>)> {
        entries_of(self.fields@)
    }

    #[verifier::type_invariant]
    closed spec fn sorted(self) -> bool {
        keys_increasing(self.entries())
    }
}

impl View for TlvStream {
    type V = Map<u64, Seq<u8>>;

    open spec fn view(&self) -> Map<u64, Seq<u8>> {
        entries_map(self.entries())
    }
}


/// Inserting a record for a new key at position `i` adds that key to the map.
proof fn lemma_map_insert_at(
    old_es: Seq<(u64, Seq<u8>)>,
    new_es: Seq<(u64, Seq<u8>)>,
    i: int,
    k: u64,
    v: Seq<u8>,
)
    requires
        keys_increasing(old_es),
        keys_increasing(new_es),
        0 <= i <= old_es.len(),
        new_es == old_es.insert(i, (k, v)),
    ensures
        entries_map(new_es) == entries_map(old_es).insert(k, v),
{
    let m_old = entries_map(old_es);
    let m_new = entries_map(new_es);
    assert(new_es[i] == (k, v));
    lemma_entries_map_at(new_es, i);
    assert forall|x: u64| #[trigger] m_new.contains_key(x) implies m_old.insert(k, v).contains_key(x)
        by {
        let j = choose|j: int| 0 <= j < new_es.len() && #[trigger] new_es[j].0 == x;
        if j < i {
            assert(old_es[j].0 == x);
        } else if j > i {
            assert(old_es[j - 1].0 == x);
        }
    }
    assert forall|x: u64| #[trigger] m_old.insert(k, v).contains_key(x) implies m_new.contains_key(x)
        && m_new[x] == m_old.insert(k, v)[x] by {
        if x != k {
            let j = choose|j: int| 0 <= j < old_es.len() && #[trigger] old_es[j].0 == x;
            lemma_entries_map_at(old_es, j);
            if j < i {
                assert(new_es[j] == old_es[j]);
                lemma_entries_map_at(new_es, j);
            } else {
                assert(new_es[j + 1] == old_es[j]);
                lemma_entries_map_at(new_es, j + 1);
            }
        }
    }
    assert(m_new =~= m_old.insert(k, v));
}

/// Replacing the value of the record at `i` replaces it in the map.
proof fn lemma_map_update_at(
    old_es: Seq<(u64, Seq<u8>)>,
    new_es: Seq<(u64, Seq<u8>)>,
    i: int,
    v: Seq<u8>,
)
    requires
        keys_increasing(old_es),
        0 <= i < old_es.len(),
        new_es == old_es.update(i, (old_es[i].0, v)),
    ensures
        keys_increasing(new_es),
        entries_map(new_es) == entries_map(old_es).insert(old_es[i].0, v),
{
    let k = old_es[i].0;
    let m_old = entries_map(old_es);
    let m_new = entries_map(new_es);
    assert(keys_increasing(new_es)) by {
        assert forall|a: int, b: int| 0 <= a < b < new_es.len() implies #[trigger] new_es[a].0
            < #[trigger] new_es[b].0 by {
            assert(old_es[a].0 < old_es[b].0);
        }
    }
    lemma_entries_map_at(new_es, i);
    assert forall|x: u64| #[trigger] m_new.contains_key(x) implies m_old.insert(k, v).contains_key(x)
        by {
        let j = choose|j: int| 0 <= j < new_es.len() && #[trigger] new_es[j].0 == x;
        assert(old_es[j].0 == x);
    }
    assert forall|x: u64| #[trigger] m_old.insert(k, v).contains_key(x) implies m_new.contains_key(x)
        && m_new[x] == m_old.insert(k, v)[x] by {
        if x != k {
            let j = choose|j: int| 0 <= j < old_es.len() && #[trigger] old_es[j].0 == x;
            lemma_entries_map_at(old_es, j);
            assert(new_es[j] == old_es[j]);
            lemma_entries_map_at(new_es, j);
        }
    }
    assert(m_new =~= m_old.insert(k, v));
}

/// Removing the record at `i` removes its key from the map.
proof fn lemma_map_remove_at(old_es: Seq<(u64, Seq<u8>)>, new_es: Seq<(u64, Seq<u8>)>, i: int)
    requires
        keys_increasing(old_es),
        0 <= i < old_es.len(),
        new_es == old_es.remove(i),
    ensures
        keys_increasing(new_es),
        entries_map(new_es) == entries_map(old_es).remove(old_es[i].0),
{
    let k = old_es[i].0;
    let m_old = entries_map(old_es);
    let m_new = entries_map(new_es);
    assert(keys_increasing(new_es)) by {
        assert forall|a: int, b: int| 0 <= a < b < new_es.len() implies #[trigger] new_es[a].0
            < #[trigger] new_es[b].0 by {
            if a < i {
                if b < i {
                    assert(old_es[a].0 < old_es[b].0);
                } else {
                    assert(old_es[a].0 < old_es[b + 1].0);
                }
            } else {
                assert(old_es[a + 1].0 < old_es[b + 1].0);
            }
        }
    }
    assert forall|x: u64| #[trigger] m_new.contains_key(x) implies m_old.remove(k).contains_key(x)
        by {
        let j = choose|j: int| 0 <= j < new_es.len() && #[trigger] new_es[j].0 == x;
        if j < i {
            assert(old_es[j].0 == x);
            assert(old_es[j].0 < old_es[i].0);
        } else {
            assert(old_es[j + 1].0 == x);
            assert(old_es[i].0 < old_es[j + 1].0);
        }
    }
    assert forall|x: u64| #[trigger] m_old.remove(k).contains_key(x) implies m_new.contains_key(x)
        && m_new[x] == m_old.remove(k)[x] by {
        let j = choose|j: int| 0 <= j < old_es.len() && #[trigger] old_es[j].0 == x;
        lemma_entries_map_at(old_es, j);
        if j < i {
            assert(new_es[j] == old_es[j]);
            lemma_entries_map_at(new_es, j);
        } else {
            assert(j != i);
            assert(new_es[j - 1] == old_es[j]);
            lemma_entries_map_at(new_es, j - 1);
        }
    }
    assert(m_new =~= m_old.remove(k));
}

impl TlvStream {
    /// An empty stream.
    pub fn new() -> (r: Self)
        ensures
            r.entries() == Seq::<(u64, Seq<u8>)>::empty(),
            r@ == Map::<u64, Seq<u8>>::empty(),
    {
        let r = TlvStream { fields: Vec::new() };
        assert(r.entries() =~= Seq::<(u64, Seq<u8>)>::empty());
        assert(r@ =~= Map::<u64, Seq<u8>>::empty());
        r
    }

    /// The index of the first record whose type is not below `field_type`.
    fn position(&self, field_type: u64) -> (i: usize)
        ensures
            i <= self.entries().len(),
            forall|j: int| 0 <= j < i ==> #[trigger] self.entries()[j].0 < field_type,
            i < self.entries().len() ==> self.entries()[i as int].0 >= field_type,
    {
        let mut i: usize = 0;
        while i < self.fields.len()
            invariant
                i <= self.fields@.len(),
                self.entries().len() == self.fields@.len(),
                forall|j: int| 0 <= j < i ==> #[trigger] self.entries()[j].0 < field_type,
            decreases self.fields@.len() - i,
        {
            if self.fields[i].0 >= field_type {
                return i;
            }
            i = i + 1;
        }
        i
    }

    /// Sets the value of `field_type`, replacing any value it had.
    pub fn insert(&mut self, field_type: u64, value: Vec<u8>)
        ensures
            final(self)@ == old(self)@.insert(field_type, value@),
    {
        proof {
            use_type_invariant(&*self);
        }
        let ghost old_es = self.entries();
        let ghost v = value@;
        let i = self.position(field_type);
        if i < self.fields.len() && self.fields[i].0 == field_type {
            proof {
                let new_es = old_es.update(i as int, (field_type, v));
                lemma_map_update_at(old_es, new_es, i as int, v);
            }
            let mut fields: Vec<(u64, Vec<u8>)> = Vec::new();
            std::mem::swap(&mut fields, &mut self.fields);
            fields.set(i, (field_type, value));
            assert(entries_of(fields@) =~= old_es.update(i as int, (field_type, v)));
            self.fields = fields;
        } else {
            let ghost new_es = old_es.insert(i as int, (field_type, v));
            assert(keys_increasing(new_es)) by {
                assert forall|a: int, b: int| 0 <= a < b < new_es.len() implies #[trigger] new_es[a].0
                    < #[trigger] new_es[b].0 by {
                    if b < i {
                        assert(old_es[a].0 < old_es[b].0);
                    } else if b == i {
                        assert(old_es[a].0 < field_type);
                    } else if a < i {
                        assert(old_es[a].0 < old_es[b - 1].0);
                    } else if a == i {
                        assert(old_es[i as int].0 > field_type);
                        if b - 1 > i {
                            assert(old_es[i as int].0 < old_es[b - 1].0);
                        }
                    } else {
                        assert(old_es[a - 1].0 < old_es[b - 1].0);
                    }
                }
            }
            proof {
                lemma_map_insert_at(old_es, new_es, i as int, field_type, v);
            }
            let mut fields: Vec<(u64, Vec<u8>)> = Vec::new();
            std::mem::swap(&mut fields, &mut self.fields);
            fields.insert(i, (field_type, value));
            assert(entries_of(fields@) =~= new_es);
            self.fields = fields;
        }
    }

    /// The value of `field_type`, if the stream has one.
    pub fn get(&self, field_type: u64) -> (r: Option<&[u8]>)
        ensures
            r is Some <==> self@.contains_key(field_type),
            r is Some ==> r->0@ == self@[field_type],
    {
        proof {
            use_type_invariant(self);
        }
        let i = self.position(field_type);
        if i < self.fields.len() && self.fields[i].0 == field_type {
            proof {
                lemma_entries_map_at(self.entries(), i as int);
            }
            Some(self.fields[i].1.as_slice())
        } else {
            proof {
                if self@.contains_key(field_type) {
                    let es = self.entries();
                    let j = choose|j: int| 0 <= j < es.len() && #[trigger] es[j].0 == field_type;
                    if j > i {
                        assert(es[i as int].0 < es[j].0);
                    }
                }
            }
            None
        }
    }

    /// Removes `field_type` and returns its value, if the stream had one.
    pub fn take(&mut self, field_type: u64) -> (r: Option<Vec<u8>>)
        ensures
            r is Some <==> old(self)@.contains_key(field_type),
            r is Some ==> r->0@ == old(self)@[field_type],
            final(self)@ == old(self)@.remove(field_type),
    {
        proof {
            use_type_invariant(&*self);
        }
        let ghost old_es = self.entries();
        let i = self.position(field_type);
        if i < self.fields.len() && self.fields[i].0 == field_type {
            proof {
                lemma_entries_map_at(old_es, i as int);
                lemma_map_remove_at(old_es, old_es.remove(i as int), i as int);
            }
            let mut fields: Vec<(u64, Vec<u8>)> = Vec::new();
            std::mem::swap(&mut fields, &mut self.fields);
            let (_, value) = fields.remove(i);
            assert(entries_of(fields@) =~= old_es.remove(i as int));
            self.fields = fields;
            Some(value)
        } else {
            proof {
                if self@.contains_key(field_type) {
                    let j = choose|j: int| 0 <= j < old_es.len() && #[trigger] old_es[j].0 == field_type;
                    if j > i {
                        assert(old_es[i as int].0 < old_es[j].0);
                    }
                }
                assert(self@ =~= self@.remove(field_type));
            }
            None
        }
    }

    /// Whether the stream has a value for `field_type`.
    pub fn contains(&self, field_type: u64) -> (r: bool)
        ensures
            r == self@.contains_key(field_type),
    {
        self.get(field_type).is_some()
    }

    /// Appends a record whose type is above every type in the stream.
    fn push_last(&mut self, field_type: u64, value: Vec<u8>)
        requires
            forall|j: int| 0 <= j < old(self).entries().len() ==> #[trigger] old(self).entries()[j].0 < field_type,
        ensures
            final(self).entries() == old(self).entries().push((field_type, value@)),
    {
        proof {
            use_type_invariant(&*self);
        }
        let ghost old_es = self.entries();
        let ghost v = value@;
        assert(keys_increasing(old_es.push((field_type, v))));
        let mut fields: Vec<(u64, Vec<u8>)> = Vec::new();
        std::mem::swap(&mut fields, &mut self.fields);
        fields.push((field_type, value));
        assert(entries_of(fields@) =~= old_es.push((field_type, v)));
        self.fields = fields;
    }

    /// Appends the encoding of every record, in increasing type order.
    pub fn write(&self, writer: &mut Vec<u8>)
        ensures
            final(writer)@ == old(writer)@ + entries_bytes(self.entries()),
    {
        let mut i: usize = 0;
        while i < self.fields.len()
            invariant
                i <= self.fields@.len(),
                self.entries().len() == self.fields@.len(),
                writer@ == old(writer)@ + entries_bytes(self.entries().take(i as int)),
            decreases self.fields@.len() - i,
        {
            let ghost before = writer@;
            let entry = &self.fields[i];
            write_varint(writer, entry.0);
            write_varint(writer, entry.1.len() as u64);
            crate::bytes::extend_bytes(writer, entry.1.as_slice());
            proof {
                let es = self.entries();
                assert(es.take(i + 1).drop_last() =~= es.take(i as int));
                assert(es.take(i + 1).last() == es[i as int]);
                assert(writer@ =~= before + record_bytes(es[i as int]));
            }
            i = i + 1;
        }
        assert(self.entries().take(i as int) =~= self.entries());
    }

    /// The encoding of the stream.
    pub fn encode(&self) -> (r: Vec<u8>)
        ensures
            r@ == entries_bytes(self.entries()),
            keys_increasing(self.entries()),
    {
        proof {
            use_type_invariant(self);
        }
        let mut buf: Vec<u8> = Vec::new();
        self.write(&mut buf);
        assert(buf@ =~= entries_bytes(self.entries()));
        buf
    }

    /// All records, in increasing type order.
    pub fn iter(&self) -> (r: Vec<(u64, Vec<u8>)>)
        ensures
            r@.len() == self.entries().len(),
            forall|j: int| 0 <= j < r@.len() ==> (#[trigger] r@[j]).0 == self.entries()[j].0 && r@[j].1@ == self.entries()[j].1,
    {
        let mut r: Vec<(u64, Vec<u8>)> = Vec::new();
        let mut i: usize = 0;
        while i < self.fields.len()
            invariant
                i <= self.fields@.len(),
                self.entries().len() == self.fields@.len(),
                r@.len() == i,
                forall|j: int| 0 <= j < i ==> (#[trigger] r@[j]).0 == self.entries()[j].0 && r@[j].1@ == self.entries()[j].1,
            decreases self.fields@.len() - i,
        {
            let entry = &self.fields[i];
            let value = crate::bytes::copy_range(entry.1.as_slice(), 0, entry.1.len());
            assert(value@ =~= self.entries()[i as int].1);
            r.push((entry.0, value));
            i = i + 1;
        }
        r
    }
}


/// Records `acc` read before, followed by the outcome of reading the rest.
pub open spec fn after_records(
    acc: Seq<(u64, Seq<u8>)>,
    rest: Result<Seq<(u64, Seq<u8>)>, StreamFault>,
) -> Result<Seq<(u64, Seq<u8>)>, StreamFault> {
    match rest {
        Ok(es) => Ok(acc + es),
        Err(f) => Err(f),
    }
}

/// One record read from the front of `s`, followed by the rest of the stream.
proof fn lemma_stream_parse_step(s: Seq<u8>, last: Option<u64>, t: u64, n: nat, len: u64, m: nat)
    requires
        varint_parse(s) == Ok::<(u64, nat), TlvFault>((t, n)),
        !(last is Some && t <= last->0),
        varint_parse(s.skip(n as int)) == Ok::<(u64, nat), TlvFault>((len, m)),
        len <= MAX_TLV_VALUE_LENGTH,
        s.skip(n as int).len() >= m + len,
    ensures
        stream_parse(s, last) == after_records(
            seq![(t, s.skip(n as int).subrange(m as int, m + len))],
            stream_parse(s.skip(n as int).skip(m + len), Some(t)),
        ),
{
    reveal(stream_parse);
}

/// Every value of `es` fits the length limit of reading.
pub open spec fn values_within_limit(es: Seq<(u64, Seq<u8>)>) -> bool {
    forall|i: int| 0 <= i < es.len() ==> (#[trigger] es[i]).1.len() <= MAX_TLV_VALUE_LENGTH
}

/// Reading a record from the front of its encoding followed by `tail`.
#[verifier::spinoff_prover]
#[verifier::rlimit(30)]
proof fn lemma_record_parse(e: (u64, Seq<u8>), tail: Seq<u8>) -> (nm: (nat, nat))
    requires
        e.1.len() <= MAX_TLV_VALUE_LENGTH,
    ensures
        varint_parse(record_bytes(e) + tail) == Ok::<(u64, nat), TlvFault>((e.0, nm.0)),
        varint_parse((record_bytes(e) + tail).skip(nm.0 as int)) == Ok::<(u64, nat), TlvFault>(
            (e.1.len() as u64, nm.1),
        ),
        (record_bytes(e) + tail).skip(nm.0 as int).len() >= nm.1 + e.1.len(),
        (record_bytes(e) + tail).skip(nm.0 as int).subrange(nm.1 as int, (nm.1 + e.1.len()) as int) == e.1,
        (record_bytes(e) + tail).skip(nm.0 as int).skip((nm.1 + e.1.len()) as int) == tail,
{
    let len = e.1.len() as u64;
    let s = record_bytes(e) + tail;
    assert(s =~= varint_bytes(e.0) + (varint_bytes(len) + e.1 + tail));
    lemma_varint_roundtrip(e.0, varint_bytes(len) + e.1 + tail);
    let n = varint_bytes(e.0).len();
    assert(s.skip(n as int) =~= varint_bytes(len) + (e.1 + tail));
    lemma_varint_roundtrip(len, e.1 + tail);
    let m = varint_bytes(len).len();
    assert(s.skip(n as int).subrange(m as int, m + len) =~= e.1);
    assert(s.skip(n as int).skip(m + len) =~= tail);
    (n, m)
}

proof fn lemma_stream_roundtrip_from(es: Seq<(u64, Seq<u8>)>, last: Option<u64>)
    requires
        keys_increasing(es),
        values_within_limit(es),
        es.len() > 0 && last is Some ==> last->0 < es[0].0,
    ensures
        stream_parse(entries_bytes(es), last) == Ok::<Seq<(u64, Seq<u8>)>, StreamFault>(es),
    decreases es.len(),
{
    if es.len() == 0 {
        assert(entries_bytes(es) =~= Seq::<u8>::empty());
        assert(varint_parse(entries_bytes(es)) == Err::<(u64, nat), TlvFault>(TlvFault::UnexpectedEof));
        reveal(stream_parse);
        assert(es =~= Seq::<(u64, Seq<u8>)>::empty());
    } else {
        let e = es[0];
        let tail_es = es.drop_first();
        assert(es =~= seq![e] + tail_es);
        lemma_entries_bytes_cons(e, tail_es);
        let tail = entries_bytes(tail_es);
        assert(es[0].1.len() <= MAX_TLV_VALUE_LENGTH);
        let (n, m) = lemma_record_parse(e, tail);
        assert(keys_increasing(tail_es)) by {
            assert forall|a: int, b: int| 0 <= a < b < tail_es.len() implies #[trigger] tail_es[a].0
                < #[trigger] tail_es[b].0 by {
                assert(es[a + 1].0 < es[b + 1].0);
            }
        }
        assert(values_within_limit(tail_es)) by {
            assert forall|i: int| 0 <= i < tail_es.len() implies (#[trigger] tail_es[i]).1.len()
                <= MAX_TLV_VALUE_LENGTH by {
                assert(es[i + 1].1.len() <= MAX_TLV_VALUE_LENGTH);
            }
        }
        if tail_es.len() > 0 {
            assert(es[0].0 < es[1].0);
        }
        lemma_stream_roundtrip_from(tail_es, Some(e.0));
        lemma_stream_parse_step(record_bytes(e) + tail, last, e.0, n, e.1.len() as u64, m);
        assert(seq![(e.0, e.1)] + tail_es =~= es);
    }
}

/// Reading the encoding of records with increasing types, none longer than
/// the limit, gives back exactly those records.
pub proof fn lemma_stream_roundtrip(es: Seq<(u64, Seq<u8>)>)
    requires
        keys_increasing(es),
        values_within_limit(es),
    ensures
        stream_parse(entries_bytes(es), None) == Ok::<Seq<(u64, Seq<u8>)>, StreamFault>(es),
{
    lemma_stream_roundtrip_from(es, None);
}

impl TlvStream {
    /// Reads records from `reader` at `*pos` to the end of the data.
    ///
    /// Records must come in strictly increasing type order, and no value may
    /// be longer than [`MAX_TLV_VALUE_LENGTH`]. The stream ends where no
    /// further type can be read.
    #[verifier::rlimit(40)]
    pub fn read(reader: &[u8], pos: &mut usize) -> (r: TlvResult<Self>)
        requires
            *old(pos) <= reader@.len(),
        ensures
            *final(pos) <= reader@.len(),
            match stream_parse(reader@.skip(*old(pos) as int), None) {
                Ok(es) => r is Ok && r->Ok_0.entries() == es,
                Err(f) => r is Err && error_is(r->Err_0, f),
            },
    {
        let ghost s0 = reader@.skip(*pos as int);
        let mut stream = TlvStream::new();
        let mut last: Option<u64> = None;
        assert(stream.entries() + Seq::<(u64, Seq<u8>)>::empty() =~= stream.entries());
        loop
            invariant
                *pos <= reader@.len(),
                s0 == reader@.skip(*old(pos) as int),
                last is None ==> stream.entries().len() == 0,
                last is Some ==> forall|j: int|
                    0 <= j < stream.entries().len() ==> #[trigger] stream.entries()[j].0 <= last->0,
                stream_parse(s0, None) == after_records(
                    stream.entries(),
                    stream_parse(reader@.skip(*pos as int), last),
                ),
            decreases reader@.len() - *pos,
        {
            let ghost s = reader@.skip(*pos as int);
            let p0 = *pos;
            let field_type = match read_varint(reader, pos) {
                Ok(t) => t,
                Err(e) => {
                    match e {
                        TlvError::UnexpectedEof => {
                            assert(varint_parse(s) == Err::<(u64, nat), TlvFault>(TlvFault::UnexpectedEof));
                            assert(stream_parse(s, last) == Ok::<Seq<(u64, Seq<u8>)>, StreamFault>(Seq::empty())) by {
                                reveal(stream_parse);
                            }
                            assert(stream.entries() + Seq::<(u64, Seq<u8>)>::empty() =~= stream.entries());
                            return Ok(stream);
                        },
                        _ => {
                            assert(stream_parse(s, last) == Err::<Seq<(u64, Seq<u8>)>, StreamFault>((e.fault(), seq![]))) by {
                                reveal(stream_parse);
                            }
                            return Err(e);
                        },
                    }
                },
            };
            let ghost n = (*pos - p0) as nat;
            match last {
                Some(l) => {
                    if field_type <= l {
                        assert(varint_parse(s) == Ok::<(u64, nat), TlvFault>((field_type, n)));
                        assert(stream_parse(s, last) == Err::<Seq<(u64, Seq<u8>)>, StreamFault>((TlvFault::NonCanonicalOrder(field_type), seq![]))) by {
                            reveal(stream_parse);
                        }
                        return Err(TlvError::NonCanonicalOrder { field_type });
                    }
                },
                None => {},
            }
            let ghost rest = s.skip(n as int);
            assert(rest =~= reader@.skip(*pos as int));
            let p1 = *pos;
            assert(varint_parse(s) == Ok::<(u64, nat), TlvFault>((field_type, n)));
            let length = match read_varint(reader, pos) {
                Ok(l) => l,
                Err(e) => {
                    assert(stream_parse(s, last) == Err::<Seq<(u64, Seq<u8>)>, StreamFault>((e.fault(), seq![]))) by {
                        reveal(stream_parse);
                    }
                    return Err(e);
                },
            };
            let ghost m = (*pos - p1) as nat;
            if length > MAX_TLV_VALUE_LENGTH {
                let reason = text_with_number("TLV value length ", length, " exceeds maximum 16777216");
                proof {
                    reveal_strlit("TLV value length ");
                    reveal_strlit(" exceeds maximum 16777216");
                    assert(stream_parse(s, last) == Err::<Seq<(u64, Seq<u8>)>, StreamFault>((TlvFault::InvalidFieldValue(field_type), length_over_limit_reason(length)))) by {
                        reveal(stream_parse);
                    }
                }
                return Err(TlvError::InvalidFieldValue { field_type, reason });
            }
            let p2 = *pos;
            let len = length as usize;
            if reader.len() - p2 < len {
                assert(stream_parse(s, last) == Err::<Seq<(u64, Seq<u8>)>, StreamFault>((TlvFault::UnexpectedEof, seq![]))) by {
                    reveal(stream_parse);
                }
                return Err(TlvError::UnexpectedEof);
            }
            let value = crate::bytes::copy_range(reader, p2, p2 + len);
            assert(value@ =~= rest.subrange(m as int, m + length));
            *pos = p2 + len;
            assert(rest.skip(m + length) =~= reader@.skip(*pos as int));
            let ghost acc = stream.entries();
            let ghost tail = stream_parse(reader@.skip(*pos as int), Some(field_type));
            proof {
                lemma_stream_parse_step(s, last, field_type, n, length, m);
            }
            stream.push_last(field_type, value);
            proof {
                match tail {
                    Ok(es) => {
                        assert(acc.push((field_type, value@)) + es =~= acc + (seq![(field_type, value@)] + es));
                    },
                    Err(_) => {},
                }
            }
            last = Some(field_type);
        }
    }

    /// Decodes a stream from `data`.
    pub fn decode(data: &[u8]) -> (r: TlvResult<Self>)
        ensures
            match stream_parse(data@, None) {
                Ok(es) => r is Ok && r->Ok_0.entries() == es,
                Err(f) => r is Err && error_is(r->Err_0, f),
            },
    {
        let mut pos: usize = 0;
        assert(data@.skip(0) =~= data@);
        TlvStream::read(data, &mut pos)
    }
}


// ============================================================================
// Encode/decode traits
// ============================================================================

/// Types with a TLV encoding.
pub trait TlvEncode {
    /// The encoding of this value.
    spec fn tlv_bytes(&self) -> Seq<u8>;

    /// Encodes this value to TLV bytes.
    fn tlv_encode(&self) -> (r: Vec<u8>)
        ensures
            r@ == self.tlv_bytes(),
    ;
}

/// Types that can be decoded from TLV bytes.
pub trait TlvDecode: Sized {
    /// `r` is what decoding `data` gives.
    spec fn tlv_decodes(data: Seq<u8>, r: TlvResult<Self>) -> bool;

    /// Decodes a value from TLV bytes.
    fn tlv_decode(data: &[u8]) -> (r: TlvResult<Self>)
        ensures
            Self::tlv_decodes(data@, r),
    ;
}

// ============================================================================
// Field value encodings
// ============================================================================


// ============================================================================
// What reading a field gives
// ============================================================================

/// The error for a missing required field.
pub open spec fn missing_fault(field_type: u64) -> StreamFault {
    (TlvFault::MissingRequiredField(field_type), seq![])
}

/// The error for an invalid field value.
pub open spec fn invalid_fault(field_type: u64, reason: Seq<char>) -> StreamFault {
    (TlvFault::InvalidFieldValue(field_type), reason)
}

/// The error a short read of a value reports.
pub open spec fn short_read_fault() -> StreamFault {
    (TlvFault::Io, "failed to fill whole buffer"@)
}

/// `r` is the outcome `s` describes: the same value, or the described error.
pub open spec fn outcome<T>(r: TlvResult<T>, s: Result<T, StreamFault>) -> bool {
    match s {
        Ok(v) => r == Ok::<T, TlvError>(v),
        Err(f) => r is Err && error_is(r->Err_0, f),
    }
}

/// `r` is the outcome `s` describes, comparing values by their views.
pub open spec fn outcome_view<T: View>(r: TlvResult<T>, s: Result<T::V, StreamFault>) -> bool {
    match s {
        Ok(v) => r is Ok && r->Ok_0@ == v,
        Err(f) => r is Err && error_is(r->Err_0, f),
    }
}

/// `r` is the optional outcome `s` describes, comparing values by their
/// views.
pub open spec fn outcome_opt_view<T: View>(
    r: TlvResult<Option<T>>,
    s: Result<Option<T::V>, StreamFault>,
) -> bool {
    match s {
        Ok(None) => r is Ok && r->Ok_0 is None,
        Ok(Some(v)) => r is Ok && r->Ok_0 is Some && r->Ok_0->0@ == v,
        Err(f) => r is Err && error_is(r->Err_0, f),
    }
}

/// A `u8` read from exactly one byte.
pub open spec fn u8_of(d: Seq<u8>) -> Result<u8, StreamFault> {
    if d.len() == 1 {
        Ok(d[0])
    } else {
        Err(invalid_fault(0, "expected 1 byte for u8, got "@ + decimal_digits(d.len())))
    }
}

/// A big-endian `u16` read from exactly two bytes.
pub open spec fn u16_of(d: Seq<u8>) -> Result<u16, StreamFault> {
    if d.len() == 2 {
        Ok(u16_from_be(d))
    } else {
        Err(invalid_fault(0, "expected 2 bytes for u16, got "@ + decimal_digits(d.len())))
    }
}

/// A big-endian `u32` read from exactly four bytes.
pub open spec fn u32_of(d: Seq<u8>) -> Result<u32, StreamFault> {
    if d.len() == 4 {
        Ok(u32_from_be(d))
    } else {
        Err(invalid_fault(0, "expected 4 bytes for u32, got "@ + decimal_digits(d.len())))
    }
}

/// A big-endian `u64` read from exactly eight bytes.
pub open spec fn u64_of(d: Seq<u8>) -> Result<u64, StreamFault> {
    if d.len() == 8 {
        Ok(u64_from_be(d))
    } else {
        Err(invalid_fault(0, "expected 8 bytes for u64, got "@ + decimal_digits(d.len())))
    }
}

/// The characters of UTF-8 bytes.
pub open spec fn string_of(d: Seq<u8>) -> Result<Seq<char>, StreamFault> {
    if valid_utf8(d) {
        Ok(decode_utf8(d))
    } else {
        Err(invalid_fault(0, "invalid UTF-8: "@ + utf8_error_text(d)))
    }
}

/// Exactly `n` bytes.
pub open spec fn bytes_of(d: Seq<u8>, n: nat) -> Result<Seq<u8>, StreamFault> {
    if d.len() == n {
        Ok(d)
    } else {
        Err(
            invalid_fault(
                0,
                "expected "@ + decimal_digits(n) + " bytes, got "@ + decimal_digits(d.len()),
            ),
        )
    }
}

/// The compressed encoding of the public key that `d` encodes.
pub open spec fn pubkey_of(d: Seq<u8>) -> Result<Seq<u8>, StreamFault> {
    match secp256k1_parse(d) {
        Some(k) => Ok(k),
        None => Err(invalid_fault(0, "invalid pubkey: malformed public key"@)),
    }
}

/// A 16-byte deposit identifier held in field `field_type`.
pub open spec fn deposit_id_of(d: Seq<u8>, field_type: u64) -> Result<Seq<u8>, StreamFault> {
    if d.len() == 16 {
        Ok(d)
    } else {
        Err(
            invalid_fault(
                field_type,
                "expected 16 bytes for deposit_id, got "@ + decimal_digits(d.len()),
            ),
        )
    }
}

/// Reading required field `field_type` of `m` with `of`.
pub open spec fn required<V>(
    m: Map<u64, Seq<u8>>,
    field_type: u64,
    of: spec_fn(Seq<u8>) -> Result<V, StreamFault>,
) -> Result<V, StreamFault> {
    if m.contains_key(field_type) {
        of(m[field_type])
    } else {
        Err(missing_fault(field_type))
    }
}

/// Reading optional field `field_type` of `m` with `of`.
pub open spec fn optional<V>(
    m: Map<u64, Seq<u8>>,
    field_type: u64,
    of: spec_fn(Seq<u8>) -> Result<V, StreamFault>,
) -> Result<Option<V>, StreamFault> {
    if m.contains_key(field_type) {
        match of(m[field_type]) {
            Ok(v) => Ok(Some(v)),
            Err(f) => Err(f),
        }
    } else {
        Ok(None)
    }
}

/// Element bytes, each preceded by its length as a varint.
pub open spec fn items_bytes(items: Seq<Seq<u8>>) -> Seq<u8>
    decreases items.len(),
{
    if items.len() == 0 {
        seq![]
    } else {
        items_bytes(items.drop_last()) + varint_bytes(items.last().len() as u64) + items.last()
    }
}

/// A count of elements as a varint, then the elements, each preceded by its
/// length.
pub open spec fn counted_bytes(items: Seq<Seq<u8>>) -> Seq<u8> {
    varint_bytes(items.len() as u64) + items_bytes(items)
}

/// Reading `count` length-prefixed witness elements from the front of `s`.
#[verifier::opaque]
pub open spec fn witness_elements(s: Seq<u8>, count: nat, field_type: u64) -> Result<Seq<Seq<u8>>, StreamFault>
    decreases count,
{
    if count == 0 {
        Ok(seq![])
    } else {
        match varint_parse(s) {
            Err(f) => Err((f, seq![])),
            Ok((len, m)) => {
                if len > 520 {
                    Err(
                        invalid_fault(
                            field_type,
                            "witness element size "@ + decimal_digits(len as nat)
                                + " exceeds maximum 520"@,
                        ),
                    )
                } else if s.len() < m + len {
                    Err(short_read_fault())
                } else {
                    match witness_elements(s.skip(m + len), (count - 1) as nat, field_type) {
                        Ok(es) => Ok(seq![s.subrange(m as int, m + len)] + es),
                        Err(f) => Err(f),
                    }
                }
            },
        }
    }
}

/// A witness stack held in field `field_type`: a count of at most 1000, then
/// that many elements of at most 520 bytes, each preceded by its length.
pub open spec fn witness_of(d: Seq<u8>, field_type: u64) -> Result<Seq<Seq<u8>>, StreamFault> {
    match varint_parse(d) {
        Err(f) => Err((f, seq![])),
        Ok((count, n)) => {
            if count > 1000 {
                Err(
                    invalid_fault(
                        field_type,
                        "witness stack size "@ + decimal_digits(count as nat)
                            + " exceeds maximum 1000"@,
                    ),
                )
            } else {
                witness_elements(d.skip(n as int), count as nat, field_type)
            }
        },
    }
}

/// `e` is an invalid-value error for `field_type` whose reason is `prefix`
/// followed by the decimal digits of `n`.
pub open spec fn is_invalid_count(e: TlvError, field_type: u64, prefix: Seq<char>, n: nat) -> bool {
    is_invalid_value(e, field_type, prefix + decimal_digits(n))
}

/// Encodes a `u8`.
pub fn encode_u8(value: u8) -> (r: Vec<u8>)
    ensures
        r@ == seq![value],
{
    let mut r: Vec<u8> = Vec::new();
    r.push(value);
    assert(r@ =~= seq![value]);
    r
}

/// Decodes a `u8` from exactly one byte.
pub fn decode_u8(data: &[u8]) -> (r: TlvResult<u8>)
    ensures
        outcome(r, u8_of(data@)),
{
    if data.len() != 1 {
        let reason = text_with_number("expected 1 byte for u8, got ", data.len() as u64, "");
        proof {
            reveal_strlit("");
            assert(reason@ =~= "expected 1 byte for u8, got "@ + decimal_digits(data@.len()));
        }
        return Err(TlvError::InvalidFieldValue { field_type: 0, reason });
    }
    Ok(data[0])
}

/// Encodes a `u16`, big-endian.
pub fn encode_u16(value: u16) -> (r: Vec<u8>)
    ensures
        r@ == u16_be(value),
{
    let mut r: Vec<u8> = Vec::new();
    push_u16_be(&mut r, value);
    assert(r@ =~= u16_be(value));
    r
}

/// Decodes a big-endian `u16` from exactly two bytes.
pub fn decode_u16(data: &[u8]) -> (r: TlvResult<u16>)
    ensures
        outcome(r, u16_of(data@)),
{
    if data.len() != 2 {
        let reason = text_with_number("expected 2 bytes for u16, got ", data.len() as u64, "");
        proof {
            reveal_strlit("");
            assert(reason@ =~= "expected 2 bytes for u16, got "@ + decimal_digits(data@.len()));
        }
        return Err(TlvError::InvalidFieldValue { field_type: 0, reason });
    }
    assert(data@.subrange(0, 2) =~= data@);
    Ok(get_u16_be(data, 0))
}

/// Encodes a `u32`, big-endian.
pub fn encode_u32(value: u32) -> (r: Vec<u8>)
    ensures
        r@ == u32_be(value),
{
    let mut r: Vec<u8> = Vec::new();
    push_u32_be(&mut r, value);
    assert(r@ =~= u32_be(value));
    r
}

/// Decodes a big-endian `u32` from exactly four bytes.
pub fn decode_u32(data: &[u8]) -> (r: TlvResult<u32>)
    ensures
        outcome(r, u32_of(data@)),
{
    if data.len() != 4 {
        let reason = text_with_number("expected 4 bytes for u32, got ", data.len() as u64, "");
        proof {
            reveal_strlit("");
            assert(reason@ =~= "expected 4 bytes for u32, got "@ + decimal_digits(data@.len()));
        }
        return Err(TlvError::InvalidFieldValue { field_type: 0, reason });
    }
    assert(data@.subrange(0, 4) =~= data@);
    Ok(get_u32_be(data, 0))
}

/// Encodes a `u64`, big-endian.
pub fn encode_u64(value: u64) -> (r: Vec<u8>)
    ensures
        r@ == u64_be(value),
{
    let mut r: Vec<u8> = Vec::new();
    push_u64_be(&mut r, value);
    assert(r@ =~= u64_be(value));
    r
}

/// Decodes a big-endian `u64` from exactly eight bytes.
pub fn decode_u64(data: &[u8]) -> (r: TlvResult<u64>)
    ensures
        outcome(r, u64_of(data@)),
{
    if data.len() != 8 {
        let reason = text_with_number("expected 8 bytes for u64, got ", data.len() as u64, "");
        proof {
            reveal_strlit("");
            assert(reason@ =~= "expected 8 bytes for u64, got "@ + decimal_digits(data@.len()));
        }
        return Err(TlvError::InvalidFieldValue { field_type: 0, reason });
    }
    assert(data@.subrange(0, 8) =~= data@);
    Ok(get_u64_be(data, 0))
}

/// Encodes a string as its UTF-8 bytes.
pub fn encode_string(value: &str) -> (r: Vec<u8>)
    ensures
        r@ == encode_utf8(value@),
{
    utf8_bytes(value)
}

/// Decodes a UTF-8 string.
pub fn decode_string(data: &[u8]) -> (r: TlvResult<String>)
    ensures
        outcome_view(r, string_of(data@)),
{
    match string_from_utf8(data) {
        Ok(s) => Ok(s),
        Err(e) => {
            let reason = concat_text("invalid UTF-8: ", e.as_str());
            Err(TlvError::InvalidFieldValue { field_type: 0, reason })
        },
    }
}

/// Encodes raw bytes as themselves.
pub fn encode_bytes(value: &[u8]) -> (r: Vec<u8>)
    ensures
        r@ == value@,
{
    copy_range(value, 0, value.len())
}

/// Decodes a byte array of exactly `N` bytes.
pub fn decode_bytes<const N: usize>(data: &[u8]) -> (r: TlvResult<[u8; N]>)
    ensures
        outcome_view(r, bytes_of(data@, N as nat)),
{
    if data.len() != N {
        let reason = text_with_numbers("expected ", N as u64, " bytes, got ", data.len() as u64);
        return Err(TlvError::InvalidFieldValue { field_type: 0, reason });
    }
    let arr: [u8; N] = array_at(data, 0);
    assert(data@.subrange(0, N as int) =~= data@);
    Ok(arr)
}

/// Encodes a public key as its 33-byte compressed form.
pub fn encode_pubkey(pubkey: &PublicKey) -> (r: Vec<u8>)
    ensures
        r@ == pubkey@,
{
    let bytes = pubkey.serialize();
    array_to_vec(&bytes)
}

/// Decodes a public key from its compressed or uncompressed encoding.
pub fn decode_pubkey(data: &[u8]) -> (r: TlvResult<PublicKey>)
    ensures
        outcome_view(r, pubkey_of(data@)),
{
    match PublicKey::from_slice(data) {
        Ok(pk) => Ok(pk),
        Err(e) => {
            let reason = concat_text("invalid pubkey: ", e.as_str());
            proof {
                reveal_strlit("invalid pubkey: ");
                reveal_strlit("malformed public key");
                reveal_strlit("invalid pubkey: malformed public key");
                assert(reason@ =~= "invalid pubkey: malformed public key"@);
            }
            Err(TlvError::InvalidFieldValue { field_type: 0, reason })
        },
    }
}


/// A compact ECDSA signature held in a field.
pub open spec fn signature_of(d: Seq<u8>) -> Result<Seq<u8>, StreamFault> {
    if is_compact_signature(d) {
        Ok(d)
    } else {
        Err(invalid_fault(0, "invalid signature: malformed signature"@))
    }
}

/// Encodes a signature as its 64-byte compact form.
pub fn encode_signature(sig: &EcdsaSignature) -> (r: Vec<u8>)
    ensures
        r@ == sig@,
{
    let c = sig.serialize_compact();
    crate::bytes::array_to_vec(&c)
}

/// Decodes a signature from its 64-byte compact form.
pub fn decode_signature(data: &[u8]) -> (r: TlvResult<EcdsaSignature>)
    ensures
        outcome_view(r, signature_of(data@)),
{
    match EcdsaSignature::from_compact(data) {
        Ok(sig) => Ok(sig),
        Err(e) => {
            let reason = concat_text("invalid signature: ", e.as_str());
            proof {
                reveal_strlit("invalid signature: ");
                reveal_strlit("malformed signature");
                reveal_strlit("invalid signature: malformed signature");
                assert(reason@ =~= "invalid signature: malformed signature"@);
            }
            Err(TlvError::InvalidFieldValue { field_type: 0, reason })
        },
    }
}

// ============================================================================
// Canonical encoding of a field map
// ============================================================================

/// Records with increasing types that hold the same map are the same
/// records.
pub proof fn lemma_sorted_unique(a: Seq<(u64, Seq<u8>)>, b: Seq<(u64, Seq<u8>)>)
    requires
        keys_increasing(a),
        keys_increasing(b),
        entries_map(a) == entries_map(b),
    ensures
        a == b,
    decreases a.len(),
{
    if a.len() == 0 {
        if b.len() > 0 {
            lemma_entries_map_at(b, 0);
            assert(entries_map(a).contains_key(b[0].0));
        }
        assert(a =~= b);
    } else if b.len() == 0 {
        lemma_entries_map_at(a, 0);
        assert(entries_map(b).contains_key(a[0].0));
    } else {
        lemma_entries_map_at(a, 0);
        lemma_entries_map_at(b, 0);
        let ka = a[0].0;
        let kb = b[0].0;
        assert(entries_map(b).contains_key(ka));
        let j = choose|j: int| 0 <= j < b.len() && #[trigger] b[j].0 == ka;
        if j > 0 {
            assert(b[0].0 < b[j].0);
        }
        assert(entries_map(a).contains_key(kb));
        let i = choose|i: int| 0 <= i < a.len() && #[trigger] a[i].0 == kb;
        if i > 0 {
            assert(a[0].0 < a[i].0);
        }
        assert(ka == kb);
        lemma_map_remove_at(a, a.remove(0), 0);
        lemma_map_remove_at(b, b.remove(0), 0);
        lemma_sorted_unique(a.remove(0), b.remove(0));
        assert(a =~= seq![a[0]] + a.remove(0));
        assert(b =~= seq![b[0]] + b.remove(0));
    }
}

/// `m` is held by some records with increasing types.
pub open spec fn has_sorted_entries(m: Map<u64, Seq<u8>>) -> bool {
    exists|es: Seq<(u64, Seq<u8>)>| keys_increasing(es) && #[trigger] entries_map(es) == m
}

/// The records, in increasing type order, that hold `m`.
pub open spec fn sorted_entries(m: Map<u64, Seq<u8>>) -> Seq<(u64, Seq<u8>)> {
    choose|es: Seq<(u64, Seq<u8>)>| keys_increasing(es) && #[trigger] entries_map(es) == m
}

/// The canonical TLV encoding of the field map `m`: its records in
/// increasing type order.
pub open spec fn map_bytes(m: Map<u64, Seq<u8>>) -> Seq<u8> {
    entries_bytes(sorted_entries(m))
}

/// The records in increasing type order of the map that `es` holds are `es`.
pub proof fn lemma_sorted_entries_of(es: Seq<(u64, Seq<u8>)>)
    requires
        keys_increasing(es),
    ensures
        has_sorted_entries(entries_map(es)),
        sorted_entries(entries_map(es)) == es,
{
    let m = entries_map(es);
    assert(keys_increasing(es) && entries_map(es) == m);
    let c = sorted_entries(m);
    lemma_sorted_unique(c, es);
}

/// Every value of the map fits the length limit.
pub open spec fn map_within_limit(m: Map<u64, Seq<u8>>) -> bool {
    forall|k: u64| #[trigger] m.contains_key(k) ==> m[k].len() <= MAX_TLV_VALUE_LENGTH
}

/// Reading the canonical encoding of a map whose values fit the limit gives
/// back records that hold exactly that map.
pub proof fn lemma_map_roundtrip(m: Map<u64, Seq<u8>>)
    requires
        has_sorted_entries(m),
        map_within_limit(m),
    ensures
        stream_parse(map_bytes(m), None) == Ok::<Seq<(u64, Seq<u8>)>, StreamFault>(sorted_entries(m)),
        entries_map(sorted_entries(m)) == m,
{
    let es = sorted_entries(m);
    assert(values_within_limit(es)) by {
        assert forall|i: int| 0 <= i < es.len() implies (#[trigger] es[i]).1.len()
            <= MAX_TLV_VALUE_LENGTH by {
            lemma_entries_map_at(es, i);
        }
    }
    lemma_stream_roundtrip(es);
}

/// Records `es` with the record `(k, v)` put in its place: replacing the
/// record of type `k`, or inserted before the first larger type.
pub open spec fn sorted_insert(es: Seq<(u64, Seq<u8>)>, k: u64, v: Seq<u8>) -> Seq<(u64, Seq<u8>)>
    decreases es.len(),
{
    if es.len() == 0 {
        seq![(k, v)]
    } else if k < es[0].0 {
        seq![(k, v)] + es
    } else if k == es[0].0 {
        seq![(k, v)] + es.drop_first()
    } else {
        seq![es[0]] + sorted_insert(es.drop_first(), k, v)
    }
}

proof fn lemma_drop_first_increasing(es: Seq<(u64, Seq<u8>)>)
    requires
        keys_increasing(es),
        es.len() > 0,
    ensures
        keys_increasing(es.drop_first()),
        forall|j: int| 0 <= j < es.drop_first().len() ==> es[0].0 < #[trigger] es.drop_first()[j].0,
{
    let rest = es.drop_first();
    assert forall|a: int, b: int| 0 <= a < b < rest.len() implies #[trigger] rest[a].0
        < #[trigger] rest[b].0 by {
        assert(es[a + 1].0 < es[b + 1].0);
    }
    assert forall|j: int| 0 <= j < rest.len() implies es[0].0 < #[trigger] rest[j].0 by {
        assert(es[0].0 < es[j + 1].0);
    }
}

/// Putting a record in its place keeps the types increasing and sets the
/// map's value of `k`.
pub proof fn lemma_sorted_insert(es: Seq<(u64, Seq<u8>)>, k: u64, v: Seq<u8>)
    requires
        keys_increasing(es),
    ensures
        keys_increasing(sorted_insert(es, k, v)),
        entries_map(sorted_insert(es, k, v)) == entries_map(es).insert(k, v),
    decreases es.len(),
{
    let r = sorted_insert(es, k, v);
    if es.len() == 0 {
        assert(r =~= es.insert(0, (k, v)));
        lemma_map_insert_at(es, r, 0, k, v);
    } else if k < es[0].0 {
        assert(r =~= es.insert(0, (k, v)));
        assert(keys_increasing(r)) by {
            assert forall|a: int, b: int| 0 <= a < b < r.len() implies #[trigger] r[a].0
                < #[trigger] r[b].0 by {
                if a == 0 {
                    if b > 1 {
                        assert(es[0].0 < es[b - 1].0);
                    }
                } else {
                    assert(es[a - 1].0 < es[b - 1].0);
                }
            }
        }
        lemma_map_insert_at(es, r, 0, k, v);
    } else if k == es[0].0 {
        assert(r =~= es.update(0, (es[0].0, v)));
        lemma_map_update_at(es, r, 0, v);
    } else {
        let rest = es.drop_first();
        lemma_drop_first_increasing(es);
        lemma_sorted_insert(rest, k, v);
        let s = sorted_insert(rest, k, v);
        assert(r =~= s.insert(0, es[0]));
        assert forall|j: int| 0 <= j < s.len() implies es[0].0 < #[trigger] s[j].0 by {
            lemma_entries_map_at(s, j);
            if s[j].0 != k {
                assert(entries_map(rest).contains_key(s[j].0));
                let i = choose|i: int| 0 <= i < rest.len() && #[trigger] rest[i].0 == s[j].0;
            }
        }
        assert(keys_increasing(r)) by {
            assert forall|a: int, b: int| 0 <= a < b < r.len() implies #[trigger] r[a].0
                < #[trigger] r[b].0 by {
                if a == 0 {
                    assert(es[0].0 < s[b - 1].0);
                } else {
                    assert(s[a - 1].0 < s[b - 1].0);
                }
            }
        }
        lemma_map_insert_at(s, r, 0, es[0].0, es[0].1);
        assert(es =~= rest.insert(0, es[0]));
        lemma_map_insert_at(rest, es, 0, es[0].0, es[0].1);
        assert(entries_map(rest).insert(k, v).insert(es[0].0, es[0].1) =~= entries_map(rest).insert(
            es[0].0,
            es[0].1,
        ).insert(k, v));
    }
}

/// Every finite field map is held by records with increasing types.
pub proof fn lemma_finite_map_sorted(m: Map<u64, Seq<u8>>)
    requires
        m.dom().finite(),
    ensures
        has_sorted_entries(m),
    decreases m.dom().len(),
{
    if m.dom().len() == 0 {
        m.dom().lemma_len0_is_empty();
        let es = Seq::<(u64, Seq<u8>)>::empty();
        assert(entries_map(es) =~= m);
        assert(keys_increasing(es) && entries_map(es) == m);
    } else {
        let k = m.dom().choose();
        let m2 = m.remove(k);
        assert(m2.dom() =~= m.dom().remove(k));
        lemma_finite_map_sorted(m2);
        let es2 = sorted_entries(m2);
        lemma_sorted_insert(es2, k, m[k]);
        assert(m2.insert(k, m[k]) =~= m);
        let es = sorted_insert(es2, k, m[k]);
        assert(keys_increasing(es) && entries_map(es) == m);
    }
}

// ============================================================================
// Builder
// ============================================================================

/// Builds a TLV encoding field by field.
pub struct TlvBuilder {
    stream: TlvStream,
}

impl View for TlvBuilder {
    type V = Map<u64, Seq<u8>>;

    closed spec fn view(&self) -> Map<u64, Seq<u8>> {
        self.stream@
    }
}

/// Appends the elements, each preceded by its length as a varint.
fn write_items(buf: &mut Vec<u8>, items: &Vec<Vec<u8>>)
    ensures
        final(buf)@ == old(buf)@ + items_bytes(crate::types::stack_view(items@)),
{
    let ghost view = crate::types::stack_view(items@);
    let mut i: usize = 0;
    while i < items.len()
        invariant
            i <= items@.len(),
            view == crate::types::stack_view(items@),
            buf@ == old(buf)@ + items_bytes(view.take(i as int)),
        decreases items@.len() - i,
    {
        let ghost before = buf@;
        let element = &items[i];
        write_varint(buf, element.len() as u64);
        crate::bytes::extend_bytes(buf, element.as_slice());
        proof {
            assert(view.take(i + 1).drop_last() =~= view.take(i as int));
            assert(view.take(i + 1).last() == element@);
            assert(buf@ =~= before + varint_bytes(element@.len() as u64) + element@);
        }
        i = i + 1;
    }
    assert(view.take(i as int) =~= view);
}

impl TlvBuilder {
    /// A builder with no fields.
    pub fn new() -> (r: Self)
        ensures
            r@ == Map::<u64, Seq<u8>>::empty(),
    {
        TlvBuilder { stream: TlvStream::new() }
    }

    /// Sets field `field_type` to the bytes `value`.
    fn with(self, field_type: u64, value: Vec<u8>) -> (r: Self)
        ensures
            r@ == self@.insert(field_type, value@),
    {
        let mut b = self;
        b.stream.insert(field_type, value);
        b
    }

    /// Adds a `u8` field.
    pub fn u8_field(self, field_type: u64, value: u8) -> (r: Self)
        ensures
            r@ == self@.insert(field_type, seq![value]),
    {
        self.with(field_type, encode_u8(value))
    }

    /// Adds a big-endian `u16` field.
    pub fn u16_field(self, field_type: u64, value: u16) -> (r: Self)
        ensures
            r@ == self@.insert(field_type, u16_be(value)),
    {
        self.with(field_type, encode_u16(value))
    }

    /// Adds a big-endian `u32` field.
    pub fn u32_field(self, field_type: u64, value: u32) -> (r: Self)
        ensures
            r@ == self@.insert(field_type, u32_be(value)),
    {
        self.with(field_type, encode_u32(value))
    }

    /// Adds a big-endian `u64` field.
    pub fn u64_field(self, field_type: u64, value: u64) -> (r: Self)
        ensures
            r@ == self@.insert(field_type, u64_be(value)),
    {
        self.with(field_type, encode_u64(value))
    }

    /// Adds a string field, as UTF-8.
    pub fn string_field(self, field_type: u64, value: &str) -> (r: Self)
        ensures
            r@ == self@.insert(field_type, encode_utf8(value@)),
    {
        self.with(field_type, encode_string(value))
    }

    /// Adds a field of raw bytes.
    pub fn bytes_field(self, field_type: u64, value: &[u8]) -> (r: Self)
        ensures
            r@ == self@.insert(field_type, value@),
    {
        self.with(field_type, encode_bytes(value))
    }

    /// Adds a public key field (33-byte compressed form).
    pub fn pubkey_field(self, field_type: u64, value: &PublicKey) -> (r: Self)
        ensures
            r@ == self@.insert(field_type, value@),
    {
        self.with(field_type, encode_pubkey(value))
    }

    /// Adds a signature field (64-byte compact form).
    pub fn signature_field(self, field_type: u64, value: &EcdsaSignature) -> (r: Self)
        ensures
            r@ == self@.insert(field_type, value@),
    {
        self.with(field_type, encode_signature(value))
    }

    /// Adds a field only if `value` is present, encoded by `encoder`.
    pub fn optional<T, F>(self, field_type: u64, value: &Option<T>, encoder: F) -> (r: Self) where
        F: FnOnce(&T) -> Vec<u8>,

        requires
            value is Some ==> call_requires(encoder, (&value->0,)),
        ensures
            value is None ==> r@ == self@,
            value is Some ==> exists|e: Vec<u8>|
                call_ensures(encoder, (&value->0,), e) && r@ == self@.insert(field_type, e@),
    {
        match value {
            Some(v) => {
                let e = encoder(v);
                self.with(field_type, e)
            },
            None => self,
        }
    }

    /// Adds a field holding the TLV encoding of `value`.
    pub fn nested<T: TlvEncode>(self, field_type: u64, value: &T) -> (r: Self)
        ensures
            r@ == self@.insert(field_type, value.tlv_bytes()),
    {
        self.with(field_type, value.tlv_encode())
    }

    /// Adds a field holding a count, then each value's TLV encoding preceded
    /// by its length.
    pub fn vec_field<T: TlvEncode>(self, field_type: u64, values: &[T]) -> (r: Self)
        ensures
            r@ == self@.insert(
                field_type,
                counted_bytes(Seq::new(values@.len(), |i: int| values@[i].tlv_bytes())),
            ),
    {
        let mut items: Vec<Vec<u8>> = Vec::new();
        let mut i: usize = 0;
        while i < values.len()
            invariant
                i <= values@.len(),
                items@.len() == i,
                forall|j: int| 0 <= j < i ==> (#[trigger] items@[j])@ == values@[j].tlv_bytes(),
            decreases values@.len() - i,
        {
            items.push(values[i].tlv_encode());
            i = i + 1;
        }
        let mut buf: Vec<u8> = Vec::new();
        write_varint(&mut buf, values.len() as u64);
        write_items(&mut buf, &items);
        assert(crate::types::stack_view(items@) =~= Seq::new(values@.len(), |i: int| values@[i].tlv_bytes()));
        self.with(field_type, buf)
    }

    /// Adds a 16-byte deposit identifier field.
    pub fn deposit_id_field(self, field_type: u64, value: &[u8; 16]) -> (r: Self)
        ensures
            r@ == self@.insert(field_type, value@),
    {
        self.with(field_type, array_to_vec(value))
    }

    /// Adds a witness field: the element count, then each element preceded
    /// by its length.
    pub fn witness_field(self, field_type: u64, witness: &crate::types::DescriptorWitness) -> (r: Self)
        ensures
            r@ == self@.insert(field_type, counted_bytes(witness@)),
    {
        let mut buf: Vec<u8> = Vec::new();
        write_varint(&mut buf, witness.stack.len() as u64);
        write_items(&mut buf, &witness.stack);
        self.with(field_type, buf)
    }

    /// The canonical encoding of the fields added.
    pub fn build(self) -> (r: Vec<u8>)
        ensures
            has_sorted_entries(self@),
            r@ == map_bytes(self@),
    {
        let r = self.stream.encode();
        proof {
            lemma_sorted_entries_of(self.stream.entries());
        }
        r
    }

    /// The stream of the fields added.
    pub fn into_stream(self) -> (r: TlvStream)
        ensures
            r@ == self@,
    {
        self.stream
    }
}


// ============================================================================
// Reader
// ============================================================================

/// Items `acc` read before, followed by the outcome of reading the rest.
pub open spec fn after_items(
    acc: Seq<Seq<u8>>,
    rest: Result<Seq<Seq<u8>>, StreamFault>,
) -> Result<Seq<Seq<u8>>, StreamFault> {
    match rest {
        Ok(es) => Ok(acc + es),
        Err(f) => Err(f),
    }
}

/// One element read from the front of `s`, followed by the rest.
proof fn lemma_witness_step(s: Seq<u8>, count: nat, field_type: u64, len: u64, m: nat)
    requires
        count > 0,
        varint_parse(s) == Ok::<(u64, nat), TlvFault>((len, m)),
        len <= 520,
        s.len() >= m + len,
    ensures
        witness_elements(s, count, field_type) == after_items(
            seq![s.subrange(m as int, m + len)],
            witness_elements(s.skip(m + len), (count - 1) as nat, field_type),
        ),
{
    reveal(witness_elements);
}

/// Reads a witness stack from `data`, which field `field_type` held.
#[verifier::rlimit(40)]
fn read_witness_data(data: &[u8], field_type: u64) -> (r: TlvResult<crate::types::DescriptorWitness>)
    ensures
        outcome_view(r, witness_of(data@, field_type)),
{
    let mut pos: usize = 0;
    assert(data@.skip(0) =~= data@);
    let count = match read_varint(data, &mut pos) {
        Ok(c) => c,
        Err(e) => {
            return Err(e);
        },
    };
    if count > 1000 {
        let reason = text_with_number("witness stack size ", count, " exceeds maximum 1000");
        return Err(TlvError::InvalidFieldValue { field_type, reason });
    }
    let ghost total = witness_of(data@, field_type);
    assert(witness_elements(data@.skip(pos as int), count as nat, field_type) == total);
    let mut stack: Vec<Vec<u8>> = Vec::new();
    let mut i: u64 = 0;
    assert(crate::types::stack_view(stack@) + Seq::<Seq<u8>>::empty() =~= crate::types::stack_view(stack@));
    while i < count
        invariant
            i <= count <= 1000,
            pos <= data@.len(),
            total == witness_of(data@, field_type),
            total == after_items(
                crate::types::stack_view(stack@),
                witness_elements(data@.skip(pos as int), (count - i) as nat, field_type),
            ),
        decreases count - i,
    {
        let ghost s = data@.skip(pos as int);
        let p0 = pos;
        let len = match read_varint(data, &mut pos) {
            Ok(l) => l,
            Err(e) => {
                assert(witness_elements(s, (count - i) as nat, field_type) == Err::<Seq<Seq<u8>>, StreamFault>((e.fault(), seq![]))) by {
                    reveal(witness_elements);
                }
                return Err(e);
            },
        };
        let ghost m = (pos - p0) as nat;
        if len > 520 {
            let reason = text_with_number("witness element size ", len, " exceeds maximum 520");
            assert(witness_elements(s, (count - i) as nat, field_type) == Err::<Seq<Seq<u8>>, StreamFault>(
                invalid_fault(field_type, "witness element size "@ + decimal_digits(len as nat) + " exceeds maximum 520"@))) by {
                reveal(witness_elements);
            }
            return Err(TlvError::InvalidFieldValue { field_type, reason });
        }
        let n = len as usize;
        if data.len() - pos < n {
            let text = "failed to fill whole buffer".to_owned();
            assert(witness_elements(s, (count - i) as nat, field_type) == Err::<Seq<Seq<u8>>, StreamFault>(short_read_fault())) by {
                reveal(witness_elements);
            }
            return Err(TlvError::IoError(text));
        }
        let element = copy_range(data, pos, pos + n);
        assert(element@ =~= s.subrange(m as int, m + len));
        pos = pos + n;
        assert(s.skip(m + len) =~= data@.skip(pos as int));
        let ghost acc = crate::types::stack_view(stack@);
        let ghost tail = witness_elements(data@.skip(pos as int), (count - i - 1) as nat, field_type);
        proof {
            lemma_witness_step(s, (count - i) as nat, field_type, len, m);
        }
        stack.push(element);
        proof {
            assert(crate::types::stack_view(stack@) =~= acc.push(element@));
            match tail {
                Ok(es) => {
                    assert(acc.push(element@) + es =~= acc + (seq![element@] + es));
                },
                Err(_) => {},
            }
        }
        i = i + 1;
    }
    assert(crate::types::stack_view(stack@) + Seq::<Seq<u8>>::empty() =~= crate::types::stack_view(stack@));
    assert(witness_elements(data@.skip(pos as int), 0, field_type) == Ok::<Seq<Seq<u8>>, StreamFault>(seq![])) by {
        reveal(witness_elements);
    }
    Ok(crate::types::DescriptorWitness { stack })
}

/// Reads typed fields from a decoded TLV stream.
pub struct TlvReader {
    stream: TlvStream,
}

impl View for TlvReader {
    type V = Map<u64, Seq<u8>>;

    closed spec fn view(&self) -> Map<u64, Seq<u8>> {
        self.stream@
    }
}

impl TlvReader {
    /// A reader of the stream decoded from `data`.
    pub fn new(data: &[u8]) -> (r: TlvResult<Self>)
        ensures
            match stream_parse(data@, None) {
                Ok(es) => r is Ok && r->Ok_0@ == entries_map(es),
                Err(f) => r is Err && error_is(r->Err_0, f),
            },
    {
        match TlvStream::decode(data) {
            Ok(stream) => Ok(TlvReader { stream }),
            Err(e) => Err(e),
        }
    }

    /// The bytes of field `field_type`, or a missing-field error.
    fn required_raw(&self, field_type: u64) -> (r: TlvResult<&[u8]>)
        ensures
            self@.contains_key(field_type) ==> r is Ok && r->Ok_0@ == self@[field_type],
            !self@.contains_key(field_type) ==> r == Err::<&[u8], TlvError>(
                (TlvError::MissingRequiredField { field_type }),
            ),
    {
        match self.stream.get(field_type) {
            Some(d) => Ok(d),
            None => Err(TlvError::MissingRequiredField { field_type }),
        }
    }

    /// Reads a required `u8` field.
    pub fn read_u8(&self, field_type: u64) -> (r: TlvResult<u8>)
        ensures
            outcome(r, required(self@, field_type, |d: Seq<u8>| u8_of(d))),
    {
        let data = match self.required_raw(field_type) {
            Ok(d) => d,
            Err(e) => {
                return Err(e);
            },
        };
        decode_u8(data)
    }

    /// Reads a required `u16` field.
    pub fn read_u16(&self, field_type: u64) -> (r: TlvResult<u16>)
        ensures
            outcome(r, required(self@, field_type, |d: Seq<u8>| u16_of(d))),
    {
        let data = match self.required_raw(field_type) {
            Ok(d) => d,
            Err(e) => {
                return Err(e);
            },
        };
        decode_u16(data)
    }

    /// Reads a required `u32` field.
    pub fn read_u32(&self, field_type: u64) -> (r: TlvResult<u32>)
        ensures
            outcome(r, required(self@, field_type, |d: Seq<u8>| u32_of(d))),
    {
        let data = match self.required_raw(field_type) {
            Ok(d) => d,
            Err(e) => {
                return Err(e);
            },
        };
        decode_u32(data)
    }

    /// Reads a required `u64` field.
    pub fn read_u64(&self, field_type: u64) -> (r: TlvResult<u64>)
        ensures
            outcome(r, required(self@, field_type, |d: Seq<u8>| u64_of(d))),
    {
        let data = match self.required_raw(field_type) {
            Ok(d) => d,
            Err(e) => {
                return Err(e);
            },
        };
        decode_u64(data)
    }

    /// Reads a required string field.
    pub fn read_string(&self, field_type: u64) -> (r: TlvResult<String>)
        ensures
            outcome_view(r, required(self@, field_type, |d: Seq<u8>| string_of(d))),
    {
        let data = match self.required_raw(field_type) {
            Ok(d) => d,
            Err(e) => {
                return Err(e);
            },
        };
        decode_string(data)
    }

    /// Reads a required field of exactly `N` bytes.
    pub fn read_bytes<const N: usize>(&self, field_type: u64) -> (r: TlvResult<[u8; N]>)
        ensures
            outcome_view(r, required(self@, field_type, |d: Seq<u8>| bytes_of(d, N as nat))),
    {
        let data = match self.required_raw(field_type) {
            Ok(d) => d,
            Err(e) => {
                return Err(e);
            },
        };
        decode_bytes(data)
    }

    /// Reads a required public key field.
    pub fn read_pubkey(&self, field_type: u64) -> (r: TlvResult<PublicKey>)
        ensures
            outcome_view(r, required(self@, field_type, |d: Seq<u8>| pubkey_of(d))),
    {
        let data = match self.required_raw(field_type) {
            Ok(d) => d,
            Err(e) => {
                return Err(e);
            },
        };
        decode_pubkey(data)
    }

    /// Reads an optional `u64` field.
    pub fn read_u64_opt(&self, field_type: u64) -> (r: TlvResult<Option<u64>>)
        ensures
            outcome(r, optional(self@, field_type, |d: Seq<u8>| u64_of(d))),
    {
        match self.stream.get(field_type) {
            Some(data) => match decode_u64(data) {
                Ok(v) => Ok(Some(v)),
                Err(e) => Err(e),
            },
            None => Ok(None),
        }
    }

    /// Reads an optional `u32` field.
    pub fn read_u32_opt(&self, field_type: u64) -> (r: TlvResult<Option<u32>>)
        ensures
            outcome(r, optional(self@, field_type, |d: Seq<u8>| u32_of(d))),
    {
        match self.stream.get(field_type) {
            Some(data) => match decode_u32(data) {
                Ok(v) => Ok(Some(v)),
                Err(e) => Err(e),
            },
            None => Ok(None),
        }
    }

    /// Reads an optional `u16` field.
    pub fn read_u16_opt(&self, field_type: u64) -> (r: TlvResult<Option<u16>>)
        ensures
            outcome(r, optional(self@, field_type, |d: Seq<u8>| u16_of(d))),
    {
        match self.stream.get(field_type) {
            Some(data) => match decode_u16(data) {
                Ok(v) => Ok(Some(v)),
                Err(e) => Err(e),
            },
            None => Ok(None),
        }
    }

    /// Reads an optional string field.
    pub fn read_string_opt(&self, field_type: u64) -> (r: TlvResult<Option<String>>)
        ensures
            outcome_opt_view(r, optional(self@, field_type, |d: Seq<u8>| string_of(d))),
    {
        match self.stream.get(field_type) {
            Some(data) => match decode_string(data) {
                Ok(v) => Ok(Some(v)),
                Err(e) => Err(e),
            },
            None => Ok(None),
        }
    }

    /// Reads an optional field of exactly `N` bytes.
    pub fn read_bytes_opt<const N: usize>(&self, field_type: u64) -> (r: TlvResult<Option<[u8; N]>>)
        ensures
            outcome_opt_view(r, optional(self@, field_type, |d: Seq<u8>| bytes_of(d, N as nat))),
    {
        match self.stream.get(field_type) {
            Some(data) => match decode_bytes(data) {
                Ok(v) => Ok(Some(v)),
                Err(e) => Err(e),
            },
            None => Ok(None),
        }
    }

    /// Reads an optional public key field.
    pub fn read_pubkey_opt(&self, field_type: u64) -> (r: TlvResult<Option<PublicKey>>)
        ensures
            outcome_opt_view(r, optional(self@, field_type, |d: Seq<u8>| pubkey_of(d))),
    {
        match self.stream.get(field_type) {
            Some(data) => match decode_pubkey(data) {
                Ok(v) => Ok(Some(v)),
                Err(e) => Err(e),
            },
            None => Ok(None),
        }
    }

    /// Reads a required signature field.
    pub fn read_signature(&self, field_type: u64) -> (r: TlvResult<EcdsaSignature>)
        ensures
            outcome_view(r, required(self@, field_type, |d: Seq<u8>| signature_of(d))),
    {
        let data = match self.required_raw(field_type) {
            Ok(d) => d,
            Err(e) => {
                return Err(e);
            },
        };
        decode_signature(data)
    }

    /// Reads an optional signature field.
    pub fn read_signature_opt(&self, field_type: u64) -> (r: TlvResult<Option<EcdsaSignature>>)
        ensures
            outcome_opt_view(r, optional(self@, field_type, |d: Seq<u8>| signature_of(d))),
    {
        match self.stream.get(field_type) {
            Some(data) => match decode_signature(data) {
                Ok(v) => Ok(Some(v)),
                Err(e) => Err(e),
            },
            None => Ok(None),
        }
    }

    /// The raw bytes of a required field.
    pub fn read_raw(&self, field_type: u64) -> (r: TlvResult<&[u8]>)
        ensures
            self@.contains_key(field_type) ==> r is Ok && r->Ok_0@ == self@[field_type],
            !self@.contains_key(field_type) ==> r == Err::<&[u8], TlvError>(
                (TlvError::MissingRequiredField { field_type }),
            ),
    {
        self.required_raw(field_type)
    }

    /// The raw bytes of an optional field.
    pub fn read_raw_opt(&self, field_type: u64) -> (r: Option<&[u8]>)
        ensures
            r is Some <==> self@.contains_key(field_type),
            r is Some ==> r->0@ == self@[field_type],
    {
        self.stream.get(field_type)
    }

    /// Decodes a required field holding a nested TLV encoding.
    pub fn read_nested<T: TlvDecode>(&self, field_type: u64) -> (r: TlvResult<T>)
        ensures
            self@.contains_key(field_type) ==> T::tlv_decodes(self@[field_type], r),
            !self@.contains_key(field_type) ==> r is Err && r->Err_0
                == (TlvError::MissingRequiredField { field_type }),
    {
        let data = match self.required_raw(field_type) {
            Ok(d) => d,
            Err(e) => {
                return Err(e);
            },
        };
        T::tlv_decode(data)
    }

    /// Decodes an optional field holding a nested TLV encoding.
    pub fn read_nested_opt<T: TlvDecode>(&self, field_type: u64) -> (r: TlvResult<Option<T>>)
        ensures
            self@.contains_key(field_type) ==> (match r {
                Ok(Some(v)) => T::tlv_decodes(self@[field_type], Ok(v)),
                Ok(None) => false,
                Err(e) => T::tlv_decodes(self@[field_type], Err(e)),
            }),
            !self@.contains_key(field_type) ==> r is Ok && r->Ok_0 is None,
    {
        match self.read_raw_opt(field_type) {
            Some(data) => match T::tlv_decode(data) {
                Ok(v) => Ok(Some(v)),
                Err(e) => Err(e),
            },
            None => Ok(None),
        }
    }

    /// Reads a required 16-byte deposit identifier.
    pub fn read_deposit_id(&self, field_type: u64) -> (r: TlvResult<[u8; 16]>)
        ensures
            outcome_view(r, required(self@, field_type, |d: Seq<u8>| deposit_id_of(d, field_type))),
    {
        let data = match self.required_raw(field_type) {
            Ok(d) => d,
            Err(e) => {
                return Err(e);
            },
        };
        if data.len() != 16 {
            let reason = text_with_number("expected 16 bytes for deposit_id, got ", data.len() as u64, "");
            proof {
                reveal_strlit("");
                assert(reason@ =~= "expected 16 bytes for deposit_id, got "@ + decimal_digits(data@.len()));
            }
            return Err(TlvError::InvalidFieldValue { field_type, reason });
        }
        let id: [u8; 16] = array_at(data, 0);
        assert(data@.subrange(0, 16) =~= data@);
        Ok(id)
    }

    /// Reads an optional 16-byte deposit identifier.
    pub fn read_deposit_id_opt(&self, field_type: u64) -> (r: TlvResult<Option<[u8; 16]>>)
        ensures
            outcome_opt_view(r, optional(self@, field_type, |d: Seq<u8>| deposit_id_of(d, field_type))),
    {
        match self.stream.get(field_type) {
            Some(data) => {
                if data.len() != 16 {
                    let reason = text_with_number("expected 16 bytes for deposit_id, got ", data.len() as u64, "");
                    proof {
                        reveal_strlit("");
                        assert(reason@ =~= "expected 16 bytes for deposit_id, got "@ + decimal_digits(data@.len()));
                    }
                    return Err(TlvError::InvalidFieldValue { field_type, reason });
                }
                let id: [u8; 16] = array_at(data, 0);
                assert(data@.subrange(0, 16) =~= data@);
                Ok(Some(id))
            },
            None => Ok(None),
        }
    }

    /// Reads a required witness field.
    pub fn read_witness(&self, field_type: u64) -> (r: TlvResult<crate::types::DescriptorWitness>)
        ensures
            outcome_view(r, required(self@, field_type, |d: Seq<u8>| witness_of(d, field_type))),
    {
        let data = match self.required_raw(field_type) {
            Ok(d) => d,
            Err(e) => {
                return Err(e);
            },
        };
        read_witness_data(data, field_type)
    }

    /// Reads an optional witness field.
    pub fn read_witness_opt(&self, field_type: u64) -> (r: TlvResult<Option<crate::types::DescriptorWitness>>)
        ensures
            outcome_opt_view(r, optional(self@, field_type, |d: Seq<u8>| witness_of(d, field_type))),
    {
        match self.stream.get(field_type) {
            Some(data) => match read_witness_data(data, field_type) {
                Ok(w) => Ok(Some(w)),
                Err(e) => Err(e),
            },
            None => Ok(None),
        }
    }
}

} // verus!
