//! Lists of TLV-encoded values inside one field: a count, then each value's
//! encoding behind its length, both as varints.

use vstd::prelude::*;

use crate::bytes::copy_range;
use crate::text::{decimal_digits, text_with_number};
use crate::tlv::{
    error_is, invalid_fault, read_varint, short_read_fault, varint_parse, TlvDecode, TlvError,
    TlvReader, TlvResult,
};

verus! {

/// Most items a list may declare.
pub const MAX_VEC_COUNT: u64 = 1000000;

/// Longest encoding a list item may declare.
pub const MAX_ITEM_LENGTH: u64 = 16777216;

/// `r` is the outcome of decoding `n` more items from `s` after the values
/// `done`: each item's length, then the item decoded as a `T`, in order; the
/// first failure (a bad length, a short read or an item that does not
/// decode) is the outcome.
pub open spec fn items_decode<T: TlvDecode>(
    s: Seq<u8>,
    n: nat,
    field_type: u64,
    done: Seq<T>,
    r: TlvResult<Vec<T>>,
) -> bool
    decreases n,
{
    if n == 0 {
        r is Ok && r->Ok_0@ == done
    } else {
        match varint_parse(s) {
            Err(f) => r is Err && error_is(r->Err_0, (f, seq![])),
            Ok((len, m)) => {
                if len > MAX_ITEM_LENGTH {
                    r is Err && error_is(
                        r->Err_0,
                        invalid_fault(
                            field_type,
                            "vector item length "@ + decimal_digits(len as nat) + " exceeds maximum 16777216"@,
                        ),
                    )
                } else if s.len() < m + len {
                    r is Err && error_is(r->Err_0, short_read_fault())
                } else {
                    let item = s.subrange(m as int, m + len);
                    ||| exists|v: T|
                        #[trigger] T::tlv_decodes(item, Ok(v)) && items_decode(
                            s.skip(m + len),
                            (n - 1) as nat,
                            field_type,
                            done.push(v),
                            r,
                        )
                    ||| exists|e: TlvError| #[trigger] T::tlv_decodes(item, Err(e)) && r == Err::<Vec<T>, TlvError>(e)
                }
            },
        }
    }
}

/// `r` is the outcome of decoding the list held in `d`: its count (at most
/// a million), then that many items.
pub open spec fn vec_decode<T: TlvDecode>(d: Seq<u8>, field_type: u64, r: TlvResult<Vec<T>>) -> bool {
    match varint_parse(d) {
        Err(f) => r is Err && error_is(r->Err_0, (f, seq![])),
        Ok((count, m)) => {
            if count > MAX_VEC_COUNT {
                r is Err && error_is(
                    r->Err_0,
                    invalid_fault(
                        field_type,
                        "vector count "@ + decimal_digits(count as nat) + " exceeds maximum 1000000"@,
                    ),
                )
            } else {
                items_decode(d.skip(m as int), count as nat, field_type, seq![], r)
            }
        },
    }
}

/// Decodes the list held in `data`.
#[verifier::rlimit(40)]
pub fn decode_vec<T: TlvDecode>(data: &[u8], field_type: u64) -> (r: TlvResult<Vec<T>>)
    ensures
        vec_decode(data@, field_type, r),
{
    let mut pos: usize = 0;
    assert(data@.skip(0) =~= data@);
    let count = match read_varint(data, &mut pos) {
        Ok(c) => c,
        Err(e) => {
            return Err(e);
        },
    };
    if count > MAX_VEC_COUNT {
        let reason = text_with_number("vector count ", count, " exceeds maximum 1000000");
        return Err(TlvError::InvalidFieldValue { field_type, reason });
    }
    let ghost start = data@.skip(pos as int);
    let mut items: Vec<T> = Vec::new();
    let mut i: u64 = 0;
    while i < count
        invariant
            i <= count <= MAX_VEC_COUNT,
            pos <= data@.len(),
            forall|r: TlvResult<Vec<T>>|
                items_decode(data@.skip(pos as int), (count - i) as nat, field_type, items@, r)
                    ==> #[trigger] vec_decode(data@, field_type, r),
        decreases count - i,
    {
        let ghost s = data@.skip(pos as int);
        let p0 = pos;
        let len = match read_varint(data, &mut pos) {
            Ok(l) => l,
            Err(e) => {
                let r = Err(e);
                assert(items_decode(s, (count - i) as nat, field_type, items@, r));
                return r;
            },
        };
        let ghost m = (pos - p0) as nat;
        if len > MAX_ITEM_LENGTH {
            let reason = text_with_number("vector item length ", len, " exceeds maximum 16777216");
            let r = Err(TlvError::InvalidFieldValue { field_type, reason });
            assert(items_decode(s, (count - i) as nat, field_type, items@, r));
            return r;
        }
        let n = len as usize;
        if data.len() - pos < n {
            let r = Err(TlvError::IoError("failed to fill whole buffer".to_owned()));
            assert(items_decode(s, (count - i) as nat, field_type, items@, r));
            return r;
        }
        let item = copy_range(data, pos, pos + n);
        assert(item@ =~= s.subrange(m as int, m + len));
        pos = pos + n;
        assert(s.skip(m + len) =~= data@.skip(pos as int));
        match T::tlv_decode(item.as_slice()) {
            Ok(v) => {
                let ghost before = items@;
                items.push(v);
                proof {
                    assert forall|r: TlvResult<Vec<T>>|
                        items_decode(data@.skip(pos as int), (count - i - 1) as nat, field_type, items@, r)
                            implies #[trigger] vec_decode(data@, field_type, r) by {
                        assert(T::tlv_decodes(s.subrange(m as int, m + len), Ok(v)));
                        assert(items_decode(s, (count - i) as nat, field_type, before, r));
                    }
                }
            },
            Err(e) => {
                let r = Err(e);
                assert(T::tlv_decodes(s.subrange(m as int, m + len), Err(e)));
                assert(items_decode(s, (count - i) as nat, field_type, items@, r));
                return r;
            },
        }
        i = i + 1;
    }
    let r = Ok(items);
    assert(items_decode(data@.skip(pos as int), 0, field_type, items@, r));
    r
}

impl TlvReader {
    /// Decodes a required field holding a list of TLV-encoded values.
    pub fn read_vec<T: TlvDecode>(&self, field_type: u64) -> (r: TlvResult<Vec<T>>)
        ensures
            self@.contains_key(field_type) ==> vec_decode(self@[field_type], field_type, r),
            !self@.contains_key(field_type) ==> r is Err && r->Err_0
                == (TlvError::MissingRequiredField { field_type }),
    {
        let data = match self.read_raw(field_type) {
            Ok(d) => d,
            Err(e) => {
                return Err(e);
            },
        };
        decode_vec(data, field_type)
    }

    /// Decodes an optional field holding a list of TLV-encoded values.
    pub fn read_vec_opt<T: TlvDecode>(&self, field_type: u64) -> (r: TlvResult<Option<Vec<T>>>)
        ensures
            self@.contains_key(field_type) ==> (match r {
                Ok(Some(v)) => vec_decode(self@[field_type], field_type, Ok::<Vec<T>, TlvError>(v)),
                Ok(None) => false,
                Err(e) => vec_decode(self@[field_type], field_type, Err::<Vec<T>, TlvError>(e)),
            }),
            !self@.contains_key(field_type) ==> r is Ok && r->Ok_0 is None,
    {
        match self.read_raw_opt(field_type) {
            Some(data) => match decode_vec(data, field_type) {
                Ok(v) => Ok(Some(v)),
                Err(e) => Err(e),
            },
            None => Ok(None),
        }
    }
}

} // verus!
