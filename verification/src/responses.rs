//! Responses that carry signed updates: the answer to a sync request and
//! the answers to coordination requests.

use vstd::prelude::*;
use vstd::utf8::encode_utf8;

use crate::bytes::{copy_range, extend_bytes, u16_be, u32_be, u64_be};
use crate::codec::{
    length_prefixed, rd_exact, rd_pubkey, rd_string, rd_u16, rd_u32, rd_u64, rd_u8, read_32,
    read_64, read_bool, read_is, read_is_view, read_pubkey, read_string, read_u16, read_u32,
    read_u64, read_u8, write_32, write_64, write_bool, write_pubkey, write_string, write_u16,
    write_u32, write_u64, write_u8, CodecError, CodecFault, Read,
};
use crate::operation::opt_text;
use crate::operation_binary::{
    option_bytes, opt_string_binary, rd_option_string, read_option_string, write_option_string,
    BinaryCodec,
};
use crate::operation_tlv::{opt_text_bytes, put_opt};
use crate::update_codec::{update_binary, update_binary_read};
use crate::pubkey::{secp256k1_parse, PublicKey};
use crate::records::parse_with;
use crate::text::{concat_text, decimal_digits, text_with_number};
use crate::tlv::{
    bytes_of, counted_bytes, entries_map, error_is, invalid_fault, map_bytes, missing_fault,
    optional, outcome_view, pubkey_of, required, stream_parse, string_of, u16_of, u64_of, u8_of,
    StreamFault,
    TlvBuilder, TlvDecode, TlvEncode, TlvError, TlvReader, TlvResult,
};
use crate::tlv_vec::vec_decode;
use crate::updates::{SignedLedgerUpdate, SignedLedgerUpdateView};

verus! {

// ============================================================================
// Sync response
// ============================================================================

/// Field types of an encoded [`SyncResponseMsg`].
pub const SYNC_RESPONSE_LEDGER_ID: u64 = 0;
pub const SYNC_RESPONSE_REQUEST_HASH: u64 = 2;
pub const SYNC_RESPONSE_UPDATES: u64 = 4;
pub const SYNC_RESPONSE_CURRENT_SEQUENCE: u64 = 6;
pub const SYNC_RESPONSE_CURRENT_HASH: u64 = 8;

/// The updates a peer was missing.
#[derive(Clone, Debug, PartialEq, Eq)]
pub struct SyncResponseMsg {
    /// The ledger synchronized.
    pub ledger_id: [u8; 32],
    /// Hash of the request answered.
    pub request_hash: [u8; 32],
    /// The signed updates after the requester's last known sequence.
    pub updates: Vec<SignedLedgerUpdate>,
    /// The sender's current sequence number.
    pub current_sequence: u64,
    /// The sender's current content hash.
    pub content_hash: [u8; 32],
}

/// A sync response as plain values.
pub struct SyncResponseMsgView {
    pub ledger_id: Seq<u8>,
    pub request_hash: Seq<u8>,
    pub updates: Seq<SignedLedgerUpdateView>,
    pub current_sequence: u64,
    pub content_hash: Seq<u8>,
}

impl View for SyncResponseMsg {
    type V = SyncResponseMsgView;

    open spec fn view(&self) -> SyncResponseMsgView {
        SyncResponseMsgView {
            ledger_id: self.ledger_id@,
            request_hash: self.request_hash@,
            updates: updates_view(self.updates@),
            current_sequence: self.current_sequence,
            content_hash: self.content_hash@,
        }
    }
}

/// The binary encoding of a sync response: the updates behind their count
/// as a `u32` (truncated).
pub open spec fn sync_response_binary(v: SyncResponseMsgView) -> Seq<u8> {
    v.ledger_id + v.request_hash + (u32_be(v.updates.len() as u32) + updates_binary(v.updates))
        + u64_be(v.current_sequence) + v.content_hash
}

/// Reading a sync response.
pub open spec fn rd_sync_response(s: Seq<u8>) -> Read<SyncResponseMsgView> {
    let (a, s1) = rd_exact(s, 32);
    if a is Err {
        (Err(a->Err_0), s1)
    } else {
        let (b, s2) = rd_exact(s1, 32);
        if b is Err {
            (Err(b->Err_0), s2)
        } else {
            let (c, s3) = rd_updates_vec(s2);
            if c is Err {
                (Err(c->Err_0), s3)
            } else {
                let (d, s4) = rd_u64(s3);
                if d is Err {
                    (Err(d->Err_0), s4)
                } else {
                    let (e, s5) = rd_exact(s4, 32);
                    if e is Err {
                        (Err(e->Err_0), s5)
                    } else {
                        (
                            Ok(
                                SyncResponseMsgView {
                                    ledger_id: a->Ok_0,
                                    request_hash: b->Ok_0,
                                    updates: c->Ok_0,
                                    current_sequence: d->Ok_0,
                                    content_hash: e->Ok_0,
                                },
                            ),
                            s5,
                        )
                    }
                }
            }
        }
    }
}

/// Appends the binary encoding of a sync response.
pub(crate) fn write_sync_response(m: &SyncResponseMsg, w: &mut Vec<u8>)
    ensures
        final(w)@ == old(w)@ + sync_response_binary(m@),
{
    write_32(w, &m.ledger_id);
    write_32(w, &m.request_hash);
    write_updates(w, &m.updates);
    write_u64(w, m.current_sequence);
    write_32(w, &m.content_hash);
    assert(w@ =~= old(w)@ + sync_response_binary(m@));
}

/// Reads a sync response in the binary encoding.
pub(crate) fn read_sync_response(data: &[u8], pos: &mut usize) -> (r: Result<SyncResponseMsg, CodecError>)
    requires
        *old(pos) <= data@.len(),
    ensures
        *final(pos) <= data@.len(),
        data@.skip(*final(pos) as int) == rd_sync_response(data@.skip(*old(pos) as int)).1,
        read_is_view(r, rd_sync_response(data@.skip(*old(pos) as int)).0),
{
    let ledger_id = match read_32(data, pos) {
        Ok(v) => v,
        Err(e) => {
            return Err(e);
        },
    };
    let request_hash = match read_32(data, pos) {
        Ok(v) => v,
        Err(e) => {
            return Err(e);
        },
    };
    let updates = match read_updates_vec(data, pos) {
        Ok(v) => v,
        Err(e) => {
            return Err(e);
        },
    };
    let current_sequence = match read_u64(data, pos) {
        Ok(v) => v,
        Err(e) => {
            return Err(e);
        },
    };
    let content_hash = match read_32(data, pos) {
        Ok(v) => v,
        Err(e) => {
            return Err(e);
        },
    };
    Ok(SyncResponseMsg { ledger_id, request_hash, updates, current_sequence, content_hash })
}

/// The TLV encodings of updates.
pub open spec fn updates_tlv(us: Seq<SignedLedgerUpdate>) -> Seq<Seq<u8>> {
    Seq::new(us.len(), |i: int| us[i].tlv_bytes())
}

/// The fields of an encoded sync response.
pub open spec fn sync_response_fields(m: SyncResponseMsg) -> Map<u64, Seq<u8>> {
    Map::empty().insert(SYNC_RESPONSE_LEDGER_ID, m.ledger_id@).insert(
        SYNC_RESPONSE_REQUEST_HASH,
        m.request_hash@,
    ).insert(SYNC_RESPONSE_UPDATES, counted_bytes(updates_tlv(m.updates@))).insert(
        SYNC_RESPONSE_CURRENT_SEQUENCE,
        u64_be(m.current_sequence),
    ).insert(SYNC_RESPONSE_CURRENT_HASH, m.content_hash@)
}

/// `r` is what the decoded fields `m` of a sync response give: each field
/// read in order, the first failure reported, the updates decoded as a list.
pub open spec fn sync_response_decodes(m: Map<u64, Seq<u8>>, r: TlvResult<SyncResponseMsg>) -> bool {
    match required(m, SYNC_RESPONSE_LEDGER_ID, |d: Seq<u8>| bytes_of(d, 32)) {
        Err(f) => r is Err && error_is(r->Err_0, f),
        Ok(ledger_id) => match required(m, SYNC_RESPONSE_REQUEST_HASH, |d: Seq<u8>| bytes_of(d, 32)) {
            Err(f) => r is Err && error_is(r->Err_0, f),
            Ok(request_hash) => if !m.contains_key(SYNC_RESPONSE_UPDATES) {
                r is Err && error_is(r->Err_0, missing_fault(SYNC_RESPONSE_UPDATES))
            } else {
                ||| exists|e: TlvError|
                    #[trigger] vec_decode(m[SYNC_RESPONSE_UPDATES], SYNC_RESPONSE_UPDATES, Err::<
                        Vec<SignedLedgerUpdate>,
                        TlvError,
                    >(e)) && r == Err::<SyncResponseMsg, TlvError>(e)
                ||| exists|us: Vec<SignedLedgerUpdate>|
                    #[trigger] vec_decode(m[SYNC_RESPONSE_UPDATES], SYNC_RESPONSE_UPDATES, Ok::<
                        Vec<SignedLedgerUpdate>,
                        TlvError,
                    >(us)) && match required(
                        m,
                        SYNC_RESPONSE_CURRENT_SEQUENCE,
                        |d: Seq<u8>| u64_of(d),
                    ) {
                        Err(f) => r is Err && error_is(r->Err_0, f),
                        Ok(current_sequence) => match required(
                            m,
                            SYNC_RESPONSE_CURRENT_HASH,
                            |d: Seq<u8>| bytes_of(d, 32),
                        ) {
                            Err(f) => r is Err && error_is(r->Err_0, f),
                            Ok(content_hash) => r matches Ok(x) && x.ledger_id@ == ledger_id
                                && x.request_hash@ == request_hash && x.updates@ == us@
                                && x.current_sequence == current_sequence && x.content_hash@
                                == content_hash,
                        },
                    }
            },
        },
    }
}

impl TlvEncode for SyncResponseMsg {
    open spec fn tlv_bytes(&self) -> Seq<u8> {
        map_bytes(sync_response_fields(*self))
    }

    fn tlv_encode(&self) -> (r: Vec<u8>) {
        let b = TlvBuilder::new().bytes_field(SYNC_RESPONSE_LEDGER_ID, self.ledger_id.as_slice()).bytes_field(
            SYNC_RESPONSE_REQUEST_HASH,
            self.request_hash.as_slice(),
        ).vec_field(SYNC_RESPONSE_UPDATES, self.updates.as_slice()).u64_field(
            SYNC_RESPONSE_CURRENT_SEQUENCE,
            self.current_sequence,
        ).bytes_field(SYNC_RESPONSE_CURRENT_HASH, self.content_hash.as_slice());
        assert(b@ =~= sync_response_fields(*self));
        b.build()
    }
}

impl TlvDecode for SyncResponseMsg {
    open spec fn tlv_decodes(data: Seq<u8>, r: TlvResult<Self>) -> bool {
        match stream_parse(data, None) {
            Err(f) => r is Err && error_is(r->Err_0, f),
            Ok(es) => sync_response_decodes(entries_map(es), r),
        }
    }

    fn tlv_decode(data: &[u8]) -> (r: TlvResult<Self>) {
        let reader = match TlvReader::new(data) {
            Ok(r) => r,
            Err(e) => {
                return Err(e);
            },
        };
        let ledger_id = match reader.read_bytes::<32>(SYNC_RESPONSE_LEDGER_ID) {
            Ok(v) => v,
            Err(e) => {
                return Err(e);
            },
        };
        let request_hash = match reader.read_bytes::<32>(SYNC_RESPONSE_REQUEST_HASH) {
            Ok(v) => v,
            Err(e) => {
                return Err(e);
            },
        };
        let updates = match reader.read_vec::<SignedLedgerUpdate>(SYNC_RESPONSE_UPDATES) {
            Ok(v) => v,
            Err(e) => {
                let r = Err(e);
                assert(sync_response_decodes(reader@, r));
                return r;
            },
        };
        let ghost us = updates;
        let current_sequence = match reader.read_u64(SYNC_RESPONSE_CURRENT_SEQUENCE) {
            Ok(v) => v,
            Err(e) => {
                let r = Err(e);
                assert(vec_decode(reader@[SYNC_RESPONSE_UPDATES], SYNC_RESPONSE_UPDATES, Ok::<
                    Vec<SignedLedgerUpdate>,
                    TlvError,
                >(us)));
                return r;
            },
        };
        let content_hash = match reader.read_bytes::<32>(SYNC_RESPONSE_CURRENT_HASH) {
            Ok(v) => v,
            Err(e) => {
                let r = Err(e);
                assert(vec_decode(reader@[SYNC_RESPONSE_UPDATES], SYNC_RESPONSE_UPDATES, Ok::<
                    Vec<SignedLedgerUpdate>,
                    TlvError,
                >(us)));
                return r;
            },
        };
        let r = Ok(SyncResponseMsg { ledger_id, request_hash, updates, current_sequence, content_hash });
        assert(vec_decode(reader@[SYNC_RESPONSE_UPDATES], SYNC_RESPONSE_UPDATES, Ok::<
            Vec<SignedLedgerUpdate>,
            TlvError,
        >(us)));
        r
    }
}

// ============================================================================
// Coordination responses
// ============================================================================

/// Keys by their encodings.
pub open spec fn keys_view(ks: Seq<PublicKey>) -> Seq<Seq<u8>> {
    ks.map_values(|k: PublicKey| k@)
}

/// Signed updates by their plain values.
pub open spec fn updates_view(us: Seq<SignedLedgerUpdate>) -> Seq<SignedLedgerUpdateView> {
    us.map_values(|u: SignedLedgerUpdate| u@)
}

/// Key encodings, concatenated.
pub open spec fn keys_bytes(ks: Seq<Seq<u8>>) -> Seq<u8>
    decreases ks.len(),
{
    if ks.len() == 0 {
        seq![]
    } else {
        keys_bytes(ks.drop_last()) + ks.last()
    }
}

/// Legacy encodings of updates, concatenated.
pub open spec fn updates_binary(us: Seq<SignedLedgerUpdateView>) -> Seq<u8>
    decreases us.len(),
{
    if us.len() == 0 {
        seq![]
    } else {
        updates_binary(us.drop_last()) + update_binary(us.last())
    }
}

/// The keys in consecutive 33-byte chunks of `d` (a shorter tail is
/// ignored); the first chunk that is no key is an error.
pub open spec fn keys_of(d: Seq<u8>, field_type: u64) -> Result<Seq<Seq<u8>>, StreamFault>
    decreases d.len(),
{
    if d.len() < 33 {
        Ok(seq![])
    } else {
        match secp256k1_parse(d.subrange(0, 33)) {
            None => Err(invalid_fault(field_type, "invalid pubkey: malformed public key"@)),
            Some(k) => match keys_of(d.skip(33), field_type) {
                Ok(ks) => Ok(seq![k] + ks),
                Err(f) => Err(f),
            },
        }
    }
}

/// `r` with `done` in front of the values it read.
pub open spec fn after_reads<T>(done: Seq<T>, r: Read<Seq<T>>) -> Read<Seq<T>> {
    match r.0 {
        Ok(xs) => (Ok(done + xs), r.1),
        Err(e) => (Err(e), r.1),
    }
}

/// Reading `n` keys.
pub open spec fn rd_keys(s: Seq<u8>, n: nat) -> Read<Seq<Seq<u8>>>
    decreases n,
{
    if n == 0 {
        (Ok(seq![]), s)
    } else {
        let (x, s1) = rd_pubkey(s);
        match x {
            Err(e) => (Err(e), s1),
            Ok(x) => after_reads(seq![x], rd_keys(s1, (n - 1) as nat)),
        }
    }
}

/// Reading a count as a `u32`, then that many keys.
pub open spec fn rd_keys_vec(s: Seq<u8>) -> Read<Seq<Seq<u8>>> {
    let (n, s1) = rd_u32(s);
    match n {
        Err(e) => (Err(e), s1),
        Ok(n) => rd_keys(s1, n as nat),
    }
}

/// Reading `n` signed updates in the legacy encoding.
pub open spec fn rd_updates(s: Seq<u8>, n: nat) -> Read<Seq<SignedLedgerUpdateView>>
    decreases n,
{
    if n == 0 {
        (Ok(seq![]), s)
    } else {
        let (x, s1) = update_binary_read(s);
        match x {
            Err(e) => (Err(e), s1),
            Ok(x) => after_reads(seq![x], rd_updates(s1, (n - 1) as nat)),
        }
    }
}

/// Reading a count as a `u32`, then that many signed updates.
pub open spec fn rd_updates_vec(s: Seq<u8>) -> Read<Seq<SignedLedgerUpdateView>> {
    let (n, s1) = rd_u32(s);
    match n {
        Err(e) => (Err(e), s1),
        Ok(n) => rd_updates(s1, n as nat),
    }
}

/// The keys' encodings, concatenated.
pub(crate) fn keys_concat(ks: &Vec<PublicKey>) -> (r: Vec<u8>)
    ensures
        r@ == keys_bytes(keys_view(ks@)),
{
    let mut out: Vec<u8> = Vec::new();
    let mut i: usize = 0;
    while i < ks.len()
        invariant
            i <= ks@.len(),
            out@ == keys_bytes(keys_view(ks@.take(i as int))),
        decreases ks@.len() - i,
    {
        let b = ks[i].serialize();
        extend_bytes(&mut out, b.as_slice());
        proof {
            let t = keys_view(ks@.take(i + 1));
            assert(t.drop_last() =~= keys_view(ks@.take(i as int)));
            assert(t.last() == ks@[i as int]@);
        }
        i = i + 1;
    }
    assert(ks@.take(i as int) =~= ks@);
    out
}

fn write_keys(w: &mut Vec<u8>, ks: &Vec<PublicKey>)
    ensures
        final(w)@ == old(w)@ + (u32_be(ks@.len() as u32) + keys_bytes(keys_view(ks@))),
{
    write_u32(w, ks.len() as u32);
    let b = keys_concat(ks);
    extend_bytes(w, b.as_slice());
    assert(w@ =~= old(w)@ + (u32_be(ks@.len() as u32) + keys_bytes(keys_view(ks@))));
}

pub(crate) fn write_updates(w: &mut Vec<u8>, us: &Vec<SignedLedgerUpdate>)
    ensures
        final(w)@ == old(w)@ + (u32_be(us@.len() as u32) + updates_binary(updates_view(us@))),
{
    write_u32(w, us.len() as u32);
    let ghost start = w@;
    let mut i: usize = 0;
    while i < us.len()
        invariant
            i <= us@.len(),
            w@ == start + updates_binary(updates_view(us@.take(i as int))),
        decreases us@.len() - i,
    {
        let _ = us[i].write_to(w);
        proof {
            let t = updates_view(us@.take(i + 1));
            assert(t.drop_last() =~= updates_view(us@.take(i as int)));
            assert(t.last() == us@[i as int]@);
        }
        i = i + 1;
    }
    assert(us@.take(i as int) =~= us@);
    assert(w@ =~= old(w)@ + (u32_be(us@.len() as u32) + updates_binary(updates_view(us@))));
}

/// Reads `n` keys.
pub(crate) fn read_keys_n(data: &[u8], pos: &mut usize, n: u32) -> (r: Result<Vec<PublicKey>, CodecError>)
    requires
        *old(pos) <= data@.len(),
    ensures
        *final(pos) <= data@.len(),
        data@.skip(*final(pos) as int) == rd_keys(data@.skip(*old(pos) as int), n as nat).1,
        read_is(
            match r {
                Ok(v) => Ok(keys_view(v@)),
                Err(e) => Err(e),
            },
            rd_keys(data@.skip(*old(pos) as int), n as nat).0,
        ),
{
    let ghost s0 = data@.skip(*old(pos) as int);
    let mut out: Vec<PublicKey> = Vec::new();
    let mut i: u32 = 0;
    while i < n
        invariant
            i <= n,
            *pos <= data@.len(),
            s0 == data@.skip(*old(pos) as int),
            rd_keys(s0, n as nat) == after_reads(keys_view(out@), rd_keys(data@.skip(*pos as int), (n - i) as nat)),
        decreases n - i,
    {
        let x = match read_pubkey(data, pos) {
            Ok(x) => x,
            Err(e) => {
                return Err(e);
            },
        };
        proof {
            let rest = rd_keys(data@.skip(*pos as int), (n - i - 1) as nat);
            assert(keys_view(out@.push(x)) =~= keys_view(out@).push(x@));
            match rest.0 {
                Ok(xs) => {
                    assert(keys_view(out@) + (seq![x@] + xs) =~= keys_view(out@).push(x@) + xs);
                },
                Err(_) => {},
            }
        }
        out.push(x);
        i = i + 1;
    }
    assert(keys_view(out@) + Seq::<Seq<u8>>::empty() =~= keys_view(out@));
    assert(keys_view(Seq::<PublicKey>::empty()) =~= Seq::<Seq<u8>>::empty());
    Ok(out)
}

fn read_keys_vec(data: &[u8], pos: &mut usize) -> (r: Result<Vec<PublicKey>, CodecError>)
    requires
        *old(pos) <= data@.len(),
    ensures
        *final(pos) <= data@.len(),
        data@.skip(*final(pos) as int) == rd_keys_vec(data@.skip(*old(pos) as int)).1,
        read_is(
            match r {
                Ok(v) => Ok(keys_view(v@)),
                Err(e) => Err(e),
            },
            rd_keys_vec(data@.skip(*old(pos) as int)).0,
        ),
{
    let n = match read_u32(data, pos) {
        Ok(n) => n,
        Err(e) => {
            return Err(e);
        },
    };
    read_keys_n(data, pos, n)
}

pub(crate) fn read_updates_vec(data: &[u8], pos: &mut usize) -> (r: Result<Vec<SignedLedgerUpdate>, CodecError>)
    requires
        *old(pos) <= data@.len(),
    ensures
        *final(pos) <= data@.len(),
        data@.skip(*final(pos) as int) == rd_updates_vec(data@.skip(*old(pos) as int)).1,
        read_is(
            match r {
                Ok(v) => Ok(updates_view(v@)),
                Err(e) => Err(e),
            },
            rd_updates_vec(data@.skip(*old(pos) as int)).0,
        ),
{
    let ghost s0 = data@.skip(*old(pos) as int);
    let n = match read_u32(data, pos) {
        Ok(n) => n,
        Err(e) => {
            return Err(e);
        },
    };
    let mut out: Vec<SignedLedgerUpdate> = Vec::new();
    let mut i: u32 = 0;
    while i < n
        invariant
            i <= n,
            *pos <= data@.len(),
            s0 == data@.skip(*old(pos) as int),
            rd_updates_vec(s0) == after_reads(
                updates_view(out@),
                rd_updates(data@.skip(*pos as int), (n - i) as nat),
            ),
        decreases n - i,
    {
        let x = match SignedLedgerUpdate::read_from(data, pos) {
            Ok(x) => x,
            Err(e) => {
                return Err(e);
            },
        };
        proof {
            let rest = rd_updates(data@.skip(*pos as int), (n - i - 1) as nat);
            assert(updates_view(out@.push(x)) =~= updates_view(out@).push(x@));
            match rest.0 {
                Ok(xs) => {
                    assert(updates_view(out@) + (seq![x@] + xs) =~= updates_view(out@).push(x@) + xs);
                },
                Err(_) => {},
            }
        }
        out.push(x);
        i = i + 1;
    }
    assert(updates_view(out@) + Seq::<SignedLedgerUpdateView>::empty() =~= updates_view(out@));
    Ok(out)
}

/// Reads keys from consecutive 33-byte chunks.
pub(crate) fn decode_keys(d: &[u8], field_type: u64) -> (r: TlvResult<Vec<PublicKey>>)
    ensures
        match keys_of(d@, field_type) {
            Ok(ks) => r is Ok && keys_view(r->Ok_0@) == ks,
            Err(f) => r is Err && error_is(r->Err_0, f),
        },
{
    let mut out: Vec<PublicKey> = Vec::new();
    let mut pos: usize = 0;
    assert(d@.skip(0) =~= d@);
    assert(keys_view(out@) =~= Seq::<Seq<u8>>::empty());
    while d.len() - pos >= 33
        invariant
            pos <= d@.len(),
            keys_of(d@, field_type) == (match keys_of(d@.skip(pos as int), field_type) {
                Ok(ks) => Ok(keys_view(out@) + ks),
                Err(f) => Err(f),
            }),
        decreases d@.len() - pos,
    {
        let chunk = copy_range(d, pos, pos + 33);
        assert(chunk@ =~= d@.skip(pos as int).subrange(0, 33));
        assert(d@.skip(pos as int).skip(33) =~= d@.skip(pos + 33));
        let k = match PublicKey::from_slice(chunk.as_slice()) {
            Ok(k) => k,
            Err(e) => {
                let reason = concat_text("invalid pubkey: ", e.as_str());
                proof {
                    reveal_strlit("invalid pubkey: malformed public key");
                    reveal_strlit("invalid pubkey: ");
                    reveal_strlit("malformed public key");
                    assert(reason@ =~= "invalid pubkey: malformed public key"@);
                }
                return Err(TlvError::InvalidFieldValue { field_type, reason });
            },
        };
        proof {
            assert(keys_view(out@.push(k)) =~= keys_view(out@).push(k@));
            match keys_of(d@.skip(pos + 33), field_type) {
                Ok(ks) => {
                    assert(keys_view(out@) + (seq![k@] + ks) =~= keys_view(out@).push(k@) + ks);
                },
                Err(_) => {},
            }
        }
        out.push(k);
        pos = pos + 33;
    }
    assert(keys_of(d@.skip(pos as int), field_type) == Ok::<Seq<Seq<u8>>, StreamFault>(seq![]));
    assert(keys_view(out@) + Seq::<Seq<u8>>::empty() =~= keys_view(out@));
    Ok(out)
}

/// Field types of an encoded [`CoordinationResponseMsg`].
pub const CR_DISCRIMINANT: u64 = 0;
pub const CR_REQUEST_HASH: u64 = 2;
pub const CR_COSIGNATURE: u64 = 4;
pub const CR_OPERATOR_ID: u64 = 6;
pub const CR_RESERVES_ID: u64 = 8;
pub const CR_CONSENT_GRANTED: u64 = 10;
pub const CR_QUORUM_MEMBER_SIGNATURE: u64 = 12;
pub const CR_ACCEPTED: u64 = 14;
pub const CR_MEMBERS: u64 = 16;
pub const CR_THRESHOLD: u64 = 18;
pub const CR_LAST_SEQUENCE: u64 = 20;
pub const CR_CURRENT_STATE_HASH: u64 = 22;
pub const CR_REJECTION_REASON: u64 = 24;
pub const CR_UPDATES: u64 = 26;
pub const CR_START_SEQUENCE: u64 = 28;
pub const CR_IS_FINAL: u64 = 30;
pub const CR_CHANGE_TYPE: u64 = 32;
pub const CR_MEMBER_PUBKEY: u64 = 34;
pub const CR_NEW_MEMBERS: u64 = 36;
pub const CR_NEW_THRESHOLD: u64 = 38;
pub const CR_TIMESTAMP: u64 = 40;
pub const CR_OPERATOR_SIGNATURE: u64 = 42;
pub const CR_CHANNEL_ID: u64 = 44;

/// Answers to coordination requests.
#[derive(Clone, Debug, PartialEq, Eq)]
pub enum CoordinationResponseMsg {
    /// An invoice was cosigned.
    InvoiceCosigned { request_hash: [u8; 32], cosignature: [u8; 64] },
    /// Collateral consent granted or denied.
    CollateralConsentResponse { request_hash: [u8; 32], operator_id: PublicKey, reserves_id: String, consent_granted: bool, quorum_member_signature: [u8; 64] },
    /// A quorum join accepted or rejected.
    QuorumJoinResponse { request_hash: [u8; 32], accepted: bool, members: Vec<PublicKey>, threshold: u16, last_sequence: u64, content_hash: [u8; 32], rejection_reason: Option<String> },
    /// Quorum state sync: signed updates from a start sequence.
    QuorumStateSync { request_hash: [u8; 32], operator_id: PublicKey, reserves_id: String, updates: Vec<SignedLedgerUpdate>, start_sequence: u64, is_final: bool },
    /// A quorum membership change announcement.
    QuorumMembershipChange { request_hash: [u8; 32], operator_id: PublicKey, reserves_id: String, change_type: String, member_pubkey: PublicKey, new_members: Vec<PublicKey>, new_threshold: u16, timestamp: u64, operator_signature: [u8; 64] },
    /// Acceptance of a proposed reserves commitment.
    AcceptReserves { channel_id: [u8; 32] },
}

/// A coordination response as plain values.
pub enum CoordinationResponseMsgView {
    InvoiceCosigned { request_hash: Seq<u8>, cosignature: Seq<u8> },
    CollateralConsentResponse { request_hash: Seq<u8>, operator_id: Seq<u8>, reserves_id: Seq<char>, consent_granted: bool, quorum_member_signature: Seq<u8> },
    QuorumJoinResponse { request_hash: Seq<u8>, accepted: bool, members: Seq<Seq<u8>>, threshold: u16, last_sequence: u64, content_hash: Seq<u8>, rejection_reason: Option<Seq<char>> },
    QuorumStateSync { request_hash: Seq<u8>, operator_id: Seq<u8>, reserves_id: Seq<char>, updates: Seq<SignedLedgerUpdateView>, start_sequence: u64, is_final: bool },
    QuorumMembershipChange { request_hash: Seq<u8>, operator_id: Seq<u8>, reserves_id: Seq<char>, change_type: Seq<char>, member_pubkey: Seq<u8>, new_members: Seq<Seq<u8>>, new_threshold: u16, timestamp: u64, operator_signature: Seq<u8> },
    AcceptReserves { channel_id: Seq<u8> },
}

impl View for CoordinationResponseMsg {
    type V = CoordinationResponseMsgView;

    open spec fn view(&self) -> CoordinationResponseMsgView {
        match self {
            CoordinationResponseMsg::InvoiceCosigned { request_hash, cosignature } => CoordinationResponseMsgView::InvoiceCosigned { request_hash: request_hash@, cosignature: cosignature@ },
            CoordinationResponseMsg::CollateralConsentResponse { request_hash, operator_id, reserves_id, consent_granted, quorum_member_signature } => CoordinationResponseMsgView::CollateralConsentResponse { request_hash: request_hash@, operator_id: operator_id@, reserves_id: reserves_id@, consent_granted: *consent_granted, quorum_member_signature: quorum_member_signature@ },
            CoordinationResponseMsg::QuorumJoinResponse { request_hash, accepted, members, threshold, last_sequence, content_hash, rejection_reason } => CoordinationResponseMsgView::QuorumJoinResponse { request_hash: request_hash@, accepted: *accepted, members: keys_view(members@), threshold: *threshold, last_sequence: *last_sequence, content_hash: content_hash@, rejection_reason: opt_text(*rejection_reason) },
            CoordinationResponseMsg::QuorumStateSync { request_hash, operator_id, reserves_id, updates, start_sequence, is_final } => CoordinationResponseMsgView::QuorumStateSync { request_hash: request_hash@, operator_id: operator_id@, reserves_id: reserves_id@, updates: updates_view(updates@), start_sequence: *start_sequence, is_final: *is_final },
            CoordinationResponseMsg::QuorumMembershipChange { request_hash, operator_id, reserves_id, change_type, member_pubkey, new_members, new_threshold, timestamp, operator_signature } => CoordinationResponseMsgView::QuorumMembershipChange { request_hash: request_hash@, operator_id: operator_id@, reserves_id: reserves_id@, change_type: change_type@, member_pubkey: member_pubkey@, new_members: keys_view(new_members@), new_threshold: *new_threshold, timestamp: *timestamp, operator_signature: operator_signature@ },
            CoordinationResponseMsg::AcceptReserves { channel_id } => CoordinationResponseMsgView::AcceptReserves { channel_id: channel_id@ },
        }
    }
}

/// The legacy binary encoding of a coordination response.
pub open spec fn coord_response_binary(v: CoordinationResponseMsgView) -> Seq<u8> {
    match v {
        CoordinationResponseMsgView::InvoiceCosigned { request_hash, cosignature } => seq![0u8] + request_hash + cosignature,
        CoordinationResponseMsgView::CollateralConsentResponse { request_hash, operator_id, reserves_id, consent_granted, quorum_member_signature } => seq![1u8] + request_hash + operator_id + length_prefixed(encode_utf8(reserves_id)) + seq![if consent_granted { 1u8 } else { 0u8 }] + quorum_member_signature,
        CoordinationResponseMsgView::QuorumJoinResponse { request_hash, accepted, members, threshold, last_sequence, content_hash, rejection_reason } => seq![2u8] + request_hash + seq![if accepted { 1u8 } else { 0u8 }] + u32_be(members.len() as u32) + keys_bytes(members) + u16_be(threshold) + u64_be(last_sequence) + content_hash + option_bytes(opt_string_binary(rejection_reason)),
        CoordinationResponseMsgView::QuorumStateSync { request_hash, operator_id, reserves_id, updates, start_sequence, is_final } => seq![3u8] + request_hash + operator_id + length_prefixed(encode_utf8(reserves_id)) + u32_be(updates.len() as u32) + updates_binary(updates) + u64_be(start_sequence) + seq![if is_final { 1u8 } else { 0u8 }],
        CoordinationResponseMsgView::QuorumMembershipChange { request_hash, operator_id, reserves_id, change_type, member_pubkey, new_members, new_threshold, timestamp, operator_signature } => seq![4u8] + request_hash + operator_id + length_prefixed(encode_utf8(reserves_id)) + length_prefixed(encode_utf8(change_type)) + member_pubkey + u32_be(new_members.len() as u32) + keys_bytes(new_members) + u16_be(new_threshold) + u64_be(timestamp) + operator_signature,
        CoordinationResponseMsgView::AcceptReserves { channel_id } => seq![5u8] + channel_id,
    }
}

/// Reading the fields of a `InvoiceCosigned` response in the legacy encoding.
pub open spec fn bin_read_cr_invoice_cosigned(s: Seq<u8>) -> Read<CoordinationResponseMsgView> {
    let (o_request_hash, s1) = rd_exact(s, 32);
    match o_request_hash {
        Err(e) => (Err(e), s1),
        Ok(x_request_hash) => {
            let (o_cosignature, s2) = rd_exact(s1, 64);
            match o_cosignature {
                Err(e) => (Err(e), s2),
                Ok(x_cosignature) => {
                    (Ok(CoordinationResponseMsgView::InvoiceCosigned { request_hash: x_request_hash, cosignature: x_cosignature }), s2)
                },
            }
        },
    }
}

/// Reading the fields of a `CollateralConsentResponse` response in the legacy encoding.
pub open spec fn bin_read_cr_collateral_consent_response(s: Seq<u8>) -> Read<CoordinationResponseMsgView> {
    let (o_request_hash, s1) = rd_exact(s, 32);
    match o_request_hash {
        Err(e) => (Err(e), s1),
        Ok(x_request_hash) => {
            let (o_operator_id, s2) = rd_pubkey(s1);
            match o_operator_id {
                Err(e) => (Err(e), s2),
                Ok(x_operator_id) => {
                    let (o_reserves_id, s3) = rd_string(s2);
                    match o_reserves_id {
                        Err(e) => (Err(e), s3),
                        Ok(x_reserves_id) => {
                            let (o_consent_granted, s4) = rd_u8(s3);
                            match o_consent_granted {
                                Err(e) => (Err(e), s4),
                                Ok(x_consent_granted) => {
                                    let (o_quorum_member_signature, s5) = rd_exact(s4, 64);
                                    match o_quorum_member_signature {
                                        Err(e) => (Err(e), s5),
                                        Ok(x_quorum_member_signature) => {
                                            (Ok(CoordinationResponseMsgView::CollateralConsentResponse { request_hash: x_request_hash, operator_id: x_operator_id, reserves_id: x_reserves_id, consent_granted: x_consent_granted != 0, quorum_member_signature: x_quorum_member_signature }), s5)
                                        },
                                    }
                                },
                            }
                        },
                    }
                },
            }
        },
    }
}

/// Reading the fields of a `QuorumJoinResponse` response in the legacy encoding.
pub open spec fn bin_read_cr_quorum_join_response(s: Seq<u8>) -> Read<CoordinationResponseMsgView> {
    let (o_request_hash, s1) = rd_exact(s, 32);
    match o_request_hash {
        Err(e) => (Err(e), s1),
        Ok(x_request_hash) => {
            let (o_accepted, s2) = rd_u8(s1);
            match o_accepted {
                Err(e) => (Err(e), s2),
                Ok(x_accepted) => {
                    let (o_members, s3) = rd_keys_vec(s2);
                    match o_members {
                        Err(e) => (Err(e), s3),
                        Ok(x_members) => {
                            let (o_threshold, s4) = rd_u16(s3);
                            match o_threshold {
                                Err(e) => (Err(e), s4),
                                Ok(x_threshold) => {
                                    let (o_last_sequence, s5) = rd_u64(s4);
                                    match o_last_sequence {
                                        Err(e) => (Err(e), s5),
                                        Ok(x_last_sequence) => {
                                            let (o_content_hash, s6) = rd_exact(s5, 32);
                                            match o_content_hash {
                                                Err(e) => (Err(e), s6),
                                                Ok(x_content_hash) => {
                                                    let (o_rejection_reason, s7) = rd_option_string(s6);
                                                    match o_rejection_reason {
                                                        Err(e) => (Err(e), s7),
                                                        Ok(x_rejection_reason) => {
                                                            (Ok(CoordinationResponseMsgView::QuorumJoinResponse { request_hash: x_request_hash, accepted: x_accepted != 0, members: x_members, threshold: x_threshold, last_sequence: x_last_sequence, content_hash: x_content_hash, rejection_reason: x_rejection_reason }), s7)
                                                        },
                                                    }
                                                },
                                            }
                                        },
                                    }
                                },
                            }
                        },
                    }
                },
            }
        },
    }
}

/// Reading the fields of a `QuorumStateSync` response in the legacy encoding.
pub open spec fn bin_read_cr_quorum_state_sync(s: Seq<u8>) -> Read<CoordinationResponseMsgView> {
    let (o_request_hash, s1) = rd_exact(s, 32);
    match o_request_hash {
        Err(e) => (Err(e), s1),
        Ok(x_request_hash) => {
            let (o_operator_id, s2) = rd_pubkey(s1);
            match o_operator_id {
                Err(e) => (Err(e), s2),
                Ok(x_operator_id) => {
                    let (o_reserves_id, s3) = rd_string(s2);
                    match o_reserves_id {
                        Err(e) => (Err(e), s3),
                        Ok(x_reserves_id) => {
                            let (o_updates, s4) = rd_updates_vec(s3);
                            match o_updates {
                                Err(e) => (Err(e), s4),
                                Ok(x_updates) => {
                                    let (o_start_sequence, s5) = rd_u64(s4);
                                    match o_start_sequence {
                                        Err(e) => (Err(e), s5),
                                        Ok(x_start_sequence) => {
                                            let (o_is_final, s6) = rd_u8(s5);
                                            match o_is_final {
                                                Err(e) => (Err(e), s6),
                                                Ok(x_is_final) => {
                                                    (Ok(CoordinationResponseMsgView::QuorumStateSync { request_hash: x_request_hash, operator_id: x_operator_id, reserves_id: x_reserves_id, updates: x_updates, start_sequence: x_start_sequence, is_final: x_is_final != 0 }), s6)
                                                },
                                            }
                                        },
                                    }
                                },
                            }
                        },
                    }
                },
            }
        },
    }
}

/// Reading the fields of a `QuorumMembershipChange` response in the legacy encoding.
pub open spec fn bin_read_cr_quorum_membership_change(s: Seq<u8>) -> Read<CoordinationResponseMsgView> {
    let (o_request_hash, s1) = rd_exact(s, 32);
    match o_request_hash {
        Err(e) => (Err(e), s1),
        Ok(x_request_hash) => {
            let (o_operator_id, s2) = rd_pubkey(s1);
            match o_operator_id {
                Err(e) => (Err(e), s2),
                Ok(x_operator_id) => {
                    let (o_reserves_id, s3) = rd_string(s2);
                    match o_reserves_id {
                        Err(e) => (Err(e), s3),
                        Ok(x_reserves_id) => {
                            let (o_change_type, s4) = rd_string(s3);
                            match o_change_type {
                                Err(e) => (Err(e), s4),
                                Ok(x_change_type) => {
                                    let (o_member_pubkey, s5) = rd_pubkey(s4);
                                    match o_member_pubkey {
                                        Err(e) => (Err(e), s5),
                                        Ok(x_member_pubkey) => {
                                            let (o_new_members, s6) = rd_keys_vec(s5);
                                            match o_new_members {
                                                Err(e) => (Err(e), s6),
                                                Ok(x_new_members) => {
                                                    let (o_new_threshold, s7) = rd_u16(s6);
                                                    match o_new_threshold {
                                                        Err(e) => (Err(e), s7),
                                                        Ok(x_new_threshold) => {
                                                            let (o_timestamp, s8) = rd_u64(s7);
                                                            match o_timestamp {
                                                                Err(e) => (Err(e), s8),
                                                                Ok(x_timestamp) => {
                                                                    let (o_operator_signature, s9) = rd_exact(s8, 64);
                                                                    match o_operator_signature {
                                                                        Err(e) => (Err(e), s9),
                                                                        Ok(x_operator_signature) => {
                                                                            (Ok(CoordinationResponseMsgView::QuorumMembershipChange { request_hash: x_request_hash, operator_id: x_operator_id, reserves_id: x_reserves_id, change_type: x_change_type, member_pubkey: x_member_pubkey, new_members: x_new_members, new_threshold: x_new_threshold, timestamp: x_timestamp, operator_signature: x_operator_signature }), s9)
                                                                        },
                                                                    }
                                                                },
                                                            }
                                                        },
                                                    }
                                                },
                                            }
                                        },
                                    }
                                },
                            }
                        },
                    }
                },
            }
        },
    }
}

/// Reading the fields of a `AcceptReserves` response in the legacy encoding.
pub open spec fn bin_read_cr_accept_reserves(s: Seq<u8>) -> Read<CoordinationResponseMsgView> {
    let (o_channel_id, s1) = rd_exact(s, 32);
    match o_channel_id {
        Err(e) => (Err(e), s1),
        Ok(x_channel_id) => {
            (Ok(CoordinationResponseMsgView::AcceptReserves { channel_id: x_channel_id }), s1)
        },
    }
}

/// Reading a coordination response in the legacy encoding.
pub open spec fn coord_response_binary_read(s: Seq<u8>) -> Read<CoordinationResponseMsgView> {
    let (d, s1) = rd_u8(s);
    match d {
        Err(e) => (Err(e), s1),
        Ok(disc) => {
            if disc == 0 {
                bin_read_cr_invoice_cosigned(s1)
            } else if disc == 1 {
                bin_read_cr_collateral_consent_response(s1)
            } else if disc == 2 {
                bin_read_cr_quorum_join_response(s1)
            } else if disc == 3 {
                bin_read_cr_quorum_state_sync(s1)
            } else if disc == 4 {
                bin_read_cr_quorum_membership_change(s1)
            } else if disc == 5 {
                bin_read_cr_accept_reserves(s1)
            } else {
                (Err((CodecFault::InvalidDiscriminant(disc), seq![])), s1)
            }
        },
    }
}

fn write_cr_invoice_cosigned(m: &CoordinationResponseMsg, w: &mut Vec<u8>)
    requires
        m is InvoiceCosigned,
    ensures
        final(w)@ == old(w)@ + coord_response_binary(m@),
{
    match m {
        CoordinationResponseMsg::InvoiceCosigned { request_hash, cosignature } => {
            write_u8(w, 0);
            write_32(w, request_hash);
            write_64(w, cosignature);
        },
        _ => {},
    }
    assert(w@ =~= old(w)@ + coord_response_binary(m@));
}

#[verifier::rlimit(40)]
fn read_cr_invoice_cosigned(data: &[u8], pos: &mut usize) -> (r: Result<CoordinationResponseMsg, CodecError>)
    requires
        *old(pos) <= data@.len(),
    ensures
        *final(pos) <= data@.len(),
        data@.skip(*final(pos) as int) == bin_read_cr_invoice_cosigned(data@.skip(*old(pos) as int)).1,
        read_is_view(r, bin_read_cr_invoice_cosigned(data@.skip(*old(pos) as int)).0),
{
    let request_hash = match read_32(data, pos) {
        Ok(v) => v,
        Err(e) => {
            return Err(e);
        },
    };
    let cosignature = match read_64(data, pos) {
        Ok(v) => v,
        Err(e) => {
            return Err(e);
        },
    };
    Ok(CoordinationResponseMsg::InvoiceCosigned { request_hash, cosignature })
}

fn write_cr_collateral_consent_response(m: &CoordinationResponseMsg, w: &mut Vec<u8>)
    requires
        m is CollateralConsentResponse,
    ensures
        final(w)@ == old(w)@ + coord_response_binary(m@),
{
    match m {
        CoordinationResponseMsg::CollateralConsentResponse { request_hash, operator_id, reserves_id, consent_granted, quorum_member_signature } => {
            write_u8(w, 1);
            write_32(w, request_hash);
            write_pubkey(w, operator_id);
            write_string(w, reserves_id.as_str());
            write_bool(w, *consent_granted);
            write_64(w, quorum_member_signature);
        },
        _ => {},
    }
    assert(w@ =~= old(w)@ + coord_response_binary(m@));
}

#[verifier::rlimit(40)]
fn read_cr_collateral_consent_response(data: &[u8], pos: &mut usize) -> (r: Result<CoordinationResponseMsg, CodecError>)
    requires
        *old(pos) <= data@.len(),
    ensures
        *final(pos) <= data@.len(),
        data@.skip(*final(pos) as int) == bin_read_cr_collateral_consent_response(data@.skip(*old(pos) as int)).1,
        read_is_view(r, bin_read_cr_collateral_consent_response(data@.skip(*old(pos) as int)).0),
{
    let request_hash = match read_32(data, pos) {
        Ok(v) => v,
        Err(e) => {
            return Err(e);
        },
    };
    let operator_id = match read_pubkey(data, pos) {
        Ok(v) => v,
        Err(e) => {
            return Err(e);
        },
    };
    let reserves_id = match read_string(data, pos) {
        Ok(v) => v,
        Err(e) => {
            return Err(e);
        },
    };
    let consent_granted = match read_bool(data, pos) {
        Ok(v) => v,
        Err(e) => {
            return Err(e);
        },
    };
    let quorum_member_signature = match read_64(data, pos) {
        Ok(v) => v,
        Err(e) => {
            return Err(e);
        },
    };
    Ok(CoordinationResponseMsg::CollateralConsentResponse { request_hash, operator_id, reserves_id, consent_granted, quorum_member_signature })
}

fn write_cr_quorum_join_response(m: &CoordinationResponseMsg, w: &mut Vec<u8>)
    requires
        m is QuorumJoinResponse,
    ensures
        final(w)@ == old(w)@ + coord_response_binary(m@),
{
    match m {
        CoordinationResponseMsg::QuorumJoinResponse { request_hash, accepted, members, threshold, last_sequence, content_hash, rejection_reason } => {
            write_u8(w, 2);
            write_32(w, request_hash);
            write_bool(w, *accepted);
            write_keys(w, members);
            write_u16(w, *threshold);
            write_u64(w, *last_sequence);
            write_32(w, content_hash);
            write_option_string(w, rejection_reason);
        },
        _ => {},
    }
    assert(w@ =~= old(w)@ + coord_response_binary(m@));
}

#[verifier::rlimit(40)]
fn read_cr_quorum_join_response(data: &[u8], pos: &mut usize) -> (r: Result<CoordinationResponseMsg, CodecError>)
    requires
        *old(pos) <= data@.len(),
    ensures
        *final(pos) <= data@.len(),
        data@.skip(*final(pos) as int) == bin_read_cr_quorum_join_response(data@.skip(*old(pos) as int)).1,
        read_is_view(r, bin_read_cr_quorum_join_response(data@.skip(*old(pos) as int)).0),
{
    let request_hash = match read_32(data, pos) {
        Ok(v) => v,
        Err(e) => {
            return Err(e);
        },
    };
    let accepted = match read_bool(data, pos) {
        Ok(v) => v,
        Err(e) => {
            return Err(e);
        },
    };
    let members = match read_keys_vec(data, pos) {
        Ok(v) => v,
        Err(e) => {
            return Err(e);
        },
    };
    let threshold = match read_u16(data, pos) {
        Ok(v) => v,
        Err(e) => {
            return Err(e);
        },
    };
    let last_sequence = match read_u64(data, pos) {
        Ok(v) => v,
        Err(e) => {
            return Err(e);
        },
    };
    let content_hash = match read_32(data, pos) {
        Ok(v) => v,
        Err(e) => {
            return Err(e);
        },
    };
    let rejection_reason = match read_option_string(data, pos) {
        Ok(v) => v,
        Err(e) => {
            return Err(e);
        },
    };
    Ok(CoordinationResponseMsg::QuorumJoinResponse { request_hash, accepted, members, threshold, last_sequence, content_hash, rejection_reason })
}

fn write_cr_quorum_state_sync(m: &CoordinationResponseMsg, w: &mut Vec<u8>)
    requires
        m is QuorumStateSync,
    ensures
        final(w)@ == old(w)@ + coord_response_binary(m@),
{
    match m {
        CoordinationResponseMsg::QuorumStateSync { request_hash, operator_id, reserves_id, updates, start_sequence, is_final } => {
            write_u8(w, 3);
            write_32(w, request_hash);
            write_pubkey(w, operator_id);
            write_string(w, reserves_id.as_str());
            write_updates(w, updates);
            write_u64(w, *start_sequence);
            write_bool(w, *is_final);
        },
        _ => {},
    }
    assert(w@ =~= old(w)@ + coord_response_binary(m@));
}

#[verifier::rlimit(40)]
fn read_cr_quorum_state_sync(data: &[u8], pos: &mut usize) -> (r: Result<CoordinationResponseMsg, CodecError>)
    requires
        *old(pos) <= data@.len(),
    ensures
        *final(pos) <= data@.len(),
        data@.skip(*final(pos) as int) == bin_read_cr_quorum_state_sync(data@.skip(*old(pos) as int)).1,
        read_is_view(r, bin_read_cr_quorum_state_sync(data@.skip(*old(pos) as int)).0),
{
    let request_hash = match read_32(data, pos) {
        Ok(v) => v,
        Err(e) => {
            return Err(e);
        },
    };
    let operator_id = match read_pubkey(data, pos) {
        Ok(v) => v,
        Err(e) => {
            return Err(e);
        },
    };
    let reserves_id = match read_string(data, pos) {
        Ok(v) => v,
        Err(e) => {
            return Err(e);
        },
    };
    let updates = match read_updates_vec(data, pos) {
        Ok(v) => v,
        Err(e) => {
            return Err(e);
        },
    };
    let start_sequence = match read_u64(data, pos) {
        Ok(v) => v,
        Err(e) => {
            return Err(e);
        },
    };
    let is_final = match read_bool(data, pos) {
        Ok(v) => v,
        Err(e) => {
            return Err(e);
        },
    };
    Ok(CoordinationResponseMsg::QuorumStateSync { request_hash, operator_id, reserves_id, updates, start_sequence, is_final })
}

fn write_cr_quorum_membership_change(m: &CoordinationResponseMsg, w: &mut Vec<u8>)
    requires
        m is QuorumMembershipChange,
    ensures
        final(w)@ == old(w)@ + coord_response_binary(m@),
{
    match m {
        CoordinationResponseMsg::QuorumMembershipChange { request_hash, operator_id, reserves_id, change_type, member_pubkey, new_members, new_threshold, timestamp, operator_signature } => {
            write_u8(w, 4);
            write_32(w, request_hash);
            write_pubkey(w, operator_id);
            write_string(w, reserves_id.as_str());
            write_string(w, change_type.as_str());
            write_pubkey(w, member_pubkey);
            write_keys(w, new_members);
            write_u16(w, *new_threshold);
            write_u64(w, *timestamp);
            write_64(w, operator_signature);
        },
        _ => {},
    }
    assert(w@ =~= old(w)@ + coord_response_binary(m@));
}

#[verifier::rlimit(40)]
fn read_cr_quorum_membership_change(data: &[u8], pos: &mut usize) -> (r: Result<CoordinationResponseMsg, CodecError>)
    requires
        *old(pos) <= data@.len(),
    ensures
        *final(pos) <= data@.len(),
        data@.skip(*final(pos) as int) == bin_read_cr_quorum_membership_change(data@.skip(*old(pos) as int)).1,
        read_is_view(r, bin_read_cr_quorum_membership_change(data@.skip(*old(pos) as int)).0),
{
    let request_hash = match read_32(data, pos) {
        Ok(v) => v,
        Err(e) => {
            return Err(e);
        },
    };
    let operator_id = match read_pubkey(data, pos) {
        Ok(v) => v,
        Err(e) => {
            return Err(e);
        },
    };
    let reserves_id = match read_string(data, pos) {
        Ok(v) => v,
        Err(e) => {
            return Err(e);
        },
    };
    let change_type = match read_string(data, pos) {
        Ok(v) => v,
        Err(e) => {
            return Err(e);
        },
    };
    let member_pubkey = match read_pubkey(data, pos) {
        Ok(v) => v,
        Err(e) => {
            return Err(e);
        },
    };
    let new_members = match read_keys_vec(data, pos) {
        Ok(v) => v,
        Err(e) => {
            return Err(e);
        },
    };
    let new_threshold = match read_u16(data, pos) {
        Ok(v) => v,
        Err(e) => {
            return Err(e);
        },
    };
    let timestamp = match read_u64(data, pos) {
        Ok(v) => v,
        Err(e) => {
            return Err(e);
        },
    };
    let operator_signature = match read_64(data, pos) {
        Ok(v) => v,
        Err(e) => {
            return Err(e);
        },
    };
    Ok(CoordinationResponseMsg::QuorumMembershipChange { request_hash, operator_id, reserves_id, change_type, member_pubkey, new_members, new_threshold, timestamp, operator_signature })
}

fn write_cr_accept_reserves(m: &CoordinationResponseMsg, w: &mut Vec<u8>)
    requires
        m is AcceptReserves,
    ensures
        final(w)@ == old(w)@ + coord_response_binary(m@),
{
    match m {
        CoordinationResponseMsg::AcceptReserves { channel_id } => {
            write_u8(w, 5);
            write_32(w, channel_id);
        },
        _ => {},
    }
    assert(w@ =~= old(w)@ + coord_response_binary(m@));
}

#[verifier::rlimit(40)]
fn read_cr_accept_reserves(data: &[u8], pos: &mut usize) -> (r: Result<CoordinationResponseMsg, CodecError>)
    requires
        *old(pos) <= data@.len(),
    ensures
        *final(pos) <= data@.len(),
        data@.skip(*final(pos) as int) == bin_read_cr_accept_reserves(data@.skip(*old(pos) as int)).1,
        read_is_view(r, bin_read_cr_accept_reserves(data@.skip(*old(pos) as int)).0),
{
    let channel_id = match read_32(data, pos) {
        Ok(v) => v,
        Err(e) => {
            return Err(e);
        },
    };
    Ok(CoordinationResponseMsg::AcceptReserves { channel_id })
}

impl BinaryCodec for CoordinationResponseMsg {
    open spec fn binary_of(v: CoordinationResponseMsgView) -> Seq<u8> {
        coord_response_binary(v)
    }

    open spec fn binary_read(s: Seq<u8>) -> Read<CoordinationResponseMsgView> {
        coord_response_binary_read(s)
    }

    fn write_to(&self, w: &mut Vec<u8>) -> (r: Result<(), CodecError>) {
        match self {
            CoordinationResponseMsg::InvoiceCosigned { .. } => write_cr_invoice_cosigned(self, w),
            CoordinationResponseMsg::CollateralConsentResponse { .. } => write_cr_collateral_consent_response(self, w),
            CoordinationResponseMsg::QuorumJoinResponse { .. } => write_cr_quorum_join_response(self, w),
            CoordinationResponseMsg::QuorumStateSync { .. } => write_cr_quorum_state_sync(self, w),
            CoordinationResponseMsg::QuorumMembershipChange { .. } => write_cr_quorum_membership_change(self, w),
            CoordinationResponseMsg::AcceptReserves { .. } => write_cr_accept_reserves(self, w),
        }
        Ok(())
    }

    fn read_from(data: &[u8], pos: &mut usize) -> (r: Result<Self, CodecError>) {
        let disc = match read_u8(data, pos) {
            Ok(d) => d,
            Err(e) => {
                return Err(e);
            },
        };
        match disc {
            0 => read_cr_invoice_cosigned(data, pos),
            1 => read_cr_collateral_consent_response(data, pos),
            2 => read_cr_quorum_join_response(data, pos),
            3 => read_cr_quorum_state_sync(data, pos),
            4 => read_cr_quorum_membership_change(data, pos),
            5 => read_cr_accept_reserves(data, pos),
            d => Err(CodecError::InvalidDiscriminant(d)),
        }
    }
}

/// The fields of an encoded coordination response.
pub open spec fn coord_response_fields(m: CoordinationResponseMsg) -> Map<u64, Seq<u8>> {
    match m {
        CoordinationResponseMsg::InvoiceCosigned { request_hash, cosignature } => {
            Map::empty().insert(CR_DISCRIMINANT, seq![0u8]).insert(CR_REQUEST_HASH, request_hash@).insert(CR_COSIGNATURE, cosignature@)
        },
        CoordinationResponseMsg::CollateralConsentResponse { request_hash, operator_id, reserves_id, consent_granted, quorum_member_signature } => {
            Map::empty().insert(CR_DISCRIMINANT, seq![1u8]).insert(CR_REQUEST_HASH, request_hash@).insert(CR_OPERATOR_ID, operator_id@).insert(CR_RESERVES_ID, encode_utf8(reserves_id@)).insert(CR_CONSENT_GRANTED, seq![if consent_granted { 1u8 } else { 0u8 }]).insert(CR_QUORUM_MEMBER_SIGNATURE, quorum_member_signature@)
        },
        CoordinationResponseMsg::QuorumJoinResponse { request_hash, accepted, members, threshold, last_sequence, content_hash, rejection_reason } => {
            put_opt(Map::empty().insert(CR_DISCRIMINANT, seq![2u8]).insert(CR_REQUEST_HASH, request_hash@).insert(CR_ACCEPTED, seq![if accepted { 1u8 } else { 0u8 }]).insert(CR_MEMBERS, keys_bytes(keys_view(members@))).insert(CR_THRESHOLD, u16_be(threshold)).insert(CR_LAST_SEQUENCE, u64_be(last_sequence)).insert(CR_CURRENT_STATE_HASH, content_hash@), CR_REJECTION_REASON, opt_text_bytes(opt_text(rejection_reason)))
        },
        CoordinationResponseMsg::QuorumStateSync { request_hash, operator_id, reserves_id, updates, start_sequence, is_final } => {
            Map::empty().insert(CR_DISCRIMINANT, seq![3u8]).insert(CR_REQUEST_HASH, request_hash@).insert(CR_OPERATOR_ID, operator_id@).insert(CR_RESERVES_ID, encode_utf8(reserves_id@)).insert(CR_UPDATES, counted_bytes(updates_tlv(updates@))).insert(CR_START_SEQUENCE, u64_be(start_sequence)).insert(CR_IS_FINAL, seq![if is_final { 1u8 } else { 0u8 }])
        },
        CoordinationResponseMsg::QuorumMembershipChange { request_hash, operator_id, reserves_id, change_type, member_pubkey, new_members, new_threshold, timestamp, operator_signature } => {
            Map::empty().insert(CR_DISCRIMINANT, seq![4u8]).insert(CR_REQUEST_HASH, request_hash@).insert(CR_OPERATOR_ID, operator_id@).insert(CR_RESERVES_ID, encode_utf8(reserves_id@)).insert(CR_CHANGE_TYPE, encode_utf8(change_type@)).insert(CR_MEMBER_PUBKEY, member_pubkey@).insert(CR_NEW_MEMBERS, keys_bytes(keys_view(new_members@))).insert(CR_NEW_THRESHOLD, u16_be(new_threshold)).insert(CR_TIMESTAMP, u64_be(timestamp)).insert(CR_OPERATOR_SIGNATURE, operator_signature@)
        },
        CoordinationResponseMsg::AcceptReserves { channel_id } => {
            Map::empty().insert(CR_DISCRIMINANT, seq![5u8]).insert(CR_CHANNEL_ID, channel_id@)
        },
    }
}

/// The `InvoiceCosigned` response held by decoded fields: its fields read in order,
/// the first failure reported.
pub open spec fn cr_invoice_cosigned_from_fields(m: Map<u64, Seq<u8>>) -> Result<CoordinationResponseMsgView, StreamFault> {
    match required(m, CR_REQUEST_HASH, |d: Seq<u8>| bytes_of(d, 32)) {
        Err(e) => Err(e),
        Ok(x_request_hash) => 
        match required(m, CR_COSIGNATURE, |d: Seq<u8>| bytes_of(d, 64)) {
            Err(e) => Err(e),
            Ok(x_cosignature) => 
            Ok(CoordinationResponseMsgView::InvoiceCosigned { request_hash: x_request_hash, cosignature: x_cosignature }),
        },
    }
}

/// The `CollateralConsentResponse` response held by decoded fields: its fields read in order,
/// the first failure reported.
pub open spec fn cr_collateral_consent_response_from_fields(m: Map<u64, Seq<u8>>) -> Result<CoordinationResponseMsgView, StreamFault> {
    match required(m, CR_REQUEST_HASH, |d: Seq<u8>| bytes_of(d, 32)) {
        Err(e) => Err(e),
        Ok(x_request_hash) => 
        match required(m, CR_OPERATOR_ID, |d: Seq<u8>| pubkey_of(d)) {
            Err(e) => Err(e),
            Ok(x_operator_id) => 
            match required(m, CR_RESERVES_ID, |d: Seq<u8>| string_of(d)) {
                Err(e) => Err(e),
                Ok(x_reserves_id) => 
                match required(m, CR_CONSENT_GRANTED, |d: Seq<u8>| u8_of(d)) {
                    Err(e) => Err(e),
                    Ok(x_consent_granted) => 
                    match required(m, CR_QUORUM_MEMBER_SIGNATURE, |d: Seq<u8>| bytes_of(d, 64)) {
                        Err(e) => Err(e),
                        Ok(x_quorum_member_signature) => 
                        Ok(CoordinationResponseMsgView::CollateralConsentResponse { request_hash: x_request_hash, operator_id: x_operator_id, reserves_id: x_reserves_id, consent_granted: x_consent_granted != 0, quorum_member_signature: x_quorum_member_signature }),
                    },
                },
            },
        },
    }
}

/// The `QuorumJoinResponse` response held by decoded fields: its fields read in order,
/// the first failure reported.
pub open spec fn cr_quorum_join_response_from_fields(m: Map<u64, Seq<u8>>) -> Result<CoordinationResponseMsgView, StreamFault> {
    match required(m, CR_MEMBERS, |d: Seq<u8>| keys_of(d, CR_MEMBERS)) {
        Err(e) => Err(e),
        Ok(x_members) => 
        match required(m, CR_REQUEST_HASH, |d: Seq<u8>| bytes_of(d, 32)) {
            Err(e) => Err(e),
            Ok(x_request_hash) => 
            match required(m, CR_ACCEPTED, |d: Seq<u8>| u8_of(d)) {
                Err(e) => Err(e),
                Ok(x_accepted) => 
                match required(m, CR_THRESHOLD, |d: Seq<u8>| u16_of(d)) {
                    Err(e) => Err(e),
                    Ok(x_threshold) => 
                    match required(m, CR_LAST_SEQUENCE, |d: Seq<u8>| u64_of(d)) {
                        Err(e) => Err(e),
                        Ok(x_last_sequence) => 
                        match required(m, CR_CURRENT_STATE_HASH, |d: Seq<u8>| bytes_of(d, 32)) {
                            Err(e) => Err(e),
                            Ok(x_content_hash) => 
                            match optional(m, CR_REJECTION_REASON, |d: Seq<u8>| string_of(d)) {
                                Err(e) => Err(e),
                                Ok(x_rejection_reason) => 
                                Ok(CoordinationResponseMsgView::QuorumJoinResponse { request_hash: x_request_hash, accepted: x_accepted != 0, members: x_members, threshold: x_threshold, last_sequence: x_last_sequence, content_hash: x_content_hash, rejection_reason: x_rejection_reason }),
                            },
                        },
                    },
                },
            },
        },
    }
}

/// The `QuorumMembershipChange` response held by decoded fields: its fields read in order,
/// the first failure reported.
pub open spec fn cr_quorum_membership_change_from_fields(m: Map<u64, Seq<u8>>) -> Result<CoordinationResponseMsgView, StreamFault> {
    match required(m, CR_NEW_MEMBERS, |d: Seq<u8>| keys_of(d, CR_NEW_MEMBERS)) {
        Err(e) => Err(e),
        Ok(x_new_members) => 
        match required(m, CR_REQUEST_HASH, |d: Seq<u8>| bytes_of(d, 32)) {
            Err(e) => Err(e),
            Ok(x_request_hash) => 
            match required(m, CR_OPERATOR_ID, |d: Seq<u8>| pubkey_of(d)) {
                Err(e) => Err(e),
                Ok(x_operator_id) => 
                match required(m, CR_RESERVES_ID, |d: Seq<u8>| string_of(d)) {
                    Err(e) => Err(e),
                    Ok(x_reserves_id) => 
                    match required(m, CR_CHANGE_TYPE, |d: Seq<u8>| string_of(d)) {
                        Err(e) => Err(e),
                        Ok(x_change_type) => 
                        match required(m, CR_MEMBER_PUBKEY, |d: Seq<u8>| pubkey_of(d)) {
                            Err(e) => Err(e),
                            Ok(x_member_pubkey) => 
                            match required(m, CR_NEW_THRESHOLD, |d: Seq<u8>| u16_of(d)) {
                                Err(e) => Err(e),
                                Ok(x_new_threshold) => 
                                match required(m, CR_TIMESTAMP, |d: Seq<u8>| u64_of(d)) {
                                    Err(e) => Err(e),
                                    Ok(x_timestamp) => 
                                    match required(m, CR_OPERATOR_SIGNATURE, |d: Seq<u8>| bytes_of(d, 64)) {
                                        Err(e) => Err(e),
                                        Ok(x_operator_signature) => 
                                        Ok(CoordinationResponseMsgView::QuorumMembershipChange { request_hash: x_request_hash, operator_id: x_operator_id, reserves_id: x_reserves_id, change_type: x_change_type, member_pubkey: x_member_pubkey, new_members: x_new_members, new_threshold: x_new_threshold, timestamp: x_timestamp, operator_signature: x_operator_signature }),
                                    },
                                },
                            },
                        },
                    },
                },
            },
        },
    }
}

/// The `AcceptReserves` response held by decoded fields: its fields read in order,
/// the first failure reported.
pub open spec fn cr_accept_reserves_from_fields(m: Map<u64, Seq<u8>>) -> Result<CoordinationResponseMsgView, StreamFault> {
    match required(m, CR_CHANNEL_ID, |d: Seq<u8>| bytes_of(d, 32)) {
        Err(e) => Err(e),
        Ok(x_channel_id) => 
        Ok(CoordinationResponseMsgView::AcceptReserves { channel_id: x_channel_id }),
    }
}

fn decode_cr_invoice_cosigned(reader: &TlvReader) -> (r: TlvResult<CoordinationResponseMsg>)
    ensures
        outcome_view(r, cr_invoice_cosigned_from_fields(reader@)),
{
    let x_request_hash = match reader.read_bytes::<32>(CR_REQUEST_HASH) { Ok(v) => v, Err(e) => { return Err(e); } };
    let request_hash = x_request_hash;
    let x_cosignature = match reader.read_bytes::<64>(CR_COSIGNATURE) { Ok(v) => v, Err(e) => { return Err(e); } };
    let cosignature = x_cosignature;
    Ok(CoordinationResponseMsg::InvoiceCosigned { request_hash, cosignature })
}

fn decode_cr_collateral_consent_response(reader: &TlvReader) -> (r: TlvResult<CoordinationResponseMsg>)
    ensures
        outcome_view(r, cr_collateral_consent_response_from_fields(reader@)),
{
    let x_request_hash = match reader.read_bytes::<32>(CR_REQUEST_HASH) { Ok(v) => v, Err(e) => { return Err(e); } };
    let request_hash = x_request_hash;
    let x_operator_id = match reader.read_pubkey(CR_OPERATOR_ID) { Ok(v) => v, Err(e) => { return Err(e); } };
    let operator_id = x_operator_id;
    let x_reserves_id = match reader.read_string(CR_RESERVES_ID) { Ok(v) => v, Err(e) => { return Err(e); } };
    let reserves_id = x_reserves_id;
    let x_consent_granted = match reader.read_u8(CR_CONSENT_GRANTED) { Ok(v) => v, Err(e) => { return Err(e); } };
    let consent_granted = x_consent_granted != 0;
    let x_quorum_member_signature = match reader.read_bytes::<64>(CR_QUORUM_MEMBER_SIGNATURE) { Ok(v) => v, Err(e) => { return Err(e); } };
    let quorum_member_signature = x_quorum_member_signature;
    Ok(CoordinationResponseMsg::CollateralConsentResponse { request_hash, operator_id, reserves_id, consent_granted, quorum_member_signature })
}

fn decode_cr_quorum_join_response(reader: &TlvReader) -> (r: TlvResult<CoordinationResponseMsg>)
    ensures
        outcome_view(r, cr_quorum_join_response_from_fields(reader@)),
{
    let raw_members = match reader.read_raw(CR_MEMBERS) { Ok(d) => d, Err(e) => { return Err(e); } };
    let members = match decode_keys(raw_members, CR_MEMBERS) { Ok(v) => v, Err(e) => { return Err(e); } };
    let x_request_hash = match reader.read_bytes::<32>(CR_REQUEST_HASH) { Ok(v) => v, Err(e) => { return Err(e); } };
    let request_hash = x_request_hash;
    let x_accepted = match reader.read_u8(CR_ACCEPTED) { Ok(v) => v, Err(e) => { return Err(e); } };
    let accepted = x_accepted != 0;
    let x_threshold = match reader.read_u16(CR_THRESHOLD) { Ok(v) => v, Err(e) => { return Err(e); } };
    let threshold = x_threshold;
    let x_last_sequence = match reader.read_u64(CR_LAST_SEQUENCE) { Ok(v) => v, Err(e) => { return Err(e); } };
    let last_sequence = x_last_sequence;
    let x_content_hash = match reader.read_bytes::<32>(CR_CURRENT_STATE_HASH) { Ok(v) => v, Err(e) => { return Err(e); } };
    let content_hash = x_content_hash;
    let x_rejection_reason = match reader.read_string_opt(CR_REJECTION_REASON) { Ok(v) => v, Err(e) => { return Err(e); } };
    let rejection_reason = x_rejection_reason;
    Ok(CoordinationResponseMsg::QuorumJoinResponse { request_hash, accepted, members, threshold, last_sequence, content_hash, rejection_reason })
}

fn decode_cr_quorum_membership_change(reader: &TlvReader) -> (r: TlvResult<CoordinationResponseMsg>)
    ensures
        outcome_view(r, cr_quorum_membership_change_from_fields(reader@)),
{
    let raw_new_members = match reader.read_raw(CR_NEW_MEMBERS) { Ok(d) => d, Err(e) => { return Err(e); } };
    let new_members = match decode_keys(raw_new_members, CR_NEW_MEMBERS) { Ok(v) => v, Err(e) => { return Err(e); } };
    let x_request_hash = match reader.read_bytes::<32>(CR_REQUEST_HASH) { Ok(v) => v, Err(e) => { return Err(e); } };
    let request_hash = x_request_hash;
    let x_operator_id = match reader.read_pubkey(CR_OPERATOR_ID) { Ok(v) => v, Err(e) => { return Err(e); } };
    let operator_id = x_operator_id;
    let x_reserves_id = match reader.read_string(CR_RESERVES_ID) { Ok(v) => v, Err(e) => { return Err(e); } };
    let reserves_id = x_reserves_id;
    let x_change_type = match reader.read_string(CR_CHANGE_TYPE) { Ok(v) => v, Err(e) => { return Err(e); } };
    let change_type = x_change_type;
    let x_member_pubkey = match reader.read_pubkey(CR_MEMBER_PUBKEY) { Ok(v) => v, Err(e) => { return Err(e); } };
    let member_pubkey = x_member_pubkey;
    let x_new_threshold = match reader.read_u16(CR_NEW_THRESHOLD) { Ok(v) => v, Err(e) => { return Err(e); } };
    let new_threshold = x_new_threshold;
    let x_timestamp = match reader.read_u64(CR_TIMESTAMP) { Ok(v) => v, Err(e) => { return Err(e); } };
    let timestamp = x_timestamp;
    let x_operator_signature = match reader.read_bytes::<64>(CR_OPERATOR_SIGNATURE) { Ok(v) => v, Err(e) => { return Err(e); } };
    let operator_signature = x_operator_signature;
    Ok(CoordinationResponseMsg::QuorumMembershipChange { request_hash, operator_id, reserves_id, change_type, member_pubkey, new_members, new_threshold, timestamp, operator_signature })
}

fn decode_cr_accept_reserves(reader: &TlvReader) -> (r: TlvResult<CoordinationResponseMsg>)
    ensures
        outcome_view(r, cr_accept_reserves_from_fields(reader@)),
{
    let x_channel_id = match reader.read_bytes::<32>(CR_CHANNEL_ID) { Ok(v) => v, Err(e) => { return Err(e); } };
    let channel_id = x_channel_id;
    Ok(CoordinationResponseMsg::AcceptReserves { channel_id })
}

impl TlvEncode for CoordinationResponseMsg {
    open spec fn tlv_bytes(&self) -> Seq<u8> {
        map_bytes(coord_response_fields(*self))
    }

    fn tlv_encode(&self) -> (r: Vec<u8>) {
        proof {
            reveal(put_opt);
        }
        match self {
            CoordinationResponseMsg::InvoiceCosigned { request_hash, cosignature } => {
                let mut b = TlvBuilder::new().u8_field(CR_DISCRIMINANT, 0);
                b = b.bytes_field(CR_REQUEST_HASH, request_hash.as_slice());
                b = b.bytes_field(CR_COSIGNATURE, cosignature.as_slice());
                assert(b@ =~= coord_response_fields(*self));
                b.build()
            },
            CoordinationResponseMsg::CollateralConsentResponse { request_hash, operator_id, reserves_id, consent_granted, quorum_member_signature } => {
                let mut b = TlvBuilder::new().u8_field(CR_DISCRIMINANT, 1);
                b = b.bytes_field(CR_REQUEST_HASH, request_hash.as_slice());
                b = b.pubkey_field(CR_OPERATOR_ID, operator_id);
                b = b.string_field(CR_RESERVES_ID, reserves_id.as_str());
                b = b.u8_field(CR_CONSENT_GRANTED, if *consent_granted { 1 } else { 0 });
                b = b.bytes_field(CR_QUORUM_MEMBER_SIGNATURE, quorum_member_signature.as_slice());
                assert(b@ =~= coord_response_fields(*self));
                b.build()
            },
            CoordinationResponseMsg::QuorumJoinResponse { request_hash, accepted, members, threshold, last_sequence, content_hash, rejection_reason } => {
                let mut b = TlvBuilder::new().u8_field(CR_DISCRIMINANT, 2);
                b = b.bytes_field(CR_REQUEST_HASH, request_hash.as_slice());
                b = b.u8_field(CR_ACCEPTED, if *accepted { 1 } else { 0 });
                b = b.bytes_field(CR_MEMBERS, keys_concat(members).as_slice());
                b = b.u16_field(CR_THRESHOLD, *threshold);
                b = b.u64_field(CR_LAST_SEQUENCE, *last_sequence);
                b = b.bytes_field(CR_CURRENT_STATE_HASH, content_hash.as_slice());
                b = match rejection_reason { Some(v) => b.string_field(CR_REJECTION_REASON, v.as_str()), None => b };
                assert(b@ =~= coord_response_fields(*self));
                b.build()
            },
            CoordinationResponseMsg::QuorumStateSync { request_hash, operator_id, reserves_id, updates, start_sequence, is_final } => {
                let mut b = TlvBuilder::new().u8_field(CR_DISCRIMINANT, 3);
                b = b.bytes_field(CR_REQUEST_HASH, request_hash.as_slice());
                b = b.pubkey_field(CR_OPERATOR_ID, operator_id);
                b = b.string_field(CR_RESERVES_ID, reserves_id.as_str());
                b = b.vec_field(CR_UPDATES, updates.as_slice());
                b = b.u64_field(CR_START_SEQUENCE, *start_sequence);
                b = b.u8_field(CR_IS_FINAL, if *is_final { 1 } else { 0 });
                assert(b@ =~= coord_response_fields(*self));
                b.build()
            },
            CoordinationResponseMsg::QuorumMembershipChange { request_hash, operator_id, reserves_id, change_type, member_pubkey, new_members, new_threshold, timestamp, operator_signature } => {
                let mut b = TlvBuilder::new().u8_field(CR_DISCRIMINANT, 4);
                b = b.bytes_field(CR_REQUEST_HASH, request_hash.as_slice());
                b = b.pubkey_field(CR_OPERATOR_ID, operator_id);
                b = b.string_field(CR_RESERVES_ID, reserves_id.as_str());
                b = b.string_field(CR_CHANGE_TYPE, change_type.as_str());
                b = b.pubkey_field(CR_MEMBER_PUBKEY, member_pubkey);
                b = b.bytes_field(CR_NEW_MEMBERS, keys_concat(new_members).as_slice());
                b = b.u16_field(CR_NEW_THRESHOLD, *new_threshold);
                b = b.u64_field(CR_TIMESTAMP, *timestamp);
                b = b.bytes_field(CR_OPERATOR_SIGNATURE, operator_signature.as_slice());
                assert(b@ =~= coord_response_fields(*self));
                b.build()
            },
            CoordinationResponseMsg::AcceptReserves { channel_id } => {
                let mut b = TlvBuilder::new().u8_field(CR_DISCRIMINANT, 5);
                b = b.bytes_field(CR_CHANNEL_ID, channel_id.as_slice());
                assert(b@ =~= coord_response_fields(*self));
                b.build()
            },
        }
    }
}

/// `r` is what the decoded fields `m` of a quorum state sync give: each
/// field read in order, the first failure reported, the updates decoded as
/// a list.
pub open spec fn cr_quorum_state_sync_decodes(m: Map<u64, Seq<u8>>, r: TlvResult<CoordinationResponseMsg>) -> bool {
    match required(m, CR_REQUEST_HASH, |d: Seq<u8>| bytes_of(d, 32)) {
        Err(f) => r is Err && error_is(r->Err_0, f),
        Ok(request_hash) => match required(m, CR_OPERATOR_ID, |d: Seq<u8>| pubkey_of(d)) {
            Err(f) => r is Err && error_is(r->Err_0, f),
            Ok(operator_id) => match required(m, CR_RESERVES_ID, |d: Seq<u8>| string_of(d)) {
                Err(f) => r is Err && error_is(r->Err_0, f),
                Ok(reserves_id) => if !m.contains_key(CR_UPDATES) {
                    r is Err && error_is(r->Err_0, missing_fault(CR_UPDATES))
                } else {
                    ||| exists|e: TlvError|
                        #[trigger] vec_decode(m[CR_UPDATES], CR_UPDATES, Err::<Vec<SignedLedgerUpdate>, TlvError>(e))
                            && r == Err::<CoordinationResponseMsg, TlvError>(e)
                    ||| exists|us: Vec<SignedLedgerUpdate>|
                        #[trigger] vec_decode(m[CR_UPDATES], CR_UPDATES, Ok::<Vec<SignedLedgerUpdate>, TlvError>(us))
                            && match required(m, CR_START_SEQUENCE, |d: Seq<u8>| u64_of(d)) {
                            Err(f) => r is Err && error_is(r->Err_0, f),
                            Ok(start_sequence) => match required(m, CR_IS_FINAL, |d: Seq<u8>| u8_of(d)) {
                                Err(f) => r is Err && error_is(r->Err_0, f),
                                Ok(b) => r matches Ok(x) && x@ == CoordinationResponseMsgView::QuorumStateSync {
                                    request_hash,
                                    operator_id,
                                    reserves_id,
                                    updates: updates_view(us@),
                                    start_sequence,
                                    is_final: b != 0,
                                },
                            },
                        }
                },
            },
        },
    }
}

/// The coordination response, other than a state sync, held by decoded
/// fields with kind byte `d`.
pub open spec fn cr_from_fields(m: Map<u64, Seq<u8>>, d: u8) -> Result<CoordinationResponseMsgView, StreamFault> {
    if d == 0 {
        cr_invoice_cosigned_from_fields(m)
    } else if d == 1 {
        cr_collateral_consent_response_from_fields(m)
    } else if d == 2 {
        cr_quorum_join_response_from_fields(m)
    } else if d == 4 {
        cr_quorum_membership_change_from_fields(m)
    } else if d == 5 {
        cr_accept_reserves_from_fields(m)
    } else {
        Err(invalid_fault(CR_DISCRIMINANT, "unknown CoordinationResponseMsg discriminant: "@ + decimal_digits(d as nat)))
    }
}

/// `r` is what the decoded fields `m` of a coordination response give.
pub open spec fn coord_response_decodes(m: Map<u64, Seq<u8>>, r: TlvResult<CoordinationResponseMsg>) -> bool {
    match required(m, CR_DISCRIMINANT, |d: Seq<u8>| u8_of(d)) {
        Err(f) => r is Err && error_is(r->Err_0, f),
        Ok(d) => if d == 3 {
            cr_quorum_state_sync_decodes(m, r)
        } else {
            outcome_view(r, cr_from_fields(m, d))
        },
    }
}

#[verifier::rlimit(40)]
fn decode_cr_quorum_state_sync(reader: &TlvReader) -> (r: TlvResult<CoordinationResponseMsg>)
    ensures
        cr_quorum_state_sync_decodes(reader@, r),
{
    let request_hash = match reader.read_bytes::<32>(CR_REQUEST_HASH) {
        Ok(v) => v,
        Err(e) => {
            return Err(e);
        },
    };
    let operator_id = match reader.read_pubkey(CR_OPERATOR_ID) {
        Ok(v) => v,
        Err(e) => {
            return Err(e);
        },
    };
    let reserves_id = match reader.read_string(CR_RESERVES_ID) {
        Ok(v) => v,
        Err(e) => {
            return Err(e);
        },
    };
    let updates = match reader.read_vec::<SignedLedgerUpdate>(CR_UPDATES) {
        Ok(v) => v,
        Err(e) => {
            let r = Err(e);
            assert(cr_quorum_state_sync_decodes(reader@, r));
            return r;
        },
    };
    let ghost us = updates;
    let start_sequence = match reader.read_u64(CR_START_SEQUENCE) {
        Ok(v) => v,
        Err(e) => {
            assert(vec_decode(reader@[CR_UPDATES], CR_UPDATES, Ok::<Vec<SignedLedgerUpdate>, TlvError>(us)));
            return Err(e);
        },
    };
    let b = match reader.read_u8(CR_IS_FINAL) {
        Ok(v) => v,
        Err(e) => {
            assert(vec_decode(reader@[CR_UPDATES], CR_UPDATES, Ok::<Vec<SignedLedgerUpdate>, TlvError>(us)));
            return Err(e);
        },
    };
    assert(vec_decode(reader@[CR_UPDATES], CR_UPDATES, Ok::<Vec<SignedLedgerUpdate>, TlvError>(us)));
    Ok(CoordinationResponseMsg::QuorumStateSync {
        request_hash,
        operator_id,
        reserves_id,
        updates,
        start_sequence,
        is_final: b != 0,
    })
}

impl TlvDecode for CoordinationResponseMsg {
    open spec fn tlv_decodes(data: Seq<u8>, r: TlvResult<Self>) -> bool {
        match stream_parse(data, None) {
            Err(f) => r is Err && error_is(r->Err_0, f),
            Ok(es) => coord_response_decodes(entries_map(es), r),
        }
    }

    fn tlv_decode(data: &[u8]) -> (r: TlvResult<Self>) {
        let reader = match TlvReader::new(data) {
            Ok(r) => r,
            Err(e) => {
                return Err(e);
            },
        };
        let disc = match reader.read_u8(CR_DISCRIMINANT) {
            Ok(d) => d,
            Err(e) => {
                return Err(e);
            },
        };
        match disc {
            0 => decode_cr_invoice_cosigned(&reader),
            1 => decode_cr_collateral_consent_response(&reader),
            2 => decode_cr_quorum_join_response(&reader),
            3 => decode_cr_quorum_state_sync(&reader),
            4 => decode_cr_quorum_membership_change(&reader),
            5 => decode_cr_accept_reserves(&reader),
            d => {
                let reason = text_with_number("unknown CoordinationResponseMsg discriminant: ", d as u64, "");
                proof {
                    reveal_strlit("");
                    assert(reason@ =~= "unknown CoordinationResponseMsg discriminant: "@ + decimal_digits(d as nat));
                }
                Err(TlvError::InvalidFieldValue { field_type: CR_DISCRIMINANT, reason })
            },
        }
    }
}

impl CoordinationResponseMsg {
    /// The reserves identifier the response names, for the kinds that name
    /// one.
    pub fn reserves_id(&self) -> (r: Option<String>)
        ensures
            match self {
                CoordinationResponseMsg::CollateralConsentResponse { reserves_id, .. } => r == Some(*reserves_id),
                CoordinationResponseMsg::QuorumStateSync { reserves_id, .. } => r == Some(*reserves_id),
                CoordinationResponseMsg::QuorumMembershipChange { reserves_id, .. } => r == Some(*reserves_id),
                _ => r is None,
            },
    {
        match self {
            CoordinationResponseMsg::InvoiceCosigned { .. } => None,
            CoordinationResponseMsg::CollateralConsentResponse { reserves_id, .. } => Some(reserves_id.clone()),
            CoordinationResponseMsg::QuorumJoinResponse { .. } => None,
            CoordinationResponseMsg::QuorumStateSync { reserves_id, .. } => Some(reserves_id.clone()),
            CoordinationResponseMsg::QuorumMembershipChange { reserves_id, .. } => Some(reserves_id.clone()),
            CoordinationResponseMsg::AcceptReserves { .. } => None,
        }
    }
}

} // verus!
