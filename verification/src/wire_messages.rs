//! Peer messages about the reserves outputs of a commitment, with their TLV
//! and binary encodings.

use vstd::prelude::*;
use vstd::utf8::{encode_utf8, encode_utf8_decode_utf8, encode_utf8_valid_utf8};

use crate::bytes::{copy_range, extend_bytes, lemma_u64_be, u16_be, u64_be};
use crate::codec::{
    length_prefixed, rd_pubkey, rd_string, rd_u16, rd_u64, rd_u8, read_bool, read_is_view,
    read_pubkey, read_string, read_u16, read_u64, write_bool, write_pubkey, write_string,
    write_u16, write_u64, CodecError, Read,
};
use crate::operation_binary::BinaryCodec;
use crate::pubkey::{is_valid_key, secp256k1_parse, PublicKey};
use crate::records::parse_with;
use crate::responses::{keys_bytes, keys_concat, keys_view, rd_keys, read_keys_n};
use crate::session::flag_byte;
use crate::text::concat_text;
use crate::types::FeeStructure;
use crate::tlv::{
    entries_map, error_is, invalid_fault, lemma_finite_map_sorted, lemma_map_roundtrip,
    map_bytes, map_within_limit, missing_fault, outcome_view, pubkey_of, required,
    stream_parse, string_of, u64_of, u8_of, StreamFault, TlvBuilder, TlvDecode, TlvEncode,
    TlvError, TlvReader, TlvResult, MAX_TLV_VALUE_LENGTH,
};

verus! {

// ============================================================================
// Adding a reserves output
// ============================================================================

/// Field types of an encoded [`ReservesAddOutputMsg`].
pub const ADD_OUTPUT_INITIAL_AMOUNT: u64 = 0;
pub const ADD_OUTPUT_SPEND_TO: u64 = 2;
pub const ADD_OUTPUT_RESERVES_ID: u64 = 4;
pub const ADD_OUTPUT_QUORUM_MEMBERS: u64 = 6;

/// Asks a peer to add a reserves output to the commitment.
#[derive(Clone, Debug, PartialEq, Eq)]
pub struct ReservesAddOutputMsg {
    pub initial_amount: u64,
    pub spend_to: PublicKey,
    pub reserves_id: String,
    pub quorum_members: Vec<PublicKey>,
}

/// A request to add a reserves output as plain values.
pub struct ReservesAddOutputMsgView {
    pub initial_amount: u64,
    pub spend_to: Seq<u8>,
    pub reserves_id: Seq<char>,
    pub quorum_members: Seq<Seq<u8>>,
}

impl View for ReservesAddOutputMsg {
    type V = ReservesAddOutputMsgView;

    open spec fn view(&self) -> ReservesAddOutputMsgView {
        ReservesAddOutputMsgView {
            initial_amount: self.initial_amount,
            spend_to: self.spend_to@,
            reserves_id: self.reserves_id@,
            quorum_members: keys_view(self.quorum_members@),
        }
    }
}

/// The fields of an encoded request to add a reserves output; the members
/// travel as their key encodings, concatenated.
pub open spec fn add_output_fields(v: ReservesAddOutputMsgView) -> Map<u64, Seq<u8>> {
    Map::empty().insert(ADD_OUTPUT_INITIAL_AMOUNT, u64_be(v.initial_amount)).insert(
        ADD_OUTPUT_SPEND_TO,
        v.spend_to,
    ).insert(ADD_OUTPUT_RESERVES_ID, encode_utf8(v.reserves_id)).insert(
        ADD_OUTPUT_QUORUM_MEMBERS,
        keys_bytes(v.quorum_members),
    )
}

/// The keys in consecutive chunks of 33 bytes of `d`, the last chunk
/// possibly shorter; the first chunk that is no key is an error.
pub open spec fn chunk_keys_of(d: Seq<u8>, field_type: u64) -> Result<Seq<Seq<u8>>, StreamFault>
    decreases d.len(),
{
    if d.len() == 0 {
        Ok(seq![])
    } else {
        let n: int = if d.len() < 33 {
            d.len() as int
        } else {
            33
        };
        match secp256k1_parse(d.take(n)) {
            None => Err(invalid_fault(field_type, "invalid pubkey: malformed public key"@)),
            Some(k) => match chunk_keys_of(d.skip(n), field_type) {
                Ok(ks) => Ok(seq![k] + ks),
                Err(f) => Err(f),
            },
        }
    }
}

/// The request held by decoded fields: the members first, then the other
/// fields in order, the first failure reported.
pub open spec fn add_output_from_fields(m: Map<u64, Seq<u8>>) -> Result<
    ReservesAddOutputMsgView,
    StreamFault,
> {
    if !m.contains_key(ADD_OUTPUT_QUORUM_MEMBERS) {
        Err(missing_fault(ADD_OUTPUT_QUORUM_MEMBERS))
    } else {
        match chunk_keys_of(m[ADD_OUTPUT_QUORUM_MEMBERS], ADD_OUTPUT_QUORUM_MEMBERS) {
            Err(f) => Err(f),
            Ok(ks) => {
                let a = required(m, ADD_OUTPUT_INITIAL_AMOUNT, |d: Seq<u8>| u64_of(d));
                let b = required(m, ADD_OUTPUT_SPEND_TO, |d: Seq<u8>| pubkey_of(d));
                let c = required(m, ADD_OUTPUT_RESERVES_ID, |d: Seq<u8>| string_of(d));
                if a is Err {
                    Err(a->Err_0)
                } else if b is Err {
                    Err(b->Err_0)
                } else if c is Err {
                    Err(c->Err_0)
                } else {
                    Ok(
                        ReservesAddOutputMsgView {
                            initial_amount: a->Ok_0,
                            spend_to: b->Ok_0,
                            reserves_id: c->Ok_0,
                            quorum_members: ks,
                        },
                    )
                }
            },
        }
    }
}

/// Reads keys from consecutive chunks of 33 bytes, the last possibly
/// shorter.
fn decode_key_chunks(d: &[u8], field_type: u64) -> (r: TlvResult<Vec<PublicKey>>)
    ensures
        match chunk_keys_of(d@, field_type) {
            Ok(ks) => r is Ok && keys_view(r->Ok_0@) == ks,
            Err(f) => r is Err && error_is(r->Err_0, f),
        },
{
    let mut out: Vec<PublicKey> = Vec::new();
    let mut pos: usize = 0;
    assert(d@.skip(0) =~= d@);
    assert(keys_view(out@) =~= Seq::<Seq<u8>>::empty());
    while pos < d.len()
        invariant
            pos <= d@.len(),
            chunk_keys_of(d@, field_type) == (match chunk_keys_of(d@.skip(pos as int), field_type) {
                Ok(ks) => Ok(keys_view(out@) + ks),
                Err(f) => Err(f),
            }),
        decreases d@.len() - pos,
    {
        let end: usize = if d.len() - pos < 33 {
            d.len()
        } else {
            pos + 33
        };
        let chunk = copy_range(d, pos, end);
        assert(chunk@ =~= d@.skip(pos as int).take(end - pos));
        assert(d@.skip(pos as int).skip(end - pos) =~= d@.skip(end as int));
        let k = match PublicKey::from_slice(chunk.as_slice()) {
            Ok(k) => k,
            Err(e) => {
                let reason = concat_text("invalid pubkey: ", e.as_str());
                proof {
                    reveal_strlit("invalid pubkey: malformed public key");
                    reveal_strlit("invalid pubkey: ");
                    reveal_strlit("malformed public key");
                    assert(reason@ =~= "invalid pubkey: malformed public key"@);
                }
                return Err(TlvError::InvalidFieldValue { field_type, reason });
            },
        };
        proof {
            assert(keys_view(out@.push(k)) =~= keys_view(out@).push(k@));
            match chunk_keys_of(d@.skip(end as int), field_type) {
                Ok(ks) => {
                    assert(keys_view(out@) + (seq![k@] + ks) =~= keys_view(out@).push(k@) + ks);
                },
                Err(_) => {},
            }
        }
        out.push(k);
        pos = end;
    }
    assert(d@.skip(pos as int) =~= Seq::<u8>::empty());
    assert(keys_view(out@) + Seq::<Seq<u8>>::empty() =~= keys_view(out@));
    Ok(out)
}

impl TlvEncode for ReservesAddOutputMsg {
    open spec fn tlv_bytes(&self) -> Seq<u8> {
        map_bytes(add_output_fields(self@))
    }

    fn tlv_encode(&self) -> (r: Vec<u8>) {
        let members = keys_concat(&self.quorum_members);
        let b = TlvBuilder::new().u64_field(ADD_OUTPUT_INITIAL_AMOUNT, self.initial_amount).pubkey_field(
            ADD_OUTPUT_SPEND_TO,
            &self.spend_to,
        ).string_field(ADD_OUTPUT_RESERVES_ID, self.reserves_id.as_str()).bytes_field(
            ADD_OUTPUT_QUORUM_MEMBERS,
            members.as_slice(),
        );
        assert(b@ =~= add_output_fields(self@));
        b.build()
    }
}

impl TlvDecode for ReservesAddOutputMsg {
    open spec fn tlv_decodes(data: Seq<u8>, r: TlvResult<Self>) -> bool {
        outcome_view(r, parse_with(data, |m: Map<u64, Seq<u8>>| add_output_from_fields(m)))
    }

    fn tlv_decode(data: &[u8]) -> (r: TlvResult<Self>) {
        let reader = match TlvReader::new(data) {
            Ok(r) => r,
            Err(e) => {
                return Err(e);
            },
        };
        let raw = match reader.read_raw(ADD_OUTPUT_QUORUM_MEMBERS) {
            Ok(d) => d,
            Err(e) => {
                return Err(e);
            },
        };
        let quorum_members = match decode_key_chunks(raw, ADD_OUTPUT_QUORUM_MEMBERS) {
            Ok(ks) => ks,
            Err(e) => {
                return Err(e);
            },
        };
        let initial_amount = match reader.read_u64(ADD_OUTPUT_INITIAL_AMOUNT) {
            Ok(v) => v,
            Err(e) => {
                return Err(e);
            },
        };
        let spend_to = match reader.read_pubkey(ADD_OUTPUT_SPEND_TO) {
            Ok(v) => v,
            Err(e) => {
                return Err(e);
            },
        };
        let reserves_id = match reader.read_string(ADD_OUTPUT_RESERVES_ID) {
            Ok(v) => v,
            Err(e) => {
                return Err(e);
            },
        };
        Ok(ReservesAddOutputMsg { initial_amount, spend_to, reserves_id, quorum_members })
    }
}

/// The concatenated encodings of valid keys split back into those keys.
pub proof fn lemma_chunk_keys_roundtrip(ks: Seq<Seq<u8>>, field_type: u64)
    requires
        forall|i: int| #![trigger ks[i]] 0 <= i < ks.len() ==> is_valid_key(ks[i]) && ks[i].len() == 33,
    ensures
        chunk_keys_of(keys_bytes(ks), field_type) == Ok::<Seq<Seq<u8>>, StreamFault>(ks),
    decreases ks.len(),
{
    if ks.len() > 0 {
        let rest = ks.drop_first();
        assert(forall|i: int| 0 <= i < rest.len() ==> rest[i] == ks[i + 1]);
        lemma_chunk_keys_roundtrip(rest, field_type);
        lemma_keys_bytes_front(ks);
        let d = keys_bytes(ks);
        assert(is_valid_key(ks[0]) && ks[0].len() == 33);
        assert(d.take(33) =~= ks[0]);
        assert(d.skip(33) =~= keys_bytes(rest));
        assert(seq![ks[0]] + rest =~= ks);
    } else {
        assert(ks =~= Seq::<Seq<u8>>::empty());
    }
}

/// The concatenation of key encodings starts with the first one.
pub proof fn lemma_keys_bytes_front(ks: Seq<Seq<u8>>)
    requires
        ks.len() > 0,
    ensures
        keys_bytes(ks) == ks[0] + keys_bytes(ks.drop_first()),
    decreases ks.len(),
{
    if ks.len() > 1 {
        lemma_keys_bytes_front(ks.drop_last());
        assert(ks.drop_last().drop_first() =~= ks.drop_first().drop_last());
        assert(ks.drop_first().last() == ks.last());
        assert(ks.drop_last()[0] == ks[0]);
    } else {
        assert(ks.drop_last() =~= Seq::<Seq<u8>>::empty());
        assert(ks.drop_first() =~= Seq::<Seq<u8>>::empty());
    }
}

/// The length of concatenated 33-byte key encodings.
pub proof fn lemma_keys_bytes_len(ks: Seq<Seq<u8>>)
    requires
        forall|i: int| 0 <= i < ks.len() ==> (#[trigger] ks[i]).len() == 33,
    ensures
        keys_bytes(ks).len() == 33 * ks.len(),
    decreases ks.len(),
{
    if ks.len() > 0 {
        let p = ks.drop_last();
        assert(forall|i: int| 0 <= i < p.len() ==> p[i] == ks[i]);
        lemma_keys_bytes_len(p);
    }
}

/// Decoding the encoding of a request to add a reserves output gives it
/// back, wherever its keys are valid and its fields fit a TLV value.
pub proof fn lemma_add_output_roundtrip(v: ReservesAddOutputMsgView)
    requires
        is_valid_key(v.spend_to),
        v.spend_to.len() == 33,
        forall|i: int|
            #![trigger v.quorum_members[i]]
            0 <= i < v.quorum_members.len() ==> is_valid_key(v.quorum_members[i])
                && v.quorum_members[i].len() == 33,
        encode_utf8(v.reserves_id).len() <= MAX_TLV_VALUE_LENGTH,
        33 * v.quorum_members.len() <= MAX_TLV_VALUE_LENGTH,
    ensures
        parse_with(map_bytes(add_output_fields(v)), |m: Map<u64, Seq<u8>>| add_output_from_fields(m))
            == Ok::<ReservesAddOutputMsgView, StreamFault>(v),
{
    let m = add_output_fields(v);
    lemma_finite_map_sorted(m);
    lemma_u64_be(v.initial_amount, seq![]);
    lemma_keys_bytes_len(v.quorum_members);
    lemma_chunk_keys_roundtrip(v.quorum_members, ADD_OUTPUT_QUORUM_MEMBERS);
    encode_utf8_valid_utf8(v.reserves_id);
    encode_utf8_decode_utf8(v.reserves_id);
    assert(map_within_limit(m));
    lemma_map_roundtrip(m);
}

/// The binary encoding of a request to add a reserves output: the member
/// count travels as a `u16` (truncated).
pub open spec fn add_output_binary(v: ReservesAddOutputMsgView) -> Seq<u8> {
    u64_be(v.initial_amount) + v.spend_to + length_prefixed(encode_utf8(v.reserves_id)) + u16_be(
        v.quorum_members.len() as u16,
    ) + keys_bytes(v.quorum_members)
}

/// Reading a request to add a reserves output.
pub open spec fn rd_add_output(s: Seq<u8>) -> Read<ReservesAddOutputMsgView> {
    let (a, s1) = rd_u64(s);
    if a is Err {
        (Err(a->Err_0), s1)
    } else {
        let (b, s2) = rd_pubkey(s1);
        if b is Err {
            (Err(b->Err_0), s2)
        } else {
            let (c, s3) = rd_string(s2);
            if c is Err {
                (Err(c->Err_0), s3)
            } else {
                let (n, s4) = rd_u16(s3);
                if n is Err {
                    (Err(n->Err_0), s4)
                } else {
                    let (ks, s5) = rd_keys(s4, n->Ok_0 as nat);
                    if ks is Err {
                        (Err(ks->Err_0), s5)
                    } else {
                        (
                            Ok(
                                ReservesAddOutputMsgView {
                                    initial_amount: a->Ok_0,
                                    spend_to: b->Ok_0,
                                    reserves_id: c->Ok_0,
                                    quorum_members: ks->Ok_0,
                                },
                            ),
                            s5,
                        )
                    }
                }
            }
        }
    }
}

impl BinaryCodec for ReservesAddOutputMsg {
    open spec fn binary_of(v: ReservesAddOutputMsgView) -> Seq<u8> {
        add_output_binary(v)
    }

    open spec fn binary_read(s: Seq<u8>) -> Read<ReservesAddOutputMsgView> {
        rd_add_output(s)
    }

    fn write_to(&self, w: &mut Vec<u8>) -> (r: Result<(), CodecError>) {
        write_u64(w, self.initial_amount);
        write_pubkey(w, &self.spend_to);
        write_string(w, self.reserves_id.as_str());
        write_u16(w, self.quorum_members.len() as u16);
        let members = keys_concat(&self.quorum_members);
        extend_bytes(w, members.as_slice());
        assert(w@ =~= old(w)@ + add_output_binary(self@));
        Ok(())
    }

    fn read_from(data: &[u8], pos: &mut usize) -> (r: Result<Self, CodecError>) {
        let initial_amount = match read_u64(data, pos) {
            Ok(v) => v,
            Err(e) => {
                return Err(e);
            },
        };
        let spend_to = match read_pubkey(data, pos) {
            Ok(v) => v,
            Err(e) => {
                return Err(e);
            },
        };
        let reserves_id = match read_string(data, pos) {
            Ok(v) => v,
            Err(e) => {
                return Err(e);
            },
        };
        let count = match read_u16(data, pos) {
            Ok(v) => v,
            Err(e) => {
                return Err(e);
            },
        };
        let quorum_members = match read_keys_n(data, pos, count as u32) {
            Ok(v) => v,
            Err(e) => {
                return Err(e);
            },
        };
        Ok(ReservesAddOutputMsg { initial_amount, spend_to, reserves_id, quorum_members })
    }
}

// ============================================================================
// Removing a reserves output
// ============================================================================

/// Field types of an encoded [`ReservesRemoveOutputMsg`].
pub const REMOVE_OUTPUT_RESERVES_ID: u64 = 0;
pub const REMOVE_OUTPUT_REMOVE_ALL: u64 = 2;

/// Asks a peer to remove a reserves output from the commitment.
#[derive(Clone, Debug, PartialEq, Eq)]
pub struct ReservesRemoveOutputMsg {
    pub reserves_id: String,
    pub remove_all: bool,
}

/// A request to remove a reserves output as plain values.
pub struct ReservesRemoveOutputMsgView {
    pub reserves_id: Seq<char>,
    pub remove_all: bool,
}

impl View for ReservesRemoveOutputMsg {
    type V = ReservesRemoveOutputMsgView;

    open spec fn view(&self) -> ReservesRemoveOutputMsgView {
        ReservesRemoveOutputMsgView { reserves_id: self.reserves_id@, remove_all: self.remove_all }
    }
}

/// The fields of an encoded request to remove a reserves output.
pub open spec fn remove_output_fields(v: ReservesRemoveOutputMsgView) -> Map<u64, Seq<u8>> {
    Map::empty().insert(REMOVE_OUTPUT_RESERVES_ID, encode_utf8(v.reserves_id)).insert(
        REMOVE_OUTPUT_REMOVE_ALL,
        seq![flag_byte(v.remove_all)],
    )
}

/// The request held by decoded fields; any non-zero flag byte means all.
pub open spec fn remove_output_from_fields(m: Map<u64, Seq<u8>>) -> Result<
    ReservesRemoveOutputMsgView,
    StreamFault,
> {
    let a = required(m, REMOVE_OUTPUT_RESERVES_ID, |d: Seq<u8>| string_of(d));
    let b = required(m, REMOVE_OUTPUT_REMOVE_ALL, |d: Seq<u8>| u8_of(d));
    if a is Err {
        Err(a->Err_0)
    } else if b is Err {
        Err(b->Err_0)
    } else {
        Ok(ReservesRemoveOutputMsgView { reserves_id: a->Ok_0, remove_all: b->Ok_0 != 0 })
    }
}

impl TlvEncode for ReservesRemoveOutputMsg {
    open spec fn tlv_bytes(&self) -> Seq<u8> {
        map_bytes(remove_output_fields(self@))
    }

    fn tlv_encode(&self) -> (r: Vec<u8>) {
        let b = TlvBuilder::new().string_field(REMOVE_OUTPUT_RESERVES_ID, self.reserves_id.as_str()).u8_field(
            REMOVE_OUTPUT_REMOVE_ALL,
            if self.remove_all {
                1
            } else {
                0
            },
        );
        assert(b@ =~= remove_output_fields(self@));
        b.build()
    }
}

impl TlvDecode for ReservesRemoveOutputMsg {
    open spec fn tlv_decodes(data: Seq<u8>, r: TlvResult<Self>) -> bool {
        outcome_view(r, parse_with(data, |m: Map<u64, Seq<u8>>| remove_output_from_fields(m)))
    }

    fn tlv_decode(data: &[u8]) -> (r: TlvResult<Self>) {
        let reader = match TlvReader::new(data) {
            Ok(r) => r,
            Err(e) => {
                return Err(e);
            },
        };
        let reserves_id = match reader.read_string(REMOVE_OUTPUT_RESERVES_ID) {
            Ok(v) => v,
            Err(e) => {
                return Err(e);
            },
        };
        let flag = match reader.read_u8(REMOVE_OUTPUT_REMOVE_ALL) {
            Ok(v) => v,
            Err(e) => {
                return Err(e);
            },
        };
        Ok(ReservesRemoveOutputMsg { reserves_id, remove_all: flag != 0 })
    }
}

/// Decoding the encoding of a request to remove a reserves output gives it
/// back, wherever its identifier fits a TLV value.
pub proof fn lemma_remove_output_roundtrip(v: ReservesRemoveOutputMsgView)
    requires
        encode_utf8(v.reserves_id).len() <= MAX_TLV_VALUE_LENGTH,
    ensures
        parse_with(map_bytes(remove_output_fields(v)), |m: Map<u64, Seq<u8>>| remove_output_from_fields(m))
            == Ok::<ReservesRemoveOutputMsgView, StreamFault>(v),
{
    let m = remove_output_fields(v);
    lemma_finite_map_sorted(m);
    encode_utf8_valid_utf8(v.reserves_id);
    encode_utf8_decode_utf8(v.reserves_id);
    assert(map_within_limit(m));
    lemma_map_roundtrip(m);
}

/// The binary encoding of a request to remove a reserves output.
pub open spec fn remove_output_binary(v: ReservesRemoveOutputMsgView) -> Seq<u8> {
    length_prefixed(encode_utf8(v.reserves_id)) + seq![flag_byte(v.remove_all)]
}

/// Reading a request to remove a reserves output.
pub open spec fn rd_remove_output(s: Seq<u8>) -> Read<ReservesRemoveOutputMsgView> {
    let (a, s1) = rd_string(s);
    if a is Err {
        (Err(a->Err_0), s1)
    } else {
        let (b, s2) = rd_u8(s1);
        if b is Err {
            (Err(b->Err_0), s2)
        } else {
            (Ok(ReservesRemoveOutputMsgView { reserves_id: a->Ok_0, remove_all: b->Ok_0 != 0 }), s2)
        }
    }
}

impl BinaryCodec for ReservesRemoveOutputMsg {
    open spec fn binary_of(v: ReservesRemoveOutputMsgView) -> Seq<u8> {
        remove_output_binary(v)
    }

    open spec fn binary_read(s: Seq<u8>) -> Read<ReservesRemoveOutputMsgView> {
        rd_remove_output(s)
    }

    fn write_to(&self, w: &mut Vec<u8>) -> (r: Result<(), CodecError>) {
        write_string(w, self.reserves_id.as_str());
        write_bool(w, self.remove_all);
        assert(w@ =~= old(w)@ + remove_output_binary(self@));
        Ok(())
    }

    fn read_from(data: &[u8], pos: &mut usize) -> (r: Result<Self, CodecError>) {
        let reserves_id = match read_string(data, pos) {
            Ok(v) => v,
            Err(e) => {
                return Err(e);
            },
        };
        let remove_all = match read_bool(data, pos) {
            Ok(v) => v,
            Err(e) => {
                return Err(e);
            },
        };
        Ok(ReservesRemoveOutputMsg { reserves_id, remove_all })
    }
}


// ============================================================================
// Handler parameter messages
// ============================================================================

/// reserves update output message
#[derive(Clone, Debug, PartialEq, Eq)]
pub struct ReservesUpdateOutputMsg {
    pub reserves_id: String,
    pub spend_to: PublicKey,
}

// ============================================================================
// Reserves Commitment Protocol Messages
// ============================================================================

/// UpdateReserves message - sent to propose reserves commitment to counterparty
///
/// This custom message is sent after calling propose_extra_outputs() on the
/// ChannelManager to notify the counterparty of the proposed extra outputs.
/// The counterparty should respond with AcceptReserves after validation.
#[derive(Clone, Debug, PartialEq, Eq)]
pub struct UpdateReservesMsg {
    /// The Lightning channel ID
    pub channel_id: [u8; 32],
    /// Reserves amount in satoshis
    pub reserves_sats: u64,
    /// The script pubkey for the reserves output
    pub script_pubkey: Vec<u8>,
    /// Our ledger hash being committed
    pub ledger_hash: [u8; 32],
    /// Remote ledger hash for bidirectional verification
    pub remote_ledger_hash: [u8; 32],
}

/// AcceptReserves message - response to UpdateReserves indicating acceptance
///
/// Sent by the counterparty after validating and accepting the proposed
/// reserves commitment via accept_extra_outputs_proposal().
#[derive(Clone, Debug, PartialEq, Eq)]
pub struct AcceptReservesMsg {
    /// The Lightning channel ID
    pub channel_id: [u8; 32],
}

// ============================================================================
// Deposit Messages
// ============================================================================

/// deposit open message
#[derive(Clone, Debug, PartialEq, Eq)]
pub struct DepositOpenMsg {
    pub reserves_id: String,
    pub pubkey: PublicKey,
    pub fees: Option<FeeStructure>,
    pub payment_hash: Option<[u8; 32]>,
    pub invoice: Option<String>,
    pub cosigner_guarantee_signature: Option<[u8; 64]>,
}

/// deposit close message
#[derive(Clone, Debug, PartialEq, Eq)]
pub struct DepositCloseMsg {
    pub reserves_id: String,
    pub pubkey: PublicKey,
}

/// fee change message
#[derive(Clone, Debug, PartialEq, Eq)]
pub struct FeeChangeMsg {
    pub reserves_id: String,
    pub pubkey: PublicKey,
    pub new_fees: FeeStructure,
}

// ============================================================================
// Fee and Ledger Close Messages
// ============================================================================

/// fee collect message
#[derive(Clone, Debug, PartialEq, Eq)]
pub struct FeeCollectMsg {
    pub pubkey: PublicKey,
    pub amount: u64,
    pub block_height: u32,
}

/// ledger close message
#[derive(Clone, Debug, PartialEq, Eq)]
pub struct LedgerCloseMsg {
    pub reserves_id: String,
}

// ============================================================================
// Payment Messages
// ============================================================================

/// receiving credit payment message
#[derive(Clone, Debug, PartialEq, Eq)]
pub struct ReceivingCreditPaymentMsg {
    pub payment_hash: [u8; 32],
    pub deposit_pubkey: PublicKey,
    pub amount: u64,
    pub invoice_id: String,
    pub reserves_id: String,
    pub sequence_number: u64,
}

/// sending lock payment message
#[derive(Clone, Debug, PartialEq, Eq)]
pub struct SendingLockPaymentMsg {
    pub pubkey: PublicKey,
    pub amount: u64,
    pub payment_id: [u8; 32],
    pub sequence_number: u64,
    pub scriptpubkey_signature: [u8; 64],
}

/// sending fail payment message
#[derive(Clone, Debug, PartialEq, Eq)]
pub struct SendingFailPaymentMsg {
    pub pubkey: PublicKey,
    pub amount: u64,
    pub payment_id: [u8; 32],
    pub sequence_number: u64,
}

/// sending fulfill payment message
#[derive(Clone, Debug, PartialEq, Eq)]
pub struct SendingFulfillPaymentMsg {
    pub pubkey: PublicKey,
    pub amount: u64,
    pub payment_id: [u8; 32],
    pub sequence_number: u64,
    pub scriptpubkey_signature: [u8; 64],
    pub preimage: [u8; 32],
}

/// receiving cosign invoice message
#[derive(Clone, Debug, PartialEq, Eq)]
pub struct ReceivingCosignInvoiceMsg {
    pub amount: u64,
    pub payment_hash: [u8; 32],
    pub expires: u64,
    pub assigned_deposit: PublicKey,
    pub invoice_id: String,
    pub bolt11: String,
}

// ============================================================================
// Collateral Messages
// ============================================================================

/// quorum add member message
#[derive(Clone, Debug, PartialEq, Eq)]
pub struct QuorumAddMemberMsg {
    pub operator_id: PublicKey,
    pub reserves_id: String,
    pub quorum_member: PublicKey,
    pub quorum_member_signature: [u8; 64],
    /// The ledger ID where this member will lock collateral
    pub member_ledger_id: String,
}

/// quorum remove member message
#[derive(Clone, Debug, PartialEq, Eq)]
pub struct QuorumRemoveMemberMsg {
    pub reserves_id: String,
    pub quorum_member: PublicKey,
    pub operator_signature: [u8; 64],
}

/// collateral consent request message
#[derive(Clone, Debug, PartialEq, Eq)]
pub struct CollateralConsentRequestMsg {
    pub operator_id: PublicKey,
    pub reserves_id: String,
    pub operator_signature: [u8; 64],
}

/// collateral consent response message
#[derive(Clone, Debug, PartialEq, Eq)]
pub struct CollateralConsentResponseMsg {
    pub operator_id: PublicKey,
    pub reserves_id: String,
    pub consent_granted: bool,
    pub quorum_member_signature: [u8; 64],
}

// ============================================================================
// Sync Messages
// ============================================================================

/// sync request message
#[derive(Clone, Debug, PartialEq, Eq)]
pub struct SyncRequestMsg {
    pub ledger_id: [u8; 32],
    pub last_known_sequence: u64,
}

// ============================================================================
// Quorum Messages
// ============================================================================

/// quorum join request message
#[derive(Clone, Debug, PartialEq, Eq)]
pub struct QuorumJoinRequestMsgWire {
    pub requester_pubkey: PublicKey,
    pub operator_id: PublicKey,
    pub reserves_id: String,
    pub protocol_version: u16,
    pub timestamp: u64,
    pub signature: [u8; 64],
    /// Member's proposed compensation rate (bips of collected fees). See
    /// `DEFAULT_COMPENSATION_BPS` and `CoordinationMsg::QuorumJoinRequest`.
    pub compensation_bps: Option<u16>,
    pub compensation_deposit_id: Option<[u8; 16]>,
    pub compensation_frequency_blocks: Option<u32>,
}

/// quorum join response message
#[derive(Clone, Debug, PartialEq, Eq)]
pub struct QuorumJoinResponseMsgWire {
    pub accepted: bool,
    pub members: Vec<PublicKey>,
    pub threshold: u16,
    pub last_sequence: u64,
    pub content_hash: [u8; 32],
    pub rejection_reason: Option<String>,
}

/// quorum membership change message
#[derive(Clone, Debug, PartialEq, Eq)]
pub struct QuorumMembershipChangeMsg {
    pub operator_id: PublicKey,
    pub reserves_id: String,
    pub change_type: String,
    pub member_pubkey: PublicKey,
    pub new_members: Vec<PublicKey>,
}

/// quorum state sync message
#[derive(Clone, Debug, PartialEq, Eq)]
pub struct QuorumStateSyncMsg {
    pub operator_id: PublicKey,
    pub reserves_id: String,
    pub updates: Vec<Vec<u8>>,
    pub start_sequence: u64,
    pub is_final: bool,
}

/// quorum vote request message
#[derive(Clone, Debug, PartialEq, Eq)]
pub struct QuorumVoteRequestMsg {
    pub operator_id: PublicKey,
    pub reserves_id: String,
    pub vote_round_id: [u8; 32],
    pub sequence_number: u64,
    pub state_hash: [u8; 32],
    pub claimed_reserves: u64,
    pub collateral_amounts: Vec<u64>,
    pub reserves_outpoint: Vec<u8>,
    pub destination_script: Vec<u8>,
    pub fee_rate_sat_vbyte: u64,
}

/// quorum vote message
#[derive(Clone, Debug, PartialEq, Eq)]
pub struct QuorumVoteMsgWire {
    pub vote_round_id: [u8; 32],
    pub voter_pubkey: PublicKey,
    pub vote: bool,
    pub voter_sequence: u64,
    pub voter_state_hash: [u8; 32],
    pub evidence: Option<Vec<u8>>,
    pub signature: [u8; 64],
    pub spend_signature: Option<[u8; 64]>,
}

// ============================================================================
// Ledger Export Messages
// ============================================================================

/// Request to export a ledger for validation.
///
/// Sent by a partner or quorum member to request the complete ledger
/// history from the operator for conformance validation.
#[derive(Clone, Debug, PartialEq, Eq)]
pub struct LedgerExportRequestMsg {
    /// Operator's public key.
    pub operator_id: PublicKey,
    /// Reserves identifier for the ledger.
    pub reserves_id: String,
    /// Optional: only return updates after this sequence number.
    pub from_sequence: Option<u64>,
    /// Current block height (for export timestamp).
    pub block_height: u32,
}

/// Response containing the ledger export data.
///
/// Contains the complete ledger history for validation, including
/// all signed updates and current state information.
#[derive(Clone, Debug, PartialEq, Eq)]
pub struct LedgerExportResponseMsg {
    /// Operator's public key.
    pub operator_id: PublicKey,
    /// Reserves identifier for the ledger.
    pub reserves_id: String,
    /// Protocol version.
    pub version: u32,
    /// Export timestamp.
    pub exported_at: u64,
    /// Block height at export time.
    pub block_height: u32,
    /// Number of updates included.
    pub update_count: u32,
    /// Serialized updates (each update is length-prefixed).
    pub updates_data: Vec<u8>,
    /// Whether export was successful.
    pub success: bool,
    /// Error message if export failed.
    pub error_message: Option<String>,
}

} // verus!
