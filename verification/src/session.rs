//! Session messages exchanged between a ledger's operator and its partner:
//! handshake, sync and the ledger-update envelope, with their TLV encodings.

use vstd::prelude::*;
use vstd::utf8::{encode_utf8, encode_utf8_decode_utf8, encode_utf8_valid_utf8};

use crate::bytes::{lemma_u16_be, lemma_u32_be, lemma_u64_be, u16_be, u32_be, u64_be};
use crate::codec::{
    length_prefixed, rd_exact, rd_pubkey, rd_string, rd_u64, read_32, read_64, read_is_view,
    read_pubkey, read_string, read_u64, write_32, write_64, write_pubkey, write_string,
    write_u64, CodecError, Read,
};
use crate::operation::{opt_bytes, opt_text, LedgerOperation, OperationView};
use crate::operation_binary::{operation_binary, operation_binary_read, BinaryCodec};
use crate::operation_laws::{lemma_operation_tlv_roundtrip, operation_fits};
use crate::operation_tlv::operation_from_fields;
use crate::pubkey::{is_valid_key, PublicKey};
use crate::records::parse_with;
use crate::tlv::{
    bytes_of, lemma_finite_map_sorted, lemma_map_roundtrip, map_bytes, map_within_limit,
    optional, outcome_view, pubkey_of, required, string_of, u16_of, u32_of, u64_of, u8_of,
    StreamFault, TlvBuilder, TlvDecode, TlvEncode, TlvReader, TlvResult, MAX_TLV_VALUE_LENGTH,
};

verus! {

// ============================================================================
// Sync request
// ============================================================================

/// Field types of an encoded [`SyncMsg`].
pub const SYNC_LEDGER_ID: u64 = 0;
pub const SYNC_LAST_KNOWN_SEQUENCE: u64 = 2;
pub const SYNC_LAST_KNOWN_HASH: u64 = 4;

/// Request to synchronize ledger state.
#[derive(Clone, Debug, PartialEq, Eq)]
pub struct SyncMsg {
    /// The ledger to synchronize.
    pub ledger_id: [u8; 32],
    /// Last sequence number the requester holds.
    pub last_known_sequence: u64,
    /// Hash of the last update the requester holds.
    pub last_known_hash: [u8; 32],
}

/// A sync request as plain values.
pub struct SyncMsgView {
    pub ledger_id: Seq<u8>,
    pub last_known_sequence: u64,
    pub last_known_hash: Seq<u8>,
}

impl View for SyncMsg {
    type V = SyncMsgView;

    open spec fn view(&self) -> SyncMsgView {
        SyncMsgView {
            ledger_id: self.ledger_id@,
            last_known_sequence: self.last_known_sequence,
            last_known_hash: self.last_known_hash@,
        }
    }
}

/// The fields of an encoded sync request.
pub open spec fn sync_fields(s: SyncMsgView) -> Map<u64, Seq<u8>> {
    Map::empty().insert(SYNC_LEDGER_ID, s.ledger_id).insert(
        SYNC_LAST_KNOWN_SEQUENCE,
        u64_be(s.last_known_sequence),
    ).insert(SYNC_LAST_KNOWN_HASH, s.last_known_hash)
}

/// The sync request held by decoded fields: its fields read in order, the
/// first failure reported.
pub open spec fn sync_from_fields(m: Map<u64, Seq<u8>>) -> Result<SyncMsgView, StreamFault> {
    let a = required(m, SYNC_LEDGER_ID, |d: Seq<u8>| bytes_of(d, 32));
    let b = required(m, SYNC_LAST_KNOWN_SEQUENCE, |d: Seq<u8>| u64_of(d));
    let c = required(m, SYNC_LAST_KNOWN_HASH, |d: Seq<u8>| bytes_of(d, 32));
    if a is Err {
        Err(a->Err_0)
    } else if b is Err {
        Err(b->Err_0)
    } else if c is Err {
        Err(c->Err_0)
    } else {
        Ok(SyncMsgView { ledger_id: a->Ok_0, last_known_sequence: b->Ok_0, last_known_hash: c->Ok_0 })
    }
}

impl TlvEncode for SyncMsg {
    open spec fn tlv_bytes(&self) -> Seq<u8> {
        map_bytes(sync_fields(self@))
    }

    fn tlv_encode(&self) -> (r: Vec<u8>) {
        TlvBuilder::new().bytes_field(SYNC_LEDGER_ID, self.ledger_id.as_slice()).u64_field(
            SYNC_LAST_KNOWN_SEQUENCE,
            self.last_known_sequence,
        ).bytes_field(SYNC_LAST_KNOWN_HASH, self.last_known_hash.as_slice()).build()
    }
}

impl TlvDecode for SyncMsg {
    open spec fn tlv_decodes(data: Seq<u8>, r: TlvResult<Self>) -> bool {
        outcome_view(r, parse_with(data, |m: Map<u64, Seq<u8>>| sync_from_fields(m)))
    }

    fn tlv_decode(data: &[u8]) -> (r: TlvResult<Self>) {
        let reader = match TlvReader::new(data) {
            Ok(r) => r,
            Err(e) => {
                return Err(e);
            },
        };
        let ledger_id = match reader.read_bytes::<32>(SYNC_LEDGER_ID) {
            Ok(v) => v,
            Err(e) => {
                return Err(e);
            },
        };
        let last_known_sequence = match reader.read_u64(SYNC_LAST_KNOWN_SEQUENCE) {
            Ok(v) => v,
            Err(e) => {
                return Err(e);
            },
        };
        let last_known_hash = match reader.read_bytes::<32>(SYNC_LAST_KNOWN_HASH) {
            Ok(v) => v,
            Err(e) => {
                return Err(e);
            },
        };
        Ok(SyncMsg { ledger_id, last_known_sequence, last_known_hash })
    }
}

/// Decoding the encoding of a sync request gives it back.
pub proof fn lemma_sync_roundtrip(s: SyncMsgView)
    requires
        s.ledger_id.len() == 32,
        s.last_known_hash.len() == 32,
    ensures
        parse_with(map_bytes(sync_fields(s)), |m: Map<u64, Seq<u8>>| sync_from_fields(m)) == Ok::<
            SyncMsgView,
            StreamFault,
        >(s),
{
    let m = sync_fields(s);
    lemma_finite_map_sorted(m);
    lemma_u64_be(s.last_known_sequence, seq![]);
    assert(map_within_limit(m));
    lemma_map_roundtrip(m);
}

// ============================================================================
// Handshake
// ============================================================================

/// Field types of an encoded [`HandshakeMsg`].
pub const HANDSHAKE_PROTOCOL_VERSION: u64 = 0;
pub const HANDSHAKE_MIN_PROTOCOL_VERSION: u64 = 2;
pub const HANDSHAKE_FEATURES: u64 = 4;
pub const HANDSHAKE_OPERATOR_PUBKEY: u64 = 6;
pub const HANDSHAKE_PARTNER_PUBKEY: u64 = 8;
pub const HANDSHAKE_FUNDING_TXID: u64 = 10;
pub const HANDSHAKE_FUNDING_VOUT: u64 = 12;

/// Protocol handshake establishing a ledger connection.
#[derive(Clone, Debug, PartialEq, Eq)]
pub struct HandshakeMsg {
    /// Protocol version.
    pub protocol_version: u16,
    /// Minimum supported version.
    pub min_protocol_version: u16,
    /// Feature flags.
    pub features: u32,
    /// Operator's public key.
    pub operator_id: PublicKey,
    /// Reserves identifier.
    pub reserves_id: String,
    /// Funding transaction ID (reserves UTXO).
    pub funding_txid: [u8; 32],
    /// Funding output index.
    pub funding_vout: u16,
}

/// A handshake as plain values.
pub struct HandshakeMsgView {
    pub protocol_version: u16,
    pub min_protocol_version: u16,
    pub features: u32,
    pub operator_id: Seq<u8>,
    pub reserves_id: Seq<char>,
    pub funding_txid: Seq<u8>,
    pub funding_vout: u16,
}

impl View for HandshakeMsg {
    type V = HandshakeMsgView;

    open spec fn view(&self) -> HandshakeMsgView {
        HandshakeMsgView {
            protocol_version: self.protocol_version,
            min_protocol_version: self.min_protocol_version,
            features: self.features,
            operator_id: self.operator_id@,
            reserves_id: self.reserves_id@,
            funding_txid: self.funding_txid@,
            funding_vout: self.funding_vout,
        }
    }
}

/// The fields of an encoded handshake.
pub open spec fn handshake_fields(h: HandshakeMsgView) -> Map<u64, Seq<u8>> {
    Map::empty().insert(HANDSHAKE_PROTOCOL_VERSION, u16_be(h.protocol_version)).insert(
        HANDSHAKE_MIN_PROTOCOL_VERSION,
        u16_be(h.min_protocol_version),
    ).insert(HANDSHAKE_FEATURES, u32_be(h.features)).insert(
        HANDSHAKE_OPERATOR_PUBKEY,
        h.operator_id,
    ).insert(HANDSHAKE_PARTNER_PUBKEY, encode_utf8(h.reserves_id)).insert(
        HANDSHAKE_FUNDING_TXID,
        h.funding_txid,
    ).insert(HANDSHAKE_FUNDING_VOUT, u16_be(h.funding_vout))
}

/// The handshake held by decoded fields: its fields read in order, the first
/// failure reported.
pub open spec fn handshake_from_fields(m: Map<u64, Seq<u8>>) -> Result<HandshakeMsgView, StreamFault> {
    let a = required(m, HANDSHAKE_PROTOCOL_VERSION, |d: Seq<u8>| u16_of(d));
    let b = required(m, HANDSHAKE_MIN_PROTOCOL_VERSION, |d: Seq<u8>| u16_of(d));
    let c = required(m, HANDSHAKE_FEATURES, |d: Seq<u8>| u32_of(d));
    let d = required(m, HANDSHAKE_OPERATOR_PUBKEY, |d: Seq<u8>| pubkey_of(d));
    let e = required(m, HANDSHAKE_PARTNER_PUBKEY, |d: Seq<u8>| string_of(d));
    let f = required(m, HANDSHAKE_FUNDING_TXID, |d: Seq<u8>| bytes_of(d, 32));
    let g = required(m, HANDSHAKE_FUNDING_VOUT, |d: Seq<u8>| u16_of(d));
    if a is Err {
        Err(a->Err_0)
    } else if b is Err {
        Err(b->Err_0)
    } else if c is Err {
        Err(c->Err_0)
    } else if d is Err {
        Err(d->Err_0)
    } else if e is Err {
        Err(e->Err_0)
    } else if f is Err {
        Err(f->Err_0)
    } else if g is Err {
        Err(g->Err_0)
    } else {
        Ok(
            HandshakeMsgView {
                protocol_version: a->Ok_0,
                min_protocol_version: b->Ok_0,
                features: c->Ok_0,
                operator_id: d->Ok_0,
                reserves_id: e->Ok_0,
                funding_txid: f->Ok_0,
                funding_vout: g->Ok_0,
            },
        )
    }
}

impl TlvEncode for HandshakeMsg {
    open spec fn tlv_bytes(&self) -> Seq<u8> {
        map_bytes(handshake_fields(self@))
    }

    fn tlv_encode(&self) -> (r: Vec<u8>) {
        TlvBuilder::new().u16_field(HANDSHAKE_PROTOCOL_VERSION, self.protocol_version).u16_field(
            HANDSHAKE_MIN_PROTOCOL_VERSION,
            self.min_protocol_version,
        ).u32_field(HANDSHAKE_FEATURES, self.features).pubkey_field(
            HANDSHAKE_OPERATOR_PUBKEY,
            &self.operator_id,
        ).string_field(HANDSHAKE_PARTNER_PUBKEY, self.reserves_id.as_str()).bytes_field(
            HANDSHAKE_FUNDING_TXID,
            self.funding_txid.as_slice(),
        ).u16_field(HANDSHAKE_FUNDING_VOUT, self.funding_vout).build()
    }
}

impl TlvDecode for HandshakeMsg {
    open spec fn tlv_decodes(data: Seq<u8>, r: TlvResult<Self>) -> bool {
        outcome_view(r, parse_with(data, |m: Map<u64, Seq<u8>>| handshake_from_fields(m)))
    }

    fn tlv_decode(data: &[u8]) -> (r: TlvResult<Self>) {
        let reader = match TlvReader::new(data) {
            Ok(r) => r,
            Err(e) => {
                return Err(e);
            },
        };
        let protocol_version = match reader.read_u16(HANDSHAKE_PROTOCOL_VERSION) {
            Ok(v) => v,
            Err(e) => {
                return Err(e);
            },
        };
        let min_protocol_version = match reader.read_u16(HANDSHAKE_MIN_PROTOCOL_VERSION) {
            Ok(v) => v,
            Err(e) => {
                return Err(e);
            },
        };
        let features = match reader.read_u32(HANDSHAKE_FEATURES) {
            Ok(v) => v,
            Err(e) => {
                return Err(e);
            },
        };
        let operator_id = match reader.read_pubkey(HANDSHAKE_OPERATOR_PUBKEY) {
            Ok(v) => v,
            Err(e) => {
                return Err(e);
            },
        };
        let reserves_id = match reader.read_string(HANDSHAKE_PARTNER_PUBKEY) {
            Ok(v) => v,
            Err(e) => {
                return Err(e);
            },
        };
        let funding_txid = match reader.read_bytes::<32>(HANDSHAKE_FUNDING_TXID) {
            Ok(v) => v,
            Err(e) => {
                return Err(e);
            },
        };
        let funding_vout = match reader.read_u16(HANDSHAKE_FUNDING_VOUT) {
            Ok(v) => v,
            Err(e) => {
                return Err(e);
            },
        };
        Ok(
            HandshakeMsg {
                protocol_version,
                min_protocol_version,
                features,
                operator_id,
                reserves_id,
                funding_txid,
                funding_vout,
            },
        )
    }
}

/// Decoding the encoding of a handshake gives it back, for a valid operator
/// key and a reserves identifier whose UTF-8 encoding fits a TLV value.
pub proof fn lemma_handshake_roundtrip(h: HandshakeMsgView)
    requires
        is_valid_key(h.operator_id),
        h.operator_id.len() == 33,
        encode_utf8(h.reserves_id).len() <= MAX_TLV_VALUE_LENGTH,
        h.funding_txid.len() == 32,
    ensures
        parse_with(map_bytes(handshake_fields(h)), |m: Map<u64, Seq<u8>>| handshake_from_fields(m))
            == Ok::<HandshakeMsgView, StreamFault>(h),
{
    let m = handshake_fields(h);
    lemma_finite_map_sorted(m);
    lemma_u16_be(h.protocol_version, seq![]);
    lemma_u16_be(h.min_protocol_version, seq![]);
    lemma_u32_be(h.features, seq![]);
    lemma_u16_be(h.funding_vout, seq![]);
    encode_utf8_valid_utf8(h.reserves_id);
    encode_utf8_decode_utf8(h.reserves_id);
    assert(map_within_limit(m));
    lemma_map_roundtrip(m);
}

// ============================================================================
// Handshake response
// ============================================================================

/// Field types of an encoded [`HandshakeResponseMsg`].
pub const HANDSHAKE_RESPONSE_REQUEST_HASH: u64 = 0;
pub const HANDSHAKE_RESPONSE_PROTOCOL_VERSION: u64 = 2;
pub const HANDSHAKE_RESPONSE_ACCEPTED: u64 = 4;
pub const HANDSHAKE_RESPONSE_ERROR: u64 = 6;
pub const HANDSHAKE_RESPONSE_PARTNER_PUBKEY: u64 = 8;

/// Response to a handshake.
#[derive(Clone, Debug, PartialEq, Eq)]
pub struct HandshakeResponseMsg {
    /// Hash of the request being responded to.
    pub request_hash: [u8; 32],
    /// Negotiated protocol version.
    pub protocol_version: u16,
    /// Whether the handshake was accepted.
    pub accepted: bool,
    /// Error reason if rejected.
    pub error: Option<String>,
    /// Reserves identifier.
    pub reserves_id: String,
}

/// A handshake response as plain values.
pub struct HandshakeResponseMsgView {
    pub request_hash: Seq<u8>,
    pub protocol_version: u16,
    pub accepted: bool,
    pub error: Option<Seq<char>>,
    pub reserves_id: Seq<char>,
}

impl View for HandshakeResponseMsg {
    type V = HandshakeResponseMsgView;

    open spec fn view(&self) -> HandshakeResponseMsgView {
        HandshakeResponseMsgView {
            request_hash: self.request_hash@,
            protocol_version: self.protocol_version,
            accepted: self.accepted,
            error: opt_text(self.error),
            reserves_id: self.reserves_id@,
        }
    }
}

/// The byte a flag is encoded as.
pub open spec fn flag_byte(b: bool) -> u8 {
    if b {
        1
    } else {
        0
    }
}

/// `m` with the UTF-8 encoding of `o` at `field_type` where `o` is present.
pub open spec fn with_optional_text(
    m: Map<u64, Seq<u8>>,
    field_type: u64,
    o: Option<Seq<char>>,
) -> Map<u64, Seq<u8>> {
    match o {
        Some(t) => m.insert(field_type, encode_utf8(t)),
        None => m,
    }
}

/// `m` with the bytes of `o` at `field_type` where `o` is present.
pub open spec fn with_optional_bytes(
    m: Map<u64, Seq<u8>>,
    field_type: u64,
    o: Option<Seq<u8>>,
) -> Map<u64, Seq<u8>> {
    match o {
        Some(b) => m.insert(field_type, b),
        None => m,
    }
}

/// The fields of an encoded handshake response.
pub open spec fn handshake_response_fields(h: HandshakeResponseMsgView) -> Map<u64, Seq<u8>> {
    with_optional_text(
        Map::empty().insert(HANDSHAKE_RESPONSE_REQUEST_HASH, h.request_hash).insert(
            HANDSHAKE_RESPONSE_PROTOCOL_VERSION,
            u16_be(h.protocol_version),
        ).insert(HANDSHAKE_RESPONSE_ACCEPTED, seq![flag_byte(h.accepted)]),
        HANDSHAKE_RESPONSE_ERROR,
        h.error,
    ).insert(HANDSHAKE_RESPONSE_PARTNER_PUBKEY, encode_utf8(h.reserves_id))
}

/// The handshake response held by decoded fields: its fields read in order,
/// the first failure reported; any nonzero flag byte reads as accepted.
pub open spec fn handshake_response_from_fields(m: Map<u64, Seq<u8>>) -> Result<
    HandshakeResponseMsgView,
    StreamFault,
> {
    let a = required(m, HANDSHAKE_RESPONSE_REQUEST_HASH, |d: Seq<u8>| bytes_of(d, 32));
    let b = required(m, HANDSHAKE_RESPONSE_PROTOCOL_VERSION, |d: Seq<u8>| u16_of(d));
    let c = required(m, HANDSHAKE_RESPONSE_ACCEPTED, |d: Seq<u8>| u8_of(d));
    let d = optional(m, HANDSHAKE_RESPONSE_ERROR, |d: Seq<u8>| string_of(d));
    let e = required(m, HANDSHAKE_RESPONSE_PARTNER_PUBKEY, |d: Seq<u8>| string_of(d));
    if a is Err {
        Err(a->Err_0)
    } else if b is Err {
        Err(b->Err_0)
    } else if c is Err {
        Err(c->Err_0)
    } else if d is Err {
        Err(d->Err_0)
    } else if e is Err {
        Err(e->Err_0)
    } else {
        Ok(
            HandshakeResponseMsgView {
                request_hash: a->Ok_0,
                protocol_version: b->Ok_0,
                accepted: c->Ok_0 != 0,
                error: d->Ok_0,
                reserves_id: e->Ok_0,
            },
        )
    }
}

impl TlvEncode for HandshakeResponseMsg {
    open spec fn tlv_bytes(&self) -> Seq<u8> {
        map_bytes(handshake_response_fields(self@))
    }

    fn tlv_encode(&self) -> (r: Vec<u8>) {
        let flag: u8 = if self.accepted {
            1
        } else {
            0
        };
        let mut builder = TlvBuilder::new().bytes_field(
            HANDSHAKE_RESPONSE_REQUEST_HASH,
            self.request_hash.as_slice(),
        ).u16_field(HANDSHAKE_RESPONSE_PROTOCOL_VERSION, self.protocol_version).u8_field(
            HANDSHAKE_RESPONSE_ACCEPTED,
            flag,
        );
        match &self.error {
            Some(err) => {
                builder = builder.string_field(HANDSHAKE_RESPONSE_ERROR, err.as_str());
            },
            None => {},
        }
        let r = builder.string_field(HANDSHAKE_RESPONSE_PARTNER_PUBKEY, self.reserves_id.as_str()).build();
        proof {
            assert(seq![flag] == seq![flag_byte(self.accepted)]);
        }
        r
    }
}

impl TlvDecode for HandshakeResponseMsg {
    open spec fn tlv_decodes(data: Seq<u8>, r: TlvResult<Self>) -> bool {
        outcome_view(r, parse_with(data, |m: Map<u64, Seq<u8>>| handshake_response_from_fields(m)))
    }

    fn tlv_decode(data: &[u8]) -> (r: TlvResult<Self>) {
        let reader = match TlvReader::new(data) {
            Ok(r) => r,
            Err(e) => {
                return Err(e);
            },
        };
        let request_hash = match reader.read_bytes::<32>(HANDSHAKE_RESPONSE_REQUEST_HASH) {
            Ok(v) => v,
            Err(e) => {
                return Err(e);
            },
        };
        let protocol_version = match reader.read_u16(HANDSHAKE_RESPONSE_PROTOCOL_VERSION) {
            Ok(v) => v,
            Err(e) => {
                return Err(e);
            },
        };
        let accepted = match reader.read_u8(HANDSHAKE_RESPONSE_ACCEPTED) {
            Ok(v) => v != 0,
            Err(e) => {
                return Err(e);
            },
        };
        let error = match reader.read_string_opt(HANDSHAKE_RESPONSE_ERROR) {
            Ok(v) => v,
            Err(e) => {
                return Err(e);
            },
        };
        let reserves_id = match reader.read_string(HANDSHAKE_RESPONSE_PARTNER_PUBKEY) {
            Ok(v) => v,
            Err(e) => {
                return Err(e);
            },
        };
        Ok(HandshakeResponseMsg { request_hash, protocol_version, accepted, error, reserves_id })
    }
}

/// Decoding the encoding of a handshake response gives it back, where its
/// texts' UTF-8 encodings fit a TLV value.
pub proof fn lemma_handshake_response_roundtrip(h: HandshakeResponseMsgView)
    requires
        h.request_hash.len() == 32,
        encode_utf8(h.reserves_id).len() <= MAX_TLV_VALUE_LENGTH,
        h.error matches Some(t) ==> encode_utf8(t).len() <= MAX_TLV_VALUE_LENGTH,
    ensures
        parse_with(
            map_bytes(handshake_response_fields(h)),
            |m: Map<u64, Seq<u8>>| handshake_response_from_fields(m),
        ) == Ok::<HandshakeResponseMsgView, StreamFault>(h),
{
    let m = handshake_response_fields(h);
    lemma_finite_map_sorted(m);
    lemma_u16_be(h.protocol_version, seq![]);
    encode_utf8_valid_utf8(h.reserves_id);
    encode_utf8_decode_utf8(h.reserves_id);
    if let Some(t) = h.error {
        encode_utf8_valid_utf8(t);
        encode_utf8_decode_utf8(t);
    }
    assert(map_within_limit(m));
    lemma_map_roundtrip(m);
}

// ============================================================================
// Ledger update response
// ============================================================================

/// Field types of an encoded [`LedgerUpdateResponseMsg`].
pub const LEDGER_RESPONSE_OPERATOR_ID: u64 = 0;
pub const LEDGER_RESPONSE_RESERVES_ID: u64 = 2;
pub const LEDGER_RESPONSE_REQUEST_HASH: u64 = 4;
pub const LEDGER_RESPONSE_ACCEPTED: u64 = 6;
pub const LEDGER_RESPONSE_ERROR: u64 = 8;
pub const LEDGER_RESPONSE_COSIGN_SIGNATURE: u64 = 10;
pub const LEDGER_RESPONSE_CONFIRMED_SEQUENCE: u64 = 12;
pub const LEDGER_RESPONSE_CONFIRMED_HASH: u64 = 14;

/// Response to a ledger update.
#[derive(Clone, Debug, PartialEq, Eq)]
pub struct LedgerUpdateResponseMsg {
    /// Operator's public key.
    pub operator_id: PublicKey,
    /// Reserves identifier.
    pub reserves_id: String,
    /// Hash of the request being responded to.
    pub request_hash: [u8; 32],
    /// Whether the update was accepted.
    pub accepted: bool,
    /// Error message if rejected.
    pub error: Option<String>,
    /// Co-signer's signature if accepted.
    pub cosign_signature: Option<[u8; 64]>,
    /// Confirmed sequence number.
    pub confirmed_sequence: u64,
    /// Confirmed ledger hash.
    pub confirmed_hash: [u8; 32],
}

/// A ledger update response as plain values.
pub struct LedgerUpdateResponseMsgView {
    pub operator_id: Seq<u8>,
    pub reserves_id: Seq<char>,
    pub request_hash: Seq<u8>,
    pub accepted: bool,
    pub error: Option<Seq<char>>,
    pub cosign_signature: Option<Seq<u8>>,
    pub confirmed_sequence: u64,
    pub confirmed_hash: Seq<u8>,
}

impl View for LedgerUpdateResponseMsg {
    type V = LedgerUpdateResponseMsgView;

    open spec fn view(&self) -> LedgerUpdateResponseMsgView {
        LedgerUpdateResponseMsgView {
            operator_id: self.operator_id@,
            reserves_id: self.reserves_id@,
            request_hash: self.request_hash@,
            accepted: self.accepted,
            error: opt_text(self.error),
            cosign_signature: opt_bytes(self.cosign_signature),
            confirmed_sequence: self.confirmed_sequence,
            confirmed_hash: self.confirmed_hash@,
        }
    }
}

/// The fields of an encoded ledger update response.
pub open spec fn ledger_response_fields(h: LedgerUpdateResponseMsgView) -> Map<u64, Seq<u8>> {
    with_optional_bytes(
        with_optional_text(
            Map::empty().insert(LEDGER_RESPONSE_OPERATOR_ID, h.operator_id).insert(
                LEDGER_RESPONSE_RESERVES_ID,
                encode_utf8(h.reserves_id),
            ).insert(LEDGER_RESPONSE_REQUEST_HASH, h.request_hash).insert(
                LEDGER_RESPONSE_ACCEPTED,
                seq![flag_byte(h.accepted)],
            ),
            LEDGER_RESPONSE_ERROR,
            h.error,
        ),
        LEDGER_RESPONSE_COSIGN_SIGNATURE,
        h.cosign_signature,
    ).insert(LEDGER_RESPONSE_CONFIRMED_SEQUENCE, u64_be(h.confirmed_sequence)).insert(
        LEDGER_RESPONSE_CONFIRMED_HASH,
        h.confirmed_hash,
    )
}

/// The ledger update response held by decoded fields: its fields read in
/// order, the first failure reported; any nonzero flag byte reads as
/// accepted.
pub open spec fn ledger_response_from_fields(m: Map<u64, Seq<u8>>) -> Result<
    LedgerUpdateResponseMsgView,
    StreamFault,
> {
    let a = required(m, LEDGER_RESPONSE_OPERATOR_ID, |d: Seq<u8>| pubkey_of(d));
    let b = required(m, LEDGER_RESPONSE_RESERVES_ID, |d: Seq<u8>| string_of(d));
    let c = required(m, LEDGER_RESPONSE_REQUEST_HASH, |d: Seq<u8>| bytes_of(d, 32));
    let d = required(m, LEDGER_RESPONSE_ACCEPTED, |d: Seq<u8>| u8_of(d));
    let e = optional(m, LEDGER_RESPONSE_ERROR, |d: Seq<u8>| string_of(d));
    let f = optional(m, LEDGER_RESPONSE_COSIGN_SIGNATURE, |d: Seq<u8>| bytes_of(d, 64));
    let g = required(m, LEDGER_RESPONSE_CONFIRMED_SEQUENCE, |d: Seq<u8>| u64_of(d));
    let h = required(m, LEDGER_RESPONSE_CONFIRMED_HASH, |d: Seq<u8>| bytes_of(d, 32));
    if a is Err {
        Err(a->Err_0)
    } else if b is Err {
        Err(b->Err_0)
    } else if c is Err {
        Err(c->Err_0)
    } else if d is Err {
        Err(d->Err_0)
    } else if e is Err {
        Err(e->Err_0)
    } else if f is Err {
        Err(f->Err_0)
    } else if g is Err {
        Err(g->Err_0)
    } else if h is Err {
        Err(h->Err_0)
    } else {
        Ok(
            LedgerUpdateResponseMsgView {
                operator_id: a->Ok_0,
                reserves_id: b->Ok_0,
                request_hash: c->Ok_0,
                accepted: d->Ok_0 != 0,
                error: e->Ok_0,
                cosign_signature: f->Ok_0,
                confirmed_sequence: g->Ok_0,
                confirmed_hash: h->Ok_0,
            },
        )
    }
}

impl TlvEncode for LedgerUpdateResponseMsg {
    open spec fn tlv_bytes(&self) -> Seq<u8> {
        map_bytes(ledger_response_fields(self@))
    }

    fn tlv_encode(&self) -> (r: Vec<u8>) {
        let flag: u8 = if self.accepted {
            1
        } else {
            0
        };
        let mut builder = TlvBuilder::new().pubkey_field(LEDGER_RESPONSE_OPERATOR_ID, &self.operator_id).string_field(
            LEDGER_RESPONSE_RESERVES_ID,
            self.reserves_id.as_str(),
        ).bytes_field(LEDGER_RESPONSE_REQUEST_HASH, self.request_hash.as_slice()).u8_field(
            LEDGER_RESPONSE_ACCEPTED,
            flag,
        );
        proof {
            assert(seq![flag] == seq![flag_byte(self.accepted)]);
        }
        match &self.error {
            Some(err) => {
                builder = builder.string_field(LEDGER_RESPONSE_ERROR, err.as_str());
            },
            None => {},
        }
        match &self.cosign_signature {
            Some(sig) => {
                builder = builder.bytes_field(LEDGER_RESPONSE_COSIGN_SIGNATURE, sig.as_slice());
            },
            None => {},
        }
        builder.u64_field(LEDGER_RESPONSE_CONFIRMED_SEQUENCE, self.confirmed_sequence).bytes_field(
            LEDGER_RESPONSE_CONFIRMED_HASH,
            self.confirmed_hash.as_slice(),
        ).build()
    }
}

impl TlvDecode for LedgerUpdateResponseMsg {
    open spec fn tlv_decodes(data: Seq<u8>, r: TlvResult<Self>) -> bool {
        outcome_view(r, parse_with(data, |m: Map<u64, Seq<u8>>| ledger_response_from_fields(m)))
    }

    fn tlv_decode(data: &[u8]) -> (r: TlvResult<Self>) {
        let reader = match TlvReader::new(data) {
            Ok(r) => r,
            Err(e) => {
                return Err(e);
            },
        };
        let operator_id = match reader.read_pubkey(LEDGER_RESPONSE_OPERATOR_ID) {
            Ok(v) => v,
            Err(e) => {
                return Err(e);
            },
        };
        let reserves_id = match reader.read_string(LEDGER_RESPONSE_RESERVES_ID) {
            Ok(v) => v,
            Err(e) => {
                return Err(e);
            },
        };
        let request_hash = match reader.read_bytes::<32>(LEDGER_RESPONSE_REQUEST_HASH) {
            Ok(v) => v,
            Err(e) => {
                return Err(e);
            },
        };
        let accepted = match reader.read_u8(LEDGER_RESPONSE_ACCEPTED) {
            Ok(v) => v != 0,
            Err(e) => {
                return Err(e);
            },
        };
        let error = match reader.read_string_opt(LEDGER_RESPONSE_ERROR) {
            Ok(v) => v,
            Err(e) => {
                return Err(e);
            },
        };
        let cosign_signature = match reader.read_bytes_opt::<64>(LEDGER_RESPONSE_COSIGN_SIGNATURE) {
            Ok(v) => v,
            Err(e) => {
                return Err(e);
            },
        };
        let confirmed_sequence = match reader.read_u64(LEDGER_RESPONSE_CONFIRMED_SEQUENCE) {
            Ok(v) => v,
            Err(e) => {
                return Err(e);
            },
        };
        let confirmed_hash = match reader.read_bytes::<32>(LEDGER_RESPONSE_CONFIRMED_HASH) {
            Ok(v) => v,
            Err(e) => {
                return Err(e);
            },
        };
        Ok(
            LedgerUpdateResponseMsg {
                operator_id,
                reserves_id,
                request_hash,
                accepted,
                error,
                cosign_signature,
                confirmed_sequence,
                confirmed_hash,
            },
        )
    }
}

/// Decoding the encoding of a ledger update response gives it back, for a
/// valid operator key and texts whose UTF-8 encodings fit a TLV value.
pub proof fn lemma_ledger_response_roundtrip(h: LedgerUpdateResponseMsgView)
    requires
        is_valid_key(h.operator_id),
        h.operator_id.len() == 33,
        encode_utf8(h.reserves_id).len() <= MAX_TLV_VALUE_LENGTH,
        h.request_hash.len() == 32,
        h.error matches Some(t) ==> encode_utf8(t).len() <= MAX_TLV_VALUE_LENGTH,
        h.cosign_signature matches Some(s) ==> s.len() == 64,
        h.confirmed_hash.len() == 32,
    ensures
        parse_with(
            map_bytes(ledger_response_fields(h)),
            |m: Map<u64, Seq<u8>>| ledger_response_from_fields(m),
        ) == Ok::<LedgerUpdateResponseMsgView, StreamFault>(h),
{
    let m = ledger_response_fields(h);
    lemma_finite_map_sorted(m);
    lemma_u64_be(h.confirmed_sequence, seq![]);
    encode_utf8_valid_utf8(h.reserves_id);
    encode_utf8_decode_utf8(h.reserves_id);
    if let Some(t) = h.error {
        encode_utf8_valid_utf8(t);
        encode_utf8_decode_utf8(t);
    }
    assert(map_within_limit(m));
    lemma_map_roundtrip(m);
}

// ============================================================================
// Ledger update
// ============================================================================

/// Field types of an encoded [`LedgerUpdateMsg`].
pub const LEDGER_UPDATE_OPERATOR_ID: u64 = 0;
pub const LEDGER_UPDATE_RESERVES_ID: u64 = 2;
pub const LEDGER_UPDATE_OPERATION: u64 = 4;
pub const LEDGER_UPDATE_SEQUENCE_NUMBER: u64 = 6;
pub const LEDGER_UPDATE_PREVIOUS_HASH: u64 = 8;
pub const LEDGER_UPDATE_CURRENT_HASH: u64 = 10;
pub const LEDGER_UPDATE_OPERATOR_SIGNATURE: u64 = 12;

/// A ledger-modifying operation, with its place in the ledger chain.
#[derive(Clone, Debug, PartialEq, Eq)]
pub struct LedgerUpdateMsg {
    /// Operator's public key.
    pub operator_id: PublicKey,
    /// Reserves identifier.
    pub reserves_id: String,
    /// The operation to perform.
    pub operation: LedgerOperation,
    /// Sequence number in the ledger chain.
    pub sequence_number: u64,
    /// Hash of the previous ledger state.
    pub previous_hash: [u8; 32],
    /// Hash after applying this operation.
    pub content_hash: [u8; 32],
    /// Operator's signature over the update.
    pub operator_signature: [u8; 64],
}

/// A ledger update as plain values.
pub struct LedgerUpdateMsgView {
    pub operator_id: Seq<u8>,
    pub reserves_id: Seq<char>,
    pub operation: OperationView,
    pub sequence_number: u64,
    pub previous_hash: Seq<u8>,
    pub content_hash: Seq<u8>,
    pub operator_signature: Seq<u8>,
}

impl View for LedgerUpdateMsg {
    type V = LedgerUpdateMsgView;

    open spec fn view(&self) -> LedgerUpdateMsgView {
        LedgerUpdateMsgView {
            operator_id: self.operator_id@,
            reserves_id: self.reserves_id@,
            operation: self.operation@,
            sequence_number: self.sequence_number,
            previous_hash: self.previous_hash@,
            content_hash: self.content_hash@,
            operator_signature: self.operator_signature@,
        }
    }
}

/// The fields of an encoded ledger update; `op_bytes` is the TLV encoding of
/// its operation.
pub open spec fn ledger_update_fields(u: LedgerUpdateMsgView, op_bytes: Seq<u8>) -> Map<u64, Seq<u8>> {
    Map::empty().insert(LEDGER_UPDATE_OPERATOR_ID, u.operator_id).insert(
        LEDGER_UPDATE_RESERVES_ID,
        encode_utf8(u.reserves_id),
    ).insert(LEDGER_UPDATE_OPERATION, op_bytes).insert(
        LEDGER_UPDATE_SEQUENCE_NUMBER,
        u64_be(u.sequence_number),
    ).insert(LEDGER_UPDATE_PREVIOUS_HASH, u.previous_hash).insert(
        LEDGER_UPDATE_CURRENT_HASH,
        u.content_hash,
    ).insert(LEDGER_UPDATE_OPERATOR_SIGNATURE, u.operator_signature)
}

/// The operation held in a nested TLV encoding.
pub open spec fn nested_operation(d: Seq<u8>) -> Result<OperationView, StreamFault> {
    parse_with(d, |m: Map<u64, Seq<u8>>| operation_from_fields(m))
}

/// The ledger update held by decoded fields: its fields read in order, the
/// first failure reported.
pub open spec fn ledger_update_from_fields(m: Map<u64, Seq<u8>>) -> Result<LedgerUpdateMsgView, StreamFault> {
    let a = required(m, LEDGER_UPDATE_OPERATOR_ID, |d: Seq<u8>| pubkey_of(d));
    let b = required(m, LEDGER_UPDATE_RESERVES_ID, |d: Seq<u8>| string_of(d));
    let c = required(m, LEDGER_UPDATE_OPERATION, |d: Seq<u8>| nested_operation(d));
    let d = required(m, LEDGER_UPDATE_SEQUENCE_NUMBER, |d: Seq<u8>| u64_of(d));
    let e = required(m, LEDGER_UPDATE_PREVIOUS_HASH, |d: Seq<u8>| bytes_of(d, 32));
    let f = required(m, LEDGER_UPDATE_CURRENT_HASH, |d: Seq<u8>| bytes_of(d, 32));
    let g = required(m, LEDGER_UPDATE_OPERATOR_SIGNATURE, |d: Seq<u8>| bytes_of(d, 64));
    if a is Err {
        Err(a->Err_0)
    } else if b is Err {
        Err(b->Err_0)
    } else if c is Err {
        Err(c->Err_0)
    } else if d is Err {
        Err(d->Err_0)
    } else if e is Err {
        Err(e->Err_0)
    } else if f is Err {
        Err(f->Err_0)
    } else if g is Err {
        Err(g->Err_0)
    } else {
        Ok(
            LedgerUpdateMsgView {
                operator_id: a->Ok_0,
                reserves_id: b->Ok_0,
                operation: c->Ok_0,
                sequence_number: d->Ok_0,
                previous_hash: e->Ok_0,
                content_hash: f->Ok_0,
                operator_signature: g->Ok_0,
            },
        )
    }
}

impl TlvEncode for LedgerUpdateMsg {
    open spec fn tlv_bytes(&self) -> Seq<u8> {
        map_bytes(ledger_update_fields(self@, self.operation.tlv_bytes()))
    }

    fn tlv_encode(&self) -> (r: Vec<u8>) {
        TlvBuilder::new().pubkey_field(LEDGER_UPDATE_OPERATOR_ID, &self.operator_id).string_field(
            LEDGER_UPDATE_RESERVES_ID,
            self.reserves_id.as_str(),
        ).nested(LEDGER_UPDATE_OPERATION, &self.operation).u64_field(
            LEDGER_UPDATE_SEQUENCE_NUMBER,
            self.sequence_number,
        ).bytes_field(LEDGER_UPDATE_PREVIOUS_HASH, self.previous_hash.as_slice()).bytes_field(
            LEDGER_UPDATE_CURRENT_HASH,
            self.content_hash.as_slice(),
        ).bytes_field(LEDGER_UPDATE_OPERATOR_SIGNATURE, self.operator_signature.as_slice()).build()
    }
}

impl TlvDecode for LedgerUpdateMsg {
    open spec fn tlv_decodes(data: Seq<u8>, r: TlvResult<Self>) -> bool {
        outcome_view(r, parse_with(data, |m: Map<u64, Seq<u8>>| ledger_update_from_fields(m)))
    }

    fn tlv_decode(data: &[u8]) -> (r: TlvResult<Self>) {
        let reader = match TlvReader::new(data) {
            Ok(r) => r,
            Err(e) => {
                return Err(e);
            },
        };
        let operator_id = match reader.read_pubkey(LEDGER_UPDATE_OPERATOR_ID) {
            Ok(v) => v,
            Err(e) => {
                return Err(e);
            },
        };
        let reserves_id = match reader.read_string(LEDGER_UPDATE_RESERVES_ID) {
            Ok(v) => v,
            Err(e) => {
                return Err(e);
            },
        };
        let operation = match reader.read_nested::<LedgerOperation>(LEDGER_UPDATE_OPERATION) {
            Ok(v) => v,
            Err(e) => {
                return Err(e);
            },
        };
        let sequence_number = match reader.read_u64(LEDGER_UPDATE_SEQUENCE_NUMBER) {
            Ok(v) => v,
            Err(e) => {
                return Err(e);
            },
        };
        let previous_hash = match reader.read_bytes::<32>(LEDGER_UPDATE_PREVIOUS_HASH) {
            Ok(v) => v,
            Err(e) => {
                return Err(e);
            },
        };
        let content_hash = match reader.read_bytes::<32>(LEDGER_UPDATE_CURRENT_HASH) {
            Ok(v) => v,
            Err(e) => {
                return Err(e);
            },
        };
        let operator_signature = match reader.read_bytes::<64>(LEDGER_UPDATE_OPERATOR_SIGNATURE) {
            Ok(v) => v,
            Err(e) => {
                return Err(e);
            },
        };
        Ok(
            LedgerUpdateMsg {
                operator_id,
                reserves_id,
                operation,
                sequence_number,
                previous_hash,
                content_hash,
                operator_signature,
            },
        )
    }
}

/// Decoding the encoding of a ledger update gives it back, wherever the
/// encoding of its operation carries the operation and its records fit a
/// TLV value.
pub proof fn lemma_ledger_update_roundtrip(u: LedgerUpdateMsg)
    requires
        is_valid_key(u.operator_id@),
        encode_utf8(u.reserves_id@).len() <= MAX_TLV_VALUE_LENGTH,
        operation_fits(u.operation@),
        u.operation.tlv_bytes().len() <= MAX_TLV_VALUE_LENGTH,
    ensures
        parse_with(u.tlv_bytes(), |m: Map<u64, Seq<u8>>| ledger_update_from_fields(m)) == Ok::<
            LedgerUpdateMsgView,
            StreamFault,
        >(u@),
{
    u.operator_id.lemma_view();
    lemma_operation_tlv_roundtrip(u.operation);
    let m = ledger_update_fields(u@, u.operation.tlv_bytes());
    lemma_finite_map_sorted(m);
    lemma_u64_be(u.sequence_number, seq![]);
    encode_utf8_valid_utf8(u.reserves_id@);
    encode_utf8_decode_utf8(u.reserves_id@);
    assert(map_within_limit(m));
    lemma_map_roundtrip(m);
}

/// The binary encoding of a ledger update.
pub open spec fn ledger_update_binary(u: LedgerUpdateMsgView) -> Seq<u8> {
    u.operator_id + length_prefixed(encode_utf8(u.reserves_id)) + operation_binary(u.operation)
        + u64_be(u.sequence_number) + u.previous_hash + u.content_hash + u.operator_signature
}

/// Reading a ledger update from the front of `s`: its fields in order, the
/// first failure reported.
pub open spec fn rd_ledger_update(s: Seq<u8>) -> Read<LedgerUpdateMsgView> {
    let (a, s1) = rd_pubkey(s);
    if a is Err {
        (Err(a->Err_0), s1)
    } else {
        let (b, s2) = rd_string(s1);
        if b is Err {
            (Err(b->Err_0), s2)
        } else {
            let (c, s3) = operation_binary_read(s2);
            if c is Err {
                (Err(c->Err_0), s3)
            } else {
                let (d, s4) = rd_u64(s3);
                if d is Err {
                    (Err(d->Err_0), s4)
                } else {
                    let (e, s5) = rd_exact(s4, 32);
                    if e is Err {
                        (Err(e->Err_0), s5)
                    } else {
                        let (f, s6) = rd_exact(s5, 32);
                        if f is Err {
                            (Err(f->Err_0), s6)
                        } else {
                            let (g, s7) = rd_exact(s6, 64);
                            if g is Err {
                                (Err(g->Err_0), s7)
                            } else {
                                (
                                    Ok(
                                        LedgerUpdateMsgView {
                                            operator_id: a->Ok_0,
                                            reserves_id: b->Ok_0,
                                            operation: c->Ok_0,
                                            sequence_number: d->Ok_0,
                                            previous_hash: e->Ok_0,
                                            content_hash: f->Ok_0,
                                            operator_signature: g->Ok_0,
                                        },
                                    ),
                                    s7,
                                )
                            }
                        }
                    }
                }
            }
        }
    }
}

impl BinaryCodec for LedgerUpdateMsg {
    open spec fn binary_of(v: LedgerUpdateMsgView) -> Seq<u8> {
        ledger_update_binary(v)
    }

    open spec fn binary_read(s: Seq<u8>) -> Read<LedgerUpdateMsgView> {
        rd_ledger_update(s)
    }

    fn write_to(&self, w: &mut Vec<u8>) -> (r: Result<(), CodecError>) {
        write_pubkey(w, &self.operator_id);
        write_string(w, self.reserves_id.as_str());
        let _ = self.operation.write_to(w);
        write_u64(w, self.sequence_number);
        write_32(w, &self.previous_hash);
        write_32(w, &self.content_hash);
        write_64(w, &self.operator_signature);
        assert(w@ =~= old(w)@ + ledger_update_binary(self@));
        Ok(())
    }

    fn read_from(data: &[u8], pos: &mut usize) -> (r: Result<Self, CodecError>) {
        let operator_id = match read_pubkey(data, pos) {
            Ok(v) => v,
            Err(e) => {
                return Err(e);
            },
        };
        let reserves_id = match read_string(data, pos) {
            Ok(v) => v,
            Err(e) => {
                return Err(e);
            },
        };
        let operation = match LedgerOperation::read_from(data, pos) {
            Ok(v) => v,
            Err(e) => {
                return Err(e);
            },
        };
        let sequence_number = match read_u64(data, pos) {
            Ok(v) => v,
            Err(e) => {
                return Err(e);
            },
        };
        let previous_hash = match read_32(data, pos) {
            Ok(v) => v,
            Err(e) => {
                return Err(e);
            },
        };
        let content_hash = match read_32(data, pos) {
            Ok(v) => v,
            Err(e) => {
                return Err(e);
            },
        };
        let operator_signature = match read_64(data, pos) {
            Ok(v) => v,
            Err(e) => {
                return Err(e);
            },
        };
        Ok(
            LedgerUpdateMsg {
                operator_id,
                reserves_id,
                operation,
                sequence_number,
                previous_hash,
                content_hash,
                operator_signature,
            },
        )
    }
}

} // verus!
