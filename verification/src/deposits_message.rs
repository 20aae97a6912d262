//! The message envelope: every protocol message behind its 16-bit type, in
//! the binary encoding (type, then payload) and in the TLV encoding (type
//! and TLV body as two fields).

use vstd::prelude::*;
use vstd::utf8::encode_utf8;

use crate::bytes::{get_u16_be, lemma_u16_be, push_u16_be, u16_be, u16_from_be};
use crate::codec::{read_is_view, CodecError, CodecFailure, CodecFault};
use crate::coordination::{coordination_binary, coordination_binary_read, coordination_fits, lemma_coordination_tlv_roundtrip, CoordinationMsg, CoordinationMsgView};
use crate::messages::{
    COORDINATION, COORDINATION_RESPONSE, HANDSHAKE, HANDSHAKE_RESPONSE, LEDGER_UPDATE,
    LEDGER_UPDATE_RESPONSE, RESERVES_ADD_OUTPUT, RESERVES_REMOVE_OUTPUT, SYNC, SYNC_RESPONSE,
};
use crate::operation::{LedgerOperation, OperationView};
use crate::operation_binary::BinaryCodec;
use crate::operation_copy::copy_operation;
use crate::operation_laws::operation_fits;
use crate::pubkey::is_valid_key;
use crate::records::parse_with;
use crate::responses::{
    coord_response_binary, coord_response_binary_read, rd_sync_response, read_sync_response, sync_response_binary, write_sync_response,
    CoordinationResponseMsg, CoordinationResponseMsgView, SyncResponseMsg, SyncResponseMsgView,
};
use crate::session::{
    ledger_update_binary, rd_ledger_update,
    lemma_handshake_response_roundtrip, lemma_handshake_roundtrip,
    lemma_ledger_response_roundtrip, lemma_ledger_update_roundtrip, lemma_sync_roundtrip,
    HandshakeMsg, HandshakeMsgView, HandshakeResponseMsg, HandshakeResponseMsgView,
    LedgerUpdateMsg, LedgerUpdateMsgView, LedgerUpdateResponseMsg, LedgerUpdateResponseMsgView,
    SyncMsg, SyncMsgView,
};
use crate::session_binary::{
    handshake_binary, handshake_response_binary, ledger_response_binary, rd_handshake,
    rd_handshake_response, rd_ledger_response, rd_sync, sync_binary,
};
use crate::text::{text_with_hex4, upper_hex4};
use crate::tlv::{
    entries_map, error_is, invalid_fault, lemma_finite_map_sorted, lemma_map_roundtrip,
    map_bytes, map_within_limit, missing_fault, required, stream_parse, u16_of, StreamFault,
    TlvBuilder, TlvDecode, TlvEncode, TlvError, TlvReader, TlvResult, MAX_TLV_VALUE_LENGTH,
};
use crate::wire_messages::{
    add_output_binary, rd_add_output, rd_remove_output, remove_output_binary,
    lemma_add_output_roundtrip, lemma_remove_output_roundtrip, ReservesAddOutputMsg,
    ReservesAddOutputMsgView, ReservesRemoveOutputMsg, ReservesRemoveOutputMsgView,
};

verus! {

/// A protocol message.
#[derive(Clone, Debug, PartialEq, Eq)]
pub enum DepositsMessage {
    LedgerUpdate(LedgerUpdateMsg),
    LedgerUpdateResponse(LedgerUpdateResponseMsg),
    Handshake(HandshakeMsg),
    HandshakeResponse(HandshakeResponseMsg),
    Sync(SyncMsg),
    SyncResponse(SyncResponseMsg),
    Coordination(CoordinationMsg),
    CoordinationResponse(CoordinationResponseMsg),
    /// Asks a peer to add reserves to the commitment (not a ledger
    /// operation).
    ReservesAddOutput(ReservesAddOutputMsg),
    /// Asks a peer to remove reserves from the commitment (not a ledger
    /// operation).
    ReservesRemoveOutput(ReservesRemoveOutputMsg),
}

/// A protocol message as plain values.
pub enum DepositsMessageView {
    LedgerUpdate(LedgerUpdateMsgView),
    LedgerUpdateResponse(LedgerUpdateResponseMsgView),
    Handshake(HandshakeMsgView),
    HandshakeResponse(HandshakeResponseMsgView),
    Sync(SyncMsgView),
    SyncResponse(SyncResponseMsgView),
    Coordination(CoordinationMsgView),
    CoordinationResponse(CoordinationResponseMsgView),
    ReservesAddOutput(ReservesAddOutputMsgView),
    ReservesRemoveOutput(ReservesRemoveOutputMsgView),
}

impl View for DepositsMessage {
    type V = DepositsMessageView;

    open spec fn view(&self) -> DepositsMessageView {
        match self {
            DepositsMessage::LedgerUpdate(m) => DepositsMessageView::LedgerUpdate(m@),
            DepositsMessage::LedgerUpdateResponse(m) => DepositsMessageView::LedgerUpdateResponse(m@),
            DepositsMessage::Handshake(m) => DepositsMessageView::Handshake(m@),
            DepositsMessage::HandshakeResponse(m) => DepositsMessageView::HandshakeResponse(m@),
            DepositsMessage::Sync(m) => DepositsMessageView::Sync(m@),
            DepositsMessage::SyncResponse(m) => DepositsMessageView::SyncResponse(m@),
            DepositsMessage::Coordination(m) => DepositsMessageView::Coordination(m@),
            DepositsMessage::CoordinationResponse(m) => DepositsMessageView::CoordinationResponse(m@),
            DepositsMessage::ReservesAddOutput(m) => DepositsMessageView::ReservesAddOutput(m@),
            DepositsMessage::ReservesRemoveOutput(m) => DepositsMessageView::ReservesRemoveOutput(m@),
        }
    }
}

/// The wire type of a message.
pub open spec fn message_type_of(v: DepositsMessageView) -> u16 {
    match v {
        DepositsMessageView::LedgerUpdate(_) => LEDGER_UPDATE,
        DepositsMessageView::LedgerUpdateResponse(_) => LEDGER_UPDATE_RESPONSE,
        DepositsMessageView::Handshake(_) => HANDSHAKE,
        DepositsMessageView::HandshakeResponse(_) => HANDSHAKE_RESPONSE,
        DepositsMessageView::Sync(_) => SYNC,
        DepositsMessageView::SyncResponse(_) => SYNC_RESPONSE,
        DepositsMessageView::Coordination(_) => COORDINATION,
        DepositsMessageView::CoordinationResponse(_) => COORDINATION_RESPONSE,
        DepositsMessageView::ReservesAddOutput(_) => RESERVES_ADD_OUTPUT,
        DepositsMessageView::ReservesRemoveOutput(_) => RESERVES_REMOVE_OUTPUT,
    }
}

/// The name of a message's kind.
pub open spec fn message_variant_name(v: DepositsMessageView) -> Seq<char> {
    match v {
        DepositsMessageView::LedgerUpdate(_) => "LedgerUpdate"@,
        DepositsMessageView::LedgerUpdateResponse(_) => "LedgerUpdateResponse"@,
        DepositsMessageView::Handshake(_) => "Handshake"@,
        DepositsMessageView::HandshakeResponse(_) => "HandshakeResponse"@,
        DepositsMessageView::Sync(_) => "Sync"@,
        DepositsMessageView::SyncResponse(_) => "SyncResponse"@,
        DepositsMessageView::Coordination(_) => "Coordination"@,
        DepositsMessageView::CoordinationResponse(_) => "CoordinationResponse"@,
        DepositsMessageView::ReservesAddOutput(_) => "ReservesAddOutput"@,
        DepositsMessageView::ReservesRemoveOutput(_) => "ReservesRemoveOutput"@,
    }
}

/// The reserves identifier a coordination request names, for the kinds
/// that name one.
pub open spec fn coordination_reserves_id(v: CoordinationMsgView) -> Option<Seq<char>> {
    match v {
        CoordinationMsgView::CosignInvoice { reserves_id, .. } => Some(reserves_id),
        CoordinationMsgView::CollateralConsentRequest { reserves_id, .. } => Some(reserves_id),
        CoordinationMsgView::QuorumJoinRequest { reserves_id, .. } => Some(reserves_id),
        CoordinationMsgView::QuorumVoteRequest { reserves_id, .. } => Some(reserves_id),
        _ => None,
    }
}

/// The reserves identifier a coordination response names, for the kinds
/// that name one.
pub open spec fn coordination_response_reserves_id(v: CoordinationResponseMsgView) -> Option<
    Seq<char>,
> {
    match v {
        CoordinationResponseMsgView::CollateralConsentResponse { reserves_id, .. } => Some(reserves_id),
        CoordinationResponseMsgView::QuorumStateSync { reserves_id, .. } => Some(reserves_id),
        CoordinationResponseMsgView::QuorumMembershipChange { reserves_id, .. } => Some(reserves_id),
        _ => None,
    }
}

/// The reserves identifier a message names: none for sync messages, which
/// name a ledger instead.
pub open spec fn message_reserves_id(v: DepositsMessageView) -> Option<Seq<char>> {
    match v {
        DepositsMessageView::LedgerUpdate(m) => Some(m.reserves_id),
        DepositsMessageView::LedgerUpdateResponse(m) => Some(m.reserves_id),
        DepositsMessageView::Handshake(m) => Some(m.reserves_id),
        DepositsMessageView::HandshakeResponse(m) => Some(m.reserves_id),
        DepositsMessageView::Sync(_) => None,
        DepositsMessageView::SyncResponse(_) => None,
        DepositsMessageView::Coordination(m) => coordination_reserves_id(m),
        DepositsMessageView::CoordinationResponse(m) => coordination_response_reserves_id(m),
        DepositsMessageView::ReservesAddOutput(m) => Some(m.reserves_id),
        DepositsMessageView::ReservesRemoveOutput(m) => Some(m.reserves_id),
    }
}

/// An optional string by its characters.
pub open spec fn opt_chars(o: Option<String>) -> Option<Seq<char>> {
    match o {
        Some(s) => Some(s@),
        None => None,
    }
}

/// The binary payload of a message, after its type.
pub open spec fn payload_binary(v: DepositsMessageView) -> Seq<u8> {
    match v {
        DepositsMessageView::LedgerUpdate(m) => ledger_update_binary(m),
        DepositsMessageView::LedgerUpdateResponse(m) => ledger_response_binary(m),
        DepositsMessageView::Handshake(m) => handshake_binary(m),
        DepositsMessageView::HandshakeResponse(m) => handshake_response_binary(m),
        DepositsMessageView::Sync(m) => sync_binary(m),
        DepositsMessageView::SyncResponse(m) => sync_response_binary(m),
        DepositsMessageView::Coordination(m) => coordination_binary(m),
        DepositsMessageView::CoordinationResponse(m) => coord_response_binary(m),
        DepositsMessageView::ReservesAddOutput(m) => add_output_binary(m),
        DepositsMessageView::ReservesRemoveOutput(m) => remove_output_binary(m),
    }
}

/// The binary encoding of a message: its type as a big-endian `u16`, then
/// its payload.
pub open spec fn message_binary(v: DepositsMessageView) -> Seq<u8> {
    u16_be(message_type_of(v)) + payload_binary(v)
}

/// `r` with its value wrapped by `f`.
pub open spec fn wrap_read<T>(
    r: Result<T, CodecFailure>,
    f: spec_fn(T) -> DepositsMessageView,
) -> Result<DepositsMessageView, CodecFailure> {
    match r {
        Ok(v) => Ok(f(v)),
        Err(e) => Err(e),
    }
}

/// Reading the payload of a message of type `t` from `s`; trailing bytes
/// are ignored, and an unknown type is an error.
pub open spec fn payload_read(t: u16, s: Seq<u8>) -> Result<DepositsMessageView, CodecFailure> {
    if t == LEDGER_UPDATE {
        wrap_read(rd_ledger_update(s).0, |m| DepositsMessageView::LedgerUpdate(m))
    } else if t == LEDGER_UPDATE_RESPONSE {
        wrap_read(
            rd_ledger_response(s).0,
            |m| DepositsMessageView::LedgerUpdateResponse(m),
        )
    } else if t == HANDSHAKE {
        wrap_read(rd_handshake(s).0, |m| DepositsMessageView::Handshake(m))
    } else if t == HANDSHAKE_RESPONSE {
        wrap_read(rd_handshake_response(s).0, |m| DepositsMessageView::HandshakeResponse(m))
    } else if t == SYNC {
        wrap_read(rd_sync(s).0, |m| DepositsMessageView::Sync(m))
    } else if t == SYNC_RESPONSE {
        wrap_read(rd_sync_response(s).0, |m| DepositsMessageView::SyncResponse(m))
    } else if t == COORDINATION {
        wrap_read(coordination_binary_read(s).0, |m| DepositsMessageView::Coordination(m))
    } else if t == COORDINATION_RESPONSE {
        wrap_read(
            coord_response_binary_read(s).0,
            |m| DepositsMessageView::CoordinationResponse(m),
        )
    } else if t == RESERVES_ADD_OUTPUT {
        wrap_read(rd_add_output(s).0, |m| DepositsMessageView::ReservesAddOutput(m))
    } else if t == RESERVES_REMOVE_OUTPUT {
        wrap_read(
            rd_remove_output(s).0,
            |m| DepositsMessageView::ReservesRemoveOutput(m),
        )
    } else {
        Err((CodecFault::InvalidMessageType(t), seq![]))
    }
}

/// What decoding `data` in the binary encoding gives: too short without two
/// bytes of type, else the payload read for that type.
pub open spec fn message_decoded(data: Seq<u8>) -> Result<DepositsMessageView, CodecFailure> {
    if data.len() < 2 {
        Err((CodecFault::TooShort, seq![]))
    } else {
        payload_read(u16_from_be(data), data.skip(2))
    }
}

// ============================================================================
// TLV envelope
// ============================================================================

/// Field types of the TLV envelope.
pub const MESSAGE_TYPE: u64 = 0;
pub const MESSAGE_BODY: u64 = 2;

/// The TLV encoding of a message's body.
pub open spec fn body_tlv(m: DepositsMessage) -> Seq<u8> {
    match m {
        DepositsMessage::LedgerUpdate(x) => x.tlv_bytes(),
        DepositsMessage::LedgerUpdateResponse(x) => x.tlv_bytes(),
        DepositsMessage::Handshake(x) => x.tlv_bytes(),
        DepositsMessage::HandshakeResponse(x) => x.tlv_bytes(),
        DepositsMessage::Sync(x) => x.tlv_bytes(),
        DepositsMessage::SyncResponse(x) => x.tlv_bytes(),
        DepositsMessage::Coordination(x) => x.tlv_bytes(),
        DepositsMessage::CoordinationResponse(x) => x.tlv_bytes(),
        DepositsMessage::ReservesAddOutput(x) => x.tlv_bytes(),
        DepositsMessage::ReservesRemoveOutput(x) => x.tlv_bytes(),
    }
}

/// The fields of the TLV envelope of a message.
pub open spec fn envelope_fields(m: DepositsMessage) -> Map<u64, Seq<u8>> {
    Map::empty().insert(MESSAGE_TYPE, u16_be(message_type_of(m@))).insert(MESSAGE_BODY, body_tlv(m))
}

/// The reason given for an unknown message type.
pub open spec fn unknown_type_reason(t: u16) -> Seq<char> {
    "unknown message type: 0x"@ + upper_hex4(t)
}

/// `r` is what decoding the body `body` of a message of type `t` gives: the
/// outcome of decoding that type's body, wrapped; an unknown type is an
/// invalid type field.
pub open spec fn body_decodes(t: u16, body: Seq<u8>, r: TlvResult<DepositsMessage>) -> bool {
    if t == LEDGER_UPDATE {
        match r {
            Ok(DepositsMessage::LedgerUpdate(x)) => LedgerUpdateMsg::tlv_decodes(body, Ok(x)),
            Err(e) => LedgerUpdateMsg::tlv_decodes(body, Err(e)),
            _ => false,
        }
    } else if t == LEDGER_UPDATE_RESPONSE {
        match r {
            Ok(DepositsMessage::LedgerUpdateResponse(x)) => LedgerUpdateResponseMsg::tlv_decodes(body, Ok(x)),
            Err(e) => LedgerUpdateResponseMsg::tlv_decodes(body, Err(e)),
            _ => false,
        }
    } else if t == HANDSHAKE {
        match r {
            Ok(DepositsMessage::Handshake(x)) => HandshakeMsg::tlv_decodes(body, Ok(x)),
            Err(e) => HandshakeMsg::tlv_decodes(body, Err(e)),
            _ => false,
        }
    } else if t == HANDSHAKE_RESPONSE {
        match r {
            Ok(DepositsMessage::HandshakeResponse(x)) => HandshakeResponseMsg::tlv_decodes(body, Ok(x)),
            Err(e) => HandshakeResponseMsg::tlv_decodes(body, Err(e)),
            _ => false,
        }
    } else if t == SYNC {
        match r {
            Ok(DepositsMessage::Sync(x)) => SyncMsg::tlv_decodes(body, Ok(x)),
            Err(e) => SyncMsg::tlv_decodes(body, Err(e)),
            _ => false,
        }
    } else if t == SYNC_RESPONSE {
        match r {
            Ok(DepositsMessage::SyncResponse(x)) => SyncResponseMsg::tlv_decodes(body, Ok(x)),
            Err(e) => SyncResponseMsg::tlv_decodes(body, Err(e)),
            _ => false,
        }
    } else if t == COORDINATION {
        match r {
            Ok(DepositsMessage::Coordination(x)) => CoordinationMsg::tlv_decodes(body, Ok(x)),
            Err(e) => CoordinationMsg::tlv_decodes(body, Err(e)),
            _ => false,
        }
    } else if t == COORDINATION_RESPONSE {
        match r {
            Ok(DepositsMessage::CoordinationResponse(x)) => CoordinationResponseMsg::tlv_decodes(body, Ok(x)),
            Err(e) => CoordinationResponseMsg::tlv_decodes(body, Err(e)),
            _ => false,
        }
    } else if t == RESERVES_ADD_OUTPUT {
        match r {
            Ok(DepositsMessage::ReservesAddOutput(x)) => ReservesAddOutputMsg::tlv_decodes(body, Ok(x)),
            Err(e) => ReservesAddOutputMsg::tlv_decodes(body, Err(e)),
            _ => false,
        }
    } else if t == RESERVES_REMOVE_OUTPUT {
        match r {
            Ok(DepositsMessage::ReservesRemoveOutput(x)) => ReservesRemoveOutputMsg::tlv_decodes(body, Ok(x)),
            Err(e) => ReservesRemoveOutputMsg::tlv_decodes(body, Err(e)),
            _ => false,
        }
    } else {
        r is Err && error_is(r->Err_0, invalid_fault(MESSAGE_TYPE, unknown_type_reason(t)))
    }
}

/// `r` is what the decoded envelope fields `m` give: the type, then the
/// body, then the body decoded for that type.
pub open spec fn envelope_decodes(m: Map<u64, Seq<u8>>, r: TlvResult<DepositsMessage>) -> bool {
    match required(m, MESSAGE_TYPE, |d: Seq<u8>| u16_of(d)) {
        Err(f) => r is Err && error_is(r->Err_0, f),
        Ok(t) => if !m.contains_key(MESSAGE_BODY) {
            r is Err && error_is(r->Err_0, missing_fault(MESSAGE_BODY))
        } else {
            body_decodes(t, m[MESSAGE_BODY], r)
        },
    }
}

impl DepositsMessage {
    /// The wire type of this message.
    pub fn message_type(&self) -> (r: u16)
        ensures
            r == message_type_of(self@),
    {
        match self {
            DepositsMessage::LedgerUpdate(_) => LEDGER_UPDATE,
            DepositsMessage::LedgerUpdateResponse(_) => LEDGER_UPDATE_RESPONSE,
            DepositsMessage::Handshake(_) => HANDSHAKE,
            DepositsMessage::HandshakeResponse(_) => HANDSHAKE_RESPONSE,
            DepositsMessage::Sync(_) => SYNC,
            DepositsMessage::SyncResponse(_) => SYNC_RESPONSE,
            DepositsMessage::Coordination(_) => COORDINATION,
            DepositsMessage::CoordinationResponse(_) => COORDINATION_RESPONSE,
            DepositsMessage::ReservesAddOutput(_) => RESERVES_ADD_OUTPUT,
            DepositsMessage::ReservesRemoveOutput(_) => RESERVES_REMOVE_OUTPUT,
        }
    }

    /// The name of this message's kind.
    pub fn variant_name(&self) -> (r: &'static str)
        ensures
            r@ == message_variant_name(self@),
    {
        match self {
            DepositsMessage::LedgerUpdate(_) => "LedgerUpdate",
            DepositsMessage::LedgerUpdateResponse(_) => "LedgerUpdateResponse",
            DepositsMessage::Handshake(_) => "Handshake",
            DepositsMessage::HandshakeResponse(_) => "HandshakeResponse",
            DepositsMessage::Sync(_) => "Sync",
            DepositsMessage::SyncResponse(_) => "SyncResponse",
            DepositsMessage::Coordination(_) => "Coordination",
            DepositsMessage::CoordinationResponse(_) => "CoordinationResponse",
            DepositsMessage::ReservesAddOutput(_) => "ReservesAddOutput",
            DepositsMessage::ReservesRemoveOutput(_) => "ReservesRemoveOutput",
        }
    }

    /// The reserves identifier this message names, if any.
    pub fn reserves_id(&self) -> (r: Option<String>)
        ensures
            opt_chars(r) == message_reserves_id(self@),
    {
        match self {
            DepositsMessage::LedgerUpdate(m) => Some(m.reserves_id.clone()),
            DepositsMessage::LedgerUpdateResponse(m) => Some(m.reserves_id.clone()),
            DepositsMessage::Handshake(m) => Some(m.reserves_id.clone()),
            DepositsMessage::HandshakeResponse(m) => Some(m.reserves_id.clone()),
            DepositsMessage::Sync(_) => None,
            DepositsMessage::SyncResponse(_) => None,
            DepositsMessage::Coordination(m) => m.reserves_id(),
            DepositsMessage::CoordinationResponse(m) => m.reserves_id(),
            DepositsMessage::ReservesAddOutput(m) => Some(m.reserves_id.clone()),
            DepositsMessage::ReservesRemoveOutput(m) => Some(m.reserves_id.clone()),
        }
    }

    /// The ledger operation this message carries: that of a ledger update,
    /// none for the other kinds.
    pub fn to_operation(&self) -> (r: Option<LedgerOperation>)
        ensures
            match self {
                DepositsMessage::LedgerUpdate(m) => r matches Some(op) && op@ == m.operation@,
                _ => r is None,
            },
    {
        match self {
            DepositsMessage::LedgerUpdate(m) => Some(copy_operation(&m.operation)),
            _ => None,
        }
    }

    /// The binary encoding: the type as a big-endian `u16`, then the
    /// payload.
    pub fn encode(&self) -> (r: Vec<u8>)
        ensures
            r@ == message_binary(self@),
    {
        let mut bytes: Vec<u8> = Vec::new();
        push_u16_be(&mut bytes, self.message_type());
        let ghost start = bytes@;
        let _ = match self {
            DepositsMessage::LedgerUpdate(m) => m.write_to(&mut bytes),
            DepositsMessage::LedgerUpdateResponse(m) => m.write_to(&mut bytes),
            DepositsMessage::Handshake(m) => m.write_to(&mut bytes),
            DepositsMessage::HandshakeResponse(m) => m.write_to(&mut bytes),
            DepositsMessage::Sync(m) => m.write_to(&mut bytes),
            DepositsMessage::SyncResponse(m) => {
                write_sync_response(m, &mut bytes);
                Ok(())
            },
            DepositsMessage::Coordination(m) => m.write_to(&mut bytes),
            DepositsMessage::CoordinationResponse(m) => m.write_to(&mut bytes),
            DepositsMessage::ReservesAddOutput(m) => m.write_to(&mut bytes),
            DepositsMessage::ReservesRemoveOutput(m) => m.write_to(&mut bytes),
        };
        assert(bytes@ =~= start + payload_binary(self@));
        bytes
    }

    /// Decodes the binary encoding; bytes after the payload are ignored.
    pub fn decode(bytes: &[u8]) -> (r: Result<Self, CodecError>)
        ensures
            read_is_view(r, message_decoded(bytes@)),
    {
        if bytes.len() < 2 {
            return Err(CodecError::TooShort);
        }
        let message_type = get_u16_be(bytes, 0);
        assert(u16_from_be(bytes@.subrange(0, 2)) == u16_from_be(bytes@));
        let mut pos: usize = 2;
        if message_type == LEDGER_UPDATE {
            match LedgerUpdateMsg::read_from(bytes, &mut pos) {
                Ok(m) => Ok(DepositsMessage::LedgerUpdate(m)),
                Err(e) => Err(e),
            }
        } else if message_type == LEDGER_UPDATE_RESPONSE {
            match LedgerUpdateResponseMsg::read_from(bytes, &mut pos) {
                Ok(m) => Ok(DepositsMessage::LedgerUpdateResponse(m)),
                Err(e) => Err(e),
            }
        } else if message_type == HANDSHAKE {
            match HandshakeMsg::read_from(bytes, &mut pos) {
                Ok(m) => Ok(DepositsMessage::Handshake(m)),
                Err(e) => Err(e),
            }
        } else if message_type == HANDSHAKE_RESPONSE {
            match HandshakeResponseMsg::read_from(bytes, &mut pos) {
                Ok(m) => Ok(DepositsMessage::HandshakeResponse(m)),
                Err(e) => Err(e),
            }
        } else if message_type == SYNC {
            match SyncMsg::read_from(bytes, &mut pos) {
                Ok(m) => Ok(DepositsMessage::Sync(m)),
                Err(e) => Err(e),
            }
        } else if message_type == SYNC_RESPONSE {
            match read_sync_response(bytes, &mut pos) {
                Ok(m) => Ok(DepositsMessage::SyncResponse(m)),
                Err(e) => Err(e),
            }
        } else if message_type == COORDINATION {
            match CoordinationMsg::read_from(bytes, &mut pos) {
                Ok(m) => Ok(DepositsMessage::Coordination(m)),
                Err(e) => Err(e),
            }
        } else if message_type == COORDINATION_RESPONSE {
            match CoordinationResponseMsg::read_from(bytes, &mut pos) {
                Ok(m) => Ok(DepositsMessage::CoordinationResponse(m)),
                Err(e) => Err(e),
            }
        } else if message_type == RESERVES_ADD_OUTPUT {
            match ReservesAddOutputMsg::read_from(bytes, &mut pos) {
                Ok(m) => Ok(DepositsMessage::ReservesAddOutput(m)),
                Err(e) => Err(e),
            }
        } else if message_type == RESERVES_REMOVE_OUTPUT {
            match ReservesRemoveOutputMsg::read_from(bytes, &mut pos) {
                Ok(m) => Ok(DepositsMessage::ReservesRemoveOutput(m)),
                Err(e) => Err(e),
            }
        } else {
            Err(CodecError::InvalidMessageType(message_type))
        }
    }
}

/// The TLV encoding of a message's body.
fn body_tlv_encode(m: &DepositsMessage) -> (r: Vec<u8>)
    ensures
        r@ == body_tlv(*m),
{
    match m {
        DepositsMessage::LedgerUpdate(x) => x.tlv_encode(),
        DepositsMessage::LedgerUpdateResponse(x) => x.tlv_encode(),
        DepositsMessage::Handshake(x) => x.tlv_encode(),
        DepositsMessage::HandshakeResponse(x) => x.tlv_encode(),
        DepositsMessage::Sync(x) => x.tlv_encode(),
        DepositsMessage::SyncResponse(x) => x.tlv_encode(),
        DepositsMessage::Coordination(x) => x.tlv_encode(),
        DepositsMessage::CoordinationResponse(x) => x.tlv_encode(),
        DepositsMessage::ReservesAddOutput(x) => x.tlv_encode(),
        DepositsMessage::ReservesRemoveOutput(x) => x.tlv_encode(),
    }
}

/// Decodes the body of a message of type `t`.
fn decode_body(t: u16, body: &[u8]) -> (r: TlvResult<DepositsMessage>)
    ensures
        body_decodes(t, body@, r),
{
    if t == LEDGER_UPDATE {
        match LedgerUpdateMsg::tlv_decode(body) {
            Ok(m) => Ok(DepositsMessage::LedgerUpdate(m)),
            Err(e) => Err(e),
        }
    } else if t == LEDGER_UPDATE_RESPONSE {
        match LedgerUpdateResponseMsg::tlv_decode(body) {
            Ok(m) => Ok(DepositsMessage::LedgerUpdateResponse(m)),
            Err(e) => Err(e),
        }
    } else if t == HANDSHAKE {
        match HandshakeMsg::tlv_decode(body) {
            Ok(m) => Ok(DepositsMessage::Handshake(m)),
            Err(e) => Err(e),
        }
    } else if t == HANDSHAKE_RESPONSE {
        match HandshakeResponseMsg::tlv_decode(body) {
            Ok(m) => Ok(DepositsMessage::HandshakeResponse(m)),
            Err(e) => Err(e),
        }
    } else if t == SYNC {
        match SyncMsg::tlv_decode(body) {
            Ok(m) => Ok(DepositsMessage::Sync(m)),
            Err(e) => Err(e),
        }
    } else if t == SYNC_RESPONSE {
        match SyncResponseMsg::tlv_decode(body) {
            Ok(m) => Ok(DepositsMessage::SyncResponse(m)),
            Err(e) => Err(e),
        }
    } else if t == COORDINATION {
        match CoordinationMsg::tlv_decode(body) {
            Ok(m) => Ok(DepositsMessage::Coordination(m)),
            Err(e) => Err(e),
        }
    } else if t == COORDINATION_RESPONSE {
        match CoordinationResponseMsg::tlv_decode(body) {
            Ok(m) => Ok(DepositsMessage::CoordinationResponse(m)),
            Err(e) => Err(e),
        }
    } else if t == RESERVES_ADD_OUTPUT {
        match ReservesAddOutputMsg::tlv_decode(body) {
            Ok(m) => Ok(DepositsMessage::ReservesAddOutput(m)),
            Err(e) => Err(e),
        }
    } else if t == RESERVES_REMOVE_OUTPUT {
        match ReservesRemoveOutputMsg::tlv_decode(body) {
            Ok(m) => Ok(DepositsMessage::ReservesRemoveOutput(m)),
            Err(e) => Err(e),
        }
    } else {
        let reason = text_with_hex4("unknown message type: 0x", t);
        Err(TlvError::InvalidFieldValue { field_type: MESSAGE_TYPE, reason })
    }
}

impl TlvEncode for DepositsMessage {
    open spec fn tlv_bytes(&self) -> Seq<u8> {
        map_bytes(envelope_fields(*self))
    }

    fn tlv_encode(&self) -> (r: Vec<u8>) {
        let body = body_tlv_encode(self);
        let b = TlvBuilder::new().u16_field(MESSAGE_TYPE, self.message_type()).bytes_field(
            MESSAGE_BODY,
            body.as_slice(),
        );
        assert(b@ =~= envelope_fields(*self));
        b.build()
    }
}

impl TlvDecode for DepositsMessage {
    open spec fn tlv_decodes(data: Seq<u8>, r: TlvResult<Self>) -> bool {
        match stream_parse(data, None) {
            Err(f) => r is Err && error_is(r->Err_0, f),
            Ok(es) => envelope_decodes(entries_map(es), r),
        }
    }

    fn tlv_decode(data: &[u8]) -> (r: TlvResult<Self>) {
        let reader = match TlvReader::new(data) {
            Ok(r) => r,
            Err(e) => {
                return Err(e);
            },
        };
        let msg_type = match reader.read_u16(MESSAGE_TYPE) {
            Ok(t) => t,
            Err(e) => {
                return Err(e);
            },
        };
        let body = match reader.read_raw(MESSAGE_BODY) {
            Ok(b) => b,
            Err(e) => {
                return Err(e);
            },
        };
        decode_body(msg_type, body)
    }
}

/// The conditions under which the TLV body of a message decodes back to
/// it: its keys are valid and every field, and the body itself, fits a TLV
/// value.
pub open spec fn envelope_fits(m: DepositsMessage) -> bool {
    &&& body_tlv(m).len() <= MAX_TLV_VALUE_LENGTH
    &&& match m {
        DepositsMessage::LedgerUpdate(x) => {
            &&& is_valid_key(x.operator_id@)
            &&& encode_utf8(x.reserves_id@).len() <= MAX_TLV_VALUE_LENGTH
            &&& operation_fits(x.operation@)
            &&& x.operation.tlv_bytes().len() <= MAX_TLV_VALUE_LENGTH
        },
        DepositsMessage::LedgerUpdateResponse(x) => {
            &&& is_valid_key(x.operator_id@)
            &&& encode_utf8(x.reserves_id@).len() <= MAX_TLV_VALUE_LENGTH
            &&& (x.error matches Some(t) ==> encode_utf8(t@).len() <= MAX_TLV_VALUE_LENGTH)
        },
        DepositsMessage::Handshake(x) => {
            &&& is_valid_key(x.operator_id@)
            &&& encode_utf8(x.reserves_id@).len() <= MAX_TLV_VALUE_LENGTH
        },
        DepositsMessage::HandshakeResponse(x) => {
            &&& encode_utf8(x.reserves_id@).len() <= MAX_TLV_VALUE_LENGTH
            &&& (x.error matches Some(t) ==> encode_utf8(t@).len() <= MAX_TLV_VALUE_LENGTH)
        },
        DepositsMessage::Coordination(x) => coordination_fits(x@),
        DepositsMessage::ReservesAddOutput(x) => {
            &&& is_valid_key(x.spend_to@)
            &&& forall|i: int|
                #![trigger x.quorum_members@[i]]
                0 <= i < x.quorum_members@.len() ==> is_valid_key(x.quorum_members@[i]@)
            &&& encode_utf8(x.reserves_id@).len() <= MAX_TLV_VALUE_LENGTH
            &&& 33 * x.quorum_members@.len() <= MAX_TLV_VALUE_LENGTH
        },
        DepositsMessage::ReservesRemoveOutput(x) => encode_utf8(x.reserves_id@).len()
            <= MAX_TLV_VALUE_LENGTH,
        _ => true,
    }
}

/// Decoding the TLV envelope of a message gives the message back, for every
/// kind but the sync and coordination responses, wherever its parts fit.
pub proof fn lemma_deposits_message_tlv_roundtrip(m: DepositsMessage, r: TlvResult<DepositsMessage>)
    requires
        !(m is SyncResponse),
        !(m is CoordinationResponse),
        envelope_fits(m),
        DepositsMessage::tlv_decodes(m.tlv_bytes(), r),
    ensures
        r is Ok,
        r->Ok_0@ == m@,
{
    let f = envelope_fields(m);
    lemma_finite_map_sorted(f);
    lemma_u16_be(message_type_of(m@), seq![]);
    assert(map_within_limit(f));
    lemma_map_roundtrip(f);
    match m {
        DepositsMessage::LedgerUpdate(x) => {
            x.operator_id.lemma_view();
            lemma_ledger_update_roundtrip(x);
        },
        DepositsMessage::LedgerUpdateResponse(x) => {
            x.operator_id.lemma_view();
            lemma_ledger_response_roundtrip(x@);
        },
        DepositsMessage::Handshake(x) => {
            x.operator_id.lemma_view();
            lemma_handshake_roundtrip(x@);
        },
        DepositsMessage::HandshakeResponse(x) => {
            lemma_handshake_response_roundtrip(x@);
        },
        DepositsMessage::Sync(x) => {
            lemma_sync_roundtrip(x@);
        },
        DepositsMessage::Coordination(x) => {
            lemma_coordination_tlv_roundtrip(x@);
        },
        DepositsMessage::ReservesAddOutput(x) => {
            x.spend_to.lemma_view();
            assert forall|i: int|
                #![trigger x@.quorum_members[i]]
                0 <= i < x@.quorum_members.len() implies is_valid_key(x@.quorum_members[i])
                && x@.quorum_members[i].len() == 33 by {
                x.quorum_members@[i].lemma_view();
            }
            lemma_add_output_roundtrip(x@);
        },
        DepositsMessage::ReservesRemoveOutput(x) => {
            lemma_remove_output_roundtrip(x@);
        },
        _ => {},
    }
}

} // verus!
