//! The binary encodings of the session messages that the message envelope
//! carries: fixed-width big-endian integers, strings behind a 32-bit length,
//! options behind a one-byte flag.

use vstd::prelude::*;
use vstd::utf8::encode_utf8;

use crate::bytes::{u16_be, u32_be, u64_be};
use crate::codec::{
    length_prefixed, rd_exact, rd_pubkey, rd_string, rd_u16, rd_u32, rd_u64, rd_u8, read_32,
    read_bool, read_pubkey, read_string, read_u16, read_u32, read_u64, write_32, write_bool,
    write_pubkey, write_string, write_u16, write_u32, write_u64, CodecError, Read,
};
use crate::operation::{opt_bytes, opt_text};
use crate::operation_binary::{
    option_bytes, opt_string_binary, rd_option_exact, rd_option_string, read_option_64,
    read_option_string, write_option_64, write_option_string, BinaryCodec,
};
use crate::session::{
    flag_byte, HandshakeMsg, HandshakeMsgView, HandshakeResponseMsg, HandshakeResponseMsgView,
    LedgerUpdateResponseMsg, LedgerUpdateResponseMsgView, SyncMsg, SyncMsgView,
};

verus! {

// ============================================================================
// Ledger update response
// ============================================================================

/// The binary encoding of a ledger update response.
pub open spec fn ledger_response_binary(v: LedgerUpdateResponseMsgView) -> Seq<u8> {
    v.operator_id + length_prefixed(encode_utf8(v.reserves_id)) + v.request_hash + seq![
        flag_byte(v.accepted),
    ] + option_bytes(opt_string_binary(v.error)) + option_bytes(v.cosign_signature) + u64_be(
        v.confirmed_sequence,
    ) + v.confirmed_hash
}

/// Reading a ledger update response: its fields in order, the first
/// failure reported.
pub open spec fn rd_ledger_response(s: Seq<u8>) -> Read<LedgerUpdateResponseMsgView> {
    let (a, s1) = rd_pubkey(s);
    if a is Err {
        (Err(a->Err_0), s1)
    } else {
        let (b, s2) = rd_string(s1);
        if b is Err {
            (Err(b->Err_0), s2)
        } else {
            let (c, s3) = rd_exact(s2, 32);
            if c is Err {
                (Err(c->Err_0), s3)
            } else {
                let (d, s4) = rd_u8(s3);
                if d is Err {
                    (Err(d->Err_0), s4)
                } else {
                    let (e, s5) = rd_option_string(s4);
                    if e is Err {
                        (Err(e->Err_0), s5)
                    } else {
                        let (f, s6) = rd_option_exact(s5, 64);
                        if f is Err {
                            (Err(f->Err_0), s6)
                        } else {
                            let (g, s7) = rd_u64(s6);
                            if g is Err {
                                (Err(g->Err_0), s7)
                            } else {
                                let (h, s8) = rd_exact(s7, 32);
                                if h is Err {
                                    (Err(h->Err_0), s8)
                                } else {
                                    (
                                        Ok(
                                            LedgerUpdateResponseMsgView {
                                                operator_id: a->Ok_0,
                                                reserves_id: b->Ok_0,
                                                request_hash: c->Ok_0,
                                                accepted: d->Ok_0 != 0,
                                                error: e->Ok_0,
                                                cosign_signature: f->Ok_0,
                                                confirmed_sequence: g->Ok_0,
                                                confirmed_hash: h->Ok_0,
                                            },
                                        ),
                                        s8,
                                    )
                                }
                            }
                        }
                    }
                }
            }
        }
    }
}

impl BinaryCodec for LedgerUpdateResponseMsg {
    open spec fn binary_of(v: LedgerUpdateResponseMsgView) -> Seq<u8> {
        ledger_response_binary(v)
    }

    open spec fn binary_read(s: Seq<u8>) -> Read<LedgerUpdateResponseMsgView> {
        rd_ledger_response(s)
    }

    fn write_to(&self, w: &mut Vec<u8>) -> (r: Result<(), CodecError>) {
        write_pubkey(w, &self.operator_id);
        write_string(w, self.reserves_id.as_str());
        write_32(w, &self.request_hash);
        write_bool(w, self.accepted);
        write_option_string(w, &self.error);
        write_option_64(w, &self.cosign_signature);
        write_u64(w, self.confirmed_sequence);
        write_32(w, &self.confirmed_hash);
        assert(w@ =~= old(w)@ + ledger_response_binary(self@));
        Ok(())
    }

    fn read_from(data: &[u8], pos: &mut usize) -> (r: Result<Self, CodecError>) {
        let operator_id = match read_pubkey(data, pos) {
            Ok(v) => v,
            Err(e) => {
                return Err(e);
            },
        };
        let reserves_id = match read_string(data, pos) {
            Ok(v) => v,
            Err(e) => {
                return Err(e);
            },
        };
        let request_hash = match read_32(data, pos) {
            Ok(v) => v,
            Err(e) => {
                return Err(e);
            },
        };
        let accepted = match read_bool(data, pos) {
            Ok(v) => v,
            Err(e) => {
                return Err(e);
            },
        };
        let error = match read_option_string(data, pos) {
            Ok(v) => v,
            Err(e) => {
                return Err(e);
            },
        };
        let cosign_signature = match read_option_64(data, pos) {
            Ok(v) => v,
            Err(e) => {
                return Err(e);
            },
        };
        let confirmed_sequence = match read_u64(data, pos) {
            Ok(v) => v,
            Err(e) => {
                return Err(e);
            },
        };
        let confirmed_hash = match read_32(data, pos) {
            Ok(v) => v,
            Err(e) => {
                return Err(e);
            },
        };
        Ok(
            LedgerUpdateResponseMsg {
                operator_id,
                reserves_id,
                request_hash,
                accepted,
                error,
                cosign_signature,
                confirmed_sequence,
                confirmed_hash,
            },
        )
    }
}

// ============================================================================
// Handshake
// ============================================================================

/// The binary encoding of a handshake, ending in four reserved zero bytes.
pub open spec fn handshake_binary(v: HandshakeMsgView) -> Seq<u8> {
    u16_be(v.protocol_version) + u16_be(v.min_protocol_version) + u32_be(v.features)
        + v.operator_id + length_prefixed(encode_utf8(v.reserves_id)) + v.funding_txid + u16_be(
        v.funding_vout,
    ) + u32_be(0)
}

/// Reading a handshake: its fields in order, then four reserved bytes read
/// and ignored.
pub open spec fn rd_handshake(s: Seq<u8>) -> Read<HandshakeMsgView> {
    let (a, s1) = rd_u16(s);
    if a is Err {
        (Err(a->Err_0), s1)
    } else {
        let (b, s2) = rd_u16(s1);
        if b is Err {
            (Err(b->Err_0), s2)
        } else {
            let (c, s3) = rd_u32(s2);
            if c is Err {
                (Err(c->Err_0), s3)
            } else {
                let (d, s4) = rd_pubkey(s3);
                if d is Err {
                    (Err(d->Err_0), s4)
                } else {
                    let (e, s5) = rd_string(s4);
                    if e is Err {
                        (Err(e->Err_0), s5)
                    } else {
                        let (f, s6) = rd_exact(s5, 32);
                        if f is Err {
                            (Err(f->Err_0), s6)
                        } else {
                            let (g, s7) = rd_u16(s6);
                            if g is Err {
                                (Err(g->Err_0), s7)
                            } else {
                                let (h, s8) = rd_u32(s7);
                                if h is Err {
                                    (Err(h->Err_0), s8)
                                } else {
                                    (
                                        Ok(
                                            HandshakeMsgView {
                                                protocol_version: a->Ok_0,
                                                min_protocol_version: b->Ok_0,
                                                features: c->Ok_0,
                                                operator_id: d->Ok_0,
                                                reserves_id: e->Ok_0,
                                                funding_txid: f->Ok_0,
                                                funding_vout: g->Ok_0,
                                            },
                                        ),
                                        s8,
                                    )
                                }
                            }
                        }
                    }
                }
            }
        }
    }
}

impl BinaryCodec for HandshakeMsg {
    open spec fn binary_of(v: HandshakeMsgView) -> Seq<u8> {
        handshake_binary(v)
    }

    open spec fn binary_read(s: Seq<u8>) -> Read<HandshakeMsgView> {
        rd_handshake(s)
    }

    fn write_to(&self, w: &mut Vec<u8>) -> (r: Result<(), CodecError>) {
        write_u16(w, self.protocol_version);
        write_u16(w, self.min_protocol_version);
        write_u32(w, self.features);
        write_pubkey(w, &self.operator_id);
        write_string(w, self.reserves_id.as_str());
        write_32(w, &self.funding_txid);
        write_u16(w, self.funding_vout);
        write_u32(w, 0);
        assert(w@ =~= old(w)@ + handshake_binary(self@));
        Ok(())
    }

    fn read_from(data: &[u8], pos: &mut usize) -> (r: Result<Self, CodecError>) {
        let protocol_version = match read_u16(data, pos) {
            Ok(v) => v,
            Err(e) => {
                return Err(e);
            },
        };
        let min_protocol_version = match read_u16(data, pos) {
            Ok(v) => v,
            Err(e) => {
                return Err(e);
            },
        };
        let features = match read_u32(data, pos) {
            Ok(v) => v,
            Err(e) => {
                return Err(e);
            },
        };
        let operator_id = match read_pubkey(data, pos) {
            Ok(v) => v,
            Err(e) => {
                return Err(e);
            },
        };
        let reserves_id = match read_string(data, pos) {
            Ok(v) => v,
            Err(e) => {
                return Err(e);
            },
        };
        let funding_txid = match read_32(data, pos) {
            Ok(v) => v,
            Err(e) => {
                return Err(e);
            },
        };
        let funding_vout = match read_u16(data, pos) {
            Ok(v) => v,
            Err(e) => {
                return Err(e);
            },
        };
        match read_u32(data, pos) {
            Ok(_) => {},
            Err(e) => {
                return Err(e);
            },
        }
        Ok(
            HandshakeMsg {
                protocol_version,
                min_protocol_version,
                features,
                operator_id,
                reserves_id,
                funding_txid,
                funding_vout,
            },
        )
    }
}

// ============================================================================
// Handshake response
// ============================================================================

/// The binary encoding of a handshake response.
pub open spec fn handshake_response_binary(v: HandshakeResponseMsgView) -> Seq<u8> {
    v.request_hash + u16_be(v.protocol_version) + seq![flag_byte(v.accepted)] + option_bytes(
        opt_string_binary(v.error),
    ) + length_prefixed(encode_utf8(v.reserves_id))
}

/// Reading a handshake response: its fields in order, the first failure
/// reported.
pub open spec fn rd_handshake_response(s: Seq<u8>) -> Read<HandshakeResponseMsgView> {
    let (a, s1) = rd_exact(s, 32);
    if a is Err {
        (Err(a->Err_0), s1)
    } else {
        let (b, s2) = rd_u16(s1);
        if b is Err {
            (Err(b->Err_0), s2)
        } else {
            let (c, s3) = rd_u8(s2);
            if c is Err {
                (Err(c->Err_0), s3)
            } else {
                let (d, s4) = rd_option_string(s3);
                if d is Err {
                    (Err(d->Err_0), s4)
                } else {
                    let (e, s5) = rd_string(s4);
                    if e is Err {
                        (Err(e->Err_0), s5)
                    } else {
                        (
                            Ok(
                                HandshakeResponseMsgView {
                                    request_hash: a->Ok_0,
                                    protocol_version: b->Ok_0,
                                    accepted: c->Ok_0 != 0,
                                    error: d->Ok_0,
                                    reserves_id: e->Ok_0,
                                },
                            ),
                            s5,
                        )
                    }
                }
            }
        }
    }
}

impl BinaryCodec for HandshakeResponseMsg {
    open spec fn binary_of(v: HandshakeResponseMsgView) -> Seq<u8> {
        handshake_response_binary(v)
    }

    open spec fn binary_read(s: Seq<u8>) -> Read<HandshakeResponseMsgView> {
        rd_handshake_response(s)
    }

    fn write_to(&self, w: &mut Vec<u8>) -> (r: Result<(), CodecError>) {
        write_32(w, &self.request_hash);
        write_u16(w, self.protocol_version);
        write_bool(w, self.accepted);
        write_option_string(w, &self.error);
        write_string(w, self.reserves_id.as_str());
        assert(w@ =~= old(w)@ + handshake_response_binary(self@));
        Ok(())
    }

    fn read_from(data: &[u8], pos: &mut usize) -> (r: Result<Self, CodecError>) {
        let request_hash = match read_32(data, pos) {
            Ok(v) => v,
            Err(e) => {
                return Err(e);
            },
        };
        let protocol_version = match read_u16(data, pos) {
            Ok(v) => v,
            Err(e) => {
                return Err(e);
            },
        };
        let accepted = match read_bool(data, pos) {
            Ok(v) => v,
            Err(e) => {
                return Err(e);
            },
        };
        let error = match read_option_string(data, pos) {
            Ok(v) => v,
            Err(e) => {
                return Err(e);
            },
        };
        let reserves_id = match read_string(data, pos) {
            Ok(v) => v,
            Err(e) => {
                return Err(e);
            },
        };
        Ok(HandshakeResponseMsg { request_hash, protocol_version, accepted, error, reserves_id })
    }
}

// ============================================================================
// Sync request and response
// ============================================================================

/// The binary encoding of a sync request.
pub open spec fn sync_binary(v: SyncMsgView) -> Seq<u8> {
    v.ledger_id + u64_be(v.last_known_sequence) + v.last_known_hash
}

/// Reading a sync request.
pub open spec fn rd_sync(s: Seq<u8>) -> Read<SyncMsgView> {
    let (a, s1) = rd_exact(s, 32);
    if a is Err {
        (Err(a->Err_0), s1)
    } else {
        let (b, s2) = rd_u64(s1);
        if b is Err {
            (Err(b->Err_0), s2)
        } else {
            let (c, s3) = rd_exact(s2, 32);
            if c is Err {
                (Err(c->Err_0), s3)
            } else {
                (
                    Ok(
                        SyncMsgView {
                            ledger_id: a->Ok_0,
                            last_known_sequence: b->Ok_0,
                            last_known_hash: c->Ok_0,
                        },
                    ),
                    s3,
                )
            }
        }
    }
}

impl BinaryCodec for SyncMsg {
    open spec fn binary_of(v: SyncMsgView) -> Seq<u8> {
        sync_binary(v)
    }

    open spec fn binary_read(s: Seq<u8>) -> Read<SyncMsgView> {
        rd_sync(s)
    }

    fn write_to(&self, w: &mut Vec<u8>) -> (r: Result<(), CodecError>) {
        write_32(w, &self.ledger_id);
        write_u64(w, self.last_known_sequence);
        write_32(w, &self.last_known_hash);
        assert(w@ =~= old(w)@ + sync_binary(self@));
        Ok(())
    }

    fn read_from(data: &[u8], pos: &mut usize) -> (r: Result<Self, CodecError>) {
        let ledger_id = match read_32(data, pos) {
            Ok(v) => v,
            Err(e) => {
                return Err(e);
            },
        };
        let last_known_sequence = match read_u64(data, pos) {
            Ok(v) => v,
            Err(e) => {
                return Err(e);
            },
        };
        let last_known_hash = match read_32(data, pos) {
            Ok(v) => v,
            Err(e) => {
                return Err(e);
            },
        };
        Ok(SyncMsg { ledger_id, last_known_sequence, last_known_hash })
    }
}

} // verus!
