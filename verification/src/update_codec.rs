//! Signed updates on the wire: the legacy binary encoding and the TLV
//! encoding, with the content hash recomputed on decoding.

use vstd::prelude::*;

use crate::bytes::{
    array_at, bytes_eq, copy_range, extend_bytes, get_u16_be, push_u16_be, u16_be, u16_from_be, u32_be,
    u64_be, u64_le,
};
use crate::codec::{
    length_prefixed, rd_bytes, rd_exact, rd_pubkey, rd_u16, rd_u32, rd_u64, rd_u8, read_32,
    read_64, read_bytes, read_is_view, read_pubkey, read_u16, read_u32, read_u64, read_u8,
    write_32, write_64, write_bytes, write_pubkey, write_u16, write_u32, write_u64, write_u8,
    CodecError, Read,
};
use crate::crypto::sha2_digest_of;
use crate::operation::{message_type_in, LedgerOperation};
use crate::operation_binary::{option_bytes, rd_option_exact, BinaryCodec};
use crate::pubkey::{secp256k1_parse, PublicKey};
use crate::coordination::raw_of;
use crate::operation_tlv::put_opt;
use crate::records::parse_with;
use crate::text::concat_text;
use crate::tlv::{
    bytes_of, error_is, invalid_fault, map_bytes, optional, pubkey_of, required, u32_of, u64_of,
    StreamFault, TlvBuilder, TlvDecode, TlvEncode, TlvError, TlvReader, TlvResult,
};
use crate::updates::{
    all_zero, content_preimage, entry_view, insert_entry, is_zero, sort_entries, CosignEntry,
    CosignView, SignedLedgerUpdate, SignedLedgerUpdateView,
};

verus! {

// ============================================================================
// Legacy binary encoding
// ============================================================================

/// The content hash covers, for an update without majority cosignatures:
/// the cosign data, the legacy member ledger hash where present, and the
/// legacy signature where nonzero.
pub open spec fn legacy_preimage(
    sequence_number: u64,
    previous_hash: Seq<u8>,
    message: Seq<u8>,
    member_ledger_hash: Option<Seq<u8>>,
    cosign_signature: Seq<u8>,
) -> Seq<u8> {
    u64_le(sequence_number) + previous_hash + message + (match member_ledger_hash {
        Some(h) => h,
        None => seq![],
    }) + if all_zero(cosign_signature) {
        seq![]
    } else {
        cosign_signature
    }
}

/// The legacy binary encoding of a signed update: its message behind its
/// length, then the fixed fields, then the legacy co-signer key and ledger
/// hash as options. Content hash and majority cosignatures are not written.
pub open spec fn update_binary(v: SignedLedgerUpdateView) -> Seq<u8> {
    length_prefixed(v.message) + u16_be(v.message_type) + v.operator_id + v.ledger_id + u64_be(
        v.sequence_number,
    ) + v.previous_hash + u32_be(v.block_height) + v.block_hash + v.cosign_signature
        + v.operator_signature + option_bytes(v.cosigner_pubkey) + option_bytes(v.member_ledger_hash)
}

/// Reading an optional key: a flag, then the key where the flag is set.
pub open spec fn rd_option_key(s: Seq<u8>) -> Read<Option<Seq<u8>>> {
    let (flag, s1) = rd_u8(s);
    match flag {
        Err(e) => (Err(e), s1),
        Ok(b) => if b != 0 {
            let (v, s2) = rd_pubkey(s1);
            match v {
                Ok(v) => (Ok(Some(v)), s2),
                Err(e) => (Err(e), s2),
            }
        } else {
            (Ok(None), s1)
        },
    }
}

/// An optional read whose failure counts as absence (what it consumed
/// stays consumed).
pub open spec fn lenient<T>(r: Read<Option<T>>) -> (Option<T>, Seq<u8>) {
    match r.0 {
        Ok(o) => (o, r.1),
        Err(_) => (None, r.1),
    }
}

/// The update the legacy fields describe: no majority cosignatures, and the
/// content hash computed from the rest.
pub open spec fn legacy_update(
    message: Seq<u8>,
    message_type: u16,
    operator_id: Seq<u8>,
    ledger_id: Seq<u8>,
    sequence_number: u64,
    previous_hash: Seq<u8>,
    block_height: u32,
    block_hash: Seq<u8>,
    cosign_signature: Seq<u8>,
    operator_signature: Seq<u8>,
    cosigner_pubkey: Option<Seq<u8>>,
    member_ledger_hash: Option<Seq<u8>>,
) -> SignedLedgerUpdateView {
    SignedLedgerUpdateView {
        message,
        message_type,
        operator_id,
        ledger_id,
        sequence_number,
        previous_hash,
        content_hash: sha2_digest_of(
            legacy_preimage(sequence_number, previous_hash, message, member_ledger_hash, cosign_signature),
        ),
        block_height,
        block_hash,
        cosign_signature,
        operator_signature,
        cosigner_pubkey,
        member_ledger_hash,
        cosignatures: seq![],
    }
}

/// Reading a signed update in the legacy encoding: the fixed fields in
/// order, the first failure reported; then the two options, a failure of
/// either read as absence.
pub open spec fn update_binary_read(s: Seq<u8>) -> Read<SignedLedgerUpdateView> {
    let (o1, s1) = rd_bytes(s);
    match o1 {
        Err(e) => (Err(e), s1),
        Ok(message) => {
            let (o2, s2) = rd_u16(s1);
            match o2 {
                Err(e) => (Err(e), s2),
                Ok(message_type) => {
                    let (o3, s3) = rd_pubkey(s2);
                    match o3 {
                        Err(e) => (Err(e), s3),
                        Ok(operator_id) => {
                            let (o4, s4) = rd_exact(s3, 32);
                            match o4 {
                                Err(e) => (Err(e), s4),
                                Ok(ledger_id) => {
                                    let (o5, s5) = rd_u64(s4);
                                    match o5 {
                                        Err(e) => (Err(e), s5),
                                        Ok(sequence_number) => {
                                            let (o6, s6) = rd_exact(s5, 32);
                                            match o6 {
                                                Err(e) => (Err(e), s6),
                                                Ok(previous_hash) => {
                                                    let (o7, s7) = rd_u32(s6);
                                                    match o7 {
                                                        Err(e) => (Err(e), s7),
                                                        Ok(block_height) => {
                                                            let (o8, s8) = rd_exact(s7, 32);
                                                            match o8 {
                                                                Err(e) => (Err(e), s8),
                                                                Ok(block_hash) => {
                                                                    let (o9, s9) = rd_exact(s8, 64);
                                                                    match o9 {
                                                                        Err(e) => (Err(e), s9),
                                                                        Ok(cosign_signature) => {
                                                                            let (o10, s10) = rd_exact(s9, 64);
                                                                            match o10 {
                                                                                Err(e) => (Err(e), s10),
                                                                                Ok(operator_signature) => {
                                                                                    let (k, s11) = lenient(rd_option_key(s10));
                                                                                    let (h, s12) = lenient(rd_option_exact(s11, 32));
                                                                                    (
                                                                                        Ok(
                                                                                            legacy_update(
                                                                                                message,
                                                                                                message_type,
                                                                                                operator_id,
                                                                                                ledger_id,
                                                                                                sequence_number,
                                                                                                previous_hash,
                                                                                                block_height,
                                                                                                block_hash,
                                                                                                cosign_signature,
                                                                                                operator_signature,
                                                                                                k,
                                                                                                h,
                                                                                            ),
                                                                                        ),
                                                                                        s12,
                                                                                    )
                                                                                },
                                                                            }
                                                                        },
                                                                    }
                                                                },
                                                            }
                                                        },
                                                    }
                                                },
                                            }
                                        },
                                    }
                                },
                            }
                        },
                    }
                },
            }
        },
    }
}

#[verifier::rlimit(40)]
#[verifier::spinoff_prover]
fn write_update(u: &SignedLedgerUpdate, w: &mut Vec<u8>)
    ensures
        final(w)@ == old(w)@ + update_binary(u@),
{
    write_bytes(w, u.message.as_slice());
    write_u16(w, u.message_type);
    write_pubkey(w, &u.operator_id);
    write_32(w, &u.ledger_id);
    write_u64(w, u.sequence_number);
    write_32(w, &u.previous_hash);
    write_u32(w, u.block_height);
    write_32(w, &u.block_hash);
    write_64(w, &u.cosign_signature);
    write_64(w, &u.operator_signature);
    match &u.cosigner_pubkey {
        Some(k) => {
            write_u8(w, 1);
            write_pubkey(w, k);
        },
        None => write_u8(w, 0),
    }
    match &u.member_ledger_hash {
        Some(h) => {
            write_u8(w, 1);
            write_32(w, h);
        },
        None => write_u8(w, 0),
    }
    assert(w@ =~= old(w)@ + update_binary(u@));
}

fn read_option_key(data: &[u8], pos: &mut usize) -> (r: Result<Option<PublicKey>, CodecError>)
    requires
        *old(pos) <= data@.len(),
    ensures
        *final(pos) <= data@.len(),
        data@.skip(*final(pos) as int) == rd_option_key(data@.skip(*old(pos) as int)).1,
        match rd_option_key(data@.skip(*old(pos) as int)).0 {
            Ok(Some(k)) => r matches Ok(Some(x)) && x@ == k,
            Ok(None) => r matches Ok(None),
            Err(_) => r is Err,
        },
{
    let flag = match read_u8(data, pos) {
        Ok(b) => b,
        Err(e) => {
            return Err(e);
        },
    };
    if flag != 0 {
        match read_pubkey(data, pos) {
            Ok(k) => Ok(Some(k)),
            Err(e) => Err(e),
        }
    } else {
        Ok(None)
    }
}

fn read_option_hash(data: &[u8], pos: &mut usize) -> (r: Result<Option<[u8; 32]>, CodecError>)
    requires
        *old(pos) <= data@.len(),
    ensures
        *final(pos) <= data@.len(),
        data@.skip(*final(pos) as int) == rd_option_exact(data@.skip(*old(pos) as int), 32).1,
        match rd_option_exact(data@.skip(*old(pos) as int), 32).0 {
            Ok(Some(h)) => r matches Ok(Some(x)) && x@ == h,
            Ok(None) => r matches Ok(None),
            Err(_) => r is Err,
        },
{
    let flag = match read_u8(data, pos) {
        Ok(b) => b,
        Err(e) => {
            return Err(e);
        },
    };
    if flag != 0 {
        match read_32(data, pos) {
            Ok(h) => Ok(Some(h)),
            Err(e) => Err(e),
        }
    } else {
        Ok(None)
    }
}

/// Reads a signed update in the legacy encoding and computes its content
/// hash.
#[verifier::rlimit(60)]
fn read_update(data: &[u8], pos: &mut usize) -> (r: Result<SignedLedgerUpdate, CodecError>)
    requires
        *old(pos) <= data@.len(),
    ensures
        *final(pos) <= data@.len(),
        data@.skip(*final(pos) as int) == update_binary_read(data@.skip(*old(pos) as int)).1,
        read_is_view(r, update_binary_read(data@.skip(*old(pos) as int)).0),
{
    let message = match read_bytes(data, pos) {
        Ok(v) => v,
        Err(e) => {
            return Err(e);
        },
    };
    let message_type = match read_u16(data, pos) {
        Ok(v) => v,
        Err(e) => {
            return Err(e);
        },
    };
    let operator_id = match read_pubkey(data, pos) {
        Ok(v) => v,
        Err(e) => {
            return Err(e);
        },
    };
    let ledger_id = match read_32(data, pos) {
        Ok(v) => v,
        Err(e) => {
            return Err(e);
        },
    };
    let sequence_number = match read_u64(data, pos) {
        Ok(v) => v,
        Err(e) => {
            return Err(e);
        },
    };
    let previous_hash = match read_32(data, pos) {
        Ok(v) => v,
        Err(e) => {
            return Err(e);
        },
    };
    let block_height = match read_u32(data, pos) {
        Ok(v) => v,
        Err(e) => {
            return Err(e);
        },
    };
    let block_hash = match read_32(data, pos) {
        Ok(v) => v,
        Err(e) => {
            return Err(e);
        },
    };
    let cosign_signature = match read_64(data, pos) {
        Ok(v) => v,
        Err(e) => {
            return Err(e);
        },
    };
    let operator_signature = match read_64(data, pos) {
        Ok(v) => v,
        Err(e) => {
            return Err(e);
        },
    };
    let cosigner_pubkey = match read_option_key(data, pos) {
        Ok(o) => o,
        Err(_) => None,
    };
    let member_ledger_hash = match read_option_hash(data, pos) {
        Ok(o) => o,
        Err(_) => None,
    };
    let mut update = SignedLedgerUpdate {
        message,
        message_type,
        operator_id,
        ledger_id,
        sequence_number,
        previous_hash,
        content_hash: [0u8; 32],
        block_height,
        block_hash,
        cosign_signature,
        operator_signature,
        cosigner_pubkey,
        member_ledger_hash,
        cosignatures: Vec::new(),
    };
    proof {
        assert(update.cosignatures@.len() == 0);
        assert(content_preimage(update) =~= legacy_preimage(
            sequence_number,
            previous_hash@,
            message@,
            update@.member_ledger_hash,
            cosign_signature@,
        ));
    }
    let h = update.compute_hash();
    update.content_hash = h;
    proof {
        assert(update.cosignatures@.map_values(|e: CosignEntry| entry_view(e)) =~= Seq::<
            CosignView,
        >::empty());
    }
    Ok(update)
}

impl BinaryCodec for SignedLedgerUpdate {
    open spec fn binary_of(v: SignedLedgerUpdateView) -> Seq<u8> {
        update_binary(v)
    }

    open spec fn binary_read(s: Seq<u8>) -> Read<SignedLedgerUpdateView> {
        update_binary_read(s)
    }

    fn write_to(&self, w: &mut Vec<u8>) -> (r: Result<(), CodecError>) {
        write_update(self, w);
        Ok(())
    }

    fn read_from(data: &[u8], pos: &mut usize) -> (r: Result<Self, CodecError>) {
        read_update(data, pos)
    }
}


// ============================================================================
// TLV encoding
// ============================================================================

/// Field types of an encoded signed update.
pub const SU_OPERATOR_ID: u64 = 0;
pub const SU_LEDGER_ID: u64 = 2;
pub const SU_SEQUENCE_NUMBER: u64 = 4;
pub const SU_PREVIOUS_HASH: u64 = 6;
pub const SU_MESSAGE: u64 = 8;
pub const SU_BLOCK_HEIGHT: u64 = 10;
pub const SU_BLOCK_HASH: u64 = 12;
pub const SU_COSIGNER_PUBKEY: u64 = 14;
pub const SU_MEMBER_LEDGER_HASH: u64 = 16;
pub const SU_COSIGN_SIGNATURE: u64 = 18;
pub const SU_OPERATOR_SIGNATURE: u64 = 20;
pub const SU_COSIGNATURES: u64 = 22;

/// Cosignature entries on the wire: each as its length (129) as a
/// big-endian `u16`, then key, signature and member ledger hash.
pub open spec fn cosig_entries_bytes(es: Seq<CosignEntry>) -> Seq<u8>
    decreases es.len(),
{
    if es.len() == 0 {
        seq![]
    } else {
        cosig_entries_bytes(es.drop_last()) + u16_be(129) + es.last().cosigner_pubkey@
            + es.last().cosign_signature@ + es.last().member_ledger_hash@
    }
}

/// The fields of an encoded signed update: identity, chain position and
/// message always; block height and hash where set; the sorted majority
/// cosignatures where there are any, else the legacy co-signer fields that
/// are set; and the operator signature.
pub open spec fn update_fields(u: SignedLedgerUpdate) -> Map<u64, Seq<u8>> {
    let base = Map::empty().insert(SU_OPERATOR_ID, u.operator_id@).insert(SU_LEDGER_ID, u.ledger_id@).insert(
        SU_SEQUENCE_NUMBER,
        u64_be(u.sequence_number),
    ).insert(SU_PREVIOUS_HASH, u.previous_hash@).insert(SU_MESSAGE, u.message@);
    let b1 = put_opt(
        base,
        SU_BLOCK_HEIGHT,
        if u.block_height != 0 {
            Some(u32_be(u.block_height))
        } else {
            None
        },
    );
    let b2 = put_opt(
        b1,
        SU_BLOCK_HASH,
        if all_zero(u.block_hash@) {
            None
        } else {
            Some(u.block_hash@)
        },
    );
    let b3 = if u.cosignatures@.len() > 0 {
        b2.insert(SU_COSIGNATURES, cosig_entries_bytes(sort_entries(u.cosignatures@)))
    } else {
        put_opt(
            put_opt(
                put_opt(
                    b2,
                    SU_COSIGNER_PUBKEY,
                    match u.cosigner_pubkey {
                        Some(k) => Some(k@),
                        None => None,
                    },
                ),
                SU_MEMBER_LEDGER_HASH,
                match u.member_ledger_hash {
                    Some(h) => Some(h@),
                    None => None,
                },
            ),
            SU_COSIGN_SIGNATURE,
            if all_zero(u.cosign_signature@) {
                None
            } else {
                Some(u.cosign_signature@)
            },
        )
    };
    b3.insert(SU_OPERATOR_SIGNATURE, u.operator_signature@)
}

/// The cosignature entries read from the bytes of field 22: entries in
/// order while a whole entry of at least 129 bytes remains; a key that does
/// not parse is an error.
pub open spec fn cosig_parse(raw: Seq<u8>) -> Result<Seq<CosignView>, StreamFault>
    decreases raw.len(),
{
    if raw.len() < 2 {
        Ok(seq![])
    } else {
        let n = u16_from_be(raw.subrange(0, 2)) as int;
        let rest = raw.skip(2);
        if n > rest.len() || n < 129 {
            Ok(seq![])
        } else {
            match secp256k1_parse(rest.subrange(0, 33)) {
                None => Err(invalid_fault(SU_COSIGNATURES, "cosig pubkey: malformed public key"@)),
                Some(k) => match cosig_parse(rest.skip(n)) {
                    Ok(es) => Ok(seq![(k, rest.subrange(33, 97), rest.subrange(97, 129))] + es),
                    Err(f) => Err(f),
                },
            }
        }
    }
}

/// `r` with `done` in front of the entries it read.
pub open spec fn after_entries(done: Seq<CosignView>, r: Result<Seq<CosignView>, StreamFault>) -> Result<
    Seq<CosignView>,
    StreamFault,
> {
    match r {
        Ok(es) => Ok(done + es),
        Err(f) => Err(f),
    }
}

/// An optional value, or `d` where absent.
pub open spec fn or_default<T>(o: Option<T>, d: T) -> T {
    match o {
        Some(v) => v,
        None => d,
    }
}

/// What the fields of an encoded signed update hold: each field read in
/// order, the first failure reported; the cosignature entries as read
/// (unsorted) and no content hash.
pub open spec fn update_from_fields(m: Map<u64, Seq<u8>>) -> Result<SignedLedgerUpdateView, StreamFault> {
    match required(m, SU_MESSAGE, |d: Seq<u8>| raw_of(d)) {
        Err(e) => Err(e),
        Ok(message) => match (if m.contains_key(SU_COSIGNATURES) {
            cosig_parse(m[SU_COSIGNATURES])
        } else {
            Ok(seq![])
        }) {
            Err(e) => Err(e),
            Ok(cosignatures) => match required(m, SU_OPERATOR_ID, |d: Seq<u8>| pubkey_of(d)) {
                Err(e) => Err(e),
                Ok(operator_id) => match required(m, SU_LEDGER_ID, |d: Seq<u8>| bytes_of(d, 32)) {
                    Err(e) => Err(e),
                    Ok(ledger_id) => match required(m, SU_SEQUENCE_NUMBER, |d: Seq<u8>| u64_of(d)) {
                        Err(e) => Err(e),
                        Ok(sequence_number) => match required(m, SU_PREVIOUS_HASH, |d: Seq<u8>| bytes_of(d, 32)) {
                            Err(e) => Err(e),
                            Ok(previous_hash) => match optional(m, SU_BLOCK_HEIGHT, |d: Seq<u8>| u32_of(d)) {
                                Err(e) => Err(e),
                                Ok(block_height) => match optional(m, SU_BLOCK_HASH, |d: Seq<u8>| bytes_of(d, 32)) {
                                    Err(e) => Err(e),
                                    Ok(block_hash) => match optional(m, SU_COSIGN_SIGNATURE, |d: Seq<u8>| bytes_of(d, 64)) {
                                        Err(e) => Err(e),
                                        Ok(cosign_signature) => match required(m, SU_OPERATOR_SIGNATURE, |d: Seq<u8>| bytes_of(d, 64)) {
                                            Err(e) => Err(e),
                                            Ok(operator_signature) => match optional(m, SU_COSIGNER_PUBKEY, |d: Seq<u8>| pubkey_of(d)) {
                                                Err(e) => Err(e),
                                                Ok(cosigner_pubkey) => match optional(m, SU_MEMBER_LEDGER_HASH, |d: Seq<u8>| bytes_of(d, 32)) {
                                                    Err(e) => Err(e),
                                                    Ok(member_ledger_hash) => Ok(
                                                        SignedLedgerUpdateView {
                                                            message,
                                                            message_type: message_type_in(message),
                                                            operator_id,
                                                            ledger_id,
                                                            sequence_number,
                                                            previous_hash,
                                                            content_hash: seq![],
                                                            block_height: or_default(block_height, 0u32),
                                                            block_hash: or_default(block_hash, Seq::new(32, |_i: int| 0u8)),
                                                            cosign_signature: or_default(cosign_signature, Seq::new(64, |_i: int| 0u8)),
                                                            operator_signature,
                                                            cosigner_pubkey,
                                                            member_ledger_hash,
                                                            cosignatures,
                                                        },
                                                    ),
                                                },
                                            },
                                        },
                                    },
                                },
                            },
                        },
                    },
                },
            },
        },
    }
}

/// `u` is the update decoded fields `d` describe: the same values, its
/// cosignatures those of `d` sorted by key, and its content hash computed.
pub open spec fn update_decodes_to(u: SignedLedgerUpdate, d: SignedLedgerUpdateView) -> bool {
    &&& u.message@ == d.message
    &&& u.message_type == d.message_type
    &&& u.operator_id@ == d.operator_id
    &&& u.ledger_id@ == d.ledger_id
    &&& u.sequence_number == d.sequence_number
    &&& u.previous_hash@ == d.previous_hash
    &&& u.block_height == d.block_height
    &&& u.block_hash@ == d.block_hash
    &&& u.cosign_signature@ == d.cosign_signature
    &&& u.operator_signature@ == d.operator_signature
    &&& u@.cosigner_pubkey == d.cosigner_pubkey
    &&& u@.member_ledger_hash == d.member_ledger_hash
    &&& exists|es: Seq<CosignEntry>|
        es.map_values(|e: CosignEntry| entry_view(e)) == d.cosignatures && u.cosignatures@
            == #[trigger] sort_entries(es)
    &&& u.content_hash@ == sha2_digest_of(content_preimage(u))
}

fn cosig_bytes(es: &Vec<CosignEntry>) -> (r: Vec<u8>)
    ensures
        r@ == cosig_entries_bytes(es@),
{
    let mut out: Vec<u8> = Vec::new();
    let mut i: usize = 0;
    while i < es.len()
        invariant
            i <= es@.len(),
            out@ == cosig_entries_bytes(es@.take(i as int)),
        decreases es@.len() - i,
    {
        let e = &es[i];
        push_u16_be(&mut out, 129);
        let k = e.cosigner_pubkey.serialize();
        extend_bytes(&mut out, k.as_slice());
        extend_bytes(&mut out, e.cosign_signature.as_slice());
        extend_bytes(&mut out, e.member_ledger_hash.as_slice());
        proof {
            let t = es@.take(i + 1);
            assert(t.drop_last() =~= es@.take(i as int));
            assert(t.last() == es@[i as int]);
        }
        i = i + 1;
    }
    assert(es@.take(i as int) =~= es@);
    out
}

impl TlvEncode for SignedLedgerUpdate {
    open spec fn tlv_bytes(&self) -> Seq<u8> {
        map_bytes(update_fields(*self))
    }

    fn tlv_encode(&self) -> (r: Vec<u8>) {
        proof {
            reveal(put_opt);
        }
        let mut b = TlvBuilder::new().pubkey_field(SU_OPERATOR_ID, &self.operator_id).bytes_field(
            SU_LEDGER_ID,
            self.ledger_id.as_slice(),
        ).u64_field(SU_SEQUENCE_NUMBER, self.sequence_number).bytes_field(
            SU_PREVIOUS_HASH,
            self.previous_hash.as_slice(),
        ).bytes_field(SU_MESSAGE, self.message.as_slice());
        if self.block_height != 0 {
            b = b.u32_field(SU_BLOCK_HEIGHT, self.block_height);
        }
        if !is_zero(self.block_hash.as_slice()) {
            b = b.bytes_field(SU_BLOCK_HASH, self.block_hash.as_slice());
        }
        if self.cosignatures.len() > 0 {
            let sorted = self.sorted_cosignatures();
            let cb = cosig_bytes(&sorted);
            b = b.bytes_field(SU_COSIGNATURES, cb.as_slice());
        } else {
            match &self.cosigner_pubkey {
                Some(k) => {
                    b = b.pubkey_field(SU_COSIGNER_PUBKEY, k);
                },
                None => {},
            }
            match &self.member_ledger_hash {
                Some(h) => {
                    b = b.bytes_field(SU_MEMBER_LEDGER_HASH, h.as_slice());
                },
                None => {},
            }
            if !is_zero(self.cosign_signature.as_slice()) {
                b = b.bytes_field(SU_COSIGN_SIGNATURE, self.cosign_signature.as_slice());
            }
        }
        b = b.bytes_field(SU_OPERATOR_SIGNATURE, self.operator_signature.as_slice());
        assert(b@ =~= update_fields(*self));
        b.build()
    }
}

/// Reads the cosignature entries of field 22.
fn parse_cosigs(raw: &[u8]) -> (r: TlvResult<Vec<CosignEntry>>)
    ensures
        match cosig_parse(raw@) {
            Ok(vs) => r is Ok && r->Ok_0@.map_values(|e: CosignEntry| entry_view(e)) == vs,
            Err(f) => r is Err && error_is(r->Err_0, f),
        },
{
    let mut entries: Vec<CosignEntry> = Vec::new();
    let mut off: usize = 0;
    assert(raw@.skip(0) =~= raw@);
    assert(entries@.map_values(|e: CosignEntry| entry_view(e)) =~= Seq::<CosignView>::empty());
    while raw.len() - off >= 2
        invariant
            off <= raw@.len(),
            cosig_parse(raw@) == after_entries(
                entries@.map_values(|e: CosignEntry| entry_view(e)),
                cosig_parse(raw@.skip(off as int)),
            ),
        decreases raw@.len() - off,
    {
        let ghost cur = raw@.skip(off as int);
        let n = get_u16_be(raw, off) as usize;
        assert(cur.subrange(0, 2) =~= raw@.subrange(off as int, off + 2));
        let start = off + 2;
        assert(cur.skip(2) =~= raw@.skip(start as int));
        if n > raw.len() - start || n < 129 {
            assert(cosig_parse(cur) == Ok::<Seq<CosignView>, StreamFault>(seq![]));
            assert(entries@.map_values(|e: CosignEntry| entry_view(e)) + Seq::<CosignView>::empty()
                =~= entries@.map_values(|e: CosignEntry| entry_view(e)));
            return Ok(entries);
        }
        let kb = copy_range(raw, start, start + 33);
        assert(kb@ =~= cur.skip(2).subrange(0, 33));
        let pk = match PublicKey::from_slice(kb.as_slice()) {
            Ok(k) => k,
            Err(e) => {
                let reason = concat_text("cosig pubkey: ", e.as_str());
                proof {
                    reveal_strlit("cosig pubkey: malformed public key");
                    reveal_strlit("cosig pubkey: ");
                    reveal_strlit("malformed public key");
                    assert(reason@ =~= "cosig pubkey: malformed public key"@);
                }
                return Err(TlvError::InvalidFieldValue { field_type: SU_COSIGNATURES, reason });
            },
        };
        let sig: [u8; 64] = array_at(raw, start + 33);
        let hash: [u8; 32] = array_at(raw, start + 97);
        let e = CosignEntry { cosigner_pubkey: pk, cosign_signature: sig, member_ledger_hash: hash };
        proof {
            assert(sig@ =~= cur.skip(2).subrange(33, 97));
            assert(hash@ =~= cur.skip(2).subrange(97, 129));
            assert(cur.skip(2).skip(n as int) =~= raw@.skip(start + n));
            let before = entries@.map_values(|x: CosignEntry| entry_view(x));
            assert(entries@.push(e).map_values(|x: CosignEntry| entry_view(x)) =~= before.push(entry_view(e)));
            match cosig_parse(raw@.skip(start + n)) {
                Ok(rest) => {
                    assert(before + (seq![entry_view(e)] + rest) =~= before.push(entry_view(e)) + rest);
                },
                Err(_) => {},
            }
        }
        entries.push(e);
        off = start + n;
    }
    assert(cosig_parse(raw@.skip(off as int)) == Ok::<Seq<CosignView>, StreamFault>(seq![]));
    assert(entries@.map_values(|e: CosignEntry| entry_view(e)) + Seq::<CosignView>::empty()
        =~= entries@.map_values(|e: CosignEntry| entry_view(e)));
    Ok(entries)
}

/// Sorts entries by key, equal keys in their order.
fn sort_cosigs(es: Vec<CosignEntry>) -> (r: Vec<CosignEntry>)
    ensures
        r@ == sort_entries(es@),
{
    let mut r: Vec<CosignEntry> = Vec::new();
    let mut i: usize = 0;
    while i < es.len()
        invariant
            i <= es@.len(),
            r@ == sort_entries(es@.take(i as int)),
        decreases es@.len() - i,
    {
        assert(es@.take(i + 1).drop_last() =~= es@.take(i as int));
        assert(es@.take(i + 1).last() == es@[i as int]);
        let e = CosignEntry {
            cosigner_pubkey: es[i].cosigner_pubkey,
            cosign_signature: es[i].cosign_signature,
            member_ledger_hash: es[i].member_ledger_hash,
        };
        insert_entry(&mut r, e);
        i = i + 1;
    }
    assert(es@.take(i as int) =~= es@);
    r
}

impl TlvDecode for SignedLedgerUpdate {
    open spec fn tlv_decodes(data: Seq<u8>, r: TlvResult<Self>) -> bool {
        match parse_with(data, |m: Map<u64, Seq<u8>>| update_from_fields(m)) {
            Ok(d) => r is Ok && update_decodes_to(r->Ok_0, d),
            Err(f) => r is Err && error_is(r->Err_0, f),
        }
    }

    #[verifier::rlimit(80)]
    fn tlv_decode(data: &[u8]) -> (r: TlvResult<Self>) {
        let reader = match TlvReader::new(data) {
            Ok(r) => r,
            Err(e) => {
                return Err(e);
            },
        };
        let raw = match reader.read_raw(SU_MESSAGE) {
            Ok(d) => d,
            Err(e) => {
                return Err(e);
            },
        };
        let message = copy_range(raw, 0, raw.len());
        assert(message@ =~= raw@);
        let message_type = LedgerOperation::message_type_from_bytes(message.as_slice());
        let entries = match reader.read_raw_opt(SU_COSIGNATURES) {
            Some(c) => match parse_cosigs(c) {
                Ok(es) => es,
                Err(e) => {
                    return Err(e);
                },
            },
            None => {
                let es: Vec<CosignEntry> = Vec::new();
                assert(es@.map_values(|e: CosignEntry| entry_view(e)) =~= Seq::<CosignView>::empty());
                es
            },
        };
        let ghost unsorted = entries@;
        let cosignatures = sort_cosigs(entries);
        let operator_id = match reader.read_pubkey(SU_OPERATOR_ID) {
            Ok(v) => v,
            Err(e) => {
                return Err(e);
            },
        };
        let ledger_id = match reader.read_bytes::<32>(SU_LEDGER_ID) {
            Ok(v) => v,
            Err(e) => {
                return Err(e);
            },
        };
        let sequence_number = match reader.read_u64(SU_SEQUENCE_NUMBER) {
            Ok(v) => v,
            Err(e) => {
                return Err(e);
            },
        };
        let previous_hash = match reader.read_bytes::<32>(SU_PREVIOUS_HASH) {
            Ok(v) => v,
            Err(e) => {
                return Err(e);
            },
        };
        let block_height = match reader.read_u32_opt(SU_BLOCK_HEIGHT) {
            Ok(Some(v)) => v,
            Ok(None) => 0,
            Err(e) => {
                return Err(e);
            },
        };
        let block_hash = match reader.read_bytes_opt::<32>(SU_BLOCK_HASH) {
            Ok(Some(v)) => v,
            Ok(None) => {
                let z = [0u8; 32];
                assert(z@ =~= Seq::new(32, |_i: int| 0u8));
                z
            },
            Err(e) => {
                return Err(e);
            },
        };
        let cosign_signature = match reader.read_bytes_opt::<64>(SU_COSIGN_SIGNATURE) {
            Ok(Some(v)) => v,
            Ok(None) => {
                let z = [0u8; 64];
                assert(z@ =~= Seq::new(64, |_i: int| 0u8));
                z
            },
            Err(e) => {
                return Err(e);
            },
        };
        let operator_signature = match reader.read_bytes::<64>(SU_OPERATOR_SIGNATURE) {
            Ok(v) => v,
            Err(e) => {
                return Err(e);
            },
        };
        let cosigner_pubkey = match reader.read_pubkey_opt(SU_COSIGNER_PUBKEY) {
            Ok(v) => v,
            Err(e) => {
                return Err(e);
            },
        };
        let member_ledger_hash = match reader.read_bytes_opt::<32>(SU_MEMBER_LEDGER_HASH) {
            Ok(v) => v,
            Err(e) => {
                return Err(e);
            },
        };
        let mut update = SignedLedgerUpdate {
            message,
            message_type,
            operator_id,
            ledger_id,
            sequence_number,
            previous_hash,
            content_hash: [0u8; 32],
            block_height,
            block_hash,
            cosign_signature,
            operator_signature,
            cosigner_pubkey,
            member_ledger_hash,
            cosignatures,
        };
        let h = update.compute_hash();
        update.content_hash = h;
        assert(update.cosignatures@ == sort_entries(unsorted));
        Ok(update)
    }
}

} // verus!
