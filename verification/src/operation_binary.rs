//! The legacy binary encoding of ledger operations and fee structures.
//!
//! This encoding is lossy: deposit identifiers travel padded into a 33-byte
//! slot, witnesses keep only a 64-byte signature, and several fields are not
//! written at all. Reading fills those in with fixed values.

use vstd::prelude::*;
use vstd::utf8::encode_utf8;

use crate::bytes::{u16_be, u32_be, u64_be};
use crate::codec::{
    codec_error_is, length_prefixed, rd_exact, rd_pubkey, rd_string, rd_u16, rd_u32, rd_u64,
    rd_u8, read_20, read_32, read_33, read_64, read_exact, read_is, read_is_view, read_pubkey,
    read_string, read_u16, read_u32, read_u64, read_u8, write_20, write_32, write_64,
    write_pubkey, write_string, write_u16, write_u32, write_u64, write_u8, CodecError,
    CodecFailure, CodecFault, Read,
};
use crate::crypto::{hex_encode, hex_lower};
use crate::operation::{discriminant_of, LedgerOperation, OperationView, ReplacementCollateral};
use crate::text::{concat_text, decimal_digits, text_with_number};
use crate::types::{DescriptorWitness, FeeStructure};

verus! {

/// Types with a binary encoding.
pub trait BinaryCodec: Sized + View {
    /// The encoding of a value with view `v`.
    spec fn binary_of(v: Self::V) -> Seq<u8>;

    /// Reading a value from the front of `s`.
    spec fn binary_read(s: Seq<u8>) -> Read<Self::V>;

    /// Appends the encoding of this value; never fails.
    fn write_to(&self, w: &mut Vec<u8>) -> (r: Result<(), CodecError>)
        ensures
            r is Ok,
            final(w)@ == old(w)@ + Self::binary_of(self@),
    ;

    /// Reads a value from `data` at `*pos`, advancing `*pos`.
    fn read_from(data: &[u8], pos: &mut usize) -> (r: Result<Self, CodecError>)
        requires
            *old(pos) <= data@.len(),
        ensures
            *final(pos) <= data@.len(),
            data@.skip(*final(pos) as int) == Self::binary_read(data@.skip(*old(pos) as int)).1,
            read_is_view(r, Self::binary_read(data@.skip(*old(pos) as int)).0),
    ;
}

impl View for FeeStructure {
    type V = FeeStructure;

    open spec fn view(&self) -> FeeStructure {
        *self
    }
}

/// The binary encoding of a fee structure.
pub open spec fn fee_binary(f: FeeStructure) -> Seq<u8> {
    u64_be(f.annualized_msats) + u16_be(f.annualized_bps) + u32_be(f.frequency_blocks)
}

/// Reading a fee structure.
pub open spec fn rd_fee(s: Seq<u8>) -> Read<FeeStructure> {
    let (a, s1) = rd_u64(s);
    match a {
        Err(f) => (Err(f), s1),
        Ok(a) => {
            let (b, s2) = rd_u16(s1);
            match b {
                Err(f) => (Err(f), s2),
                Ok(b) => {
                    let (c, s3) = rd_u32(s2);
                    match c {
                        Err(f) => (Err(f), s3),
                        Ok(c) => (
                            Ok(FeeStructure { annualized_msats: a, annualized_bps: b, frequency_blocks: c }),
                            s3,
                        ),
                    }
                },
            }
        },
    }
}

fn write_fee(w: &mut Vec<u8>, f: &FeeStructure)
    ensures
        final(w)@ == old(w)@ + fee_binary(*f),
{
    write_u64(w, f.annualized_msats);
    write_u16(w, f.annualized_bps);
    write_u32(w, f.frequency_blocks);
    assert(w@ =~= old(w)@ + fee_binary(*f));
}

impl BinaryCodec for FeeStructure {
    open spec fn binary_of(v: FeeStructure) -> Seq<u8> {
        fee_binary(v)
    }

    open spec fn binary_read(s: Seq<u8>) -> Read<FeeStructure> {
        rd_fee(s)
    }

    fn write_to(&self, w: &mut Vec<u8>) -> (r: Result<(), CodecError>) {
        write_fee(w, self);
        Ok(())
    }

    fn read_from(data: &[u8], pos: &mut usize) -> (r: Result<Self, CodecError>) {
        let annualized_msats = match read_u64(data, pos) {
            Ok(v) => v,
            Err(e) => {
                return Err(e);
            },
        };
        let annualized_bps = match read_u16(data, pos) {
            Ok(v) => v,
            Err(e) => {
                return Err(e);
            },
        };
        let frequency_blocks = match read_u32(data, pos) {
            Ok(v) => v,
            Err(e) => {
                return Err(e);
            },
        };
        Ok(FeeStructure { annualized_msats, annualized_bps, frequency_blocks })
    }
}

/// A deposit identifier in the 33-byte slot of a legacy public key: a 0x02
/// prefix, the identifier, then zeros.
pub open spec fn legacy_id(id: Seq<u8>) -> Seq<u8> {
    seq![2u8] + id + Seq::new(16, |i: int| 0u8)
}

fn write_legacy_id(w: &mut Vec<u8>, id: &[u8; 16])
    ensures
        final(w)@ == old(w)@ + legacy_id(id@),
{
    let mut slot: [u8; 33] = vstd::array::array_fill_for_copy_types(0u8);
    slot[0] = 2;
    let mut i: usize = 0;
    while i < 16
        invariant
            i <= 16,
            slot@.len() == 33,
            slot@[0] == 2,
            forall|j: int| 1 <= j < 1 + i ==> slot@[j] == id@[j - 1],
            forall|j: int| 17 <= j < 33 ==> slot@[j] == 0,
        decreases 16 - i,
    {
        slot[i + 1] = id[i];
        i = i + 1;
    }
    crate::bytes::extend_bytes(w, slot.as_slice());
    assert(slot@ =~= legacy_id(id@));
}

/// The 64-byte signature slot of a witness: the first 64 bytes of its first
/// element when that is long enough, else zeros.
pub open spec fn witness_sig(w: Seq<Seq<u8>>) -> Seq<u8> {
    if w.len() > 0 && w[0].len() >= 64 {
        w[0].subrange(0, 64)
    } else {
        Seq::new(64, |i: int| 0u8)
    }
}

fn write_witness_sig(w: &mut Vec<u8>, witness: &DescriptorWitness)
    ensures
        final(w)@ == old(w)@ + witness_sig(witness@),
{
    if witness.stack.len() > 0 && witness.stack[0].len() >= 64 {
        let sig = crate::bytes::copy_range(witness.stack[0].as_slice(), 0, 64);
        crate::bytes::extend_bytes(w, sig.as_slice());
    } else {
        let zeros: [u8; 64] = vstd::array::array_fill_for_copy_types(0u8);
        crate::bytes::extend_bytes(w, zeros.as_slice());
        assert(zeros@ =~= Seq::new(64, |i: int| 0u8));
    }
}

/// An option as a one-byte flag, then the value's bytes where present.
pub open spec fn option_bytes(o: Option<Seq<u8>>) -> Seq<u8> {
    match o {
        Some(b) => seq![1u8] + b,
        None => seq![0u8],
    }
}

/// An optional fee structure's encoding.
pub open spec fn opt_fee_binary(o: Option<FeeStructure>) -> Option<Seq<u8>> {
    match o {
        Some(f) => Some(fee_binary(f)),
        None => None,
    }
}

/// An optional string's encoding.
pub open spec fn opt_string_binary(o: Option<Seq<char>>) -> Option<Seq<u8>> {
    match o {
        Some(s) => Some(length_prefixed(encode_utf8(s))),
        None => None,
    }
}

fn write_option_fee(w: &mut Vec<u8>, o: &Option<FeeStructure>)
    ensures
        final(w)@ == old(w)@ + option_bytes(opt_fee_binary(*o)),
{
    match o {
        Some(f) => {
            write_u8(w, 1);
            write_fee(w, f);
        },
        None => write_u8(w, 0),
    }
    assert(w@ =~= old(w)@ + option_bytes(opt_fee_binary(*o)));
}

fn write_option_32(w: &mut Vec<u8>, o: &Option<[u8; 32]>)
    ensures
        final(w)@ == old(w)@ + option_bytes(crate::operation::opt_bytes(*o)),
{
    match o {
        Some(b) => {
            write_u8(w, 1);
            write_32(w, b);
        },
        None => write_u8(w, 0),
    }
    assert(w@ =~= old(w)@ + option_bytes(crate::operation::opt_bytes(*o)));
}

pub(crate) fn write_option_64(w: &mut Vec<u8>, o: &Option<[u8; 64]>)
    ensures
        final(w)@ == old(w)@ + option_bytes(crate::operation::opt_bytes(*o)),
{
    match o {
        Some(b) => {
            write_u8(w, 1);
            write_64(w, b);
        },
        None => write_u8(w, 0),
    }
    assert(w@ =~= old(w)@ + option_bytes(crate::operation::opt_bytes(*o)));
}

pub(crate) fn write_option_string(w: &mut Vec<u8>, o: &Option<String>)
    ensures
        final(w)@ == old(w)@ + option_bytes(opt_string_binary(crate::operation::opt_text(*o))),
{
    match o {
        Some(s) => {
            write_u8(w, 1);
            write_string(w, s.as_str());
        },
        None => write_u8(w, 0),
    }
    assert(w@ =~= old(w)@ + option_bytes(opt_string_binary(crate::operation::opt_text(*o))));
}

/// Witness elements, each behind its length as a `u16` (truncated).
pub open spec fn elements16_bytes(w: Seq<Seq<u8>>) -> Seq<u8>
    decreases w.len(),
{
    if w.len() == 0 {
        seq![]
    } else {
        elements16_bytes(w.drop_last()) + u16_be(w.last().len() as u16) + w.last()
    }
}

/// A witness as its element count as a `u16` (truncated), then its
/// elements.
pub open spec fn witness16_bytes(w: Seq<Seq<u8>>) -> Seq<u8> {
    u16_be(w.len() as u16) + elements16_bytes(w)
}

fn write_witness16(w: &mut Vec<u8>, witness: &DescriptorWitness)
    ensures
        final(w)@ == old(w)@ + witness16_bytes(witness@),
{
    let ghost view = witness@;
    write_u16(w, witness.stack.len() as u16);
    let ghost start = w@;
    let mut i: usize = 0;
    while i < witness.stack.len()
        invariant
            i <= witness.stack@.len(),
            view == witness@,
            view.len() == witness.stack@.len(),
            w@ == start + elements16_bytes(view.take(i as int)),
        decreases witness.stack@.len() - i,
    {
        let ghost before = w@;
        let element = &witness.stack[i];
        write_u16(w, element.len() as u16);
        crate::bytes::extend_bytes(w, element.as_slice());
        assert(view.take(i + 1).drop_last() =~= view.take(i as int));
        assert(view[i as int] == element@);
        assert(w@ =~= before + u16_be(element@.len() as u16) + element@);
        i = i + 1;
    }
    assert(view.take(i as int) =~= view);
    assert(w@ =~= old(w)@ + witness16_bytes(view));
}

/// Replacement collateral as a flag byte, then txid, vout and amount where
/// present.
pub open spec fn collateral_binary(o: Option<(Seq<u8>, u32, u64)>) -> Seq<u8> {
    match o {
        Some(rc) => seq![1u8] + rc.0 + u32_be(rc.1) + u64_be(rc.2),
        None => seq![0u8],
    }
}

fn write_collateral(w: &mut Vec<u8>, o: &Option<ReplacementCollateral>)
    ensures
        final(w)@ == old(w)@ + collateral_binary(
            match *o {
                Some(rc) => Some(rc@),
                None => None,
            },
        ),
{
    match o {
        Some(rc) => {
            write_u8(w, 1);
            write_32(w, &rc.txid);
            write_u32(w, rc.vout);
            write_u64(w, rc.amount);
        },
        None => write_u8(w, 0),
    }
    assert(w@ =~= old(w)@ + collateral_binary(
        match *o {
            Some(rc) => Some(rc@),
            None => None,
        },
    ));
}

/// Reading an option: a flag byte, then the value where the flag is
/// non-zero.
pub open spec fn rd_option_exact(s: Seq<u8>, n: nat) -> Read<Option<Seq<u8>>> {
    let (flag, s1) = rd_u8(s);
    match flag {
        Err(f) => (Err(f), s1),
        Ok(b) => if b != 0 {
            let (v, s2) = rd_exact(s1, n);
            match v {
                Ok(v) => (Ok(Some(v)), s2),
                Err(f) => (Err(f), s2),
            }
        } else {
            (Ok(None), s1)
        },
    }
}

/// Reading an optional string.
pub open spec fn rd_option_string(s: Seq<u8>) -> Read<Option<Seq<char>>> {
    let (flag, s1) = rd_u8(s);
    match flag {
        Err(f) => (Err(f), s1),
        Ok(b) => if b != 0 {
            let (v, s2) = rd_string(s1);
            match v {
                Ok(v) => (Ok(Some(v)), s2),
                Err(f) => (Err(f), s2),
            }
        } else {
            (Ok(None), s1)
        },
    }
}

/// Reading an optional fee structure.
pub open spec fn rd_option_fee(s: Seq<u8>) -> Read<Option<FeeStructure>> {
    let (flag, s1) = rd_u8(s);
    match flag {
        Err(f) => (Err(f), s1),
        Ok(b) => if b != 0 {
            let (v, s2) = rd_fee(s1);
            match v {
                Ok(v) => (Ok(Some(v)), s2),
                Err(f) => (Err(f), s2),
            }
        } else {
            (Ok(None), s1)
        },
    }
}

fn read_option_fee(data: &[u8], pos: &mut usize) -> (r: Result<Option<FeeStructure>, CodecError>)
    requires
        *old(pos) <= data@.len(),
    ensures
        *final(pos) <= data@.len(),
        data@.skip(*final(pos) as int) == rd_option_fee(data@.skip(*old(pos) as int)).1,
        read_is(r, rd_option_fee(data@.skip(*old(pos) as int)).0),
{
    let flag = match read_u8(data, pos) {
        Ok(b) => b,
        Err(e) => {
            return Err(e);
        },
    };
    if flag != 0 {
        match FeeStructure::read_from(data, pos) {
            Ok(v) => Ok(Some(v)),
            Err(e) => Err(e),
        }
    } else {
        Ok(None)
    }
}

fn read_option_32(data: &[u8], pos: &mut usize) -> (r: Result<Option<[u8; 32]>, CodecError>)
    requires
        *old(pos) <= data@.len(),
    ensures
        *final(pos) <= data@.len(),
        data@.skip(*final(pos) as int) == rd_option_exact(data@.skip(*old(pos) as int), 32).1,
        read_is(
            match r {
                Ok(o) => Ok(crate::operation::opt_bytes(o)),
                Err(e) => Err(e),
            },
            rd_option_exact(data@.skip(*old(pos) as int), 32).0,
        ),
{
    let flag = match read_u8(data, pos) {
        Ok(b) => b,
        Err(e) => {
            return Err(e);
        },
    };
    if flag != 0 {
        match read_32(data, pos) {
            Ok(v) => Ok(Some(v)),
            Err(e) => Err(e),
        }
    } else {
        Ok(None)
    }
}

pub(crate) fn read_option_64(data: &[u8], pos: &mut usize) -> (r: Result<Option<[u8; 64]>, CodecError>)
    requires
        *old(pos) <= data@.len(),
    ensures
        *final(pos) <= data@.len(),
        data@.skip(*final(pos) as int) == rd_option_exact(data@.skip(*old(pos) as int), 64).1,
        read_is(
            match r {
                Ok(o) => Ok(crate::operation::opt_bytes(o)),
                Err(e) => Err(e),
            },
            rd_option_exact(data@.skip(*old(pos) as int), 64).0,
        ),
{
    let flag = match read_u8(data, pos) {
        Ok(b) => b,
        Err(e) => {
            return Err(e);
        },
    };
    if flag != 0 {
        match read_64(data, pos) {
            Ok(v) => Ok(Some(v)),
            Err(e) => Err(e),
        }
    } else {
        Ok(None)
    }
}

pub(crate) fn read_option_string(data: &[u8], pos: &mut usize) -> (r: Result<Option<String>, CodecError>)
    requires
        *old(pos) <= data@.len(),
    ensures
        *final(pos) <= data@.len(),
        data@.skip(*final(pos) as int) == rd_option_string(data@.skip(*old(pos) as int)).1,
        read_is(
            match r {
                Ok(o) => Ok(crate::operation::opt_text(o)),
                Err(e) => Err(e),
            },
            rd_option_string(data@.skip(*old(pos) as int)).0,
        ),
{
    let flag = match read_u8(data, pos) {
        Ok(b) => b,
        Err(e) => {
            return Err(e);
        },
    };
    if flag != 0 {
        match read_string(data, pos) {
            Ok(v) => Ok(Some(v)),
            Err(e) => Err(e),
        }
    } else {
        Ok(None)
    }
}

/// Reading `n` witness elements, each behind its `u16` length.
pub open spec fn rd_elements16(s: Seq<u8>, n: nat) -> Read<Seq<Seq<u8>>>
    decreases n,
{
    if n == 0 {
        (Ok(seq![]), s)
    } else {
        let (len, s1) = rd_u16(s);
        match len {
            Err(f) => (Err(f), s1),
            Ok(len) => {
                let (e, s2) = rd_exact(s1, len as nat);
                match e {
                    Err(f) => (Err(f), s2),
                    Ok(e) => {
                        let (rest, s3) = rd_elements16(s2, (n - 1) as nat);
                        match rest {
                            Ok(es) => (Ok(seq![e] + es), s3),
                            Err(f) => (Err(f), s3),
                        }
                    },
                }
            },
        }
    }
}

/// Reading a witness: a `u16` count, then its elements.
pub open spec fn rd_witness16(s: Seq<u8>) -> Read<Seq<Seq<u8>>> {
    let (count, s1) = rd_u16(s);
    match count {
        Err(f) => (Err(f), s1),
        Ok(n) => rd_elements16(s1, n as nat),
    }
}

/// Elements `acc` read before, then the outcome of reading the rest.
pub open spec fn after_elements(acc: Seq<Seq<u8>>, rest: Read<Seq<Seq<u8>>>) -> Read<Seq<Seq<u8>>> {
    match rest.0 {
        Ok(es) => (Ok(acc + es), rest.1),
        Err(f) => (Err(f), rest.1),
    }
}

fn read_witness16(data: &[u8], pos: &mut usize) -> (r: Result<DescriptorWitness, CodecError>)
    requires
        *old(pos) <= data@.len(),
    ensures
        *final(pos) <= data@.len(),
        data@.skip(*final(pos) as int) == rd_witness16(data@.skip(*old(pos) as int)).1,
        read_is_view(r, rd_witness16(data@.skip(*old(pos) as int)).0),
{
    let ghost total = rd_witness16(data@.skip(*pos as int));
    let count = match read_u16(data, pos) {
        Ok(c) => c,
        Err(e) => {
            return Err(e);
        },
    };
    let mut stack: Vec<Vec<u8>> = Vec::new();
    let mut i: u16 = 0;
    assert(crate::types::stack_view(stack@) + Seq::<Seq<u8>>::empty() =~= crate::types::stack_view(stack@));
    while i < count
        invariant
            i <= count,
            *pos <= data@.len(),
            total == rd_witness16(data@.skip(*old(pos) as int)),
            total == after_elements(
                crate::types::stack_view(stack@),
                rd_elements16(data@.skip(*pos as int), (count - i) as nat),
            ),
        decreases count - i,
    {
        let ghost acc = crate::types::stack_view(stack@);
        let len = match read_u16(data, pos) {
            Ok(l) => l,
            Err(e) => {
                return Err(e);
            },
        };
        let element = match read_exact(data, pos, len as usize) {
            Ok(e) => e,
            Err(e) => {
                return Err(e);
            },
        };
        let ghost tail = rd_elements16(data@.skip(*pos as int), (count - i - 1) as nat);
        stack.push(element);
        proof {
            assert(crate::types::stack_view(stack@) =~= acc.push(element@));
            match tail.0 {
                Ok(es) => {
                    assert(acc.push(element@) + es =~= acc + (seq![element@] + es));
                },
                Err(_) => {},
            }
        }
        i = i + 1;
    }
    assert(crate::types::stack_view(stack@) + Seq::<Seq<u8>>::empty() =~= crate::types::stack_view(stack@));
    Ok(DescriptorWitness { stack })
}

/// The reason given for an unknown replacement collateral flag.
pub open spec fn collateral_flag_reason(v: u8) -> Seq<char> {
    "invalid replacement_collateral flag: "@ + decimal_digits(v as nat)
}

/// Reading replacement collateral: a flag byte (absent data, like flag 0,
/// means none), then txid, vout and amount for flag 1.
pub open spec fn rd_collateral(s: Seq<u8>) -> Read<Option<(Seq<u8>, u32, u64)>> {
    let (flag, s1) = rd_u8(s);
    match flag {
        Err(_) => (Ok(None), s1),
        Ok(b) => if b == 0 {
            (Ok(None), s1)
        } else if b == 1 {
            let (t, s2) = rd_exact(s1, 32);
            match t {
                Err(f) => (Err(f), s2),
                Ok(t) => {
                    let (v, s3) = rd_u32(s2);
                    match v {
                        Err(f) => (Err(f), s3),
                        Ok(v) => {
                            let (a, s4) = rd_u64(s3);
                            match a {
                                Err(f) => (Err(f), s4),
                                Ok(a) => (Ok(Some((t, v, a))), s4),
                            }
                        },
                    }
                },
            }
        } else {
            (Err((CodecFault::InvalidData, collateral_flag_reason(b))), s1)
        },
    }
}

fn read_collateral(data: &[u8], pos: &mut usize) -> (r: Result<Option<ReplacementCollateral>, CodecError>)
    requires
        *old(pos) <= data@.len(),
    ensures
        *final(pos) <= data@.len(),
        data@.skip(*final(pos) as int) == rd_collateral(data@.skip(*old(pos) as int)).1,
        read_is(
            match r {
                Ok(Some(rc)) => Ok(Some(rc@)),
                Ok(None) => Ok(None),
                Err(e) => Err(e),
            },
            rd_collateral(data@.skip(*old(pos) as int)).0,
        ),
{
    match read_u8(data, pos) {
        Ok(0) => Ok(None),
        Ok(1) => {
            let txid = match read_32(data, pos) {
                Ok(v) => v,
                Err(e) => {
                    return Err(e);
                },
            };
            let vout = match read_u32(data, pos) {
                Ok(v) => v,
                Err(e) => {
                    return Err(e);
                },
            };
            let amount = match read_u64(data, pos) {
                Ok(v) => v,
                Err(e) => {
                    return Err(e);
                },
            };
            Ok(Some(ReplacementCollateral { txid, vout, amount }))
        },
        Ok(v) => {
            let reason = text_with_number("invalid replacement_collateral flag: ", v as u64, "");
            proof {
                reveal_strlit("");
                assert(reason@ =~= collateral_flag_reason(v));
            }
            Err(CodecError::InvalidData(reason))
        },
        Err(_) => Ok(None),
    }
}

/// The descriptor given to a deposit read from the legacy encoding.
pub open spec fn legacy_descriptor(id: Seq<u8>) -> Seq<char> {
    "legacy("@ + hex_lower(id) + ")"@
}

fn legacy_descriptor_text(id: &[u8; 16]) -> (r: String)
    ensures
        r@ == legacy_descriptor(id@),
{
    let hex = hex_encode(id.as_slice());
    let mut r = concat_text("legacy(", hex.as_str());
    r.append(")");
    r
}

/// The legacy binary encoding of an operation: its discriminant, then its
/// fields.
pub open spec fn operation_binary(v: OperationView) -> Seq<u8> {
    seq![discriminant_of(v)] + match v {
        OperationView::LedgerOpen { operator_id, reserves_id, genesis_block, reserves_amount, collateral_amount, .. } => operator_id + length_prefixed(encode_utf8(reserves_id)) + u32_be(genesis_block) + u32_be(0) + u64_be(reserves_amount) + u64_be(collateral_amount),
        OperationView::QuorumBegin { reserves_id, spending_txid, new_outpoint_txid, new_outpoint_vout, amount, quorum_members, quorum_expiry, ledger_hash, collateral_amount, .. } => length_prefixed(encode_utf8(reserves_id)) + spending_txid + new_outpoint_txid + u32_be(new_outpoint_vout) + u64_be(amount) + seq![(quorum_members.len() as u8)] + seq![(quorum_members.len() as u8)] + u32_be(quorum_expiry) + ledger_hash + u64_be(collateral_amount),
        OperationView::DepositOpen { deposit_id, fees, payment_hash, invoice, cosigner_guarantee_signature, .. } => legacy_id(deposit_id) + option_bytes(opt_fee_binary(fees)) + option_bytes(payment_hash) + option_bytes(opt_string_binary(invoice)) + option_bytes(cosigner_guarantee_signature),
        OperationView::DepositClose { deposit_id, .. } => legacy_id(deposit_id),
        OperationView::FeeChange { deposit_id, new_fees, .. } => legacy_id(deposit_id) + fee_binary(new_fees),
        OperationView::DepositKeyRotate { deposit_id, new_descriptor, witness, .. } => legacy_id(deposit_id) + length_prefixed(encode_utf8(new_descriptor)) + witness_sig(witness),
        OperationView::InvoiceCredit { payment_hash, deposit_id, amount, invoice_id, sequence_number, .. } => payment_hash + legacy_id(deposit_id) + u64_be(amount) + length_prefixed(encode_utf8(invoice_id)) + u64_be(sequence_number),
        OperationView::InvoiceLock { deposit_id, amount, payment_id, sequence_number, witness, .. } => legacy_id(deposit_id) + u64_be(amount) + payment_id + u64_be(sequence_number) + witness_sig(witness),
        OperationView::InvoiceFail { deposit_id, amount, payment_id, sequence_number, .. } => legacy_id(deposit_id) + u64_be(amount) + payment_id + u64_be(sequence_number),
        OperationView::InvoiceFulfill { deposit_id, amount, payment_id, sequence_number, witness, preimage, .. } => legacy_id(deposit_id) + u64_be(amount) + payment_id + u64_be(sequence_number) + witness_sig(witness) + preimage,
        OperationView::OnchainCredit { txid, vout, deposit_id, amount, funding_address, .. } => txid + u32_be(vout) + legacy_id(deposit_id) + u64_be(amount) + length_prefixed(encode_utf8(funding_address)),
        OperationView::OnchainLock { deposit_id, amount, fee_sats, destination_address, withdrawal_id, witness, .. } => legacy_id(deposit_id) + u64_be(amount) + u64_be(fee_sats) + length_prefixed(encode_utf8(destination_address)) + withdrawal_id + witness_sig(witness),
        OperationView::OnchainFail { deposit_id, withdrawal_id, .. } => legacy_id(deposit_id) + withdrawal_id,
        OperationView::OnchainFulfill { deposit_id, withdrawal_id, amount, txid, destination_address, .. } => legacy_id(deposit_id) + withdrawal_id + u64_be(amount) + txid + length_prefixed(encode_utf8(destination_address)),
        OperationView::TransferLock { nonce, source_deposit_id, destination_deposit_id, amount, fee, completion_script, timeout_height, transfer_id, witness, .. } => nonce + legacy_id(source_deposit_id) + legacy_id(destination_deposit_id) + u64_be(amount) + u64_be(fee) + length_prefixed(encode_utf8(completion_script)) + u32_be(timeout_height) + transfer_id + witness_sig(witness),
        OperationView::TransferComplete { transfer_id, script_witness, .. } => transfer_id + witness16_bytes(script_witness),
        OperationView::TransferFail { transfer_id, block_hash, reason, .. } => transfer_id + block_hash + seq![reason],
        OperationView::QuorumAddMember { quorum_member, quorum_member_signature, member_ledger_id, .. } => quorum_member + quorum_member_signature + length_prefixed(encode_utf8(member_ledger_id)),
        OperationView::QuorumRemoveMember { quorum_member, operator_signature, .. } => quorum_member + operator_signature,
        OperationView::QuorumJoin { operator_id, ledger_id, membership_expires, .. } => operator_id + length_prefixed(encode_utf8(ledger_id)) + u32_be(membership_expires),
        OperationView::FeeCollect { deposit_id, amount, block_height, .. } => legacy_id(deposit_id) + u64_be(amount) + u32_be(block_height),
        OperationView::DisputeEnter { last_valid_sequence, reason, .. } => u64_be(last_valid_sequence) + length_prefixed(encode_utf8(reason)),
        OperationView::DisputeArmed { armed_block, commitment_hash, target_reserves, replacement_collateral, .. } => u32_be(armed_block) + commitment_hash + length_prefixed(encode_utf8(target_reserves)) + collateral_binary(replacement_collateral),
        OperationView::DisputeAcquire { new_custodian, claim_txid, new_reserves_address, .. } => new_custodian + claim_txid + length_prefixed(encode_utf8(new_reserves_address)),
        OperationView::DeliveryEmbed { request_hash, target_ledger_id, target_operator, .. } => request_hash + target_ledger_id + target_operator,
        OperationView::DisputeYield => seq![],
        OperationView::LedgerClose => seq![],
    }
}

#[verifier::spinoff_prover]
#[verifier::rlimit(80)]
fn write_operation(op: &LedgerOperation, w: &mut Vec<u8>)
    ensures
        final(w)@ == old(w)@ + operation_binary(op@),
{
    write_u8(w, op.discriminant());
    match op {
        LedgerOperation::LedgerOpen { operator_id, reserves_id, genesis_block, reserves_amount, collateral_amount, .. } => {
            write_pubkey(w, operator_id);
            write_string(w, reserves_id.as_str());
            write_u32(w, *genesis_block);
            write_u32(w, 0);
            write_u64(w, *reserves_amount);
            write_u64(w, *collateral_amount);
        },
        LedgerOperation::QuorumBegin { reserves_id, spending_txid, new_outpoint_txid, new_outpoint_vout, amount, quorum_members, quorum_expiry, ledger_hash, collateral_amount, .. } => {
            write_string(w, reserves_id.as_str());
            write_32(w, spending_txid);
            write_32(w, new_outpoint_txid);
            write_u32(w, *new_outpoint_vout);
            write_u64(w, *amount);
            write_u8(w, quorum_members.len() as u8);
            write_u8(w, quorum_members.len() as u8);
            write_u32(w, *quorum_expiry);
            write_32(w, ledger_hash);
            write_u64(w, *collateral_amount);
        },
        LedgerOperation::DepositOpen { deposit_id, fees, payment_hash, invoice, cosigner_guarantee_signature, .. } => {
            write_legacy_id(w, deposit_id);
            write_option_fee(w, fees);
            write_option_32(w, payment_hash);
            write_option_string(w, invoice);
            write_option_64(w, cosigner_guarantee_signature);
        },
        LedgerOperation::DepositClose { deposit_id, .. } => {
            write_legacy_id(w, deposit_id);
        },
        LedgerOperation::FeeChange { deposit_id, new_fees, .. } => {
            write_legacy_id(w, deposit_id);
            write_fee(w, new_fees);
        },
        LedgerOperation::DepositKeyRotate { deposit_id, new_descriptor, witness, .. } => {
            write_legacy_id(w, deposit_id);
            write_string(w, new_descriptor.as_str());
            write_witness_sig(w, witness);
        },
        LedgerOperation::InvoiceCredit { payment_hash, deposit_id, amount, invoice_id, sequence_number, .. } => {
            write_32(w, payment_hash);
            write_legacy_id(w, deposit_id);
            write_u64(w, *amount);
            write_string(w, invoice_id.as_str());
            write_u64(w, *sequence_number);
        },
        LedgerOperation::InvoiceLock { deposit_id, amount, payment_id, sequence_number, witness, .. } => {
            write_legacy_id(w, deposit_id);
            write_u64(w, *amount);
            write_32(w, payment_id);
            write_u64(w, *sequence_number);
            write_witness_sig(w, witness);
        },
        LedgerOperation::InvoiceFail { deposit_id, amount, payment_id, sequence_number, .. } => {
            write_legacy_id(w, deposit_id);
            write_u64(w, *amount);
            write_32(w, payment_id);
            write_u64(w, *sequence_number);
        },
        LedgerOperation::InvoiceFulfill { deposit_id, amount, payment_id, sequence_number, witness, preimage, .. } => {
            write_legacy_id(w, deposit_id);
            write_u64(w, *amount);
            write_32(w, payment_id);
            write_u64(w, *sequence_number);
            write_witness_sig(w, witness);
            write_32(w, preimage);
        },
        LedgerOperation::OnchainCredit { txid, vout, deposit_id, amount, funding_address, .. } => {
            write_32(w, txid);
            write_u32(w, *vout);
            write_legacy_id(w, deposit_id);
            write_u64(w, *amount);
            write_string(w, funding_address.as_str());
        },
        LedgerOperation::OnchainLock { deposit_id, amount, fee_sats, destination_address, withdrawal_id, witness, .. } => {
            write_legacy_id(w, deposit_id);
            write_u64(w, *amount);
            write_u64(w, *fee_sats);
            write_string(w, destination_address.as_str());
            write_32(w, withdrawal_id);
            write_witness_sig(w, witness);
        },
        LedgerOperation::OnchainFail { deposit_id, withdrawal_id, .. } => {
            write_legacy_id(w, deposit_id);
            write_32(w, withdrawal_id);
        },
        LedgerOperation::OnchainFulfill { deposit_id, withdrawal_id, amount, txid, destination_address, .. } => {
            write_legacy_id(w, deposit_id);
            write_32(w, withdrawal_id);
            write_u64(w, *amount);
            write_32(w, txid);
            write_string(w, destination_address.as_str());
        },
        LedgerOperation::TransferLock { nonce, source_deposit_id, destination_deposit_id, amount, fee, completion_script, timeout_height, transfer_id, witness, .. } => {
            write_32(w, nonce);
            write_legacy_id(w, source_deposit_id);
            write_legacy_id(w, destination_deposit_id);
            write_u64(w, *amount);
            write_u64(w, *fee);
            write_string(w, completion_script.as_str());
            write_u32(w, *timeout_height);
            write_32(w, transfer_id);
            write_witness_sig(w, witness);
        },
        LedgerOperation::TransferComplete { transfer_id, script_witness, .. } => {
            write_32(w, transfer_id);
            write_witness16(w, script_witness);
        },
        LedgerOperation::TransferFail { transfer_id, block_hash, reason, .. } => {
            write_32(w, transfer_id);
            write_32(w, block_hash);
            write_u8(w, *reason);
        },
        LedgerOperation::QuorumAddMember { quorum_member, quorum_member_signature, member_ledger_id, .. } => {
            write_pubkey(w, quorum_member);
            write_64(w, quorum_member_signature);
            write_string(w, member_ledger_id.as_str());
        },
        LedgerOperation::QuorumRemoveMember { quorum_member, operator_signature, .. } => {
            write_pubkey(w, quorum_member);
            write_64(w, operator_signature);
        },
        LedgerOperation::QuorumJoin { operator_id, ledger_id, membership_expires, .. } => {
            write_pubkey(w, operator_id);
            write_string(w, ledger_id.as_str());
            write_u32(w, *membership_expires);
        },
        LedgerOperation::FeeCollect { deposit_id, amount, block_height, .. } => {
            write_legacy_id(w, deposit_id);
            write_u64(w, *amount);
            write_u32(w, *block_height);
        },
        LedgerOperation::DisputeEnter { last_valid_sequence, reason, .. } => {
            write_u64(w, *last_valid_sequence);
            write_string(w, reason.as_str());
        },
        LedgerOperation::DisputeArmed { armed_block, commitment_hash, target_reserves, replacement_collateral, .. } => {
            write_u32(w, *armed_block);
            write_20(w, commitment_hash);
            write_string(w, target_reserves.as_str());
            write_collateral(w, replacement_collateral);
        },
        LedgerOperation::DisputeAcquire { new_custodian, claim_txid, new_reserves_address, .. } => {
            write_pubkey(w, new_custodian);
            write_32(w, claim_txid);
            write_string(w, new_reserves_address.as_str());
        },
        LedgerOperation::DeliveryEmbed { request_hash, target_ledger_id, target_operator, .. } => {
            write_32(w, request_hash);
            write_32(w, target_ledger_id);
            write_pubkey(w, target_operator);
        },
        LedgerOperation::DisputeYield => {},
        LedgerOperation::LedgerClose => {},
    }
    assert(w@ =~= old(w)@ + operation_binary(op@));
}

/// Reading the fields of a `LedgerOpen` operation in the legacy encoding.
pub open spec fn bin_read_ledger_open(s: Seq<u8>) -> Read<OperationView> {
    let (o_operator_id, s1) = rd_pubkey(s);
    match o_operator_id {
        Err(f) => (Err(f), s1),
        Ok(operator_id) => {
            let (o_reserves_id, s2) = rd_string(s1);
            match o_reserves_id {
                Err(f) => (Err(f), s2),
                Ok(reserves_id) => {
                    let (o_genesis_block, s3) = rd_u32(s2);
                    match o_genesis_block {
                        Err(f) => (Err(f), s3),
                        Ok(genesis_block) => {
                            let (o__reserved, s4) = rd_u32(s3);
                            match o__reserved {
                                Err(f) => (Err(f), s4),
                                Ok(_reserved) => {
                                    let (o_reserves_amount, s5) = rd_u64(s4);
                                    let reserves_amount = match o_reserves_amount {
                                        Ok(v) => v,
                                        Err(_) => 0u64,
                                    };
                                    let (o_collateral_amount, s6) = rd_u64(s5);
                                    let collateral_amount = match o_collateral_amount {
                                        Ok(v) => v,
                                        Err(_) => 0u64,
                                    };
                                    (Ok(OperationView::LedgerOpen { operator_id: operator_id, reserves_id: reserves_id, genesis_block: genesis_block, reserves_amount: reserves_amount, collateral_amount: collateral_amount }), s6)
                                },
                            }
                        },
                    }
                },
            }
        },
    }
}

/// Reading the fields of a `QuorumBegin` operation in the legacy encoding.
pub open spec fn bin_read_quorum_begin(s: Seq<u8>) -> Read<OperationView> {
    let (o_reserves_id, s1) = rd_string(s);
    match o_reserves_id {
        Err(f) => (Err(f), s1),
        Ok(reserves_id) => {
            let (o_spending_txid, s2) = rd_exact(s1, 32);
            match o_spending_txid {
                Err(f) => (Err(f), s2),
                Ok(spending_txid) => {
                    let (o_new_outpoint_txid, s3) = rd_exact(s2, 32);
                    match o_new_outpoint_txid {
                        Err(f) => (Err(f), s3),
                        Ok(new_outpoint_txid) => {
                            let (o_new_outpoint_vout, s4) = rd_u32(s3);
                            match o_new_outpoint_vout {
                                Err(f) => (Err(f), s4),
                                Ok(new_outpoint_vout) => {
                                    let (o_amount, s5) = rd_u64(s4);
                                    match o_amount {
                                        Err(f) => (Err(f), s5),
                                        Ok(amount) => {
                                            let (o__threshold, s6) = rd_u8(s5);
                                            match o__threshold {
                                                Err(f) => (Err(f), s6),
                                                Ok(_threshold) => {
                                                    let (o__size, s7) = rd_u8(s6);
                                                    match o__size {
                                                        Err(f) => (Err(f), s7),
                                                        Ok(_size) => {
                                                            let (o_quorum_expiry, s8) = rd_u32(s7);
                                                            match o_quorum_expiry {
                                                                Err(f) => (Err(f), s8),
                                                                Ok(quorum_expiry) => {
                                                                    let (o_ledger_hash, s9) = rd_exact(s8, 32);
                                                                    match o_ledger_hash {
                                                                        Err(f) => (Err(f), s9),
                                                                        Ok(ledger_hash) => {
                                                                            let (o_collateral_amount, s10) = rd_u64(s9);
                                                                            let collateral_amount = match o_collateral_amount {
                                                                                Ok(v) => v,
                                                                                Err(_) => 0u64,
                                                                            };
                                                                            (Ok(OperationView::QuorumBegin { reserves_id: reserves_id, spending_txid: spending_txid, new_outpoint_txid: new_outpoint_txid, new_outpoint_vout: new_outpoint_vout, amount: amount, quorum_expiry: quorum_expiry, ledger_hash: ledger_hash, collateral_amount: collateral_amount, quorum_members: Seq::<(Seq<u8>, Seq<char>)>::empty() }), s10)
                                                                        },
                                                                    }
                                                                },
                                                            }
                                                        },
                                                    }
                                                },
                                            }
                                        },
                                    }
                                },
                            }
                        },
                    }
                },
            }
        },
    }
}

/// Reading the fields of a `DepositOpen` operation in the legacy encoding.
pub open spec fn bin_read_deposit_open(s: Seq<u8>) -> Read<OperationView> {
    let (o_deposit_id, s1) = rd_exact(s, 33);
    match o_deposit_id {
        Err(f) => (Err(f), s1),
        Ok(deposit_id) => {
            let (o_fees, s2) = rd_option_fee(s1);
            match o_fees {
                Err(f) => (Err(f), s2),
                Ok(fees) => {
                    let (o_payment_hash, s3) = rd_option_exact(s2, 32);
                    match o_payment_hash {
                        Err(f) => (Err(f), s3),
                        Ok(payment_hash) => {
                            let (o_invoice, s4) = rd_option_string(s3);
                            match o_invoice {
                                Err(f) => (Err(f), s4),
                                Ok(invoice) => {
                                    let (o_cosigner_guarantee_signature, s5) = rd_option_exact(s4, 64);
                                    match o_cosigner_guarantee_signature {
                                        Err(f) => (Err(f), s5),
                                        Ok(cosigner_guarantee_signature) => {
                                            (Ok(OperationView::DepositOpen { deposit_id: deposit_id.subrange(1, 17), fees: fees, payment_hash: payment_hash, invoice: invoice, cosigner_guarantee_signature: cosigner_guarantee_signature, descriptor: legacy_descriptor(deposit_id.subrange(1, 17)), transfer_fees: None, receive_requires_sig: false, fee_change_after_blocks: None, fee_change_notice_blocks: None, fee_change_limit_bps: None }), s5)
                                        },
                                    }
                                },
                            }
                        },
                    }
                },
            }
        },
    }
}

/// Reading the fields of a `DepositClose` operation in the legacy encoding.
pub open spec fn bin_read_deposit_close(s: Seq<u8>) -> Read<OperationView> {
    let (o_deposit_id, s1) = rd_exact(s, 33);
    match o_deposit_id {
        Err(f) => (Err(f), s1),
        Ok(deposit_id) => {
            (Ok(OperationView::DepositClose { deposit_id: deposit_id.subrange(1, 17) }), s1)
        },
    }
}

/// Reading the fields of a `FeeChange` operation in the legacy encoding.
pub open spec fn bin_read_fee_change(s: Seq<u8>) -> Read<OperationView> {
    let (o_deposit_id, s1) = rd_exact(s, 33);
    match o_deposit_id {
        Err(f) => (Err(f), s1),
        Ok(deposit_id) => {
            let (o_new_fees, s2) = rd_fee(s1);
            match o_new_fees {
                Err(f) => (Err(f), s2),
                Ok(new_fees) => {
                    (Ok(OperationView::FeeChange { deposit_id: deposit_id.subrange(1, 17), new_fees: new_fees, effective_block: 0u32 }), s2)
                },
            }
        },
    }
}

/// Reading the fields of a `DepositKeyRotate` operation in the legacy encoding.
pub open spec fn bin_read_deposit_key_rotate(s: Seq<u8>) -> Read<OperationView> {
    let (o_deposit_id, s1) = rd_exact(s, 33);
    match o_deposit_id {
        Err(f) => (Err(f), s1),
        Ok(deposit_id) => {
            let (o_new_descriptor, s2) = rd_string(s1);
            match o_new_descriptor {
                Err(f) => (Err(f), s2),
                Ok(new_descriptor) => {
                    let (o_witness, s3) = rd_exact(s2, 64);
                    match o_witness {
                        Err(f) => (Err(f), s3),
                        Ok(witness) => {
                            (Ok(OperationView::DepositKeyRotate { deposit_id: deposit_id.subrange(1, 17), new_descriptor: new_descriptor, witness: seq![witness] }), s3)
                        },
                    }
                },
            }
        },
    }
}

/// Reading the fields of a `InvoiceCredit` operation in the legacy encoding.
pub open spec fn bin_read_invoice_credit(s: Seq<u8>) -> Read<OperationView> {
    let (o_payment_hash, s1) = rd_exact(s, 32);
    match o_payment_hash {
        Err(f) => (Err(f), s1),
        Ok(payment_hash) => {
            let (o_deposit_id, s2) = rd_exact(s1, 33);
            match o_deposit_id {
                Err(f) => (Err(f), s2),
                Ok(deposit_id) => {
                    let (o_amount, s3) = rd_u64(s2);
                    match o_amount {
                        Err(f) => (Err(f), s3),
                        Ok(amount) => {
                            let (o_invoice_id, s4) = rd_string(s3);
                            match o_invoice_id {
                                Err(f) => (Err(f), s4),
                                Ok(invoice_id) => {
                                    let (o_sequence_number, s5) = rd_u64(s4);
                                    match o_sequence_number {
                                        Err(f) => (Err(f), s5),
                                        Ok(sequence_number) => {
                                            (Ok(OperationView::InvoiceCredit { payment_hash: payment_hash, deposit_id: deposit_id.subrange(1, 17), amount: amount, invoice_id: invoice_id, sequence_number: sequence_number }), s5)
                                        },
                                    }
                                },
                            }
                        },
                    }
                },
            }
        },
    }
}

/// Reading the fields of a `InvoiceLock` operation in the legacy encoding.
pub open spec fn bin_read_invoice_lock(s: Seq<u8>) -> Read<OperationView> {
    let (o_deposit_id, s1) = rd_exact(s, 33);
    match o_deposit_id {
        Err(f) => (Err(f), s1),
        Ok(deposit_id) => {
            let (o_amount, s2) = rd_u64(s1);
            match o_amount {
                Err(f) => (Err(f), s2),
                Ok(amount) => {
                    let (o_payment_id, s3) = rd_exact(s2, 32);
                    match o_payment_id {
                        Err(f) => (Err(f), s3),
                        Ok(payment_id) => {
                            let (o_sequence_number, s4) = rd_u64(s3);
                            match o_sequence_number {
                                Err(f) => (Err(f), s4),
                                Ok(sequence_number) => {
                                    let (o_witness, s5) = rd_exact(s4, 64);
                                    match o_witness {
                                        Err(f) => (Err(f), s5),
                                        Ok(witness) => {
                                            (Ok(OperationView::InvoiceLock { deposit_id: deposit_id.subrange(1, 17), amount: amount, payment_id: payment_id, sequence_number: sequence_number, witness: seq![witness] }), s5)
                                        },
                                    }
                                },
                            }
                        },
                    }
                },
            }
        },
    }
}

/// Reading the fields of a `InvoiceFail` operation in the legacy encoding.
pub open spec fn bin_read_invoice_fail(s: Seq<u8>) -> Read<OperationView> {
    let (o_deposit_id, s1) = rd_exact(s, 33);
    match o_deposit_id {
        Err(f) => (Err(f), s1),
        Ok(deposit_id) => {
            let (o_amount, s2) = rd_u64(s1);
            match o_amount {
                Err(f) => (Err(f), s2),
                Ok(amount) => {
                    let (o_payment_id, s3) = rd_exact(s2, 32);
                    match o_payment_id {
                        Err(f) => (Err(f), s3),
                        Ok(payment_id) => {
                            let (o_sequence_number, s4) = rd_u64(s3);
                            match o_sequence_number {
                                Err(f) => (Err(f), s4),
                                Ok(sequence_number) => {
                                    (Ok(OperationView::InvoiceFail { deposit_id: deposit_id.subrange(1, 17), amount: amount, payment_id: payment_id, sequence_number: sequence_number }), s4)
                                },
                            }
                        },
                    }
                },
            }
        },
    }
}

/// Reading the fields of a `InvoiceFulfill` operation in the legacy encoding.
pub open spec fn bin_read_invoice_fulfill(s: Seq<u8>) -> Read<OperationView> {
    let (o_deposit_id, s1) = rd_exact(s, 33);
    match o_deposit_id {
        Err(f) => (Err(f), s1),
        Ok(deposit_id) => {
            let (o_amount, s2) = rd_u64(s1);
            match o_amount {
                Err(f) => (Err(f), s2),
                Ok(amount) => {
                    let (o_payment_id, s3) = rd_exact(s2, 32);
                    match o_payment_id {
                        Err(f) => (Err(f), s3),
                        Ok(payment_id) => {
                            let (o_sequence_number, s4) = rd_u64(s3);
                            match o_sequence_number {
                                Err(f) => (Err(f), s4),
                                Ok(sequence_number) => {
                                    let (o_witness, s5) = rd_exact(s4, 64);
                                    match o_witness {
                                        Err(f) => (Err(f), s5),
                                        Ok(witness) => {
                                            let (o_preimage, s6) = rd_exact(s5, 32);
                                            match o_preimage {
                                                Err(f) => (Err(f), s6),
                                                Ok(preimage) => {
                                                    (Ok(OperationView::InvoiceFulfill { deposit_id: deposit_id.subrange(1, 17), amount: amount, payment_id: payment_id, sequence_number: sequence_number, witness: seq![witness], preimage: preimage }), s6)
                                                },
                                            }
                                        },
                                    }
                                },
                            }
                        },
                    }
                },
            }
        },
    }
}

/// Reading the fields of a `OnchainCredit` operation in the legacy encoding.
pub open spec fn bin_read_onchain_credit(s: Seq<u8>) -> Read<OperationView> {
    let (o_txid, s1) = rd_exact(s, 32);
    match o_txid {
        Err(f) => (Err(f), s1),
        Ok(txid) => {
            let (o_vout, s2) = rd_u32(s1);
            match o_vout {
                Err(f) => (Err(f), s2),
                Ok(vout) => {
                    let (o_deposit_id, s3) = rd_exact(s2, 33);
                    match o_deposit_id {
                        Err(f) => (Err(f), s3),
                        Ok(deposit_id) => {
                            let (o_amount, s4) = rd_u64(s3);
                            match o_amount {
                                Err(f) => (Err(f), s4),
                                Ok(amount) => {
                                    let (o_funding_address, s5) = rd_string(s4);
                                    match o_funding_address {
                                        Err(f) => (Err(f), s5),
                                        Ok(funding_address) => {
                                            (Ok(OperationView::OnchainCredit { txid: txid, vout: vout, deposit_id: deposit_id.subrange(1, 17), amount: amount, funding_address: funding_address }), s5)
                                        },
                                    }
                                },
                            }
                        },
                    }
                },
            }
        },
    }
}

/// Reading the fields of a `OnchainLock` operation in the legacy encoding.
pub open spec fn bin_read_onchain_lock(s: Seq<u8>) -> Read<OperationView> {
    let (o_deposit_id, s1) = rd_exact(s, 33);
    match o_deposit_id {
        Err(f) => (Err(f), s1),
        Ok(deposit_id) => {
            let (o_amount, s2) = rd_u64(s1);
            match o_amount {
                Err(f) => (Err(f), s2),
                Ok(amount) => {
                    let (o_fee_sats, s3) = rd_u64(s2);
                    match o_fee_sats {
                        Err(f) => (Err(f), s3),
                        Ok(fee_sats) => {
                            let (o_destination_address, s4) = rd_string(s3);
                            match o_destination_address {
                                Err(f) => (Err(f), s4),
                                Ok(destination_address) => {
                                    let (o_withdrawal_id, s5) = rd_exact(s4, 32);
                                    match o_withdrawal_id {
                                        Err(f) => (Err(f), s5),
                                        Ok(withdrawal_id) => {
                                            let (o_witness, s6) = rd_exact(s5, 64);
                                            match o_witness {
                                                Err(f) => (Err(f), s6),
                                                Ok(witness) => {
                                                    (Ok(OperationView::OnchainLock { deposit_id: deposit_id.subrange(1, 17), amount: amount, fee_sats: fee_sats, destination_address: destination_address, withdrawal_id: withdrawal_id, witness: seq![witness] }), s6)
                                                },
                                            }
                                        },
                                    }
                                },
                            }
                        },
                    }
                },
            }
        },
    }
}

/// Reading the fields of a `OnchainFail` operation in the legacy encoding.
pub open spec fn bin_read_onchain_fail(s: Seq<u8>) -> Read<OperationView> {
    let (o_deposit_id, s1) = rd_exact(s, 33);
    match o_deposit_id {
        Err(f) => (Err(f), s1),
        Ok(deposit_id) => {
            let (o_withdrawal_id, s2) = rd_exact(s1, 32);
            match o_withdrawal_id {
                Err(f) => (Err(f), s2),
                Ok(withdrawal_id) => {
                    (Ok(OperationView::OnchainFail { deposit_id: deposit_id.subrange(1, 17), withdrawal_id: withdrawal_id }), s2)
                },
            }
        },
    }
}

/// Reading the fields of a `OnchainFulfill` operation in the legacy encoding.
pub open spec fn bin_read_onchain_fulfill(s: Seq<u8>) -> Read<OperationView> {
    let (o_deposit_id, s1) = rd_exact(s, 33);
    match o_deposit_id {
        Err(f) => (Err(f), s1),
        Ok(deposit_id) => {
            let (o_withdrawal_id, s2) = rd_exact(s1, 32);
            match o_withdrawal_id {
                Err(f) => (Err(f), s2),
                Ok(withdrawal_id) => {
                    let (o_amount, s3) = rd_u64(s2);
                    match o_amount {
                        Err(f) => (Err(f), s3),
                        Ok(amount) => {
                            let (o_txid, s4) = rd_exact(s3, 32);
                            match o_txid {
                                Err(f) => (Err(f), s4),
                                Ok(txid) => {
                                    let (o_destination_address, s5) = rd_string(s4);
                                    match o_destination_address {
                                        Err(f) => (Err(f), s5),
                                        Ok(destination_address) => {
                                            (Ok(OperationView::OnchainFulfill { deposit_id: deposit_id.subrange(1, 17), withdrawal_id: withdrawal_id, amount: amount, txid: txid, destination_address: destination_address }), s5)
                                        },
                                    }
                                },
                            }
                        },
                    }
                },
            }
        },
    }
}

/// Reading the fields of a `TransferLock` operation in the legacy encoding.
pub open spec fn bin_read_transfer_lock(s: Seq<u8>) -> Read<OperationView> {
    let (o_nonce, s1) = rd_exact(s, 32);
    match o_nonce {
        Err(f) => (Err(f), s1),
        Ok(nonce) => {
            let (o_source_deposit_id, s2) = rd_exact(s1, 33);
            match o_source_deposit_id {
                Err(f) => (Err(f), s2),
                Ok(source_deposit_id) => {
                    let (o_destination_deposit_id, s3) = rd_exact(s2, 33);
                    match o_destination_deposit_id {
                        Err(f) => (Err(f), s3),
                        Ok(destination_deposit_id) => {
                            let (o_amount, s4) = rd_u64(s3);
                            match o_amount {
                                Err(f) => (Err(f), s4),
                                Ok(amount) => {
                                    let (o_fee, s5) = rd_u64(s4);
                                    match o_fee {
                                        Err(f) => (Err(f), s5),
                                        Ok(fee) => {
                                            let (o_completion_script, s6) = rd_string(s5);
                                            match o_completion_script {
                                                Err(f) => (Err(f), s6),
                                                Ok(completion_script) => {
                                                    let (o_timeout_height, s7) = rd_u32(s6);
                                                    match o_timeout_height {
                                                        Err(f) => (Err(f), s7),
                                                        Ok(timeout_height) => {
                                                            let (o_transfer_id, s8) = rd_exact(s7, 32);
                                                            match o_transfer_id {
                                                                Err(f) => (Err(f), s8),
                                                                Ok(transfer_id) => {
                                                                    let (o_witness, s9) = rd_exact(s8, 64);
                                                                    match o_witness {
                                                                        Err(f) => (Err(f), s9),
                                                                        Ok(witness) => {
                                                                            (Ok(OperationView::TransferLock { nonce: nonce, source_deposit_id: source_deposit_id.subrange(1, 17), destination_deposit_id: destination_deposit_id.subrange(1, 17), amount: amount, fee: fee, completion_script: completion_script, timeout_height: timeout_height, transfer_id: transfer_id, witness: seq![witness] }), s9)
                                                                        },
                                                                    }
                                                                },
                                                            }
                                                        },
                                                    }
                                                },
                                            }
                                        },
                                    }
                                },
                            }
                        },
                    }
                },
            }
        },
    }
}

/// Reading the fields of a `TransferComplete` operation in the legacy encoding.
pub open spec fn bin_read_transfer_complete(s: Seq<u8>) -> Read<OperationView> {
    let (o_transfer_id, s1) = rd_exact(s, 32);
    match o_transfer_id {
        Err(f) => (Err(f), s1),
        Ok(transfer_id) => {
            let (o_script_witness, s2) = rd_witness16(s1);
            match o_script_witness {
                Err(f) => (Err(f), s2),
                Ok(script_witness) => {
                    (Ok(OperationView::TransferComplete { transfer_id: transfer_id, script_witness: script_witness }), s2)
                },
            }
        },
    }
}

/// Reading the fields of a `TransferFail` operation in the legacy encoding.
pub open spec fn bin_read_transfer_fail(s: Seq<u8>) -> Read<OperationView> {
    let (o_transfer_id, s1) = rd_exact(s, 32);
    match o_transfer_id {
        Err(f) => (Err(f), s1),
        Ok(transfer_id) => {
            let (o_block_hash, s2) = rd_exact(s1, 32);
            match o_block_hash {
                Err(f) => (Err(f), s2),
                Ok(block_hash) => {
                    let (o_reason, s3) = rd_u8(s2);
                    let reason = match o_reason {
                        Ok(v) => v,
                        Err(_) => 1u8,
                    };
                    (Ok(OperationView::TransferFail { transfer_id: transfer_id, block_hash: block_hash, reason: reason }), s3)
                },
            }
        },
    }
}

/// Reading the fields of a `QuorumAddMember` operation in the legacy encoding.
pub open spec fn bin_read_quorum_add_member(s: Seq<u8>) -> Read<OperationView> {
    let (o_quorum_member, s1) = rd_pubkey(s);
    match o_quorum_member {
        Err(f) => (Err(f), s1),
        Ok(quorum_member) => {
            let (o_quorum_member_signature, s2) = rd_exact(s1, 64);
            match o_quorum_member_signature {
                Err(f) => (Err(f), s2),
                Ok(quorum_member_signature) => {
                    let (o_member_ledger_id, s3) = rd_string(s2);
                    match o_member_ledger_id {
                        Err(f) => (Err(f), s3),
                        Ok(member_ledger_id) => {
                            (Ok(OperationView::QuorumAddMember { quorum_member: quorum_member, quorum_member_signature: quorum_member_signature, member_ledger_id: member_ledger_id, min_fee_bps: None, min_fee_fixed: None, max_fee_period: None, membership_until: None, dispute_response_blocks: None, dispute_arm_blocks: None, service_response_blocks: None, max_transfer_timeout_blocks: None, max_descriptor_bytes: None, compensation_bps: None, compensation_deposit_id: None, compensation_frequency_blocks: None }), s3)
                        },
                    }
                },
            }
        },
    }
}

/// Reading the fields of a `QuorumRemoveMember` operation in the legacy encoding.
pub open spec fn bin_read_quorum_remove_member(s: Seq<u8>) -> Read<OperationView> {
    let (o_quorum_member, s1) = rd_pubkey(s);
    match o_quorum_member {
        Err(f) => (Err(f), s1),
        Ok(quorum_member) => {
            let (o_operator_signature, s2) = rd_exact(s1, 64);
            match o_operator_signature {
                Err(f) => (Err(f), s2),
                Ok(operator_signature) => {
                    (Ok(OperationView::QuorumRemoveMember { quorum_member: quorum_member, operator_signature: operator_signature }), s2)
                },
            }
        },
    }
}

/// Reading the fields of a `QuorumJoin` operation in the legacy encoding.
pub open spec fn bin_read_quorum_join(s: Seq<u8>) -> Read<OperationView> {
    let (o_operator_id, s1) = rd_pubkey(s);
    match o_operator_id {
        Err(f) => (Err(f), s1),
        Ok(operator_id) => {
            let (o_ledger_id, s2) = rd_string(s1);
            match o_ledger_id {
                Err(f) => (Err(f), s2),
                Ok(ledger_id) => {
                    let (o_membership_expires, s3) = rd_u32(s2);
                    match o_membership_expires {
                        Err(f) => (Err(f), s3),
                        Ok(membership_expires) => {
                            (Ok(OperationView::QuorumJoin { operator_id: operator_id, ledger_id: ledger_id, membership_expires: membership_expires }), s3)
                        },
                    }
                },
            }
        },
    }
}

/// Reading the fields of a `FeeCollect` operation in the legacy encoding.
pub open spec fn bin_read_fee_collect(s: Seq<u8>) -> Read<OperationView> {
    let (o_deposit_id, s1) = rd_exact(s, 33);
    match o_deposit_id {
        Err(f) => (Err(f), s1),
        Ok(deposit_id) => {
            let (o_amount, s2) = rd_u64(s1);
            match o_amount {
                Err(f) => (Err(f), s2),
                Ok(amount) => {
                    let (o_block_height, s3) = rd_u32(s2);
                    match o_block_height {
                        Err(f) => (Err(f), s3),
                        Ok(block_height) => {
                            (Ok(OperationView::FeeCollect { deposit_id: deposit_id.subrange(1, 17), amount: amount, block_height: block_height }), s3)
                        },
                    }
                },
            }
        },
    }
}

/// Reading the fields of a `DisputeEnter` operation in the legacy encoding.
pub open spec fn bin_read_dispute_enter(s: Seq<u8>) -> Read<OperationView> {
    let (o_last_valid_sequence, s1) = rd_u64(s);
    match o_last_valid_sequence {
        Err(f) => (Err(f), s1),
        Ok(last_valid_sequence) => {
            let (o_reason, s2) = rd_string(s1);
            match o_reason {
                Err(f) => (Err(f), s2),
                Ok(reason) => {
                    (Ok(OperationView::DisputeEnter { last_valid_sequence: last_valid_sequence, reason: reason }), s2)
                },
            }
        },
    }
}

/// Reading the fields of a `DisputeAcquire` operation in the legacy encoding.
pub open spec fn bin_read_dispute_acquire(s: Seq<u8>) -> Read<OperationView> {
    let (o_new_custodian, s1) = rd_pubkey(s);
    match o_new_custodian {
        Err(f) => (Err(f), s1),
        Ok(new_custodian) => {
            let (o_claim_txid, s2) = rd_exact(s1, 32);
            match o_claim_txid {
                Err(f) => (Err(f), s2),
                Ok(claim_txid) => {
                    let (o_new_reserves_address, s3) = rd_string(s2);
                    match o_new_reserves_address {
                        Err(f) => (Err(f), s3),
                        Ok(new_reserves_address) => {
                            (Ok(OperationView::DisputeAcquire { new_custodian: new_custodian, claim_txid: claim_txid, new_reserves_address: new_reserves_address }), s3)
                        },
                    }
                },
            }
        },
    }
}

/// Reading the fields of a `DisputeArmed` operation in the legacy encoding.
pub open spec fn bin_read_dispute_armed(s: Seq<u8>) -> Read<OperationView> {
    let (o_armed_block, s1) = rd_u32(s);
    match o_armed_block {
        Err(f) => (Err(f), s1),
        Ok(armed_block) => {
            let (o_commitment_hash, s2) = rd_exact(s1, 20);
            match o_commitment_hash {
                Err(f) => (Err(f), s2),
                Ok(commitment_hash) => {
                    let (o_target_reserves, s3) = rd_string(s2);
                    match o_target_reserves {
                        Err(f) => (Err(f), s3),
                        Ok(target_reserves) => {
                            let (o_replacement_collateral, s4) = rd_collateral(s3);
                            match o_replacement_collateral {
                                Err(f) => (Err(f), s4),
                                Ok(replacement_collateral) => {
                                    (Ok(OperationView::DisputeArmed { armed_block: armed_block, commitment_hash: commitment_hash, target_reserves: target_reserves, replacement_collateral: replacement_collateral }), s4)
                                },
                            }
                        },
                    }
                },
            }
        },
    }
}

/// Reading the fields of a `DeliveryEmbed` operation in the legacy encoding.
pub open spec fn bin_read_delivery_embed(s: Seq<u8>) -> Read<OperationView> {
    let (o_request_hash, s1) = rd_exact(s, 32);
    match o_request_hash {
        Err(f) => (Err(f), s1),
        Ok(request_hash) => {
            let (o_target_ledger_id, s2) = rd_exact(s1, 32);
            match o_target_ledger_id {
                Err(f) => (Err(f), s2),
                Ok(target_ledger_id) => {
                    let (o_target_operator, s3) = rd_pubkey(s2);
                    match o_target_operator {
                        Err(f) => (Err(f), s3),
                        Ok(target_operator) => {
                            (Ok(OperationView::DeliveryEmbed { request_hash: request_hash, target_ledger_id: target_ledger_id, target_operator: target_operator }), s3)
                        },
                    }
                },
            }
        },
    }
}

fn read_ledger_open(data: &[u8], pos: &mut usize) -> (r: Result<LedgerOperation, CodecError>)
    requires
        *old(pos) <= data@.len(),
    ensures
        *final(pos) <= data@.len(),
        data@.skip(*final(pos) as int) == bin_read_ledger_open(data@.skip(*old(pos) as int)).1,
        read_is_view(r, bin_read_ledger_open(data@.skip(*old(pos) as int)).0),
{
    let operator_id = match read_pubkey(data, pos) {
        Ok(v) => v,
        Err(e) => {
            return Err(e);
        },
    };
    let reserves_id = match read_string(data, pos) {
        Ok(v) => v,
        Err(e) => {
            return Err(e);
        },
    };
    let genesis_block = match read_u32(data, pos) {
        Ok(v) => v,
        Err(e) => {
            return Err(e);
        },
    };
    let _reserved = match read_u32(data, pos) {
        Ok(v) => v,
        Err(e) => {
            return Err(e);
        },
    };
    let reserves_amount = match read_u64(data, pos) {
        Ok(v) => v,
        Err(_) => 0,
    };
    let collateral_amount = match read_u64(data, pos) {
        Ok(v) => v,
        Err(_) => 0,
    };
    Ok(LedgerOperation::LedgerOpen { operator_id, reserves_id, genesis_block, reserves_amount, collateral_amount })
}

fn read_quorum_begin(data: &[u8], pos: &mut usize) -> (r: Result<LedgerOperation, CodecError>)
    requires
        *old(pos) <= data@.len(),
    ensures
        *final(pos) <= data@.len(),
        data@.skip(*final(pos) as int) == bin_read_quorum_begin(data@.skip(*old(pos) as int)).1,
        read_is_view(r, bin_read_quorum_begin(data@.skip(*old(pos) as int)).0),
{
    let reserves_id = match read_string(data, pos) {
        Ok(v) => v,
        Err(e) => {
            return Err(e);
        },
    };
    let spending_txid = match read_32(data, pos) {
        Ok(v) => v,
        Err(e) => {
            return Err(e);
        },
    };
    let new_outpoint_txid = match read_32(data, pos) {
        Ok(v) => v,
        Err(e) => {
            return Err(e);
        },
    };
    let new_outpoint_vout = match read_u32(data, pos) {
        Ok(v) => v,
        Err(e) => {
            return Err(e);
        },
    };
    let amount = match read_u64(data, pos) {
        Ok(v) => v,
        Err(e) => {
            return Err(e);
        },
    };
    let _threshold = match read_u8(data, pos) {
        Ok(v) => v,
        Err(e) => {
            return Err(e);
        },
    };
    let _size = match read_u8(data, pos) {
        Ok(v) => v,
        Err(e) => {
            return Err(e);
        },
    };
    let quorum_expiry = match read_u32(data, pos) {
        Ok(v) => v,
        Err(e) => {
            return Err(e);
        },
    };
    let ledger_hash = match read_32(data, pos) {
        Ok(v) => v,
        Err(e) => {
            return Err(e);
        },
    };
    let collateral_amount = match read_u64(data, pos) {
        Ok(v) => v,
        Err(_) => 0,
    };
    let quorum_members: Vec<crate::operation::QuorumMemberRef> = Vec::new();
    assert(crate::operation::members_view(quorum_members@) =~= Seq::<(Seq<u8>, Seq<char>)>::empty());
    Ok(LedgerOperation::QuorumBegin { reserves_id, spending_txid, new_outpoint_txid, new_outpoint_vout, amount, quorum_expiry, ledger_hash, collateral_amount, quorum_members })
}

fn read_deposit_open(data: &[u8], pos: &mut usize) -> (r: Result<LedgerOperation, CodecError>)
    requires
        *old(pos) <= data@.len(),
    ensures
        *final(pos) <= data@.len(),
        data@.skip(*final(pos) as int) == bin_read_deposit_open(data@.skip(*old(pos) as int)).1,
        read_is_view(r, bin_read_deposit_open(data@.skip(*old(pos) as int)).0),
{
    let deposit_id = match read_33(data, pos) {
        Ok(v) => v,
        Err(e) => {
            return Err(e);
        },
    };
    let deposit_id: [u8; 16] = crate::bytes::array_at(deposit_id.as_slice(), 1);
    let fees = match read_option_fee(data, pos) {
        Ok(v) => v,
        Err(e) => {
            return Err(e);
        },
    };
    let payment_hash = match read_option_32(data, pos) {
        Ok(v) => v,
        Err(e) => {
            return Err(e);
        },
    };
    let invoice = match read_option_string(data, pos) {
        Ok(v) => v,
        Err(e) => {
            return Err(e);
        },
    };
    let cosigner_guarantee_signature = match read_option_64(data, pos) {
        Ok(v) => v,
        Err(e) => {
            return Err(e);
        },
    };
    let descriptor = legacy_descriptor_text(&deposit_id);
    Ok(LedgerOperation::DepositOpen { deposit_id, fees, payment_hash, invoice, cosigner_guarantee_signature, descriptor, transfer_fees: None, receive_requires_sig: false, fee_change_after_blocks: None, fee_change_notice_blocks: None, fee_change_limit_bps: None })
}

fn read_deposit_close(data: &[u8], pos: &mut usize) -> (r: Result<LedgerOperation, CodecError>)
    requires
        *old(pos) <= data@.len(),
    ensures
        *final(pos) <= data@.len(),
        data@.skip(*final(pos) as int) == bin_read_deposit_close(data@.skip(*old(pos) as int)).1,
        read_is_view(r, bin_read_deposit_close(data@.skip(*old(pos) as int)).0),
{
    let deposit_id = match read_33(data, pos) {
        Ok(v) => v,
        Err(e) => {
            return Err(e);
        },
    };
    let deposit_id: [u8; 16] = crate::bytes::array_at(deposit_id.as_slice(), 1);
    Ok(LedgerOperation::DepositClose { deposit_id })
}

fn read_fee_change(data: &[u8], pos: &mut usize) -> (r: Result<LedgerOperation, CodecError>)
    requires
        *old(pos) <= data@.len(),
    ensures
        *final(pos) <= data@.len(),
        data@.skip(*final(pos) as int) == bin_read_fee_change(data@.skip(*old(pos) as int)).1,
        read_is_view(r, bin_read_fee_change(data@.skip(*old(pos) as int)).0),
{
    let deposit_id = match read_33(data, pos) {
        Ok(v) => v,
        Err(e) => {
            return Err(e);
        },
    };
    let deposit_id: [u8; 16] = crate::bytes::array_at(deposit_id.as_slice(), 1);
    let new_fees = match FeeStructure::read_from(data, pos) {
        Ok(v) => v,
        Err(e) => {
            return Err(e);
        },
    };
    Ok(LedgerOperation::FeeChange { deposit_id, new_fees, effective_block: 0 })
}

fn read_deposit_key_rotate(data: &[u8], pos: &mut usize) -> (r: Result<LedgerOperation, CodecError>)
    requires
        *old(pos) <= data@.len(),
    ensures
        *final(pos) <= data@.len(),
        data@.skip(*final(pos) as int) == bin_read_deposit_key_rotate(data@.skip(*old(pos) as int)).1,
        read_is_view(r, bin_read_deposit_key_rotate(data@.skip(*old(pos) as int)).0),
{
    let deposit_id = match read_33(data, pos) {
        Ok(v) => v,
        Err(e) => {
            return Err(e);
        },
    };
    let deposit_id: [u8; 16] = crate::bytes::array_at(deposit_id.as_slice(), 1);
    let new_descriptor = match read_string(data, pos) {
        Ok(v) => v,
        Err(e) => {
            return Err(e);
        },
    };
    let witness = match read_64(data, pos) {
        Ok(v) => v,
        Err(e) => {
            return Err(e);
        },
    };
    let witness = DescriptorWitness::from_signature(&witness);
    Ok(LedgerOperation::DepositKeyRotate { deposit_id, new_descriptor, witness })
}

fn read_invoice_credit(data: &[u8], pos: &mut usize) -> (r: Result<LedgerOperation, CodecError>)
    requires
        *old(pos) <= data@.len(),
    ensures
        *final(pos) <= data@.len(),
        data@.skip(*final(pos) as int) == bin_read_invoice_credit(data@.skip(*old(pos) as int)).1,
        read_is_view(r, bin_read_invoice_credit(data@.skip(*old(pos) as int)).0),
{
    let payment_hash = match read_32(data, pos) {
        Ok(v) => v,
        Err(e) => {
            return Err(e);
        },
    };
    let deposit_id = match read_33(data, pos) {
        Ok(v) => v,
        Err(e) => {
            return Err(e);
        },
    };
    let deposit_id: [u8; 16] = crate::bytes::array_at(deposit_id.as_slice(), 1);
    let amount = match read_u64(data, pos) {
        Ok(v) => v,
        Err(e) => {
            return Err(e);
        },
    };
    let invoice_id = match read_string(data, pos) {
        Ok(v) => v,
        Err(e) => {
            return Err(e);
        },
    };
    let sequence_number = match read_u64(data, pos) {
        Ok(v) => v,
        Err(e) => {
            return Err(e);
        },
    };
    Ok(LedgerOperation::InvoiceCredit { payment_hash, deposit_id, amount, invoice_id, sequence_number })
}

fn read_invoice_lock(data: &[u8], pos: &mut usize) -> (r: Result<LedgerOperation, CodecError>)
    requires
        *old(pos) <= data@.len(),
    ensures
        *final(pos) <= data@.len(),
        data@.skip(*final(pos) as int) == bin_read_invoice_lock(data@.skip(*old(pos) as int)).1,
        read_is_view(r, bin_read_invoice_lock(data@.skip(*old(pos) as int)).0),
{
    let deposit_id = match read_33(data, pos) {
        Ok(v) => v,
        Err(e) => {
            return Err(e);
        },
    };
    let deposit_id: [u8; 16] = crate::bytes::array_at(deposit_id.as_slice(), 1);
    let amount = match read_u64(data, pos) {
        Ok(v) => v,
        Err(e) => {
            return Err(e);
        },
    };
    let payment_id = match read_32(data, pos) {
        Ok(v) => v,
        Err(e) => {
            return Err(e);
        },
    };
    let sequence_number = match read_u64(data, pos) {
        Ok(v) => v,
        Err(e) => {
            return Err(e);
        },
    };
    let witness = match read_64(data, pos) {
        Ok(v) => v,
        Err(e) => {
            return Err(e);
        },
    };
    let witness = DescriptorWitness::from_signature(&witness);
    Ok(LedgerOperation::InvoiceLock { deposit_id, amount, payment_id, sequence_number, witness })
}

fn read_invoice_fail(data: &[u8], pos: &mut usize) -> (r: Result<LedgerOperation, CodecError>)
    requires
        *old(pos) <= data@.len(),
    ensures
        *final(pos) <= data@.len(),
        data@.skip(*final(pos) as int) == bin_read_invoice_fail(data@.skip(*old(pos) as int)).1,
        read_is_view(r, bin_read_invoice_fail(data@.skip(*old(pos) as int)).0),
{
    let deposit_id = match read_33(data, pos) {
        Ok(v) => v,
        Err(e) => {
            return Err(e);
        },
    };
    let deposit_id: [u8; 16] = crate::bytes::array_at(deposit_id.as_slice(), 1);
    let amount = match read_u64(data, pos) {
        Ok(v) => v,
        Err(e) => {
            return Err(e);
        },
    };
    let payment_id = match read_32(data, pos) {
        Ok(v) => v,
        Err(e) => {
            return Err(e);
        },
    };
    let sequence_number = match read_u64(data, pos) {
        Ok(v) => v,
        Err(e) => {
            return Err(e);
        },
    };
    Ok(LedgerOperation::InvoiceFail { deposit_id, amount, payment_id, sequence_number })
}

fn read_invoice_fulfill(data: &[u8], pos: &mut usize) -> (r: Result<LedgerOperation, CodecError>)
    requires
        *old(pos) <= data@.len(),
    ensures
        *final(pos) <= data@.len(),
        data@.skip(*final(pos) as int) == bin_read_invoice_fulfill(data@.skip(*old(pos) as int)).1,
        read_is_view(r, bin_read_invoice_fulfill(data@.skip(*old(pos) as int)).0),
{
    let deposit_id = match read_33(data, pos) {
        Ok(v) => v,
        Err(e) => {
            return Err(e);
        },
    };
    let deposit_id: [u8; 16] = crate::bytes::array_at(deposit_id.as_slice(), 1);
    let amount = match read_u64(data, pos) {
        Ok(v) => v,
        Err(e) => {
            return Err(e);
        },
    };
    let payment_id = match read_32(data, pos) {
        Ok(v) => v,
        Err(e) => {
            return Err(e);
        },
    };
    let sequence_number = match read_u64(data, pos) {
        Ok(v) => v,
        Err(e) => {
            return Err(e);
        },
    };
    let witness = match read_64(data, pos) {
        Ok(v) => v,
        Err(e) => {
            return Err(e);
        },
    };
    let witness = DescriptorWitness::from_signature(&witness);
    let preimage = match read_32(data, pos) {
        Ok(v) => v,
        Err(e) => {
            return Err(e);
        },
    };
    Ok(LedgerOperation::InvoiceFulfill { deposit_id, amount, payment_id, sequence_number, witness, preimage })
}

fn read_onchain_credit(data: &[u8], pos: &mut usize) -> (r: Result<LedgerOperation, CodecError>)
    requires
        *old(pos) <= data@.len(),
    ensures
        *final(pos) <= data@.len(),
        data@.skip(*final(pos) as int) == bin_read_onchain_credit(data@.skip(*old(pos) as int)).1,
        read_is_view(r, bin_read_onchain_credit(data@.skip(*old(pos) as int)).0),
{
    let txid = match read_32(data, pos) {
        Ok(v) => v,
        Err(e) => {
            return Err(e);
        },
    };
    let vout = match read_u32(data, pos) {
        Ok(v) => v,
        Err(e) => {
            return Err(e);
        },
    };
    let deposit_id = match read_33(data, pos) {
        Ok(v) => v,
        Err(e) => {
            return Err(e);
        },
    };
    let deposit_id: [u8; 16] = crate::bytes::array_at(deposit_id.as_slice(), 1);
    let amount = match read_u64(data, pos) {
        Ok(v) => v,
        Err(e) => {
            return Err(e);
        },
    };
    let funding_address = match read_string(data, pos) {
        Ok(v) => v,
        Err(e) => {
            return Err(e);
        },
    };
    Ok(LedgerOperation::OnchainCredit { txid, vout, deposit_id, amount, funding_address })
}

fn read_onchain_lock(data: &[u8], pos: &mut usize) -> (r: Result<LedgerOperation, CodecError>)
    requires
        *old(pos) <= data@.len(),
    ensures
        *final(pos) <= data@.len(),
        data@.skip(*final(pos) as int) == bin_read_onchain_lock(data@.skip(*old(pos) as int)).1,
        read_is_view(r, bin_read_onchain_lock(data@.skip(*old(pos) as int)).0),
{
    let deposit_id = match read_33(data, pos) {
        Ok(v) => v,
        Err(e) => {
            return Err(e);
        },
    };
    let deposit_id: [u8; 16] = crate::bytes::array_at(deposit_id.as_slice(), 1);
    let amount = match read_u64(data, pos) {
        Ok(v) => v,
        Err(e) => {
            return Err(e);
        },
    };
    let fee_sats = match read_u64(data, pos) {
        Ok(v) => v,
        Err(e) => {
            return Err(e);
        },
    };
    let destination_address = match read_string(data, pos) {
        Ok(v) => v,
        Err(e) => {
            return Err(e);
        },
    };
    let withdrawal_id = match read_32(data, pos) {
        Ok(v) => v,
        Err(e) => {
            return Err(e);
        },
    };
    let witness = match read_64(data, pos) {
        Ok(v) => v,
        Err(e) => {
            return Err(e);
        },
    };
    let witness = DescriptorWitness::from_signature(&witness);
    Ok(LedgerOperation::OnchainLock { deposit_id, amount, fee_sats, destination_address, withdrawal_id, witness })
}

fn read_onchain_fail(data: &[u8], pos: &mut usize) -> (r: Result<LedgerOperation, CodecError>)
    requires
        *old(pos) <= data@.len(),
    ensures
        *final(pos) <= data@.len(),
        data@.skip(*final(pos) as int) == bin_read_onchain_fail(data@.skip(*old(pos) as int)).1,
        read_is_view(r, bin_read_onchain_fail(data@.skip(*old(pos) as int)).0),
{
    let deposit_id = match read_33(data, pos) {
        Ok(v) => v,
        Err(e) => {
            return Err(e);
        },
    };
    let deposit_id: [u8; 16] = crate::bytes::array_at(deposit_id.as_slice(), 1);
    let withdrawal_id = match read_32(data, pos) {
        Ok(v) => v,
        Err(e) => {
            return Err(e);
        },
    };
    Ok(LedgerOperation::OnchainFail { deposit_id, withdrawal_id })
}

fn read_onchain_fulfill(data: &[u8], pos: &mut usize) -> (r: Result<LedgerOperation, CodecError>)
    requires
        *old(pos) <= data@.len(),
    ensures
        *final(pos) <= data@.len(),
        data@.skip(*final(pos) as int) == bin_read_onchain_fulfill(data@.skip(*old(pos) as int)).1,
        read_is_view(r, bin_read_onchain_fulfill(data@.skip(*old(pos) as int)).0),
{
    let deposit_id = match read_33(data, pos) {
        Ok(v) => v,
        Err(e) => {
            return Err(e);
        },
    };
    let deposit_id: [u8; 16] = crate::bytes::array_at(deposit_id.as_slice(), 1);
    let withdrawal_id = match read_32(data, pos) {
        Ok(v) => v,
        Err(e) => {
            return Err(e);
        },
    };
    let amount = match read_u64(data, pos) {
        Ok(v) => v,
        Err(e) => {
            return Err(e);
        },
    };
    let txid = match read_32(data, pos) {
        Ok(v) => v,
        Err(e) => {
            return Err(e);
        },
    };
    let destination_address = match read_string(data, pos) {
        Ok(v) => v,
        Err(e) => {
            return Err(e);
        },
    };
    Ok(LedgerOperation::OnchainFulfill { deposit_id, withdrawal_id, amount, txid, destination_address })
}

fn read_transfer_lock(data: &[u8], pos: &mut usize) -> (r: Result<LedgerOperation, CodecError>)
    requires
        *old(pos) <= data@.len(),
    ensures
        *final(pos) <= data@.len(),
        data@.skip(*final(pos) as int) == bin_read_transfer_lock(data@.skip(*old(pos) as int)).1,
        read_is_view(r, bin_read_transfer_lock(data@.skip(*old(pos) as int)).0),
{
    let nonce = match read_32(data, pos) {
        Ok(v) => v,
        Err(e) => {
            return Err(e);
        },
    };
    let source_deposit_id = match read_33(data, pos) {
        Ok(v) => v,
        Err(e) => {
            return Err(e);
        },
    };
    let source_deposit_id: [u8; 16] = crate::bytes::array_at(source_deposit_id.as_slice(), 1);
    let destination_deposit_id = match read_33(data, pos) {
        Ok(v) => v,
        Err(e) => {
            return Err(e);
        },
    };
    let destination_deposit_id: [u8; 16] = crate::bytes::array_at(destination_deposit_id.as_slice(), 1);
    let amount = match read_u64(data, pos) {
        Ok(v) => v,
        Err(e) => {
            return Err(e);
        },
    };
    let fee = match read_u64(data, pos) {
        Ok(v) => v,
        Err(e) => {
            return Err(e);
        },
    };
    let completion_script = match read_string(data, pos) {
        Ok(v) => v,
        Err(e) => {
            return Err(e);
        },
    };
    let timeout_height = match read_u32(data, pos) {
        Ok(v) => v,
        Err(e) => {
            return Err(e);
        },
    };
    let transfer_id = match read_32(data, pos) {
        Ok(v) => v,
        Err(e) => {
            return Err(e);
        },
    };
    let witness = match read_64(data, pos) {
        Ok(v) => v,
        Err(e) => {
            return Err(e);
        },
    };
    let witness = DescriptorWitness::from_signature(&witness);
    Ok(LedgerOperation::TransferLock { nonce, source_deposit_id, destination_deposit_id, amount, fee, completion_script, timeout_height, transfer_id, witness })
}

fn read_transfer_complete(data: &[u8], pos: &mut usize) -> (r: Result<LedgerOperation, CodecError>)
    requires
        *old(pos) <= data@.len(),
    ensures
        *final(pos) <= data@.len(),
        data@.skip(*final(pos) as int) == bin_read_transfer_complete(data@.skip(*old(pos) as int)).1,
        read_is_view(r, bin_read_transfer_complete(data@.skip(*old(pos) as int)).0),
{
    let transfer_id = match read_32(data, pos) {
        Ok(v) => v,
        Err(e) => {
            return Err(e);
        },
    };
    let script_witness = match read_witness16(data, pos) {
        Ok(v) => v,
        Err(e) => {
            return Err(e);
        },
    };
    Ok(LedgerOperation::TransferComplete { transfer_id, script_witness })
}

fn read_transfer_fail(data: &[u8], pos: &mut usize) -> (r: Result<LedgerOperation, CodecError>)
    requires
        *old(pos) <= data@.len(),
    ensures
        *final(pos) <= data@.len(),
        data@.skip(*final(pos) as int) == bin_read_transfer_fail(data@.skip(*old(pos) as int)).1,
        read_is_view(r, bin_read_transfer_fail(data@.skip(*old(pos) as int)).0),
{
    let transfer_id = match read_32(data, pos) {
        Ok(v) => v,
        Err(e) => {
            return Err(e);
        },
    };
    let block_hash = match read_32(data, pos) {
        Ok(v) => v,
        Err(e) => {
            return Err(e);
        },
    };
    let reason = match read_u8(data, pos) {
        Ok(v) => v,
        Err(_) => 1,
    };
    Ok(LedgerOperation::TransferFail { transfer_id, block_hash, reason })
}

fn read_quorum_add_member(data: &[u8], pos: &mut usize) -> (r: Result<LedgerOperation, CodecError>)
    requires
        *old(pos) <= data@.len(),
    ensures
        *final(pos) <= data@.len(),
        data@.skip(*final(pos) as int) == bin_read_quorum_add_member(data@.skip(*old(pos) as int)).1,
        read_is_view(r, bin_read_quorum_add_member(data@.skip(*old(pos) as int)).0),
{
    let quorum_member = match read_pubkey(data, pos) {
        Ok(v) => v,
        Err(e) => {
            return Err(e);
        },
    };
    let quorum_member_signature = match read_64(data, pos) {
        Ok(v) => v,
        Err(e) => {
            return Err(e);
        },
    };
    let member_ledger_id = match read_string(data, pos) {
        Ok(v) => v,
        Err(e) => {
            return Err(e);
        },
    };
    Ok(LedgerOperation::QuorumAddMember { quorum_member, quorum_member_signature, member_ledger_id, min_fee_bps: None, min_fee_fixed: None, max_fee_period: None, membership_until: None, dispute_response_blocks: None, dispute_arm_blocks: None, service_response_blocks: None, max_transfer_timeout_blocks: None, max_descriptor_bytes: None, compensation_bps: None, compensation_deposit_id: None, compensation_frequency_blocks: None })
}

fn read_quorum_remove_member(data: &[u8], pos: &mut usize) -> (r: Result<LedgerOperation, CodecError>)
    requires
        *old(pos) <= data@.len(),
    ensures
        *final(pos) <= data@.len(),
        data@.skip(*final(pos) as int) == bin_read_quorum_remove_member(data@.skip(*old(pos) as int)).1,
        read_is_view(r, bin_read_quorum_remove_member(data@.skip(*old(pos) as int)).0),
{
    let quorum_member = match read_pubkey(data, pos) {
        Ok(v) => v,
        Err(e) => {
            return Err(e);
        },
    };
    let operator_signature = match read_64(data, pos) {
        Ok(v) => v,
        Err(e) => {
            return Err(e);
        },
    };
    Ok(LedgerOperation::QuorumRemoveMember { quorum_member, operator_signature })
}

fn read_quorum_join(data: &[u8], pos: &mut usize) -> (r: Result<LedgerOperation, CodecError>)
    requires
        *old(pos) <= data@.len(),
    ensures
        *final(pos) <= data@.len(),
        data@.skip(*final(pos) as int) == bin_read_quorum_join(data@.skip(*old(pos) as int)).1,
        read_is_view(r, bin_read_quorum_join(data@.skip(*old(pos) as int)).0),
{
    let operator_id = match read_pubkey(data, pos) {
        Ok(v) => v,
        Err(e) => {
            return Err(e);
        },
    };
    let ledger_id = match read_string(data, pos) {
        Ok(v) => v,
        Err(e) => {
            return Err(e);
        },
    };
    let membership_expires = match read_u32(data, pos) {
        Ok(v) => v,
        Err(e) => {
            return Err(e);
        },
    };
    Ok(LedgerOperation::QuorumJoin { operator_id, ledger_id, membership_expires })
}

fn read_fee_collect(data: &[u8], pos: &mut usize) -> (r: Result<LedgerOperation, CodecError>)
    requires
        *old(pos) <= data@.len(),
    ensures
        *final(pos) <= data@.len(),
        data@.skip(*final(pos) as int) == bin_read_fee_collect(data@.skip(*old(pos) as int)).1,
        read_is_view(r, bin_read_fee_collect(data@.skip(*old(pos) as int)).0),
{
    let deposit_id = match read_33(data, pos) {
        Ok(v) => v,
        Err(e) => {
            return Err(e);
        },
    };
    let deposit_id: [u8; 16] = crate::bytes::array_at(deposit_id.as_slice(), 1);
    let amount = match read_u64(data, pos) {
        Ok(v) => v,
        Err(e) => {
            return Err(e);
        },
    };
    let block_height = match read_u32(data, pos) {
        Ok(v) => v,
        Err(e) => {
            return Err(e);
        },
    };
    Ok(LedgerOperation::FeeCollect { deposit_id, amount, block_height })
}

fn read_dispute_enter(data: &[u8], pos: &mut usize) -> (r: Result<LedgerOperation, CodecError>)
    requires
        *old(pos) <= data@.len(),
    ensures
        *final(pos) <= data@.len(),
        data@.skip(*final(pos) as int) == bin_read_dispute_enter(data@.skip(*old(pos) as int)).1,
        read_is_view(r, bin_read_dispute_enter(data@.skip(*old(pos) as int)).0),
{
    let last_valid_sequence = match read_u64(data, pos) {
        Ok(v) => v,
        Err(e) => {
            return Err(e);
        },
    };
    let reason = match read_string(data, pos) {
        Ok(v) => v,
        Err(e) => {
            return Err(e);
        },
    };
    Ok(LedgerOperation::DisputeEnter { last_valid_sequence, reason })
}

fn read_dispute_acquire(data: &[u8], pos: &mut usize) -> (r: Result<LedgerOperation, CodecError>)
    requires
        *old(pos) <= data@.len(),
    ensures
        *final(pos) <= data@.len(),
        data@.skip(*final(pos) as int) == bin_read_dispute_acquire(data@.skip(*old(pos) as int)).1,
        read_is_view(r, bin_read_dispute_acquire(data@.skip(*old(pos) as int)).0),
{
    let new_custodian = match read_pubkey(data, pos) {
        Ok(v) => v,
        Err(e) => {
            return Err(e);
        },
    };
    let claim_txid = match read_32(data, pos) {
        Ok(v) => v,
        Err(e) => {
            return Err(e);
        },
    };
    let new_reserves_address = match read_string(data, pos) {
        Ok(v) => v,
        Err(e) => {
            return Err(e);
        },
    };
    Ok(LedgerOperation::DisputeAcquire { new_custodian, claim_txid, new_reserves_address })
}

fn read_dispute_armed(data: &[u8], pos: &mut usize) -> (r: Result<LedgerOperation, CodecError>)
    requires
        *old(pos) <= data@.len(),
    ensures
        *final(pos) <= data@.len(),
        data@.skip(*final(pos) as int) == bin_read_dispute_armed(data@.skip(*old(pos) as int)).1,
        read_is_view(r, bin_read_dispute_armed(data@.skip(*old(pos) as int)).0),
{
    let armed_block = match read_u32(data, pos) {
        Ok(v) => v,
        Err(e) => {
            return Err(e);
        },
    };
    let commitment_hash = match read_20(data, pos) {
        Ok(v) => v,
        Err(e) => {
            return Err(e);
        },
    };
    let target_reserves = match read_string(data, pos) {
        Ok(v) => v,
        Err(e) => {
            return Err(e);
        },
    };
    let replacement_collateral = match read_collateral(data, pos) {
        Ok(v) => v,
        Err(e) => {
            return Err(e);
        },
    };
    Ok(LedgerOperation::DisputeArmed { armed_block, commitment_hash, target_reserves, replacement_collateral })
}

fn read_delivery_embed(data: &[u8], pos: &mut usize) -> (r: Result<LedgerOperation, CodecError>)
    requires
        *old(pos) <= data@.len(),
    ensures
        *final(pos) <= data@.len(),
        data@.skip(*final(pos) as int) == bin_read_delivery_embed(data@.skip(*old(pos) as int)).1,
        read_is_view(r, bin_read_delivery_embed(data@.skip(*old(pos) as int)).0),
{
    let request_hash = match read_32(data, pos) {
        Ok(v) => v,
        Err(e) => {
            return Err(e);
        },
    };
    let target_ledger_id = match read_32(data, pos) {
        Ok(v) => v,
        Err(e) => {
            return Err(e);
        },
    };
    let target_operator = match read_pubkey(data, pos) {
        Ok(v) => v,
        Err(e) => {
            return Err(e);
        },
    };
    Ok(LedgerOperation::DeliveryEmbed { request_hash, target_ledger_id, target_operator })
}

/// Reading an operation in the legacy encoding: a discriminant, then the
/// fields of the operation it selects.
pub open spec fn operation_binary_read(s: Seq<u8>) -> Read<OperationView> {
    let (d, s1) = rd_u8(s);
    match d {
        Err(f) => (Err(f), s1),
        Ok(disc) => {
            if disc == 1 {
                bin_read_ledger_open(s1)
            } else if disc == 12 {
                bin_read_quorum_begin(s1)
            } else if disc == 20 {
                bin_read_deposit_open(s1)
            } else if disc == 21 {
                bin_read_deposit_close(s1)
            } else if disc == 22 {
                bin_read_fee_change(s1)
            } else if disc == 23 {
                bin_read_deposit_key_rotate(s1)
            } else if disc == 30 {
                bin_read_invoice_credit(s1)
            } else if disc == 31 {
                bin_read_invoice_lock(s1)
            } else if disc == 32 {
                bin_read_invoice_fail(s1)
            } else if disc == 33 {
                bin_read_invoice_fulfill(s1)
            } else if disc == 35 {
                bin_read_onchain_credit(s1)
            } else if disc == 36 {
                bin_read_onchain_lock(s1)
            } else if disc == 37 {
                bin_read_onchain_fail(s1)
            } else if disc == 38 {
                bin_read_onchain_fulfill(s1)
            } else if disc == 70 {
                bin_read_transfer_lock(s1)
            } else if disc == 71 {
                bin_read_transfer_complete(s1)
            } else if disc == 72 {
                bin_read_transfer_fail(s1)
            } else if disc == 43 {
                bin_read_quorum_add_member(s1)
            } else if disc == 44 {
                bin_read_quorum_remove_member(s1)
            } else if disc == 46 {
                bin_read_quorum_join(s1)
            } else if disc == 50 {
                bin_read_fee_collect(s1)
            } else if disc == 54 {
                bin_read_dispute_enter(s1)
            } else if disc == 55 {
                bin_read_dispute_acquire(s1)
            } else if disc == 57 {
                bin_read_dispute_armed(s1)
            } else if disc == 80 {
                bin_read_delivery_embed(s1)
            } else if disc == 56 {
                (Ok(OperationView::DisputeYield), s1)
            } else if disc == 60 {
                (Ok(OperationView::LedgerClose), s1)
            } else {
                (Err((CodecFault::InvalidDiscriminant(disc), seq![])), s1)
            }
        },
    }
}

fn read_operation(data: &[u8], pos: &mut usize) -> (r: Result<LedgerOperation, CodecError>)
    requires
        *old(pos) <= data@.len(),
    ensures
        *final(pos) <= data@.len(),
        data@.skip(*final(pos) as int) == operation_binary_read(data@.skip(*old(pos) as int)).1,
        read_is_view(r, operation_binary_read(data@.skip(*old(pos) as int)).0),
{
    let disc = match read_u8(data, pos) {
        Ok(d) => d,
        Err(e) => {
            return Err(e);
        },
    };
    match disc {
        1 => read_ledger_open(data, pos),
        12 => read_quorum_begin(data, pos),
        20 => read_deposit_open(data, pos),
        21 => read_deposit_close(data, pos),
        22 => read_fee_change(data, pos),
        23 => read_deposit_key_rotate(data, pos),
        30 => read_invoice_credit(data, pos),
        31 => read_invoice_lock(data, pos),
        32 => read_invoice_fail(data, pos),
        33 => read_invoice_fulfill(data, pos),
        35 => read_onchain_credit(data, pos),
        36 => read_onchain_lock(data, pos),
        37 => read_onchain_fail(data, pos),
        38 => read_onchain_fulfill(data, pos),
        70 => read_transfer_lock(data, pos),
        71 => read_transfer_complete(data, pos),
        72 => read_transfer_fail(data, pos),
        43 => read_quorum_add_member(data, pos),
        44 => read_quorum_remove_member(data, pos),
        46 => read_quorum_join(data, pos),
        50 => read_fee_collect(data, pos),
        54 => read_dispute_enter(data, pos),
        55 => read_dispute_acquire(data, pos),
        57 => read_dispute_armed(data, pos),
        80 => read_delivery_embed(data, pos),
        56 => Ok(LedgerOperation::DisputeYield),
        60 => Ok(LedgerOperation::LedgerClose),
        _ => Err(CodecError::InvalidDiscriminant(disc)),
    }
}

impl BinaryCodec for LedgerOperation {
    open spec fn binary_of(v: OperationView) -> Seq<u8> {
        operation_binary(v)
    }

    open spec fn binary_read(s: Seq<u8>) -> Read<OperationView> {
        operation_binary_read(s)
    }

    fn write_to(&self, w: &mut Vec<u8>) -> (r: Result<(), CodecError>) {
        write_operation(self, w);
        Ok(())
    }

    fn read_from(data: &[u8], pos: &mut usize) -> (r: Result<Self, CodecError>) {
        read_operation(data, pos)
    }
}

} // verus!
