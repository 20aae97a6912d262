//! TLV encodings of the fee records.

use vstd::prelude::*;

use crate::bytes::{lemma_u16_be, lemma_u32_be, lemma_u64_be, u16_be, u32_be, u64_be};
use crate::tlv::{
    entries_map, lemma_finite_map_sorted, lemma_map_roundtrip, map_bytes, map_within_limit,
    outcome, required, stream_parse, u16_of, u32_of, u64_of, StreamFault, TlvBuilder, TlvDecode,
    TlvEncode, TlvReader, TlvResult, MAX_TLV_VALUE_LENGTH,
};
use crate::types::{FeeStructure, TransferFeeSchedule};

verus! {

/// Field types of an encoded [`FeeStructure`].
pub const FEE_ANNUALIZED_MSATS: u64 = 0;
pub const FEE_ANNUALIZED_BPS: u64 = 2;
pub const FEE_FREQUENCY_BLOCKS: u64 = 4;

/// Field types of an encoded [`TransferFeeSchedule`].
pub const TRANSFER_FEE_FIXED_MSATS: u64 = 0;
pub const TRANSFER_FEE_RATE_BPS: u64 = 2;

/// What decoding `data` gives, where `from` reads the value from the
/// decoded field map.
pub open spec fn parse_with<V>(
    data: Seq<u8>,
    from: spec_fn(Map<u64, Seq<u8>>) -> Result<V, StreamFault>,
) -> Result<V, StreamFault> {
    match stream_parse(data, None) {
        Ok(es) => from(entries_map(es)),
        Err(f) => Err(f),
    }
}

/// The fields of an encoded fee structure.
pub open spec fn fee_fields(f: FeeStructure) -> Map<u64, Seq<u8>> {
    Map::empty().insert(FEE_ANNUALIZED_MSATS, u64_be(f.annualized_msats)).insert(
        FEE_ANNUALIZED_BPS,
        u16_be(f.annualized_bps),
    ).insert(FEE_FREQUENCY_BLOCKS, u32_be(f.frequency_blocks))
}

/// The fee structure held by decoded fields: its fields read in order, the
/// first failure reported.
pub open spec fn fee_from_fields(m: Map<u64, Seq<u8>>) -> Result<FeeStructure, StreamFault> {
    let a = required(m, FEE_ANNUALIZED_MSATS, |d: Seq<u8>| u64_of(d));
    let b = required(m, FEE_ANNUALIZED_BPS, |d: Seq<u8>| u16_of(d));
    let c = required(m, FEE_FREQUENCY_BLOCKS, |d: Seq<u8>| u32_of(d));
    if a is Err {
        Err(a->Err_0)
    } else if b is Err {
        Err(b->Err_0)
    } else if c is Err {
        Err(c->Err_0)
    } else {
        Ok(FeeStructure { annualized_msats: a->Ok_0, annualized_bps: b->Ok_0, frequency_blocks: c->Ok_0 })
    }
}

impl TlvEncode for FeeStructure {
    open spec fn tlv_bytes(&self) -> Seq<u8> {
        map_bytes(fee_fields(*self))
    }

    fn tlv_encode(&self) -> (r: Vec<u8>) {
        TlvBuilder::new().u64_field(FEE_ANNUALIZED_MSATS, self.annualized_msats).u16_field(
            FEE_ANNUALIZED_BPS,
            self.annualized_bps,
        ).u32_field(FEE_FREQUENCY_BLOCKS, self.frequency_blocks).build()
    }
}

impl TlvDecode for FeeStructure {
    open spec fn tlv_decodes(data: Seq<u8>, r: TlvResult<Self>) -> bool {
        outcome(r, parse_with(data, |m: Map<u64, Seq<u8>>| fee_from_fields(m)))
    }

    fn tlv_decode(data: &[u8]) -> (r: TlvResult<Self>) {
        let reader = match TlvReader::new(data) {
            Ok(r) => r,
            Err(e) => {
                return Err(e);
            },
        };
        let annualized_msats = match reader.read_u64(FEE_ANNUALIZED_MSATS) {
            Ok(v) => v,
            Err(e) => {
                return Err(e);
            },
        };
        let annualized_bps = match reader.read_u16(FEE_ANNUALIZED_BPS) {
            Ok(v) => v,
            Err(e) => {
                return Err(e);
            },
        };
        let frequency_blocks = match reader.read_u32(FEE_FREQUENCY_BLOCKS) {
            Ok(v) => v,
            Err(e) => {
                return Err(e);
            },
        };
        Ok(FeeStructure { annualized_msats, annualized_bps, frequency_blocks })
    }
}

/// Decoding the encoding of a fee structure gives it back.
pub proof fn lemma_fee_roundtrip(f: FeeStructure)
    ensures
        parse_with(f.tlv_bytes(), |m: Map<u64, Seq<u8>>| fee_from_fields(m)) == Ok::<
            FeeStructure,
            StreamFault,
        >(f),
{
    let m = fee_fields(f);
    lemma_finite_map_sorted(m);
    lemma_u64_be(f.annualized_msats, seq![]);
    lemma_u16_be(f.annualized_bps, seq![]);
    lemma_u32_be(f.frequency_blocks, seq![]);
    assert(map_within_limit(m));
    lemma_map_roundtrip(m);
}

/// The fields of an encoded transfer fee schedule.
pub open spec fn transfer_fee_fields(f: TransferFeeSchedule) -> Map<u64, Seq<u8>> {
    Map::empty().insert(TRANSFER_FEE_FIXED_MSATS, u64_be(f.fixed_msats)).insert(
        TRANSFER_FEE_RATE_BPS,
        u16_be(f.rate_bps),
    )
}

/// The transfer fee schedule held by decoded fields.
pub open spec fn transfer_fee_from_fields(m: Map<u64, Seq<u8>>) -> Result<TransferFeeSchedule, StreamFault> {
    let a = required(m, TRANSFER_FEE_FIXED_MSATS, |d: Seq<u8>| u64_of(d));
    let b = required(m, TRANSFER_FEE_RATE_BPS, |d: Seq<u8>| u16_of(d));
    if a is Err {
        Err(a->Err_0)
    } else if b is Err {
        Err(b->Err_0)
    } else {
        Ok(TransferFeeSchedule { fixed_msats: a->Ok_0, rate_bps: b->Ok_0 })
    }
}

impl TlvEncode for TransferFeeSchedule {
    open spec fn tlv_bytes(&self) -> Seq<u8> {
        map_bytes(transfer_fee_fields(*self))
    }

    fn tlv_encode(&self) -> (r: Vec<u8>) {
        TlvBuilder::new().u64_field(TRANSFER_FEE_FIXED_MSATS, self.fixed_msats).u16_field(
            TRANSFER_FEE_RATE_BPS,
            self.rate_bps,
        ).build()
    }
}

impl TlvDecode for TransferFeeSchedule {
    open spec fn tlv_decodes(data: Seq<u8>, r: TlvResult<Self>) -> bool {
        outcome(r, parse_with(data, |m: Map<u64, Seq<u8>>| transfer_fee_from_fields(m)))
    }

    fn tlv_decode(data: &[u8]) -> (r: TlvResult<Self>) {
        let reader = match TlvReader::new(data) {
            Ok(r) => r,
            Err(e) => {
                return Err(e);
            },
        };
        let fixed_msats = match reader.read_u64(TRANSFER_FEE_FIXED_MSATS) {
            Ok(v) => v,
            Err(e) => {
                return Err(e);
            },
        };
        let rate_bps = match reader.read_u16(TRANSFER_FEE_RATE_BPS) {
            Ok(v) => v,
            Err(e) => {
                return Err(e);
            },
        };
        Ok(TransferFeeSchedule { fixed_msats, rate_bps })
    }
}

/// Decoding the encoding of a transfer fee schedule gives it back.
pub proof fn lemma_transfer_fee_roundtrip(f: TransferFeeSchedule)
    ensures
        parse_with(f.tlv_bytes(), |m: Map<u64, Seq<u8>>| transfer_fee_from_fields(m)) == Ok::<
            TransferFeeSchedule,
            StreamFault,
        >(f),
{
    let m = transfer_fee_fields(f);
    lemma_finite_map_sorted(m);
    lemma_u64_be(f.fixed_msats, seq![]);
    lemma_u16_be(f.rate_bps, seq![]);
    assert(map_within_limit(m));
    lemma_map_roundtrip(m);
}

} // verus!
