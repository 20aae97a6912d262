//! TLV encodings of invoices, deposits and reserves outputs.

use vstd::prelude::*;
use vstd::utf8::{encode_utf8, encode_utf8_decode_utf8, encode_utf8_valid_utf8};

use crate::bytes::{lemma_u64_be, u16_be, u32_be, u64_be};
use crate::pubkey::{is_valid_key, PublicKey};
use crate::quorum::ReservesOutput;
use crate::records::{
    fee_fields, fee_from_fields, parse_with, transfer_fee_fields, transfer_fee_from_fields,
};
use crate::session::flag_byte;
use crate::tlv::{
    bytes_of, counted_bytes, deposit_id_of, entries_map, error_is, lemma_finite_map_sorted,
    lemma_map_roundtrip, map_bytes, map_within_limit, missing_fault, optional, outcome_view,
    pubkey_of, required, stream_parse, string_of, u16_of, u32_of, u64_of, u8_of, StreamFault,
    TlvBuilder, TlvDecode, TlvEncode, TlvError, TlvReader, TlvResult, MAX_TLV_VALUE_LENGTH,
};
use crate::tlv_vec::vec_decode;
use crate::types::{Deposit, FeeStructure, Invoice, PendingInvoice, TransferFeeSchedule};

verus! {

// ============================================================================
// Invoice
// ============================================================================

/// Field types of an encoded [`Invoice`].
pub const INVOICE_ID: u64 = 0;
pub const INVOICE_PAYMENT_HASH: u64 = 2;
pub const INVOICE_AMOUNT: u64 = 4;
pub const INVOICE_EXPIRES: u64 = 6;
pub const INVOICE_ASSIGNED_DEPOSIT: u64 = 8;
pub const INVOICE_BOLT11: u64 = 10;

/// An invoice as plain values.
pub struct InvoiceView {
    pub id: Seq<char>,
    pub payment_hash: Seq<u8>,
    pub amount: u64,
    pub expires: u64,
    pub assigned_deposit: Seq<u8>,
    pub bolt11: Seq<char>,
}

impl View for Invoice {
    type V = InvoiceView;

    open spec fn view(&self) -> InvoiceView {
        InvoiceView {
            id: self.id@,
            payment_hash: self.payment_hash@,
            amount: self.amount,
            expires: self.expires,
            assigned_deposit: self.assigned_deposit@,
            bolt11: self.bolt11@,
        }
    }
}

/// The fields of an encoded invoice.
pub open spec fn invoice_fields(v: InvoiceView) -> Map<u64, Seq<u8>> {
    Map::empty().insert(INVOICE_ID, encode_utf8(v.id)).insert(INVOICE_PAYMENT_HASH, v.payment_hash).insert(
        INVOICE_AMOUNT,
        u64_be(v.amount),
    ).insert(INVOICE_EXPIRES, u64_be(v.expires)).insert(INVOICE_ASSIGNED_DEPOSIT, v.assigned_deposit).insert(
        INVOICE_BOLT11,
        encode_utf8(v.bolt11),
    )
}

/// The invoice held by decoded fields: its fields read in order, the first
/// failure reported.
pub open spec fn invoice_from_fields(m: Map<u64, Seq<u8>>) -> Result<InvoiceView, StreamFault> {
    let a = required(m, INVOICE_ID, |d: Seq<u8>| string_of(d));
    let b = required(m, INVOICE_PAYMENT_HASH, |d: Seq<u8>| bytes_of(d, 32));
    let c = required(m, INVOICE_AMOUNT, |d: Seq<u8>| u64_of(d));
    let d = required(m, INVOICE_EXPIRES, |d: Seq<u8>| u64_of(d));
    let e = required(m, INVOICE_ASSIGNED_DEPOSIT, |d: Seq<u8>| deposit_id_of(d, INVOICE_ASSIGNED_DEPOSIT));
    let f = required(m, INVOICE_BOLT11, |d: Seq<u8>| string_of(d));
    if a is Err {
        Err(a->Err_0)
    } else if b is Err {
        Err(b->Err_0)
    } else if c is Err {
        Err(c->Err_0)
    } else if d is Err {
        Err(d->Err_0)
    } else if e is Err {
        Err(e->Err_0)
    } else if f is Err {
        Err(f->Err_0)
    } else {
        Ok(
            InvoiceView {
                id: a->Ok_0,
                payment_hash: b->Ok_0,
                amount: c->Ok_0,
                expires: d->Ok_0,
                assigned_deposit: e->Ok_0,
                bolt11: f->Ok_0,
            },
        )
    }
}

impl TlvEncode for Invoice {
    open spec fn tlv_bytes(&self) -> Seq<u8> {
        map_bytes(invoice_fields(self@))
    }

    fn tlv_encode(&self) -> (r: Vec<u8>) {
        let b = TlvBuilder::new().string_field(INVOICE_ID, self.id.as_str()).bytes_field(
            INVOICE_PAYMENT_HASH,
            self.payment_hash.as_slice(),
        ).u64_field(INVOICE_AMOUNT, self.amount).u64_field(INVOICE_EXPIRES, self.expires).deposit_id_field(
            INVOICE_ASSIGNED_DEPOSIT,
            &self.assigned_deposit,
        ).string_field(INVOICE_BOLT11, self.bolt11.as_str());
        assert(b@ =~= invoice_fields(self@));
        b.build()
    }
}

impl TlvDecode for Invoice {
    open spec fn tlv_decodes(data: Seq<u8>, r: TlvResult<Self>) -> bool {
        outcome_view(r, parse_with(data, |m: Map<u64, Seq<u8>>| invoice_from_fields(m)))
    }

    fn tlv_decode(data: &[u8]) -> (r: TlvResult<Self>) {
        let reader = match TlvReader::new(data) {
            Ok(r) => r,
            Err(e) => {
                return Err(e);
            },
        };
        let id = match reader.read_string(INVOICE_ID) {
            Ok(v) => v,
            Err(e) => {
                return Err(e);
            },
        };
        let payment_hash = match reader.read_bytes::<32>(INVOICE_PAYMENT_HASH) {
            Ok(v) => v,
            Err(e) => {
                return Err(e);
            },
        };
        let amount = match reader.read_u64(INVOICE_AMOUNT) {
            Ok(v) => v,
            Err(e) => {
                return Err(e);
            },
        };
        let expires = match reader.read_u64(INVOICE_EXPIRES) {
            Ok(v) => v,
            Err(e) => {
                return Err(e);
            },
        };
        let assigned_deposit = match reader.read_deposit_id(INVOICE_ASSIGNED_DEPOSIT) {
            Ok(v) => v,
            Err(e) => {
                return Err(e);
            },
        };
        let bolt11 = match reader.read_string(INVOICE_BOLT11) {
            Ok(v) => v,
            Err(e) => {
                return Err(e);
            },
        };
        Ok(Invoice { id, payment_hash, amount, expires, assigned_deposit, bolt11 })
    }
}

/// Decoding the encoding of an invoice gives it back, wherever its strings
/// fit a TLV value.
pub proof fn lemma_invoice_roundtrip(v: InvoiceView)
    requires
        v.payment_hash.len() == 32,
        v.assigned_deposit.len() == 16,
        encode_utf8(v.id).len() <= MAX_TLV_VALUE_LENGTH,
        encode_utf8(v.bolt11).len() <= MAX_TLV_VALUE_LENGTH,
    ensures
        parse_with(map_bytes(invoice_fields(v)), |m: Map<u64, Seq<u8>>| invoice_from_fields(m))
            == Ok::<InvoiceView, StreamFault>(v),
{
    let m = invoice_fields(v);
    lemma_finite_map_sorted(m);
    lemma_u64_be(v.amount, seq![]);
    lemma_u64_be(v.expires, seq![]);
    encode_utf8_valid_utf8(v.id);
    encode_utf8_decode_utf8(v.id);
    encode_utf8_valid_utf8(v.bolt11);
    encode_utf8_decode_utf8(v.bolt11);
    assert(map_within_limit(m));
    lemma_map_roundtrip(m);
}

// ============================================================================
// Pending invoice
// ============================================================================

/// Field types of an encoded [`PendingInvoice`].
pub const PENDING_AMOUNT: u64 = 0;
pub const PENDING_PAYMENT_HASH: u64 = 2;
pub const PENDING_EXPIRES: u64 = 4;
pub const PENDING_ASSIGNED_DEPOSIT: u64 = 6;
pub const PENDING_INVOICE_ID: u64 = 8;
pub const PENDING_BOLT11: u64 = 10;

/// A pending invoice as plain values.
pub struct PendingInvoiceView {
    pub amount: u64,
    pub payment_hash: Seq<u8>,
    pub expires: u64,
    pub assigned_deposit: Seq<u8>,
    pub invoice_id: Seq<char>,
    pub bolt11: Seq<char>,
}

impl View for PendingInvoice {
    type V = PendingInvoiceView;

    open spec fn view(&self) -> PendingInvoiceView {
        PendingInvoiceView {
            amount: self.amount,
            payment_hash: self.payment_hash@,
            expires: self.expires,
            assigned_deposit: self.assigned_deposit@,
            invoice_id: self.invoice_id@,
            bolt11: self.bolt11@,
        }
    }
}

/// The fields of an encoded pending invoice.
pub open spec fn pending_invoice_fields(v: PendingInvoiceView) -> Map<u64, Seq<u8>> {
    Map::empty().insert(PENDING_AMOUNT, u64_be(v.amount)).insert(PENDING_PAYMENT_HASH, v.payment_hash).insert(
        PENDING_EXPIRES,
        u64_be(v.expires),
    ).insert(PENDING_ASSIGNED_DEPOSIT, v.assigned_deposit).insert(
        PENDING_INVOICE_ID,
        encode_utf8(v.invoice_id),
    ).insert(PENDING_BOLT11, encode_utf8(v.bolt11))
}

/// The pending invoice held by decoded fields: its fields read in order,
/// the first failure reported.
pub open spec fn pending_invoice_from_fields(m: Map<u64, Seq<u8>>) -> Result<
    PendingInvoiceView,
    StreamFault,
> {
    let a = required(m, PENDING_AMOUNT, |d: Seq<u8>| u64_of(d));
    let b = required(m, PENDING_PAYMENT_HASH, |d: Seq<u8>| bytes_of(d, 32));
    let c = required(m, PENDING_EXPIRES, |d: Seq<u8>| u64_of(d));
    let d = required(m, PENDING_ASSIGNED_DEPOSIT, |d: Seq<u8>| deposit_id_of(d, PENDING_ASSIGNED_DEPOSIT));
    let e = required(m, PENDING_INVOICE_ID, |d: Seq<u8>| string_of(d));
    let f = required(m, PENDING_BOLT11, |d: Seq<u8>| string_of(d));
    if a is Err {
        Err(a->Err_0)
    } else if b is Err {
        Err(b->Err_0)
    } else if c is Err {
        Err(c->Err_0)
    } else if d is Err {
        Err(d->Err_0)
    } else if e is Err {
        Err(e->Err_0)
    } else if f is Err {
        Err(f->Err_0)
    } else {
        Ok(
            PendingInvoiceView {
                amount: a->Ok_0,
                payment_hash: b->Ok_0,
                expires: c->Ok_0,
                assigned_deposit: d->Ok_0,
                invoice_id: e->Ok_0,
                bolt11: f->Ok_0,
            },
        )
    }
}

impl TlvEncode for PendingInvoice {
    open spec fn tlv_bytes(&self) -> Seq<u8> {
        map_bytes(pending_invoice_fields(self@))
    }

    fn tlv_encode(&self) -> (r: Vec<u8>) {
        let b = TlvBuilder::new().u64_field(PENDING_AMOUNT, self.amount).bytes_field(
            PENDING_PAYMENT_HASH,
            self.payment_hash.as_slice(),
        ).u64_field(PENDING_EXPIRES, self.expires).deposit_id_field(
            PENDING_ASSIGNED_DEPOSIT,
            &self.assigned_deposit,
        ).string_field(PENDING_INVOICE_ID, self.invoice_id.as_str()).string_field(
            PENDING_BOLT11,
            self.bolt11.as_str(),
        );
        assert(b@ =~= pending_invoice_fields(self@));
        b.build()
    }
}

impl TlvDecode for PendingInvoice {
    open spec fn tlv_decodes(data: Seq<u8>, r: TlvResult<Self>) -> bool {
        outcome_view(r, parse_with(data, |m: Map<u64, Seq<u8>>| pending_invoice_from_fields(m)))
    }

    fn tlv_decode(data: &[u8]) -> (r: TlvResult<Self>) {
        let reader = match TlvReader::new(data) {
            Ok(r) => r,
            Err(e) => {
                return Err(e);
            },
        };
        let amount = match reader.read_u64(PENDING_AMOUNT) {
            Ok(v) => v,
            Err(e) => {
                return Err(e);
            },
        };
        let payment_hash = match reader.read_bytes::<32>(PENDING_PAYMENT_HASH) {
            Ok(v) => v,
            Err(e) => {
                return Err(e);
            },
        };
        let expires = match reader.read_u64(PENDING_EXPIRES) {
            Ok(v) => v,
            Err(e) => {
                return Err(e);
            },
        };
        let assigned_deposit = match reader.read_deposit_id(PENDING_ASSIGNED_DEPOSIT) {
            Ok(v) => v,
            Err(e) => {
                return Err(e);
            },
        };
        let invoice_id = match reader.read_string(PENDING_INVOICE_ID) {
            Ok(v) => v,
            Err(e) => {
                return Err(e);
            },
        };
        let bolt11 = match reader.read_string(PENDING_BOLT11) {
            Ok(v) => v,
            Err(e) => {
                return Err(e);
            },
        };
        Ok(PendingInvoice { amount, payment_hash, expires, assigned_deposit, invoice_id, bolt11 })
    }
}

/// Decoding the encoding of a pending invoice gives it back, wherever its
/// strings fit a TLV value.
pub proof fn lemma_pending_invoice_roundtrip(v: PendingInvoiceView)
    requires
        v.payment_hash.len() == 32,
        v.assigned_deposit.len() == 16,
        encode_utf8(v.invoice_id).len() <= MAX_TLV_VALUE_LENGTH,
        encode_utf8(v.bolt11).len() <= MAX_TLV_VALUE_LENGTH,
    ensures
        parse_with(
            map_bytes(pending_invoice_fields(v)),
            |m: Map<u64, Seq<u8>>| pending_invoice_from_fields(m),
        ) == Ok::<PendingInvoiceView, StreamFault>(v),
{
    let m = pending_invoice_fields(v);
    lemma_finite_map_sorted(m);
    lemma_u64_be(v.amount, seq![]);
    lemma_u64_be(v.expires, seq![]);
    encode_utf8_valid_utf8(v.invoice_id);
    encode_utf8_decode_utf8(v.invoice_id);
    encode_utf8_valid_utf8(v.bolt11);
    encode_utf8_decode_utf8(v.bolt11);
    assert(map_within_limit(m));
    lemma_map_roundtrip(m);
}

// ============================================================================
// Reserves output
// ============================================================================

/// Field types of an encoded [`ReservesOutput`].
pub const RESERVES_OUTPUT_CHANNEL_ID: u64 = 0;
pub const RESERVES_OUTPUT_AMOUNT: u64 = 2;
pub const RESERVES_OUTPUT_SPEND_TO: u64 = 4;

/// A reserves output as plain values.
pub struct ReservesOutputView {
    pub channel_id: Seq<u8>,
    pub amount: u64,
    pub spend_to: Seq<u8>,
}

impl View for ReservesOutput {
    type V = ReservesOutputView;

    open spec fn view(&self) -> ReservesOutputView {
        ReservesOutputView { channel_id: self.channel_id@, amount: self.amount, spend_to: self.spend_to@ }
    }
}

/// The fields of an encoded reserves output.
pub open spec fn reserves_output_fields(v: ReservesOutputView) -> Map<u64, Seq<u8>> {
    Map::empty().insert(RESERVES_OUTPUT_CHANNEL_ID, v.channel_id).insert(
        RESERVES_OUTPUT_AMOUNT,
        u64_be(v.amount),
    ).insert(RESERVES_OUTPUT_SPEND_TO, v.spend_to)
}

/// The reserves output held by decoded fields.
pub open spec fn reserves_output_from_fields(m: Map<u64, Seq<u8>>) -> Result<ReservesOutputView, StreamFault> {
    let a = required(m, RESERVES_OUTPUT_CHANNEL_ID, |d: Seq<u8>| bytes_of(d, 32));
    let b = required(m, RESERVES_OUTPUT_AMOUNT, |d: Seq<u8>| u64_of(d));
    let c = required(m, RESERVES_OUTPUT_SPEND_TO, |d: Seq<u8>| pubkey_of(d));
    if a is Err {
        Err(a->Err_0)
    } else if b is Err {
        Err(b->Err_0)
    } else if c is Err {
        Err(c->Err_0)
    } else {
        Ok(ReservesOutputView { channel_id: a->Ok_0, amount: b->Ok_0, spend_to: c->Ok_0 })
    }
}

impl TlvEncode for ReservesOutput {
    open spec fn tlv_bytes(&self) -> Seq<u8> {
        map_bytes(reserves_output_fields(self@))
    }

    fn tlv_encode(&self) -> (r: Vec<u8>) {
        let b = TlvBuilder::new().bytes_field(RESERVES_OUTPUT_CHANNEL_ID, self.channel_id.as_slice()).u64_field(
            RESERVES_OUTPUT_AMOUNT,
            self.amount,
        ).pubkey_field(RESERVES_OUTPUT_SPEND_TO, &self.spend_to);
        assert(b@ =~= reserves_output_fields(self@));
        b.build()
    }
}

impl TlvDecode for ReservesOutput {
    open spec fn tlv_decodes(data: Seq<u8>, r: TlvResult<Self>) -> bool {
        outcome_view(r, parse_with(data, |m: Map<u64, Seq<u8>>| reserves_output_from_fields(m)))
    }

    fn tlv_decode(data: &[u8]) -> (r: TlvResult<Self>) {
        let reader = match TlvReader::new(data) {
            Ok(r) => r,
            Err(e) => {
                return Err(e);
            },
        };
        let channel_id = match reader.read_bytes::<32>(RESERVES_OUTPUT_CHANNEL_ID) {
            Ok(v) => v,
            Err(e) => {
                return Err(e);
            },
        };
        let amount = match reader.read_u64(RESERVES_OUTPUT_AMOUNT) {
            Ok(v) => v,
            Err(e) => {
                return Err(e);
            },
        };
        let spend_to = match reader.read_pubkey(RESERVES_OUTPUT_SPEND_TO) {
            Ok(v) => v,
            Err(e) => {
                return Err(e);
            },
        };
        Ok(ReservesOutput { channel_id, amount, spend_to })
    }
}

/// Decoding the encoding of a reserves output gives it back, wherever its
/// key is valid.
pub proof fn lemma_reserves_output_roundtrip(v: ReservesOutputView)
    requires
        v.channel_id.len() == 32,
        is_valid_key(v.spend_to),
        v.spend_to.len() == 33,
    ensures
        parse_with(
            map_bytes(reserves_output_fields(v)),
            |m: Map<u64, Seq<u8>>| reserves_output_from_fields(m),
        ) == Ok::<ReservesOutputView, StreamFault>(v),
{
    let m = reserves_output_fields(v);
    lemma_finite_map_sorted(m);
    lemma_u64_be(v.amount, seq![]);
    assert(map_within_limit(m));
    lemma_map_roundtrip(m);
}

// ============================================================================
// Deposit
// ============================================================================

/// Field types of an encoded [`Deposit`].
pub const DEPOSIT_ID: u64 = 0;
pub const DEPOSIT_DESCRIPTOR: u64 = 1;
pub const DEPOSIT_BALANCE: u64 = 2;
pub const DEPOSIT_LOCKED_BALANCE: u64 = 4;
pub const DEPOSIT_INVOICES: u64 = 6;
pub const DEPOSIT_FEES: u64 = 8;
pub const DEPOSIT_LAST_FEE_ASSESSMENT: u64 = 10;
pub const DEPOSIT_COLLATERAL_PLEDGE_AMOUNT: u64 = 12;
pub const DEPOSIT_COLLATERAL_PLEDGE_EXPIRES: u64 = 14;
pub const DEPOSIT_TRANSFER_FEES: u64 = 16;
pub const DEPOSIT_OPENED_AT_BLOCK: u64 = 18;
pub const DEPOSIT_RECEIVE_REQUIRES_SIG: u64 = 22;
pub const DEPOSIT_FEE_CHANGE_AFTER: u64 = 24;
pub const DEPOSIT_FEE_CHANGE_NOTICE: u64 = 26;
pub const DEPOSIT_FEE_CHANGE_LIMIT_BPS: u64 = 28;
pub const DEPOSIT_PENDING_FEE_CHANGE: u64 = 30;

/// The TLV encodings of invoices.
pub open spec fn invoices_tlv(invs: Seq<Invoice>) -> Seq<Seq<u8>> {
    Seq::new(invs.len(), |i: int| invs[i].tlv_bytes())
}

/// `m` with `u32_be(v)` at `k` where `o` is `Some(v)`.
pub open spec fn with_opt_u32(m: Map<u64, Seq<u8>>, k: u64, o: Option<u32>) -> Map<u64, Seq<u8>> {
    match o {
        Some(v) => m.insert(k, u32_be(v)),
        None => m,
    }
}

/// The fields of an encoded deposit: the pending fee change is not encoded,
/// and the fee change settings only where present.
pub open spec fn deposit_fields(d: Deposit) -> Map<u64, Seq<u8>> {
    let base = Map::empty().insert(DEPOSIT_ID, d.deposit_id@).insert(
        DEPOSIT_DESCRIPTOR,
        encode_utf8(d.descriptor@),
    ).insert(DEPOSIT_BALANCE, u64_be(d.balance)).insert(DEPOSIT_LOCKED_BALANCE, u64_be(d.locked_balance)).insert(
        DEPOSIT_INVOICES,
        counted_bytes(invoices_tlv(d.invoices@)),
    ).insert(DEPOSIT_FEES, d.fees.tlv_bytes()).insert(
        DEPOSIT_LAST_FEE_ASSESSMENT,
        u32_be(d.last_fee_assessment),
    ).insert(DEPOSIT_TRANSFER_FEES, d.transfer_fees.tlv_bytes()).insert(
        DEPOSIT_RECEIVE_REQUIRES_SIG,
        seq![flag_byte(d.receive_requires_sig)],
    ).insert(DEPOSIT_OPENED_AT_BLOCK, u32_be(d.opened_at_block));
    let m1 = with_opt_u32(base, DEPOSIT_FEE_CHANGE_AFTER, d.fee_change_after_blocks);
    let m2 = with_opt_u32(m1, DEPOSIT_FEE_CHANGE_NOTICE, d.fee_change_notice_blocks);
    match d.fee_change_limit_bps {
        Some(v) => m2.insert(DEPOSIT_FEE_CHANGE_LIMIT_BPS, u16_be(v)),
        None => m2,
    }
}

/// `r` is an error described by `f`.
pub open spec fn fails_with(r: TlvResult<Deposit>, f: StreamFault) -> bool {
    r is Err && error_is(r->Err_0, f)
}

/// `r` is what the fields of a deposit after its invoices give, the fields
/// before them read: the fees (required), the last assessment, the transfer
/// fees (the default schedule where absent), the signature flag (false
/// where absent or unreadable), the optional fee change settings and the
/// opening block (zero where absent); no pending fee change.
pub open spec fn deposit_tail_decodes(
    m: Map<u64, Seq<u8>>,
    id: Seq<u8>,
    descriptor: Seq<char>,
    balance: u64,
    locked: u64,
    invoices: Seq<Invoice>,
    r: TlvResult<Deposit>,
) -> bool {
    if !m.contains_key(DEPOSIT_FEES) {
        fails_with(r, missing_fault(DEPOSIT_FEES))
    } else {
        match parse_with(m[DEPOSIT_FEES], |f: Map<u64, Seq<u8>>| fee_from_fields(f)) {
            Err(f) => fails_with(r, f),
            Ok(fees) => match required(m, DEPOSIT_LAST_FEE_ASSESSMENT, |d: Seq<u8>| u32_of(d)) {
                Err(f) => fails_with(r, f),
                Ok(last) => {
                    let tf = if m.contains_key(DEPOSIT_TRANSFER_FEES) {
                        parse_with(m[DEPOSIT_TRANSFER_FEES], |f: Map<u64, Seq<u8>>| transfer_fee_from_fields(f))
                    } else {
                        Ok(TransferFeeSchedule { fixed_msats: 2, rate_bps: 20 })
                    };
                    let sig = match required(m, DEPOSIT_RECEIVE_REQUIRES_SIG, |d: Seq<u8>| u8_of(d)) {
                        Ok(b) => b != 0,
                        Err(_) => false,
                    };
                    match tf {
                        Err(f) => fails_with(r, f),
                        Ok(tf) => match optional(m, DEPOSIT_FEE_CHANGE_AFTER, |d: Seq<u8>| u32_of(d)) {
                            Err(f) => fails_with(r, f),
                            Ok(after) => match optional(m, DEPOSIT_FEE_CHANGE_NOTICE, |d: Seq<u8>| u32_of(d)) {
                                Err(f) => fails_with(r, f),
                                Ok(notice) => match optional(m, DEPOSIT_FEE_CHANGE_LIMIT_BPS, |d: Seq<u8>| u16_of(d)) {
                                    Err(f) => fails_with(r, f),
                                    Ok(limit) => match optional(m, DEPOSIT_OPENED_AT_BLOCK, |d: Seq<u8>| u32_of(d)) {
                                        Err(f) => fails_with(r, f),
                                        Ok(opened) => r matches Ok(x) && x.deposit_id@ == id
                                            && x.descriptor@ == descriptor && x.balance == balance
                                            && x.locked_balance == locked && x.invoices@ == invoices
                                            && x.fees == fees && x.last_fee_assessment == last
                                            && x.transfer_fees == tf && x.receive_requires_sig == sig
                                            && x.fee_change_after_blocks == after
                                            && x.fee_change_notice_blocks == notice
                                            && x.fee_change_limit_bps == limit && x.opened_at_block == (
                                        match opened {
                                            Some(b) => b,
                                            None => 0u32,
                                        }) && x.pending_fee_change is None,
                                    },
                                },
                            },
                        },
                    }
                },
            },
        }
    }
}

/// `r` is what the decoded fields `m` of a deposit give: each field read in
/// order, the first failure reported, the invoices decoded as a list.
pub open spec fn deposit_decodes(m: Map<u64, Seq<u8>>, r: TlvResult<Deposit>) -> bool {
    match required(m, DEPOSIT_ID, |d: Seq<u8>| deposit_id_of(d, DEPOSIT_ID)) {
        Err(f) => fails_with(r, f),
        Ok(id) => match required(m, DEPOSIT_DESCRIPTOR, |d: Seq<u8>| string_of(d)) {
            Err(f) => fails_with(r, f),
            Ok(descriptor) => match required(m, DEPOSIT_BALANCE, |d: Seq<u8>| u64_of(d)) {
                Err(f) => fails_with(r, f),
                Ok(balance) => match required(m, DEPOSIT_LOCKED_BALANCE, |d: Seq<u8>| u64_of(d)) {
                    Err(f) => fails_with(r, f),
                    Ok(locked) => if !m.contains_key(DEPOSIT_INVOICES) {
                        fails_with(r, missing_fault(DEPOSIT_INVOICES))
                    } else {
                        ||| exists|e: TlvError|
                            #[trigger] vec_decode(m[DEPOSIT_INVOICES], DEPOSIT_INVOICES, Err::<
                                Vec<Invoice>,
                                TlvError,
                            >(e)) && r == Err::<Deposit, TlvError>(e)
                        ||| exists|invs: Vec<Invoice>|
                            #[trigger] vec_decode(m[DEPOSIT_INVOICES], DEPOSIT_INVOICES, Ok::<
                                Vec<Invoice>,
                                TlvError,
                            >(invs)) && deposit_tail_decodes(m, id, descriptor, balance, locked, invs@, r)
                    },
                },
            },
        },
    }
}

impl TlvEncode for Deposit {
    open spec fn tlv_bytes(&self) -> Seq<u8> {
        map_bytes(deposit_fields(*self))
    }

    fn tlv_encode(&self) -> (r: Vec<u8>) {
        let mut b = TlvBuilder::new().deposit_id_field(DEPOSIT_ID, &self.deposit_id).string_field(
            DEPOSIT_DESCRIPTOR,
            self.descriptor.as_str(),
        ).u64_field(DEPOSIT_BALANCE, self.balance).u64_field(DEPOSIT_LOCKED_BALANCE, self.locked_balance).vec_field(
            DEPOSIT_INVOICES,
            self.invoices.as_slice(),
        ).nested(DEPOSIT_FEES, &self.fees).u32_field(DEPOSIT_LAST_FEE_ASSESSMENT, self.last_fee_assessment).nested(
            DEPOSIT_TRANSFER_FEES,
            &self.transfer_fees,
        ).u8_field(
            DEPOSIT_RECEIVE_REQUIRES_SIG,
            if self.receive_requires_sig {
                1
            } else {
                0
            },
        ).u32_field(DEPOSIT_OPENED_AT_BLOCK, self.opened_at_block);
        let ghost base = b@;
        if let Some(v) = self.fee_change_after_blocks {
            b = b.u32_field(DEPOSIT_FEE_CHANGE_AFTER, v);
        }
        let ghost m1 = b@;
        assert(m1 == with_opt_u32(base, DEPOSIT_FEE_CHANGE_AFTER, self.fee_change_after_blocks));
        if let Some(v) = self.fee_change_notice_blocks {
            b = b.u32_field(DEPOSIT_FEE_CHANGE_NOTICE, v);
        }
        let ghost m2 = b@;
        assert(m2 == with_opt_u32(m1, DEPOSIT_FEE_CHANGE_NOTICE, self.fee_change_notice_blocks));
        if let Some(v) = self.fee_change_limit_bps {
            b = b.u16_field(DEPOSIT_FEE_CHANGE_LIMIT_BPS, v);
        }
        assert(invoices_tlv(self.invoices@) =~= Seq::new(
            self.invoices@.len(),
            |i: int| self.invoices@[i].tlv_bytes(),
        ));
        assert(b@ =~= deposit_fields(*self));
        b.build()
    }
}

impl TlvDecode for Deposit {
    open spec fn tlv_decodes(data: Seq<u8>, r: TlvResult<Self>) -> bool {
        match stream_parse(data, None) {
            Err(f) => fails_with(r, f),
            Ok(es) => deposit_decodes(entries_map(es), r),
        }
    }

    fn tlv_decode(data: &[u8]) -> (r: TlvResult<Self>) {
        let reader = match TlvReader::new(data) {
            Ok(r) => r,
            Err(e) => {
                return Err(e);
            },
        };
        let deposit_id = match reader.read_deposit_id(DEPOSIT_ID) {
            Ok(v) => v,
            Err(e) => {
                return Err(e);
            },
        };
        let descriptor = match reader.read_string(DEPOSIT_DESCRIPTOR) {
            Ok(v) => v,
            Err(e) => {
                return Err(e);
            },
        };
        let balance = match reader.read_u64(DEPOSIT_BALANCE) {
            Ok(v) => v,
            Err(e) => {
                return Err(e);
            },
        };
        let locked_balance = match reader.read_u64(DEPOSIT_LOCKED_BALANCE) {
            Ok(v) => v,
            Err(e) => {
                return Err(e);
            },
        };
        let invoices = match reader.read_vec::<Invoice>(DEPOSIT_INVOICES) {
            Ok(v) => v,
            Err(e) => {
                let r = Err(e);
                assert(deposit_decodes(reader@, r));
                return r;
            },
        };
        let ghost invs = invoices;
        let r = decode_deposit_tail(&reader, deposit_id, descriptor, balance, locked_balance, invoices);
        assert(vec_decode(reader@[DEPOSIT_INVOICES], DEPOSIT_INVOICES, Ok::<Vec<Invoice>, TlvError>(invs)));
        r
    }
}

/// Reads the fields of a deposit after its invoices.
#[verifier::rlimit(40)]
fn decode_deposit_tail(
    reader: &TlvReader,
    deposit_id: [u8; 16],
    descriptor: String,
    balance: u64,
    locked_balance: u64,
    invoices: Vec<Invoice>,
) -> (r: TlvResult<Deposit>)
    ensures
        deposit_tail_decodes(reader@, deposit_id@, descriptor@, balance, locked_balance, invoices@, r),
{
    let fees = match reader.read_nested::<FeeStructure>(DEPOSIT_FEES) {
        Ok(v) => v,
        Err(e) => {
            return Err(e);
        },
    };
    let last_fee_assessment = match reader.read_u32(DEPOSIT_LAST_FEE_ASSESSMENT) {
        Ok(v) => v,
        Err(e) => {
            return Err(e);
        },
    };
    let transfer_fees = match reader.read_nested_opt::<TransferFeeSchedule>(DEPOSIT_TRANSFER_FEES) {
        Ok(Some(v)) => v,
        Ok(None) => TransferFeeSchedule::default(),
        Err(e) => {
            return Err(e);
        },
    };
    let receive_requires_sig = match reader.read_u8(DEPOSIT_RECEIVE_REQUIRES_SIG) {
        Ok(b) => b != 0,
        Err(_) => false,
    };
    let fee_change_after_blocks = match reader.read_u32_opt(DEPOSIT_FEE_CHANGE_AFTER) {
        Ok(v) => v,
        Err(e) => {
            return Err(e);
        },
    };
    let fee_change_notice_blocks = match reader.read_u32_opt(DEPOSIT_FEE_CHANGE_NOTICE) {
        Ok(v) => v,
        Err(e) => {
            return Err(e);
        },
    };
    let fee_change_limit_bps = match reader.read_u16_opt(DEPOSIT_FEE_CHANGE_LIMIT_BPS) {
        Ok(v) => v,
        Err(e) => {
            return Err(e);
        },
    };
    let opened_at_block = match reader.read_u32_opt(DEPOSIT_OPENED_AT_BLOCK) {
        Ok(Some(b)) => b,
        Ok(None) => 0,
        Err(e) => {
            return Err(e);
        },
    };
    Ok(
        Deposit {
            deposit_id,
            descriptor,
            balance,
            locked_balance,
            invoices,
            fees,
            last_fee_assessment,
            transfer_fees,
            receive_requires_sig,
            fee_change_after_blocks,
            fee_change_notice_blocks,
            fee_change_limit_bps,
            opened_at_block,
            pending_fee_change: None,
        },
    )
}

} // verus!
