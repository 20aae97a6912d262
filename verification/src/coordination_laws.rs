//! Reading back what the legacy binary encoding of coordination messages
//! wrote, for the messages that encoding carries whole.

use vstd::prelude::*;
use vstd::utf8::encode_utf8;

use crate::binary_laws::{
    lemma_rd_exact_front, lemma_rd_pubkey_front, lemma_rd_string_front, lemma_rd_u32_front,
    lemma_rd_u64_front, lemma_rd_u8_front,
};
use crate::bytes::{u32_be, u64_be};
use crate::codec::{length_prefixed, rd_bytes};
use crate::coordination::{coordination_binary, coordination_binary_read, CoordinationMsgView};
use crate::pubkey::is_valid_key;

verus! {

/// Reading length-prefixed bytes followed by `rest`.
pub proof fn lemma_rd_bytes_front(b: Seq<u8>, rest: Seq<u8>)
    requires
        b.len() <= u32::MAX,
    ensures
        rd_bytes(length_prefixed(b) + rest) == (Ok::<Seq<u8>, crate::codec::CodecFailure>(b), rest),
{
    assert(length_prefixed(b) + rest =~= u32_be(b.len() as u32) + (b + rest));
    lemma_rd_u32_front(b.len() as u32, b + rest);
    lemma_rd_exact_front(b, rest);
}

/// The coordination messages the legacy binary encoding carries whole, with
/// fields of the lengths their types give and strings and byte strings whose
/// length fits a `u32`.
pub open spec fn coordination_binary_carries_whole(v: CoordinationMsgView) -> bool {
    match v {
        CoordinationMsgView::CosignInvoice { operator_id, reserves_id, payment_hash, assigned_deposit, invoice_id, bolt11_invoice, .. } => {
            &&& operator_id.len() == 33 && is_valid_key(operator_id)
            &&& encode_utf8(reserves_id).len() <= u32::MAX
            &&& payment_hash.len() == 32
            &&& assigned_deposit.len() == 33 && is_valid_key(assigned_deposit)
            &&& encode_utf8(invoice_id).len() <= u32::MAX
            &&& encode_utf8(bolt11_invoice).len() <= u32::MAX
        },
        CoordinationMsgView::CollateralConsentRequest { operator_id, reserves_id, operator_signature } => {
            &&& operator_id.len() == 33 && is_valid_key(operator_id)
            &&& encode_utf8(reserves_id).len() <= u32::MAX
            &&& operator_signature.len() == 64
        },
        CoordinationMsgView::UpdateReserves { channel_id, script_pubkey, ledger_hash, remote_ledger_hash, .. } => {
            &&& channel_id.len() == 32
            &&& script_pubkey.len() <= u32::MAX
            &&& ledger_hash.len() == 32
            &&& remote_ledger_hash.len() == 32
        },
        _ => false,
    }
}

/// The bytes after the kind byte of a `CosignInvoice` message, followed by
/// `rest`.
pub open spec fn cosign_invoice_tail(v: CoordinationMsgView, rest: Seq<u8>) -> Seq<u8> {
    match v {
        CoordinationMsgView::CosignInvoice { operator_id, reserves_id, amount, payment_hash, expires, assigned_deposit, invoice_id, bolt11_invoice } => operator_id
            + (length_prefixed(encode_utf8(reserves_id)) + (u64_be(amount) + (payment_hash + (u64_be(expires)
            + (assigned_deposit + (length_prefixed(encode_utf8(invoice_id)) + (length_prefixed(
            encode_utf8(bolt11_invoice),
        ) + rest))))))),
        _ => rest,
    }
}

#[verifier::rlimit(60)]
#[verifier::spinoff_prover]
proof fn lemma_cosign_invoice_layout(v: CoordinationMsgView, rest: Seq<u8>)
    requires
        v is CosignInvoice,
    ensures
        coordination_binary(v) + rest == seq![0u8] + cosign_invoice_tail(v, rest),
{
    match v {
        CoordinationMsgView::CosignInvoice { operator_id, reserves_id, amount, payment_hash, expires, assigned_deposit, invoice_id, bolt11_invoice } => {
            let s8 = length_prefixed(encode_utf8(bolt11_invoice)) + rest;
            let s7 = length_prefixed(encode_utf8(invoice_id)) + s8;
            let s6 = assigned_deposit + s7;
            let s5 = u64_be(expires) + s6;
            let s4 = payment_hash + s5;
            let s3 = u64_be(amount) + s4;
            let s2 = length_prefixed(encode_utf8(reserves_id)) + s3;
            let s1 = operator_id + s2;
            let l1 = seq![0u8] + operator_id;
            let l2 = l1 + length_prefixed(encode_utf8(reserves_id));
            let l3 = l2 + u64_be(amount);
            let l4 = l3 + payment_hash;
            let l5 = l4 + u64_be(expires);
            let l6 = l5 + assigned_deposit;
            let l7 = l6 + length_prefixed(encode_utf8(invoice_id));
            let l8 = l7 + length_prefixed(encode_utf8(bolt11_invoice));
            assert(coordination_binary(v) == l8);
            assert(l8 + rest =~= l7 + s8);
            assert(l7 + s8 =~= l6 + s7);
            assert(l6 + s7 =~= l5 + s6);
            assert(l5 + s6 =~= l4 + s5);
            assert(l4 + s5 =~= l3 + s4);
            assert(l3 + s4 =~= l2 + s3);
            assert(l2 + s3 =~= l1 + s2);
            assert(l1 + s2 =~= seq![0u8] + s1);
        },
        _ => {},
    }
}

#[verifier::rlimit(100)]
#[verifier::spinoff_prover]
proof fn lemma_cosign_invoice_fields(v: CoordinationMsgView, rest: Seq<u8>)
    requires
        v is CosignInvoice,
        coordination_binary_carries_whole(v),
    ensures
        crate::coordination::bin_read_coord_cosign_invoice(cosign_invoice_tail(v, rest)) == (Ok::<CoordinationMsgView, crate::codec::CodecFailure>(v), rest),
{
    match v {
        CoordinationMsgView::CosignInvoice { operator_id, reserves_id, amount, payment_hash, expires, assigned_deposit, invoice_id, bolt11_invoice } => {
            let s8 = length_prefixed(encode_utf8(bolt11_invoice)) + rest;
            let s7 = length_prefixed(encode_utf8(invoice_id)) + s8;
            let s6 = assigned_deposit + s7;
            let s5 = u64_be(expires) + s6;
            let s4 = payment_hash + s5;
            let s3 = u64_be(amount) + s4;
            let s2 = length_prefixed(encode_utf8(reserves_id)) + s3;
            lemma_rd_pubkey_front(operator_id, s2);
            lemma_rd_string_front(reserves_id, s3);
            lemma_rd_u64_front(amount, s4);
            lemma_rd_exact_front(payment_hash, s5);
            lemma_rd_u64_front(expires, s6);
            lemma_rd_pubkey_front(assigned_deposit, s7);
            lemma_rd_string_front(invoice_id, s8);
            lemma_rd_string_front(bolt11_invoice, rest);
        },
        _ => {},
    }
}

proof fn lemma_cosign_invoice_binary_roundtrip(v: CoordinationMsgView, rest: Seq<u8>)
    requires
        v is CosignInvoice,
        coordination_binary_carries_whole(v),
    ensures
        coordination_binary_read(coordination_binary(v) + rest) == (Ok::<CoordinationMsgView, crate::codec::CodecFailure>(v), rest),
{
    lemma_cosign_invoice_layout(v, rest);
    lemma_rd_u8_front(0u8, cosign_invoice_tail(v, rest));
    lemma_cosign_invoice_fields(v, rest);
}

#[verifier::rlimit(40)]
proof fn lemma_collateral_consent_request_binary_roundtrip(v: CoordinationMsgView, rest: Seq<u8>)
    requires
        v is CollateralConsentRequest,
        coordination_binary_carries_whole(v),
    ensures
        coordination_binary_read(coordination_binary(v) + rest) == (Ok::<CoordinationMsgView, crate::codec::CodecFailure>(v), rest),
{
    match v {
        CoordinationMsgView::CollateralConsentRequest { operator_id, reserves_id, operator_signature } => {
            let s3 = operator_signature + rest;
            let s2 = length_prefixed(encode_utf8(reserves_id)) + s3;
            let s1 = operator_id + s2;
            assert(coordination_binary(v) + rest =~= seq![1u8] + s1);
            lemma_rd_u8_front(1u8, s1);
            lemma_rd_pubkey_front(operator_id, s2);
            lemma_rd_string_front(reserves_id, s3);
            lemma_rd_exact_front(operator_signature, rest);
        },
        _ => {},
    }
}

#[verifier::rlimit(40)]
proof fn lemma_update_reserves_binary_roundtrip(v: CoordinationMsgView, rest: Seq<u8>)
    requires
        v is UpdateReserves,
        coordination_binary_carries_whole(v),
    ensures
        coordination_binary_read(coordination_binary(v) + rest) == (Ok::<CoordinationMsgView, crate::codec::CodecFailure>(v), rest),
{
    match v {
        CoordinationMsgView::UpdateReserves { channel_id, reserves_sats, script_pubkey, ledger_hash, remote_ledger_hash } => {
            let s4 = remote_ledger_hash + rest;
            let s3 = ledger_hash + s4;
            let s2 = length_prefixed(script_pubkey) + s3;
            let s1 = u64_be(reserves_sats) + s2;
            let s0 = channel_id + s1;
            assert(coordination_binary(v) + rest =~= seq![5u8] + s0);
            lemma_rd_u8_front(5u8, s0);
            lemma_rd_exact_front(channel_id, s1);
            lemma_rd_u64_front(reserves_sats, s2);
            lemma_rd_bytes_front(script_pubkey, s3);
            lemma_rd_exact_front(ledger_hash, s4);
            lemma_rd_exact_front(remote_ledger_hash, rest);
        },
        _ => {},
    }
}

/// Reading back the binary encoding of a coordination message the encoding
/// carries whole gives the message, and leaves what followed it.
pub proof fn lemma_coordination_binary_roundtrip(v: CoordinationMsgView, rest: Seq<u8>)
    requires
        coordination_binary_carries_whole(v),
    ensures
        coordination_binary_read(coordination_binary(v) + rest) == (Ok::<CoordinationMsgView, crate::codec::CodecFailure>(v), rest),
{
    match v {
        CoordinationMsgView::CosignInvoice { .. } => lemma_cosign_invoice_binary_roundtrip(v, rest),
        CoordinationMsgView::CollateralConsentRequest { .. } => lemma_collateral_consent_request_binary_roundtrip(v, rest),
        CoordinationMsgView::UpdateReserves { .. } => lemma_update_reserves_binary_roundtrip(v, rest),
        _ => {},
    }
}

} // verus!
