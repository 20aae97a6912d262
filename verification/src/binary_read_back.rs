//! Reading back the legacy binary encoding of witnesses, replacement
//! collateral, and the operations built from them or from strings.

use vstd::prelude::*;
use vstd::utf8::encode_utf8;

use crate::binary_laws::{
    binary_carries_whole, elements_fit_u16, lemma_rd_exact_front, lemma_rd_pubkey_front,
    lemma_rd_string_front, lemma_rd_u32_front, lemma_rd_u64_front, lemma_rd_u8_front,
};
use crate::bytes::{lemma_u16_be, lemma_u16_from_be_prefix, u16_be, u32_be, u64_be};
use crate::codec::{length_prefixed, rd_u16, CodecFailure};
use crate::operation::{discriminant_of, OperationView};
use crate::operation_binary::{
    collateral_binary, elements16_bytes, legacy_id, operation_binary, operation_binary_read,
    rd_collateral, rd_elements16, rd_witness16, witness16_bytes,
};

verus! {

/// Reading a `u16` from its encoding followed by `rest`.
pub proof fn lemma_rd_u16_front(v: u16, rest: Seq<u8>)
    ensures
        rd_u16(u16_be(v) + rest) == (Ok::<u16, CodecFailure>(v), rest),
{
    lemma_u16_be(v, seq![]);
    let s = u16_be(v) + rest;
    lemma_u16_from_be_prefix(s);
    assert(s.subrange(0, 2) =~= u16_be(v));
    assert(s.skip(2) =~= rest);
}

/// The element bytes of a witness, seen from its first element.
proof fn lemma_elements16_front(w: Seq<Seq<u8>>)
    requires
        w.len() > 0,
    ensures
        elements16_bytes(w) == u16_be(w[0].len() as u16) + w[0] + elements16_bytes(w.drop_first()),
    decreases w.len(),
{
    if w.len() == 1 {
        assert(w.drop_last() =~= Seq::<Seq<u8>>::empty());
        assert(w.drop_first() =~= Seq::<Seq<u8>>::empty());
        assert(w.last() == w[0]);
        assert(elements16_bytes(w) =~= u16_be(w[0].len() as u16) + w[0] + elements16_bytes(
            w.drop_first(),
        ));
    } else {
        let init = w.drop_last();
        let tail = w.drop_first();
        lemma_elements16_front(init);
        assert(init[0] == w[0]);
        assert(tail.drop_last() =~= init.drop_first());
        assert(tail.last() == w.last());
        assert(elements16_bytes(tail) == elements16_bytes(tail.drop_last()) + u16_be(
            tail.last().len() as u16,
        ) + tail.last());
        assert(elements16_bytes(w) =~= u16_be(w[0].len() as u16) + w[0] + elements16_bytes(tail));
    }
}

/// Reading `w.len()` elements from their encoding followed by `rest`.
pub proof fn lemma_rd_elements16_front(w: Seq<Seq<u8>>, rest: Seq<u8>)
    requires
        elements_fit_u16(w),
    ensures
        rd_elements16(elements16_bytes(w) + rest, w.len()) == (Ok::<Seq<Seq<u8>>, CodecFailure>(w), rest),
    decreases w.len(),
{
    if w.len() == 0 {
        assert(elements16_bytes(w) + rest =~= rest);
        assert(w =~= Seq::<Seq<u8>>::empty());
    } else {
        lemma_elements16_front(w);
        let tail = w.drop_first();
        let e = w[0];
        let s2 = elements16_bytes(tail) + rest;
        let s1 = e + s2;
        assert(elements16_bytes(w) + rest =~= u16_be(e.len() as u16) + s1);
        assert(e.len() < 65536);
        assert((e.len() as u16) as nat == e.len());
        lemma_rd_u16_front(e.len() as u16, s1);
        lemma_rd_exact_front(e, s2);
        assert forall|i: int| 0 <= i < tail.len() implies #[trigger] tail[i].len() < 65536 by {
            assert(tail[i] == w[i + 1]);
        }
        lemma_rd_elements16_front(tail, rest);
        assert(seq![e] + tail =~= w);
    }
}

/// Reading a witness from its encoding followed by `rest`.
pub proof fn lemma_rd_witness16_front(w: Seq<Seq<u8>>, rest: Seq<u8>)
    requires
        w.len() < 65536,
        elements_fit_u16(w),
    ensures
        rd_witness16(witness16_bytes(w) + rest) == (Ok::<Seq<Seq<u8>>, CodecFailure>(w), rest),
{
    let s1 = elements16_bytes(w) + rest;
    assert(witness16_bytes(w) + rest =~= u16_be(w.len() as u16) + s1);
    lemma_rd_u16_front(w.len() as u16, s1);
    lemma_rd_elements16_front(w, rest);
}

/// Reading replacement collateral from its encoding followed by `rest`.
pub proof fn lemma_rd_collateral_front(o: Option<(Seq<u8>, u32, u64)>, rest: Seq<u8>)
    requires
        match o {
            Some(rc) => rc.0.len() == 32,
            None => true,
        },
    ensures
        rd_collateral(collateral_binary(o) + rest) == (Ok::<Option<(Seq<u8>, u32, u64)>, CodecFailure>(o), rest),
{
    match o {
        Some(rc) => {
            let s3 = u64_be(rc.2) + rest;
            let s2 = u32_be(rc.1) + s3;
            let s1 = rc.0 + s2;
            assert(collateral_binary(o) + rest =~= seq![1u8] + s1);
            lemma_rd_u8_front(1u8, s1);
            lemma_rd_exact_front(rc.0, s2);
            lemma_rd_u32_front(rc.1, s3);
            lemma_rd_u64_front(rc.2, rest);
        },
        None => {
            assert(collateral_binary(o) + rest =~= seq![0u8] + rest);
            lemma_rd_u8_front(0u8, rest);
        },
    }
}

#[verifier::rlimit(100)]
#[verifier::spinoff_prover]
pub proof fn lemma_ledger_open_binary_roundtrip(v: OperationView, rest: Seq<u8>)
    requires
        v is LedgerOpen,
        binary_carries_whole(v),
    ensures
        operation_binary_read(operation_binary(v) + rest) == (Ok::<OperationView, CodecFailure>(v), rest),
{
    match v {
        OperationView::LedgerOpen { operator_id, reserves_id, genesis_block, reserves_amount, collateral_amount } => {
            let s5 = u64_be(collateral_amount) + rest;
            let s4 = u64_be(reserves_amount) + s5;
            let s3 = u32_be(0) + s4;
            let s2 = u32_be(genesis_block) + s3;
            let s1 = length_prefixed(encode_utf8(reserves_id)) + s2;
            let s0 = operator_id + s1;
            assert(operation_binary(v) + rest =~= seq![discriminant_of(v)] + s0);
            lemma_rd_u8_front(discriminant_of(v), s0);
            lemma_rd_pubkey_front(operator_id, s1);
            lemma_rd_string_front(reserves_id, s2);
            lemma_rd_u32_front(genesis_block, s3);
            lemma_rd_u32_front(0, s4);
            lemma_rd_u64_front(reserves_amount, s5);
            lemma_rd_u64_front(collateral_amount, rest);
        },
        _ => {},
    }
}

#[verifier::rlimit(60)]
#[verifier::spinoff_prover]
pub proof fn lemma_deposit_close_binary_roundtrip(v: OperationView, rest: Seq<u8>)
    requires
        v is DepositClose,
        binary_carries_whole(v),
    ensures
        operation_binary_read(operation_binary(v) + rest) == (Ok::<OperationView, CodecFailure>(v), rest),
{
    match v {
        OperationView::DepositClose { deposit_id } => {
            assert(operation_binary(v) + rest =~= seq![discriminant_of(v)] + (legacy_id(deposit_id) + rest));
            lemma_rd_u8_front(discriminant_of(v), legacy_id(deposit_id) + rest);
            lemma_rd_exact_front(legacy_id(deposit_id), rest);
            assert(legacy_id(deposit_id).subrange(1, 17) =~= deposit_id);
        },
        _ => {},
    }
}

/// The bytes after the kind byte of an `InvoiceCredit` operation, followed by
/// `rest`.
pub open spec fn invoice_credit_tail(v: OperationView, rest: Seq<u8>) -> Seq<u8> {
    match v {
        OperationView::InvoiceCredit { payment_hash, deposit_id, amount, invoice_id, sequence_number } => payment_hash
            + (legacy_id(deposit_id) + (u64_be(amount) + (length_prefixed(encode_utf8(invoice_id)) + (u64_be(
            sequence_number,
        ) + rest)))),
        _ => rest,
    }
}

#[verifier::rlimit(100)]
#[verifier::spinoff_prover]
proof fn lemma_invoice_credit_fields(v: OperationView, rest: Seq<u8>)
    requires
        v is InvoiceCredit,
        binary_carries_whole(v),
    ensures
        crate::operation_binary::bin_read_invoice_credit(invoice_credit_tail(v, rest)) == (Ok::<OperationView, CodecFailure>(v), rest),
{
    match v {
        OperationView::InvoiceCredit { payment_hash, deposit_id, amount, invoice_id, sequence_number } => {
            let s4 = u64_be(sequence_number) + rest;
            let s3 = length_prefixed(encode_utf8(invoice_id)) + s4;
            let s2 = u64_be(amount) + s3;
            let s1 = legacy_id(deposit_id) + s2;
            lemma_rd_exact_front(payment_hash, s1);
            lemma_rd_exact_front(legacy_id(deposit_id), s2);
            lemma_rd_u64_front(amount, s3);
            lemma_rd_string_front(invoice_id, s4);
            lemma_rd_u64_front(sequence_number, rest);
            assert(legacy_id(deposit_id).subrange(1, 17) =~= deposit_id);
        },
        _ => {},
    }
}

#[verifier::rlimit(60)]
#[verifier::spinoff_prover]
pub proof fn lemma_invoice_credit_binary_roundtrip(v: OperationView, rest: Seq<u8>)
    requires
        v is InvoiceCredit,
        binary_carries_whole(v),
    ensures
        operation_binary_read(operation_binary(v) + rest) == (Ok::<OperationView, CodecFailure>(v), rest),
{
    let s0 = invoice_credit_tail(v, rest);
    assert(operation_binary(v) + rest =~= seq![30u8] + s0);
    lemma_rd_u8_front(30u8, s0);
    lemma_invoice_credit_fields(v, rest);
}

#[verifier::rlimit(100)]
#[verifier::spinoff_prover]
pub proof fn lemma_onchain_credit_binary_roundtrip(v: OperationView, rest: Seq<u8>)
    requires
        v is OnchainCredit,
        binary_carries_whole(v),
    ensures
        operation_binary_read(operation_binary(v) + rest) == (Ok::<OperationView, CodecFailure>(v), rest),
{
    match v {
        OperationView::OnchainCredit { txid, vout, deposit_id, amount, funding_address } => {
            let s4 = length_prefixed(encode_utf8(funding_address)) + rest;
            let s3 = u64_be(amount) + s4;
            let s2 = legacy_id(deposit_id) + s3;
            let s1 = u32_be(vout) + s2;
            let s0 = txid + s1;
            assert(operation_binary(v) + rest =~= seq![discriminant_of(v)] + s0);
            lemma_rd_u8_front(discriminant_of(v), s0);
            lemma_rd_exact_front(txid, s1);
            lemma_rd_u32_front(vout, s2);
            lemma_rd_exact_front(legacy_id(deposit_id), s3);
            lemma_rd_u64_front(amount, s4);
            lemma_rd_string_front(funding_address, rest);
            assert(legacy_id(deposit_id).subrange(1, 17) =~= deposit_id);
        },
        _ => {},
    }
}

#[verifier::rlimit(100)]
#[verifier::spinoff_prover]
pub proof fn lemma_onchain_fulfill_binary_roundtrip(v: OperationView, rest: Seq<u8>)
    requires
        v is OnchainFulfill,
        binary_carries_whole(v),
    ensures
        operation_binary_read(operation_binary(v) + rest) == (Ok::<OperationView, CodecFailure>(v), rest),
{
    match v {
        OperationView::OnchainFulfill { deposit_id, withdrawal_id, amount, txid, destination_address } => {
            let s4 = length_prefixed(encode_utf8(destination_address)) + rest;
            let s3 = txid + s4;
            let s2 = u64_be(amount) + s3;
            let s1 = withdrawal_id + s2;
            let s0 = legacy_id(deposit_id) + s1;
            assert(operation_binary(v) + rest =~= seq![discriminant_of(v)] + s0);
            lemma_rd_u8_front(discriminant_of(v), s0);
            lemma_rd_exact_front(legacy_id(deposit_id), s1);
            lemma_rd_exact_front(withdrawal_id, s2);
            lemma_rd_u64_front(amount, s3);
            lemma_rd_exact_front(txid, s4);
            lemma_rd_string_front(destination_address, rest);
            assert(legacy_id(deposit_id).subrange(1, 17) =~= deposit_id);
        },
        _ => {},
    }
}

#[verifier::rlimit(60)]
#[verifier::spinoff_prover]
pub proof fn lemma_transfer_complete_binary_roundtrip(v: OperationView, rest: Seq<u8>)
    requires
        v is TransferComplete,
        binary_carries_whole(v),
    ensures
        operation_binary_read(operation_binary(v) + rest) == (Ok::<OperationView, CodecFailure>(v), rest),
{
    match v {
        OperationView::TransferComplete { transfer_id, script_witness } => {
            let s1 = witness16_bytes(script_witness) + rest;
            let s0 = transfer_id + s1;
            assert(operation_binary(v) + rest =~= seq![discriminant_of(v)] + s0);
            lemma_rd_u8_front(discriminant_of(v), s0);
            lemma_rd_exact_front(transfer_id, s1);
            lemma_rd_witness16_front(script_witness, rest);
        },
        _ => {},
    }
}

/// The bytes after the kind byte of a `DisputeArmed` operation, followed by
/// `rest`.
pub open spec fn dispute_armed_tail(v: OperationView, rest: Seq<u8>) -> Seq<u8> {
    match v {
        OperationView::DisputeArmed { armed_block, commitment_hash, target_reserves, replacement_collateral } => u32_be(
            armed_block,
        ) + (commitment_hash + (length_prefixed(encode_utf8(target_reserves)) + (collateral_binary(
            replacement_collateral,
        ) + rest))),
        _ => rest,
    }
}

#[verifier::rlimit(100)]
#[verifier::spinoff_prover]
proof fn lemma_dispute_armed_fields(v: OperationView, rest: Seq<u8>)
    requires
        v is DisputeArmed,
        binary_carries_whole(v),
    ensures
        crate::operation_binary::bin_read_dispute_armed(dispute_armed_tail(v, rest)) == (Ok::<OperationView, CodecFailure>(v), rest),
{
    match v {
        OperationView::DisputeArmed { armed_block, commitment_hash, target_reserves, replacement_collateral } => {
            let s3 = collateral_binary(replacement_collateral) + rest;
            let s2 = length_prefixed(encode_utf8(target_reserves)) + s3;
            let s1 = commitment_hash + s2;
            lemma_rd_u32_front(armed_block, s1);
            lemma_rd_exact_front(commitment_hash, s2);
            lemma_rd_string_front(target_reserves, s3);
            lemma_rd_collateral_front(replacement_collateral, rest);
        },
        _ => {},
    }
}

#[verifier::rlimit(60)]
#[verifier::spinoff_prover]
pub proof fn lemma_dispute_armed_binary_roundtrip(v: OperationView, rest: Seq<u8>)
    requires
        v is DisputeArmed,
        binary_carries_whole(v),
    ensures
        operation_binary_read(operation_binary(v) + rest) == (Ok::<OperationView, CodecFailure>(v), rest),
{
    let s0 = dispute_armed_tail(v, rest);
    assert(operation_binary(v) + rest =~= seq![57u8] + s0);
    lemma_rd_u8_front(57u8, s0);
    lemma_dispute_armed_fields(v, rest);
}

#[verifier::rlimit(100)]
#[verifier::spinoff_prover]
pub proof fn lemma_dispute_acquire_binary_roundtrip(v: OperationView, rest: Seq<u8>)
    requires
        v is DisputeAcquire,
        binary_carries_whole(v),
    ensures
        operation_binary_read(operation_binary(v) + rest) == (Ok::<OperationView, CodecFailure>(v), rest),
{
    match v {
        OperationView::DisputeAcquire { new_custodian, claim_txid, new_reserves_address } => {
            let s2 = length_prefixed(encode_utf8(new_reserves_address)) + rest;
            let s1 = claim_txid + s2;
            assert(operation_binary(v) + rest =~= seq![discriminant_of(v)] + (new_custodian + s1));
            lemma_rd_u8_front(discriminant_of(v), new_custodian + s1);
            lemma_rd_pubkey_front(new_custodian, s1);
            lemma_rd_exact_front(claim_txid, s2);
            lemma_rd_string_front(new_reserves_address, rest);
        },
        _ => {},
    }
}

} // verus!
