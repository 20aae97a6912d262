//! Reading back what the legacy binary encoding wrote, for the operations
//! that encoding carries whole.

use vstd::prelude::*;
use vstd::utf8::{encode_utf8, encode_utf8_decode_utf8, encode_utf8_valid_utf8};

use crate::bytes::{
    lemma_u32_be, lemma_u32_from_be_prefix, lemma_u64_be, lemma_u64_from_be_prefix, u32_be, u64_be,
};
use crate::codec::{length_prefixed, rd_exact, rd_pubkey, rd_string, rd_u32, rd_u64, rd_u8};
use crate::operation::OperationView;
use crate::operation_binary::{legacy_id, operation_binary, operation_binary_read};
use crate::binary_read_back;
use crate::pubkey::is_valid_key;

verus! {

/// Reading `b.len()` bytes from `b + rest`.
pub proof fn lemma_rd_exact_front(b: Seq<u8>, rest: Seq<u8>)
    ensures
        rd_exact(b + rest, b.len()) == (Ok::<Seq<u8>, crate::codec::CodecFailure>(b), rest),
{
    assert((b + rest).subrange(0, b.len() as int) =~= b);
    assert((b + rest).skip(b.len() as int) =~= rest);
}

/// Reading one byte from `[x] + rest`.
pub proof fn lemma_rd_u8_front(x: u8, rest: Seq<u8>)
    ensures
        rd_u8(seq![x] + rest) == (Ok::<u8, crate::codec::CodecFailure>(x), rest),
{
    assert((seq![x] + rest).skip(1) =~= rest);
}

/// Reading a `u32` from its encoding followed by `rest`.
pub proof fn lemma_rd_u32_front(v: u32, rest: Seq<u8>)
    ensures
        rd_u32(u32_be(v) + rest) == (Ok::<u32, crate::codec::CodecFailure>(v), rest),
{
    lemma_u32_be(v, seq![]);
    let s = u32_be(v) + rest;
    lemma_u32_from_be_prefix(s);
    assert(s.subrange(0, 4) =~= u32_be(v));
    assert(s.skip(4) =~= rest);
}

/// Reading a `u64` from its encoding followed by `rest`.
pub proof fn lemma_rd_u64_front(v: u64, rest: Seq<u8>)
    ensures
        rd_u64(u64_be(v) + rest) == (Ok::<u64, crate::codec::CodecFailure>(v), rest),
{
    lemma_u64_be(v, seq![]);
    let s = u64_be(v) + rest;
    lemma_u64_from_be_prefix(s);
    assert(s.subrange(0, 8) =~= u64_be(v));
    assert(s.skip(8) =~= rest);
}

/// Reading a string from its length-prefixed encoding followed by `rest`.
pub proof fn lemma_rd_string_front(t: Seq<char>, rest: Seq<u8>)
    requires
        encode_utf8(t).len() <= u32::MAX,
    ensures
        rd_string(length_prefixed(encode_utf8(t)) + rest) == (Ok::<Seq<char>, crate::codec::CodecFailure>(t), rest),
{
    reveal(rd_string);
    let b = encode_utf8(t);
    assert(length_prefixed(b) + rest =~= u32_be(b.len() as u32) + (b + rest));
    lemma_rd_u32_front(b.len() as u32, b + rest);
    lemma_rd_exact_front(b, rest);
    encode_utf8_valid_utf8(t);
    encode_utf8_decode_utf8(t);
}

/// Reading a valid key from its encoding followed by `rest`.
pub proof fn lemma_rd_pubkey_front(k: Seq<u8>, rest: Seq<u8>)
    requires
        k.len() == 33,
        is_valid_key(k),
    ensures
        rd_pubkey(k + rest) == (Ok::<Seq<u8>, crate::codec::CodecFailure>(k), rest),
{
    lemma_rd_exact_front(k, rest);
}

/// Every element of a witness is shorter than 65536 bytes.
pub open spec fn elements_fit_u16(w: Seq<Seq<u8>>) -> bool {
    forall|i: int| 0 <= i < w.len() ==> #[trigger] w[i].len() < 65536
}

/// The operations the legacy binary encoding carries whole, with fields of
/// the lengths their types give, strings whose length fits a `u32`, and
/// witnesses of fewer than 65536 elements, each shorter than 65536 bytes.
pub open spec fn binary_carries_whole(v: OperationView) -> bool {
    match v {
        OperationView::LedgerOpen { operator_id, reserves_id, .. } => operator_id.len() == 33
            && is_valid_key(operator_id) && encode_utf8(reserves_id).len() <= u32::MAX,
        OperationView::DepositClose { deposit_id } => deposit_id.len() == 16,
        OperationView::InvoiceCredit { payment_hash, deposit_id, invoice_id, .. } => payment_hash.len() == 32
            && deposit_id.len() == 16 && encode_utf8(invoice_id).len() <= u32::MAX,
        OperationView::OnchainCredit { txid, deposit_id, funding_address, .. } => txid.len() == 32
            && deposit_id.len() == 16 && encode_utf8(funding_address).len() <= u32::MAX,
        OperationView::OnchainFulfill { deposit_id, withdrawal_id, txid, destination_address, .. } => deposit_id.len()
            == 16 && withdrawal_id.len() == 32 && txid.len() == 32 && encode_utf8(destination_address).len()
            <= u32::MAX,
        OperationView::TransferComplete { transfer_id, script_witness } => transfer_id.len() == 32
            && script_witness.len() < 65536 && elements_fit_u16(script_witness),
        OperationView::DisputeArmed { commitment_hash, target_reserves, replacement_collateral, .. } => commitment_hash.len()
            == 20 && encode_utf8(target_reserves).len() <= u32::MAX && match replacement_collateral {
            Some(rc) => rc.0.len() == 32,
            None => true,
        },
        OperationView::DisputeAcquire { new_custodian, claim_txid, new_reserves_address } => new_custodian.len()
            == 33 && is_valid_key(new_custodian) && claim_txid.len() == 32 && encode_utf8(
            new_reserves_address,
        ).len() <= u32::MAX,
        OperationView::FeeCollect { deposit_id, .. } => deposit_id.len() == 16,
        OperationView::TransferFail { transfer_id, block_hash, .. } => transfer_id.len() == 32
            && block_hash.len() == 32,
        OperationView::InvoiceFail { deposit_id, payment_id, .. } => deposit_id.len() == 16 && payment_id.len()
            == 32,
        OperationView::OnchainFail { deposit_id, withdrawal_id } => deposit_id.len() == 16
            && withdrawal_id.len() == 32,
        OperationView::DisputeEnter { reason, .. } => encode_utf8(reason).len() <= u32::MAX,
        OperationView::QuorumRemoveMember { quorum_member, operator_signature } => quorum_member.len() == 33
            && is_valid_key(quorum_member) && operator_signature.len() == 64,
        OperationView::QuorumJoin { operator_id, ledger_id, .. } => operator_id.len() == 33 && is_valid_key(
            operator_id,
        ) && encode_utf8(ledger_id).len() <= u32::MAX,
        OperationView::DeliveryEmbed { request_hash, target_ledger_id, target_operator } => request_hash.len()
            == 32 && target_ledger_id.len() == 32 && target_operator.len() == 33 && is_valid_key(target_operator),
        OperationView::DisputeYield => true,
        OperationView::LedgerClose => true,
        _ => false,
    }
}

#[verifier::rlimit(60)]
#[verifier::spinoff_prover]
proof fn lemma_fee_collect_binary_roundtrip(v: OperationView, rest: Seq<u8>)
    requires
        v is FeeCollect,
        binary_carries_whole(v),
    ensures
        operation_binary_read(operation_binary(v) + rest) == (Ok::<OperationView, crate::codec::CodecFailure>(v), rest),
{
    match v {
OperationView::FeeCollect { deposit_id, amount, block_height } => {
            let t = u32_be(block_height) + rest;
            let u = u64_be(amount) + t;
            let w = legacy_id(deposit_id) + u;
            assert(operation_binary(v) + rest =~= seq![crate::operation::discriminant_of(v)] + w);
            lemma_rd_u8_front(crate::operation::discriminant_of(v), w);
            lemma_rd_exact_front(legacy_id(deposit_id), u);
            lemma_rd_u64_front(amount, t);
            lemma_rd_u32_front(block_height, rest);
            assert(legacy_id(deposit_id).subrange(1, 17) =~= deposit_id);
        },
        _ => {},
    }
}

#[verifier::rlimit(60)]
#[verifier::spinoff_prover]
proof fn lemma_transfer_fail_binary_roundtrip(v: OperationView, rest: Seq<u8>)
    requires
        v is TransferFail,
        binary_carries_whole(v),
    ensures
        operation_binary_read(operation_binary(v) + rest) == (Ok::<OperationView, crate::codec::CodecFailure>(v), rest),
{
    match v {
OperationView::TransferFail { transfer_id, block_hash, reason } => {
            let t = seq![reason] + rest;
            let u = block_hash + t;
            let w = transfer_id + u;
            assert(operation_binary(v) + rest =~= seq![crate::operation::discriminant_of(v)] + w);
            lemma_rd_u8_front(crate::operation::discriminant_of(v), w);
            lemma_rd_exact_front(transfer_id, u);
            lemma_rd_exact_front(block_hash, t);
            lemma_rd_u8_front(reason, rest);
        },
        _ => {},
    }
}

#[verifier::rlimit(80)]
#[verifier::spinoff_prover]
proof fn lemma_invoice_fail_binary_roundtrip(v: OperationView, rest: Seq<u8>)
    requires
        v is InvoiceFail,
        binary_carries_whole(v),
    ensures
        operation_binary_read(operation_binary(v) + rest) == (Ok::<OperationView, crate::codec::CodecFailure>(v), rest),
{
    match v {
OperationView::InvoiceFail { deposit_id, amount, payment_id, sequence_number } => {
            let t = u64_be(sequence_number) + rest;
            let p = payment_id + t;
            let u = u64_be(amount) + p;
            let w = legacy_id(deposit_id) + u;
            assert(operation_binary(v) + rest =~= seq![crate::operation::discriminant_of(v)] + w);
            lemma_rd_u8_front(crate::operation::discriminant_of(v), w);
            lemma_rd_exact_front(legacy_id(deposit_id), u);
            lemma_rd_u64_front(amount, p);
            lemma_rd_exact_front(payment_id, t);
            lemma_rd_u64_front(sequence_number, rest);
            assert(legacy_id(deposit_id).subrange(1, 17) =~= deposit_id);
        },
        _ => {},
    }
}

#[verifier::rlimit(60)]
#[verifier::spinoff_prover]
proof fn lemma_onchain_fail_binary_roundtrip(v: OperationView, rest: Seq<u8>)
    requires
        v is OnchainFail,
        binary_carries_whole(v),
    ensures
        operation_binary_read(operation_binary(v) + rest) == (Ok::<OperationView, crate::codec::CodecFailure>(v), rest),
{
    match v {
OperationView::OnchainFail { deposit_id, withdrawal_id } => {
            let u = withdrawal_id + rest;
            let w = legacy_id(deposit_id) + u;
            assert(operation_binary(v) + rest =~= seq![crate::operation::discriminant_of(v)] + w);
            lemma_rd_u8_front(crate::operation::discriminant_of(v), w);
            lemma_rd_exact_front(legacy_id(deposit_id), u);
            lemma_rd_exact_front(withdrawal_id, rest);
            assert(legacy_id(deposit_id).subrange(1, 17) =~= deposit_id);
        },
        _ => {},
    }
}

#[verifier::rlimit(60)]
#[verifier::spinoff_prover]
proof fn lemma_dispute_enter_binary_roundtrip(v: OperationView, rest: Seq<u8>)
    requires
        v is DisputeEnter,
        binary_carries_whole(v),
    ensures
        operation_binary_read(operation_binary(v) + rest) == (Ok::<OperationView, crate::codec::CodecFailure>(v), rest),
{
    match v {
OperationView::DisputeEnter { last_valid_sequence, reason } => {
            let u = length_prefixed(encode_utf8(reason)) + rest;
            let w = u64_be(last_valid_sequence) + u;
            assert(operation_binary(v) + rest =~= seq![crate::operation::discriminant_of(v)] + w);
            lemma_rd_u8_front(crate::operation::discriminant_of(v), w);
            lemma_rd_u64_front(last_valid_sequence, u);
            lemma_rd_string_front(reason, rest);
        },
        _ => {},
    }
}

#[verifier::rlimit(60)]
#[verifier::spinoff_prover]
proof fn lemma_quorum_remove_member_binary_roundtrip(v: OperationView, rest: Seq<u8>)
    requires
        v is QuorumRemoveMember,
        binary_carries_whole(v),
    ensures
        operation_binary_read(operation_binary(v) + rest) == (Ok::<OperationView, crate::codec::CodecFailure>(v), rest),
{
    match v {
OperationView::QuorumRemoveMember { quorum_member, operator_signature } => {
            let u = operator_signature + rest;
            let w = quorum_member + u;
            assert(operation_binary(v) + rest =~= seq![crate::operation::discriminant_of(v)] + w);
            lemma_rd_u8_front(crate::operation::discriminant_of(v), w);
            lemma_rd_pubkey_front(quorum_member, u);
            lemma_rd_exact_front(operator_signature, rest);
        },
        _ => {},
    }
}

#[verifier::rlimit(100)]
#[verifier::spinoff_prover]
proof fn lemma_quorum_join_binary_roundtrip(v: OperationView, rest: Seq<u8>)
    requires
        v is QuorumJoin,
        binary_carries_whole(v),
    ensures
        operation_binary_read(operation_binary(v) + rest) == (Ok::<OperationView, crate::codec::CodecFailure>(v), rest),
{
    match v {
OperationView::QuorumJoin { operator_id, ledger_id, membership_expires } => {
            let t = u32_be(membership_expires) + rest;
            let u = length_prefixed(encode_utf8(ledger_id)) + t;
            let w = operator_id + u;
            assert(operation_binary(v) + rest =~= seq![crate::operation::discriminant_of(v)] + w);
            lemma_rd_u8_front(crate::operation::discriminant_of(v), w);
            lemma_rd_pubkey_front(operator_id, u);
            lemma_rd_string_front(ledger_id, t);
            lemma_rd_u32_front(membership_expires, rest);
        },
        _ => {},
    }
}

#[verifier::rlimit(60)]
#[verifier::spinoff_prover]
proof fn lemma_delivery_embed_binary_roundtrip(v: OperationView, rest: Seq<u8>)
    requires
        v is DeliveryEmbed,
        binary_carries_whole(v),
    ensures
        operation_binary_read(operation_binary(v) + rest) == (Ok::<OperationView, crate::codec::CodecFailure>(v), rest),
{
    match v {
OperationView::DeliveryEmbed { request_hash, target_ledger_id, target_operator } => {
            let t = target_operator + rest;
            let u = target_ledger_id + t;
            let w = request_hash + u;
            assert(operation_binary(v) + rest =~= seq![crate::operation::discriminant_of(v)] + w);
            lemma_rd_u8_front(crate::operation::discriminant_of(v), w);
            lemma_rd_exact_front(request_hash, u);
            lemma_rd_exact_front(target_ledger_id, t);
            lemma_rd_pubkey_front(target_operator, rest);
        },
        _ => {},
    }
}

#[verifier::rlimit(60)]
#[verifier::spinoff_prover]
proof fn lemma_dispute_yield_binary_roundtrip(v: OperationView, rest: Seq<u8>)
    requires
        v is DisputeYield,
        binary_carries_whole(v),
    ensures
        operation_binary_read(operation_binary(v) + rest) == (Ok::<OperationView, crate::codec::CodecFailure>(v), rest),
{
    match v {
OperationView::DisputeYield => {
            assert(operation_binary(v) + rest =~= seq![crate::operation::discriminant_of(v)] + rest);
            lemma_rd_u8_front(crate::operation::discriminant_of(v), rest);
        },
        _ => {},
    }
}

#[verifier::rlimit(60)]
#[verifier::spinoff_prover]
proof fn lemma_ledger_close_binary_roundtrip(v: OperationView, rest: Seq<u8>)
    requires
        v is LedgerClose,
        binary_carries_whole(v),
    ensures
        operation_binary_read(operation_binary(v) + rest) == (Ok::<OperationView, crate::codec::CodecFailure>(v), rest),
{
    match v {
OperationView::LedgerClose => {
            assert(operation_binary(v) + rest =~= seq![crate::operation::discriminant_of(v)] + rest);
            lemma_rd_u8_front(crate::operation::discriminant_of(v), rest);
        },
        _ => {},
    }
}

/// Reading back the binary encoding of an operation the encoding carries
/// whole gives the operation, and leaves what followed it.
pub proof fn lemma_operation_binary_roundtrip(v: OperationView, rest: Seq<u8>)
    requires
        binary_carries_whole(v),
    ensures
        operation_binary_read(operation_binary(v) + rest) == (Ok::<OperationView, crate::codec::CodecFailure>(v), rest),
{
    match v {
        OperationView::FeeCollect { .. } => lemma_fee_collect_binary_roundtrip(v, rest),
        OperationView::TransferFail { .. } => lemma_transfer_fail_binary_roundtrip(v, rest),
        OperationView::InvoiceFail { .. } => lemma_invoice_fail_binary_roundtrip(v, rest),
        OperationView::OnchainFail { .. } => lemma_onchain_fail_binary_roundtrip(v, rest),
        OperationView::DisputeEnter { .. } => lemma_dispute_enter_binary_roundtrip(v, rest),
        OperationView::QuorumRemoveMember { .. } => lemma_quorum_remove_member_binary_roundtrip(v, rest),
        OperationView::QuorumJoin { .. } => lemma_quorum_join_binary_roundtrip(v, rest),
        OperationView::DeliveryEmbed { .. } => lemma_delivery_embed_binary_roundtrip(v, rest),
        OperationView::DisputeYield => lemma_dispute_yield_binary_roundtrip(v, rest),
        OperationView::LedgerClose => lemma_ledger_close_binary_roundtrip(v, rest),
        OperationView::LedgerOpen { .. } => binary_read_back::lemma_ledger_open_binary_roundtrip(v, rest),
        OperationView::DepositClose { .. } => binary_read_back::lemma_deposit_close_binary_roundtrip(v, rest),
        OperationView::InvoiceCredit { .. } => binary_read_back::lemma_invoice_credit_binary_roundtrip(v, rest),
        OperationView::OnchainCredit { .. } => binary_read_back::lemma_onchain_credit_binary_roundtrip(v, rest),
        OperationView::OnchainFulfill { .. } => binary_read_back::lemma_onchain_fulfill_binary_roundtrip(v, rest),
        OperationView::TransferComplete { .. } => binary_read_back::lemma_transfer_complete_binary_roundtrip(v, rest),
        OperationView::DisputeArmed { .. } => binary_read_back::lemma_dispute_armed_binary_roundtrip(v, rest),
        OperationView::DisputeAcquire { .. } => binary_read_back::lemma_dispute_acquire_binary_roundtrip(v, rest),
        _ => {},
    }
}

} // verus!
