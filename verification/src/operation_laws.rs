//! What the TLV encoding of ledger operations preserves: decoding the
//! encoding of an operation gives the operation back.

use vstd::prelude::*;
use vstd::utf8::{encode_utf8, encode_utf8_decode_utf8, encode_utf8_valid_utf8};

use crate::bytes::{lemma_u16_be, lemma_u32_be, lemma_u64_be, u16_be, u32_be, u64_be};
use crate::op_fields;
use crate::operation::{
    discriminant_of, lemma_message_type_from_discriminant, message_type_in,
    operation_message_type, LedgerOperation, OperationView,
};
use crate::operation_tlv::{
    any_member_lid, lemma_put_opt_finite, lemma_put_opt_lookup, lossy_text, member_keys_bytes, member_lids_bytes, operation_fields,
    operation_from_fields, parse_member_keys, parse_member_lids, zip_members,
};
use crate::pubkey::is_valid_key;
use crate::records::{lemma_fee_roundtrip, lemma_transfer_fee_roundtrip, parse_with};
use crate::tlv::{
    counted_bytes, entries_bytes, items_bytes, keys_increasing, lemma_entries_bytes_cons,
    lemma_entries_map_at, lemma_finite_map_sorted, sorted_entries, lemma_map_roundtrip,
    lemma_varint_roundtrip, map_within_limit, varint_bytes, varint_parse, witness_elements,
    witness_of, StreamFault, TlvEncode, MAX_TLV_VALUE_LENGTH,
};

verus! {

// ============================================================================
// Witness stacks
// ============================================================================

/// A witness stack the TLV encoding carries: at most 1000 elements of at
/// most 520 bytes each.
pub open spec fn witness_fits(items: Seq<Seq<u8>>) -> bool {
    &&& items.len() <= 1000
    &&& forall|i: int| 0 <= i < items.len() ==> (#[trigger] items[i]).len() <= 520
}

/// The encoding of a stack, split at its first element.
proof fn lemma_items_bytes_cons(a: Seq<u8>, rest: Seq<Seq<u8>>)
    ensures
        items_bytes(seq![a] + rest) == varint_bytes(a.len() as u64) + a + items_bytes(rest),
    decreases rest.len(),
{
    let s = seq![a] + rest;
    if rest.len() == 0 {
        assert(s.drop_last() =~= Seq::<Seq<u8>>::empty());
        assert(rest =~= Seq::<Seq<u8>>::empty());
        assert(items_bytes(s) =~= varint_bytes(a.len() as u64) + a + items_bytes(rest));
    } else {
        assert(s.drop_last() =~= seq![a] + rest.drop_last());
        assert(s.last() == rest.last());
        lemma_items_bytes_cons(a, rest.drop_last());
        assert(items_bytes(s) =~= varint_bytes(a.len() as u64) + a + items_bytes(rest));
    }
}

/// The encoding of a fitting stack is at most 529 bytes per element.
proof fn lemma_items_bytes_len(items: Seq<Seq<u8>>)
    requires
        forall|i: int| 0 <= i < items.len() ==> (#[trigger] items[i]).len() <= 520,
    ensures
        items_bytes(items).len() <= 529 * items.len(),
    decreases items.len(),
{
    if items.len() > 0 {
        let init = items.drop_last();
        assert forall|i: int| 0 <= i < init.len() implies (#[trigger] init[i]).len() <= 520 by {
            assert(init[i] == items[i]);
        }
        lemma_items_bytes_len(init);
        lemma_varint_roundtrip(items.last().len() as u64, seq![]);
        assert(items.last() == items[items.len() - 1]);
    }
}

/// Reading the elements of an encoded fitting stack gives them back.
#[verifier::spinoff_prover]
#[verifier::rlimit(100)]
proof fn lemma_witness_elements(items: Seq<Seq<u8>>, field_type: u64)
    requires
        forall|i: int| 0 <= i < items.len() ==> (#[trigger] items[i]).len() <= 520,
    ensures
        witness_elements(items_bytes(items), items.len(), field_type) == Ok::<
            Seq<Seq<u8>>,
            StreamFault,
        >(items),
    decreases items.len(),
{
    reveal(witness_elements);
    if items.len() == 0 {
        assert(items =~= Seq::<Seq<u8>>::empty());
    } else {
        let a = items[0];
        let tail = items.drop_first();
        assert(items =~= seq![a] + tail);
        lemma_items_bytes_cons(a, tail);
        assert forall|i: int| 0 <= i < tail.len() implies (#[trigger] tail[i]).len() <= 520 by {
            assert(tail[i] == items[i + 1]);
        }
        lemma_witness_elements(tail, field_type);
        let s = items_bytes(items);
        lemma_varint_roundtrip(a.len() as u64, a + items_bytes(tail));
        let m = varint_bytes(a.len() as u64).len();
        assert(s =~= varint_bytes(a.len() as u64) + (a + items_bytes(tail)));
        assert(s.skip((m + a.len()) as int) =~= items_bytes(tail));
        assert(s.subrange(m as int, (m + a.len()) as int) =~= a);
        assert(seq![a] + tail =~= items);
    }
}

/// Reading an encoded fitting stack gives it back, and its encoding fits a
/// TLV value.
pub proof fn lemma_witness_roundtrip(items: Seq<Seq<u8>>, field_type: u64)
    requires
        witness_fits(items),
    ensures
        witness_of(counted_bytes(items), field_type) == Ok::<Seq<Seq<u8>>, StreamFault>(items),
        counted_bytes(items).len() <= MAX_TLV_VALUE_LENGTH,
{
    let body = items_bytes(items);
    lemma_varint_roundtrip(items.len() as u64, body);
    lemma_witness_elements(items, field_type);
    lemma_items_bytes_len(items);
    let n = varint_bytes(items.len() as u64).len();
    assert(counted_bytes(items).skip(n as int) =~= body);
}

/// A fitting witness put in a builder's fields at type `t` and built comes
/// back from a reader of the bytes at `t`, and a type that no field has reads
/// as absent.
pub proof fn lemma_witness_field_read_back(
    fields: Map<u64, Seq<u8>>,
    t: u64,
    w: Seq<Seq<u8>>,
    t2: u64,
)
    requires
        fields.dom().finite(),
        crate::tlv::map_within_limit(fields),
        witness_fits(w),
        t2 != t,
        !fields.contains_key(t2),
    ensures
        ({
            let m = fields.insert(t, counted_bytes(w));
            &&& crate::tlv::stream_parse(crate::tlv::map_bytes(m), None) == Ok::<
                Seq<(u64, Seq<u8>)>,
                StreamFault,
            >(crate::tlv::sorted_entries(m))
            &&& crate::tlv::entries_map(crate::tlv::sorted_entries(m)) == m
            &&& crate::tlv::optional(m, t, |d: Seq<u8>| witness_of(d, t)) == Ok::<
                Option<Seq<Seq<u8>>>,
                StreamFault,
            >(Some(w))
            &&& crate::tlv::optional(m, t2, |d: Seq<u8>| witness_of(d, t2)) == Ok::<
                Option<Seq<Seq<u8>>>,
                StreamFault,
            >(None)
        }),
{
    let m = fields.insert(t, counted_bytes(w));
    lemma_witness_roundtrip(w, t);
    assert(m.dom() =~= fields.dom().insert(t));
    crate::tlv::lemma_finite_map_sorted(m);
    assert(crate::tlv::map_within_limit(m)) by {
        assert forall|k: u64| #[trigger] m.contains_key(k) implies m[k].len()
            <= crate::tlv::MAX_TLV_VALUE_LENGTH by {
            if k != t {
                assert(fields.contains_key(k));
            }
        }
    }
    crate::tlv::lemma_map_roundtrip(m);
    assert(m[t] == counted_bytes(w));
    assert(!m.contains_key(t2));
}

// ============================================================================
// Quorum members
// ============================================================================

/// Members the `QuorumBegin` encoding carries: valid 33-byte keys and ledger
/// identifiers of at most 255 UTF-8 bytes.
pub open spec fn members_fit(ms: Seq<(Seq<u8>, Seq<char>)>) -> bool {
    forall|i: int|
        0 <= i < ms.len() ==> {
            &&& is_valid_key((#[trigger] ms[i]).0)
            &&& ms[i].0.len() == 33
            &&& encode_utf8(ms[i].1).len() <= 255
        }
}

/// The concatenated keys, split at the first member.
proof fn lemma_member_keys_cons(x: (Seq<u8>, Seq<char>), rest: Seq<(Seq<u8>, Seq<char>)>)
    ensures
        member_keys_bytes(seq![x] + rest) == x.0 + member_keys_bytes(rest),
    decreases rest.len(),
{
    let s = seq![x] + rest;
    if rest.len() == 0 {
        assert(s.drop_last() =~= Seq::<(Seq<u8>, Seq<char>)>::empty());
        assert(rest =~= Seq::<(Seq<u8>, Seq<char>)>::empty());
        assert(member_keys_bytes(s) =~= x.0 + member_keys_bytes(rest));
    } else {
        assert(s.drop_last() =~= seq![x] + rest.drop_last());
        assert(s.last() == rest.last());
        lemma_member_keys_cons(x, rest.drop_last());
        assert(member_keys_bytes(s) =~= x.0 + member_keys_bytes(rest));
    }
}

/// The ledger identifier entries, split at the first member.
proof fn lemma_member_lids_cons(x: (Seq<u8>, Seq<char>), rest: Seq<(Seq<u8>, Seq<char>)>)
    ensures
        member_lids_bytes(seq![x] + rest) == seq![(encode_utf8(x.1).len() as u8)] + encode_utf8(x.1)
            + member_lids_bytes(rest),
    decreases rest.len(),
{
    let s = seq![x] + rest;
    if rest.len() == 0 {
        assert(s.drop_last() =~= Seq::<(Seq<u8>, Seq<char>)>::empty());
        assert(rest =~= Seq::<(Seq<u8>, Seq<char>)>::empty());
        assert(member_lids_bytes(s) =~= seq![(encode_utf8(x.1).len() as u8)] + encode_utf8(x.1)
            + member_lids_bytes(rest));
    } else {
        assert(s.drop_last() =~= seq![x] + rest.drop_last());
        assert(s.last() == rest.last());
        lemma_member_lids_cons(x, rest.drop_last());
        assert(member_lids_bytes(s) =~= seq![(encode_utf8(x.1).len() as u8)] + encode_utf8(x.1)
            + member_lids_bytes(rest));
    }
}

/// Reading the concatenated keys of fitting members gives the keys back.
proof fn lemma_member_keys_roundtrip(ms: Seq<(Seq<u8>, Seq<char>)>)
    requires
        members_fit(ms),
    ensures
        parse_member_keys(member_keys_bytes(ms)) == ms.map_values(
            |x: (Seq<u8>, Seq<char>)| x.0,
        ),
        member_keys_bytes(ms).len() == 33 * ms.len(),
    decreases ms.len(),
{
    if ms.len() == 0 {
        assert(ms.map_values(|x: (Seq<u8>, Seq<char>)| x.0) =~= Seq::<Seq<u8>>::empty());
    } else {
        let x = ms[0];
        let tail = ms.drop_first();
        assert(ms =~= seq![x] + tail);
        lemma_member_keys_cons(x, tail);
        assert(members_fit(tail)) by {
            assert forall|i: int| 0 <= i < tail.len() implies {
                &&& is_valid_key((#[trigger] tail[i]).0)
                &&& tail[i].0.len() == 33
                &&& encode_utf8(tail[i].1).len() <= 255
            } by {
                assert(tail[i] == ms[i + 1]);
            }
        }
        lemma_member_keys_roundtrip(tail);
        let b = member_keys_bytes(ms);
        assert(b.subrange(0, 33) =~= x.0);
        assert(b.skip(33) =~= member_keys_bytes(tail));
        assert(ms.map_values(|x: (Seq<u8>, Seq<char>)| x.0) =~= seq![x.0] + tail.map_values(
            |x: (Seq<u8>, Seq<char>)| x.0,
        ));
    }
}

/// Reading the ledger identifier entries of fitting members gives the
/// identifiers back.
proof fn lemma_member_lids_roundtrip(ms: Seq<(Seq<u8>, Seq<char>)>)
    requires
        members_fit(ms),
    ensures
        parse_member_lids(member_lids_bytes(ms)) == ms.map_values(
            |x: (Seq<u8>, Seq<char>)| x.1,
        ),
        member_lids_bytes(ms).len() <= 256 * ms.len(),
    decreases ms.len(),
{
    if ms.len() == 0 {
        assert(ms.map_values(|x: (Seq<u8>, Seq<char>)| x.1) =~= Seq::<Seq<char>>::empty());
    } else {
        let x = ms[0];
        let tail = ms.drop_first();
        assert(ms =~= seq![x] + tail);
        lemma_member_lids_cons(x, tail);
        assert(members_fit(tail)) by {
            assert forall|i: int| 0 <= i < tail.len() implies {
                &&& is_valid_key((#[trigger] tail[i]).0)
                &&& tail[i].0.len() == 33
                &&& encode_utf8(tail[i].1).len() <= 255
            } by {
                assert(tail[i] == ms[i + 1]);
            }
        }
        lemma_member_lids_roundtrip(tail);
        let e = encode_utf8(x.1);
        assert(e.len() <= 255) by {
            assert(ms[0] == x);
        }
        let b = member_lids_bytes(ms);
        assert(b[0] == e.len());
        assert(b.subrange(1, 1 + b[0]) =~= e);
        assert(b.skip(1 + b[0]) =~= member_lids_bytes(tail));
        encode_utf8_valid_utf8(x.1);
        encode_utf8_decode_utf8(x.1);
        assert(lossy_text(e) == x.1);
        assert(ms.map_values(|x: (Seq<u8>, Seq<char>)| x.1) =~= seq![x.1] + tail.map_values(
            |x: (Seq<u8>, Seq<char>)| x.1,
        ));
    }
}

/// The members read back from the `QuorumBegin` records of fitting members:
/// the key chunks, and the ledger identifier entries where some member has
/// one.
proof fn lemma_members_roundtrip(ms: Seq<(Seq<u8>, Seq<char>)>)
    requires
        members_fit(ms),
    ensures
        zip_members(
            parse_member_keys(member_keys_bytes(ms)),
            parse_member_lids(
                if any_member_lid(ms) {
                    member_lids_bytes(ms)
                } else {
                    seq![]
                },
            ),
        ) == ms,
        member_keys_bytes(ms).len() == 33 * ms.len(),
        member_lids_bytes(ms).len() <= 256 * ms.len(),
{
    lemma_member_keys_roundtrip(ms);
    lemma_member_lids_roundtrip(ms);
    let keys = ms.map_values(|x: (Seq<u8>, Seq<char>)| x.0);
    if any_member_lid(ms) {
        assert(zip_members(keys, ms.map_values(|x: (Seq<u8>, Seq<char>)| x.1)) =~= ms);
    } else {
        let none: Seq<u8> = seq![];
        assert(parse_member_lids(none) =~= Seq::<Seq<char>>::empty());
        assert forall|i: int| 0 <= i < ms.len() implies (#[trigger] ms[i]).1 =~= Seq::<char>::empty() by {
            if ms[i].1.len() > 0 {
                assert(any_member_lid(ms));
            }
        }
        assert(zip_members(keys, Seq::<Seq<char>>::empty()) =~= ms);
    }
}

// ============================================================================
// The roundtrip
// ============================================================================

/// The fields of a `LedgerOpen` operation decode to it.
proof fn lemma_fields_ledger_open(v: OperationView)
    requires
        v is LedgerOpen,
        is_valid_key(v->LedgerOpen_operator_id),
    ensures
        operation_from_fields(operation_fields(v)) == Ok::<OperationView, StreamFault>(v),
{
    encode_utf8_valid_utf8(v->LedgerOpen_reserves_id);
    encode_utf8_decode_utf8(v->LedgerOpen_reserves_id);
    lemma_u32_be(v->LedgerOpen_genesis_block, seq![]);
    lemma_u64_be(v->LedgerOpen_reserves_amount, seq![]);
    lemma_u64_be(v->LedgerOpen_collateral_amount, seq![]);
}

/// The fields of a `QuorumBegin` operation decode to it.
proof fn lemma_fields_quorum_begin(v: OperationView)
    requires
        v is QuorumBegin,
        v->QuorumBegin_spending_txid.len() == 32,
        v->QuorumBegin_new_outpoint_txid.len() == 32,
        v->QuorumBegin_ledger_hash.len() == 32,
        members_fit(v->QuorumBegin_quorum_members),
    ensures
        operation_from_fields(operation_fields(v)) == Ok::<OperationView, StreamFault>(v),
{
    encode_utf8_valid_utf8(v->QuorumBegin_reserves_id);
    encode_utf8_decode_utf8(v->QuorumBegin_reserves_id);
    lemma_u32_be(v->QuorumBegin_new_outpoint_vout, seq![]);
    lemma_u64_be(v->QuorumBegin_amount, seq![]);
    lemma_u32_be(v->QuorumBegin_quorum_expiry, seq![]);
    lemma_members_roundtrip(v->QuorumBegin_quorum_members);
    lemma_u64_be(v->QuorumBegin_collateral_amount, seq![]);
}

/// The fields of a `DepositOpen` operation decode to it.
#[verifier::spinoff_prover]
#[verifier::rlimit(100)]
proof fn lemma_fields_deposit_open(v: OperationView)
    requires
        v is DepositOpen,
        v->DepositOpen_deposit_id.len() == 16,
        v->DepositOpen_payment_hash matches Some(x) ==> x.len() == 32,
        v->DepositOpen_cosigner_guarantee_signature matches Some(x) ==> x.len() == 64,
    ensures
        operation_from_fields(operation_fields(v)) == Ok::<OperationView, StreamFault>(v),
{
    broadcast use lemma_put_opt_lookup;

    encode_utf8_valid_utf8(v->DepositOpen_descriptor);
    encode_utf8_decode_utf8(v->DepositOpen_descriptor);
    if let Some(x) = v->DepositOpen_fees {
        lemma_fee_roundtrip(x);
    }
    if let Some(x) = v->DepositOpen_transfer_fees {
        lemma_transfer_fee_roundtrip(x);
    }
    if let Some(x) = v->DepositOpen_invoice {
        encode_utf8_valid_utf8(x);
        encode_utf8_decode_utf8(x);
    }
    if let Some(x) = v->DepositOpen_fee_change_after_blocks {
        lemma_u32_be(x, seq![]);
    }
    if let Some(x) = v->DepositOpen_fee_change_notice_blocks {
        lemma_u32_be(x, seq![]);
    }
    if let Some(x) = v->DepositOpen_fee_change_limit_bps {
        lemma_u16_be(x, seq![]);
    }
}

/// The fields of a `DepositClose` operation decode to it.
proof fn lemma_fields_deposit_close(v: OperationView)
    requires
        v is DepositClose,
        v->DepositClose_deposit_id.len() == 16,
    ensures
        operation_from_fields(operation_fields(v)) == Ok::<OperationView, StreamFault>(v),
{
}

/// The fields of a `FeeChange` operation decode to it.
proof fn lemma_fields_fee_change(v: OperationView)
    requires
        v is FeeChange,
        v->FeeChange_deposit_id.len() == 16,
    ensures
        operation_from_fields(operation_fields(v)) == Ok::<OperationView, StreamFault>(v),
{
    lemma_fee_roundtrip(v->FeeChange_new_fees);
    lemma_u32_be(v->FeeChange_effective_block, seq![]);
}

/// The fields of a `DepositKeyRotate` operation decode to it.
proof fn lemma_fields_deposit_key_rotate(v: OperationView)
    requires
        v is DepositKeyRotate,
        v->DepositKeyRotate_deposit_id.len() == 16,
        witness_fits(v->DepositKeyRotate_witness),
    ensures
        operation_from_fields(operation_fields(v)) == Ok::<OperationView, StreamFault>(v),
{
    encode_utf8_valid_utf8(v->DepositKeyRotate_new_descriptor);
    encode_utf8_decode_utf8(v->DepositKeyRotate_new_descriptor);
    lemma_witness_roundtrip(v->DepositKeyRotate_witness, op_fields::WITNESS);
}

/// The fields of a `InvoiceCredit` operation decode to it.
proof fn lemma_fields_invoice_credit(v: OperationView)
    requires
        v is InvoiceCredit,
        v->InvoiceCredit_payment_hash.len() == 32,
        v->InvoiceCredit_deposit_id.len() == 16,
    ensures
        operation_from_fields(operation_fields(v)) == Ok::<OperationView, StreamFault>(v),
{
    lemma_u64_be(v->InvoiceCredit_amount, seq![]);
    encode_utf8_valid_utf8(v->InvoiceCredit_invoice_id);
    encode_utf8_decode_utf8(v->InvoiceCredit_invoice_id);
    lemma_u64_be(v->InvoiceCredit_sequence_number, seq![]);
}

/// The fields of a `InvoiceLock` operation decode to it.
proof fn lemma_fields_invoice_lock(v: OperationView)
    requires
        v is InvoiceLock,
        v->InvoiceLock_deposit_id.len() == 16,
        v->InvoiceLock_payment_id.len() == 32,
        witness_fits(v->InvoiceLock_witness),
    ensures
        operation_from_fields(operation_fields(v)) == Ok::<OperationView, StreamFault>(v),
{
    lemma_u64_be(v->InvoiceLock_amount, seq![]);
    lemma_u64_be(v->InvoiceLock_sequence_number, seq![]);
    lemma_witness_roundtrip(v->InvoiceLock_witness, op_fields::WITNESS);
}

/// The fields of a `InvoiceFail` operation decode to it.
proof fn lemma_fields_invoice_fail(v: OperationView)
    requires
        v is InvoiceFail,
        v->InvoiceFail_deposit_id.len() == 16,
        v->InvoiceFail_payment_id.len() == 32,
    ensures
        operation_from_fields(operation_fields(v)) == Ok::<OperationView, StreamFault>(v),
{
    lemma_u64_be(v->InvoiceFail_amount, seq![]);
    lemma_u64_be(v->InvoiceFail_sequence_number, seq![]);
}

/// The fields of a `InvoiceFulfill` operation decode to it.
proof fn lemma_fields_invoice_fulfill(v: OperationView)
    requires
        v is InvoiceFulfill,
        v->InvoiceFulfill_deposit_id.len() == 16,
        v->InvoiceFulfill_payment_id.len() == 32,
        witness_fits(v->InvoiceFulfill_witness),
        v->InvoiceFulfill_preimage.len() == 32,
    ensures
        operation_from_fields(operation_fields(v)) == Ok::<OperationView, StreamFault>(v),
{
    lemma_u64_be(v->InvoiceFulfill_amount, seq![]);
    lemma_u64_be(v->InvoiceFulfill_sequence_number, seq![]);
    lemma_witness_roundtrip(v->InvoiceFulfill_witness, op_fields::WITNESS);
}

/// The fields of a `OnchainCredit` operation decode to it.
proof fn lemma_fields_onchain_credit(v: OperationView)
    requires
        v is OnchainCredit,
        v->OnchainCredit_txid.len() == 32,
        v->OnchainCredit_deposit_id.len() == 16,
    ensures
        operation_from_fields(operation_fields(v)) == Ok::<OperationView, StreamFault>(v),
{
    lemma_u32_be(v->OnchainCredit_vout, seq![]);
    lemma_u64_be(v->OnchainCredit_amount, seq![]);
    encode_utf8_valid_utf8(v->OnchainCredit_funding_address);
    encode_utf8_decode_utf8(v->OnchainCredit_funding_address);
}

/// The fields of a `OnchainLock` operation decode to it.
proof fn lemma_fields_onchain_lock(v: OperationView)
    requires
        v is OnchainLock,
        v->OnchainLock_deposit_id.len() == 16,
        v->OnchainLock_withdrawal_id.len() == 32,
        witness_fits(v->OnchainLock_witness),
    ensures
        operation_from_fields(operation_fields(v)) == Ok::<OperationView, StreamFault>(v),
{
    lemma_u64_be(v->OnchainLock_amount, seq![]);
    lemma_u64_be(v->OnchainLock_fee_sats, seq![]);
    encode_utf8_valid_utf8(v->OnchainLock_destination_address);
    encode_utf8_decode_utf8(v->OnchainLock_destination_address);
    lemma_witness_roundtrip(v->OnchainLock_witness, op_fields::WITNESS);
}

/// The fields of a `OnchainFail` operation decode to it.
proof fn lemma_fields_onchain_fail(v: OperationView)
    requires
        v is OnchainFail,
        v->OnchainFail_deposit_id.len() == 16,
        v->OnchainFail_withdrawal_id.len() == 32,
    ensures
        operation_from_fields(operation_fields(v)) == Ok::<OperationView, StreamFault>(v),
{
}

/// The fields of a `OnchainFulfill` operation decode to it.
proof fn lemma_fields_onchain_fulfill(v: OperationView)
    requires
        v is OnchainFulfill,
        v->OnchainFulfill_deposit_id.len() == 16,
        v->OnchainFulfill_withdrawal_id.len() == 32,
        v->OnchainFulfill_txid.len() == 32,
    ensures
        operation_from_fields(operation_fields(v)) == Ok::<OperationView, StreamFault>(v),
{
    lemma_u64_be(v->OnchainFulfill_amount, seq![]);
    encode_utf8_valid_utf8(v->OnchainFulfill_destination_address);
    encode_utf8_decode_utf8(v->OnchainFulfill_destination_address);
}

/// The fields of a `TransferLock` operation decode to it.
proof fn lemma_fields_transfer_lock(v: OperationView)
    requires
        v is TransferLock,
        v->TransferLock_nonce.len() == 32,
        v->TransferLock_source_deposit_id.len() == 16,
        v->TransferLock_destination_deposit_id.len() == 16,
        v->TransferLock_transfer_id.len() == 32,
        witness_fits(v->TransferLock_witness),
    ensures
        operation_from_fields(operation_fields(v)) == Ok::<OperationView, StreamFault>(v),
{
    lemma_u64_be(v->TransferLock_amount, seq![]);
    lemma_u64_be(v->TransferLock_fee, seq![]);
    encode_utf8_valid_utf8(v->TransferLock_completion_script);
    encode_utf8_decode_utf8(v->TransferLock_completion_script);
    lemma_u32_be(v->TransferLock_timeout_height, seq![]);
    lemma_witness_roundtrip(v->TransferLock_witness, op_fields::WITNESS);
}

/// The fields of a `TransferComplete` operation decode to it.
proof fn lemma_fields_transfer_complete(v: OperationView)
    requires
        v is TransferComplete,
        v->TransferComplete_transfer_id.len() == 32,
        witness_fits(v->TransferComplete_script_witness),
    ensures
        operation_from_fields(operation_fields(v)) == Ok::<OperationView, StreamFault>(v),
{
    lemma_witness_roundtrip(v->TransferComplete_script_witness, op_fields::SCRIPT_WITNESS);
}

/// The fields of a `TransferFail` operation decode to it.
proof fn lemma_fields_transfer_fail(v: OperationView)
    requires
        v is TransferFail,
        v->TransferFail_transfer_id.len() == 32,
        v->TransferFail_block_hash.len() == 32,
    ensures
        operation_from_fields(operation_fields(v)) == Ok::<OperationView, StreamFault>(v),
{
}

/// The fields of a `QuorumAddMember` operation decode to it.
#[verifier::spinoff_prover]
#[verifier::rlimit(100)]
proof fn lemma_fields_quorum_add_member(v: OperationView)
    requires
        v is QuorumAddMember,
        is_valid_key(v->QuorumAddMember_quorum_member),
        v->QuorumAddMember_quorum_member_signature.len() == 64,
        v->QuorumAddMember_compensation_deposit_id matches Some(x) ==> x.len() == 16,
    ensures
        operation_from_fields(operation_fields(v)) == Ok::<OperationView, StreamFault>(v),
{
    broadcast use lemma_put_opt_lookup;

    let m = operation_fields(v);
    encode_utf8_valid_utf8(v->QuorumAddMember_member_ledger_id);
    encode_utf8_decode_utf8(v->QuorumAddMember_member_ledger_id);
    assert(m.contains_key(op_fields::COMPENSATION_DEPOSIT_ID) == v->QuorumAddMember_compensation_deposit_id is Some);
    assert(m.contains_key(op_fields::MIN_FEE_BPS) == v->QuorumAddMember_min_fee_bps is Some);
    if let Some(x) = v->QuorumAddMember_min_fee_bps {
        lemma_u16_be(x, seq![]);
        assert(m[op_fields::MIN_FEE_BPS] == u16_be(x));
    }
    assert(m.contains_key(op_fields::MIN_FEE_FIXED) == v->QuorumAddMember_min_fee_fixed is Some);
    if let Some(x) = v->QuorumAddMember_min_fee_fixed {
        lemma_u64_be(x, seq![]);
        assert(m[op_fields::MIN_FEE_FIXED] == u64_be(x));
    }
    assert(m.contains_key(op_fields::MAX_FEE_PERIOD) == v->QuorumAddMember_max_fee_period is Some);
    if let Some(x) = v->QuorumAddMember_max_fee_period {
        lemma_u32_be(x, seq![]);
        assert(m[op_fields::MAX_FEE_PERIOD] == u32_be(x));
    }
    assert(m.contains_key(op_fields::MEMBERSHIP_UNTIL) == v->QuorumAddMember_membership_until is Some);
    if let Some(x) = v->QuorumAddMember_membership_until {
        lemma_u32_be(x, seq![]);
        assert(m[op_fields::MEMBERSHIP_UNTIL] == u32_be(x));
    }
    assert(m.contains_key(op_fields::DISPUTE_RESPONSE_BLOCKS) == v->QuorumAddMember_dispute_response_blocks is Some);
    if let Some(x) = v->QuorumAddMember_dispute_response_blocks {
        lemma_u32_be(x, seq![]);
        assert(m[op_fields::DISPUTE_RESPONSE_BLOCKS] == u32_be(x));
    }
    assert(m.contains_key(op_fields::DISPUTE_ARM_BLOCKS) == v->QuorumAddMember_dispute_arm_blocks is Some);
    if let Some(x) = v->QuorumAddMember_dispute_arm_blocks {
        lemma_u32_be(x, seq![]);
        assert(m[op_fields::DISPUTE_ARM_BLOCKS] == u32_be(x));
    }
    assert(m.contains_key(op_fields::SERVICE_RESPONSE_BLOCKS) == v->QuorumAddMember_service_response_blocks is Some);
    if let Some(x) = v->QuorumAddMember_service_response_blocks {
        lemma_u32_be(x, seq![]);
        assert(m[op_fields::SERVICE_RESPONSE_BLOCKS] == u32_be(x));
    }
    assert(m.contains_key(op_fields::MAX_TRANSFER_TIMEOUT_BLOCKS) == v->QuorumAddMember_max_transfer_timeout_blocks is Some);
    if let Some(x) = v->QuorumAddMember_max_transfer_timeout_blocks {
        lemma_u32_be(x, seq![]);
        assert(m[op_fields::MAX_TRANSFER_TIMEOUT_BLOCKS] == u32_be(x));
    }
    assert(m.contains_key(op_fields::MAX_DESCRIPTOR_BYTES) == v->QuorumAddMember_max_descriptor_bytes is Some);
    if let Some(x) = v->QuorumAddMember_max_descriptor_bytes {
        lemma_u32_be(x, seq![]);
        assert(m[op_fields::MAX_DESCRIPTOR_BYTES] == u32_be(x));
    }
    assert(m.contains_key(op_fields::COMPENSATION_BPS) == v->QuorumAddMember_compensation_bps is Some);
    if let Some(x) = v->QuorumAddMember_compensation_bps {
        lemma_u16_be(x, seq![]);
        assert(m[op_fields::COMPENSATION_BPS] == u16_be(x));
    }
    assert(m.contains_key(op_fields::COMPENSATION_FREQUENCY_BLOCKS) == v->QuorumAddMember_compensation_frequency_blocks is Some);
    if let Some(x) = v->QuorumAddMember_compensation_frequency_blocks {
        lemma_u32_be(x, seq![]);
        assert(m[op_fields::COMPENSATION_FREQUENCY_BLOCKS] == u32_be(x));
    }
}

/// The fields of a `QuorumRemoveMember` operation decode to it.
proof fn lemma_fields_quorum_remove_member(v: OperationView)
    requires
        v is QuorumRemoveMember,
        is_valid_key(v->QuorumRemoveMember_quorum_member),
        v->QuorumRemoveMember_operator_signature.len() == 64,
    ensures
        operation_from_fields(operation_fields(v)) == Ok::<OperationView, StreamFault>(v),
{
}

/// The fields of a `QuorumJoin` operation decode to it.
proof fn lemma_fields_quorum_join(v: OperationView)
    requires
        v is QuorumJoin,
        is_valid_key(v->QuorumJoin_operator_id),
    ensures
        operation_from_fields(operation_fields(v)) == Ok::<OperationView, StreamFault>(v),
{
    encode_utf8_valid_utf8(v->QuorumJoin_ledger_id);
    encode_utf8_decode_utf8(v->QuorumJoin_ledger_id);
    lemma_u32_be(v->QuorumJoin_membership_expires, seq![]);
}

/// The fields of a `FeeCollect` operation decode to it.
proof fn lemma_fields_fee_collect(v: OperationView)
    requires
        v is FeeCollect,
        v->FeeCollect_deposit_id.len() == 16,
    ensures
        operation_from_fields(operation_fields(v)) == Ok::<OperationView, StreamFault>(v),
{
    lemma_u64_be(v->FeeCollect_amount, seq![]);
    lemma_u32_be(v->FeeCollect_block_height, seq![]);
}

/// The fields of a `DisputeEnter` operation decode to it.
proof fn lemma_fields_dispute_enter(v: OperationView)
    requires
        v is DisputeEnter,
    ensures
        operation_from_fields(operation_fields(v)) == Ok::<OperationView, StreamFault>(v),
{
    lemma_u64_be(v->DisputeEnter_last_valid_sequence, seq![]);
    encode_utf8_valid_utf8(v->DisputeEnter_reason);
    encode_utf8_decode_utf8(v->DisputeEnter_reason);
}

/// The fields of a `DisputeArmed` operation decode to it.
proof fn lemma_fields_dispute_armed(v: OperationView)
    requires
        v is DisputeArmed,
        v->DisputeArmed_commitment_hash.len() == 20,
        v->DisputeArmed_replacement_collateral matches Some(rc) ==> rc.0.len() == 32,
    ensures
        operation_from_fields(operation_fields(v)) == Ok::<OperationView, StreamFault>(v),
{
    lemma_u32_be(v->DisputeArmed_armed_block, seq![]);
    encode_utf8_valid_utf8(v->DisputeArmed_target_reserves);
    encode_utf8_decode_utf8(v->DisputeArmed_target_reserves);
    if let Some(rc) = v->DisputeArmed_replacement_collateral {
        lemma_u32_be(rc.1, seq![]);
        lemma_u64_be(rc.2, seq![]);
    }
}

/// The fields of a `DisputeAcquire` operation decode to it.
proof fn lemma_fields_dispute_acquire(v: OperationView)
    requires
        v is DisputeAcquire,
        is_valid_key(v->DisputeAcquire_new_custodian),
        v->DisputeAcquire_claim_txid.len() == 32,
    ensures
        operation_from_fields(operation_fields(v)) == Ok::<OperationView, StreamFault>(v),
{
    encode_utf8_valid_utf8(v->DisputeAcquire_new_reserves_address);
    encode_utf8_decode_utf8(v->DisputeAcquire_new_reserves_address);
}

/// The fields of a `DeliveryEmbed` operation decode to it.
proof fn lemma_fields_delivery_embed(v: OperationView)
    requires
        v is DeliveryEmbed,
        v->DeliveryEmbed_request_hash.len() == 32,
        v->DeliveryEmbed_target_ledger_id.len() == 32,
        is_valid_key(v->DeliveryEmbed_target_operator),
    ensures
        operation_from_fields(operation_fields(v)) == Ok::<OperationView, StreamFault>(v),
{
}

/// An operation whose TLV encoding decodes back to it: every record value
/// is at most 16 MiB (the decoder's limit), witness stacks keep to the
/// decoder's limits, quorum members fit their encoding, and every key is a
/// valid compressed key (as every [`crate::pubkey::PublicKey`] is).
pub open spec fn operation_fits(v: OperationView) -> bool {
    &&& map_within_limit(operation_fields(v))
    &&& match v {
        OperationView::LedgerOpen { operator_id, .. } => is_valid_key(operator_id),
        OperationView::QuorumBegin { quorum_members, .. } => members_fit(quorum_members),
        OperationView::DepositKeyRotate { witness, .. } => witness_fits(witness),
        OperationView::InvoiceLock { witness, .. } => witness_fits(witness),
        OperationView::InvoiceFulfill { witness, .. } => witness_fits(witness),
        OperationView::OnchainLock { witness, .. } => witness_fits(witness),
        OperationView::TransferLock { witness, .. } => witness_fits(witness),
        OperationView::TransferComplete { script_witness, .. } => witness_fits(script_witness),
        OperationView::QuorumAddMember { quorum_member, .. } => is_valid_key(quorum_member),
        OperationView::QuorumRemoveMember { quorum_member, .. } => is_valid_key(quorum_member),
        OperationView::QuorumJoin { operator_id, .. } => is_valid_key(operator_id),
        OperationView::DisputeAcquire { new_custodian, .. } => is_valid_key(new_custodian),
        OperationView::DeliveryEmbed { target_operator, .. } => is_valid_key(target_operator),
        _ => true,
    }
}

/// The field map of an operation's encoding decodes to the operation.
#[verifier::spinoff_prover]
#[verifier::rlimit(100)]
proof fn lemma_fields_roundtrip(op: LedgerOperation)
    requires
        operation_fits(op@),
    ensures
        operation_from_fields(operation_fields(op@)) == Ok::<OperationView, StreamFault>(op@),
{
    let v = op@;
    match op {
        LedgerOperation::LedgerOpen { .. } => lemma_fields_ledger_open(v),
        LedgerOperation::QuorumBegin { .. } => lemma_fields_quorum_begin(v),
        LedgerOperation::DepositOpen { .. } => lemma_fields_deposit_open(v),
        LedgerOperation::DepositClose { .. } => lemma_fields_deposit_close(v),
        LedgerOperation::FeeChange { .. } => lemma_fields_fee_change(v),
        LedgerOperation::DepositKeyRotate { .. } => lemma_fields_deposit_key_rotate(v),
        LedgerOperation::InvoiceCredit { .. } => lemma_fields_invoice_credit(v),
        LedgerOperation::InvoiceLock { .. } => lemma_fields_invoice_lock(v),
        LedgerOperation::InvoiceFail { .. } => lemma_fields_invoice_fail(v),
        LedgerOperation::InvoiceFulfill { .. } => lemma_fields_invoice_fulfill(v),
        LedgerOperation::OnchainCredit { .. } => lemma_fields_onchain_credit(v),
        LedgerOperation::OnchainLock { .. } => lemma_fields_onchain_lock(v),
        LedgerOperation::OnchainFail { .. } => lemma_fields_onchain_fail(v),
        LedgerOperation::OnchainFulfill { .. } => lemma_fields_onchain_fulfill(v),
        LedgerOperation::TransferLock { .. } => lemma_fields_transfer_lock(v),
        LedgerOperation::TransferComplete { .. } => lemma_fields_transfer_complete(v),
        LedgerOperation::TransferFail { .. } => lemma_fields_transfer_fail(v),
        LedgerOperation::QuorumAddMember { .. } => lemma_fields_quorum_add_member(v),
        LedgerOperation::QuorumRemoveMember { .. } => lemma_fields_quorum_remove_member(v),
        LedgerOperation::QuorumJoin { .. } => lemma_fields_quorum_join(v),
        LedgerOperation::FeeCollect { .. } => lemma_fields_fee_collect(v),
        LedgerOperation::DisputeEnter { .. } => lemma_fields_dispute_enter(v),
        LedgerOperation::DisputeArmed { .. } => lemma_fields_dispute_armed(v),
        LedgerOperation::DisputeAcquire { .. } => lemma_fields_dispute_acquire(v),
        LedgerOperation::DisputeYield => {},
        LedgerOperation::DeliveryEmbed { .. } => lemma_fields_delivery_embed(v),
        LedgerOperation::LedgerClose => {},
    }
}

/// Decoding the TLV encoding of an operation gives the operation back,
/// wherever the encoding can carry it.
pub proof fn lemma_operation_tlv_roundtrip(op: LedgerOperation)
    requires
        operation_fits(op@),
    ensures
        parse_with(op.tlv_bytes(), |m: Map<u64, Seq<u8>>| operation_from_fields(m)) == Ok::<
            OperationView,
            StreamFault,
        >(op@),
{
    broadcast use lemma_put_opt_finite;

    let m = operation_fields(op@);
    lemma_finite_map_sorted(m);
    lemma_map_roundtrip(m);
    lemma_fields_roundtrip(op);
}


/// The record under type 0 of an operation's encoding holds its
/// discriminant.
proof fn lemma_discriminant_record(v: OperationView)
    ensures
        operation_fields(v).contains_key(op_fields::DISCRIMINANT),
        operation_fields(v)[op_fields::DISCRIMINANT] == seq![discriminant_of(v)],
{
    broadcast use lemma_put_opt_lookup;

    match v {
        OperationView::LedgerOpen { .. } => {
            assert(operation_fields(v).contains_key(op_fields::DISCRIMINANT));
            assert(operation_fields(v)[op_fields::DISCRIMINANT] =~= seq![discriminant_of(v)]);
        },
        OperationView::QuorumBegin { .. } => {
            assert(operation_fields(v).contains_key(op_fields::DISCRIMINANT));
            assert(operation_fields(v)[op_fields::DISCRIMINANT] =~= seq![discriminant_of(v)]);
        },
        OperationView::DepositOpen { .. } => {
            assert(operation_fields(v).contains_key(op_fields::DISCRIMINANT));
            assert(operation_fields(v)[op_fields::DISCRIMINANT] =~= seq![discriminant_of(v)]);
        },
        OperationView::DepositClose { .. } => {
            assert(operation_fields(v).contains_key(op_fields::DISCRIMINANT));
            assert(operation_fields(v)[op_fields::DISCRIMINANT] =~= seq![discriminant_of(v)]);
        },
        OperationView::FeeChange { .. } => {
            assert(operation_fields(v).contains_key(op_fields::DISCRIMINANT));
            assert(operation_fields(v)[op_fields::DISCRIMINANT] =~= seq![discriminant_of(v)]);
        },
        OperationView::DepositKeyRotate { .. } => {
            assert(operation_fields(v).contains_key(op_fields::DISCRIMINANT));
            assert(operation_fields(v)[op_fields::DISCRIMINANT] =~= seq![discriminant_of(v)]);
        },
        OperationView::InvoiceCredit { .. } => {
            assert(operation_fields(v).contains_key(op_fields::DISCRIMINANT));
            assert(operation_fields(v)[op_fields::DISCRIMINANT] =~= seq![discriminant_of(v)]);
        },
        OperationView::InvoiceLock { .. } => {
            assert(operation_fields(v).contains_key(op_fields::DISCRIMINANT));
            assert(operation_fields(v)[op_fields::DISCRIMINANT] =~= seq![discriminant_of(v)]);
        },
        OperationView::InvoiceFail { .. } => {
            assert(operation_fields(v).contains_key(op_fields::DISCRIMINANT));
            assert(operation_fields(v)[op_fields::DISCRIMINANT] =~= seq![discriminant_of(v)]);
        },
        OperationView::InvoiceFulfill { .. } => {
            assert(operation_fields(v).contains_key(op_fields::DISCRIMINANT));
            assert(operation_fields(v)[op_fields::DISCRIMINANT] =~= seq![discriminant_of(v)]);
        },
        OperationView::OnchainCredit { .. } => {
            assert(operation_fields(v).contains_key(op_fields::DISCRIMINANT));
            assert(operation_fields(v)[op_fields::DISCRIMINANT] =~= seq![discriminant_of(v)]);
        },
        OperationView::OnchainLock { .. } => {
            assert(operation_fields(v).contains_key(op_fields::DISCRIMINANT));
            assert(operation_fields(v)[op_fields::DISCRIMINANT] =~= seq![discriminant_of(v)]);
        },
        OperationView::OnchainFail { .. } => {
            assert(operation_fields(v).contains_key(op_fields::DISCRIMINANT));
            assert(operation_fields(v)[op_fields::DISCRIMINANT] =~= seq![discriminant_of(v)]);
        },
        OperationView::OnchainFulfill { .. } => {
            assert(operation_fields(v).contains_key(op_fields::DISCRIMINANT));
            assert(operation_fields(v)[op_fields::DISCRIMINANT] =~= seq![discriminant_of(v)]);
        },
        OperationView::TransferLock { .. } => {
            assert(operation_fields(v).contains_key(op_fields::DISCRIMINANT));
            assert(operation_fields(v)[op_fields::DISCRIMINANT] =~= seq![discriminant_of(v)]);
        },
        OperationView::TransferComplete { .. } => {
            assert(operation_fields(v).contains_key(op_fields::DISCRIMINANT));
            assert(operation_fields(v)[op_fields::DISCRIMINANT] =~= seq![discriminant_of(v)]);
        },
        OperationView::TransferFail { .. } => {
            assert(operation_fields(v).contains_key(op_fields::DISCRIMINANT));
            assert(operation_fields(v)[op_fields::DISCRIMINANT] =~= seq![discriminant_of(v)]);
        },
        OperationView::QuorumAddMember { .. } => {
            assert(operation_fields(v).contains_key(op_fields::DISCRIMINANT));
            assert(operation_fields(v)[op_fields::DISCRIMINANT] =~= seq![discriminant_of(v)]);
        },
        OperationView::QuorumRemoveMember { .. } => {
            assert(operation_fields(v).contains_key(op_fields::DISCRIMINANT));
            assert(operation_fields(v)[op_fields::DISCRIMINANT] =~= seq![discriminant_of(v)]);
        },
        OperationView::QuorumJoin { .. } => {
            assert(operation_fields(v).contains_key(op_fields::DISCRIMINANT));
            assert(operation_fields(v)[op_fields::DISCRIMINANT] =~= seq![discriminant_of(v)]);
        },
        OperationView::FeeCollect { .. } => {
            assert(operation_fields(v).contains_key(op_fields::DISCRIMINANT));
            assert(operation_fields(v)[op_fields::DISCRIMINANT] =~= seq![discriminant_of(v)]);
        },
        OperationView::DisputeEnter { .. } => {
            assert(operation_fields(v).contains_key(op_fields::DISCRIMINANT));
            assert(operation_fields(v)[op_fields::DISCRIMINANT] =~= seq![discriminant_of(v)]);
        },
        OperationView::DisputeArmed { .. } => {
            assert(operation_fields(v).contains_key(op_fields::DISCRIMINANT));
            assert(operation_fields(v)[op_fields::DISCRIMINANT] =~= seq![discriminant_of(v)]);
        },
        OperationView::DisputeAcquire { .. } => {
            assert(operation_fields(v).contains_key(op_fields::DISCRIMINANT));
            assert(operation_fields(v)[op_fields::DISCRIMINANT] =~= seq![discriminant_of(v)]);
        },
        OperationView::DisputeYield => {
            assert(operation_fields(v).contains_key(op_fields::DISCRIMINANT));
            assert(operation_fields(v)[op_fields::DISCRIMINANT] =~= seq![discriminant_of(v)]);
        },
        OperationView::DeliveryEmbed { .. } => {
            assert(operation_fields(v).contains_key(op_fields::DISCRIMINANT));
            assert(operation_fields(v)[op_fields::DISCRIMINANT] =~= seq![discriminant_of(v)]);
        },
        OperationView::LedgerClose => {
            assert(operation_fields(v).contains_key(op_fields::DISCRIMINANT));
            assert(operation_fields(v)[op_fields::DISCRIMINANT] =~= seq![discriminant_of(v)]);
        },
    }
}

/// The message type read from the front of an operation's TLV encoding is
/// the operation's message type.
pub proof fn lemma_message_type_of_encoding(op: LedgerOperation)
    ensures
        message_type_in(op.tlv_bytes()) == operation_message_type(op@),
{
    broadcast use lemma_put_opt_finite, lemma_put_opt_lookup;

    let v = op@;
    let m = operation_fields(v);
    let d = discriminant_of(v);
    lemma_discriminant_record(v);
    lemma_finite_map_sorted(m);
    let es = sorted_entries(m);
    assert(keys_increasing(es) && crate::tlv::entries_map(es) == m);
    assert(es.len() > 0 && es[0].0 == 0) by {
        let i = choose|i: int| 0 <= i < es.len() && #[trigger] es[i].0 == 0u64;
        if i > 0 {
            assert(es[0].0 < es[i].0);
        }
    }
    lemma_entries_map_at(es, 0);
    let rest = es.drop_first();
    assert(es =~= seq![es[0]] + rest);
    lemma_entries_bytes_cons(es[0], rest);
    let b = entries_bytes(es);
    assert(b[0] == 0 && b[1] == 1 && b[2] == d);
    lemma_message_type_from_discriminant(v);
}

} // verus!
