//! The TLV encoding of ledger operations.
//!
//! The first record, type 0, holds the operation's discriminant; the other
//! records hold its fields.

use vstd::prelude::*;
use vstd::utf8::{decode_utf8, encode_utf8, valid_utf8};

use crate::bytes::{u16_be, u32_be, u64_be};
use crate::op_fields;
use crate::operation::{
    members_view, LedgerOperation, OperationView, QuorumMemberRef, ReplacementCollateral,
};
use crate::pubkey::{secp256k1_parse, PublicKey};
use crate::records::{fee_from_fields, parse_with, transfer_fee_from_fields};
use crate::text::{decimal_digits, string_from_utf8_lossy, text_with_number, utf8_lossy};
use crate::tlv::{
    bytes_of, counted_bytes, deposit_id_of, invalid_fault, map_bytes, optional, outcome_view,
    pubkey_of, required, string_of, u16_of, u32_of, u64_of, u8_of, witness_of, StreamFault,
    TlvBuilder, TlvDecode, TlvEncode, TlvError, TlvReader, TlvResult,
};
use crate::types::{FeeStructure, TransferFeeSchedule};

verus! {

/// The record holding the discriminant `d`.
pub open spec fn base_fields(d: u8) -> Map<u64, Seq<u8>> {
    Map::empty().insert(op_fields::DISCRIMINANT, seq![d])
}

/// `m`, with `k` set to `o`'s bytes where `o` is present.
#[verifier::opaque]
pub open spec fn put_opt(m: Map<u64, Seq<u8>>, k: u64, o: Option<Seq<u8>>) -> Map<u64, Seq<u8>> {
    match o {
        Some(b) => m.insert(k, b),
        None => m,
    }
}

/// A key of `put_opt(m, k, o)`: `k` where `o` is present, else a key of
/// `m` with its value.
pub broadcast proof fn lemma_put_opt_lookup(m: Map<u64, Seq<u8>>, k: u64, o: Option<Seq<u8>>, j: u64)
    ensures
        #[trigger] put_opt(m, k, o).contains_key(j) == (if j == k && o is Some {
            true
        } else {
            m.contains_key(j)
        }),
        put_opt(m, k, o).contains_key(j) ==> put_opt(m, k, o)[j] == (if j == k && o is Some {
            o->0
        } else {
            m[j]
        }),
{
    reveal(put_opt);
}

/// `put_opt` keeps a map finite.
pub broadcast proof fn lemma_put_opt_finite(m: Map<u64, Seq<u8>>, k: u64, o: Option<Seq<u8>>)
    ensures
        m.dom().finite() ==> #[trigger] put_opt(m, k, o).dom().finite(),
{
    reveal(put_opt);
}

/// An optional `u16`'s bytes.
pub open spec fn opt_u16_bytes(o: Option<u16>) -> Option<Seq<u8>> {
    match o {
        Some(v) => Some(u16_be(v)),
        None => None,
    }
}

/// An optional `u32`'s bytes.
pub open spec fn opt_u32_bytes(o: Option<u32>) -> Option<Seq<u8>> {
    match o {
        Some(v) => Some(u32_be(v)),
        None => None,
    }
}

/// An optional `u64`'s bytes.
pub open spec fn opt_u64_bytes(o: Option<u64>) -> Option<Seq<u8>> {
    match o {
        Some(v) => Some(u64_be(v)),
        None => None,
    }
}

/// An optional string's UTF-8 bytes.
pub open spec fn opt_text_bytes(o: Option<Seq<char>>) -> Option<Seq<u8>> {
    match o {
        Some(s) => Some(encode_utf8(s)),
        None => None,
    }
}

/// An optional fee structure's encoding.
pub open spec fn opt_fee_bytes(o: Option<FeeStructure>) -> Option<Seq<u8>> {
    match o {
        Some(f) => Some(f.tlv_bytes()),
        None => None,
    }
}

/// An optional transfer fee schedule's encoding.
pub open spec fn opt_transfer_fee_bytes(o: Option<TransferFeeSchedule>) -> Option<Seq<u8>> {
    match o {
        Some(f) => Some(f.tlv_bytes()),
        None => None,
    }
}

/// The members' keys, concatenated.
pub open spec fn member_keys_bytes(ms: Seq<(Seq<u8>, Seq<char>)>) -> Seq<u8>
    decreases ms.len(),
{
    if ms.len() == 0 {
        seq![]
    } else {
        member_keys_bytes(ms.drop_last()) + ms.last().0
    }
}

/// The members' ledger identifiers, each as its length in one byte
/// (truncated) and its UTF-8 bytes.
pub open spec fn member_lids_bytes(ms: Seq<(Seq<u8>, Seq<char>)>) -> Seq<u8>
    decreases ms.len(),
{
    if ms.len() == 0 {
        seq![]
    } else {
        member_lids_bytes(ms.drop_last()) + seq![(encode_utf8(ms.last().1).len() as u8)]
            + encode_utf8(ms.last().1)
    }
}

/// Some member has a non-empty ledger identifier.
pub open spec fn any_member_lid(ms: Seq<(Seq<u8>, Seq<char>)>) -> bool {
    exists|i: int| 0 <= i < ms.len() && #[trigger] ms[i].1.len() > 0
}

/// The field map of an encoded ledger operation.
pub open spec fn operation_fields(v: OperationView) -> Map<u64, Seq<u8>> {
    match v {
        OperationView::LedgerOpen {
            operator_id,
            reserves_id,
            genesis_block,
            reserves_amount,
            collateral_amount,
        } => base_fields(1).insert(op_fields::OPERATOR_ID, operator_id).insert(
            op_fields::RESERVES_ID,
            encode_utf8(reserves_id),
        ).insert(op_fields::GENESIS_BLOCK, u32_be(genesis_block)).insert(
            op_fields::RESERVES_AMOUNT,
            u64_be(reserves_amount),
        ).insert(op_fields::TOTAL_COLLATERAL, u64_be(collateral_amount)),
        OperationView::QuorumBegin {
            reserves_id,
            spending_txid,
            new_outpoint_txid,
            new_outpoint_vout,
            amount,
            quorum_expiry,
            ledger_hash,
            quorum_members,
            collateral_amount,
        } => {
            let m = base_fields(12).insert(op_fields::RESERVES_ID, encode_utf8(reserves_id)).insert(
                op_fields::SPENDING_TXID,
                spending_txid,
            ).insert(op_fields::NEW_OUTPOINT_TXID, new_outpoint_txid).insert(
                op_fields::NEW_OUTPOINT_VOUT,
                u32_be(new_outpoint_vout),
            ).insert(op_fields::AMOUNT, u64_be(amount)).insert(
                op_fields::QUORUM_EXPIRY,
                u32_be(quorum_expiry),
            ).insert(op_fields::LEDGER_HASH, ledger_hash).insert(
                op_fields::QUORUM_MEMBERS,
                member_keys_bytes(quorum_members),
            ).insert(op_fields::TOTAL_COLLATERAL, u64_be(collateral_amount));
            if any_member_lid(quorum_members) {
                m.insert(op_fields::QUORUM_MEMBER_LEDGER_IDS, member_lids_bytes(quorum_members))
            } else {
                m
            }
        },
        OperationView::DepositOpen {
            deposit_id,
            descriptor,
            fees,
            transfer_fees,
            payment_hash,
            invoice,
            cosigner_guarantee_signature,
            receive_requires_sig,
            fee_change_after_blocks,
            fee_change_notice_blocks,
            fee_change_limit_bps,
        } => {
            let m = base_fields(20).insert(op_fields::DEPOSIT_ID, deposit_id).insert(
                op_fields::DESCRIPTOR,
                encode_utf8(descriptor),
            );
            let m = put_opt(m, op_fields::FEES, opt_fee_bytes(fees));
            let m = put_opt(m, op_fields::TRANSFER_FEES, opt_transfer_fee_bytes(transfer_fees));
            let m = put_opt(m, op_fields::PAYMENT_HASH, payment_hash);
            let m = put_opt(m, op_fields::INVOICE, opt_text_bytes(invoice));
            let m = put_opt(m, op_fields::COSIGNER_SIG, cosigner_guarantee_signature);
            let m = if receive_requires_sig {
                m.insert(op_fields::RECEIVE_REQUIRES_SIG, seq![1u8])
            } else {
                m
            };
            let m = put_opt(m, op_fields::FEE_CHANGE_AFTER, opt_u32_bytes(fee_change_after_blocks));
            let m = put_opt(m, op_fields::FEE_CHANGE_NOTICE, opt_u32_bytes(fee_change_notice_blocks));
            put_opt(m, op_fields::FEE_CHANGE_LIMIT_BPS, opt_u16_bytes(fee_change_limit_bps))
        },
        OperationView::DepositClose { deposit_id } => base_fields(21).insert(
            op_fields::DEPOSIT_ID,
            deposit_id,
        ),
        OperationView::FeeChange { deposit_id, new_fees, effective_block } => base_fields(22).insert(
            op_fields::DEPOSIT_ID,
            deposit_id,
        ).insert(op_fields::NEW_FEES, new_fees.tlv_bytes()).insert(
            op_fields::EFFECTIVE_BLOCK,
            u32_be(effective_block),
        ),
        OperationView::DepositKeyRotate { deposit_id, new_descriptor, witness } => base_fields(
            23,
        ).insert(op_fields::DEPOSIT_ID, deposit_id).insert(
            op_fields::NEW_DESCRIPTOR,
            encode_utf8(new_descriptor),
        ).insert(op_fields::WITNESS, counted_bytes(witness)),
        OperationView::InvoiceCredit {
            payment_hash,
            deposit_id,
            amount,
            invoice_id,
            sequence_number,
        } => base_fields(30).insert(op_fields::PAYMENT_HASH, payment_hash).insert(
            op_fields::DEPOSIT_ID,
            deposit_id,
        ).insert(op_fields::AMOUNT, u64_be(amount)).insert(
            op_fields::INVOICE_ID,
            encode_utf8(invoice_id),
        ).insert(op_fields::SEQUENCE_NUMBER, u64_be(sequence_number)),
        OperationView::InvoiceLock { deposit_id, amount, payment_id, sequence_number, witness } =>
            base_fields(31).insert(op_fields::DEPOSIT_ID, deposit_id).insert(
            op_fields::AMOUNT,
            u64_be(amount),
        ).insert(op_fields::PAYMENT_ID, payment_id).insert(
            op_fields::SEQUENCE_NUMBER,
            u64_be(sequence_number),
        ).insert(op_fields::WITNESS, counted_bytes(witness)),
        OperationView::InvoiceFail { deposit_id, amount, payment_id, sequence_number } =>
            base_fields(32).insert(op_fields::DEPOSIT_ID, deposit_id).insert(
            op_fields::AMOUNT,
            u64_be(amount),
        ).insert(op_fields::PAYMENT_ID, payment_id).insert(
            op_fields::SEQUENCE_NUMBER,
            u64_be(sequence_number),
        ),
        OperationView::InvoiceFulfill {
            deposit_id,
            amount,
            payment_id,
            sequence_number,
            witness,
            preimage,
        } => base_fields(33).insert(op_fields::DEPOSIT_ID, deposit_id).insert(
            op_fields::AMOUNT,
            u64_be(amount),
        ).insert(op_fields::PAYMENT_ID, payment_id).insert(
            op_fields::SEQUENCE_NUMBER,
            u64_be(sequence_number),
        ).insert(op_fields::WITNESS, counted_bytes(witness)).insert(op_fields::PREIMAGE, preimage),
        OperationView::OnchainCredit { txid, vout, deposit_id, amount, funding_address } =>
            base_fields(35).insert(op_fields::TXID, txid).insert(op_fields::VOUT, u32_be(vout)).insert(
            op_fields::DEPOSIT_ID,
            deposit_id,
        ).insert(op_fields::AMOUNT, u64_be(amount)).insert(
            op_fields::FUNDING_ADDRESS,
            encode_utf8(funding_address),
        ),
        OperationView::OnchainLock {
            deposit_id,
            amount,
            fee_sats,
            destination_address,
            withdrawal_id,
            witness,
        } => base_fields(36).insert(op_fields::DEPOSIT_ID, deposit_id).insert(
            op_fields::AMOUNT,
            u64_be(amount),
        ).insert(op_fields::FEES, u64_be(fee_sats)).insert(
            op_fields::DESTINATION_ADDRESS,
            encode_utf8(destination_address),
        ).insert(op_fields::WITHDRAWAL_ID, withdrawal_id).insert(
            op_fields::WITNESS,
            counted_bytes(witness),
        ),
        OperationView::OnchainFail { deposit_id, withdrawal_id } => base_fields(37).insert(
            op_fields::DEPOSIT_ID,
            deposit_id,
        ).insert(op_fields::WITHDRAWAL_ID, withdrawal_id),
        OperationView::OnchainFulfill {
            deposit_id,
            withdrawal_id,
            amount,
            txid,
            destination_address,
        } => base_fields(38).insert(op_fields::DEPOSIT_ID, deposit_id).insert(
            op_fields::WITHDRAWAL_ID,
            withdrawal_id,
        ).insert(op_fields::AMOUNT, u64_be(amount)).insert(op_fields::TXID, txid).insert(
            op_fields::DESTINATION_ADDRESS,
            encode_utf8(destination_address),
        ),
        OperationView::TransferLock {
            nonce,
            source_deposit_id,
            destination_deposit_id,
            amount,
            fee,
            completion_script,
            timeout_height,
            transfer_id,
            witness,
        } => base_fields(70).insert(op_fields::NONCE, nonce).insert(
            op_fields::SOURCE_DEPOSIT_ID,
            source_deposit_id,
        ).insert(op_fields::DESTINATION_DEPOSIT_ID, destination_deposit_id).insert(
            op_fields::AMOUNT,
            u64_be(amount),
        ).insert(op_fields::FEES, u64_be(fee)).insert(
            op_fields::COMPLETION_SCRIPT,
            encode_utf8(completion_script),
        ).insert(op_fields::TIMEOUT_HEIGHT, u32_be(timeout_height)).insert(
            op_fields::TRANSFER_ID,
            transfer_id,
        ).insert(op_fields::WITNESS, counted_bytes(witness)),
        OperationView::TransferComplete { transfer_id, script_witness } => base_fields(71).insert(
            op_fields::TRANSFER_ID,
            transfer_id,
        ).insert(op_fields::SCRIPT_WITNESS, counted_bytes(script_witness)),
        OperationView::TransferFail { transfer_id, block_hash, reason } => base_fields(72).insert(
            op_fields::TRANSFER_ID,
            transfer_id,
        ).insert(op_fields::BLOCK_HASH, block_hash).insert(op_fields::FAIL_REASON, seq![reason]),
        OperationView::QuorumAddMember {
            quorum_member,
            quorum_member_signature,
            member_ledger_id,
            min_fee_bps,
            min_fee_fixed,
            max_fee_period,
            membership_until,
            dispute_response_blocks,
            dispute_arm_blocks,
            service_response_blocks,
            max_transfer_timeout_blocks,
            max_descriptor_bytes,
            compensation_bps,
            compensation_deposit_id,
            compensation_frequency_blocks,
        } => {
            let m = base_fields(43).insert(op_fields::QUORUM_MEMBER, quorum_member).insert(
                op_fields::QUORUM_MEMBER_SIG,
                quorum_member_signature,
            ).insert(op_fields::MEMBER_LEDGER_ID, encode_utf8(member_ledger_id));
            let m = put_opt(m, op_fields::MIN_FEE_BPS, opt_u16_bytes(min_fee_bps));
            let m = put_opt(m, op_fields::MIN_FEE_FIXED, opt_u64_bytes(min_fee_fixed));
            let m = put_opt(m, op_fields::MAX_FEE_PERIOD, opt_u32_bytes(max_fee_period));
            let m = put_opt(m, op_fields::MEMBERSHIP_UNTIL, opt_u32_bytes(membership_until));
            let m = put_opt(
                m,
                op_fields::DISPUTE_RESPONSE_BLOCKS,
                opt_u32_bytes(dispute_response_blocks),
            );
            let m = put_opt(m, op_fields::DISPUTE_ARM_BLOCKS, opt_u32_bytes(dispute_arm_blocks));
            let m = put_opt(
                m,
                op_fields::SERVICE_RESPONSE_BLOCKS,
                opt_u32_bytes(service_response_blocks),
            );
            let m = put_opt(
                m,
                op_fields::MAX_TRANSFER_TIMEOUT_BLOCKS,
                opt_u32_bytes(max_transfer_timeout_blocks),
            );
            let m = put_opt(m, op_fields::MAX_DESCRIPTOR_BYTES, opt_u32_bytes(max_descriptor_bytes));
            let m = put_opt(m, op_fields::COMPENSATION_BPS, opt_u16_bytes(compensation_bps));
            let m = put_opt(m, op_fields::COMPENSATION_DEPOSIT_ID, compensation_deposit_id);
            put_opt(
                m,
                op_fields::COMPENSATION_FREQUENCY_BLOCKS,
                opt_u32_bytes(compensation_frequency_blocks),
            )
        },
        OperationView::QuorumRemoveMember { quorum_member, operator_signature } => base_fields(
            44,
        ).insert(op_fields::QUORUM_MEMBER, quorum_member).insert(
            op_fields::OPERATOR_SIG,
            operator_signature,
        ),
        OperationView::QuorumJoin { operator_id, ledger_id, membership_expires } => base_fields(
            46,
        ).insert(op_fields::OPERATOR_ID, operator_id).insert(
            op_fields::RESERVES_ID,
            encode_utf8(ledger_id),
        ).insert(op_fields::MEMBERSHIP_EXPIRES, u32_be(membership_expires)),
        OperationView::FeeCollect { deposit_id, amount, block_height } => base_fields(50).insert(
            op_fields::DEPOSIT_ID,
            deposit_id,
        ).insert(op_fields::AMOUNT, u64_be(amount)).insert(
            op_fields::BLOCK_HEIGHT,
            u32_be(block_height),
        ),
        OperationView::DisputeEnter { last_valid_sequence, reason } => base_fields(54).insert(
            op_fields::LAST_VALID_SEQUENCE,
            u64_be(last_valid_sequence),
        ).insert(op_fields::REASON, encode_utf8(reason)),
        OperationView::DisputeArmed {
            armed_block,
            commitment_hash,
            target_reserves,
            replacement_collateral,
        } => {
            let m = base_fields(57).insert(op_fields::ARMED_BLOCK, u32_be(armed_block)).insert(
                op_fields::COMMITMENT_HASH,
                commitment_hash,
            ).insert(op_fields::TARGET_RESERVES, encode_utf8(target_reserves));
            match replacement_collateral {
                Some(rc) => m.insert(op_fields::REPLACEMENT_COLLATERAL_TXID, rc.0).insert(
                    op_fields::REPLACEMENT_COLLATERAL_VOUT,
                    u32_be(rc.1),
                ).insert(op_fields::REPLACEMENT_COLLATERAL_AMOUNT, u64_be(rc.2)),
                None => m,
            }
        },
        OperationView::DisputeAcquire { new_custodian, claim_txid, new_reserves_address } =>
            base_fields(55).insert(op_fields::NEW_CUSTODIAN, new_custodian).insert(
            op_fields::CLAIM_TXID,
            claim_txid,
        ).insert(op_fields::NEW_RESERVES_ADDRESS, encode_utf8(new_reserves_address)),
        OperationView::DisputeYield => base_fields(56),
        OperationView::DeliveryEmbed { request_hash, target_ledger_id, target_operator } =>
            base_fields(80).insert(op_fields::REQUEST_HASH, request_hash).insert(
            op_fields::TARGET_LEDGER_ID,
            target_ledger_id,
        ).insert(op_fields::TARGET_OPERATOR, target_operator),
        OperationView::LedgerClose => base_fields(60),
    }
}

/// The members' keys, concatenated.
fn member_keys(members: &Vec<QuorumMemberRef>) -> (r: Vec<u8>)
    ensures
        r@ == member_keys_bytes(members_view(members@)),
{
    let ghost ms = members_view(members@);
    let mut r: Vec<u8> = Vec::new();
    let mut i: usize = 0;
    while i < members.len()
        invariant
            i <= members@.len(),
            ms == members_view(members@),
            r@ == member_keys_bytes(ms.take(i as int)),
        decreases members@.len() - i,
    {
        let key = members[i].pubkey.serialize();
        crate::bytes::extend_bytes(&mut r, key.as_slice());
        assert(ms.take(i + 1).drop_last() =~= ms.take(i as int));
        i = i + 1;
    }
    assert(ms.take(i as int) =~= ms);
    r
}

/// Whether some member has a non-empty ledger identifier.
fn any_ledger_id(members: &Vec<QuorumMemberRef>) -> (r: bool)
    ensures
        r == any_member_lid(members_view(members@)),
{
    let ghost ms = members_view(members@);
    let mut i: usize = 0;
    while i < members.len()
        invariant
            i <= members@.len(),
            ms == members_view(members@),
            forall|j: int| 0 <= j < i ==> #[trigger] ms[j].1.len() == 0,
        decreases members@.len() - i,
    {
        if !members[i].member_ledger_id.as_str().is_empty() {
            assert(ms[i as int].1.len() > 0);
            return true;
        }
        i = i + 1;
    }
    false
}

/// The members' ledger identifiers, each preceded by its length in a byte.
fn member_ledger_ids(members: &Vec<QuorumMemberRef>) -> (r: Vec<u8>)
    ensures
        r@ == member_lids_bytes(members_view(members@)),
{
    let ghost ms = members_view(members@);
    let mut r: Vec<u8> = Vec::new();
    let mut i: usize = 0;
    while i < members.len()
        invariant
            i <= members@.len(),
            ms == members_view(members@),
            r@ == member_lids_bytes(ms.take(i as int)),
        decreases members@.len() - i,
    {
        let ghost before = r@;
        let lid = crate::text::utf8_bytes(members[i].member_ledger_id.as_str());
        r.push(lid.len() as u8);
        crate::bytes::extend_bytes(&mut r, lid.as_slice());
        assert(ms.take(i + 1).drop_last() =~= ms.take(i as int));
        assert(r@ =~= before + seq![(lid@.len() as u8)] + lid@);
        i = i + 1;
    }
    assert(ms.take(i as int) =~= ms);
    r
}

impl TlvEncode for LedgerOperation {
    open spec fn tlv_bytes(&self) -> Seq<u8> {
        map_bytes(operation_fields(self@))
    }

    fn tlv_encode(&self) -> (r: Vec<u8>) {
        proof {
            reveal(put_opt);
        }
        let builder = TlvBuilder::new().u8_field(op_fields::DISCRIMINANT, self.discriminant());
        let builder = match self {
            LedgerOperation::LedgerOpen {
                operator_id,
                reserves_id,
                genesis_block,
                reserves_amount,
                collateral_amount,
            } => builder.pubkey_field(op_fields::OPERATOR_ID, operator_id).string_field(
                op_fields::RESERVES_ID,
                reserves_id.as_str(),
            ).u32_field(op_fields::GENESIS_BLOCK, *genesis_block).u64_field(
                op_fields::RESERVES_AMOUNT,
                *reserves_amount,
            ).u64_field(op_fields::TOTAL_COLLATERAL, *collateral_amount),
            LedgerOperation::QuorumBegin {
                reserves_id,
                spending_txid,
                new_outpoint_txid,
                new_outpoint_vout,
                amount,
                quorum_expiry,
                ledger_hash,
                quorum_members,
                collateral_amount,
            } => {
                let members_bytes = member_keys(quorum_members);
                let any_lids = any_ledger_id(quorum_members);
                let b = builder.string_field(op_fields::RESERVES_ID, reserves_id.as_str()).bytes_field(
                    op_fields::SPENDING_TXID,
                    spending_txid.as_slice(),
                ).bytes_field(op_fields::NEW_OUTPOINT_TXID, new_outpoint_txid.as_slice()).u32_field(
                    op_fields::NEW_OUTPOINT_VOUT,
                    *new_outpoint_vout,
                ).u64_field(op_fields::AMOUNT, *amount).u32_field(
                    op_fields::QUORUM_EXPIRY,
                    *quorum_expiry,
                ).bytes_field(op_fields::LEDGER_HASH, ledger_hash.as_slice()).bytes_field(
                    op_fields::QUORUM_MEMBERS,
                    members_bytes.as_slice(),
                ).u64_field(op_fields::TOTAL_COLLATERAL, *collateral_amount);
                if any_lids {
                    let lids_bytes = member_ledger_ids(quorum_members);
                    b.bytes_field(op_fields::QUORUM_MEMBER_LEDGER_IDS, lids_bytes.as_slice())
                } else {
                    b
                }
            },
            LedgerOperation::DepositOpen {
                deposit_id,
                descriptor,
                fees,
                transfer_fees,
                payment_hash,
                invoice,
                cosigner_guarantee_signature,
                receive_requires_sig,
                fee_change_after_blocks,
                fee_change_notice_blocks,
                fee_change_limit_bps,
            } => {
                let mut b = builder.deposit_id_field(op_fields::DEPOSIT_ID, deposit_id).string_field(
                    op_fields::DESCRIPTOR,
                    descriptor.as_str(),
                );
                if let Some(f) = fees {
                    b = b.nested(op_fields::FEES, f);
                }
                if let Some(tf) = transfer_fees {
                    b = b.nested(op_fields::TRANSFER_FEES, tf);
                }
                if let Some(h) = payment_hash {
                    b = b.bytes_field(op_fields::PAYMENT_HASH, h.as_slice());
                }
                if let Some(inv) = invoice {
                    b = b.string_field(op_fields::INVOICE, inv.as_str());
                }
                if let Some(sig) = cosigner_guarantee_signature {
                    b = b.bytes_field(op_fields::COSIGNER_SIG, sig.as_slice());
                }
                if *receive_requires_sig {
                    b = b.u8_field(op_fields::RECEIVE_REQUIRES_SIG, 1);
                }
                if let Some(v) = fee_change_after_blocks {
                    b = b.u32_field(op_fields::FEE_CHANGE_AFTER, *v);
                }
                if let Some(v) = fee_change_notice_blocks {
                    b = b.u32_field(op_fields::FEE_CHANGE_NOTICE, *v);
                }
                if let Some(v) = fee_change_limit_bps {
                    b = b.u16_field(op_fields::FEE_CHANGE_LIMIT_BPS, *v);
                }
                b
            },
            LedgerOperation::DepositClose { deposit_id } => builder.deposit_id_field(
                op_fields::DEPOSIT_ID,
                deposit_id,
            ),
            LedgerOperation::FeeChange { deposit_id, new_fees, effective_block } =>
                builder.deposit_id_field(op_fields::DEPOSIT_ID, deposit_id).nested(
                op_fields::NEW_FEES,
                new_fees,
            ).u32_field(op_fields::EFFECTIVE_BLOCK, *effective_block),
            LedgerOperation::DepositKeyRotate { deposit_id, new_descriptor, witness } =>
                builder.deposit_id_field(op_fields::DEPOSIT_ID, deposit_id).string_field(
                op_fields::NEW_DESCRIPTOR,
                new_descriptor.as_str(),
            ).witness_field(op_fields::WITNESS, witness),
            LedgerOperation::InvoiceCredit {
                payment_hash,
                deposit_id,
                amount,
                invoice_id,
                sequence_number,
            } => builder.bytes_field(op_fields::PAYMENT_HASH, payment_hash.as_slice()).deposit_id_field(
                op_fields::DEPOSIT_ID,
                deposit_id,
            ).u64_field(op_fields::AMOUNT, *amount).string_field(
                op_fields::INVOICE_ID,
                invoice_id.as_str(),
            ).u64_field(op_fields::SEQUENCE_NUMBER, *sequence_number),
            LedgerOperation::InvoiceLock {
                deposit_id,
                amount,
                payment_id,
                sequence_number,
                witness,
            } => builder.deposit_id_field(op_fields::DEPOSIT_ID, deposit_id).u64_field(
                op_fields::AMOUNT,
                *amount,
            ).bytes_field(op_fields::PAYMENT_ID, payment_id.as_slice()).u64_field(
                op_fields::SEQUENCE_NUMBER,
                *sequence_number,
            ).witness_field(op_fields::WITNESS, witness),
            LedgerOperation::InvoiceFail { deposit_id, amount, payment_id, sequence_number } =>
                builder.deposit_id_field(op_fields::DEPOSIT_ID, deposit_id).u64_field(
                op_fields::AMOUNT,
                *amount,
            ).bytes_field(op_fields::PAYMENT_ID, payment_id.as_slice()).u64_field(
                op_fields::SEQUENCE_NUMBER,
                *sequence_number,
            ),
            LedgerOperation::InvoiceFulfill {
                deposit_id,
                amount,
                payment_id,
                sequence_number,
                witness,
                preimage,
            } => builder.deposit_id_field(op_fields::DEPOSIT_ID, deposit_id).u64_field(
                op_fields::AMOUNT,
                *amount,
            ).bytes_field(op_fields::PAYMENT_ID, payment_id.as_slice()).u64_field(
                op_fields::SEQUENCE_NUMBER,
                *sequence_number,
            ).witness_field(op_fields::WITNESS, witness).bytes_field(
                op_fields::PREIMAGE,
                preimage.as_slice(),
            ),
            LedgerOperation::OnchainCredit { txid, vout, deposit_id, amount, funding_address } =>
                builder.bytes_field(op_fields::TXID, txid.as_slice()).u32_field(
                op_fields::VOUT,
                *vout,
            ).deposit_id_field(op_fields::DEPOSIT_ID, deposit_id).u64_field(
                op_fields::AMOUNT,
                *amount,
            ).string_field(op_fields::FUNDING_ADDRESS, funding_address.as_str()),
            LedgerOperation::OnchainLock {
                deposit_id,
                amount,
                fee_sats,
                destination_address,
                withdrawal_id,
                witness,
            } => builder.deposit_id_field(op_fields::DEPOSIT_ID, deposit_id).u64_field(
                op_fields::AMOUNT,
                *amount,
            ).u64_field(op_fields::FEES, *fee_sats).string_field(
                op_fields::DESTINATION_ADDRESS,
                destination_address.as_str(),
            ).bytes_field(op_fields::WITHDRAWAL_ID, withdrawal_id.as_slice()).witness_field(
                op_fields::WITNESS,
                witness,
            ),
            LedgerOperation::OnchainFail { deposit_id, withdrawal_id } => builder.deposit_id_field(
                op_fields::DEPOSIT_ID,
                deposit_id,
            ).bytes_field(op_fields::WITHDRAWAL_ID, withdrawal_id.as_slice()),
            LedgerOperation::OnchainFulfill {
                deposit_id,
                withdrawal_id,
                amount,
                txid,
                destination_address,
            } => builder.deposit_id_field(op_fields::DEPOSIT_ID, deposit_id).bytes_field(
                op_fields::WITHDRAWAL_ID,
                withdrawal_id.as_slice(),
            ).u64_field(op_fields::AMOUNT, *amount).bytes_field(op_fields::TXID, txid.as_slice()).string_field(
                op_fields::DESTINATION_ADDRESS,
                destination_address.as_str(),
            ),
            LedgerOperation::TransferLock {
                nonce,
                source_deposit_id,
                destination_deposit_id,
                amount,
                fee,
                completion_script,
                timeout_height,
                transfer_id,
                witness,
            } => builder.bytes_field(op_fields::NONCE, nonce.as_slice()).deposit_id_field(
                op_fields::SOURCE_DEPOSIT_ID,
                source_deposit_id,
            ).deposit_id_field(op_fields::DESTINATION_DEPOSIT_ID, destination_deposit_id).u64_field(
                op_fields::AMOUNT,
                *amount,
            ).u64_field(op_fields::FEES, *fee).string_field(
                op_fields::COMPLETION_SCRIPT,
                completion_script.as_str(),
            ).u32_field(op_fields::TIMEOUT_HEIGHT, *timeout_height).bytes_field(
                op_fields::TRANSFER_ID,
                transfer_id.as_slice(),
            ).witness_field(op_fields::WITNESS, witness),
            LedgerOperation::TransferComplete { transfer_id, script_witness } => builder.bytes_field(
                op_fields::TRANSFER_ID,
                transfer_id.as_slice(),
            ).witness_field(op_fields::SCRIPT_WITNESS, script_witness),
            LedgerOperation::TransferFail { transfer_id, block_hash, reason } => builder.bytes_field(
                op_fields::TRANSFER_ID,
                transfer_id.as_slice(),
            ).bytes_field(op_fields::BLOCK_HASH, block_hash.as_slice()).u8_field(
                op_fields::FAIL_REASON,
                *reason,
            ),
            LedgerOperation::QuorumAddMember {
                quorum_member,
                quorum_member_signature,
                member_ledger_id,
                min_fee_bps,
                min_fee_fixed,
                max_fee_period,
                membership_until,
                dispute_response_blocks,
                dispute_arm_blocks,
                service_response_blocks,
                max_transfer_timeout_blocks,
                max_descriptor_bytes,
                compensation_bps,
                compensation_deposit_id,
                compensation_frequency_blocks,
            } => {
                let mut b = builder.pubkey_field(op_fields::QUORUM_MEMBER, quorum_member).bytes_field(
                    op_fields::QUORUM_MEMBER_SIG,
                    quorum_member_signature.as_slice(),
                ).string_field(op_fields::MEMBER_LEDGER_ID, member_ledger_id.as_str());
                if let Some(bps) = min_fee_bps {
                    b = b.u16_field(op_fields::MIN_FEE_BPS, *bps);
                }
                if let Some(fixed) = min_fee_fixed {
                    b = b.u64_field(op_fields::MIN_FEE_FIXED, *fixed);
                }
                if let Some(period) = max_fee_period {
                    b = b.u32_field(op_fields::MAX_FEE_PERIOD, *period);
                }
                if let Some(until) = membership_until {
                    b = b.u32_field(op_fields::MEMBERSHIP_UNTIL, *until);
                }
                if let Some(v) = dispute_response_blocks {
                    b = b.u32_field(op_fields::DISPUTE_RESPONSE_BLOCKS, *v);
                }
                if let Some(v) = dispute_arm_blocks {
                    b = b.u32_field(op_fields::DISPUTE_ARM_BLOCKS, *v);
                }
                if let Some(v) = service_response_blocks {
                    b = b.u32_field(op_fields::SERVICE_RESPONSE_BLOCKS, *v);
                }
                if let Some(v) = max_transfer_timeout_blocks {
                    b = b.u32_field(op_fields::MAX_TRANSFER_TIMEOUT_BLOCKS, *v);
                }
                if let Some(v) = max_descriptor_bytes {
                    b = b.u32_field(op_fields::MAX_DESCRIPTOR_BYTES, *v);
                }
                if let Some(v) = compensation_bps {
                    b = b.u16_field(op_fields::COMPENSATION_BPS, *v);
                }
                if let Some(v) = compensation_deposit_id {
                    b = b.deposit_id_field(op_fields::COMPENSATION_DEPOSIT_ID, v);
                }
                if let Some(v) = compensation_frequency_blocks {
                    b = b.u32_field(op_fields::COMPENSATION_FREQUENCY_BLOCKS, *v);
                }
                b
            },
            LedgerOperation::QuorumRemoveMember { quorum_member, operator_signature } =>
                builder.pubkey_field(op_fields::QUORUM_MEMBER, quorum_member).bytes_field(
                op_fields::OPERATOR_SIG,
                operator_signature.as_slice(),
            ),
            LedgerOperation::QuorumJoin { operator_id, ledger_id, membership_expires } =>
                builder.pubkey_field(op_fields::OPERATOR_ID, operator_id).string_field(
                op_fields::RESERVES_ID,
                ledger_id.as_str(),
            ).u32_field(op_fields::MEMBERSHIP_EXPIRES, *membership_expires),
            LedgerOperation::FeeCollect { deposit_id, amount, block_height } =>
                builder.deposit_id_field(op_fields::DEPOSIT_ID, deposit_id).u64_field(
                op_fields::AMOUNT,
                *amount,
            ).u32_field(op_fields::BLOCK_HEIGHT, *block_height),
            LedgerOperation::DisputeEnter { last_valid_sequence, reason } => builder.u64_field(
                op_fields::LAST_VALID_SEQUENCE,
                *last_valid_sequence,
            ).string_field(op_fields::REASON, reason.as_str()),
            LedgerOperation::DisputeArmed {
                armed_block,
                commitment_hash,
                target_reserves,
                replacement_collateral,
            } => {
                let b = builder.u32_field(op_fields::ARMED_BLOCK, *armed_block).bytes_field(
                    op_fields::COMMITMENT_HASH,
                    commitment_hash.as_slice(),
                ).string_field(op_fields::TARGET_RESERVES, target_reserves.as_str());
                match replacement_collateral {
                    Some(rc) => b.bytes_field(
                        op_fields::REPLACEMENT_COLLATERAL_TXID,
                        rc.txid.as_slice(),
                    ).u32_field(op_fields::REPLACEMENT_COLLATERAL_VOUT, rc.vout).u64_field(
                        op_fields::REPLACEMENT_COLLATERAL_AMOUNT,
                        rc.amount,
                    ),
                    None => b,
                }
            },
            LedgerOperation::DisputeAcquire { new_custodian, claim_txid, new_reserves_address } =>
                builder.pubkey_field(op_fields::NEW_CUSTODIAN, new_custodian).bytes_field(
                op_fields::CLAIM_TXID,
                claim_txid.as_slice(),
            ).string_field(op_fields::NEW_RESERVES_ADDRESS, new_reserves_address.as_str()),
            LedgerOperation::DeliveryEmbed { request_hash, target_ledger_id, target_operator } =>
                builder.bytes_field(op_fields::REQUEST_HASH, request_hash.as_slice()).bytes_field(
                op_fields::TARGET_LEDGER_ID,
                target_ledger_id.as_slice(),
            ).pubkey_field(op_fields::TARGET_OPERATOR, target_operator),
            LedgerOperation::DisputeYield => builder,
            LedgerOperation::LedgerClose => builder,
        };
        proof {
            assert(builder@ =~= operation_fields(self@));
        }
        builder.build()
    }
}


// ============================================================================
// Decoding
// ============================================================================

/// A one-byte flag field: set when present, one byte long and non-zero.
pub open spec fn flag_field(m: Map<u64, Seq<u8>>, k: u64) -> bool {
    match required(m, k, |d: Seq<u8>| u8_of(d)) {
        Ok(x) => x != 0,
        Err(_) => false,
    }
}

/// A failure reason field, 1 (timeout) where absent or malformed.
pub open spec fn reason_field(m: Map<u64, Seq<u8>>, k: u64) -> u8 {
    match required(m, k, |d: Seq<u8>| u8_of(d)) {
        Ok(x) => x,
        Err(_) => 1,
    }
}

/// An optional `u32`, 0 where absent.
pub open spec fn or_zero_u32(o: Option<u32>) -> u32 {
    match o {
        Some(v) => v,
        None => 0,
    }
}

/// An optional `u64`, 0 where absent.
pub open spec fn or_zero_u64(o: Option<u64>) -> u64 {
    match o {
        Some(v) => v,
        None => 0,
    }
}

/// The bytes of field `k`, or none where it is absent.
pub open spec fn raw_or_empty(m: Map<u64, Seq<u8>>, k: u64) -> Seq<u8> {
    if m.contains_key(k) {
        m[k]
    } else {
        seq![]
    }
}

/// The keys read from consecutive 33-byte chunks; chunks that are not
/// valid keys are skipped, and a short tail is ignored.
pub open spec fn parse_member_keys(b: Seq<u8>) -> Seq<Seq<u8>>
    decreases b.len(),
{
    if b.len() < 33 {
        seq![]
    } else {
        let rest = parse_member_keys(b.skip(33));
        match secp256k1_parse(b.subrange(0, 33)) {
            Some(k) => seq![k] + rest,
            None => rest,
        }
    }
}

/// The text of UTF-8 bytes, with invalid sequences replaced where they are
/// not valid UTF-8.
pub open spec fn lossy_text(b: Seq<u8>) -> Seq<char> {
    if valid_utf8(b) {
        decode_utf8(b)
    } else {
        utf8_lossy(b)
    }
}

/// The ledger identifiers read from length-prefixed entries, each decoded
/// lossily; an entry running past the end stops the reading.
pub open spec fn parse_member_lids(b: Seq<u8>) -> Seq<Seq<char>>
    decreases b.len(),
{
    if b.len() == 0 {
        seq![]
    } else if 1 + b[0] > b.len() {
        seq![]
    } else {
        seq![lossy_text(b.subrange(1, 1 + b[0]))] + parse_member_lids(b.skip(1 + b[0]))
    }
}

/// Each key paired with the ledger identifier at its position, or an empty
/// one where there are fewer identifiers.
pub open spec fn zip_members(keys: Seq<Seq<u8>>, lids: Seq<Seq<char>>) -> Seq<(Seq<u8>, Seq<char>)> {
    Seq::new(
        keys.len(),
        |i: int|
            (
                keys[i],
                if i < lids.len() {
                    lids[i]
                } else {
                    seq![]
                },
            ),
    )
}

/// The `QuorumBegin` operation held by decoded fields. Members never cause
/// an error: invalid key chunks are skipped.
pub open spec fn decoded_quorum_begin(m: Map<u64, Seq<u8>>) -> Result<OperationView, StreamFault> {
    let members = zip_members(
        parse_member_keys(raw_or_empty(m, op_fields::QUORUM_MEMBERS)),
        parse_member_lids(raw_or_empty(m, op_fields::QUORUM_MEMBER_LEDGER_IDS)),
    );
    let reserves_id = required(m, op_fields::RESERVES_ID, |d: Seq<u8>| string_of(d));
    let spending_txid = required(m, op_fields::SPENDING_TXID, |d: Seq<u8>| bytes_of(d, 32));
    let new_outpoint_txid = required(m, op_fields::NEW_OUTPOINT_TXID, |d: Seq<u8>| bytes_of(d, 32));
    let new_outpoint_vout = required(m, op_fields::NEW_OUTPOINT_VOUT, |d: Seq<u8>| u32_of(d));
    let amount = required(m, op_fields::AMOUNT, |d: Seq<u8>| u64_of(d));
    let quorum_expiry = required(m, op_fields::QUORUM_EXPIRY, |d: Seq<u8>| u32_of(d));
    let ledger_hash = required(m, op_fields::LEDGER_HASH, |d: Seq<u8>| bytes_of(d, 32));
    let collateral_amount = required(m, op_fields::TOTAL_COLLATERAL, |d: Seq<u8>| u64_of(d));
    if reserves_id is Err {
        Err(reserves_id->Err_0)
    } else if spending_txid is Err {
        Err(spending_txid->Err_0)
    } else if new_outpoint_txid is Err {
        Err(new_outpoint_txid->Err_0)
    } else if new_outpoint_vout is Err {
        Err(new_outpoint_vout->Err_0)
    } else if amount is Err {
        Err(amount->Err_0)
    } else if quorum_expiry is Err {
        Err(quorum_expiry->Err_0)
    } else if ledger_hash is Err {
        Err(ledger_hash->Err_0)
    } else if collateral_amount is Err {
        Err(collateral_amount->Err_0)
    } else {
        Ok(
            OperationView::QuorumBegin {
                reserves_id: reserves_id->Ok_0,
                spending_txid: spending_txid->Ok_0,
                new_outpoint_txid: new_outpoint_txid->Ok_0,
                new_outpoint_vout: new_outpoint_vout->Ok_0,
                amount: amount->Ok_0,
                quorum_expiry: quorum_expiry->Ok_0,
                ledger_hash: ledger_hash->Ok_0,
                quorum_members: members,
                collateral_amount: collateral_amount->Ok_0,
            },
        )
    }
}

/// The reason given when replacement collateral is partly present.
pub open spec fn partial_collateral_reason() -> Seq<char> {
    "DisputeArmed replacement_collateral fields must be all present or all absent"@
}

/// The `DisputeArmed` operation held by decoded fields: the replacement
/// collateral must be wholly present or wholly absent.
pub open spec fn decoded_dispute_armed(m: Map<u64, Seq<u8>>) -> Result<OperationView, StreamFault> {
    let armed_block = required(m, op_fields::ARMED_BLOCK, |d: Seq<u8>| u32_of(d));
    let commitment_hash = required(m, op_fields::COMMITMENT_HASH, |d: Seq<u8>| bytes_of(d, 20));
    let target_reserves = required(m, op_fields::TARGET_RESERVES, |d: Seq<u8>| string_of(d));
    let rc_txid = optional(m, op_fields::REPLACEMENT_COLLATERAL_TXID, |d: Seq<u8>| bytes_of(d, 32));
    let rc_vout = optional(m, op_fields::REPLACEMENT_COLLATERAL_VOUT, |d: Seq<u8>| u32_of(d));
    let rc_amount = optional(m, op_fields::REPLACEMENT_COLLATERAL_AMOUNT, |d: Seq<u8>| u64_of(d));
    if armed_block is Err {
        Err(armed_block->Err_0)
    } else if commitment_hash is Err {
        Err(commitment_hash->Err_0)
    } else if target_reserves is Err {
        Err(target_reserves->Err_0)
    } else if rc_txid is Err {
        Err(rc_txid->Err_0)
    } else if rc_vout is Err {
        Err(rc_vout->Err_0)
    } else if rc_amount is Err {
        Err(rc_amount->Err_0)
    } else {
        let rc = match (rc_txid->Ok_0, rc_vout->Ok_0, rc_amount->Ok_0) {
            (Some(t), Some(v), Some(a)) => Some(Some((t, v, a))),
            (None, None, None) => Some(None),
            _ => None,
        };
        match rc {
            Some(rc) => Ok(
                OperationView::DisputeArmed {
                    armed_block: armed_block->Ok_0,
                    commitment_hash: commitment_hash->Ok_0,
                    target_reserves: target_reserves->Ok_0,
                    replacement_collateral: rc,
                },
            ),
            None => Err(invalid_fault(op_fields::REPLACEMENT_COLLATERAL_TXID, partial_collateral_reason())),
        }
    }
}

/// The `LedgerOpen` operation held by decoded fields: its fields read in
/// order, the first failure reported.
pub open spec fn decoded_ledger_open(m: Map<u64, Seq<u8>>) -> Result<OperationView, StreamFault> {
    let operator_id = required(m, op_fields::OPERATOR_ID, |d: Seq<u8>| pubkey_of(d));
    let reserves_id = required(m, op_fields::RESERVES_ID, |d: Seq<u8>| string_of(d));
    let genesis_block = optional(m, op_fields::GENESIS_BLOCK, |d: Seq<u8>| u32_of(d));
    let reserves_amount = optional(m, op_fields::RESERVES_AMOUNT, |d: Seq<u8>| u64_of(d));
    let collateral_amount = optional(m, op_fields::TOTAL_COLLATERAL, |d: Seq<u8>| u64_of(d));
    if operator_id is Err {
        Err(operator_id->Err_0)
    } else if reserves_id is Err {
        Err(reserves_id->Err_0)
    } else if genesis_block is Err {
        Err(genesis_block->Err_0)
    } else if reserves_amount is Err {
        Err(reserves_amount->Err_0)
    } else if collateral_amount is Err {
        Err(collateral_amount->Err_0)
    } else {
        Ok(OperationView::LedgerOpen { operator_id: operator_id->Ok_0, reserves_id: reserves_id->Ok_0, genesis_block: or_zero_u32(genesis_block->Ok_0), reserves_amount: or_zero_u64(reserves_amount->Ok_0), collateral_amount: or_zero_u64(collateral_amount->Ok_0) })
    }
}

/// The `DepositOpen` operation held by decoded fields: its fields read in
/// order, the first failure reported.
pub open spec fn decoded_deposit_open(m: Map<u64, Seq<u8>>) -> Result<OperationView, StreamFault> {
    let deposit_id = required(m, op_fields::DEPOSIT_ID, |d: Seq<u8>| deposit_id_of(d, op_fields::DEPOSIT_ID));
    let descriptor = required(m, op_fields::DESCRIPTOR, |d: Seq<u8>| string_of(d));
    let fees = optional(m, op_fields::FEES, |d: Seq<u8>| parse_with(d, |f: Map<u64, Seq<u8>>| fee_from_fields(f)));
    let transfer_fees = optional(m, op_fields::TRANSFER_FEES, |d: Seq<u8>| parse_with(d, |f: Map<u64, Seq<u8>>| transfer_fee_from_fields(f)));
    let payment_hash = optional(m, op_fields::PAYMENT_HASH, |d: Seq<u8>| bytes_of(d, 32));
    let invoice = optional(m, op_fields::INVOICE, |d: Seq<u8>| string_of(d));
    let cosigner_guarantee_signature = optional(m, op_fields::COSIGNER_SIG, |d: Seq<u8>| bytes_of(d, 64));
    let receive_requires_sig = flag_field(m, op_fields::RECEIVE_REQUIRES_SIG);
    let fee_change_after_blocks = optional(m, op_fields::FEE_CHANGE_AFTER, |d: Seq<u8>| u32_of(d));
    let fee_change_notice_blocks = optional(m, op_fields::FEE_CHANGE_NOTICE, |d: Seq<u8>| u32_of(d));
    let fee_change_limit_bps = optional(m, op_fields::FEE_CHANGE_LIMIT_BPS, |d: Seq<u8>| u16_of(d));
    if deposit_id is Err {
        Err(deposit_id->Err_0)
    } else if descriptor is Err {
        Err(descriptor->Err_0)
    } else if fees is Err {
        Err(fees->Err_0)
    } else if transfer_fees is Err {
        Err(transfer_fees->Err_0)
    } else if payment_hash is Err {
        Err(payment_hash->Err_0)
    } else if invoice is Err {
        Err(invoice->Err_0)
    } else if cosigner_guarantee_signature is Err {
        Err(cosigner_guarantee_signature->Err_0)
    } else if fee_change_after_blocks is Err {
        Err(fee_change_after_blocks->Err_0)
    } else if fee_change_notice_blocks is Err {
        Err(fee_change_notice_blocks->Err_0)
    } else if fee_change_limit_bps is Err {
        Err(fee_change_limit_bps->Err_0)
    } else {
        Ok(OperationView::DepositOpen { deposit_id: deposit_id->Ok_0, descriptor: descriptor->Ok_0, fees: fees->Ok_0, transfer_fees: transfer_fees->Ok_0, payment_hash: payment_hash->Ok_0, invoice: invoice->Ok_0, cosigner_guarantee_signature: cosigner_guarantee_signature->Ok_0, receive_requires_sig, fee_change_after_blocks: fee_change_after_blocks->Ok_0, fee_change_notice_blocks: fee_change_notice_blocks->Ok_0, fee_change_limit_bps: fee_change_limit_bps->Ok_0 })
    }
}

/// The `DepositClose` operation held by decoded fields: its fields read in
/// order, the first failure reported.
pub open spec fn decoded_deposit_close(m: Map<u64, Seq<u8>>) -> Result<OperationView, StreamFault> {
    let deposit_id = required(m, op_fields::DEPOSIT_ID, |d: Seq<u8>| deposit_id_of(d, op_fields::DEPOSIT_ID));
    if deposit_id is Err {
        Err(deposit_id->Err_0)
    } else {
        Ok(OperationView::DepositClose { deposit_id: deposit_id->Ok_0 })
    }
}

/// The `FeeChange` operation held by decoded fields: its fields read in
/// order, the first failure reported.
pub open spec fn decoded_fee_change(m: Map<u64, Seq<u8>>) -> Result<OperationView, StreamFault> {
    let deposit_id = required(m, op_fields::DEPOSIT_ID, |d: Seq<u8>| deposit_id_of(d, op_fields::DEPOSIT_ID));
    let new_fees = required(m, op_fields::NEW_FEES, |d: Seq<u8>| parse_with(d, |f: Map<u64, Seq<u8>>| fee_from_fields(f)));
    let effective_block = optional(m, op_fields::EFFECTIVE_BLOCK, |d: Seq<u8>| u32_of(d));
    if deposit_id is Err {
        Err(deposit_id->Err_0)
    } else if new_fees is Err {
        Err(new_fees->Err_0)
    } else if effective_block is Err {
        Err(effective_block->Err_0)
    } else {
        Ok(OperationView::FeeChange { deposit_id: deposit_id->Ok_0, new_fees: new_fees->Ok_0, effective_block: or_zero_u32(effective_block->Ok_0) })
    }
}

/// The `DepositKeyRotate` operation held by decoded fields: its fields read in
/// order, the first failure reported.
pub open spec fn decoded_deposit_key_rotate(m: Map<u64, Seq<u8>>) -> Result<OperationView, StreamFault> {
    let deposit_id = required(m, op_fields::DEPOSIT_ID, |d: Seq<u8>| deposit_id_of(d, op_fields::DEPOSIT_ID));
    let new_descriptor = required(m, op_fields::NEW_DESCRIPTOR, |d: Seq<u8>| string_of(d));
    let witness = required(m, op_fields::WITNESS, |d: Seq<u8>| witness_of(d, op_fields::WITNESS));
    if deposit_id is Err {
        Err(deposit_id->Err_0)
    } else if new_descriptor is Err {
        Err(new_descriptor->Err_0)
    } else if witness is Err {
        Err(witness->Err_0)
    } else {
        Ok(OperationView::DepositKeyRotate { deposit_id: deposit_id->Ok_0, new_descriptor: new_descriptor->Ok_0, witness: witness->Ok_0 })
    }
}

/// The `InvoiceCredit` operation held by decoded fields: its fields read in
/// order, the first failure reported.
pub open spec fn decoded_invoice_credit(m: Map<u64, Seq<u8>>) -> Result<OperationView, StreamFault> {
    let payment_hash = required(m, op_fields::PAYMENT_HASH, |d: Seq<u8>| bytes_of(d, 32));
    let deposit_id = required(m, op_fields::DEPOSIT_ID, |d: Seq<u8>| deposit_id_of(d, op_fields::DEPOSIT_ID));
    let amount = required(m, op_fields::AMOUNT, |d: Seq<u8>| u64_of(d));
    let invoice_id = required(m, op_fields::INVOICE_ID, |d: Seq<u8>| string_of(d));
    let sequence_number = required(m, op_fields::SEQUENCE_NUMBER, |d: Seq<u8>| u64_of(d));
    if payment_hash is Err {
        Err(payment_hash->Err_0)
    } else if deposit_id is Err {
        Err(deposit_id->Err_0)
    } else if amount is Err {
        Err(amount->Err_0)
    } else if invoice_id is Err {
        Err(invoice_id->Err_0)
    } else if sequence_number is Err {
        Err(sequence_number->Err_0)
    } else {
        Ok(OperationView::InvoiceCredit { payment_hash: payment_hash->Ok_0, deposit_id: deposit_id->Ok_0, amount: amount->Ok_0, invoice_id: invoice_id->Ok_0, sequence_number: sequence_number->Ok_0 })
    }
}

/// The `InvoiceLock` operation held by decoded fields: its fields read in
/// order, the first failure reported.
pub open spec fn decoded_invoice_lock(m: Map<u64, Seq<u8>>) -> Result<OperationView, StreamFault> {
    let deposit_id = required(m, op_fields::DEPOSIT_ID, |d: Seq<u8>| deposit_id_of(d, op_fields::DEPOSIT_ID));
    let amount = required(m, op_fields::AMOUNT, |d: Seq<u8>| u64_of(d));
    let payment_id = required(m, op_fields::PAYMENT_ID, |d: Seq<u8>| bytes_of(d, 32));
    let sequence_number = required(m, op_fields::SEQUENCE_NUMBER, |d: Seq<u8>| u64_of(d));
    let witness = required(m, op_fields::WITNESS, |d: Seq<u8>| witness_of(d, op_fields::WITNESS));
    if deposit_id is Err {
        Err(deposit_id->Err_0)
    } else if amount is Err {
        Err(amount->Err_0)
    } else if payment_id is Err {
        Err(payment_id->Err_0)
    } else if sequence_number is Err {
        Err(sequence_number->Err_0)
    } else if witness is Err {
        Err(witness->Err_0)
    } else {
        Ok(OperationView::InvoiceLock { deposit_id: deposit_id->Ok_0, amount: amount->Ok_0, payment_id: payment_id->Ok_0, sequence_number: sequence_number->Ok_0, witness: witness->Ok_0 })
    }
}

/// The `InvoiceFail` operation held by decoded fields: its fields read in
/// order, the first failure reported.
pub open spec fn decoded_invoice_fail(m: Map<u64, Seq<u8>>) -> Result<OperationView, StreamFault> {
    let deposit_id = required(m, op_fields::DEPOSIT_ID, |d: Seq<u8>| deposit_id_of(d, op_fields::DEPOSIT_ID));
    let amount = required(m, op_fields::AMOUNT, |d: Seq<u8>| u64_of(d));
    let payment_id = required(m, op_fields::PAYMENT_ID, |d: Seq<u8>| bytes_of(d, 32));
    let sequence_number = required(m, op_fields::SEQUENCE_NUMBER, |d: Seq<u8>| u64_of(d));
    if deposit_id is Err {
        Err(deposit_id->Err_0)
    } else if amount is Err {
        Err(amount->Err_0)
    } else if payment_id is Err {
        Err(payment_id->Err_0)
    } else if sequence_number is Err {
        Err(sequence_number->Err_0)
    } else {
        Ok(OperationView::InvoiceFail { deposit_id: deposit_id->Ok_0, amount: amount->Ok_0, payment_id: payment_id->Ok_0, sequence_number: sequence_number->Ok_0 })
    }
}

/// The `InvoiceFulfill` operation held by decoded fields: its fields read in
/// order, the first failure reported.
pub open spec fn decoded_invoice_fulfill(m: Map<u64, Seq<u8>>) -> Result<OperationView, StreamFault> {
    let deposit_id = required(m, op_fields::DEPOSIT_ID, |d: Seq<u8>| deposit_id_of(d, op_fields::DEPOSIT_ID));
    let amount = required(m, op_fields::AMOUNT, |d: Seq<u8>| u64_of(d));
    let payment_id = required(m, op_fields::PAYMENT_ID, |d: Seq<u8>| bytes_of(d, 32));
    let sequence_number = required(m, op_fields::SEQUENCE_NUMBER, |d: Seq<u8>| u64_of(d));
    let witness = required(m, op_fields::WITNESS, |d: Seq<u8>| witness_of(d, op_fields::WITNESS));
    let preimage = required(m, op_fields::PREIMAGE, |d: Seq<u8>| bytes_of(d, 32));
    if deposit_id is Err {
        Err(deposit_id->Err_0)
    } else if amount is Err {
        Err(amount->Err_0)
    } else if payment_id is Err {
        Err(payment_id->Err_0)
    } else if sequence_number is Err {
        Err(sequence_number->Err_0)
    } else if witness is Err {
        Err(witness->Err_0)
    } else if preimage is Err {
        Err(preimage->Err_0)
    } else {
        Ok(OperationView::InvoiceFulfill { deposit_id: deposit_id->Ok_0, amount: amount->Ok_0, payment_id: payment_id->Ok_0, sequence_number: sequence_number->Ok_0, witness: witness->Ok_0, preimage: preimage->Ok_0 })
    }
}

/// The `OnchainCredit` operation held by decoded fields: its fields read in
/// order, the first failure reported.
pub open spec fn decoded_onchain_credit(m: Map<u64, Seq<u8>>) -> Result<OperationView, StreamFault> {
    let txid = required(m, op_fields::TXID, |d: Seq<u8>| bytes_of(d, 32));
    let vout = required(m, op_fields::VOUT, |d: Seq<u8>| u32_of(d));
    let deposit_id = required(m, op_fields::DEPOSIT_ID, |d: Seq<u8>| deposit_id_of(d, op_fields::DEPOSIT_ID));
    let amount = required(m, op_fields::AMOUNT, |d: Seq<u8>| u64_of(d));
    let funding_address = required(m, op_fields::FUNDING_ADDRESS, |d: Seq<u8>| string_of(d));
    if txid is Err {
        Err(txid->Err_0)
    } else if vout is Err {
        Err(vout->Err_0)
    } else if deposit_id is Err {
        Err(deposit_id->Err_0)
    } else if amount is Err {
        Err(amount->Err_0)
    } else if funding_address is Err {
        Err(funding_address->Err_0)
    } else {
        Ok(OperationView::OnchainCredit { txid: txid->Ok_0, vout: vout->Ok_0, deposit_id: deposit_id->Ok_0, amount: amount->Ok_0, funding_address: funding_address->Ok_0 })
    }
}

/// The `OnchainLock` operation held by decoded fields: its fields read in
/// order, the first failure reported.
pub open spec fn decoded_onchain_lock(m: Map<u64, Seq<u8>>) -> Result<OperationView, StreamFault> {
    let deposit_id = required(m, op_fields::DEPOSIT_ID, |d: Seq<u8>| deposit_id_of(d, op_fields::DEPOSIT_ID));
    let amount = required(m, op_fields::AMOUNT, |d: Seq<u8>| u64_of(d));
    let fee_sats = required(m, op_fields::FEES, |d: Seq<u8>| u64_of(d));
    let destination_address = required(m, op_fields::DESTINATION_ADDRESS, |d: Seq<u8>| string_of(d));
    let withdrawal_id = required(m, op_fields::WITHDRAWAL_ID, |d: Seq<u8>| bytes_of(d, 32));
    let witness = required(m, op_fields::WITNESS, |d: Seq<u8>| witness_of(d, op_fields::WITNESS));
    if deposit_id is Err {
        Err(deposit_id->Err_0)
    } else if amount is Err {
        Err(amount->Err_0)
    } else if fee_sats is Err {
        Err(fee_sats->Err_0)
    } else if destination_address is Err {
        Err(destination_address->Err_0)
    } else if withdrawal_id is Err {
        Err(withdrawal_id->Err_0)
    } else if witness is Err {
        Err(witness->Err_0)
    } else {
        Ok(OperationView::OnchainLock { deposit_id: deposit_id->Ok_0, amount: amount->Ok_0, fee_sats: fee_sats->Ok_0, destination_address: destination_address->Ok_0, withdrawal_id: withdrawal_id->Ok_0, witness: witness->Ok_0 })
    }
}

/// The `OnchainFail` operation held by decoded fields: its fields read in
/// order, the first failure reported.
pub open spec fn decoded_onchain_fail(m: Map<u64, Seq<u8>>) -> Result<OperationView, StreamFault> {
    let deposit_id = required(m, op_fields::DEPOSIT_ID, |d: Seq<u8>| deposit_id_of(d, op_fields::DEPOSIT_ID));
    let withdrawal_id = required(m, op_fields::WITHDRAWAL_ID, |d: Seq<u8>| bytes_of(d, 32));
    if deposit_id is Err {
        Err(deposit_id->Err_0)
    } else if withdrawal_id is Err {
        Err(withdrawal_id->Err_0)
    } else {
        Ok(OperationView::OnchainFail { deposit_id: deposit_id->Ok_0, withdrawal_id: withdrawal_id->Ok_0 })
    }
}

/// The `OnchainFulfill` operation held by decoded fields: its fields read in
/// order, the first failure reported.
pub open spec fn decoded_onchain_fulfill(m: Map<u64, Seq<u8>>) -> Result<OperationView, StreamFault> {
    let deposit_id = required(m, op_fields::DEPOSIT_ID, |d: Seq<u8>| deposit_id_of(d, op_fields::DEPOSIT_ID));
    let withdrawal_id = required(m, op_fields::WITHDRAWAL_ID, |d: Seq<u8>| bytes_of(d, 32));
    let amount = required(m, op_fields::AMOUNT, |d: Seq<u8>| u64_of(d));
    let txid = required(m, op_fields::TXID, |d: Seq<u8>| bytes_of(d, 32));
    let destination_address = required(m, op_fields::DESTINATION_ADDRESS, |d: Seq<u8>| string_of(d));
    if deposit_id is Err {
        Err(deposit_id->Err_0)
    } else if withdrawal_id is Err {
        Err(withdrawal_id->Err_0)
    } else if amount is Err {
        Err(amount->Err_0)
    } else if txid is Err {
        Err(txid->Err_0)
    } else if destination_address is Err {
        Err(destination_address->Err_0)
    } else {
        Ok(OperationView::OnchainFulfill { deposit_id: deposit_id->Ok_0, withdrawal_id: withdrawal_id->Ok_0, amount: amount->Ok_0, txid: txid->Ok_0, destination_address: destination_address->Ok_0 })
    }
}

/// The `TransferLock` operation held by decoded fields: its fields read in
/// order, the first failure reported.
pub open spec fn decoded_transfer_lock(m: Map<u64, Seq<u8>>) -> Result<OperationView, StreamFault> {
    let nonce = required(m, op_fields::NONCE, |d: Seq<u8>| bytes_of(d, 32));
    let source_deposit_id = required(m, op_fields::SOURCE_DEPOSIT_ID, |d: Seq<u8>| deposit_id_of(d, op_fields::SOURCE_DEPOSIT_ID));
    let destination_deposit_id = required(m, op_fields::DESTINATION_DEPOSIT_ID, |d: Seq<u8>| deposit_id_of(d, op_fields::DESTINATION_DEPOSIT_ID));
    let amount = required(m, op_fields::AMOUNT, |d: Seq<u8>| u64_of(d));
    let fee = required(m, op_fields::FEES, |d: Seq<u8>| u64_of(d));
    let completion_script = required(m, op_fields::COMPLETION_SCRIPT, |d: Seq<u8>| string_of(d));
    let timeout_height = required(m, op_fields::TIMEOUT_HEIGHT, |d: Seq<u8>| u32_of(d));
    let transfer_id = required(m, op_fields::TRANSFER_ID, |d: Seq<u8>| bytes_of(d, 32));
    let witness = required(m, op_fields::WITNESS, |d: Seq<u8>| witness_of(d, op_fields::WITNESS));
    if nonce is Err {
        Err(nonce->Err_0)
    } else if source_deposit_id is Err {
        Err(source_deposit_id->Err_0)
    } else if destination_deposit_id is Err {
        Err(destination_deposit_id->Err_0)
    } else if amount is Err {
        Err(amount->Err_0)
    } else if fee is Err {
        Err(fee->Err_0)
    } else if completion_script is Err {
        Err(completion_script->Err_0)
    } else if timeout_height is Err {
        Err(timeout_height->Err_0)
    } else if transfer_id is Err {
        Err(transfer_id->Err_0)
    } else if witness is Err {
        Err(witness->Err_0)
    } else {
        Ok(OperationView::TransferLock { nonce: nonce->Ok_0, source_deposit_id: source_deposit_id->Ok_0, destination_deposit_id: destination_deposit_id->Ok_0, amount: amount->Ok_0, fee: fee->Ok_0, completion_script: completion_script->Ok_0, timeout_height: timeout_height->Ok_0, transfer_id: transfer_id->Ok_0, witness: witness->Ok_0 })
    }
}

/// The `TransferComplete` operation held by decoded fields: its fields read in
/// order, the first failure reported.
pub open spec fn decoded_transfer_complete(m: Map<u64, Seq<u8>>) -> Result<OperationView, StreamFault> {
    let transfer_id = required(m, op_fields::TRANSFER_ID, |d: Seq<u8>| bytes_of(d, 32));
    let script_witness = required(m, op_fields::SCRIPT_WITNESS, |d: Seq<u8>| witness_of(d, op_fields::SCRIPT_WITNESS));
    if transfer_id is Err {
        Err(transfer_id->Err_0)
    } else if script_witness is Err {
        Err(script_witness->Err_0)
    } else {
        Ok(OperationView::TransferComplete { transfer_id: transfer_id->Ok_0, script_witness: script_witness->Ok_0 })
    }
}

/// The `TransferFail` operation held by decoded fields: its fields read in
/// order, the first failure reported.
pub open spec fn decoded_transfer_fail(m: Map<u64, Seq<u8>>) -> Result<OperationView, StreamFault> {
    let transfer_id = required(m, op_fields::TRANSFER_ID, |d: Seq<u8>| bytes_of(d, 32));
    let block_hash = required(m, op_fields::BLOCK_HASH, |d: Seq<u8>| bytes_of(d, 32));
    let reason = reason_field(m, op_fields::FAIL_REASON);
    if transfer_id is Err {
        Err(transfer_id->Err_0)
    } else if block_hash is Err {
        Err(block_hash->Err_0)
    } else {
        Ok(OperationView::TransferFail { transfer_id: transfer_id->Ok_0, block_hash: block_hash->Ok_0, reason })
    }
}

/// The `QuorumAddMember` operation held by decoded fields: its fields read in
/// order, the first failure reported.
pub open spec fn decoded_quorum_add_member(m: Map<u64, Seq<u8>>) -> Result<OperationView, StreamFault> {
    let quorum_member = required(m, op_fields::QUORUM_MEMBER, |d: Seq<u8>| pubkey_of(d));
    let quorum_member_signature = required(m, op_fields::QUORUM_MEMBER_SIG, |d: Seq<u8>| bytes_of(d, 64));
    let member_ledger_id = required(m, op_fields::MEMBER_LEDGER_ID, |d: Seq<u8>| string_of(d));
    let min_fee_bps = optional(m, op_fields::MIN_FEE_BPS, |d: Seq<u8>| u16_of(d));
    let min_fee_fixed = optional(m, op_fields::MIN_FEE_FIXED, |d: Seq<u8>| u64_of(d));
    let max_fee_period = optional(m, op_fields::MAX_FEE_PERIOD, |d: Seq<u8>| u32_of(d));
    let membership_until = optional(m, op_fields::MEMBERSHIP_UNTIL, |d: Seq<u8>| u32_of(d));
    let dispute_response_blocks = optional(m, op_fields::DISPUTE_RESPONSE_BLOCKS, |d: Seq<u8>| u32_of(d));
    let dispute_arm_blocks = optional(m, op_fields::DISPUTE_ARM_BLOCKS, |d: Seq<u8>| u32_of(d));
    let service_response_blocks = optional(m, op_fields::SERVICE_RESPONSE_BLOCKS, |d: Seq<u8>| u32_of(d));
    let max_transfer_timeout_blocks = optional(m, op_fields::MAX_TRANSFER_TIMEOUT_BLOCKS, |d: Seq<u8>| u32_of(d));
    let max_descriptor_bytes = optional(m, op_fields::MAX_DESCRIPTOR_BYTES, |d: Seq<u8>| u32_of(d));
    let compensation_bps = optional(m, op_fields::COMPENSATION_BPS, |d: Seq<u8>| u16_of(d));
    let compensation_deposit_id = optional(m, op_fields::COMPENSATION_DEPOSIT_ID, |d: Seq<u8>| deposit_id_of(d, op_fields::COMPENSATION_DEPOSIT_ID));
    let compensation_frequency_blocks = optional(m, op_fields::COMPENSATION_FREQUENCY_BLOCKS, |d: Seq<u8>| u32_of(d));
    if quorum_member is Err {
        Err(quorum_member->Err_0)
    } else if quorum_member_signature is Err {
        Err(quorum_member_signature->Err_0)
    } else if member_ledger_id is Err {
        Err(member_ledger_id->Err_0)
    } else if min_fee_bps is Err {
        Err(min_fee_bps->Err_0)
    } else if min_fee_fixed is Err {
        Err(min_fee_fixed->Err_0)
    } else if max_fee_period is Err {
        Err(max_fee_period->Err_0)
    } else if membership_until is Err {
        Err(membership_until->Err_0)
    } else if dispute_response_blocks is Err {
        Err(dispute_response_blocks->Err_0)
    } else if dispute_arm_blocks is Err {
        Err(dispute_arm_blocks->Err_0)
    } else if service_response_blocks is Err {
        Err(service_response_blocks->Err_0)
    } else if max_transfer_timeout_blocks is Err {
        Err(max_transfer_timeout_blocks->Err_0)
    } else if max_descriptor_bytes is Err {
        Err(max_descriptor_bytes->Err_0)
    } else if compensation_bps is Err {
        Err(compensation_bps->Err_0)
    } else if compensation_deposit_id is Err {
        Err(compensation_deposit_id->Err_0)
    } else if compensation_frequency_blocks is Err {
        Err(compensation_frequency_blocks->Err_0)
    } else {
        Ok(OperationView::QuorumAddMember { quorum_member: quorum_member->Ok_0, quorum_member_signature: quorum_member_signature->Ok_0, member_ledger_id: member_ledger_id->Ok_0, min_fee_bps: min_fee_bps->Ok_0, min_fee_fixed: min_fee_fixed->Ok_0, max_fee_period: max_fee_period->Ok_0, membership_until: membership_until->Ok_0, dispute_response_blocks: dispute_response_blocks->Ok_0, dispute_arm_blocks: dispute_arm_blocks->Ok_0, service_response_blocks: service_response_blocks->Ok_0, max_transfer_timeout_blocks: max_transfer_timeout_blocks->Ok_0, max_descriptor_bytes: max_descriptor_bytes->Ok_0, compensation_bps: compensation_bps->Ok_0, compensation_deposit_id: compensation_deposit_id->Ok_0, compensation_frequency_blocks: compensation_frequency_blocks->Ok_0 })
    }
}

/// The `QuorumRemoveMember` operation held by decoded fields: its fields read in
/// order, the first failure reported.
pub open spec fn decoded_quorum_remove_member(m: Map<u64, Seq<u8>>) -> Result<OperationView, StreamFault> {
    let quorum_member = required(m, op_fields::QUORUM_MEMBER, |d: Seq<u8>| pubkey_of(d));
    let operator_signature = required(m, op_fields::OPERATOR_SIG, |d: Seq<u8>| bytes_of(d, 64));
    if quorum_member is Err {
        Err(quorum_member->Err_0)
    } else if operator_signature is Err {
        Err(operator_signature->Err_0)
    } else {
        Ok(OperationView::QuorumRemoveMember { quorum_member: quorum_member->Ok_0, operator_signature: operator_signature->Ok_0 })
    }
}

/// The `QuorumJoin` operation held by decoded fields: its fields read in
/// order, the first failure reported.
pub open spec fn decoded_quorum_join(m: Map<u64, Seq<u8>>) -> Result<OperationView, StreamFault> {
    let operator_id = required(m, op_fields::OPERATOR_ID, |d: Seq<u8>| pubkey_of(d));
    let ledger_id = required(m, op_fields::RESERVES_ID, |d: Seq<u8>| string_of(d));
    let membership_expires = required(m, op_fields::MEMBERSHIP_EXPIRES, |d: Seq<u8>| u32_of(d));
    if operator_id is Err {
        Err(operator_id->Err_0)
    } else if ledger_id is Err {
        Err(ledger_id->Err_0)
    } else if membership_expires is Err {
        Err(membership_expires->Err_0)
    } else {
        Ok(OperationView::QuorumJoin { operator_id: operator_id->Ok_0, ledger_id: ledger_id->Ok_0, membership_expires: membership_expires->Ok_0 })
    }
}

/// The `FeeCollect` operation held by decoded fields: its fields read in
/// order, the first failure reported.
pub open spec fn decoded_fee_collect(m: Map<u64, Seq<u8>>) -> Result<OperationView, StreamFault> {
    let deposit_id = required(m, op_fields::DEPOSIT_ID, |d: Seq<u8>| deposit_id_of(d, op_fields::DEPOSIT_ID));
    let amount = required(m, op_fields::AMOUNT, |d: Seq<u8>| u64_of(d));
    let block_height = required(m, op_fields::BLOCK_HEIGHT, |d: Seq<u8>| u32_of(d));
    if deposit_id is Err {
        Err(deposit_id->Err_0)
    } else if amount is Err {
        Err(amount->Err_0)
    } else if block_height is Err {
        Err(block_height->Err_0)
    } else {
        Ok(OperationView::FeeCollect { deposit_id: deposit_id->Ok_0, amount: amount->Ok_0, block_height: block_height->Ok_0 })
    }
}

/// The `DisputeEnter` operation held by decoded fields: its fields read in
/// order, the first failure reported.
pub open spec fn decoded_dispute_enter(m: Map<u64, Seq<u8>>) -> Result<OperationView, StreamFault> {
    let last_valid_sequence = required(m, op_fields::LAST_VALID_SEQUENCE, |d: Seq<u8>| u64_of(d));
    let reason = required(m, op_fields::REASON, |d: Seq<u8>| string_of(d));
    if last_valid_sequence is Err {
        Err(last_valid_sequence->Err_0)
    } else if reason is Err {
        Err(reason->Err_0)
    } else {
        Ok(OperationView::DisputeEnter { last_valid_sequence: last_valid_sequence->Ok_0, reason: reason->Ok_0 })
    }
}

/// The `DisputeAcquire` operation held by decoded fields: its fields read in
/// order, the first failure reported.
pub open spec fn decoded_dispute_acquire(m: Map<u64, Seq<u8>>) -> Result<OperationView, StreamFault> {
    let new_custodian = required(m, op_fields::NEW_CUSTODIAN, |d: Seq<u8>| pubkey_of(d));
    let claim_txid = required(m, op_fields::CLAIM_TXID, |d: Seq<u8>| bytes_of(d, 32));
    let new_reserves_address = required(m, op_fields::NEW_RESERVES_ADDRESS, |d: Seq<u8>| string_of(d));
    if new_custodian is Err {
        Err(new_custodian->Err_0)
    } else if claim_txid is Err {
        Err(claim_txid->Err_0)
    } else if new_reserves_address is Err {
        Err(new_reserves_address->Err_0)
    } else {
        Ok(OperationView::DisputeAcquire { new_custodian: new_custodian->Ok_0, claim_txid: claim_txid->Ok_0, new_reserves_address: new_reserves_address->Ok_0 })
    }
}

/// The `DeliveryEmbed` operation held by decoded fields: its fields read in
/// order, the first failure reported.
pub open spec fn decoded_delivery_embed(m: Map<u64, Seq<u8>>) -> Result<OperationView, StreamFault> {
    let request_hash = required(m, op_fields::REQUEST_HASH, |d: Seq<u8>| bytes_of(d, 32));
    let target_ledger_id = required(m, op_fields::TARGET_LEDGER_ID, |d: Seq<u8>| bytes_of(d, 32));
    let target_operator = required(m, op_fields::TARGET_OPERATOR, |d: Seq<u8>| pubkey_of(d));
    if request_hash is Err {
        Err(request_hash->Err_0)
    } else if target_ledger_id is Err {
        Err(target_ledger_id->Err_0)
    } else if target_operator is Err {
        Err(target_operator->Err_0)
    } else {
        Ok(OperationView::DeliveryEmbed { request_hash: request_hash->Ok_0, target_ledger_id: target_ledger_id->Ok_0, target_operator: target_operator->Ok_0 })
    }
}

fn decode_ledger_open(reader: &TlvReader) -> (r: TlvResult<LedgerOperation>)
    ensures
        outcome_view(r, decoded_ledger_open(reader@)),
{
    let operator_id = match reader.read_pubkey(op_fields::OPERATOR_ID) {
        Ok(v) => v,
        Err(e) => {
            return Err(e);
        },
    };
    let reserves_id = match reader.read_string(op_fields::RESERVES_ID) {
        Ok(v) => v,
        Err(e) => {
            return Err(e);
        },
    };
    let genesis_block = match reader.read_u32_opt(op_fields::GENESIS_BLOCK) {
        Ok(Some(v)) => v,
        Ok(None) => 0,
        Err(e) => {
            return Err(e);
        },
    };
    let reserves_amount = match reader.read_u64_opt(op_fields::RESERVES_AMOUNT) {
        Ok(Some(v)) => v,
        Ok(None) => 0,
        Err(e) => {
            return Err(e);
        },
    };
    let collateral_amount = match reader.read_u64_opt(op_fields::TOTAL_COLLATERAL) {
        Ok(Some(v)) => v,
        Ok(None) => 0,
        Err(e) => {
            return Err(e);
        },
    };
    Ok(LedgerOperation::LedgerOpen { operator_id, reserves_id, genesis_block, reserves_amount, collateral_amount })
}

fn decode_deposit_open(reader: &TlvReader) -> (r: TlvResult<LedgerOperation>)
    ensures
        outcome_view(r, decoded_deposit_open(reader@)),
{
    let deposit_id = match reader.read_deposit_id(op_fields::DEPOSIT_ID) {
        Ok(v) => v,
        Err(e) => {
            return Err(e);
        },
    };
    let descriptor = match reader.read_string(op_fields::DESCRIPTOR) {
        Ok(v) => v,
        Err(e) => {
            return Err(e);
        },
    };
    let fees = match reader.read_nested_opt::<FeeStructure>(op_fields::FEES) {
        Ok(v) => v,
        Err(e) => {
            return Err(e);
        },
    };
    let transfer_fees = match reader.read_nested_opt::<TransferFeeSchedule>(op_fields::TRANSFER_FEES) {
        Ok(v) => v,
        Err(e) => {
            return Err(e);
        },
    };
    let payment_hash = match reader.read_bytes_opt::<32>(op_fields::PAYMENT_HASH) {
        Ok(v) => v,
        Err(e) => {
            return Err(e);
        },
    };
    let invoice = match reader.read_string_opt(op_fields::INVOICE) {
        Ok(v) => v,
        Err(e) => {
            return Err(e);
        },
    };
    let cosigner_guarantee_signature = match reader.read_bytes_opt::<64>(op_fields::COSIGNER_SIG) {
        Ok(v) => v,
        Err(e) => {
            return Err(e);
        },
    };
    let receive_requires_sig = match reader.read_u8(op_fields::RECEIVE_REQUIRES_SIG) {
        Ok(x) => x != 0,
        Err(_) => false,
    };
    let fee_change_after_blocks = match reader.read_u32_opt(op_fields::FEE_CHANGE_AFTER) {
        Ok(v) => v,
        Err(e) => {
            return Err(e);
        },
    };
    let fee_change_notice_blocks = match reader.read_u32_opt(op_fields::FEE_CHANGE_NOTICE) {
        Ok(v) => v,
        Err(e) => {
            return Err(e);
        },
    };
    let fee_change_limit_bps = match reader.read_u16_opt(op_fields::FEE_CHANGE_LIMIT_BPS) {
        Ok(v) => v,
        Err(e) => {
            return Err(e);
        },
    };
    Ok(LedgerOperation::DepositOpen { deposit_id, descriptor, fees, transfer_fees, payment_hash, invoice, cosigner_guarantee_signature, receive_requires_sig, fee_change_after_blocks, fee_change_notice_blocks, fee_change_limit_bps })
}

fn decode_deposit_close(reader: &TlvReader) -> (r: TlvResult<LedgerOperation>)
    ensures
        outcome_view(r, decoded_deposit_close(reader@)),
{
    let deposit_id = match reader.read_deposit_id(op_fields::DEPOSIT_ID) {
        Ok(v) => v,
        Err(e) => {
            return Err(e);
        },
    };
    Ok(LedgerOperation::DepositClose { deposit_id })
}

fn decode_fee_change(reader: &TlvReader) -> (r: TlvResult<LedgerOperation>)
    ensures
        outcome_view(r, decoded_fee_change(reader@)),
{
    let deposit_id = match reader.read_deposit_id(op_fields::DEPOSIT_ID) {
        Ok(v) => v,
        Err(e) => {
            return Err(e);
        },
    };
    let new_fees = match reader.read_nested::<FeeStructure>(op_fields::NEW_FEES) {
        Ok(v) => v,
        Err(e) => {
            return Err(e);
        },
    };
    let effective_block = match reader.read_u32_opt(op_fields::EFFECTIVE_BLOCK) {
        Ok(Some(v)) => v,
        Ok(None) => 0,
        Err(e) => {
            return Err(e);
        },
    };
    Ok(LedgerOperation::FeeChange { deposit_id, new_fees, effective_block })
}

fn decode_deposit_key_rotate(reader: &TlvReader) -> (r: TlvResult<LedgerOperation>)
    ensures
        outcome_view(r, decoded_deposit_key_rotate(reader@)),
{
    let deposit_id = match reader.read_deposit_id(op_fields::DEPOSIT_ID) {
        Ok(v) => v,
        Err(e) => {
            return Err(e);
        },
    };
    let new_descriptor = match reader.read_string(op_fields::NEW_DESCRIPTOR) {
        Ok(v) => v,
        Err(e) => {
            return Err(e);
        },
    };
    let witness = match reader.read_witness(op_fields::WITNESS) {
        Ok(v) => v,
        Err(e) => {
            return Err(e);
        },
    };
    Ok(LedgerOperation::DepositKeyRotate { deposit_id, new_descriptor, witness })
}

fn decode_invoice_credit(reader: &TlvReader) -> (r: TlvResult<LedgerOperation>)
    ensures
        outcome_view(r, decoded_invoice_credit(reader@)),
{
    let payment_hash = match reader.read_bytes::<32>(op_fields::PAYMENT_HASH) {
        Ok(v) => v,
        Err(e) => {
            return Err(e);
        },
    };
    let deposit_id = match reader.read_deposit_id(op_fields::DEPOSIT_ID) {
        Ok(v) => v,
        Err(e) => {
            return Err(e);
        },
    };
    let amount = match reader.read_u64(op_fields::AMOUNT) {
        Ok(v) => v,
        Err(e) => {
            return Err(e);
        },
    };
    let invoice_id = match reader.read_string(op_fields::INVOICE_ID) {
        Ok(v) => v,
        Err(e) => {
            return Err(e);
        },
    };
    let sequence_number = match reader.read_u64(op_fields::SEQUENCE_NUMBER) {
        Ok(v) => v,
        Err(e) => {
            return Err(e);
        },
    };
    Ok(LedgerOperation::InvoiceCredit { payment_hash, deposit_id, amount, invoice_id, sequence_number })
}

fn decode_invoice_lock(reader: &TlvReader) -> (r: TlvResult<LedgerOperation>)
    ensures
        outcome_view(r, decoded_invoice_lock(reader@)),
{
    let deposit_id = match reader.read_deposit_id(op_fields::DEPOSIT_ID) {
        Ok(v) => v,
        Err(e) => {
            return Err(e);
        },
    };
    let amount = match reader.read_u64(op_fields::AMOUNT) {
        Ok(v) => v,
        Err(e) => {
            return Err(e);
        },
    };
    let payment_id = match reader.read_bytes::<32>(op_fields::PAYMENT_ID) {
        Ok(v) => v,
        Err(e) => {
            return Err(e);
        },
    };
    let sequence_number = match reader.read_u64(op_fields::SEQUENCE_NUMBER) {
        Ok(v) => v,
        Err(e) => {
            return Err(e);
        },
    };
    let witness = match reader.read_witness(op_fields::WITNESS) {
        Ok(v) => v,
        Err(e) => {
            return Err(e);
        },
    };
    Ok(LedgerOperation::InvoiceLock { deposit_id, amount, payment_id, sequence_number, witness })
}

fn decode_invoice_fail(reader: &TlvReader) -> (r: TlvResult<LedgerOperation>)
    ensures
        outcome_view(r, decoded_invoice_fail(reader@)),
{
    let deposit_id = match reader.read_deposit_id(op_fields::DEPOSIT_ID) {
        Ok(v) => v,
        Err(e) => {
            return Err(e);
        },
    };
    let amount = match reader.read_u64(op_fields::AMOUNT) {
        Ok(v) => v,
        Err(e) => {
            return Err(e);
        },
    };
    let payment_id = match reader.read_bytes::<32>(op_fields::PAYMENT_ID) {
        Ok(v) => v,
        Err(e) => {
            return Err(e);
        },
    };
    let sequence_number = match reader.read_u64(op_fields::SEQUENCE_NUMBER) {
        Ok(v) => v,
        Err(e) => {
            return Err(e);
        },
    };
    Ok(LedgerOperation::InvoiceFail { deposit_id, amount, payment_id, sequence_number })
}

fn decode_invoice_fulfill(reader: &TlvReader) -> (r: TlvResult<LedgerOperation>)
    ensures
        outcome_view(r, decoded_invoice_fulfill(reader@)),
{
    let deposit_id = match reader.read_deposit_id(op_fields::DEPOSIT_ID) {
        Ok(v) => v,
        Err(e) => {
            return Err(e);
        },
    };
    let amount = match reader.read_u64(op_fields::AMOUNT) {
        Ok(v) => v,
        Err(e) => {
            return Err(e);
        },
    };
    let payment_id = match reader.read_bytes::<32>(op_fields::PAYMENT_ID) {
        Ok(v) => v,
        Err(e) => {
            return Err(e);
        },
    };
    let sequence_number = match reader.read_u64(op_fields::SEQUENCE_NUMBER) {
        Ok(v) => v,
        Err(e) => {
            return Err(e);
        },
    };
    let witness = match reader.read_witness(op_fields::WITNESS) {
        Ok(v) => v,
        Err(e) => {
            return Err(e);
        },
    };
    let preimage = match reader.read_bytes::<32>(op_fields::PREIMAGE) {
        Ok(v) => v,
        Err(e) => {
            return Err(e);
        },
    };
    Ok(LedgerOperation::InvoiceFulfill { deposit_id, amount, payment_id, sequence_number, witness, preimage })
}

fn decode_onchain_credit(reader: &TlvReader) -> (r: TlvResult<LedgerOperation>)
    ensures
        outcome_view(r, decoded_onchain_credit(reader@)),
{
    let txid = match reader.read_bytes::<32>(op_fields::TXID) {
        Ok(v) => v,
        Err(e) => {
            return Err(e);
        },
    };
    let vout = match reader.read_u32(op_fields::VOUT) {
        Ok(v) => v,
        Err(e) => {
            return Err(e);
        },
    };
    let deposit_id = match reader.read_deposit_id(op_fields::DEPOSIT_ID) {
        Ok(v) => v,
        Err(e) => {
            return Err(e);
        },
    };
    let amount = match reader.read_u64(op_fields::AMOUNT) {
        Ok(v) => v,
        Err(e) => {
            return Err(e);
        },
    };
    let funding_address = match reader.read_string(op_fields::FUNDING_ADDRESS) {
        Ok(v) => v,
        Err(e) => {
            return Err(e);
        },
    };
    Ok(LedgerOperation::OnchainCredit { txid, vout, deposit_id, amount, funding_address })
}

fn decode_onchain_lock(reader: &TlvReader) -> (r: TlvResult<LedgerOperation>)
    ensures
        outcome_view(r, decoded_onchain_lock(reader@)),
{
    let deposit_id = match reader.read_deposit_id(op_fields::DEPOSIT_ID) {
        Ok(v) => v,
        Err(e) => {
            return Err(e);
        },
    };
    let amount = match reader.read_u64(op_fields::AMOUNT) {
        Ok(v) => v,
        Err(e) => {
            return Err(e);
        },
    };
    let fee_sats = match reader.read_u64(op_fields::FEES) {
        Ok(v) => v,
        Err(e) => {
            return Err(e);
        },
    };
    let destination_address = match reader.read_string(op_fields::DESTINATION_ADDRESS) {
        Ok(v) => v,
        Err(e) => {
            return Err(e);
        },
    };
    let withdrawal_id = match reader.read_bytes::<32>(op_fields::WITHDRAWAL_ID) {
        Ok(v) => v,
        Err(e) => {
            return Err(e);
        },
    };
    let witness = match reader.read_witness(op_fields::WITNESS) {
        Ok(v) => v,
        Err(e) => {
            return Err(e);
        },
    };
    Ok(LedgerOperation::OnchainLock { deposit_id, amount, fee_sats, destination_address, withdrawal_id, witness })
}

fn decode_onchain_fail(reader: &TlvReader) -> (r: TlvResult<LedgerOperation>)
    ensures
        outcome_view(r, decoded_onchain_fail(reader@)),
{
    let deposit_id = match reader.read_deposit_id(op_fields::DEPOSIT_ID) {
        Ok(v) => v,
        Err(e) => {
            return Err(e);
        },
    };
    let withdrawal_id = match reader.read_bytes::<32>(op_fields::WITHDRAWAL_ID) {
        Ok(v) => v,
        Err(e) => {
            return Err(e);
        },
    };
    Ok(LedgerOperation::OnchainFail { deposit_id, withdrawal_id })
}

fn decode_onchain_fulfill(reader: &TlvReader) -> (r: TlvResult<LedgerOperation>)
    ensures
        outcome_view(r, decoded_onchain_fulfill(reader@)),
{
    let deposit_id = match reader.read_deposit_id(op_fields::DEPOSIT_ID) {
        Ok(v) => v,
        Err(e) => {
            return Err(e);
        },
    };
    let withdrawal_id = match reader.read_bytes::<32>(op_fields::WITHDRAWAL_ID) {
        Ok(v) => v,
        Err(e) => {
            return Err(e);
        },
    };
    let amount = match reader.read_u64(op_fields::AMOUNT) {
        Ok(v) => v,
        Err(e) => {
            return Err(e);
        },
    };
    let txid = match reader.read_bytes::<32>(op_fields::TXID) {
        Ok(v) => v,
        Err(e) => {
            return Err(e);
        },
    };
    let destination_address = match reader.read_string(op_fields::DESTINATION_ADDRESS) {
        Ok(v) => v,
        Err(e) => {
            return Err(e);
        },
    };
    Ok(LedgerOperation::OnchainFulfill { deposit_id, withdrawal_id, amount, txid, destination_address })
}

fn decode_transfer_lock(reader: &TlvReader) -> (r: TlvResult<LedgerOperation>)
    ensures
        outcome_view(r, decoded_transfer_lock(reader@)),
{
    let nonce = match reader.read_bytes::<32>(op_fields::NONCE) {
        Ok(v) => v,
        Err(e) => {
            return Err(e);
        },
    };
    let source_deposit_id = match reader.read_deposit_id(op_fields::SOURCE_DEPOSIT_ID) {
        Ok(v) => v,
        Err(e) => {
            return Err(e);
        },
    };
    let destination_deposit_id = match reader.read_deposit_id(op_fields::DESTINATION_DEPOSIT_ID) {
        Ok(v) => v,
        Err(e) => {
            return Err(e);
        },
    };
    let amount = match reader.read_u64(op_fields::AMOUNT) {
        Ok(v) => v,
        Err(e) => {
            return Err(e);
        },
    };
    let fee = match reader.read_u64(op_fields::FEES) {
        Ok(v) => v,
        Err(e) => {
            return Err(e);
        },
    };
    let completion_script = match reader.read_string(op_fields::COMPLETION_SCRIPT) {
        Ok(v) => v,
        Err(e) => {
            return Err(e);
        },
    };
    let timeout_height = match reader.read_u32(op_fields::TIMEOUT_HEIGHT) {
        Ok(v) => v,
        Err(e) => {
            return Err(e);
        },
    };
    let transfer_id = match reader.read_bytes::<32>(op_fields::TRANSFER_ID) {
        Ok(v) => v,
        Err(e) => {
            return Err(e);
        },
    };
    let witness = match reader.read_witness(op_fields::WITNESS) {
        Ok(v) => v,
        Err(e) => {
            return Err(e);
        },
    };
    Ok(LedgerOperation::TransferLock { nonce, source_deposit_id, destination_deposit_id, amount, fee, completion_script, timeout_height, transfer_id, witness })
}

fn decode_transfer_complete(reader: &TlvReader) -> (r: TlvResult<LedgerOperation>)
    ensures
        outcome_view(r, decoded_transfer_complete(reader@)),
{
    let transfer_id = match reader.read_bytes::<32>(op_fields::TRANSFER_ID) {
        Ok(v) => v,
        Err(e) => {
            return Err(e);
        },
    };
    let script_witness = match reader.read_witness(op_fields::SCRIPT_WITNESS) {
        Ok(v) => v,
        Err(e) => {
            return Err(e);
        },
    };
    Ok(LedgerOperation::TransferComplete { transfer_id, script_witness })
}

fn decode_transfer_fail(reader: &TlvReader) -> (r: TlvResult<LedgerOperation>)
    ensures
        outcome_view(r, decoded_transfer_fail(reader@)),
{
    let transfer_id = match reader.read_bytes::<32>(op_fields::TRANSFER_ID) {
        Ok(v) => v,
        Err(e) => {
            return Err(e);
        },
    };
    let block_hash = match reader.read_bytes::<32>(op_fields::BLOCK_HASH) {
        Ok(v) => v,
        Err(e) => {
            return Err(e);
        },
    };
    let reason = match reader.read_u8(op_fields::FAIL_REASON) {
        Ok(x) => x,
        Err(_) => 1,
    };
    Ok(LedgerOperation::TransferFail { transfer_id, block_hash, reason })
}

fn decode_quorum_add_member(reader: &TlvReader) -> (r: TlvResult<LedgerOperation>)
    ensures
        outcome_view(r, decoded_quorum_add_member(reader@)),
{
    let quorum_member = match reader.read_pubkey(op_fields::QUORUM_MEMBER) {
        Ok(v) => v,
        Err(e) => {
            return Err(e);
        },
    };
    let quorum_member_signature = match reader.read_bytes::<64>(op_fields::QUORUM_MEMBER_SIG) {
        Ok(v) => v,
        Err(e) => {
            return Err(e);
        },
    };
    let member_ledger_id = match reader.read_string(op_fields::MEMBER_LEDGER_ID) {
        Ok(v) => v,
        Err(e) => {
            return Err(e);
        },
    };
    let min_fee_bps = match reader.read_u16_opt(op_fields::MIN_FEE_BPS) {
        Ok(v) => v,
        Err(e) => {
            return Err(e);
        },
    };
    let min_fee_fixed = match reader.read_u64_opt(op_fields::MIN_FEE_FIXED) {
        Ok(v) => v,
        Err(e) => {
            return Err(e);
        },
    };
    let max_fee_period = match reader.read_u32_opt(op_fields::MAX_FEE_PERIOD) {
        Ok(v) => v,
        Err(e) => {
            return Err(e);
        },
    };
    let membership_until = match reader.read_u32_opt(op_fields::MEMBERSHIP_UNTIL) {
        Ok(v) => v,
        Err(e) => {
            return Err(e);
        },
    };
    let dispute_response_blocks = match reader.read_u32_opt(op_fields::DISPUTE_RESPONSE_BLOCKS) {
        Ok(v) => v,
        Err(e) => {
            return Err(e);
        },
    };
    let dispute_arm_blocks = match reader.read_u32_opt(op_fields::DISPUTE_ARM_BLOCKS) {
        Ok(v) => v,
        Err(e) => {
            return Err(e);
        },
    };
    let service_response_blocks = match reader.read_u32_opt(op_fields::SERVICE_RESPONSE_BLOCKS) {
        Ok(v) => v,
        Err(e) => {
            return Err(e);
        },
    };
    let max_transfer_timeout_blocks = match reader.read_u32_opt(op_fields::MAX_TRANSFER_TIMEOUT_BLOCKS) {
        Ok(v) => v,
        Err(e) => {
            return Err(e);
        },
    };
    let max_descriptor_bytes = match reader.read_u32_opt(op_fields::MAX_DESCRIPTOR_BYTES) {
        Ok(v) => v,
        Err(e) => {
            return Err(e);
        },
    };
    let compensation_bps = match reader.read_u16_opt(op_fields::COMPENSATION_BPS) {
        Ok(v) => v,
        Err(e) => {
            return Err(e);
        },
    };
    let compensation_deposit_id = match reader.read_deposit_id_opt(op_fields::COMPENSATION_DEPOSIT_ID) {
        Ok(v) => v,
        Err(e) => {
            return Err(e);
        },
    };
    let compensation_frequency_blocks = match reader.read_u32_opt(op_fields::COMPENSATION_FREQUENCY_BLOCKS) {
        Ok(v) => v,
        Err(e) => {
            return Err(e);
        },
    };
    Ok(LedgerOperation::QuorumAddMember { quorum_member, quorum_member_signature, member_ledger_id, min_fee_bps, min_fee_fixed, max_fee_period, membership_until, dispute_response_blocks, dispute_arm_blocks, service_response_blocks, max_transfer_timeout_blocks, max_descriptor_bytes, compensation_bps, compensation_deposit_id, compensation_frequency_blocks })
}

fn decode_quorum_remove_member(reader: &TlvReader) -> (r: TlvResult<LedgerOperation>)
    ensures
        outcome_view(r, decoded_quorum_remove_member(reader@)),
{
    let quorum_member = match reader.read_pubkey(op_fields::QUORUM_MEMBER) {
        Ok(v) => v,
        Err(e) => {
            return Err(e);
        },
    };
    let operator_signature = match reader.read_bytes::<64>(op_fields::OPERATOR_SIG) {
        Ok(v) => v,
        Err(e) => {
            return Err(e);
        },
    };
    Ok(LedgerOperation::QuorumRemoveMember { quorum_member, operator_signature })
}

fn decode_quorum_join(reader: &TlvReader) -> (r: TlvResult<LedgerOperation>)
    ensures
        outcome_view(r, decoded_quorum_join(reader@)),
{
    let operator_id = match reader.read_pubkey(op_fields::OPERATOR_ID) {
        Ok(v) => v,
        Err(e) => {
            return Err(e);
        },
    };
    let ledger_id = match reader.read_string(op_fields::RESERVES_ID) {
        Ok(v) => v,
        Err(e) => {
            return Err(e);
        },
    };
    let membership_expires = match reader.read_u32(op_fields::MEMBERSHIP_EXPIRES) {
        Ok(v) => v,
        Err(e) => {
            return Err(e);
        },
    };
    Ok(LedgerOperation::QuorumJoin { operator_id, ledger_id, membership_expires })
}

fn decode_fee_collect(reader: &TlvReader) -> (r: TlvResult<LedgerOperation>)
    ensures
        outcome_view(r, decoded_fee_collect(reader@)),
{
    let deposit_id = match reader.read_deposit_id(op_fields::DEPOSIT_ID) {
        Ok(v) => v,
        Err(e) => {
            return Err(e);
        },
    };
    let amount = match reader.read_u64(op_fields::AMOUNT) {
        Ok(v) => v,
        Err(e) => {
            return Err(e);
        },
    };
    let block_height = match reader.read_u32(op_fields::BLOCK_HEIGHT) {
        Ok(v) => v,
        Err(e) => {
            return Err(e);
        },
    };
    Ok(LedgerOperation::FeeCollect { deposit_id, amount, block_height })
}

fn decode_dispute_enter(reader: &TlvReader) -> (r: TlvResult<LedgerOperation>)
    ensures
        outcome_view(r, decoded_dispute_enter(reader@)),
{
    let last_valid_sequence = match reader.read_u64(op_fields::LAST_VALID_SEQUENCE) {
        Ok(v) => v,
        Err(e) => {
            return Err(e);
        },
    };
    let reason = match reader.read_string(op_fields::REASON) {
        Ok(v) => v,
        Err(e) => {
            return Err(e);
        },
    };
    Ok(LedgerOperation::DisputeEnter { last_valid_sequence, reason })
}

fn decode_dispute_acquire(reader: &TlvReader) -> (r: TlvResult<LedgerOperation>)
    ensures
        outcome_view(r, decoded_dispute_acquire(reader@)),
{
    let new_custodian = match reader.read_pubkey(op_fields::NEW_CUSTODIAN) {
        Ok(v) => v,
        Err(e) => {
            return Err(e);
        },
    };
    let claim_txid = match reader.read_bytes::<32>(op_fields::CLAIM_TXID) {
        Ok(v) => v,
        Err(e) => {
            return Err(e);
        },
    };
    let new_reserves_address = match reader.read_string(op_fields::NEW_RESERVES_ADDRESS) {
        Ok(v) => v,
        Err(e) => {
            return Err(e);
        },
    };
    Ok(LedgerOperation::DisputeAcquire { new_custodian, claim_txid, new_reserves_address })
}

fn decode_delivery_embed(reader: &TlvReader) -> (r: TlvResult<LedgerOperation>)
    ensures
        outcome_view(r, decoded_delivery_embed(reader@)),
{
    let request_hash = match reader.read_bytes::<32>(op_fields::REQUEST_HASH) {
        Ok(v) => v,
        Err(e) => {
            return Err(e);
        },
    };
    let target_ledger_id = match reader.read_bytes::<32>(op_fields::TARGET_LEDGER_ID) {
        Ok(v) => v,
        Err(e) => {
            return Err(e);
        },
    };
    let target_operator = match reader.read_pubkey(op_fields::TARGET_OPERATOR) {
        Ok(v) => v,
        Err(e) => {
            return Err(e);
        },
    };
    Ok(LedgerOperation::DeliveryEmbed { request_hash, target_ledger_id, target_operator })
}

/// The ledger operation held by decoded fields, selected by the
/// discriminant in field 0.
pub open spec fn operation_from_fields(m: Map<u64, Seq<u8>>) -> Result<OperationView, StreamFault> {
    match required(m, op_fields::DISCRIMINANT, |d: Seq<u8>| u8_of(d)) {
        Err(f) => Err(f),
        Ok(disc) => {
            if disc == 12 {
                decoded_quorum_begin(m)
            } else if disc == 57 {
                decoded_dispute_armed(m)
            } else if disc == 56 {
                Ok(OperationView::DisputeYield)
            } else if disc == 60 {
                Ok(OperationView::LedgerClose)
            } else if disc == 1 {
                decoded_ledger_open(m)
            } else if disc == 20 {
                decoded_deposit_open(m)
            } else if disc == 21 {
                decoded_deposit_close(m)
            } else if disc == 22 {
                decoded_fee_change(m)
            } else if disc == 23 {
                decoded_deposit_key_rotate(m)
            } else if disc == 30 {
                decoded_invoice_credit(m)
            } else if disc == 31 {
                decoded_invoice_lock(m)
            } else if disc == 32 {
                decoded_invoice_fail(m)
            } else if disc == 33 {
                decoded_invoice_fulfill(m)
            } else if disc == 35 {
                decoded_onchain_credit(m)
            } else if disc == 36 {
                decoded_onchain_lock(m)
            } else if disc == 37 {
                decoded_onchain_fail(m)
            } else if disc == 38 {
                decoded_onchain_fulfill(m)
            } else if disc == 70 {
                decoded_transfer_lock(m)
            } else if disc == 71 {
                decoded_transfer_complete(m)
            } else if disc == 72 {
                decoded_transfer_fail(m)
            } else if disc == 43 {
                decoded_quorum_add_member(m)
            } else if disc == 44 {
                decoded_quorum_remove_member(m)
            } else if disc == 46 {
                decoded_quorum_join(m)
            } else if disc == 50 {
                decoded_fee_collect(m)
            } else if disc == 54 {
                decoded_dispute_enter(m)
            } else if disc == 55 {
                decoded_dispute_acquire(m)
            } else if disc == 80 {
                decoded_delivery_embed(m)
            } else {
                Err(
                    invalid_fault(
                        op_fields::DISCRIMINANT,
                        "unknown LedgerOperation discriminant: "@ + decimal_digits(disc as nat),
                    ),
                )
            }
        },
    }
}

/// The keys of consecutive 33-byte chunks of `b` that parse.
fn decode_member_keys(b: &[u8]) -> (r: Vec<PublicKey>)
    ensures
        r@.map_values(|k: PublicKey| k@) == parse_member_keys(b@),
{
    let mut r: Vec<PublicKey> = Vec::new();
    let mut off: usize = 0;
    assert(b@.skip(0) =~= b@);
    assert(r@.map_values(|k: PublicKey| k@) + parse_member_keys(b@.skip(0)) =~= parse_member_keys(b@));
    while b.len() - off >= 33
        invariant
            off <= b@.len(),
            r@.map_values(|k: PublicKey| k@) + parse_member_keys(b@.skip(off as int)) == parse_member_keys(b@),
        decreases b@.len() - off,
    {
        let ghost s = b@.skip(off as int);
        let chunk = crate::bytes::copy_range(b, off, off + 33);
        assert(chunk@ =~= s.subrange(0, 33));
        assert(s.skip(33) =~= b@.skip(off + 33));
        let ghost before = r@.map_values(|k: PublicKey| k@);
        match PublicKey::from_slice(chunk.as_slice()) {
            Ok(pk) => {
                r.push(pk);
                assert(r@.map_values(|k: PublicKey| k@) =~= before.push(pk@));
                assert(before.push(pk@) + parse_member_keys(b@.skip(off + 33)) =~= before + (seq![pk@] + parse_member_keys(b@.skip(off + 33))));
            },
            Err(_) => {},
        }
        off = off + 33;
    }
    assert(parse_member_keys(b@.skip(off as int)) =~= Seq::<Seq<u8>>::empty());
    assert(r@.map_values(|k: PublicKey| k@) + Seq::<Seq<u8>>::empty() =~= r@.map_values(|k: PublicKey| k@));
    r
}

/// The ledger identifiers of the length-prefixed entries of `b`.
fn decode_member_lids(b: &[u8]) -> (r: Vec<String>)
    ensures
        r@.map_values(|s: String| s@) == parse_member_lids(b@),
{
    let mut r: Vec<String> = Vec::new();
    let mut off: usize = 0;
    assert(b@.skip(0) =~= b@);
    assert(r@.map_values(|s: String| s@) + parse_member_lids(b@.skip(0)) =~= parse_member_lids(b@));
    while off < b.len()
        invariant
            off <= b@.len(),
            r@.map_values(|s: String| s@) + parse_member_lids(b@.skip(off as int)) == parse_member_lids(b@),
        decreases b@.len() - off,
    {
        let ghost s = b@.skip(off as int);
        let len = b[off] as usize;
        if len > b.len() - off - 1 {
            assert(parse_member_lids(s) =~= Seq::<Seq<char>>::empty());
            assert(r@.map_values(|s: String| s@) + Seq::<Seq<char>>::empty() =~= r@.map_values(|s: String| s@));
            return r;
        }
        let entry = crate::bytes::copy_range(b, off + 1, off + 1 + len);
        assert(entry@ =~= s.subrange(1, 1 + s[0]));
        let lid = string_from_utf8_lossy(entry.as_slice());
        let ghost before = r@.map_values(|s: String| s@);
        r.push(lid);
        assert(s.skip(1 + s[0]) =~= b@.skip(off + 1 + len));
        assert(r@.map_values(|s: String| s@) =~= before.push(lid@));
        assert(before.push(lid@) + parse_member_lids(b@.skip(off + 1 + len)) =~= before + (seq![lid@] + parse_member_lids(b@.skip(off + 1 + len))));
        off = off + 1 + len;
    }
    assert(parse_member_lids(b@.skip(off as int)) =~= Seq::<Seq<char>>::empty());
    assert(r@.map_values(|s: String| s@) + Seq::<Seq<char>>::empty() =~= r@.map_values(|s: String| s@));
    r
}

/// The quorum members read from the decoded fields.
fn decode_members(reader: &TlvReader) -> (r: Vec<QuorumMemberRef>)
    ensures
        members_view(r@) == zip_members(
            parse_member_keys(raw_or_empty(reader@, op_fields::QUORUM_MEMBERS)),
            parse_member_lids(raw_or_empty(reader@, op_fields::QUORUM_MEMBER_LEDGER_IDS)),
        ),
{
    let empty: Vec<u8> = Vec::new();
    let keys_bytes = match reader.read_raw_opt(op_fields::QUORUM_MEMBERS) {
        Some(b) => b,
        None => empty.as_slice(),
    };
    let keys = decode_member_keys(keys_bytes);
    let lids_bytes = match reader.read_raw_opt(op_fields::QUORUM_MEMBER_LEDGER_IDS) {
        Some(b) => b,
        None => empty.as_slice(),
    };
    let lids = decode_member_lids(lids_bytes);
    let ghost kv = keys@.map_values(|k: PublicKey| k@);
    let ghost lv = lids@.map_values(|s: String| s@);
    let ghost target = zip_members(kv, lv);
    let mut r: Vec<QuorumMemberRef> = Vec::new();
    let mut i: usize = 0;
    while i < keys.len()
        invariant
            i <= keys@.len(),
            kv == keys@.map_values(|k: PublicKey| k@),
            lv == lids@.map_values(|s: String| s@),
            target == zip_members(kv, lv),
            members_view(r@) == target.take(i as int),
        decreases keys@.len() - i,
    {
        let lid = if i < lids.len() {
            lids[i].clone()
        } else {
            String::new()
        };
        let member = QuorumMemberRef { pubkey: keys[i], member_ledger_id: lid };
        let ghost before = members_view(r@);
        r.push(member);
        assert(members_view(r@) =~= before.push(member@));
        assert(target.take(i + 1) =~= target.take(i as int).push(target[i as int]));
        assert(member@ == target[i as int]);
        i = i + 1;
    }
    assert(target.take(i as int) =~= target);
    r
}

fn decode_quorum_begin(reader: &TlvReader) -> (r: TlvResult<LedgerOperation>)
    ensures
        outcome_view(r, decoded_quorum_begin(reader@)),
{
    let quorum_members = decode_members(reader);
    let reserves_id = match reader.read_string(op_fields::RESERVES_ID) {
        Ok(v) => v,
        Err(e) => {
            return Err(e);
        },
    };
    let spending_txid = match reader.read_bytes::<32>(op_fields::SPENDING_TXID) {
        Ok(v) => v,
        Err(e) => {
            return Err(e);
        },
    };
    let new_outpoint_txid = match reader.read_bytes::<32>(op_fields::NEW_OUTPOINT_TXID) {
        Ok(v) => v,
        Err(e) => {
            return Err(e);
        },
    };
    let new_outpoint_vout = match reader.read_u32(op_fields::NEW_OUTPOINT_VOUT) {
        Ok(v) => v,
        Err(e) => {
            return Err(e);
        },
    };
    let amount = match reader.read_u64(op_fields::AMOUNT) {
        Ok(v) => v,
        Err(e) => {
            return Err(e);
        },
    };
    let quorum_expiry = match reader.read_u32(op_fields::QUORUM_EXPIRY) {
        Ok(v) => v,
        Err(e) => {
            return Err(e);
        },
    };
    let ledger_hash = match reader.read_bytes::<32>(op_fields::LEDGER_HASH) {
        Ok(v) => v,
        Err(e) => {
            return Err(e);
        },
    };
    let collateral_amount = match reader.read_u64(op_fields::TOTAL_COLLATERAL) {
        Ok(v) => v,
        Err(e) => {
            return Err(e);
        },
    };
    Ok(
        LedgerOperation::QuorumBegin {
            reserves_id,
            spending_txid,
            new_outpoint_txid,
            new_outpoint_vout,
            amount,
            quorum_expiry,
            ledger_hash,
            quorum_members,
            collateral_amount,
        },
    )
}

fn decode_dispute_armed(reader: &TlvReader) -> (r: TlvResult<LedgerOperation>)
    ensures
        outcome_view(r, decoded_dispute_armed(reader@)),
{
    let armed_block = match reader.read_u32(op_fields::ARMED_BLOCK) {
        Ok(v) => v,
        Err(e) => {
            return Err(e);
        },
    };
    let commitment_hash = match reader.read_bytes::<20>(op_fields::COMMITMENT_HASH) {
        Ok(v) => v,
        Err(e) => {
            return Err(e);
        },
    };
    let target_reserves = match reader.read_string(op_fields::TARGET_RESERVES) {
        Ok(v) => v,
        Err(e) => {
            return Err(e);
        },
    };
    let rc_txid = match reader.read_bytes_opt::<32>(op_fields::REPLACEMENT_COLLATERAL_TXID) {
        Ok(v) => v,
        Err(e) => {
            return Err(e);
        },
    };
    let rc_vout = match reader.read_u32_opt(op_fields::REPLACEMENT_COLLATERAL_VOUT) {
        Ok(v) => v,
        Err(e) => {
            return Err(e);
        },
    };
    let rc_amount = match reader.read_u64_opt(op_fields::REPLACEMENT_COLLATERAL_AMOUNT) {
        Ok(v) => v,
        Err(e) => {
            return Err(e);
        },
    };
    let replacement_collateral = match (rc_txid, rc_vout, rc_amount) {
        (Some(txid), Some(vout), Some(amount)) => Some(ReplacementCollateral { txid, vout, amount }),
        (None, None, None) => None,
        _ => {
            let reason = "DisputeArmed replacement_collateral fields must be all present or all absent".to_owned();
            return Err(
                TlvError::InvalidFieldValue {
                    field_type: op_fields::REPLACEMENT_COLLATERAL_TXID,
                    reason,
                },
            );
        },
    };
    Ok(LedgerOperation::DisputeArmed { armed_block, commitment_hash, target_reserves, replacement_collateral })
}

impl TlvDecode for LedgerOperation {
    open spec fn tlv_decodes(data: Seq<u8>, r: TlvResult<Self>) -> bool {
        outcome_view(r, parse_with(data, |m: Map<u64, Seq<u8>>| operation_from_fields(m)))
    }

    fn tlv_decode(data: &[u8]) -> (r: TlvResult<Self>) {
        let reader = match TlvReader::new(data) {
            Ok(r) => r,
            Err(e) => {
                return Err(e);
            },
        };
        let disc = match reader.read_u8(op_fields::DISCRIMINANT) {
            Ok(d) => d,
            Err(e) => {
                return Err(e);
            },
        };
        match disc {
            12 => decode_quorum_begin(&reader),
            57 => decode_dispute_armed(&reader),
            56 => Ok(LedgerOperation::DisputeYield),
            60 => Ok(LedgerOperation::LedgerClose),
            1 => decode_ledger_open(&reader),
            20 => decode_deposit_open(&reader),
            21 => decode_deposit_close(&reader),
            22 => decode_fee_change(&reader),
            23 => decode_deposit_key_rotate(&reader),
            30 => decode_invoice_credit(&reader),
            31 => decode_invoice_lock(&reader),
            32 => decode_invoice_fail(&reader),
            33 => decode_invoice_fulfill(&reader),
            35 => decode_onchain_credit(&reader),
            36 => decode_onchain_lock(&reader),
            37 => decode_onchain_fail(&reader),
            38 => decode_onchain_fulfill(&reader),
            70 => decode_transfer_lock(&reader),
            71 => decode_transfer_complete(&reader),
            72 => decode_transfer_fail(&reader),
            43 => decode_quorum_add_member(&reader),
            44 => decode_quorum_remove_member(&reader),
            46 => decode_quorum_join(&reader),
            50 => decode_fee_collect(&reader),
            54 => decode_dispute_enter(&reader),
            55 => decode_dispute_acquire(&reader),
            80 => decode_delivery_embed(&reader),
            d => {
                let reason = text_with_number("unknown LedgerOperation discriminant: ", d as u64, "");
                proof {
                    reveal_strlit("");
                    assert(reason@ =~= "unknown LedgerOperation discriminant: "@ + decimal_digits(d as nat));
                }
                Err(TlvError::InvalidFieldValue { field_type: op_fields::DISCRIMINANT, reason })
            },
        }
    }
}

} // verus!
