//! Field-by-field copies of ledger operations, with their views preserved.

use vstd::prelude::*;

use crate::operation::{members_view, opt_text, LedgerOperation, QuorumMemberRef};
use crate::types::{stack_view, DescriptorWitness};

verus! {

/// A copy of an optional string.
fn copy_opt_text(o: &Option<String>) -> (r: Option<String>)
    ensures
        opt_text(r) == opt_text(*o),
{
    match o {
        Some(s) => Some(s.clone()),
        None => None,
    }
}

/// A copy of a witness, element by element.
pub fn copy_witness(w: &DescriptorWitness) -> (r: DescriptorWitness)
    ensures
        r@ == w@,
{
    let mut stack: Vec<Vec<u8>> = Vec::new();
    let mut i: usize = 0;
    while i < w.stack.len()
        invariant
            i <= w.stack@.len(),
            stack@.len() == i,
            forall|j: int| 0 <= j < i ==> (#[trigger] stack@[j])@ == w.stack@[j]@,
        decreases w.stack@.len() - i,
    {
        let e = crate::bytes::copy_range(w.stack[i].as_slice(), 0, w.stack[i].len());
        assert(e@ =~= w.stack@[i as int]@);
        stack.push(e);
        i = i + 1;
    }
    let r = DescriptorWitness { stack };
    assert(r@ =~= w@);
    r
}

/// A copy of quorum member references.
fn copy_member_refs(ms: &Vec<QuorumMemberRef>) -> (r: Vec<QuorumMemberRef>)
    ensures
        members_view(r@) == members_view(ms@),
{
    let mut out: Vec<QuorumMemberRef> = Vec::new();
    let mut i: usize = 0;
    while i < ms.len()
        invariant
            i <= ms@.len(),
            out@.len() == i,
            forall|j: int| 0 <= j < i ==> (#[trigger] out@[j])@ == ms@[j]@,
        decreases ms@.len() - i,
    {
        let m = QuorumMemberRef { pubkey: ms[i].pubkey, member_ledger_id: ms[i].member_ledger_id.clone() };
        out.push(m);
        i = i + 1;
    }
    assert(members_view(out@) =~= members_view(ms@));
    out
}

/// A copy of `op`, field by field.
pub fn copy_operation(op: &LedgerOperation) -> (r: LedgerOperation)
    ensures
        r@ == op@,
{
    match op {
        LedgerOperation::LedgerOpen { operator_id, reserves_id, genesis_block, reserves_amount, collateral_amount } => LedgerOperation::LedgerOpen { operator_id: *operator_id, reserves_id: reserves_id.clone(), genesis_block: *genesis_block, reserves_amount: *reserves_amount, collateral_amount: *collateral_amount },
        LedgerOperation::QuorumBegin { reserves_id, spending_txid, new_outpoint_txid, new_outpoint_vout, amount, quorum_expiry, ledger_hash, quorum_members, collateral_amount } => LedgerOperation::QuorumBegin { reserves_id: reserves_id.clone(), spending_txid: *spending_txid, new_outpoint_txid: *new_outpoint_txid, new_outpoint_vout: *new_outpoint_vout, amount: *amount, quorum_expiry: *quorum_expiry, ledger_hash: *ledger_hash, quorum_members: copy_member_refs(quorum_members), collateral_amount: *collateral_amount },
        LedgerOperation::DepositOpen { deposit_id, descriptor, fees, transfer_fees, payment_hash, invoice, cosigner_guarantee_signature, receive_requires_sig, fee_change_after_blocks, fee_change_notice_blocks, fee_change_limit_bps } => LedgerOperation::DepositOpen { deposit_id: *deposit_id, descriptor: descriptor.clone(), fees: *fees, transfer_fees: *transfer_fees, payment_hash: *payment_hash, invoice: copy_opt_text(invoice), cosigner_guarantee_signature: *cosigner_guarantee_signature, receive_requires_sig: *receive_requires_sig, fee_change_after_blocks: *fee_change_after_blocks, fee_change_notice_blocks: *fee_change_notice_blocks, fee_change_limit_bps: *fee_change_limit_bps },
        LedgerOperation::DepositClose { deposit_id } => LedgerOperation::DepositClose { deposit_id: *deposit_id },
        LedgerOperation::FeeChange { deposit_id, new_fees, effective_block } => LedgerOperation::FeeChange { deposit_id: *deposit_id, new_fees: *new_fees, effective_block: *effective_block },
        LedgerOperation::DepositKeyRotate { deposit_id, new_descriptor, witness } => LedgerOperation::DepositKeyRotate { deposit_id: *deposit_id, new_descriptor: new_descriptor.clone(), witness: copy_witness(witness) },
        LedgerOperation::InvoiceCredit { payment_hash, deposit_id, amount, invoice_id, sequence_number } => LedgerOperation::InvoiceCredit { payment_hash: *payment_hash, deposit_id: *deposit_id, amount: *amount, invoice_id: invoice_id.clone(), sequence_number: *sequence_number },
        LedgerOperation::InvoiceLock { deposit_id, amount, payment_id, sequence_number, witness } => LedgerOperation::InvoiceLock { deposit_id: *deposit_id, amount: *amount, payment_id: *payment_id, sequence_number: *sequence_number, witness: copy_witness(witness) },
        LedgerOperation::InvoiceFail { deposit_id, amount, payment_id, sequence_number } => LedgerOperation::InvoiceFail { deposit_id: *deposit_id, amount: *amount, payment_id: *payment_id, sequence_number: *sequence_number },
        LedgerOperation::InvoiceFulfill { deposit_id, amount, payment_id, sequence_number, witness, preimage } => LedgerOperation::InvoiceFulfill { deposit_id: *deposit_id, amount: *amount, payment_id: *payment_id, sequence_number: *sequence_number, witness: copy_witness(witness), preimage: *preimage },
        LedgerOperation::OnchainCredit { txid, vout, deposit_id, amount, funding_address } => LedgerOperation::OnchainCredit { txid: *txid, vout: *vout, deposit_id: *deposit_id, amount: *amount, funding_address: funding_address.clone() },
        LedgerOperation::OnchainLock { deposit_id, amount, fee_sats, destination_address, withdrawal_id, witness } => LedgerOperation::OnchainLock { deposit_id: *deposit_id, amount: *amount, fee_sats: *fee_sats, destination_address: destination_address.clone(), withdrawal_id: *withdrawal_id, witness: copy_witness(witness) },
        LedgerOperation::OnchainFail { deposit_id, withdrawal_id } => LedgerOperation::OnchainFail { deposit_id: *deposit_id, withdrawal_id: *withdrawal_id },
        LedgerOperation::OnchainFulfill { deposit_id, withdrawal_id, amount, txid, destination_address } => LedgerOperation::OnchainFulfill { deposit_id: *deposit_id, withdrawal_id: *withdrawal_id, amount: *amount, txid: *txid, destination_address: destination_address.clone() },
        LedgerOperation::TransferLock { nonce, source_deposit_id, destination_deposit_id, amount, fee, completion_script, timeout_height, transfer_id, witness } => LedgerOperation::TransferLock { nonce: *nonce, source_deposit_id: *source_deposit_id, destination_deposit_id: *destination_deposit_id, amount: *amount, fee: *fee, completion_script: completion_script.clone(), timeout_height: *timeout_height, transfer_id: *transfer_id, witness: copy_witness(witness) },
        LedgerOperation::TransferComplete { transfer_id, script_witness } => LedgerOperation::TransferComplete { transfer_id: *transfer_id, script_witness: copy_witness(script_witness) },
        LedgerOperation::TransferFail { transfer_id, block_hash, reason } => LedgerOperation::TransferFail { transfer_id: *transfer_id, block_hash: *block_hash, reason: *reason },
        LedgerOperation::QuorumAddMember { quorum_member, quorum_member_signature, member_ledger_id, min_fee_bps, min_fee_fixed, max_fee_period, membership_until, dispute_response_blocks, dispute_arm_blocks, service_response_blocks, max_transfer_timeout_blocks, max_descriptor_bytes, compensation_bps, compensation_deposit_id, compensation_frequency_blocks } => LedgerOperation::QuorumAddMember { quorum_member: *quorum_member, quorum_member_signature: *quorum_member_signature, member_ledger_id: member_ledger_id.clone(), min_fee_bps: *min_fee_bps, min_fee_fixed: *min_fee_fixed, max_fee_period: *max_fee_period, membership_until: *membership_until, dispute_response_blocks: *dispute_response_blocks, dispute_arm_blocks: *dispute_arm_blocks, service_response_blocks: *service_response_blocks, max_transfer_timeout_blocks: *max_transfer_timeout_blocks, max_descriptor_bytes: *max_descriptor_bytes, compensation_bps: *compensation_bps, compensation_deposit_id: *compensation_deposit_id, compensation_frequency_blocks: *compensation_frequency_blocks },
        LedgerOperation::QuorumRemoveMember { quorum_member, operator_signature } => LedgerOperation::QuorumRemoveMember { quorum_member: *quorum_member, operator_signature: *operator_signature },
        LedgerOperation::QuorumJoin { operator_id, ledger_id, membership_expires } => LedgerOperation::QuorumJoin { operator_id: *operator_id, ledger_id: ledger_id.clone(), membership_expires: *membership_expires },
        LedgerOperation::FeeCollect { deposit_id, amount, block_height } => LedgerOperation::FeeCollect { deposit_id: *deposit_id, amount: *amount, block_height: *block_height },
        LedgerOperation::DisputeEnter { last_valid_sequence, reason } => LedgerOperation::DisputeEnter { last_valid_sequence: *last_valid_sequence, reason: reason.clone() },
        LedgerOperation::DisputeArmed { armed_block, commitment_hash, target_reserves, replacement_collateral } => LedgerOperation::DisputeArmed { armed_block: *armed_block, commitment_hash: *commitment_hash, target_reserves: target_reserves.clone(), replacement_collateral: *replacement_collateral },
        LedgerOperation::DisputeAcquire { new_custodian, claim_txid, new_reserves_address } => LedgerOperation::DisputeAcquire { new_custodian: *new_custodian, claim_txid: *claim_txid, new_reserves_address: new_reserves_address.clone() },
        LedgerOperation::DisputeYield => LedgerOperation::DisputeYield,
        LedgerOperation::DeliveryEmbed { request_hash, target_ledger_id, target_operator } => LedgerOperation::DeliveryEmbed { request_hash: *request_hash, target_ledger_id: *target_ledger_id, target_operator: *target_operator },
        LedgerOperation::LedgerClose => LedgerOperation::LedgerClose,
    }
}

} // verus!
