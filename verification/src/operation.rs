//! Ledger operations: every change a ledger update can carry.

use vstd::prelude::*;

use crate::messages::{
    DEPOSIT_CLOSE, DEPOSIT_KEY_ROTATE, DEPOSIT_OPEN, FEE_CHANGE, LEDGER_CLOSE,
    LEDGER_OPEN_REQUEST, LEDGER_UPDATE, MAINTENANCE_FEE_COLLECT, ONCHAIN_CREDIT, ONCHAIN_FAIL,
    ONCHAIN_FULFILL, ONCHAIN_LOCK, QUORUM_ADD_MEMBER, QUORUM_BEGIN, QUORUM_JOIN,
    QUORUM_REMOVE_MEMBER, RECEIVING_CREDIT_PAYMENT, SENDING_FAIL_PAYMENT,
    SENDING_FULFILL_PAYMENT, SENDING_LOCK_PAYMENT, TRANSFER_COMPLETE, TRANSFER_FAIL,
    TRANSFER_LOCK,
};
use crate::pubkey::PublicKey;
use crate::types::{DepositId, DescriptorWitness, FeeStructure, TransferFeeSchedule};

verus! {

/// A quorum member's identity at the moment of `QuorumBegin`: its signing
/// key and the ledger holding its collateral (empty where unknown).
#[derive(Clone, Debug, PartialEq, Eq)]
pub struct QuorumMemberRef {
    pub pubkey: PublicKey,
    /// Hex ledger identifier of the member's own ledger, or empty.
    pub member_ledger_id: String,
}

impl View for QuorumMemberRef {
    type V = (Seq<u8>, Seq<char>);

    open spec fn view(&self) -> (Seq<u8>, Seq<char>) {
        (self.pubkey@, self.member_ledger_id@)
    }
}

impl QuorumMemberRef {
    /// A member known only by its key.
    pub fn pubkey_only(pubkey: PublicKey) -> (r: Self)
        ensures
            r@ == (pubkey@, Seq::<char>::empty()),
    {
        let r = QuorumMemberRef { pubkey, member_ledger_id: String::new() };
        assert(r.member_ledger_id@ =~= Seq::<char>::empty());
        r
    }

    /// A member with its key and ledger identifier.
    pub fn new(pubkey: PublicKey, member_ledger_id: String) -> (r: Self)
        ensures
            r@ == (pubkey@, member_ledger_id@),
    {
        QuorumMemberRef { pubkey, member_ledger_id }
    }
}

/// Replacement collateral a disputant pledges in `DisputeArmed`.
#[derive(Clone, Copy, Debug, PartialEq, Eq)]
pub struct ReplacementCollateral {
    /// Outpoint txid.
    pub txid: [u8; 32],
    /// Outpoint vout.
    pub vout: u32,
    /// Sats pledged from the outpoint.
    pub amount: u64,
}

impl View for ReplacementCollateral {
    type V = (Seq<u8>, u32, u64);

    open spec fn view(&self) -> (Seq<u8>, u32, u64) {
        (self.txid@, self.vout, self.amount)
    }
}

/// All ledger operations.
#[derive(Clone, Debug, PartialEq, Eq)]
pub enum LedgerOperation {
    /// Open a new ledger (the first operation).
    LedgerOpen {
        operator_id: PublicKey,
        reserves_id: String,
        genesis_block: u32,
        reserves_amount: u64,
        collateral_amount: u64,
    },
    /// Establish or refresh the quorum and rotate the reserves output.
    QuorumBegin {
        reserves_id: String,
        spending_txid: [u8; 32],
        new_outpoint_txid: [u8; 32],
        new_outpoint_vout: u32,
        amount: u64,
        quorum_expiry: u32,
        ledger_hash: [u8; 32],
        quorum_members: Vec<QuorumMemberRef>,
        collateral_amount: u64,
    },
    /// Open a deposit.
    DepositOpen {
        deposit_id: DepositId,
        descriptor: String,
        fees: Option<FeeStructure>,
        transfer_fees: Option<TransferFeeSchedule>,
        payment_hash: Option<[u8; 32]>,
        invoice: Option<String>,
        cosigner_guarantee_signature: Option<[u8; 64]>,
        receive_requires_sig: bool,
        fee_change_after_blocks: Option<u32>,
        fee_change_notice_blocks: Option<u32>,
        fee_change_limit_bps: Option<u16>,
    },
    /// Close a deposit.
    DepositClose { deposit_id: DepositId },
    /// Announce a fee change.
    FeeChange { deposit_id: DepositId, new_fees: FeeStructure, effective_block: u32 },
    /// Rotate a deposit's descriptor.
    DepositKeyRotate { deposit_id: DepositId, new_descriptor: String, witness: DescriptorWitness },
    /// Credit a received invoice payment.
    InvoiceCredit {
        payment_hash: [u8; 32],
        deposit_id: DepositId,
        amount: u64,
        invoice_id: String,
        sequence_number: u64,
    },
    /// Lock funds for an outgoing invoice payment.
    InvoiceLock {
        deposit_id: DepositId,
        amount: u64,
        payment_id: [u8; 32],
        sequence_number: u64,
        witness: DescriptorWitness,
    },
    /// Fail a pending invoice payment.
    InvoiceFail { deposit_id: DepositId, amount: u64, payment_id: [u8; 32], sequence_number: u64 },
    /// Fulfill a pending invoice payment.
    InvoiceFulfill {
        deposit_id: DepositId,
        amount: u64,
        payment_id: [u8; 32],
        sequence_number: u64,
        witness: DescriptorWitness,
        preimage: [u8; 32],
    },
    /// Credit received on-chain funds.
    OnchainCredit {
        txid: [u8; 32],
        vout: u32,
        deposit_id: DepositId,
        amount: u64,
        funding_address: String,
    },
    /// Lock funds for an on-chain withdrawal.
    OnchainLock {
        deposit_id: DepositId,
        amount: u64,
        fee_sats: u64,
        destination_address: String,
        withdrawal_id: [u8; 32],
        witness: DescriptorWitness,
    },
    /// Fail a pending on-chain withdrawal.
    OnchainFail { deposit_id: DepositId, withdrawal_id: [u8; 32] },
    /// Fulfill an on-chain withdrawal.
    OnchainFulfill {
        deposit_id: DepositId,
        withdrawal_id: [u8; 32],
        amount: u64,
        txid: [u8; 32],
        destination_address: String,
    },
    /// Lock funds for a conditional transfer between deposits.
    TransferLock {
        nonce: [u8; 32],
        source_deposit_id: DepositId,
        destination_deposit_id: DepositId,
        amount: u64,
        fee: u64,
        completion_script: String,
        timeout_height: u32,
        transfer_id: [u8; 32],
        witness: DescriptorWitness,
    },
    /// Complete a transfer by satisfying its completion script.
    TransferComplete { transfer_id: [u8; 32], script_witness: DescriptorWitness },
    /// Fail a transfer and return its funds (reason 1: timeout).
    TransferFail { transfer_id: [u8; 32], block_hash: [u8; 32], reason: u8 },
    /// Add a quorum member, with the terms it requires.
    QuorumAddMember {
        quorum_member: PublicKey,
        quorum_member_signature: [u8; 64],
        member_ledger_id: String,
        min_fee_bps: Option<u16>,
        min_fee_fixed: Option<u64>,
        max_fee_period: Option<u32>,
        membership_until: Option<u32>,
        dispute_response_blocks: Option<u32>,
        dispute_arm_blocks: Option<u32>,
        service_response_blocks: Option<u32>,
        max_transfer_timeout_blocks: Option<u32>,
        max_descriptor_bytes: Option<u32>,
        compensation_bps: Option<u16>,
        compensation_deposit_id: Option<DepositId>,
        compensation_frequency_blocks: Option<u32>,
    },
    /// Remove a quorum member.
    QuorumRemoveMember { quorum_member: PublicKey, operator_signature: [u8; 64] },
    /// Record joining another operator's quorum as a monitoring member, on
    /// the consenting party's own ledger. Ratchet semantics: it can only
    /// extend the membership's duration.
    QuorumJoin { operator_id: PublicKey, ledger_id: String, membership_expires: u32 },
    /// Collect maintenance fees from a deposit.
    FeeCollect { deposit_id: DepositId, amount: u64, block_height: u32 },
    /// Open a custody dispute.
    DisputeEnter { last_valid_sequence: u64, reason: String },
    /// Arm for the custody lottery.
    DisputeArmed {
        armed_block: u32,
        commitment_hash: [u8; 20],
        target_reserves: String,
        replacement_collateral: Option<ReplacementCollateral>,
    },
    /// Acquire custody after winning the lottery.
    DisputeAcquire { new_custodian: PublicKey, claim_txid: [u8; 32], new_reserves_address: String },
    /// Yield a custody claim; tombstones the branch.
    DisputeYield,
    /// Embed a wallet's request hash for certified delivery.
    DeliveryEmbed { request_hash: [u8; 32], target_ledger_id: [u8; 32], target_operator: PublicKey },
    /// Close the ledger.
    LedgerClose,
}

/// A ledger operation with each field taken by its view: keys and byte
/// arrays as byte sequences, strings as characters, witnesses as stacks.
pub enum OperationView {
    LedgerOpen {
        operator_id: Seq<u8>,
        reserves_id: Seq<char>,
        genesis_block: u32,
        reserves_amount: u64,
        collateral_amount: u64,
    },
    QuorumBegin {
        reserves_id: Seq<char>,
        spending_txid: Seq<u8>,
        new_outpoint_txid: Seq<u8>,
        new_outpoint_vout: u32,
        amount: u64,
        quorum_expiry: u32,
        ledger_hash: Seq<u8>,
        quorum_members: Seq<(Seq<u8>, Seq<char>)>,
        collateral_amount: u64,
    },
    DepositOpen {
        deposit_id: Seq<u8>,
        descriptor: Seq<char>,
        fees: Option<FeeStructure>,
        transfer_fees: Option<TransferFeeSchedule>,
        payment_hash: Option<Seq<u8>>,
        invoice: Option<Seq<char>>,
        cosigner_guarantee_signature: Option<Seq<u8>>,
        receive_requires_sig: bool,
        fee_change_after_blocks: Option<u32>,
        fee_change_notice_blocks: Option<u32>,
        fee_change_limit_bps: Option<u16>,
    },
    DepositClose { deposit_id: Seq<u8> },
    FeeChange { deposit_id: Seq<u8>, new_fees: FeeStructure, effective_block: u32 },
    DepositKeyRotate { deposit_id: Seq<u8>, new_descriptor: Seq<char>, witness: Seq<Seq<u8>> },
    InvoiceCredit {
        payment_hash: Seq<u8>,
        deposit_id: Seq<u8>,
        amount: u64,
        invoice_id: Seq<char>,
        sequence_number: u64,
    },
    InvoiceLock {
        deposit_id: Seq<u8>,
        amount: u64,
        payment_id: Seq<u8>,
        sequence_number: u64,
        witness: Seq<Seq<u8>>,
    },
    InvoiceFail { deposit_id: Seq<u8>, amount: u64, payment_id: Seq<u8>, sequence_number: u64 },
    InvoiceFulfill {
        deposit_id: Seq<u8>,
        amount: u64,
        payment_id: Seq<u8>,
        sequence_number: u64,
        witness: Seq<Seq<u8>>,
        preimage: Seq<u8>,
    },
    OnchainCredit {
        txid: Seq<u8>,
        vout: u32,
        deposit_id: Seq<u8>,
        amount: u64,
        funding_address: Seq<char>,
    },
    OnchainLock {
        deposit_id: Seq<u8>,
        amount: u64,
        fee_sats: u64,
        destination_address: Seq<char>,
        withdrawal_id: Seq<u8>,
        witness: Seq<Seq<u8>>,
    },
    OnchainFail { deposit_id: Seq<u8>, withdrawal_id: Seq<u8> },
    OnchainFulfill {
        deposit_id: Seq<u8>,
        withdrawal_id: Seq<u8>,
        amount: u64,
        txid: Seq<u8>,
        destination_address: Seq<char>,
    },
    TransferLock {
        nonce: Seq<u8>,
        source_deposit_id: Seq<u8>,
        destination_deposit_id: Seq<u8>,
        amount: u64,
        fee: u64,
        completion_script: Seq<char>,
        timeout_height: u32,
        transfer_id: Seq<u8>,
        witness: Seq<Seq<u8>>,
    },
    TransferComplete { transfer_id: Seq<u8>, script_witness: Seq<Seq<u8>> },
    TransferFail { transfer_id: Seq<u8>, block_hash: Seq<u8>, reason: u8 },
    QuorumAddMember {
        quorum_member: Seq<u8>,
        quorum_member_signature: Seq<u8>,
        member_ledger_id: Seq<char>,
        min_fee_bps: Option<u16>,
        min_fee_fixed: Option<u64>,
        max_fee_period: Option<u32>,
        membership_until: Option<u32>,
        dispute_response_blocks: Option<u32>,
        dispute_arm_blocks: Option<u32>,
        service_response_blocks: Option<u32>,
        max_transfer_timeout_blocks: Option<u32>,
        max_descriptor_bytes: Option<u32>,
        compensation_bps: Option<u16>,
        compensation_deposit_id: Option<Seq<u8>>,
        compensation_frequency_blocks: Option<u32>,
    },
    QuorumRemoveMember { quorum_member: Seq<u8>, operator_signature: Seq<u8> },
    QuorumJoin { operator_id: Seq<u8>, ledger_id: Seq<char>, membership_expires: u32 },
    FeeCollect { deposit_id: Seq<u8>, amount: u64, block_height: u32 },
    DisputeEnter { last_valid_sequence: u64, reason: Seq<char> },
    DisputeArmed {
        armed_block: u32,
        commitment_hash: Seq<u8>,
        target_reserves: Seq<char>,
        replacement_collateral: Option<(Seq<u8>, u32, u64)>,
    },
    DisputeAcquire { new_custodian: Seq<u8>, claim_txid: Seq<u8>, new_reserves_address: Seq<char> },
    DisputeYield,
    DeliveryEmbed { request_hash: Seq<u8>, target_ledger_id: Seq<u8>, target_operator: Seq<u8> },
    LedgerClose,
}

/// An optional byte array, by its view.
pub open spec fn opt_bytes<const N: usize>(o: Option<[u8; N]>) -> Option<Seq<u8>> {
    match o {
        Some(a) => Some(a@),
        None => None,
    }
}

/// An optional string, by its view.
pub open spec fn opt_text(o: Option<String>) -> Option<Seq<char>> {
    match o {
        Some(s) => Some(s@),
        None => None,
    }
}

/// Quorum members, by their views.
pub open spec fn members_view(members: Seq<QuorumMemberRef>) -> Seq<(Seq<u8>, Seq<char>)> {
    members.map_values(|m: QuorumMemberRef| m@)
}

impl View for LedgerOperation {
    type V = OperationView;

    open spec fn view(&self) -> OperationView {
        match self {
            LedgerOperation::LedgerOpen {
                operator_id,
                reserves_id,
                genesis_block,
                reserves_amount,
                collateral_amount,
            } => OperationView::LedgerOpen {
                operator_id: operator_id@,
                reserves_id: reserves_id@,
                genesis_block: *genesis_block,
                reserves_amount: *reserves_amount,
                collateral_amount: *collateral_amount,
            },
            LedgerOperation::QuorumBegin {
                reserves_id,
                spending_txid,
                new_outpoint_txid,
                new_outpoint_vout,
                amount,
                quorum_expiry,
                ledger_hash,
                quorum_members,
                collateral_amount,
            } => OperationView::QuorumBegin {
                reserves_id: reserves_id@,
                spending_txid: spending_txid@,
                new_outpoint_txid: new_outpoint_txid@,
                new_outpoint_vout: *new_outpoint_vout,
                amount: *amount,
                quorum_expiry: *quorum_expiry,
                ledger_hash: ledger_hash@,
                quorum_members: members_view(quorum_members@),
                collateral_amount: *collateral_amount,
            },
            LedgerOperation::DepositOpen {
                deposit_id,
                descriptor,
                fees,
                transfer_fees,
                payment_hash,
                invoice,
                cosigner_guarantee_signature,
                receive_requires_sig,
                fee_change_after_blocks,
                fee_change_notice_blocks,
                fee_change_limit_bps,
            } => OperationView::DepositOpen {
                deposit_id: deposit_id@,
                descriptor: descriptor@,
                fees: *fees,
                transfer_fees: *transfer_fees,
                payment_hash: opt_bytes(*payment_hash),
                invoice: opt_text(*invoice),
                cosigner_guarantee_signature: opt_bytes(*cosigner_guarantee_signature),
                receive_requires_sig: *receive_requires_sig,
                fee_change_after_blocks: *fee_change_after_blocks,
                fee_change_notice_blocks: *fee_change_notice_blocks,
                fee_change_limit_bps: *fee_change_limit_bps,
            },
            LedgerOperation::DepositClose { deposit_id } => OperationView::DepositClose {
                deposit_id: deposit_id@,
            },
            LedgerOperation::FeeChange { deposit_id, new_fees, effective_block } =>
                OperationView::FeeChange {
                deposit_id: deposit_id@,
                new_fees: *new_fees,
                effective_block: *effective_block,
            },
            LedgerOperation::DepositKeyRotate { deposit_id, new_descriptor, witness } =>
                OperationView::DepositKeyRotate {
                deposit_id: deposit_id@,
                new_descriptor: new_descriptor@,
                witness: witness@,
            },
            LedgerOperation::InvoiceCredit {
                payment_hash,
                deposit_id,
                amount,
                invoice_id,
                sequence_number,
            } => OperationView::InvoiceCredit {
                payment_hash: payment_hash@,
                deposit_id: deposit_id@,
                amount: *amount,
                invoice_id: invoice_id@,
                sequence_number: *sequence_number,
            },
            LedgerOperation::InvoiceLock {
                deposit_id,
                amount,
                payment_id,
                sequence_number,
                witness,
            } => OperationView::InvoiceLock {
                deposit_id: deposit_id@,
                amount: *amount,
                payment_id: payment_id@,
                sequence_number: *sequence_number,
                witness: witness@,
            },
            LedgerOperation::InvoiceFail { deposit_id, amount, payment_id, sequence_number } =>
                OperationView::InvoiceFail {
                deposit_id: deposit_id@,
                amount: *amount,
                payment_id: payment_id@,
                sequence_number: *sequence_number,
            },
            LedgerOperation::InvoiceFulfill {
                deposit_id,
                amount,
                payment_id,
                sequence_number,
                witness,
                preimage,
            } => OperationView::InvoiceFulfill {
                deposit_id: deposit_id@,
                amount: *amount,
                payment_id: payment_id@,
                sequence_number: *sequence_number,
                witness: witness@,
                preimage: preimage@,
            },
            LedgerOperation::OnchainCredit { txid, vout, deposit_id, amount, funding_address } =>
                OperationView::OnchainCredit {
                txid: txid@,
                vout: *vout,
                deposit_id: deposit_id@,
                amount: *amount,
                funding_address: funding_address@,
            },
            LedgerOperation::OnchainLock {
                deposit_id,
                amount,
                fee_sats,
                destination_address,
                withdrawal_id,
                witness,
            } => OperationView::OnchainLock {
                deposit_id: deposit_id@,
                amount: *amount,
                fee_sats: *fee_sats,
                destination_address: destination_address@,
                withdrawal_id: withdrawal_id@,
                witness: witness@,
            },
            LedgerOperation::OnchainFail { deposit_id, withdrawal_id } =>
                OperationView::OnchainFail {
                deposit_id: deposit_id@,
                withdrawal_id: withdrawal_id@,
            },
            LedgerOperation::OnchainFulfill {
                deposit_id,
                withdrawal_id,
                amount,
                txid,
                destination_address,
            } => OperationView::OnchainFulfill {
                deposit_id: deposit_id@,
                withdrawal_id: withdrawal_id@,
                amount: *amount,
                txid: txid@,
                destination_address: destination_address@,
            },
            LedgerOperation::TransferLock {
                nonce,
                source_deposit_id,
                destination_deposit_id,
                amount,
                fee,
                completion_script,
                timeout_height,
                transfer_id,
                witness,
            } => OperationView::TransferLock {
                nonce: nonce@,
                source_deposit_id: source_deposit_id@,
                destination_deposit_id: destination_deposit_id@,
                amount: *amount,
                fee: *fee,
                completion_script: completion_script@,
                timeout_height: *timeout_height,
                transfer_id: transfer_id@,
                witness: witness@,
            },
            LedgerOperation::TransferComplete { transfer_id, script_witness } =>
                OperationView::TransferComplete {
                transfer_id: transfer_id@,
                script_witness: script_witness@,
            },
            LedgerOperation::TransferFail { transfer_id, block_hash, reason } =>
                OperationView::TransferFail {
                transfer_id: transfer_id@,
                block_hash: block_hash@,
                reason: *reason,
            },
            LedgerOperation::QuorumAddMember {
                quorum_member,
                quorum_member_signature,
                member_ledger_id,
                min_fee_bps,
                min_fee_fixed,
                max_fee_period,
                membership_until,
                dispute_response_blocks,
                dispute_arm_blocks,
                service_response_blocks,
                max_transfer_timeout_blocks,
                max_descriptor_bytes,
                compensation_bps,
                compensation_deposit_id,
                compensation_frequency_blocks,
            } => OperationView::QuorumAddMember {
                quorum_member: quorum_member@,
                quorum_member_signature: quorum_member_signature@,
                member_ledger_id: member_ledger_id@,
                min_fee_bps: *min_fee_bps,
                min_fee_fixed: *min_fee_fixed,
                max_fee_period: *max_fee_period,
                membership_until: *membership_until,
                dispute_response_blocks: *dispute_response_blocks,
                dispute_arm_blocks: *dispute_arm_blocks,
                service_response_blocks: *service_response_blocks,
                max_transfer_timeout_blocks: *max_transfer_timeout_blocks,
                max_descriptor_bytes: *max_descriptor_bytes,
                compensation_bps: *compensation_bps,
                compensation_deposit_id: opt_bytes(*compensation_deposit_id),
                compensation_frequency_blocks: *compensation_frequency_blocks,
            },
            LedgerOperation::QuorumRemoveMember { quorum_member, operator_signature } =>
                OperationView::QuorumRemoveMember {
                quorum_member: quorum_member@,
                operator_signature: operator_signature@,
            },
            LedgerOperation::QuorumJoin { operator_id, ledger_id, membership_expires } =>
                OperationView::QuorumJoin {
                operator_id: operator_id@,
                ledger_id: ledger_id@,
                membership_expires: *membership_expires,
            },
            LedgerOperation::FeeCollect { deposit_id, amount, block_height } =>
                OperationView::FeeCollect {
                deposit_id: deposit_id@,
                amount: *amount,
                block_height: *block_height,
            },
            LedgerOperation::DisputeEnter { last_valid_sequence, reason } =>
                OperationView::DisputeEnter {
                last_valid_sequence: *last_valid_sequence,
                reason: reason@,
            },
            LedgerOperation::DisputeArmed {
                armed_block,
                commitment_hash,
                target_reserves,
                replacement_collateral,
            } => OperationView::DisputeArmed {
                armed_block: *armed_block,
                commitment_hash: commitment_hash@,
                target_reserves: target_reserves@,
                replacement_collateral: match replacement_collateral {
                    Some(rc) => Some(rc@),
                    None => None,
                },
            },
            LedgerOperation::DisputeAcquire { new_custodian, claim_txid, new_reserves_address } =>
                OperationView::DisputeAcquire {
                new_custodian: new_custodian@,
                claim_txid: claim_txid@,
                new_reserves_address: new_reserves_address@,
            },
            LedgerOperation::DisputeYield => OperationView::DisputeYield,
            LedgerOperation::DeliveryEmbed { request_hash, target_ledger_id, target_operator } =>
                OperationView::DeliveryEmbed {
                request_hash: request_hash@,
                target_ledger_id: target_ledger_id@,
                target_operator: target_operator@,
            },
            LedgerOperation::LedgerClose => OperationView::LedgerClose,
        }
    }
}


/// The discriminant byte of an operation.
pub open spec fn discriminant_of(v: OperationView) -> u8 {
    match v {
        OperationView::LedgerOpen { .. } => 1,
        OperationView::QuorumBegin { .. } => 12,
        OperationView::DepositOpen { .. } => 20,
        OperationView::DepositClose { .. } => 21,
        OperationView::FeeChange { .. } => 22,
        OperationView::DepositKeyRotate { .. } => 23,
        OperationView::InvoiceCredit { .. } => 30,
        OperationView::InvoiceLock { .. } => 31,
        OperationView::InvoiceFail { .. } => 32,
        OperationView::InvoiceFulfill { .. } => 33,
        OperationView::OnchainCredit { .. } => 35,
        OperationView::OnchainLock { .. } => 36,
        OperationView::OnchainFail { .. } => 37,
        OperationView::OnchainFulfill { .. } => 38,
        OperationView::TransferLock { .. } => 70,
        OperationView::TransferComplete { .. } => 71,
        OperationView::TransferFail { .. } => 72,
        OperationView::QuorumAddMember { .. } => 43,
        OperationView::QuorumRemoveMember { .. } => 44,
        OperationView::QuorumJoin { .. } => 46,
        OperationView::FeeCollect { .. } => 50,
        OperationView::DisputeEnter { .. } => 54,
        OperationView::DisputeAcquire { .. } => 55,
        OperationView::DisputeYield => 56,
        OperationView::DisputeArmed { .. } => 57,
        OperationView::DeliveryEmbed { .. } => 80,
        OperationView::LedgerClose => 60,
    }
}

/// The wire message type of the operation with discriminant `disc`, or 0
/// for an unknown discriminant.
pub open spec fn message_type_for(disc: u8) -> u16 {
    match disc {
        1 => LEDGER_OPEN_REQUEST,
        12 => QUORUM_BEGIN,
        20 => DEPOSIT_OPEN,
        21 => DEPOSIT_CLOSE,
        22 => FEE_CHANGE,
        23 => DEPOSIT_KEY_ROTATE,
        30 => RECEIVING_CREDIT_PAYMENT,
        31 => SENDING_LOCK_PAYMENT,
        32 => SENDING_FAIL_PAYMENT,
        33 => SENDING_FULFILL_PAYMENT,
        35 => ONCHAIN_CREDIT,
        36 => ONCHAIN_LOCK,
        37 => ONCHAIN_FAIL,
        38 => ONCHAIN_FULFILL,
        43 => QUORUM_ADD_MEMBER,
        44 => QUORUM_REMOVE_MEMBER,
        46 => QUORUM_JOIN,
        50 => MAINTENANCE_FEE_COLLECT,
        54 | 55 | 56 | 57 | 80 => LEDGER_UPDATE,
        60 => LEDGER_CLOSE,
        70 => TRANSFER_LOCK,
        71 => TRANSFER_COMPLETE,
        72 => TRANSFER_FAIL,
        _ => 0,
    }
}

/// The wire message type of an operation.
pub open spec fn operation_message_type(v: OperationView) -> u16 {
    match v {
        OperationView::LedgerOpen { .. } => LEDGER_OPEN_REQUEST,
        OperationView::QuorumBegin { .. } => QUORUM_BEGIN,
        OperationView::DepositOpen { .. } => DEPOSIT_OPEN,
        OperationView::DepositClose { .. } => DEPOSIT_CLOSE,
        OperationView::FeeChange { .. } => FEE_CHANGE,
        OperationView::DepositKeyRotate { .. } => DEPOSIT_KEY_ROTATE,
        OperationView::InvoiceCredit { .. } => RECEIVING_CREDIT_PAYMENT,
        OperationView::InvoiceLock { .. } => SENDING_LOCK_PAYMENT,
        OperationView::InvoiceFail { .. } => SENDING_FAIL_PAYMENT,
        OperationView::InvoiceFulfill { .. } => SENDING_FULFILL_PAYMENT,
        OperationView::OnchainCredit { .. } => ONCHAIN_CREDIT,
        OperationView::OnchainLock { .. } => ONCHAIN_LOCK,
        OperationView::OnchainFail { .. } => ONCHAIN_FAIL,
        OperationView::OnchainFulfill { .. } => ONCHAIN_FULFILL,
        OperationView::TransferLock { .. } => TRANSFER_LOCK,
        OperationView::TransferComplete { .. } => TRANSFER_COMPLETE,
        OperationView::TransferFail { .. } => TRANSFER_FAIL,
        OperationView::QuorumAddMember { .. } => QUORUM_ADD_MEMBER,
        OperationView::QuorumRemoveMember { .. } => QUORUM_REMOVE_MEMBER,
        OperationView::QuorumJoin { .. } => QUORUM_JOIN,
        OperationView::FeeCollect { .. } => MAINTENANCE_FEE_COLLECT,
        OperationView::DisputeEnter { .. } => LEDGER_UPDATE,
        OperationView::DisputeAcquire { .. } => LEDGER_UPDATE,
        OperationView::DisputeYield => LEDGER_UPDATE,
        OperationView::DisputeArmed { .. } => LEDGER_UPDATE,
        OperationView::DeliveryEmbed { .. } => LEDGER_UPDATE,
        OperationView::LedgerClose => LEDGER_CLOSE,
    }
}

/// The 32-byte hash an operation embeds, if it embeds one.
pub open spec fn embedded_hash_of(v: OperationView) -> Option<Seq<u8>> {
    match v {
        OperationView::TransferLock { nonce, .. } => Some(nonce),
        OperationView::DeliveryEmbed { request_hash, .. } => Some(request_hash),
        _ => None,
    }
}

/// The deposits an operation affects.
pub open spec fn affected_deposits_of(v: OperationView) -> Seq<Seq<u8>> {
    match v {
        OperationView::DepositOpen { deposit_id, .. } => seq![deposit_id],
        OperationView::DepositClose { deposit_id } => seq![deposit_id],
        OperationView::FeeChange { deposit_id, .. } => seq![deposit_id],
        OperationView::DepositKeyRotate { deposit_id, .. } => seq![deposit_id],
        OperationView::InvoiceCredit { deposit_id, .. } => seq![deposit_id],
        OperationView::InvoiceLock { deposit_id, .. } => seq![deposit_id],
        OperationView::InvoiceFail { deposit_id, .. } => seq![deposit_id],
        OperationView::InvoiceFulfill { deposit_id, .. } => seq![deposit_id],
        OperationView::OnchainCredit { deposit_id, .. } => seq![deposit_id],
        OperationView::OnchainLock { deposit_id, .. } => seq![deposit_id],
        OperationView::OnchainFail { deposit_id, .. } => seq![deposit_id],
        OperationView::OnchainFulfill { deposit_id, .. } => seq![deposit_id],
        OperationView::FeeCollect { deposit_id, .. } => seq![deposit_id],
        OperationView::TransferLock { source_deposit_id, destination_deposit_id, .. } => seq![
            source_deposit_id,
            destination_deposit_id,
        ],
        _ => seq![],
    }
}

/// The message type of every operation is the one its discriminant maps to.
pub proof fn lemma_message_type_from_discriminant(v: OperationView)
    ensures
        operation_message_type(v) == message_type_for(discriminant_of(v)),
{
}

/// The message type found at the front of a TLV encoding whose first record
/// is a one-byte discriminant under type 0.
pub open spec fn message_type_in(message: Seq<u8>) -> u16 {
    if message.len() >= 3 && message[0] == 0 && message[1] == 1 {
        message_type_for(message[2])
    } else {
        0
    }
}

impl LedgerOperation {
    /// The 32-byte hash this operation embeds (a transfer's nonce or a
    /// delivery's request hash), if any.
    pub fn embedded_hash(&self) -> (r: Option<&[u8; 32]>)
        ensures
            match embedded_hash_of(self@) {
                Some(h) => r is Some && r->0@ == h,
                None => r is None,
            },
    {
        match self {
            LedgerOperation::TransferLock { nonce, .. } => Some(nonce),
            LedgerOperation::DeliveryEmbed { request_hash, .. } => Some(request_hash),
            _ => None,
        }
    }

    /// The discriminant byte of this operation.
    pub fn discriminant(&self) -> (r: u8)
        ensures
            r == discriminant_of(self@),
    {
        match self {
            LedgerOperation::LedgerOpen { .. } => 1,
            LedgerOperation::QuorumBegin { .. } => 12,
            LedgerOperation::DepositOpen { .. } => 20,
            LedgerOperation::DepositClose { .. } => 21,
            LedgerOperation::FeeChange { .. } => 22,
            LedgerOperation::DepositKeyRotate { .. } => 23,
            LedgerOperation::InvoiceCredit { .. } => 30,
            LedgerOperation::InvoiceLock { .. } => 31,
            LedgerOperation::InvoiceFail { .. } => 32,
            LedgerOperation::InvoiceFulfill { .. } => 33,
            LedgerOperation::OnchainCredit { .. } => 35,
            LedgerOperation::OnchainLock { .. } => 36,
            LedgerOperation::OnchainFail { .. } => 37,
            LedgerOperation::OnchainFulfill { .. } => 38,
            LedgerOperation::TransferLock { .. } => 70,
            LedgerOperation::TransferComplete { .. } => 71,
            LedgerOperation::TransferFail { .. } => 72,
            LedgerOperation::QuorumAddMember { .. } => 43,
            LedgerOperation::QuorumRemoveMember { .. } => 44,
            LedgerOperation::QuorumJoin { .. } => 46,
            LedgerOperation::FeeCollect { .. } => 50,
            LedgerOperation::DisputeEnter { .. } => 54,
            LedgerOperation::DisputeAcquire { .. } => 55,
            LedgerOperation::DisputeYield => 56,
            LedgerOperation::DisputeArmed { .. } => 57,
            LedgerOperation::DeliveryEmbed { .. } => 80,
            LedgerOperation::LedgerClose => 60,
        }
    }

    /// The wire message type of this operation.
    pub fn message_type(&self) -> (r: u16)
        ensures
            r == operation_message_type(self@),
    {
        match self {
            LedgerOperation::LedgerOpen { .. } => LEDGER_OPEN_REQUEST,
            LedgerOperation::QuorumBegin { .. } => QUORUM_BEGIN,
            LedgerOperation::DepositOpen { .. } => DEPOSIT_OPEN,
            LedgerOperation::DepositClose { .. } => DEPOSIT_CLOSE,
            LedgerOperation::FeeChange { .. } => FEE_CHANGE,
            LedgerOperation::DepositKeyRotate { .. } => DEPOSIT_KEY_ROTATE,
            LedgerOperation::InvoiceCredit { .. } => RECEIVING_CREDIT_PAYMENT,
            LedgerOperation::InvoiceLock { .. } => SENDING_LOCK_PAYMENT,
            LedgerOperation::InvoiceFail { .. } => SENDING_FAIL_PAYMENT,
            LedgerOperation::InvoiceFulfill { .. } => SENDING_FULFILL_PAYMENT,
            LedgerOperation::OnchainCredit { .. } => ONCHAIN_CREDIT,
            LedgerOperation::OnchainLock { .. } => ONCHAIN_LOCK,
            LedgerOperation::OnchainFail { .. } => ONCHAIN_FAIL,
            LedgerOperation::OnchainFulfill { .. } => ONCHAIN_FULFILL,
            LedgerOperation::TransferLock { .. } => TRANSFER_LOCK,
            LedgerOperation::TransferComplete { .. } => TRANSFER_COMPLETE,
            LedgerOperation::TransferFail { .. } => TRANSFER_FAIL,
            LedgerOperation::QuorumAddMember { .. } => QUORUM_ADD_MEMBER,
            LedgerOperation::QuorumRemoveMember { .. } => QUORUM_REMOVE_MEMBER,
            LedgerOperation::QuorumJoin { .. } => QUORUM_JOIN,
            LedgerOperation::FeeCollect { .. } => MAINTENANCE_FEE_COLLECT,
            LedgerOperation::DisputeEnter { .. } => LEDGER_UPDATE,
            LedgerOperation::DisputeAcquire { .. } => LEDGER_UPDATE,
            LedgerOperation::DisputeYield => LEDGER_UPDATE,
            LedgerOperation::DisputeArmed { .. } => LEDGER_UPDATE,
            LedgerOperation::DeliveryEmbed { .. } => LEDGER_UPDATE,
            LedgerOperation::LedgerClose => LEDGER_CLOSE,
        }
    }

    /// The message type of TLV-encoded operation bytes, read from the
    /// discriminant record at their front; 0 where there is none.
    pub fn message_type_from_bytes(message: &[u8]) -> (r: u16)
        ensures
            r == message_type_in(message@),
    {
        if message.len() >= 3 && message[0] == 0 && message[1] == 1 {
            Self::message_type_from_discriminant(message[2])
        } else {
            0
        }
    }

    /// The wire message type for a discriminant, or 0 if unknown.
    pub fn message_type_from_discriminant(disc: u8) -> (r: u16)
        ensures
            r == message_type_for(disc),
    {
        match disc {
            1 => LEDGER_OPEN_REQUEST,
            12 => QUORUM_BEGIN,
            20 => DEPOSIT_OPEN,
            21 => DEPOSIT_CLOSE,
            22 => FEE_CHANGE,
            23 => DEPOSIT_KEY_ROTATE,
            30 => RECEIVING_CREDIT_PAYMENT,
            31 => SENDING_LOCK_PAYMENT,
            32 => SENDING_FAIL_PAYMENT,
            33 => SENDING_FULFILL_PAYMENT,
            35 => ONCHAIN_CREDIT,
            36 => ONCHAIN_LOCK,
            37 => ONCHAIN_FAIL,
            38 => ONCHAIN_FULFILL,
            43 => QUORUM_ADD_MEMBER,
            44 => QUORUM_REMOVE_MEMBER,
            46 => QUORUM_JOIN,
            50 => MAINTENANCE_FEE_COLLECT,
            54 | 55 | 56 | 57 | 80 => LEDGER_UPDATE,
            60 => LEDGER_CLOSE,
            70 => TRANSFER_LOCK,
            71 => TRANSFER_COMPLETE,
            72 => TRANSFER_FAIL,
            _ => 0,
        }
    }

    /// The deposits this operation affects.
    pub fn affected_deposit_ids(&self) -> (r: Vec<&DepositId>)
        ensures
            r@.len() == affected_deposits_of(self@).len(),
            forall|i: int| 0 <= i < r@.len() ==> (#[trigger] r@[i])@ == affected_deposits_of(self@)[i],
    {
        let mut r: Vec<&DepositId> = Vec::new();
        match self {
            LedgerOperation::DepositOpen { deposit_id, .. }
            | LedgerOperation::DepositClose { deposit_id }
            | LedgerOperation::FeeChange { deposit_id, .. }
            | LedgerOperation::DepositKeyRotate { deposit_id, .. }
            | LedgerOperation::InvoiceCredit { deposit_id, .. }
            | LedgerOperation::InvoiceLock { deposit_id, .. }
            | LedgerOperation::InvoiceFail { deposit_id, .. }
            | LedgerOperation::InvoiceFulfill { deposit_id, .. }
            | LedgerOperation::OnchainCredit { deposit_id, .. }
            | LedgerOperation::OnchainLock { deposit_id, .. }
            | LedgerOperation::OnchainFail { deposit_id, .. }
            | LedgerOperation::OnchainFulfill { deposit_id, .. }
            | LedgerOperation::FeeCollect { deposit_id, .. } => {
                r.push(deposit_id);
            },
            LedgerOperation::TransferLock { source_deposit_id, destination_deposit_id, .. } => {
                r.push(source_deposit_id);
                r.push(destination_deposit_id);
            },
            _ => {},
        }
        r
    }
}

} // verus!
