//! The state of a deposits ledger and its transition function: what each
//! ledger operation does to the deposits, locks, quorum and dispute state.

use vstd::prelude::*;
use vstd::utf8::encode_utf8;

use crate::bytes::{copy_range, extend_bytes, push_u32_le, u32_le};
use crate::crypto::{hex_encode, hex_lower, sha256, sha256_of};
use crate::error::DepositsError;
use crate::keyed::{
    find_key, has_key, keyed, keys_unique, lemma_keyed_at, lemma_keyed_push, lemma_keyed_remove,
    lemma_keyed_update,
};
use crate::operation::{LedgerOperation, QuorumMemberRef};
use crate::pubkey::PublicKey;
use crate::quorum::{QuorumMember, QuorumMembership};
use crate::text::{concat_text, utf8_bytes};
use crate::types::{
    deposit_id_of_descriptor, fees_or_default, saturate, Deposit, DepositId, DepositView,
    DisputeState, FeeStructure, Invoice, OpenInvoiceLock, PendingTransfer, PendingWithdrawal,
    QuorumState, TransferFeeSchedule,
};

verus! {

// ============================================================================
// The state and its model
// ============================================================================

/// Complete state of a deposits ledger. Keyed collections are vectors of
/// entries whose keys are unique (see [`LedgerState::wf`]).
#[derive(Clone, Debug, PartialEq, Eq)]
pub struct LedgerState {
    /// Ledger identifier: hash of operator key, reserves key and genesis
    /// block.
    pub ledger_id: [u8; 32],
    /// Block height when the ledger was opened.
    pub genesis_block: u32,
    /// Operator's public key.
    pub operator_key: PublicKey,
    /// Reserves identifier.
    pub reserves_key: String,
    /// Reserves outpoint ("txid:vout") backing the ledger.
    pub reserves_outpoint: Option<String>,
    /// Deposits, keyed by deposit ID.
    pub deposits: Vec<(DepositId, Deposit)>,
    /// Reserves backing the ledger (millisatoshis).
    pub reserves_amount: u64,
    /// Collateral (millisatoshis).
    pub collateral_amount: u64,
    /// Quorum lifecycle state.
    pub quorum_state: QuorumState,
    /// Active quorum members.
    pub quorum_members: Vec<QuorumMember>,
    /// Members staged by QuorumAddMember, awaiting QuorumBegin.
    pub next_quorum_members: Vec<QuorumMember>,
    /// Block height when the current quorum expires.
    pub quorum_expiry: Option<u32>,
    /// Pending conditional transfers, keyed by transfer ID.
    pub pending_transfers: Vec<([u8; 32], PendingTransfer)>,
    /// Open outbound invoice locks, keyed by payment ID.
    pub open_invoice_locks: Vec<([u8; 32], OpenInvoiceLock)>,
    /// Pending on-chain withdrawals, keyed by withdrawal ID.
    pub pending_withdrawals: Vec<([u8; 32], PendingWithdrawal)>,
    /// Hex payment hashes already credited.
    pub credited_payments: Vec<String>,
    /// Fees the operator has accrued (msats); never decreases.
    pub fees_accumulated: u64,
    /// Current sequence number.
    pub sequence: u64,
    /// Hash chain tip.
    pub chain_tip_hash: [u8; 32],
    /// Quorums this ledger's operator has joined as a monitoring member.
    pub joined_quorums: Vec<QuorumMembership>,
    /// Dispute state.
    pub dispute_state: DisputeState,
    /// The key that signed the last update.
    pub parent_pubkey: PublicKey,
    /// Quorum members at the last DisputeEnter.
    pub quorum_at_fork: Vec<QuorumMember>,
    /// Sequence number of the last valid update before the dispute.
    pub dispute_fork_sequence: u64,
}

/// A ledger state as plain values: keyed collections as maps, lists as
/// sequences.
pub struct LedgerModel {
    pub ledger_id: Seq<u8>,
    pub genesis_block: u32,
    pub operator_key: PublicKey,
    pub reserves_key: Seq<char>,
    pub reserves_outpoint: Option<Seq<char>>,
    pub deposits: Map<Seq<u8>, DepositView>,
    pub reserves_amount: u64,
    pub collateral_amount: u64,
    pub quorum_state: QuorumState,
    pub quorum_members: Seq<QuorumMember>,
    pub next_quorum_members: Seq<QuorumMember>,
    pub quorum_expiry: Option<u32>,
    pub pending_transfers: Map<Seq<u8>, PendingTransfer>,
    pub open_invoice_locks: Map<Seq<u8>, OpenInvoiceLock>,
    pub pending_withdrawals: Map<Seq<u8>, PendingWithdrawal>,
    pub credited_payments: Set<Seq<char>>,
    pub fees_accumulated: u64,
    pub sequence: u64,
    pub chain_tip_hash: Seq<u8>,
    pub joined_quorums: Seq<QuorumMembership>,
    pub dispute_state: DisputeState,
    pub parent_pubkey: PublicKey,
    pub quorum_at_fork: Seq<QuorumMember>,
    pub dispute_fork_sequence: u64,
}

/// The deposits of entries, by their keys' bytes, each by its view.
pub open spec fn deposit_map(s: Seq<(DepositId, Deposit)>) -> Map<Seq<u8>, DepositView> {
    keyed(s).map_values(|d: Deposit| d@)
}

/// The texts of a list of strings.
pub open spec fn text_set(s: Seq<String>) -> Set<Seq<char>> {
    Set::new(|t: Seq<char>| exists|i: int| 0 <= i < s.len() && #[trigger] s[i]@ == t)
}

/// An optional string by its view.
pub open spec fn opt_string(o: Option<String>) -> Option<Seq<char>> {
    match o {
        Some(s) => Some(s@),
        None => None,
    }
}

impl View for LedgerState {
    type V = LedgerModel;

    open spec fn view(&self) -> LedgerModel {
        LedgerModel {
            ledger_id: self.ledger_id@,
            genesis_block: self.genesis_block,
            operator_key: self.operator_key,
            reserves_key: self.reserves_key@,
            reserves_outpoint: opt_string(self.reserves_outpoint),
            deposits: deposit_map(self.deposits@),
            reserves_amount: self.reserves_amount,
            collateral_amount: self.collateral_amount,
            quorum_state: self.quorum_state,
            quorum_members: self.quorum_members@,
            next_quorum_members: self.next_quorum_members@,
            quorum_expiry: self.quorum_expiry,
            pending_transfers: keyed(self.pending_transfers@),
            open_invoice_locks: keyed(self.open_invoice_locks@),
            pending_withdrawals: keyed(self.pending_withdrawals@),
            credited_payments: text_set(self.credited_payments@),
            fees_accumulated: self.fees_accumulated,
            sequence: self.sequence,
            chain_tip_hash: self.chain_tip_hash@,
            joined_quorums: self.joined_quorums@,
            dispute_state: self.dispute_state,
            parent_pubkey: self.parent_pubkey,
            quorum_at_fork: self.quorum_at_fork@,
            dispute_fork_sequence: self.dispute_fork_sequence,
        }
    }
}

impl LedgerState {
    /// No two entries of a keyed collection share a key.
    pub open spec fn wf(&self) -> bool {
        &&& keys_unique(self.deposits@)
        &&& keys_unique(self.pending_transfers@)
        &&& keys_unique(self.open_invoice_locks@)
        &&& keys_unique(self.pending_withdrawals@)
    }
}

// ============================================================================
// The transition function
// ============================================================================

/// Why an operation cannot be applied.
pub enum ApplyFault {
    /// A deposit with the ID already exists.
    DepositAlreadyExists,
    /// The named deposit does not exist.
    DepositNotFound,
    /// The deposit to close still holds this balance.
    NonZeroBalance(u64),
    /// The payment with this hash was already credited.
    DuplicateCredit(Seq<u8>),
    /// The deposit's available balance does not cover the amount.
    InsufficientDepositBalance(u64, u64),
}

/// `e` is the error for fault `f`.
pub open spec fn fault_is(e: DepositsError, f: ApplyFault) -> bool {
    match f {
        ApplyFault::DepositAlreadyExists => e == DepositsError::DepositAlreadyExists,
        ApplyFault::DepositNotFound => e == DepositsError::DepositNotFound,
        ApplyFault::NonZeroBalance(b) => e == DepositsError::NonZeroBalance { balance: b },
        ApplyFault::InsufficientDepositBalance(a, r) => e
            == DepositsError::InsufficientDepositBalance { available: a, required: r },
        ApplyFault::DuplicateCredit(h) => {
            &&& e is ProtocolViolation
            &&& e->ProtocolViolation_violation_type@ == "duplicate_credit"@
            &&& e->ProtocolViolation_details@ == "Payment "@ + hex_lower(h.subrange(0, 8))
                + " already credited"@
        },
    }
}

/// The ledger ID of a ledger opened by `operator_key` on `reserves_key` at
/// `genesis_block`: SHA-256 of the key, the reserves key's UTF-8 bytes and
/// the block height in little-endian bytes.
pub open spec fn ledger_id_of(operator_key: Seq<u8>, reserves_key: Seq<char>, genesis_block: u32) -> Seq<u8> {
    sha256_of(operator_key + encode_utf8(reserves_key) + u32_le(genesis_block))
}

/// `a + b`, saturating.
pub open spec fn sat_add(a: u64, b: u64) -> u64 {
    saturate(a + b)
}

/// `a - b`, floored at zero.
pub open spec fn sat_sub(a: u64, b: u64) -> u64 {
    if a >= b {
        (a - b) as u64
    } else {
        0
    }
}

/// The spendable balance of a deposit.
pub open spec fn available(d: DepositView) -> u64 {
    sat_sub(d.balance, d.locked_balance)
}

/// A deposit credited with `amount`.
pub open spec fn credited(d: DepositView, amount: u64) -> DepositView {
    DepositView { balance: sat_add(d.balance, amount), ..d }
}

/// A deposit with `amount` more locked.
pub open spec fn locked(d: DepositView, amount: u64) -> DepositView {
    DepositView { locked_balance: sat_add(d.locked_balance, amount), ..d }
}

/// A deposit with `amount` less locked.
pub open spec fn unlocked(d: DepositView, amount: u64) -> DepositView {
    DepositView { locked_balance: sat_sub(d.locked_balance, amount), ..d }
}

/// A deposit with `amount` taken from both the locked and the total balance.
pub open spec fn fulfilled(d: DepositView, amount: u64) -> DepositView {
    DepositView {
        locked_balance: sat_sub(d.locked_balance, amount),
        balance: sat_sub(d.balance, amount),
        ..d
    }
}

/// The fixed transfer fee charged to a deposit: its schedule's fixed part,
/// at most its balance.
pub open spec fn fixed_charge(d: DepositView) -> u64 {
    if d.transfer_fees.fixed_msats <= d.balance {
        d.transfer_fees.fixed_msats
    } else {
        d.balance
    }
}

/// A deposit charged its fixed transfer fee.
pub open spec fn charged(d: DepositView) -> DepositView {
    DepositView { balance: (d.balance - fixed_charge(d)) as u64, ..d }
}

/// A freshly opened deposit.
pub open spec fn opened_deposit(
    descriptor: Seq<char>,
    fees: Option<FeeStructure>,
    transfer_fees: Option<TransferFeeSchedule>,
    receive_requires_sig: bool,
    fee_change_after_blocks: Option<u32>,
    fee_change_notice_blocks: Option<u32>,
    fee_change_limit_bps: Option<u16>,
) -> DepositView {
    DepositView {
        deposit_id: deposit_id_of_descriptor(descriptor),
        descriptor,
        balance: 0,
        locked_balance: 0,
        invoices: seq![],
        fees: fees_or_default(fees),
        last_fee_assessment: 0,
        transfer_fees: match transfer_fees {
            Some(t) => t,
            None => TransferFeeSchedule { fixed_msats: 2, rate_bps: 20 },
        },
        receive_requires_sig,
        fee_change_after_blocks,
        fee_change_notice_blocks,
        fee_change_limit_bps,
        opened_at_block: 0,
        pending_fee_change: None,
    }
}

/// A deposit after a fee collection of `amount` at `block_height`: a
/// pending fee change takes effect once its block is reached.
pub open spec fn fee_collected(d: DepositView, amount: u64, block_height: u32) -> DepositView {
    let (fees, pending) = match d.pending_fee_change {
        Some((new_fees, effective)) => if block_height >= effective {
            (new_fees, None)
        } else {
            (d.fees, Some((new_fees, effective)))
        },
        None => (d.fees, None),
    };
    DepositView {
        fees,
        pending_fee_change: pending,
        balance: sat_sub(d.balance, amount),
        last_fee_assessment: block_height,
        ..d
    }
}

/// Some declared member has key `key`.
pub open spec fn is_declared(declared: Seq<QuorumMemberRef>, key: Seq<u8>) -> bool {
    exists|i: int| 0 <= i < declared.len() && #[trigger] declared[i].pubkey@ == key
}

/// The staged members whose keys are declared, in order.
pub open spec fn declared_members(staged: Seq<QuorumMember>, declared: Seq<QuorumMemberRef>) -> Seq<
    QuorumMember,
>
    decreases staged.len(),
{
    if staged.len() == 0 {
        seq![]
    } else {
        let rest = declared_members(staged.drop_last(), declared);
        if is_declared(declared, staged.last().pubkey@) {
            rest.push(staged.last())
        } else {
            rest
        }
    }
}

/// The members whose key is not `key`, in order.
pub open spec fn members_without(ms: Seq<QuorumMember>, key: Seq<u8>) -> Seq<QuorumMember>
    decreases ms.len(),
{
    if ms.len() == 0 {
        seq![]
    } else {
        let rest = members_without(ms.drop_last(), key);
        if ms.last().pubkey@ != key {
            rest.push(ms.last())
        } else {
            rest
        }
    }
}

/// Some member has key `key`.
pub open spec fn has_member(ms: Seq<QuorumMember>, key: Seq<u8>) -> bool {
    exists|i: int| 0 <= i < ms.len() && #[trigger] ms[i].pubkey@ == key
}

/// The membership record `m` is for the ledger `ledger_id` of `operator_id`.
pub open spec fn is_membership(m: QuorumMembership, operator_id: Seq<u8>, ledger_id: Seq<char>) -> bool {
    m.operator_id@ == operator_id && m.ledger_id@ == ledger_id
}

/// The position of the first membership record for the ledger, or -1.
pub open spec fn membership_index(js: Seq<QuorumMembership>, operator_id: Seq<u8>, ledger_id: Seq<char>) -> int
    decreases js.len(),
{
    if js.len() == 0 {
        -1
    } else {
        let f = membership_index(js.drop_last(), operator_id, ledger_id);
        if f >= 0 {
            f
        } else if is_membership(js.last(), operator_id, ledger_id) {
            js.len() - 1
        } else {
            -1
        }
    }
}

/// `s` with deposit `k` set to `d`.
pub open spec fn with_deposit(s: LedgerModel, k: Seq<u8>, d: DepositView) -> LedgerModel {
    LedgerModel { deposits: s.deposits.insert(k, d), ..s }
}

/// Releasing a transfer's lock and settling it: the source loses the lock
/// and the amount, then the destination (as the source left it) gains the
/// amount, and the fee accrues to the operator.
pub open spec fn transfer_completed(s: LedgerModel, p: PendingTransfer) -> LedgerModel {
    let total = sat_add(p.amount, p.fee);
    let src = p.source_deposit_id@;
    let dst = p.destination_deposit_id@;
    let s1 = if s.deposits.contains_key(src) {
        let d = s.deposits[src];
        with_deposit(
            s,
            src,
            DepositView {
                locked_balance: sat_sub(d.locked_balance, total),
                balance: sat_sub(d.balance, p.amount),
                ..d
            },
        )
    } else {
        s
    };
    let s2 = if s1.deposits.contains_key(dst) {
        with_deposit(s1, dst, credited(s1.deposits[dst], p.amount))
    } else {
        s1
    };
    LedgerModel { fees_accumulated: sat_add(s2.fees_accumulated, p.fee), ..s2 }
}

/// Releasing a transfer's lock on failure: the source keeps the amount but
/// pays the fixed fee.
pub open spec fn transfer_failed(s: LedgerModel, p: PendingTransfer) -> LedgerModel {
    let total = sat_add(p.amount, p.fee);
    let src = p.source_deposit_id@;
    if s.deposits.contains_key(src) {
        let d = unlocked(s.deposits[src], total);
        LedgerModel {
            deposits: s.deposits.insert(src, charged(d)),
            fees_accumulated: sat_add(s.fees_accumulated, fixed_charge(d)),
            ..s
        }
    } else {
        s
    }
}

/// What applying `op` to `s` gives: the next state, or why it cannot be
/// applied.
pub open spec fn ledger_apply(s: LedgerModel, op: LedgerOperation) -> Result<LedgerModel, ApplyFault> {
    match op {
        LedgerOperation::LedgerOpen {
            operator_id,
            reserves_id,
            genesis_block,
            reserves_amount,
            collateral_amount,
        } => Ok(
            LedgerModel {
                operator_key: operator_id,
                reserves_key: reserves_id@,
                genesis_block,
                ledger_id: ledger_id_of(operator_id@, reserves_id@, genesis_block),
                reserves_amount,
                collateral_amount,
                ..s
            },
        ),
        LedgerOperation::QuorumBegin {
            reserves_id,
            amount,
            quorum_expiry,
            quorum_members,
            collateral_amount,
            ..
        } => Ok(
            LedgerModel {
                reserves_key: reserves_id@,
                reserves_amount: amount,
                collateral_amount,
                quorum_expiry: Some(quorum_expiry),
                quorum_members: declared_members(s.next_quorum_members, quorum_members@),
                next_quorum_members: seq![],
                quorum_state: QuorumState::Active,
                ..s
            },
        ),
        LedgerOperation::DepositOpen {
            deposit_id,
            descriptor,
            fees,
            transfer_fees,
            receive_requires_sig,
            fee_change_after_blocks,
            fee_change_notice_blocks,
            fee_change_limit_bps,
            ..
        } => if s.deposits.contains_key(deposit_id@) {
            Err(ApplyFault::DepositAlreadyExists)
        } else {
            Ok(
                with_deposit(
                    s,
                    deposit_id@,
                    opened_deposit(
                        descriptor@,
                        fees,
                        transfer_fees,
                        receive_requires_sig,
                        fee_change_after_blocks,
                        fee_change_notice_blocks,
                        fee_change_limit_bps,
                    ),
                ),
            )
        },
        LedgerOperation::DepositClose { deposit_id } => if !s.deposits.contains_key(deposit_id@) {
            Err(ApplyFault::DepositNotFound)
        } else if s.deposits[deposit_id@].balance > 0 {
            Err(ApplyFault::NonZeroBalance(s.deposits[deposit_id@].balance))
        } else {
            Ok(LedgerModel { deposits: s.deposits.remove(deposit_id@), ..s })
        },
        LedgerOperation::FeeChange { deposit_id, new_fees, effective_block } => if s.deposits.contains_key(
            deposit_id@,
        ) {
            Ok(
                with_deposit(
                    s,
                    deposit_id@,
                    DepositView {
                        pending_fee_change: Some((new_fees, effective_block)),
                        ..s.deposits[deposit_id@]
                    },
                ),
            )
        } else {
            Ok(s)
        },
        LedgerOperation::DepositKeyRotate { deposit_id, new_descriptor, .. } => if s.deposits.contains_key(
            deposit_id@,
        ) {
            Ok(
                with_deposit(
                    s,
                    deposit_id@,
                    DepositView { descriptor: new_descriptor@, ..s.deposits[deposit_id@] },
                ),
            )
        } else {
            Ok(s)
        },
        LedgerOperation::InvoiceCredit { payment_hash, deposit_id, amount, .. } => if s.credited_payments.contains(
            hex_lower(payment_hash@),
        ) {
            Err(ApplyFault::DuplicateCredit(payment_hash@))
        } else if !s.deposits.contains_key(deposit_id@) {
            Err(ApplyFault::DepositNotFound)
        } else {
            Ok(
                LedgerModel {
                    deposits: s.deposits.insert(deposit_id@, credited(s.deposits[deposit_id@], amount)),
                    credited_payments: s.credited_payments.insert(hex_lower(payment_hash@)),
                    ..s
                },
            )
        },
        LedgerOperation::InvoiceLock { deposit_id, amount, payment_id, sequence_number, .. } => if !s.deposits.contains_key(
            deposit_id@,
        ) {
            Err(ApplyFault::DepositNotFound)
        } else if available(s.deposits[deposit_id@]) < amount {
            Err(ApplyFault::InsufficientDepositBalance(available(s.deposits[deposit_id@]), amount))
        } else {
            Ok(
                LedgerModel {
                    deposits: s.deposits.insert(deposit_id@, locked(s.deposits[deposit_id@], amount)),
                    open_invoice_locks: s.open_invoice_locks.insert(
                        payment_id@,
                        OpenInvoiceLock { deposit_id, amount, lock_sequence: sequence_number },
                    ),
                    ..s
                },
            )
        },
        LedgerOperation::InvoiceFail { deposit_id, amount, payment_id, .. } => if !s.deposits.contains_key(
            deposit_id@,
        ) {
            Err(ApplyFault::DepositNotFound)
        } else {
            let d = unlocked(s.deposits[deposit_id@], amount);
            Ok(
                LedgerModel {
                    deposits: s.deposits.insert(deposit_id@, charged(d)),
                    fees_accumulated: sat_add(s.fees_accumulated, fixed_charge(d)),
                    open_invoice_locks: s.open_invoice_locks.remove(payment_id@),
                    ..s
                },
            )
        },
        LedgerOperation::InvoiceFulfill { deposit_id, amount, payment_id, .. } => if !s.deposits.contains_key(
            deposit_id@,
        ) {
            Err(ApplyFault::DepositNotFound)
        } else {
            Ok(
                LedgerModel {
                    deposits: s.deposits.insert(deposit_id@, fulfilled(s.deposits[deposit_id@], amount)),
                    open_invoice_locks: s.open_invoice_locks.remove(payment_id@),
                    ..s
                },
            )
        },
        LedgerOperation::OnchainCredit { deposit_id, amount, .. } => if !s.deposits.contains_key(
            deposit_id@,
        ) {
            Err(ApplyFault::DepositNotFound)
        } else {
            Ok(with_deposit(s, deposit_id@, credited(s.deposits[deposit_id@], amount)))
        },
        LedgerOperation::OnchainLock {
            deposit_id,
            amount,
            fee_sats,
            destination_address,
            withdrawal_id,
            ..
        } => if !s.deposits.contains_key(deposit_id@) {
            Err(ApplyFault::DepositNotFound)
        } else if available(s.deposits[deposit_id@]) < sat_add(amount, fee_sats) {
            Err(
                ApplyFault::InsufficientDepositBalance(
                    available(s.deposits[deposit_id@]),
                    sat_add(amount, fee_sats),
                ),
            )
        } else {
            Ok(
                LedgerModel {
                    deposits: s.deposits.insert(
                        deposit_id@,
                        locked(s.deposits[deposit_id@], sat_add(amount, fee_sats)),
                    ),
                    pending_withdrawals: s.pending_withdrawals.insert(
                        withdrawal_id@,
                        PendingWithdrawal { deposit_id, amount, fee_sats, destination_address },
                    ),
                    ..s
                },
            )
        },
        LedgerOperation::OnchainFail { deposit_id, withdrawal_id } => if !s.deposits.contains_key(
            deposit_id@,
        ) {
            Err(ApplyFault::DepositNotFound)
        } else if !s.pending_withdrawals.contains_key(withdrawal_id@) {
            Ok(s)
        } else {
            let p = s.pending_withdrawals[withdrawal_id@];
            let s1 = LedgerModel {
                pending_withdrawals: s.pending_withdrawals.remove(withdrawal_id@),
                ..s
            };
            if s1.deposits.contains_key(p.deposit_id@) {
                let d = unlocked(s1.deposits[p.deposit_id@], sat_add(p.amount, p.fee_sats));
                Ok(
                    LedgerModel {
                        deposits: s1.deposits.insert(p.deposit_id@, charged(d)),
                        fees_accumulated: sat_add(s1.fees_accumulated, fixed_charge(d)),
                        ..s1
                    },
                )
            } else {
                Ok(s1)
            }
        },
        LedgerOperation::OnchainFulfill { deposit_id, withdrawal_id, .. } => if !s.deposits.contains_key(
            deposit_id@,
        ) {
            Err(ApplyFault::DepositNotFound)
        } else if !s.pending_withdrawals.contains_key(withdrawal_id@) {
            Ok(s)
        } else {
            let p = s.pending_withdrawals[withdrawal_id@];
            let s1 = LedgerModel {
                pending_withdrawals: s.pending_withdrawals.remove(withdrawal_id@),
                ..s
            };
            if s1.deposits.contains_key(p.deposit_id@) {
                Ok(
                    with_deposit(
                        s1,
                        p.deposit_id@,
                        fulfilled(s1.deposits[p.deposit_id@], sat_add(p.amount, p.fee_sats)),
                    ),
                )
            } else {
                Ok(s1)
            }
        },
        LedgerOperation::FeeCollect { deposit_id, amount, block_height } => if s.deposits.contains_key(
            deposit_id@,
        ) {
            Ok(
                LedgerModel {
                    deposits: s.deposits.insert(
                        deposit_id@,
                        fee_collected(s.deposits[deposit_id@], amount, block_height),
                    ),
                    fees_accumulated: sat_add(s.fees_accumulated, amount),
                    ..s
                },
            )
        } else {
            Ok(s)
        },
        LedgerOperation::QuorumAddMember {
            quorum_member,
            member_ledger_id,
            min_fee_bps,
            min_fee_fixed,
            max_fee_period,
            membership_until,
            dispute_response_blocks,
            dispute_arm_blocks,
            service_response_blocks,
            max_transfer_timeout_blocks,
            max_descriptor_bytes,
            compensation_bps,
            compensation_deposit_id,
            compensation_frequency_blocks,
            ..
        } => if has_member(s.quorum_members, quorum_member@) || has_member(
            s.next_quorum_members,
            quorum_member@,
        ) {
            Ok(s)
        } else {
            Ok(
                LedgerModel {
                    next_quorum_members: s.next_quorum_members.push(
                        QuorumMember {
                            pubkey: quorum_member,
                            ledger_id: member_ledger_id,
                            min_fee_bps,
                            min_fee_fixed,
                            max_fee_period,
                            membership_until,
                            dispute_response_blocks,
                            dispute_arm_blocks,
                            service_response_blocks,
                            max_transfer_timeout_blocks,
                            max_descriptor_bytes,
                            compensation_bps,
                            compensation_deposit_id,
                            compensation_frequency_blocks,
                        },
                    ),
                    ..s
                },
            )
        },
        LedgerOperation::QuorumRemoveMember { quorum_member, .. } => Ok(
            LedgerModel {
                next_quorum_members: members_without(s.next_quorum_members, quorum_member@),
                ..s
            },
        ),
        LedgerOperation::LedgerClose => Ok(s),
        LedgerOperation::QuorumJoin { operator_id, ledger_id, membership_expires } => {
            let i = membership_index(s.joined_quorums, operator_id@, ledger_id@);
            if i >= 0 {
                Ok(
                    LedgerModel {
                        joined_quorums: s.joined_quorums.update(
                            i,
                            QuorumMembership {
                                membership_expires: if membership_expires > s.joined_quorums[i].membership_expires {
                                    membership_expires
                                } else {
                                    s.joined_quorums[i].membership_expires
                                },
                                ..s.joined_quorums[i]
                            },
                        ),
                        ..s
                    },
                )
            } else {
                Ok(
                    LedgerModel {
                        joined_quorums: s.joined_quorums.push(
                            QuorumMembership {
                                operator_id,
                                ledger_id,
                                membership_expires,
                                joined_at_sequence: (s.sequence + 1) as u64,
                            },
                        ),
                        ..s
                    },
                )
            }
        },
        LedgerOperation::DisputeEnter { last_valid_sequence, .. } => Ok(
            LedgerModel {
                quorum_at_fork: s.quorum_members,
                dispute_fork_sequence: last_valid_sequence,
                dispute_state: DisputeState::Disputed,
                ..s
            },
        ),
        LedgerOperation::DisputeArmed { .. } => Ok(
            LedgerModel { dispute_state: DisputeState::Armed, ..s },
        ),
        LedgerOperation::DisputeAcquire { new_custodian, .. } => Ok(
            LedgerModel {
                operator_key: new_custodian,
                parent_pubkey: new_custodian,
                dispute_state: DisputeState::Normal,
                quorum_at_fork: seq![],
                dispute_fork_sequence: 0,
                ..s
            },
        ),
        LedgerOperation::DisputeYield => Ok(LedgerModel { dispute_state: DisputeState::Tombstoned, ..s }),
        LedgerOperation::TransferLock {
            nonce,
            source_deposit_id,
            destination_deposit_id,
            amount,
            fee,
            completion_script,
            timeout_height,
            transfer_id,
            ..
        } => if !s.deposits.contains_key(source_deposit_id@) {
            Err(ApplyFault::DepositNotFound)
        } else if available(s.deposits[source_deposit_id@]) < sat_add(amount, fee) {
            Err(
                ApplyFault::InsufficientDepositBalance(
                    available(s.deposits[source_deposit_id@]),
                    sat_add(amount, fee),
                ),
            )
        } else {
            Ok(
                LedgerModel {
                    deposits: s.deposits.insert(
                        source_deposit_id@,
                        locked(s.deposits[source_deposit_id@], sat_add(amount, fee)),
                    ),
                    pending_transfers: s.pending_transfers.insert(
                        transfer_id@,
                        PendingTransfer {
                            transfer_id,
                            nonce,
                            source_deposit_id,
                            destination_deposit_id,
                            amount,
                            fee,
                            completion_script,
                            timeout_height,
                        },
                    ),
                    ..s
                },
            )
        },
        LedgerOperation::TransferComplete { transfer_id, .. } => if s.pending_transfers.contains_key(
            transfer_id@,
        ) {
            Ok(
                transfer_completed(
                    LedgerModel { pending_transfers: s.pending_transfers.remove(transfer_id@), ..s },
                    s.pending_transfers[transfer_id@],
                ),
            )
        } else {
            Ok(s)
        },
        LedgerOperation::TransferFail { transfer_id, .. } => if s.pending_transfers.contains_key(
            transfer_id@,
        ) {
            Ok(
                transfer_failed(
                    LedgerModel { pending_transfers: s.pending_transfers.remove(transfer_id@), ..s },
                    s.pending_transfers[transfer_id@],
                ),
            )
        } else {
            Ok(s)
        },
        LedgerOperation::DeliveryEmbed { .. } => Ok(s),
    }
}


// ============================================================================
// Copies
// ============================================================================

fn copy_opt_string(o: &Option<String>) -> (r: Option<String>)
    ensures
        r == *o,
{
    match o {
        Some(s) => Some(s.clone()),
        None => None,
    }
}

fn copy_invoice(i: &Invoice) -> (r: Invoice)
    ensures
        r == *i,
{
    Invoice {
        id: i.id.clone(),
        payment_hash: i.payment_hash,
        amount: i.amount,
        expires: i.expires,
        assigned_deposit: i.assigned_deposit,
        bolt11: i.bolt11.clone(),
    }
}

fn copy_deposit(d: &Deposit) -> (r: Deposit)
    ensures
        r@ == d@,
{
    let mut invoices: Vec<Invoice> = Vec::new();
    let mut i: usize = 0;
    while i < d.invoices.len()
        invariant
            i <= d.invoices@.len(),
            invoices@ == d.invoices@.take(i as int),
        decreases d.invoices@.len() - i,
    {
        invoices.push(copy_invoice(&d.invoices[i]));
        assert(d.invoices@.take(i + 1) =~= d.invoices@.take(i as int).push(d.invoices@[i as int]));
        i = i + 1;
    }
    assert(d.invoices@.take(i as int) =~= d.invoices@);
    Deposit {
        deposit_id: d.deposit_id,
        descriptor: d.descriptor.clone(),
        balance: d.balance,
        locked_balance: d.locked_balance,
        invoices,
        fees: d.fees,
        last_fee_assessment: d.last_fee_assessment,
        transfer_fees: d.transfer_fees,
        receive_requires_sig: d.receive_requires_sig,
        fee_change_after_blocks: d.fee_change_after_blocks,
        fee_change_notice_blocks: d.fee_change_notice_blocks,
        fee_change_limit_bps: d.fee_change_limit_bps,
        opened_at_block: d.opened_at_block,
        pending_fee_change: d.pending_fee_change,
    }
}

fn copy_member(m: &QuorumMember) -> (r: QuorumMember)
    ensures
        r == *m,
{
    QuorumMember {
        pubkey: m.pubkey,
        ledger_id: m.ledger_id.clone(),
        min_fee_bps: m.min_fee_bps,
        min_fee_fixed: m.min_fee_fixed,
        max_fee_period: m.max_fee_period,
        membership_until: m.membership_until,
        dispute_response_blocks: m.dispute_response_blocks,
        dispute_arm_blocks: m.dispute_arm_blocks,
        service_response_blocks: m.service_response_blocks,
        max_transfer_timeout_blocks: m.max_transfer_timeout_blocks,
        max_descriptor_bytes: m.max_descriptor_bytes,
        compensation_bps: m.compensation_bps,
        compensation_deposit_id: m.compensation_deposit_id,
        compensation_frequency_blocks: m.compensation_frequency_blocks,
    }
}

fn copy_members(ms: &Vec<QuorumMember>) -> (r: Vec<QuorumMember>)
    ensures
        r@ == ms@,
{
    let mut r: Vec<QuorumMember> = Vec::new();
    let mut i: usize = 0;
    while i < ms.len()
        invariant
            i <= ms@.len(),
            r@ == ms@.take(i as int),
        decreases ms@.len() - i,
    {
        r.push(copy_member(&ms[i]));
        assert(ms@.take(i + 1) =~= ms@.take(i as int).push(ms@[i as int]));
        i = i + 1;
    }
    assert(ms@.take(i as int) =~= ms@);
    r
}

fn copy_memberships(ms: &Vec<QuorumMembership>) -> (r: Vec<QuorumMembership>)
    ensures
        r@ == ms@,
{
    let mut r: Vec<QuorumMembership> = Vec::new();
    let mut i: usize = 0;
    while i < ms.len()
        invariant
            i <= ms@.len(),
            r@ == ms@.take(i as int),
        decreases ms@.len() - i,
    {
        let m = &ms[i];
        r.push(
            QuorumMembership {
                operator_id: m.operator_id,
                ledger_id: m.ledger_id.clone(),
                membership_expires: m.membership_expires,
                joined_at_sequence: m.joined_at_sequence,
            },
        );
        assert(ms@.take(i + 1) =~= ms@.take(i as int).push(ms@[i as int]));
        i = i + 1;
    }
    assert(ms@.take(i as int) =~= ms@);
    r
}

fn copy_strings(ss: &Vec<String>) -> (r: Vec<String>)
    ensures
        r@ == ss@,
{
    let mut r: Vec<String> = Vec::new();
    let mut i: usize = 0;
    while i < ss.len()
        invariant
            i <= ss@.len(),
            r@ == ss@.take(i as int),
        decreases ss@.len() - i,
    {
        r.push(ss[i].clone());
        assert(ss@.take(i + 1) =~= ss@.take(i as int).push(ss@[i as int]));
        i = i + 1;
    }
    assert(ss@.take(i as int) =~= ss@);
    r
}

fn copy_deposit_entries(s: &Vec<(DepositId, Deposit)>) -> (r: Vec<(DepositId, Deposit)>)
    ensures
        r@.len() == s@.len(),
        forall|i: int| 0 <= i < s@.len() ==> (#[trigger] r@[i]).0 == s@[i].0 && r@[i].1@ == s@[i].1@,
{
    let mut r: Vec<(DepositId, Deposit)> = Vec::new();
    let mut i: usize = 0;
    while i < s.len()
        invariant
            i <= s@.len(),
            r@.len() == i,
            forall|j: int| 0 <= j < i ==> (#[trigger] r@[j]).0 == s@[j].0 && r@[j].1@ == s@[j].1@,
        decreases s@.len() - i,
    {
        let d = copy_deposit(&s[i].1);
        r.push((s[i].0, d));
        i = i + 1;
    }
    r
}

fn copy_transfer_entries(s: &Vec<([u8; 32], PendingTransfer)>) -> (r: Vec<([u8; 32], PendingTransfer)>)
    ensures
        r@ == s@,
{
    let mut r: Vec<([u8; 32], PendingTransfer)> = Vec::new();
    let mut i: usize = 0;
    while i < s.len()
        invariant
            i <= s@.len(),
            r@ == s@.take(i as int),
        decreases s@.len() - i,
    {
        let p = &s[i].1;
        let c = PendingTransfer {
            transfer_id: p.transfer_id,
            nonce: p.nonce,
            source_deposit_id: p.source_deposit_id,
            destination_deposit_id: p.destination_deposit_id,
            amount: p.amount,
            fee: p.fee,
            completion_script: p.completion_script.clone(),
            timeout_height: p.timeout_height,
        };
        r.push((s[i].0, c));
        assert(s@.take(i + 1) =~= s@.take(i as int).push(s@[i as int]));
        i = i + 1;
    }
    assert(s@.take(i as int) =~= s@);
    r
}

fn copy_lock_entries(s: &Vec<([u8; 32], OpenInvoiceLock)>) -> (r: Vec<([u8; 32], OpenInvoiceLock)>)
    ensures
        r@ == s@,
{
    let mut r: Vec<([u8; 32], OpenInvoiceLock)> = Vec::new();
    let mut i: usize = 0;
    while i < s.len()
        invariant
            i <= s@.len(),
            r@ == s@.take(i as int),
        decreases s@.len() - i,
    {
        r.push((s[i].0, s[i].1));
        assert(s@.take(i + 1) =~= s@.take(i as int).push(s@[i as int]));
        i = i + 1;
    }
    assert(s@.take(i as int) =~= s@);
    r
}

fn copy_withdrawal_entries(s: &Vec<([u8; 32], PendingWithdrawal)>) -> (r: Vec<([u8; 32], PendingWithdrawal)>)
    ensures
        r@ == s@,
{
    let mut r: Vec<([u8; 32], PendingWithdrawal)> = Vec::new();
    let mut i: usize = 0;
    while i < s.len()
        invariant
            i <= s@.len(),
            r@ == s@.take(i as int),
        decreases s@.len() - i,
    {
        let p = &s[i].1;
        let c = PendingWithdrawal {
            deposit_id: p.deposit_id,
            amount: p.amount,
            fee_sats: p.fee_sats,
            destination_address: p.destination_address.clone(),
        };
        r.push((s[i].0, c));
        assert(s@.take(i + 1) =~= s@.take(i as int).push(s@[i as int]));
        i = i + 1;
    }
    assert(s@.take(i as int) =~= s@);
    r
}

/// Entries with the same keys, in the same order, and values with the same
/// views hold the same deposits.
proof fn lemma_deposit_map_same(r: Seq<(DepositId, Deposit)>, s: Seq<(DepositId, Deposit)>)
    requires
        keys_unique(s),
        r.len() == s.len(),
        forall|i: int| 0 <= i < s.len() ==> (#[trigger] r[i]).0 == s[i].0 && r[i].1@ == s[i].1@,
    ensures
        keys_unique(r),
        deposit_map(r) == deposit_map(s),
{
    assert forall|i: int, j: int|
        0 <= i < r.len() && 0 <= j < r.len() && i != j implies #[trigger] r[i].0@
        != #[trigger] r[j].0@ by {
        assert(r[i].0 == s[i].0 && r[j].0 == s[j].0);
        assert(s[i].0@ != s[j].0@);
    }
    assert forall|k: Seq<u8>| #[trigger] has_key(r, k) == has_key(s, k) by {
        if has_key(r, k) {
            let i = choose|i: int| 0 <= i < r.len() && #[trigger] r[i].0@ == k;
            assert(r[i].0 == s[i].0);
        }
        if has_key(s, k) {
            let i = choose|i: int| 0 <= i < s.len() && #[trigger] s[i].0@ == k;
            assert(r[i].0 == s[i].0);
        }
    }
    assert forall|k: Seq<u8>| #[trigger] deposit_map(r).contains_key(k) implies deposit_map(r)[k]
        == deposit_map(s)[k] by {
        let i = choose|i: int| 0 <= i < r.len() && #[trigger] r[i].0@ == k;
        assert(r[i].0 == s[i].0);
        lemma_keyed_at(r, i);
        lemma_keyed_at(s, i);
    }
    assert(deposit_map(r) =~= deposit_map(s));
}

impl LedgerState {
    /// A copy of this state with the same model.
    fn duplicate(&self) -> (r: Self)
        requires
            self.wf(),
        ensures
            r.wf(),
            r@ == self@,
    {
        let deposits = copy_deposit_entries(&self.deposits);
        proof {
            lemma_deposit_map_same(deposits@, self.deposits@);
        }
        LedgerState {
            ledger_id: self.ledger_id,
            genesis_block: self.genesis_block,
            operator_key: self.operator_key,
            reserves_key: self.reserves_key.clone(),
            reserves_outpoint: copy_opt_string(&self.reserves_outpoint),
            deposits,
            reserves_amount: self.reserves_amount,
            collateral_amount: self.collateral_amount,
            quorum_state: self.quorum_state,
            quorum_members: copy_members(&self.quorum_members),
            next_quorum_members: copy_members(&self.next_quorum_members),
            quorum_expiry: self.quorum_expiry,
            pending_transfers: copy_transfer_entries(&self.pending_transfers),
            open_invoice_locks: copy_lock_entries(&self.open_invoice_locks),
            pending_withdrawals: copy_withdrawal_entries(&self.pending_withdrawals),
            credited_payments: copy_strings(&self.credited_payments),
            fees_accumulated: self.fees_accumulated,
            sequence: self.sequence,
            chain_tip_hash: self.chain_tip_hash,
            joined_quorums: copy_memberships(&self.joined_quorums),
            dispute_state: self.dispute_state,
            parent_pubkey: self.parent_pubkey,
            quorum_at_fork: copy_members(&self.quorum_at_fork),
            dispute_fork_sequence: self.dispute_fork_sequence,
        }
    }

    /// The ledger ID of a ledger opened by `operator_key` on `reserves_key`
    /// at `genesis_block`.
    pub fn compute_ledger_id(operator_key: &PublicKey, reserves_key: &str, genesis_block: u32) -> (r: [u8; 32])
        ensures
            r@ == ledger_id_of(operator_key@, reserves_key@, genesis_block),
    {
        let key = operator_key.serialize();
        let mut preimage: Vec<u8> = Vec::new();
        extend_bytes(&mut preimage, key.as_slice());
        let reserves = utf8_bytes(reserves_key);
        extend_bytes(&mut preimage, reserves.as_slice());
        push_u32_le(&mut preimage, genesis_block);
        sha256(preimage.as_slice())
    }

    /// An empty ledger state.
    pub fn new(operator_key: PublicKey, reserves_key: String, genesis_block: u32) -> (r: Self)
        ensures
            r.wf(),
            r@.ledger_id == ledger_id_of(operator_key@, reserves_key@, genesis_block),
            r@.genesis_block == genesis_block,
            r@.operator_key == operator_key,
            r@.reserves_key == reserves_key@,
            r@.reserves_outpoint is None,
            r@.deposits == Map::<Seq<u8>, DepositView>::empty(),
            r@.reserves_amount == 0,
            r@.collateral_amount == 0,
            r@.quorum_state == QuorumState::PreQuorum,
            r@.quorum_members == Seq::<QuorumMember>::empty(),
            r@.next_quorum_members == Seq::<QuorumMember>::empty(),
            r@.quorum_expiry is None,
            r@.pending_transfers == Map::<Seq<u8>, PendingTransfer>::empty(),
            r@.open_invoice_locks == Map::<Seq<u8>, OpenInvoiceLock>::empty(),
            r@.pending_withdrawals == Map::<Seq<u8>, PendingWithdrawal>::empty(),
            r@.credited_payments == Set::<Seq<char>>::empty(),
            r@.fees_accumulated == 0,
            r@.sequence == 0,
            r@.chain_tip_hash == Seq::new(32, |i: int| 0u8),
            r@.joined_quorums == Seq::<QuorumMembership>::empty(),
            r@.dispute_state == DisputeState::Normal,
            r@.parent_pubkey == operator_key,
            r@.quorum_at_fork == Seq::<QuorumMember>::empty(),
            r@.dispute_fork_sequence == 0,
    {
        let ledger_id = Self::compute_ledger_id(&operator_key, reserves_key.as_str(), genesis_block);
        let r = LedgerState {
            ledger_id,
            genesis_block,
            operator_key,
            reserves_key,
            reserves_outpoint: None,
            deposits: Vec::new(),
            reserves_amount: 0,
            collateral_amount: 0,
            quorum_state: QuorumState::PreQuorum,
            quorum_members: Vec::new(),
            next_quorum_members: Vec::new(),
            quorum_expiry: None,
            pending_transfers: Vec::new(),
            open_invoice_locks: Vec::new(),
            pending_withdrawals: Vec::new(),
            credited_payments: Vec::new(),
            fees_accumulated: 0,
            sequence: 0,
            chain_tip_hash: [0u8; 32],
            joined_quorums: Vec::new(),
            dispute_state: DisputeState::Normal,
            parent_pubkey: operator_key,
            quorum_at_fork: Vec::new(),
            dispute_fork_sequence: 0,
        };
        assert(r@.deposits =~= Map::<Seq<u8>, DepositView>::empty());
        assert(r@.pending_transfers =~= Map::<Seq<u8>, PendingTransfer>::empty());
        assert(r@.open_invoice_locks =~= Map::<Seq<u8>, OpenInvoiceLock>::empty());
        assert(r@.pending_withdrawals =~= Map::<Seq<u8>, PendingWithdrawal>::empty());
        assert(r@.credited_payments =~= Set::<Seq<char>>::empty());
        assert(r@.chain_tip_hash =~= Seq::new(32, |i: int| 0u8));
        r
    }

    /// The ledger ID as lowercase hex.
    pub fn ledger_id_hex(&self) -> (r: String)
        ensures
            r@ == hex_lower(self.ledger_id@),
    {
        hex_encode(self.ledger_id.as_slice())
    }
}


// ============================================================================
// Applying operations
// ============================================================================

/// Replacing the deposit at `i` sets the deposit map at its key.
proof fn lemma_deposit_update(s: Seq<(DepositId, Deposit)>, i: int, d: Deposit)
    requires
        keys_unique(s),
        0 <= i < s.len(),
    ensures
        keys_unique(s.update(i, (s[i].0, d))),
        deposit_map(s.update(i, (s[i].0, d))) == deposit_map(s).insert(s[i].0@, d@),
{
    lemma_keyed_update(s, i, d);
    assert(deposit_map(s.update(i, (s[i].0, d))) =~= deposit_map(s).insert(s[i].0@, d@));
}

/// Appending a deposit under a new key inserts it.
proof fn lemma_deposit_push(s: Seq<(DepositId, Deposit)>, e: (DepositId, Deposit))
    requires
        keys_unique(s),
        !has_key(s, e.0@),
    ensures
        keys_unique(s.push(e)),
        deposit_map(s.push(e)) == deposit_map(s).insert(e.0@, e.1@),
{
    lemma_keyed_push(s, e);
    assert(deposit_map(s.push(e)) =~= deposit_map(s).insert(e.0@, e.1@));
}

/// Removing the deposit at `i` removes its key.
proof fn lemma_deposit_remove(s: Seq<(DepositId, Deposit)>, i: int)
    requires
        keys_unique(s),
        0 <= i < s.len(),
    ensures
        keys_unique(s.remove(i)),
        deposit_map(s.remove(i)) == deposit_map(s).remove(s[i].0@),
{
    lemma_keyed_remove(s, i);
    assert(deposit_map(s.remove(i)) =~= deposit_map(s).remove(s[i].0@));
}

/// The position of deposit `id`, if it exists.
fn deposit_index(deposits: &Vec<(DepositId, Deposit)>, id: &DepositId) -> (r: Option<usize>)
    requires
        keys_unique(deposits@),
    ensures
        match r {
            Some(i) => {
                &&& i < deposits@.len()
                &&& deposits@[i as int].0@ == id@
                &&& deposit_map(deposits@).contains_key(id@)
                &&& deposit_map(deposits@)[id@] == deposits@[i as int].1@
            },
            None => !deposit_map(deposits@).contains_key(id@),
        },
{
    let r = find_key(deposits, id);
    proof {
        if let Some(i) = r {
            lemma_keyed_at(deposits@, i as int);
        }
    }
    r
}

/// The position of deposit `id` in a state, if it exists.
pub(crate) fn find_deposit(state: &LedgerState, id: &DepositId) -> (r: Option<usize>)
    requires
        keys_unique(state.deposits@),
    ensures
        match r {
            Some(i) => {
                &&& i < state.deposits@.len()
                &&& state@.deposits.contains_key(id@)
                &&& state@.deposits[id@] == state.deposits@[i as int].1@
            },
            None => !state@.deposits.contains_key(id@),
        },
{
    deposit_index(&state.deposits, id)
}

/// The position of entry `id` of a keyed collection, if it exists.
fn entry_index<V>(entries: &Vec<([u8; 32], V)>, id: &[u8; 32]) -> (r: Option<usize>)
    requires
        keys_unique(entries@),
    ensures
        match r {
            Some(i) => {
                &&& i < entries@.len()
                &&& entries@[i as int].0@ == id@
                &&& keyed(entries@).contains_key(id@)
                &&& keyed(entries@)[id@] == entries@[i as int].1
            },
            None => !keyed(entries@).contains_key(id@),
        },
{
    let r = find_key(entries, id);
    proof {
        if let Some(i) = r {
            lemma_keyed_at(entries@, i as int);
        }
    }
    r
}

/// Puts `e` back at `i` of `v`, from which it was removed.
fn put_back<T>(v: &mut Vec<T>, i: usize, e: T, Ghost(before): Ghost<Seq<T>>)
    requires
        i < before.len(),
        old(v)@ == before.remove(i as int),
    ensures
        final(v)@ == before.update(i as int, e),
{
    v.insert(i, e);
    assert(v@ =~= before.update(i as int, e));
}

/// Removes entry `id` from a keyed collection, if present, returning its
/// value.
fn remove_entry<V>(entries: &mut Vec<([u8; 32], V)>, id: &[u8; 32]) -> (r: Option<V>)
    requires
        keys_unique(old(entries)@),
    ensures
        keys_unique(final(entries)@),
        keyed(final(entries)@) == keyed(old(entries)@).remove(id@),
        match r {
            Some(v) => keyed(old(entries)@).contains_key(id@) && keyed(old(entries)@)[id@] == v,
            None => !keyed(old(entries)@).contains_key(id@) && final(entries)@ == old(entries)@,
        },
{
    match entry_index(entries, id) {
        Some(i) => {
            proof {
                lemma_keyed_remove(entries@, i as int);
            }
            let (_, v) = entries.remove(i);
            Some(v)
        },
        None => {
            assert(keyed(entries@).remove(id@) =~= keyed(entries@));
            None
        },
    }
}

/// Sets entry `id` of a keyed collection to `v`.
fn set_entry<V>(entries: &mut Vec<([u8; 32], V)>, id: &[u8; 32], v: V)
    requires
        keys_unique(old(entries)@),
    ensures
        keys_unique(final(entries)@),
        keyed(final(entries)@) == keyed(old(entries)@).insert(id@, v),
{
    match entry_index(entries, id) {
        Some(i) => {
            let ghost before = entries@;
            proof {
                lemma_keyed_update(before, i as int, v);
            }
            let (k, _) = entries.remove(i);
            put_back(entries, i, (k, v), Ghost(before));
        },
        None => {
            proof {
                lemma_keyed_push(entries@, (*id, v));
            }
            entries.push((*id, v));
        },
    }
}

/// Whether `t` is among `texts`.
fn contains_text(texts: &Vec<String>, t: &String) -> (r: bool)
    ensures
        r == text_set(texts@).contains(t@),
{
    let mut i: usize = 0;
    while i < texts.len()
        invariant
            i <= texts@.len(),
            forall|j: int| 0 <= j < i ==> (#[trigger] texts@[j])@ != t@,
        decreases texts@.len() - i,
    {
        if texts[i] == *t {
            return true;
        }
        i = i + 1;
    }
    false
}

impl LedgerState {
    /// Sets the deposit at `i` to `d`.
    fn set_deposit_at(&mut self, i: usize, d: Deposit)
        requires
            old(self).wf(),
            i < old(self).deposits@.len(),
        ensures
            final(self).wf(),
            final(self)@ == (LedgerModel {
                deposits: old(self)@.deposits.insert(old(self).deposits@[i as int].0@, d@),
                ..old(self)@
            }),
    {
        let ghost before = self.deposits@;
        proof {
            lemma_deposit_update(before, i as int, d);
        }
        let (k, _) = self.deposits.remove(i);
        put_back(&mut self.deposits, i, (k, d), Ghost(before));
    }

    /// A copy of the deposit at `i`.
    fn deposit_copy_at(&self, i: usize) -> (r: Deposit)
        requires
            i < self.deposits@.len(),
        ensures
            r@ == self.deposits@[i as int].1@,
    {
        copy_deposit(&self.deposits[i].1)
    }
}


/// `r` and `t` are what applying `op` to `s` gives: the next state, or the
/// error for why it cannot be applied.
pub open spec fn applied(s: LedgerModel, op: LedgerOperation, r: Result<(), DepositsError>, t: LedgerModel) -> bool {
    match ledger_apply(s, op) {
        Ok(m) => r is Ok && t == m,
        Err(f) => r is Err && fault_is(r->Err_0, f),
    }
}

/// Whether some declared member has key `key`.
fn declared_contains(declared: &Vec<QuorumMemberRef>, key: &PublicKey) -> (r: bool)
    ensures
        r == is_declared(declared@, key@),
{
    let mut i: usize = 0;
    while i < declared.len()
        invariant
            i <= declared@.len(),
            forall|j: int| 0 <= j < i ==> (#[trigger] declared@[j]).pubkey@ != key@,
        decreases declared@.len() - i,
    {
        if declared[i].pubkey == *key {
            return true;
        }
        i = i + 1;
    }
    false
}

/// The staged members whose keys are declared.
fn keep_declared(staged: &Vec<QuorumMember>, declared: &Vec<QuorumMemberRef>) -> (r: Vec<QuorumMember>)
    ensures
        r@ == declared_members(staged@, declared@),
{
    let mut r: Vec<QuorumMember> = Vec::new();
    let mut i: usize = 0;
    while i < staged.len()
        invariant
            i <= staged@.len(),
            r@ == declared_members(staged@.take(i as int), declared@),
        decreases staged@.len() - i,
    {
        let ghost pre = staged@.take(i as int);
        assert(staged@.take(i + 1).drop_last() =~= pre);
        assert(staged@.take(i + 1).last() == staged@[i as int]);
        if declared_contains(declared, &staged[i].pubkey) {
            r.push(copy_member(&staged[i]));
        }
        i = i + 1;
    }
    assert(staged@.take(i as int) =~= staged@);
    r
}

/// Whether some member has key `key`.
fn has_member_key(ms: &Vec<QuorumMember>, key: &PublicKey) -> (r: bool)
    ensures
        r == has_member(ms@, key@),
{
    let mut i: usize = 0;
    while i < ms.len()
        invariant
            i <= ms@.len(),
            forall|j: int| 0 <= j < i ==> (#[trigger] ms@[j]).pubkey@ != key@,
        decreases ms@.len() - i,
    {
        if ms[i].pubkey == *key {
            return true;
        }
        i = i + 1;
    }
    false
}

/// The members whose key is not `key`.
fn without_member(ms: &Vec<QuorumMember>, key: &PublicKey) -> (r: Vec<QuorumMember>)
    ensures
        r@ == members_without(ms@, key@),
{
    let mut r: Vec<QuorumMember> = Vec::new();
    let mut i: usize = 0;
    while i < ms.len()
        invariant
            i <= ms@.len(),
            r@ == members_without(ms@.take(i as int), key@),
        decreases ms@.len() - i,
    {
        let ghost pre = ms@.take(i as int);
        assert(ms@.take(i + 1).drop_last() =~= pre);
        assert(ms@.take(i + 1).last() == ms@[i as int]);
        if !(ms[i].pubkey == *key) {
            r.push(copy_member(&ms[i]));
        }
        i = i + 1;
    }
    assert(ms@.take(i as int) =~= ms@);
    r
}

/// The first membership index is the first position matching.
proof fn lemma_membership_index(js: Seq<QuorumMembership>, operator_id: Seq<u8>, ledger_id: Seq<char>, i: int)
    requires
        0 <= i <= js.len(),
        forall|j: int| 0 <= j < i ==> !is_membership(#[trigger] js[j], operator_id, ledger_id),
    ensures
        i == js.len() ==> membership_index(js, operator_id, ledger_id) == -1,
        i < js.len() && is_membership(js[i], operator_id, ledger_id) ==> membership_index(
            js,
            operator_id,
            ledger_id,
        ) == i,
    decreases js.len(),
{
    if js.len() > 0 {
        let init = js.drop_last();
        if i == js.len() {
            lemma_membership_index(init, operator_id, ledger_id, i - 1);
            assert(js.last() == js[i - 1]);
        } else {
            if i < init.len() {
                lemma_membership_index(init, operator_id, ledger_id, i);
                assert(init[i] == js[i]);
            } else {
                lemma_membership_index(init, operator_id, ledger_id, i);
                assert(js.last() == js[i]);
            }
        }
    }
}

/// The position of the first membership record for the ledger.
fn find_membership(js: &Vec<QuorumMembership>, operator_id: &PublicKey, ledger_id: &String) -> (r: Option<usize>)
    ensures
        match r {
            Some(i) => i < js@.len() && i == membership_index(js@, operator_id@, ledger_id@),
            None => membership_index(js@, operator_id@, ledger_id@) == -1,
        },
{
    let mut i: usize = 0;
    while i < js.len()
        invariant
            i <= js@.len(),
            forall|j: int| 0 <= j < i ==> !is_membership(#[trigger] js@[j], operator_id@, ledger_id@),
        decreases js@.len() - i,
    {
        if js[i].operator_id == *operator_id && js[i].ledger_id == *ledger_id {
            proof {
                lemma_membership_index(js@, operator_id@, ledger_id@, i as int);
            }
            return Some(i);
        }
        i = i + 1;
    }
    proof {
        lemma_membership_index(js@, operator_id@, ledger_id@, i as int);
    }
    None
}

/// The texts after one is appended.
proof fn lemma_text_set_push(s: Seq<String>, t: String)
    ensures
        text_set(s.push(t)) == text_set(s).insert(t@),
{
    let u = s.push(t);
    assert forall|x: Seq<char>| #[trigger] text_set(u).contains(x) == text_set(s).insert(t@).contains(x) by {
        if text_set(s).contains(x) {
            let i = choose|i: int| 0 <= i < s.len() && #[trigger] s[i]@ == x;
            assert(u[i] == s[i]);
        }
        if x == t@ {
            assert(u[s.len() as int] == t);
        }
        if text_set(u).contains(x) {
            let i = choose|i: int| 0 <= i < u.len() && #[trigger] u[i]@ == x;
            if i < s.len() {
                assert(u[i] == s[i]);
            }
        }
    }
    assert(text_set(u) =~= text_set(s).insert(t@));
}


impl LedgerState {
    /// Applies a `LedgerOpen` operation in place.
    fn apply_ledger_open(&mut self, op: &LedgerOperation) -> (r: Result<(), DepositsError>)
        requires
            old(self).wf(),
            op is LedgerOpen,
        ensures
            final(self).wf(),
            applied(old(self)@, *op, r, final(self)@),
    {
        match op {
            LedgerOperation::LedgerOpen {
                operator_id,
                reserves_id,
                genesis_block,
                reserves_amount,
                collateral_amount,
            } => {
                self.ledger_id = Self::compute_ledger_id(operator_id, reserves_id.as_str(), *genesis_block);
                self.operator_key = *operator_id;
                self.reserves_key = reserves_id.clone();
                self.genesis_block = *genesis_block;
                self.reserves_amount = *reserves_amount;
                self.collateral_amount = *collateral_amount;
                Ok(())
            },
            _ => Ok(()),
        }
    }

    /// Applies a `QuorumBegin` operation in place.
    fn apply_quorum_begin(&mut self, op: &LedgerOperation) -> (r: Result<(), DepositsError>)
        requires
            old(self).wf(),
            op is QuorumBegin,
        ensures
            final(self).wf(),
            applied(old(self)@, *op, r, final(self)@),
    {
        match op {
            LedgerOperation::QuorumBegin {
                reserves_id,
                amount,
                quorum_expiry,
                quorum_members,
                collateral_amount,
                ..
            } => {
                self.reserves_key = reserves_id.clone();
                self.reserves_amount = *amount;
                self.collateral_amount = *collateral_amount;
                self.quorum_expiry = Some(*quorum_expiry);
                let mut staged: Vec<QuorumMember> = Vec::new();
                std::mem::swap(&mut staged, &mut self.next_quorum_members);
                self.quorum_members = keep_declared(&staged, quorum_members);
                self.quorum_state = QuorumState::Active;
                assert(self.next_quorum_members@ =~= Seq::<QuorumMember>::empty());
                Ok(())
            },
            _ => Ok(()),
        }
    }

    /// Applies a `DepositOpen` operation in place.
    fn apply_deposit_open(&mut self, op: &LedgerOperation) -> (r: Result<(), DepositsError>)
        requires
            old(self).wf(),
            op is DepositOpen,
        ensures
            final(self).wf(),
            applied(old(self)@, *op, r, final(self)@),
    {
        match op {
            LedgerOperation::DepositOpen {
                deposit_id,
                descriptor,
                fees,
                transfer_fees,
                receive_requires_sig,
                fee_change_after_blocks,
                fee_change_notice_blocks,
                fee_change_limit_bps,
                ..
            } => {
                if deposit_index(&self.deposits, deposit_id).is_some() {
                    return Err(DepositsError::DepositAlreadyExists);
                }
                let mut deposit = Deposit::new(descriptor.clone(), *fees);
                match transfer_fees {
                    Some(tf) => {
                        deposit.transfer_fees = *tf;
                    },
                    None => {},
                }
                deposit.receive_requires_sig = *receive_requires_sig;
                deposit.fee_change_after_blocks = *fee_change_after_blocks;
                deposit.fee_change_notice_blocks = *fee_change_notice_blocks;
                deposit.fee_change_limit_bps = *fee_change_limit_bps;
                assert(deposit.invoices@ =~= Seq::<Invoice>::empty());
                assert(deposit@ == opened_deposit(
                    descriptor@,
                    *fees,
                    *transfer_fees,
                    *receive_requires_sig,
                    *fee_change_after_blocks,
                    *fee_change_notice_blocks,
                    *fee_change_limit_bps,
                ));
                proof {
                    lemma_deposit_push(self.deposits@, (*deposit_id, deposit));
                }
                self.deposits.push((*deposit_id, deposit));
                Ok(())
            },
            _ => Ok(()),
        }
    }

    /// Applies a `DepositClose` operation in place.
    fn apply_deposit_close(&mut self, op: &LedgerOperation) -> (r: Result<(), DepositsError>)
        requires
            old(self).wf(),
            op is DepositClose,
        ensures
            final(self).wf(),
            applied(old(self)@, *op, r, final(self)@),
    {
        match op {
            LedgerOperation::DepositClose { deposit_id } => {
                match deposit_index(&self.deposits, deposit_id) {
                    None => Err(DepositsError::DepositNotFound),
                    Some(i) => {
                        if self.deposits[i].1.balance > 0 {
                            return Err(DepositsError::NonZeroBalance { balance: self.deposits[i].1.balance });
                        }
                        proof {
                            lemma_deposit_remove(self.deposits@, i as int);
                        }
                        let _ = self.deposits.remove(i);
                        Ok(())
                    },
                }
            },
            _ => Ok(()),
        }
    }

    /// Applies a `FeeChange` operation in place.
    fn apply_fee_change(&mut self, op: &LedgerOperation) -> (r: Result<(), DepositsError>)
        requires
            old(self).wf(),
            op is FeeChange,
        ensures
            final(self).wf(),
            applied(old(self)@, *op, r, final(self)@),
    {
        match op {
            LedgerOperation::FeeChange { deposit_id, new_fees, effective_block } => {
                match deposit_index(&self.deposits, deposit_id) {
                    None => Ok(()),
                    Some(i) => {
                        let mut d = self.deposit_copy_at(i);
                        d.pending_fee_change = Some((*new_fees, *effective_block));
                        self.set_deposit_at(i, d);
                        Ok(())
                    },
                }
            },
            _ => Ok(()),
        }
    }

    /// Applies a `DepositKeyRotate` operation in place.
    fn apply_deposit_key_rotate(&mut self, op: &LedgerOperation) -> (r: Result<(), DepositsError>)
        requires
            old(self).wf(),
            op is DepositKeyRotate,
        ensures
            final(self).wf(),
            applied(old(self)@, *op, r, final(self)@),
    {
        match op {
            LedgerOperation::DepositKeyRotate { deposit_id, new_descriptor, .. } => {
                match deposit_index(&self.deposits, deposit_id) {
                    None => Ok(()),
                    Some(i) => {
                        let mut d = self.deposit_copy_at(i);
                        d.descriptor = new_descriptor.clone();
                        self.set_deposit_at(i, d);
                        Ok(())
                    },
                }
            },
            _ => Ok(()),
        }
    }

    /// Applies a `InvoiceCredit` operation in place.
    fn apply_invoice_credit(&mut self, op: &LedgerOperation) -> (r: Result<(), DepositsError>)
        requires
            old(self).wf(),
            op is InvoiceCredit,
        ensures
            final(self).wf(),
            applied(old(self)@, *op, r, final(self)@),
    {
        match op {
            LedgerOperation::InvoiceCredit { payment_hash, deposit_id, amount, .. } => {
                let hash_hex = hex_encode(payment_hash.as_slice());
                if contains_text(&self.credited_payments, &hash_hex) {
                    let prefix = copy_range(payment_hash.as_slice(), 0, 8);
                    let short = hex_encode(prefix.as_slice());
                    let mut details = concat_text("Payment ", short.as_str());
                    details.append(" already credited");
                    return Err(
                        DepositsError::ProtocolViolation {
                            violation_type: "duplicate_credit".to_owned(),
                            details,
                        },
                    );
                }
                match deposit_index(&self.deposits, deposit_id) {
                    None => Err(DepositsError::DepositNotFound),
                    Some(i) => {
                        let mut d = self.deposit_copy_at(i);
                        d.credit(*amount);
                        self.set_deposit_at(i, d);
                        proof {
                            lemma_text_set_push(self.credited_payments@, hash_hex);
                        }
                        self.credited_payments.push(hash_hex);
                        Ok(())
                    },
                }
            },
            _ => Ok(()),
        }
    }

    /// Applies a `InvoiceLock` operation in place.
    fn apply_invoice_lock(&mut self, op: &LedgerOperation) -> (r: Result<(), DepositsError>)
        requires
            old(self).wf(),
            op is InvoiceLock,
        ensures
            final(self).wf(),
            applied(old(self)@, *op, r, final(self)@),
    {
        match op {
            LedgerOperation::InvoiceLock { deposit_id, amount, payment_id, sequence_number, .. } => {
                match deposit_index(&self.deposits, deposit_id) {
                    None => Err(DepositsError::DepositNotFound),
                    Some(i) => {
                        let mut d = self.deposit_copy_at(i);
                        match d.lock(*amount) {
                            Err(e) => {
                                return Err(e);
                            },
                            Ok(()) => {},
                        }
                        self.set_deposit_at(i, d);
                        set_entry(
                            &mut self.open_invoice_locks,
                            payment_id,
                            OpenInvoiceLock {
                                deposit_id: *deposit_id,
                                amount: *amount,
                                lock_sequence: *sequence_number,
                            },
                        );
                        Ok(())
                    },
                }
            },
            _ => Ok(()),
        }
    }

    /// Applies a `InvoiceFail` operation in place.
    fn apply_invoice_fail(&mut self, op: &LedgerOperation) -> (r: Result<(), DepositsError>)
        requires
            old(self).wf(),
            op is InvoiceFail,
        ensures
            final(self).wf(),
            applied(old(self)@, *op, r, final(self)@),
    {
        match op {
            LedgerOperation::InvoiceFail { deposit_id, amount, payment_id, .. } => {
                match deposit_index(&self.deposits, deposit_id) {
                    None => Err(DepositsError::DepositNotFound),
                    Some(i) => {
                        let mut d = self.deposit_copy_at(i);
                        d.unlock(*amount);
                        let fixed = d.transfer_fees.fixed_msats;
                        let charge = if fixed <= d.balance {
                            fixed
                        } else {
                            d.balance
                        };
                        d.balance = d.balance - charge;
                        self.set_deposit_at(i, d);
                        self.fees_accumulated = self.fees_accumulated.saturating_add(charge);
                        let _ = remove_entry(&mut self.open_invoice_locks, payment_id);
                        Ok(())
                    },
                }
            },
            _ => Ok(()),
        }
    }

    /// Applies a `InvoiceFulfill` operation in place.
    fn apply_invoice_fulfill(&mut self, op: &LedgerOperation) -> (r: Result<(), DepositsError>)
        requires
            old(self).wf(),
            op is InvoiceFulfill,
        ensures
            final(self).wf(),
            applied(old(self)@, *op, r, final(self)@),
    {
        match op {
            LedgerOperation::InvoiceFulfill { deposit_id, amount, payment_id, .. } => {
                match deposit_index(&self.deposits, deposit_id) {
                    None => Err(DepositsError::DepositNotFound),
                    Some(i) => {
                        let mut d = self.deposit_copy_at(i);
                        d.fulfill(*amount);
                        self.set_deposit_at(i, d);
                        let _ = remove_entry(&mut self.open_invoice_locks, payment_id);
                        Ok(())
                    },
                }
            },
            _ => Ok(()),
        }
    }

    /// Applies a `OnchainCredit` operation in place.
    fn apply_onchain_credit(&mut self, op: &LedgerOperation) -> (r: Result<(), DepositsError>)
        requires
            old(self).wf(),
            op is OnchainCredit,
        ensures
            final(self).wf(),
            applied(old(self)@, *op, r, final(self)@),
    {
        match op {
            LedgerOperation::OnchainCredit { deposit_id, amount, .. } => {
                match deposit_index(&self.deposits, deposit_id) {
                    None => Err(DepositsError::DepositNotFound),
                    Some(i) => {
                        let mut d = self.deposit_copy_at(i);
                        d.credit(*amount);
                        self.set_deposit_at(i, d);
                        Ok(())
                    },
                }
            },
            _ => Ok(()),
        }
    }

    /// Applies a `OnchainLock` operation in place.
    fn apply_onchain_lock(&mut self, op: &LedgerOperation) -> (r: Result<(), DepositsError>)
        requires
            old(self).wf(),
            op is OnchainLock,
        ensures
            final(self).wf(),
            applied(old(self)@, *op, r, final(self)@),
    {
        match op {
            LedgerOperation::OnchainLock {
                deposit_id,
                amount,
                fee_sats,
                destination_address,
                withdrawal_id,
                ..
            } => {
                match deposit_index(&self.deposits, deposit_id) {
                    None => Err(DepositsError::DepositNotFound),
                    Some(i) => {
                        let total = amount.saturating_add(*fee_sats);
                        let mut d = self.deposit_copy_at(i);
                        match d.lock(total) {
                            Err(e) => {
                                return Err(e);
                            },
                            Ok(()) => {},
                        }
                        self.set_deposit_at(i, d);
                        set_entry(
                            &mut self.pending_withdrawals,
                            withdrawal_id,
                            PendingWithdrawal {
                                deposit_id: *deposit_id,
                                amount: *amount,
                                fee_sats: *fee_sats,
                                destination_address: destination_address.clone(),
                            },
                        );
                        Ok(())
                    },
                }
            },
            _ => Ok(()),
        }
    }

    /// Applies a `OnchainFail` operation in place.
    fn apply_onchain_fail(&mut self, op: &LedgerOperation) -> (r: Result<(), DepositsError>)
        requires
            old(self).wf(),
            op is OnchainFail,
        ensures
            final(self).wf(),
            applied(old(self)@, *op, r, final(self)@),
    {
        match op {
            LedgerOperation::OnchainFail { deposit_id, withdrawal_id } => {
                if deposit_index(&self.deposits, deposit_id).is_none() {
                    return Err(DepositsError::DepositNotFound);
                }
                match remove_entry(&mut self.pending_withdrawals, withdrawal_id) {
                    None => Ok(()),
                    Some(p) => {
                        match deposit_index(&self.deposits, &p.deposit_id) {
                            None => Ok(()),
                            Some(j) => {
                                let total = p.amount.saturating_add(p.fee_sats);
                                let mut d = self.deposit_copy_at(j);
                                d.unlock(total);
                                let fixed = d.transfer_fees.fixed_msats;
                                let charge = if fixed <= d.balance {
                                    fixed
                                } else {
                                    d.balance
                                };
                                d.balance = d.balance - charge;
                                self.set_deposit_at(j, d);
                                self.fees_accumulated = self.fees_accumulated.saturating_add(charge);
                                Ok(())
                            },
                        }
                    },
                }
            },
            _ => Ok(()),
        }
    }

    /// Applies a `OnchainFulfill` operation in place.
    fn apply_onchain_fulfill(&mut self, op: &LedgerOperation) -> (r: Result<(), DepositsError>)
        requires
            old(self).wf(),
            op is OnchainFulfill,
        ensures
            final(self).wf(),
            applied(old(self)@, *op, r, final(self)@),
    {
        match op {
            LedgerOperation::OnchainFulfill { deposit_id, withdrawal_id, .. } => {
                if deposit_index(&self.deposits, deposit_id).is_none() {
                    return Err(DepositsError::DepositNotFound);
                }
                match remove_entry(&mut self.pending_withdrawals, withdrawal_id) {
                    None => Ok(()),
                    Some(p) => {
                        match deposit_index(&self.deposits, &p.deposit_id) {
                            None => Ok(()),
                            Some(j) => {
                                let total = p.amount.saturating_add(p.fee_sats);
                                let mut d = self.deposit_copy_at(j);
                                d.fulfill(total);
                                self.set_deposit_at(j, d);
                                Ok(())
                            },
                        }
                    },
                }
            },
            _ => Ok(()),
        }
    }

    /// Applies a `FeeCollect` operation in place.
    fn apply_fee_collect(&mut self, op: &LedgerOperation) -> (r: Result<(), DepositsError>)
        requires
            old(self).wf(),
            op is FeeCollect,
        ensures
            final(self).wf(),
            applied(old(self)@, *op, r, final(self)@),
    {
        match op {
            LedgerOperation::FeeCollect { deposit_id, amount, block_height } => {
                match deposit_index(&self.deposits, deposit_id) {
                    None => Ok(()),
                    Some(i) => {
                        let mut d = self.deposit_copy_at(i);
                        match d.pending_fee_change {
                            Some((new_fees, effective)) => {
                                if *block_height >= effective {
                                    d.fees = new_fees;
                                    d.pending_fee_change = None;
                                }
                            },
                            None => {},
                        }
                        d.balance = d.balance.saturating_sub(*amount);
                        d.last_fee_assessment = *block_height;
                        self.set_deposit_at(i, d);
                        self.fees_accumulated = self.fees_accumulated.saturating_add(*amount);
                        Ok(())
                    },
                }
            },
            _ => Ok(()),
        }
    }

    /// Applies a `QuorumAddMember` operation in place.
    fn apply_quorum_add_member(&mut self, op: &LedgerOperation) -> (r: Result<(), DepositsError>)
        requires
            old(self).wf(),
            op is QuorumAddMember,
        ensures
            final(self).wf(),
            applied(old(self)@, *op, r, final(self)@),
    {
        match op {
            LedgerOperation::QuorumAddMember {
                quorum_member,
                member_ledger_id,
                min_fee_bps,
                min_fee_fixed,
                max_fee_period,
                membership_until,
                dispute_response_blocks,
                dispute_arm_blocks,
                service_response_blocks,
                max_transfer_timeout_blocks,
                max_descriptor_bytes,
                compensation_bps,
                compensation_deposit_id,
                compensation_frequency_blocks,
                ..
            } => {
                let already_active = has_member_key(&self.quorum_members, quorum_member);
                let already_pending = has_member_key(&self.next_quorum_members, quorum_member);
                if !already_active && !already_pending {
                    self.next_quorum_members.push(
                        QuorumMember {
                            pubkey: *quorum_member,
                            ledger_id: member_ledger_id.clone(),
                            min_fee_bps: *min_fee_bps,
                            min_fee_fixed: *min_fee_fixed,
                            max_fee_period: *max_fee_period,
                            membership_until: *membership_until,
                            dispute_response_blocks: *dispute_response_blocks,
                            dispute_arm_blocks: *dispute_arm_blocks,
                            service_response_blocks: *service_response_blocks,
                            max_transfer_timeout_blocks: *max_transfer_timeout_blocks,
                            max_descriptor_bytes: *max_descriptor_bytes,
                            compensation_bps: *compensation_bps,
                            compensation_deposit_id: *compensation_deposit_id,
                            compensation_frequency_blocks: *compensation_frequency_blocks,
                        },
                    );
                }
                Ok(())
            },
            _ => Ok(()),
        }
    }

    /// Applies a `QuorumRemoveMember` operation in place.
    fn apply_quorum_remove_member(&mut self, op: &LedgerOperation) -> (r: Result<(), DepositsError>)
        requires
            old(self).wf(),
            op is QuorumRemoveMember,
        ensures
            final(self).wf(),
            applied(old(self)@, *op, r, final(self)@),
    {
        match op {
            LedgerOperation::QuorumRemoveMember { quorum_member, .. } => {
                self.next_quorum_members = without_member(&self.next_quorum_members, quorum_member);
                Ok(())
            },
            _ => Ok(()),
        }
    }

    /// Applies a `QuorumJoin` operation in place.
    fn apply_quorum_join(&mut self, op: &LedgerOperation) -> (r: Result<(), DepositsError>)
        requires
            old(self).wf(),
            op is QuorumJoin,
            membership_index(old(self).joined_quorums@, op->QuorumJoin_operator_id@, op->QuorumJoin_ledger_id@) < 0
                ==> old(self).sequence < u64::MAX,
        ensures
            final(self).wf(),
            applied(old(self)@, *op, r, final(self)@),
    {
        match op {
            LedgerOperation::QuorumJoin { operator_id, ledger_id, membership_expires } => {
                match find_membership(&self.joined_quorums, operator_id, ledger_id) {
                    Some(i) => {
                        let ghost before = self.joined_quorums@;
                        let mut m = self.joined_quorums.remove(i);
                        if *membership_expires > m.membership_expires {
                            m.membership_expires = *membership_expires;
                        }
                        put_back(&mut self.joined_quorums, i, m, Ghost(before));
                    },
                    None => {
                        self.joined_quorums.push(
                            QuorumMembership {
                                operator_id: *operator_id,
                                ledger_id: ledger_id.clone(),
                                membership_expires: *membership_expires,
                                joined_at_sequence: self.sequence + 1,
                            },
                        );
                    },
                }
                Ok(())
            },
            _ => Ok(()),
        }
    }

    /// Applies a `DisputeEnter` operation in place.
    fn apply_dispute_enter(&mut self, op: &LedgerOperation) -> (r: Result<(), DepositsError>)
        requires
            old(self).wf(),
            op is DisputeEnter,
        ensures
            final(self).wf(),
            applied(old(self)@, *op, r, final(self)@),
    {
        match op {
            LedgerOperation::DisputeEnter { last_valid_sequence, .. } => {
                self.quorum_at_fork = copy_members(&self.quorum_members);
                self.dispute_fork_sequence = *last_valid_sequence;
                self.dispute_state = DisputeState::Disputed;
                Ok(())
            },
            _ => Ok(()),
        }
    }

    /// Applies a `DisputeAcquire` operation in place.
    fn apply_dispute_acquire(&mut self, op: &LedgerOperation) -> (r: Result<(), DepositsError>)
        requires
            old(self).wf(),
            op is DisputeAcquire,
        ensures
            final(self).wf(),
            applied(old(self)@, *op, r, final(self)@),
    {
        match op {
            LedgerOperation::DisputeAcquire { new_custodian, .. } => {
                self.operator_key = *new_custodian;
                self.parent_pubkey = *new_custodian;
                self.dispute_state = DisputeState::Normal;
                self.quorum_at_fork = Vec::new();
                self.dispute_fork_sequence = 0;
                assert(self.quorum_at_fork@ =~= Seq::<QuorumMember>::empty());
                Ok(())
            },
            _ => Ok(()),
        }
    }

    /// Applies a `TransferLock` operation in place.
    fn apply_transfer_lock(&mut self, op: &LedgerOperation) -> (r: Result<(), DepositsError>)
        requires
            old(self).wf(),
            op is TransferLock,
        ensures
            final(self).wf(),
            applied(old(self)@, *op, r, final(self)@),
    {
        match op {
            LedgerOperation::TransferLock {
                nonce,
                source_deposit_id,
                destination_deposit_id,
                amount,
                fee,
                completion_script,
                timeout_height,
                transfer_id,
                ..
            } => {
                match deposit_index(&self.deposits, source_deposit_id) {
                    None => Err(DepositsError::DepositNotFound),
                    Some(i) => {
                        let total = amount.saturating_add(*fee);
                        let mut d = self.deposit_copy_at(i);
                        let avail = d.available_balance();
                        if avail < total {
                            return Err(
                                DepositsError::InsufficientDepositBalance { available: avail, required: total },
                            );
                        }
                        d.locked_balance = d.locked_balance.saturating_add(total);
                        self.set_deposit_at(i, d);
                        set_entry(
                            &mut self.pending_transfers,
                            transfer_id,
                            PendingTransfer {
                                transfer_id: *transfer_id,
                                nonce: *nonce,
                                source_deposit_id: *source_deposit_id,
                                destination_deposit_id: *destination_deposit_id,
                                amount: *amount,
                                fee: *fee,
                                completion_script: completion_script.clone(),
                                timeout_height: *timeout_height,
                            },
                        );
                        Ok(())
                    },
                }
            },
            _ => Ok(()),
        }
    }

    /// Applies a `TransferComplete` operation in place.
    fn apply_transfer_complete(&mut self, op: &LedgerOperation) -> (r: Result<(), DepositsError>)
        requires
            old(self).wf(),
            op is TransferComplete,
        ensures
            final(self).wf(),
            applied(old(self)@, *op, r, final(self)@),
    {
        match op {
            LedgerOperation::TransferComplete { transfer_id, .. } => {
                match remove_entry(&mut self.pending_transfers, transfer_id) {
                    None => Ok(()),
                    Some(p) => {
                        let total = p.total_locked();
                        match deposit_index(&self.deposits, &p.source_deposit_id) {
                            None => {},
                            Some(i) => {
                                let mut d = self.deposit_copy_at(i);
                                d.locked_balance = d.locked_balance.saturating_sub(total);
                                d.balance = d.balance.saturating_sub(p.amount);
                                self.set_deposit_at(i, d);
                            },
                        }
                        match deposit_index(&self.deposits, &p.destination_deposit_id) {
                            None => {},
                            Some(j) => {
                                let mut d = self.deposit_copy_at(j);
                                d.balance = d.balance.saturating_add(p.amount);
                                self.set_deposit_at(j, d);
                            },
                        }
                        self.fees_accumulated = self.fees_accumulated.saturating_add(p.fee);
                        Ok(())
                    },
                }
            },
            _ => Ok(()),
        }
    }

    /// Applies a `TransferFail` operation in place.
    fn apply_transfer_fail(&mut self, op: &LedgerOperation) -> (r: Result<(), DepositsError>)
        requires
            old(self).wf(),
            op is TransferFail,
        ensures
            final(self).wf(),
            applied(old(self)@, *op, r, final(self)@),
    {
        match op {
            LedgerOperation::TransferFail { transfer_id, .. } => {
                match remove_entry(&mut self.pending_transfers, transfer_id) {
                    None => Ok(()),
                    Some(p) => {
                        let total = p.total_locked();
                        let mut charge: u64 = 0;
                        match deposit_index(&self.deposits, &p.source_deposit_id) {
                            None => {},
                            Some(i) => {
                                let mut d = self.deposit_copy_at(i);
                                d.locked_balance = d.locked_balance.saturating_sub(total);
                                let fixed = d.transfer_fees.fixed_msats;
                                charge = if fixed <= d.balance {
                                    fixed
                                } else {
                                    d.balance
                                };
                                d.balance = d.balance - charge;
                                self.set_deposit_at(i, d);
                            },
                        }
                        self.fees_accumulated = self.fees_accumulated.saturating_add(charge);
                        Ok(())
                    },
                }
            },
            _ => Ok(()),
        }
    }
}


/// `op` may be applied to a state with model `s` without overflowing the
/// sequence number given to a new quorum membership.
pub open spec fn apply_in_range(s: LedgerModel, op: LedgerOperation) -> bool {
    op matches LedgerOperation::QuorumJoin { operator_id, ledger_id, .. } ==> (membership_index(
        s.joined_quorums,
        operator_id@,
        ledger_id@,
    ) < 0 ==> s.sequence < u64::MAX)
}

/// The sum of the deposits' balances.
pub open spec fn balance_sum(s: Seq<(DepositId, Deposit)>) -> int
    decreases s.len(),
{
    if s.len() == 0 {
        0
    } else {
        balance_sum(s.drop_last()) + s.last().1.balance
    }
}

/// The sum of the deposits' locked balances.
pub open spec fn locked_sum(s: Seq<(DepositId, Deposit)>) -> int
    decreases s.len(),
{
    if s.len() == 0 {
        0
    } else {
        locked_sum(s.drop_last()) + s.last().1.locked_balance
    }
}

/// The memberships that have not expired at `current_block`, in order.
pub open spec fn active_memberships(js: Seq<QuorumMembership>, current_block: u32) -> Seq<QuorumMembership>
    decreases js.len(),
{
    if js.len() == 0 {
        seq![]
    } else {
        let rest = active_memberships(js.drop_last(), current_block);
        if js.last().membership_expires > current_block {
            rest.push(js.last())
        } else {
            rest
        }
    }
}

impl LedgerState {
    /// Applies a ledger operation and returns the next state, leaving this
    /// one unchanged; or the error for why the operation cannot be applied.
    pub fn apply(&self, operation: &LedgerOperation) -> (r: Result<LedgerState, DepositsError>)
        requires
            self.wf(),
            apply_in_range(self@, *operation),
        ensures
            match ledger_apply(self@, *operation) {
                Ok(m) => r is Ok && r->Ok_0@ == m && r->Ok_0.wf(),
                Err(f) => r is Err && fault_is(r->Err_0, f),
            },
    {
        let mut next = self.duplicate();
        let res = match operation {
            LedgerOperation::LedgerOpen { .. } => next.apply_ledger_open(operation),
            LedgerOperation::QuorumBegin { .. } => next.apply_quorum_begin(operation),
            LedgerOperation::DepositOpen { .. } => next.apply_deposit_open(operation),
            LedgerOperation::DepositClose { .. } => next.apply_deposit_close(operation),
            LedgerOperation::FeeChange { .. } => next.apply_fee_change(operation),
            LedgerOperation::DepositKeyRotate { .. } => next.apply_deposit_key_rotate(operation),
            LedgerOperation::InvoiceCredit { .. } => next.apply_invoice_credit(operation),
            LedgerOperation::InvoiceLock { .. } => next.apply_invoice_lock(operation),
            LedgerOperation::InvoiceFail { .. } => next.apply_invoice_fail(operation),
            LedgerOperation::InvoiceFulfill { .. } => next.apply_invoice_fulfill(operation),
            LedgerOperation::OnchainCredit { .. } => next.apply_onchain_credit(operation),
            LedgerOperation::OnchainLock { .. } => next.apply_onchain_lock(operation),
            LedgerOperation::OnchainFail { .. } => next.apply_onchain_fail(operation),
            LedgerOperation::OnchainFulfill { .. } => next.apply_onchain_fulfill(operation),
            LedgerOperation::FeeCollect { .. } => next.apply_fee_collect(operation),
            LedgerOperation::QuorumAddMember { .. } => next.apply_quorum_add_member(operation),
            LedgerOperation::QuorumRemoveMember { .. } => next.apply_quorum_remove_member(operation),
            LedgerOperation::LedgerClose => Ok(()),
            LedgerOperation::QuorumJoin { .. } => next.apply_quorum_join(operation),
            LedgerOperation::DisputeEnter { .. } => next.apply_dispute_enter(operation),
            LedgerOperation::DisputeArmed { .. } => {
                next.dispute_state = DisputeState::Armed;
                Ok(())
            },
            LedgerOperation::DisputeAcquire { .. } => next.apply_dispute_acquire(operation),
            LedgerOperation::DisputeYield => {
                next.dispute_state = DisputeState::Tombstoned;
                Ok(())
            },
            LedgerOperation::TransferLock { .. } => next.apply_transfer_lock(operation),
            LedgerOperation::TransferComplete { .. } => next.apply_transfer_complete(operation),
            LedgerOperation::TransferFail { .. } => next.apply_transfer_fail(operation),
            LedgerOperation::DeliveryEmbed { .. } => Ok(()),
        };
        match res {
            Ok(()) => Ok(next),
            Err(e) => Err(e),
        }
    }

    /// The operator's total obligation: the deposits' balances summed,
    /// saturating.
    pub fn total_deposit_balance(&self) -> (r: u64)
        ensures
            r == saturate(balance_sum(self.deposits@)),
    {
        let mut acc: u64 = 0;
        let mut i: usize = 0;
        while i < self.deposits.len()
            invariant
                i <= self.deposits@.len(),
                acc == saturate(balance_sum(self.deposits@.take(i as int))),
            decreases self.deposits@.len() - i,
        {
            assert(self.deposits@.take(i + 1).drop_last() =~= self.deposits@.take(i as int));
            proof {
                lemma_balance_sum_nonneg(self.deposits@.take(i as int));
            }
            assert(balance_sum(self.deposits@.take(i + 1)) == balance_sum(self.deposits@.take(i as int))
                + self.deposits@[i as int].1.balance);
            acc = acc.saturating_add(self.deposits[i].1.balance);
            i = i + 1;
        }
        assert(self.deposits@.take(i as int) =~= self.deposits@);
        acc
    }

    /// The declared collateral (msats).
    pub fn total_collateral(&self) -> (r: u64)
        ensures
            r == self.collateral_amount,
    {
        self.collateral_amount
    }

    /// The deposits' locked balances summed; the sum must fit a `u64`.
    pub fn total_locked_balance(&self) -> (r: u64)
        requires
            locked_sum(self.deposits@) <= u64::MAX,
        ensures
            r == locked_sum(self.deposits@),
    {
        let mut acc: u64 = 0;
        let mut i: usize = 0;
        while i < self.deposits.len()
            invariant
                i <= self.deposits@.len(),
                acc == locked_sum(self.deposits@.take(i as int)),
                locked_sum(self.deposits@) <= u64::MAX,
            decreases self.deposits@.len() - i,
        {
            assert(self.deposits@.take(i + 1).drop_last() =~= self.deposits@.take(i as int));
            proof {
                lemma_locked_sum_prefix(self.deposits@, i + 1);
            }
            acc = acc + self.deposits[i].1.locked_balance;
            i = i + 1;
        }
        assert(self.deposits@.take(i as int) =~= self.deposits@);
        acc
    }

    /// Whether the reserves cover the total obligation.
    pub fn has_sufficient_reserves(&self) -> (r: bool)
        ensures
            r == (self.reserves_amount >= saturate(balance_sum(self.deposits@))),
    {
        self.reserves_amount >= self.total_deposit_balance()
    }

    /// The quorum memberships that have not expired at `current_block`.
    pub fn active_quorum_memberships(&self, current_block: u32) -> (r: Vec<&QuorumMembership>)
        ensures
            r@.map_values(|m: &QuorumMembership| *m) == active_memberships(
                self.joined_quorums@,
                current_block,
            ),
    {
        let mut r: Vec<&QuorumMembership> = Vec::new();
        let mut i: usize = 0;
        while i < self.joined_quorums.len()
            invariant
                i <= self.joined_quorums@.len(),
                r@.map_values(|m: &QuorumMembership| *m) == active_memberships(
                    self.joined_quorums@.take(i as int),
                    current_block,
                ),
            decreases self.joined_quorums@.len() - i,
        {
            assert(self.joined_quorums@.take(i + 1).drop_last() =~= self.joined_quorums@.take(i as int));
            assert(self.joined_quorums@.take(i + 1).last() == self.joined_quorums@[i as int]);
            let m = &self.joined_quorums[i];
            if m.membership_expires > current_block {
                let ghost before = r@;
                r.push(m);
                assert(r@.map_values(|m: &QuorumMembership| *m) =~= before.map_values(
                    |m: &QuorumMembership| *m,
                ).push(*m));
            }
            i = i + 1;
        }
        assert(self.joined_quorums@.take(i as int) =~= self.joined_quorums@);
        r
    }
}

/// Balances sum to at least zero.
proof fn lemma_balance_sum_nonneg(s: Seq<(DepositId, Deposit)>)
    ensures
        balance_sum(s) >= 0,
    decreases s.len(),
{
    if s.len() > 0 {
        lemma_balance_sum_nonneg(s.drop_last());
    }
}

/// A prefix's locked balances sum to at most the whole's.
proof fn lemma_locked_sum_prefix(s: Seq<(DepositId, Deposit)>, n: int)
    requires
        0 <= n <= s.len(),
    ensures
        locked_sum(s.take(n)) <= locked_sum(s),
    decreases s.len(),
{
    if n < s.len() {
        lemma_locked_sum_prefix(s.drop_last(), n);
        assert(s.drop_last().take(n) =~= s.take(n));
    } else {
        assert(s.take(n) =~= s);
    }
}


// ============================================================================
// Laws
// ============================================================================

/// Applying an operation never decreases the fees the operator has accrued.
pub proof fn lemma_fees_never_decrease(s: LedgerModel, op: LedgerOperation)
    requires
        ledger_apply(s, op) is Ok,
    ensures
        ledger_apply(s, op)->Ok_0.fees_accumulated >= s.fees_accumulated,
{
}

/// Applying an operation leaves the sequence number and the chain tip as
/// they were: only recording an update advances them.
pub proof fn lemma_apply_keeps_chain_position(s: LedgerModel, op: LedgerOperation)
    requires
        ledger_apply(s, op) is Ok,
    ensures
        ledger_apply(s, op)->Ok_0.sequence == s.sequence,
        ledger_apply(s, op)->Ok_0.chain_tip_hash == s.chain_tip_hash,
{
}

/// Opening a deposit and then closing it, before anything is credited,
/// restores the deposits as they were.
pub proof fn lemma_open_then_close(s: LedgerModel, open: LedgerOperation, close: LedgerOperation)
    requires
        open is DepositOpen,
        close == (LedgerOperation::DepositClose { deposit_id: open->DepositOpen_deposit_id }),
        ledger_apply(s, open) is Ok,
    ensures
        ledger_apply(ledger_apply(s, open)->Ok_0, close) is Ok,
        ledger_apply(ledger_apply(s, open)->Ok_0, close)->Ok_0.deposits == s.deposits,
{
    let k = open->DepositOpen_deposit_id@;
    let t = ledger_apply(s, open)->Ok_0;
    assert(t.deposits.remove(k) =~= s.deposits);
}

/// Failing an invoice payment releases exactly what locking it locked: the
/// deposit's locked balance and the open locks return to what they were
/// (the fixed transfer fee is still charged).
pub proof fn lemma_lock_then_fail_invoice(s: LedgerModel, lock: LedgerOperation, fail: LedgerOperation)
    requires
        lock is InvoiceLock,
        fail is InvoiceFail,
        fail->InvoiceFail_deposit_id == lock->InvoiceLock_deposit_id,
        fail->InvoiceFail_amount == lock->InvoiceLock_amount,
        fail->InvoiceFail_payment_id == lock->InvoiceLock_payment_id,
        !s.open_invoice_locks.contains_key(lock->InvoiceLock_payment_id@),
        ledger_apply(s, lock) is Ok,
    ensures
        ledger_apply(ledger_apply(s, lock)->Ok_0, fail) is Ok,
        ledger_apply(ledger_apply(s, lock)->Ok_0, fail)->Ok_0.deposits[lock->InvoiceLock_deposit_id@].locked_balance
            == s.deposits[lock->InvoiceLock_deposit_id@].locked_balance,
        ledger_apply(ledger_apply(s, lock)->Ok_0, fail)->Ok_0.open_invoice_locks == s.open_invoice_locks,
{
    let k = lock->InvoiceLock_deposit_id@;
    let p = lock->InvoiceLock_payment_id@;
    let t = ledger_apply(s, lock)->Ok_0;
    assert(t.open_invoice_locks.remove(p) =~= s.open_invoice_locks);
}

/// Completing a locked transfer between two distinct deposits moves its
/// amount from the source to the destination, releases the source's lock
/// and accrues the fee, where no sum overflows.
pub proof fn lemma_lock_then_complete_transfer(
    s: LedgerModel,
    lock: LedgerOperation,
    complete: LedgerOperation,
)
    requires
        lock is TransferLock,
        complete is TransferComplete,
        complete->TransferComplete_transfer_id == lock->TransferLock_transfer_id,
        lock->TransferLock_source_deposit_id@ != lock->TransferLock_destination_deposit_id@,
        s.deposits.contains_key(lock->TransferLock_destination_deposit_id@),
        s.deposits[lock->TransferLock_destination_deposit_id@].balance + lock->TransferLock_amount
            <= u64::MAX,
        s.fees_accumulated + lock->TransferLock_fee <= u64::MAX,
        lock->TransferLock_amount + lock->TransferLock_fee <= u64::MAX,
        ledger_apply(s, lock) is Ok,
    ensures
        ({
            let src = lock->TransferLock_source_deposit_id@;
            let dst = lock->TransferLock_destination_deposit_id@;
            let amount = lock->TransferLock_amount;
            let u = ledger_apply(ledger_apply(s, lock)->Ok_0, complete);
            &&& u is Ok
            &&& u->Ok_0.deposits[src].locked_balance == s.deposits[src].locked_balance
            &&& u->Ok_0.deposits[src].balance == s.deposits[src].balance - amount
            &&& u->Ok_0.deposits[dst].balance == s.deposits[dst].balance + amount
            &&& u->Ok_0.fees_accumulated == s.fees_accumulated + lock->TransferLock_fee
        }),
{
}

/// Fulfilling an invoice payment takes its amount out of the deposit: the
/// balance and the locked balance both drop by the amount, where the lock
/// covers it.
pub proof fn lemma_fulfill_debits_deposit(s: LedgerModel, fulfill: LedgerOperation)
    requires
        fulfill is InvoiceFulfill,
        s.deposits.contains_key(fulfill->InvoiceFulfill_deposit_id@),
        fulfill->InvoiceFulfill_amount <= s.deposits[fulfill->InvoiceFulfill_deposit_id@].locked_balance,
        s.deposits[fulfill->InvoiceFulfill_deposit_id@].locked_balance
            <= s.deposits[fulfill->InvoiceFulfill_deposit_id@].balance,
    ensures
        ({
            let k = fulfill->InvoiceFulfill_deposit_id@;
            let amount = fulfill->InvoiceFulfill_amount;
            let u = ledger_apply(s, fulfill);
            &&& u is Ok
            &&& u->Ok_0.deposits[k].balance == s.deposits[k].balance - amount
            &&& u->Ok_0.deposits[k].locked_balance == s.deposits[k].locked_balance - amount
            &&& u->Ok_0.deposits.dom() == s.deposits.dom()
        }),
{
    let k = fulfill->InvoiceFulfill_deposit_id@;
    let u = ledger_apply(s, fulfill)->Ok_0;
    assert(u.deposits.dom() =~= s.deposits.dom());
}

/// Locking an invoice payment and then fulfilling it (same deposit, amount
/// and payment) lowers the deposit's balance by the amount and returns its
/// locked balance and the open locks to what they were before the lock.
pub proof fn lemma_lock_then_fulfill_invoice(s: LedgerModel, lock: LedgerOperation, fulfill: LedgerOperation)
    requires
        lock is InvoiceLock,
        fulfill is InvoiceFulfill,
        fulfill->InvoiceFulfill_deposit_id == lock->InvoiceLock_deposit_id,
        fulfill->InvoiceFulfill_amount == lock->InvoiceLock_amount,
        fulfill->InvoiceFulfill_payment_id == lock->InvoiceLock_payment_id,
        !s.open_invoice_locks.contains_key(lock->InvoiceLock_payment_id@),
        ledger_apply(s, lock) is Ok,
    ensures
        ({
            let k = lock->InvoiceLock_deposit_id@;
            let amount = lock->InvoiceLock_amount;
            let u = ledger_apply(ledger_apply(s, lock)->Ok_0, fulfill);
            &&& u is Ok
            &&& u->Ok_0.deposits[k].balance == s.deposits[k].balance - amount
            &&& u->Ok_0.deposits[k].locked_balance == s.deposits[k].locked_balance
            &&& u->Ok_0.open_invoice_locks == s.open_invoice_locks
        }),
{
    let k = lock->InvoiceLock_deposit_id@;
    let p = lock->InvoiceLock_payment_id@;
    let t = ledger_apply(s, lock)->Ok_0;
    assert(t.open_invoice_locks.remove(p) =~= s.open_invoice_locks);
}

/// The total of the deposits' balances does not depend on how much of them
/// is locked: two deposit lists with the same balances, entry by entry, have
/// the same total.
pub proof fn lemma_balance_sum_ignores_locks(a: Seq<(DepositId, Deposit)>, b: Seq<(DepositId, Deposit)>)
    requires
        a.len() == b.len(),
        forall|i: int| 0 <= i < a.len() ==> (#[trigger] a[i]).1.balance == b[i].1.balance,
    ensures
        balance_sum(a) == balance_sum(b),
    decreases a.len(),
{
    if a.len() > 0 {
        let a0 = a.drop_last();
        let b0 = b.drop_last();
        assert forall|i: int| 0 <= i < a0.len() implies (#[trigger] a0[i]).1.balance == b0[i].1.balance by {
            assert(a0[i] == a[i] && b0[i] == b[i]);
        }
        lemma_balance_sum_ignores_locks(a0, b0);
        assert(a.last() == a[a.len() - 1] && b.last() == b[a.len() - 1]);
    }
}

/// The total of the deposits' balances counts every balance in full: it is
/// at least each single balance, and raising one entry's locked balance
/// leaves it unchanged.
pub proof fn lemma_balance_sum_counts_each_balance(s: Seq<(DepositId, Deposit)>, i: int, locked: u64)
    requires
        0 <= i < s.len(),
    ensures
        balance_sum(s) >= s[i].1.balance,
        balance_sum(s.update(i, (s[i].0, Deposit { locked_balance: locked, ..s[i].1 }))) == balance_sum(s),
    decreases s.len(),
{
    let t = s.update(i, (s[i].0, Deposit { locked_balance: locked, ..s[i].1 }));
    assert forall|j: int| 0 <= j < t.len() implies (#[trigger] t[j]).1.balance == s[j].1.balance by {
        if j == i {
        } else {
            assert(t[j] == s[j]);
        }
    }
    lemma_balance_sum_ignores_locks(t, s);
    if i < s.len() - 1 {
        lemma_balance_sum_counts_each_balance(s.drop_last(), i, locked);
        lemma_balance_sum_nonneg(s.drop_last());
        assert(s.drop_last()[i] == s[i]);
    } else {
        lemma_balance_sum_nonneg(s.drop_last());
    }
}

} // verus!
