//! Report and message records of the protocol's services: deposit and
//! invoice summaries, reserves status, audit results, quorum messages and
//! ledger state updates.

use vstd::prelude::*;

use crate::crypto::{hex_encode, hex_lower};
use crate::pubkey::PublicKey;
use crate::types::{Deposit, DepositId, FeeStructure, Invoice, PendingInvoice};

verus! {

/// Deposit information for API responses.
///
/// Spendable funds are always `balance - locked_balance`: the locked
/// balance is part of the balance, not an additional quantity.
#[derive(Clone, Debug)]
pub struct DepositInfo {
    /// Deposit identifier (hex).
    pub deposit_id: String,
    /// Miniscript descriptor.
    pub descriptor: String,
    /// Total obligation owed on the deposit (millisatoshis).
    pub balance: u64,
    /// Part of `balance` earmarked for in-flight operations (millisatoshis).
    pub locked_balance: u64,
    /// Number of active invoices.
    pub invoice_count: usize,
    /// Fee structure.
    pub fees: FeeStructure,
}

impl DepositInfo {
    /// The summary of a deposit: its identifier in lowercase hex, its
    /// descriptor, balances, number of invoices and fees.
    pub fn from_deposit(d: &Deposit) -> (r: DepositInfo)
        ensures
            r.deposit_id@ == hex_lower(d.deposit_id@),
            r.descriptor@ == d.descriptor@,
            r.balance == d.balance,
            r.locked_balance == d.locked_balance,
            r.invoice_count == d.invoices@.len(),
            r.fees == d.fees,
    {
        DepositInfo {
            deposit_id: hex_encode(d.deposit_id.as_slice()),
            descriptor: d.descriptor.clone(),
            balance: d.balance,
            locked_balance: d.locked_balance,
            invoice_count: d.invoices.len(),
            fees: d.fees,
        }
    }
}

/// Request to join a ledger's quorum.
#[derive(Clone, Debug, PartialEq, Eq)]
pub struct QuorumJoinRequestMsg {
    /// Requester's public key.
    pub requester_pubkey: PublicKey,
    /// Operator of the ledger.
    pub operator_id: PublicKey,
    /// Reserves identifier.
    pub reserves_id: String,
    /// Protocol version.
    pub protocol_version: u16,
    /// Timestamp.
    pub timestamp: u64,
    /// Signature.
    pub signature: [u8; 64],
}

/// Response to a quorum join request.
#[derive(Clone, Debug, PartialEq, Eq)]
pub struct QuorumJoinResponseMsg {
    /// Whether the request was accepted.
    pub accepted: bool,
    /// Current quorum members.
    pub members: Vec<PublicKey>,
    /// Voting threshold.
    pub threshold: u16,
    /// Last sequence number.
    pub last_sequence: u64,
    /// Current state hash.
    pub content_hash: [u8; 32],
    /// Rejection reason, if rejected.
    pub rejection_reason: Option<String>,
}

/// A vote in a quorum voting round.
#[derive(Clone, Debug, PartialEq, Eq)]
pub struct QuorumVoteMsg {
    /// Vote round ID.
    pub vote_round_id: [u8; 32],
    /// Voter's public key.
    pub voter_pubkey: PublicKey,
    /// Vote value (true = conforming, false = non-conforming).
    pub vote: bool,
    /// Voter's sequence number.
    pub voter_sequence: u64,
    /// Voter's state hash.
    pub voter_state_hash: [u8; 32],
    /// Evidence, for non-conforming votes.
    pub evidence: Option<Vec<u8>>,
    /// Signature over the vote.
    pub signature: [u8; 64],
    /// Optional spend signature for recovery.
    pub spend_signature: Option<[u8; 64]>,
}

/// Invoice information for API responses.
#[derive(Clone, Debug, PartialEq, Eq)]
pub struct InvoiceInfo {
    /// Invoice ID.
    pub id: String,
    /// Amount in satoshis.
    pub amount: u64,
    /// Expiration time (Unix timestamp).
    pub expires: u64,
    /// Payment hash.
    pub payment_hash: [u8; 32],
}

/// Current reserves status.
#[derive(Clone, Debug, PartialEq, Eq)]
pub struct ReservesStatus {
    /// Current reserves amount.
    pub current_amount: u64,
    /// Required reserves amount (all deposits plus the largest invoice).
    pub required_amount: u64,
    /// Excess reserves that can be removed.
    pub excess_amount: u64,
    /// Total of all deposit balances.
    pub total_deposit_balances: u64,
    /// Largest outstanding invoice amount.
    pub max_outstanding_invoice: u64,
    /// Number of deposits.
    pub deposit_count: usize,
    /// Total locked balances.
    pub total_locked_balances: u64,
}

/// Result of a ledger audit.
#[derive(Clone, Debug, PartialEq, Eq)]
pub struct AuditResult {
    /// Detected violations.
    pub violations: Vec<Violation>,
    /// Cross-ledger inconsistencies.
    pub cross_ledger_violations: Vec<CrossLedgerViolation>,
    /// Overall compliance score (0-100).
    pub compliance_score: u8,
    /// Audit timestamp (Unix timestamp).
    pub audit_timestamp: u64,
}

/// Kinds of protocol violations.
#[derive(Clone, Debug, PartialEq, Eq)]
pub enum Violation {
    /// Insufficient reserves for an operation.
    InsufficientReserves { required: u64, actual: u64, timestamp: u64 },
    /// An operation without proper signatures.
    UnauthorizedOperation { operation_type: String, timestamp: u64 },
    /// A payment received but not credited to its deposit.
    PaymentNotCredited { payment_hash: [u8; 32], amount: u64, timestamp: u64 },
    /// An invalid reserves calculation.
    InvalidReserveCalculation { expected: u64, actual: u64, timestamp: u64 },
    /// An invalid fee assessment.
    InvalidFeeAssessment { deposit_id: DepositId, timestamp: u64 },
}

/// Violations spanning ledgers.
#[derive(Clone, Debug, PartialEq, Eq)]
pub enum CrossLedgerViolation {
    /// Inconsistent operator behavior across two ledgers.
    InconsistentBehavior { ledger1: [u8; 32], ledger2: [u8; 32], discrepancy: String },
    /// Reserves manipulation across ledgers.
    ReserveManipulation { affected_ledgers: Vec<[u8; 32]>, details: String },
}

/// Updates that can be applied to ledger state.
#[derive(Clone, Debug, PartialEq, Eq)]
pub enum LedgerStateUpdate {
    /// Add a new deposit.
    AddDeposit(Deposit),
    /// Remove a deposit.
    RemoveDeposit(PublicKey),
    /// Update a deposit's balance.
    UpdateDepositBalance { pubkey: PublicKey, new_balance: u64 },
    /// Update the reserves amount.
    UpdateReserves(u64),
    /// Set the pending invoice.
    SetPendingInvoice(Option<PendingInvoice>),
    /// Lock deposit balance for a payment.
    LockDepositBalance { pubkey: PublicKey, amount: u64 },
    /// Unlock deposit balance (payment failed).
    UnlockDepositBalance { pubkey: PublicKey, amount: u64 },
    /// Add an invoice to a deposit.
    AddInvoiceToDeposit { pubkey: PublicKey, invoice: Invoice },
    /// Remove an invoice from a deposit.
    RemoveInvoiceFromDeposit { pubkey: PublicKey, invoice_id: String },
}

/// Extra output added to commitment transactions (for reserves).
#[derive(Clone, Debug, PartialEq, Eq)]
pub struct CommitmentExtraOutput {
    /// Amount in satoshis.
    pub amount_satoshis: u64,
    /// Locking script of the output.
    pub script_pubkey: Vec<u8>,
}

} // verus!
