//! Errors of the protocol's operations.

use vstd::prelude::*;

use crate::pubkey::PublicKey;
use crate::crypto::{hex_encode, hex_lower};
use crate::text::{concat_text, decimal, decimal_digits};

verus! {

/// Errors of the protocol's message handlers.
#[derive(Debug, Clone)]
pub enum HandlerError {
    /// Validation failed.
    ValidationFailed(String),
    /// No ledger for this operator and reserves.
    LedgerNotFound { operator: PublicKey, reserves_id: String },
    /// The state does not allow the operation.
    InvalidState(String),
    /// An internal error.
    Internal(String),
}

/// The text of a handler error; a key is shown as the lowercase hex of its
/// compressed encoding.
pub open spec fn handler_error_text(e: HandlerError) -> Seq<char> {
    match e {
        HandlerError::ValidationFailed(m) => "validation failed: "@ + m@,
        HandlerError::LedgerNotFound { operator, reserves_id } => "ledger not found: operator="@
            + hex_lower(operator@) + ", reserves_id="@ + reserves_id@,
        HandlerError::InvalidState(m) => "invalid state: "@ + m@,
        HandlerError::Internal(m) => "internal error: "@ + m@,
    }
}

impl HandlerError {
    /// The text of this error.
    pub fn message(&self) -> (r: String)
        ensures
            r@ == handler_error_text(*self),
    {
        match self {
            HandlerError::ValidationFailed(m) => concat_text("validation failed: ", m.as_str()),
            HandlerError::LedgerNotFound { operator, reserves_id } => {
                let mut r = "ledger not found: operator=".to_owned();
                let k = operator.serialize();
                r.append(hex_encode(k.as_slice()).as_str());
                r.append(", reserves_id=");
                r.append(reserves_id.as_str());
                r
            },
            HandlerError::InvalidState(m) => concat_text("invalid state: ", m.as_str()),
            HandlerError::Internal(m) => concat_text("internal error: ", m.as_str()),
        }
    }
}

/// Errors that can occur in the deposits protocol.
#[derive(Debug, Clone, PartialEq, Eq)]
pub enum DepositsError {
    /// Reserves do not cover the deposits.
    InsufficientReserves { required: u64, available: u64 },
    /// A reserves output was not found.
    ReservesOutputNotFound(String),
    /// An invalid reserves decrease.
    InvalidReservesDecrease(String),
    /// An invalid reserve amount.
    InvalidReserveAmount,
    /// The deposit has a non-zero balance.
    NonZeroBalance { balance: u64 },
    /// The deposit has outstanding invoices.
    OutstandingInvoices { count: usize },
    /// The deposit's available balance does not cover the operation.
    InsufficientDepositBalance { available: u64, required: u64 },
    /// No such deposit.
    DepositNotFound,
    /// The deposit already exists.
    DepositAlreadyExists,
    /// Insufficient balance.
    InsufficientBalance,
    /// Unknown payment.
    UnknownPayment,
    /// The payment amount does not match.
    PaymentAmountMismatch,
    /// The payment is not locked.
    PaymentNotLocked,
    /// The ledger already exists.
    LedgerAlreadyExists,
    /// No such ledger.
    LedgerNotFound,
    /// The ledger is not initialized.
    LedgerNotInitialized,
    /// Ledger identifiers differ.
    LedgerIdMismatch,
    /// A handshake is in progress.
    HandshakeInProgress,
    /// No active handshake.
    NoActiveHandshake,
    /// The handshake was rejected.
    HandshakeRejected,
    /// No such partner.
    PartnerNotFound,
    /// An invalid partner.
    InvalidPartner,
    /// The quorum member already exists.
    QuorumMemberAlreadyExists,
    /// Collateral does not cover the requirement.
    InsufficientCollateral { required: u64, available: u64, missing_attestations: Vec<PublicKey> },
    /// Too few quorum members.
    InsufficientQuorumMembers { operator_ledgers: usize, partner_ledgers: usize },
    /// An invalid channel state.
    InvalidChannelState,
    /// An invalid secret key.
    InvalidSecretKey,
    /// An invalid public key.
    InvalidPublicKey,
    /// An invalid signature.
    InvalidSignature,
    /// An invalid message.
    InvalidMessage { reason: String },
    /// A protocol violation.
    ProtocolViolation { violation_type: String, details: String },
    /// Persisting failed.
    PersistenceFailed { reason: String },
    /// The audit queue is full.
    AuditQueueFull,
    /// Serialization failed.
    SerializationError,
    /// Fee assessment failed.
    FeeAssessmentFailed { reason: String },
    /// An audit failed.
    AuditFailed { reason: String },
    /// Cosigning failed.
    CosigningFailed { reason: String },
    /// An invalid address.
    InvalidAddress(String),
    /// An invalid amount.
    InvalidAmount(String),
    /// An invalid timeout.
    InvalidTimeout(String),
    /// No such proposal.
    ProposalNotFound(String),
    /// An invalid state.
    InvalidState(String),
    /// Insufficient funds.
    InsufficientFunds(String),
    /// A codec error.
    CodecError(String),
    /// Hashes differ.
    HashMismatch { expected: String, actual: String },
    /// Sequence numbers differ.
    SequenceMismatch { expected: u64, actual: u64 },
    /// Broadcasting failed.
    BroadcastFailed(String),
    /// The recovery quorum cannot be reached.
    RecoveryQuorumUnreachable { n_quorum: usize, n_disputants: usize, t_emergency: usize },
    /// The lottery is not economical.
    LotteryNotEconomical { disputed_value: u64, min_required: u64 },
    /// The bond is below the required ratio.
    InsufficientBondRatio { n: usize, actual: u64, required: u64, numerator: u64, denominator: u64 },
}

/// Result of deposits operations.
pub type DepositsResult<T> = Result<T, DepositsError>;

/// The text of an error.
pub open spec fn deposits_error_text(e: DepositsError) -> Seq<char> {
    match e {
        DepositsError::InsufficientReserves { required, available } => "Insufficient reserves: required "@ + decimal_digits(required as nat) + ", available "@ + decimal_digits(available as nat),
        DepositsError::ReservesOutputNotFound(a) => "Reserves output not found: "@ + a@,
        DepositsError::InvalidReservesDecrease(a) => "Invalid reserves decrease: "@ + a@,
        DepositsError::InvalidReserveAmount => "Invalid reserve amount"@,
        DepositsError::NonZeroBalance { balance } => "Deposit has non-zero balance: "@ + decimal_digits(balance as nat),
        DepositsError::OutstandingInvoices { count } => "Deposit has "@ + decimal_digits(count as nat) + " outstanding invoices"@,
        DepositsError::InsufficientDepositBalance { available, required } => "Insufficient deposit balance: available "@ + decimal_digits(available as nat) + ", required "@ + decimal_digits(required as nat),
        DepositsError::DepositNotFound => "Deposit not found"@,
        DepositsError::DepositAlreadyExists => "Deposit already exists"@,
        DepositsError::InsufficientBalance => "Insufficient balance"@,
        DepositsError::UnknownPayment => "Unknown payment"@,
        DepositsError::PaymentAmountMismatch => "Payment amount mismatch"@,
        DepositsError::PaymentNotLocked => "Payment not locked"@,
        DepositsError::LedgerAlreadyExists => "Ledger already exists"@,
        DepositsError::LedgerNotFound => "Ledger not found"@,
        DepositsError::LedgerNotInitialized => "Ledger not initialized"@,
        DepositsError::LedgerIdMismatch => "Ledger ID mismatch"@,
        DepositsError::HandshakeInProgress => "Handshake in progress"@,
        DepositsError::NoActiveHandshake => "No active handshake"@,
        DepositsError::HandshakeRejected => "Handshake rejected"@,
        DepositsError::PartnerNotFound => "Partner not found"@,
        DepositsError::InvalidPartner => "Invalid partner"@,
        DepositsError::QuorumMemberAlreadyExists => "Quorum member already exists"@,
        DepositsError::InsufficientCollateral { required, available, .. } => "Insufficient collateral: required "@ + decimal_digits(required as nat) + ", available "@ + decimal_digits(available as nat),
        DepositsError::InsufficientQuorumMembers { operator_ledgers, partner_ledgers } => "Insufficient quorum members: operator ledgers "@ + decimal_digits(operator_ledgers as nat) + ", partner ledgers "@ + decimal_digits(partner_ledgers as nat),
        DepositsError::InvalidChannelState => "Invalid channel state"@,
        DepositsError::InvalidSecretKey => "Invalid secret key"@,
        DepositsError::InvalidPublicKey => "Invalid public key"@,
        DepositsError::InvalidSignature => "Invalid signature"@,
        DepositsError::InvalidMessage { reason } => "Invalid message: "@ + reason@,
        DepositsError::ProtocolViolation { violation_type, details } => "Protocol violation: "@ + violation_type@ + " - "@ + details@,
        DepositsError::PersistenceFailed { reason } => "Persistence failed: "@ + reason@,
        DepositsError::AuditQueueFull => "Audit queue full"@,
        DepositsError::SerializationError => "Serialization error"@,
        DepositsError::FeeAssessmentFailed { reason } => "Fee assessment failed: "@ + reason@,
        DepositsError::AuditFailed { reason } => "Audit failed: "@ + reason@,
        DepositsError::CosigningFailed { reason } => "Cosigning failed: "@ + reason@,
        DepositsError::InvalidAddress(a) => "Invalid address: "@ + a@,
        DepositsError::InvalidAmount(a) => "Invalid amount: "@ + a@,
        DepositsError::InvalidTimeout(a) => "Invalid timeout: "@ + a@,
        DepositsError::ProposalNotFound(a) => "Proposal not found: "@ + a@,
        DepositsError::InvalidState(a) => "Invalid state: "@ + a@,
        DepositsError::InsufficientFunds(a) => "Insufficient funds: "@ + a@,
        DepositsError::CodecError(a) => "Codec error: "@ + a@,
        DepositsError::HashMismatch { expected, actual } => "Hash mismatch: expected "@ + expected@ + ", got "@ + actual@,
        DepositsError::SequenceMismatch { expected, actual } => "Sequence mismatch: expected "@ + decimal_digits(expected as nat) + ", got "@ + decimal_digits(actual as nat),
        DepositsError::BroadcastFailed(a) => "Broadcast failed: "@ + a@,
        DepositsError::RecoveryQuorumUnreachable { n_quorum, n_disputants, t_emergency } => "Recovery quorum unreachable: "@ + decimal_digits(n_quorum as nat) + " quorum members, "@ + decimal_digits(n_disputants as nat) + " disputants, need at least "@ + decimal_digits(t_emergency as nat) + " non-disputing signers"@,
        DepositsError::LotteryNotEconomical { disputed_value, min_required } => "Lottery not economically rational: disputed value "@ + decimal_digits(disputed_value as nat) + " sats < "@ + decimal_digits(min_required as nat) + " sats (5x estimated claim fee)"@,
        DepositsError::InsufficientBondRatio { n, actual, required, numerator, denominator } => "Insufficient bond at N="@ + decimal_digits(n as nat) + ": bond "@ + decimal_digits(actual as nat) + " sats < required "@ + decimal_digits(required as nat) + " sats ("@ + decimal_digits(numerator as nat) + "/"@ + decimal_digits(denominator as nat) + " of disputed value)"@,
    }
}

impl DepositsError {
    /// The text of this error.
    pub fn message(&self) -> (r: String)
        ensures
            r@ == deposits_error_text(*self),
    {
        match self {
            DepositsError::InsufficientReserves { required, available } => { let mut r = "Insufficient reserves: required ".to_owned(); r.append(decimal(*required as u64).as_str()); r.append(", available "); r.append(decimal(*available as u64).as_str()); r },
            DepositsError::ReservesOutputNotFound(a) => { let mut r = "Reserves output not found: ".to_owned(); r.append(a.as_str()); r },
            DepositsError::InvalidReservesDecrease(a) => { let mut r = "Invalid reserves decrease: ".to_owned(); r.append(a.as_str()); r },
            DepositsError::InvalidReserveAmount => { let mut r = "Invalid reserve amount".to_owned(); r },
            DepositsError::NonZeroBalance { balance } => { let mut r = "Deposit has non-zero balance: ".to_owned(); r.append(decimal(*balance as u64).as_str()); r },
            DepositsError::OutstandingInvoices { count } => { let mut r = "Deposit has ".to_owned(); r.append(decimal(*count as u64).as_str()); r.append(" outstanding invoices"); r },
            DepositsError::InsufficientDepositBalance { available, required } => { let mut r = "Insufficient deposit balance: available ".to_owned(); r.append(decimal(*available as u64).as_str()); r.append(", required "); r.append(decimal(*required as u64).as_str()); r },
            DepositsError::DepositNotFound => { let mut r = "Deposit not found".to_owned(); r },
            DepositsError::DepositAlreadyExists => { let mut r = "Deposit already exists".to_owned(); r },
            DepositsError::InsufficientBalance => { let mut r = "Insufficient balance".to_owned(); r },
            DepositsError::UnknownPayment => { let mut r = "Unknown payment".to_owned(); r },
            DepositsError::PaymentAmountMismatch => { let mut r = "Payment amount mismatch".to_owned(); r },
            DepositsError::PaymentNotLocked => { let mut r = "Payment not locked".to_owned(); r },
            DepositsError::LedgerAlreadyExists => { let mut r = "Ledger already exists".to_owned(); r },
            DepositsError::LedgerNotFound => { let mut r = "Ledger not found".to_owned(); r },
            DepositsError::LedgerNotInitialized => { let mut r = "Ledger not initialized".to_owned(); r },
            DepositsError::LedgerIdMismatch => { let mut r = "Ledger ID mismatch".to_owned(); r },
            DepositsError::HandshakeInProgress => { let mut r = "Handshake in progress".to_owned(); r },
            DepositsError::NoActiveHandshake => { let mut r = "No active handshake".to_owned(); r },
            DepositsError::HandshakeRejected => { let mut r = "Handshake rejected".to_owned(); r },
            DepositsError::PartnerNotFound => { let mut r = "Partner not found".to_owned(); r },
            DepositsError::InvalidPartner => { let mut r = "Invalid partner".to_owned(); r },
            DepositsError::QuorumMemberAlreadyExists => { let mut r = "Quorum member already exists".to_owned(); r },
            DepositsError::InsufficientCollateral { required, available, .. } => { let mut r = "Insufficient collateral: required ".to_owned(); r.append(decimal(*required as u64).as_str()); r.append(", available "); r.append(decimal(*available as u64).as_str()); r },
            DepositsError::InsufficientQuorumMembers { operator_ledgers, partner_ledgers } => { let mut r = "Insufficient quorum members: operator ledgers ".to_owned(); r.append(decimal(*operator_ledgers as u64).as_str()); r.append(", partner ledgers "); r.append(decimal(*partner_ledgers as u64).as_str()); r },
            DepositsError::InvalidChannelState => { let mut r = "Invalid channel state".to_owned(); r },
            DepositsError::InvalidSecretKey => { let mut r = "Invalid secret key".to_owned(); r },
            DepositsError::InvalidPublicKey => { let mut r = "Invalid public key".to_owned(); r },
            DepositsError::InvalidSignature => { let mut r = "Invalid signature".to_owned(); r },
            DepositsError::InvalidMessage { reason } => { let mut r = "Invalid message: ".to_owned(); r.append(reason.as_str()); r },
            DepositsError::ProtocolViolation { violation_type, details } => { let mut r = "Protocol violation: ".to_owned(); r.append(violation_type.as_str()); r.append(" - "); r.append(details.as_str()); r },
            DepositsError::PersistenceFailed { reason } => { let mut r = "Persistence failed: ".to_owned(); r.append(reason.as_str()); r },
            DepositsError::AuditQueueFull => { let mut r = "Audit queue full".to_owned(); r },
            DepositsError::SerializationError => { let mut r = "Serialization error".to_owned(); r },
            DepositsError::FeeAssessmentFailed { reason } => { let mut r = "Fee assessment failed: ".to_owned(); r.append(reason.as_str()); r },
            DepositsError::AuditFailed { reason } => { let mut r = "Audit failed: ".to_owned(); r.append(reason.as_str()); r },
            DepositsError::CosigningFailed { reason } => { let mut r = "Cosigning failed: ".to_owned(); r.append(reason.as_str()); r },
            DepositsError::InvalidAddress(a) => { let mut r = "Invalid address: ".to_owned(); r.append(a.as_str()); r },
            DepositsError::InvalidAmount(a) => { let mut r = "Invalid amount: ".to_owned(); r.append(a.as_str()); r },
            DepositsError::InvalidTimeout(a) => { let mut r = "Invalid timeout: ".to_owned(); r.append(a.as_str()); r },
            DepositsError::ProposalNotFound(a) => { let mut r = "Proposal not found: ".to_owned(); r.append(a.as_str()); r },
            DepositsError::InvalidState(a) => { let mut r = "Invalid state: ".to_owned(); r.append(a.as_str()); r },
            DepositsError::InsufficientFunds(a) => { let mut r = "Insufficient funds: ".to_owned(); r.append(a.as_str()); r },
            DepositsError::CodecError(a) => { let mut r = "Codec error: ".to_owned(); r.append(a.as_str()); r },
            DepositsError::HashMismatch { expected, actual } => { let mut r = "Hash mismatch: expected ".to_owned(); r.append(expected.as_str()); r.append(", got "); r.append(actual.as_str()); r },
            DepositsError::SequenceMismatch { expected, actual } => { let mut r = "Sequence mismatch: expected ".to_owned(); r.append(decimal(*expected as u64).as_str()); r.append(", got "); r.append(decimal(*actual as u64).as_str()); r },
            DepositsError::BroadcastFailed(a) => { let mut r = "Broadcast failed: ".to_owned(); r.append(a.as_str()); r },
            DepositsError::RecoveryQuorumUnreachable { n_quorum, n_disputants, t_emergency } => { let mut r = "Recovery quorum unreachable: ".to_owned(); r.append(decimal(*n_quorum as u64).as_str()); r.append(" quorum members, "); r.append(decimal(*n_disputants as u64).as_str()); r.append(" disputants, need at least "); r.append(decimal(*t_emergency as u64).as_str()); r.append(" non-disputing signers"); r },
            DepositsError::LotteryNotEconomical { disputed_value, min_required } => { let mut r = "Lottery not economically rational: disputed value ".to_owned(); r.append(decimal(*disputed_value as u64).as_str()); r.append(" sats < "); r.append(decimal(*min_required as u64).as_str()); r.append(" sats (5x estimated claim fee)"); r },
            DepositsError::InsufficientBondRatio { n, actual, required, numerator, denominator } => { let mut r = "Insufficient bond at N=".to_owned(); r.append(decimal(*n as u64).as_str()); r.append(": bond "); r.append(decimal(*actual as u64).as_str()); r.append(" sats < required "); r.append(decimal(*required as u64).as_str()); r.append(" sats ("); r.append(decimal(*numerator as u64).as_str()); r.append("/"); r.append(decimal(*denominator as u64).as_str()); r.append(" of disputed value)"); r },
        }
    }
}

} // verus!
