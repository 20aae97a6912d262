//! Protocol message type numbers, their categories, and how each one
//! synchronizes the consensus hash.
//!
//! Every message type is odd, so that a peer may ignore types it does not
//! understand.

use vstd::prelude::*;

verus! {

// ============================================================================
// Protocol version
// ============================================================================

/// Current protocol version (consolidated messages).
pub const PROTOCOL_VERSION: u16 = 2;

/// Minimum supported protocol version.
pub const MIN_PROTOCOL_VERSION: u16 = 1;

// ============================================================================
// Message types
// ============================================================================

pub const LEDGER_UPDATE: u16 = 0x8001;
pub const LEDGER_UPDATE_RESPONSE: u16 = 0x8003;
pub const HANDSHAKE: u16 = 0x8005;
pub const HANDSHAKE_RESPONSE: u16 = 0x8007;
pub const SYNC: u16 = 0x8009;
pub const SYNC_RESPONSE: u16 = 0x800B;
pub const COORDINATION: u16 = 0x8011;
pub const COORDINATION_RESPONSE: u16 = 0x8013;

pub const RESERVES_ADD_OUTPUT: u16 = 0x80C1;
pub const RESERVES_REMOVE_OUTPUT: u16 = 0x80C3;
pub const QUORUM_BEGIN: u16 = 0x80B5;
pub const RESERVES_UPDATE_OUTPUT: u16 = 0x80C9;
pub const UPDATE_RESERVES: u16 = 0x80E1;
pub const ACCEPT_RESERVES: u16 = 0x80E3;
pub const COLLATERAL_INCREASE: u16 = 0x80CB;
pub const COLLATERAL_DECREASE: u16 = 0x80CD;
pub const COLLATERAL_STATUS: u16 = 0x80CF;
pub const QUORUM_ADD_MEMBER: u16 = 0x8097;
pub const QUORUM_REMOVE_MEMBER: u16 = 0x8099;
pub const COLLATERAL_CONSENT_REQUEST: u16 = 0x809B;
pub const COLLATERAL_CONSENT_RESPONSE: u16 = 0x809D;
pub const QUORUM_JOIN: u16 = 0x80AB;
pub const DEPOSIT_OPEN: u16 = 0x80D1;
pub const DEPOSIT_CLOSE: u16 = 0x80D3;
pub const FEE_CHANGE: u16 = 0x80D5;
pub const DEPOSIT_KEY_ROTATE: u16 = 0x80D7;
pub const ONCHAIN_CREDIT: u16 = 0x80E1;
pub const ONCHAIN_LOCK: u16 = 0x80E3;
pub const ONCHAIN_FAIL: u16 = 0x80E5;
pub const ONCHAIN_FULFILL: u16 = 0x80E7;
pub const TRANSFER_LOCK: u16 = 0x80F1;
pub const TRANSFER_COMPLETE: u16 = 0x80F3;
pub const TRANSFER_FAIL: u16 = 0x80F5;
pub const LEDGER_CLOSE: u16 = 0x801D;
pub const MAINTENANCE_FEE_COLLECT: u16 = 0x8021;
pub const RECEIVING_COSIGN_INVOICE: u16 = 0x8031;
pub const RECEIVING_CREDIT_PAYMENT: u16 = 0x8033;
pub const UNCREDITED_PAYMENT: u16 = 0x8035;
pub const SENDING_LOCK_PAYMENT: u16 = 0x8041;
pub const SENDING_FAIL_PAYMENT: u16 = 0x8043;
pub const SENDING_FULFILL_PAYMENT: u16 = 0x8045;
pub const SIGNED_UPDATE: u16 = 0x8057;
pub const SYNC_REQUEST: u16 = 0x8059;
pub const LEDGER_EXPORT_REQUEST: u16 = 0x805B;
pub const LEDGER_EXPORT_RESPONSE: u16 = 0x805D;
pub const LEDGER_OPEN_REQUEST: u16 = 0x8061;
pub const LEDGER_OPEN_RESPONSE: u16 = 0x8063;
pub const ACK: u16 = 0x8071;
pub const QUORUM_JOIN_REQUEST: u16 = 0x8081;
pub const QUORUM_JOIN_RESPONSE: u16 = 0x8083;
pub const QUORUM_STATE_SYNC: u16 = 0x8085;
pub const QUORUM_VOTE_REQUEST: u16 = 0x8087;
pub const QUORUM_VOTE: u16 = 0x8089;
pub const QUORUM_MEMBERSHIP_CHANGE: u16 = 0x808B;
pub const RECOVERY_VOTE: u16 = 0x808F;
pub const RECOVERY_CLAIM_REQUEST: u16 = 0x8091;
pub const RECOVERY_CLAIM_SIGNATURE: u16 = 0x8093;
pub const RECOVERY_CLAIM_COMPLETE: u16 = 0x8095;

// ============================================================================
// Message type collections
// ============================================================================

/// The envelope (outer wire) message types.
pub open spec fn envelope_message_types() -> Set<u16> {
    set![
        LEDGER_UPDATE,
        LEDGER_UPDATE_RESPONSE,
        HANDSHAKE,
        HANDSHAKE_RESPONSE,
        SYNC,
        SYNC_RESPONSE,
        COORDINATION,
        COORDINATION_RESPONSE,
    ]
}

/// The operation message types stored in signed ledger updates.
pub open spec fn operation_message_types() -> Set<u16> {
    set![
        RESERVES_ADD_OUTPUT,
        RESERVES_REMOVE_OUTPUT,
        RESERVES_UPDATE_OUTPUT,
        UPDATE_RESERVES,
        ACCEPT_RESERVES,
        COLLATERAL_INCREASE,
        COLLATERAL_DECREASE,
        COLLATERAL_STATUS,
        QUORUM_ADD_MEMBER,
        QUORUM_REMOVE_MEMBER,
        COLLATERAL_CONSENT_REQUEST,
        COLLATERAL_CONSENT_RESPONSE,
        DEPOSIT_OPEN,
        DEPOSIT_CLOSE,
        FEE_CHANGE,
        ONCHAIN_CREDIT,
        ONCHAIN_LOCK,
        ONCHAIN_FAIL,
        ONCHAIN_FULFILL,
        LEDGER_CLOSE,
        MAINTENANCE_FEE_COLLECT,
        RECEIVING_COSIGN_INVOICE,
        RECEIVING_CREDIT_PAYMENT,
        UNCREDITED_PAYMENT,
        SENDING_LOCK_PAYMENT,
        SENDING_FAIL_PAYMENT,
        SENDING_FULFILL_PAYMENT,
        SIGNED_UPDATE,
        SYNC_REQUEST,
        LEDGER_EXPORT_REQUEST,
        LEDGER_EXPORT_RESPONSE,
        LEDGER_OPEN_REQUEST,
        LEDGER_OPEN_RESPONSE,
        ACK,
        QUORUM_JOIN_REQUEST,
        QUORUM_JOIN_RESPONSE,
        QUORUM_STATE_SYNC,
        QUORUM_VOTE_REQUEST,
        QUORUM_VOTE,
        QUORUM_MEMBERSHIP_CHANGE,
        RECOVERY_VOTE,
        RECOVERY_CLAIM_REQUEST,
        RECOVERY_CLAIM_SIGNATURE,
        RECOVERY_CLAIM_COMPLETE,
        QUORUM_BEGIN,
        QUORUM_JOIN,
        DEPOSIT_KEY_ROTATE,
        TRANSFER_LOCK,
        TRANSFER_COMPLETE,
        TRANSFER_FAIL,
    ]
}

/// The message types that require acknowledgment.
pub open spec fn messages_requiring_ack() -> Set<u16> {
    set![
        RESERVES_ADD_OUTPUT,
        RESERVES_REMOVE_OUTPUT,
        RESERVES_UPDATE_OUTPUT,
        DEPOSIT_OPEN,
        DEPOSIT_CLOSE,
        FEE_CHANGE,
        ONCHAIN_CREDIT,
        ONCHAIN_LOCK,
        ONCHAIN_FAIL,
        ONCHAIN_FULFILL,
        RECEIVING_CREDIT_PAYMENT,
        RECEIVING_COSIGN_INVOICE,
        SENDING_LOCK_PAYMENT,
        SENDING_FAIL_PAYMENT,
        SENDING_FULFILL_PAYMENT,
        COLLATERAL_INCREASE,
        COLLATERAL_DECREASE,
        QUORUM_ADD_MEMBER,
        QUORUM_REMOVE_MEMBER,
        COLLATERAL_CONSENT_REQUEST,
        COLLATERAL_CONSENT_RESPONSE,
        MAINTENANCE_FEE_COLLECT,
        LEDGER_CLOSE,
        LEDGER_OPEN_REQUEST,
        LEDGER_UPDATE,
        HANDSHAKE,
    ]
}

/// Whether `message_type` is a Bitcoin Deposits protocol message.
pub fn is_deposits_message_type(message_type: u16) -> (r: bool)
    ensures
        r == (envelope_message_types().contains(message_type)
            || operation_message_types().contains(message_type)),
{
    match message_type {
        LEDGER_UPDATE | LEDGER_UPDATE_RESPONSE | HANDSHAKE | HANDSHAKE_RESPONSE | SYNC
        | SYNC_RESPONSE | COORDINATION | COORDINATION_RESPONSE => true,
        RESERVES_ADD_OUTPUT | RESERVES_REMOVE_OUTPUT | RESERVES_UPDATE_OUTPUT | UPDATE_RESERVES
        | ACCEPT_RESERVES | COLLATERAL_INCREASE | COLLATERAL_DECREASE | COLLATERAL_STATUS
        | QUORUM_ADD_MEMBER | QUORUM_REMOVE_MEMBER | COLLATERAL_CONSENT_REQUEST
        | COLLATERAL_CONSENT_RESPONSE | DEPOSIT_OPEN | DEPOSIT_CLOSE | FEE_CHANGE
        | ONCHAIN_FAIL | ONCHAIN_FULFILL | LEDGER_CLOSE | MAINTENANCE_FEE_COLLECT
        | RECEIVING_COSIGN_INVOICE | RECEIVING_CREDIT_PAYMENT | UNCREDITED_PAYMENT
        | SENDING_LOCK_PAYMENT | SENDING_FAIL_PAYMENT | SENDING_FULFILL_PAYMENT | SIGNED_UPDATE
        | SYNC_REQUEST | LEDGER_EXPORT_REQUEST | LEDGER_EXPORT_RESPONSE | LEDGER_OPEN_REQUEST
        | LEDGER_OPEN_RESPONSE | ACK | QUORUM_JOIN_REQUEST | QUORUM_JOIN_RESPONSE
        | QUORUM_STATE_SYNC | QUORUM_VOTE_REQUEST | QUORUM_VOTE | QUORUM_MEMBERSHIP_CHANGE
        | RECOVERY_VOTE | RECOVERY_CLAIM_REQUEST | RECOVERY_CLAIM_SIGNATURE
        | RECOVERY_CLAIM_COMPLETE | QUORUM_BEGIN | QUORUM_JOIN | DEPOSIT_KEY_ROTATE
        | TRANSFER_LOCK | TRANSFER_COMPLETE | TRANSFER_FAIL => true,
        _ => false,
    }
}

/// Whether `message_type` requires acknowledgment.
pub fn requires_acknowledgment(message_type: u16) -> (r: bool)
    ensures
        r == messages_requiring_ack().contains(message_type),
{
    match message_type {
        RESERVES_ADD_OUTPUT | RESERVES_REMOVE_OUTPUT | RESERVES_UPDATE_OUTPUT | DEPOSIT_OPEN
        | DEPOSIT_CLOSE | FEE_CHANGE | ONCHAIN_CREDIT | ONCHAIN_LOCK | ONCHAIN_FAIL
        | ONCHAIN_FULFILL | RECEIVING_CREDIT_PAYMENT | RECEIVING_COSIGN_INVOICE
        | SENDING_LOCK_PAYMENT | SENDING_FAIL_PAYMENT | SENDING_FULFILL_PAYMENT
        | COLLATERAL_INCREASE | COLLATERAL_DECREASE | QUORUM_ADD_MEMBER | QUORUM_REMOVE_MEMBER
        | COLLATERAL_CONSENT_REQUEST | COLLATERAL_CONSENT_RESPONSE | MAINTENANCE_FEE_COLLECT
        | LEDGER_CLOSE | LEDGER_OPEN_REQUEST | LEDGER_UPDATE | HANDSHAKE => true,
        _ => false,
    }
}

/// The category of a message type, if it has one. Where a number belongs
/// to two groups, the first group listed wins.
pub open spec fn message_category(t: u16) -> Option<Seq<char>> {
    if set![RESERVES_ADD_OUTPUT, RESERVES_REMOVE_OUTPUT, RESERVES_UPDATE_OUTPUT].contains(t) {
        Some("reserves"@)
    } else if set![
        COLLATERAL_INCREASE,
        COLLATERAL_DECREASE,
        COLLATERAL_STATUS,
        QUORUM_ADD_MEMBER,
        QUORUM_REMOVE_MEMBER,
        COLLATERAL_CONSENT_REQUEST,
        COLLATERAL_CONSENT_RESPONSE,
    ].contains(t) {
        Some("collateral"@)
    } else if set![DEPOSIT_OPEN, DEPOSIT_CLOSE, FEE_CHANGE].contains(t) {
        Some("deposit"@)
    } else if set![ONCHAIN_CREDIT, ONCHAIN_LOCK, ONCHAIN_FAIL, ONCHAIN_FULFILL].contains(t) {
        Some("onchain"@)
    } else if t == LEDGER_CLOSE {
        Some("lifecycle"@)
    } else if t == MAINTENANCE_FEE_COLLECT {
        Some("maintenance"@)
    } else if set![RECEIVING_COSIGN_INVOICE, RECEIVING_CREDIT_PAYMENT, UNCREDITED_PAYMENT].contains(t) {
        Some("receiving"@)
    } else if set![SENDING_LOCK_PAYMENT, SENDING_FAIL_PAYMENT, SENDING_FULFILL_PAYMENT].contains(t) {
        Some("sending"@)
    } else if set![
        SIGNED_UPDATE,
        SYNC_REQUEST,
        LEDGER_OPEN_REQUEST,
        LEDGER_OPEN_RESPONSE,
        ACK,
        LEDGER_EXPORT_REQUEST,
        LEDGER_EXPORT_RESPONSE,
    ].contains(t) {
        Some("control"@)
    } else if set![
        QUORUM_JOIN_REQUEST,
        QUORUM_JOIN_RESPONSE,
        QUORUM_STATE_SYNC,
        QUORUM_VOTE_REQUEST,
        QUORUM_VOTE,
        QUORUM_MEMBERSHIP_CHANGE,
    ].contains(t) {
        Some("quorum"@)
    } else if set![
        RECOVERY_VOTE,
        RECOVERY_CLAIM_REQUEST,
        RECOVERY_CLAIM_SIGNATURE,
        RECOVERY_CLAIM_COMPLETE,
    ].contains(t) {
        Some("recovery"@)
    } else if t == LEDGER_UPDATE || t == LEDGER_UPDATE_RESPONSE {
        Some("ledger"@)
    } else if t == HANDSHAKE || t == HANDSHAKE_RESPONSE {
        Some("handshake"@)
    } else if t == SYNC || t == SYNC_RESPONSE {
        Some("sync"@)
    } else if t == COORDINATION || t == COORDINATION_RESPONSE {
        Some("coordination"@)
    } else {
        None
    }
}

/// The category of a message type, if it has one.
pub fn get_message_category(message_type: u16) -> (r: Option<&'static str>)
    ensures
        match message_category(message_type) {
            Some(c) => r is Some && r->0@ == c,
            None => r is None,
        },
{
    match message_type {
        RESERVES_ADD_OUTPUT | RESERVES_REMOVE_OUTPUT | RESERVES_UPDATE_OUTPUT => Some("reserves"),
        COLLATERAL_INCREASE | COLLATERAL_DECREASE | COLLATERAL_STATUS | QUORUM_ADD_MEMBER
        | QUORUM_REMOVE_MEMBER | COLLATERAL_CONSENT_REQUEST | COLLATERAL_CONSENT_RESPONSE => Some(
            "collateral",
        ),
        DEPOSIT_OPEN | DEPOSIT_CLOSE | FEE_CHANGE => Some("deposit"),
        ONCHAIN_CREDIT | ONCHAIN_LOCK | ONCHAIN_FAIL | ONCHAIN_FULFILL => Some("onchain"),
        LEDGER_CLOSE => Some("lifecycle"),
        MAINTENANCE_FEE_COLLECT => Some("maintenance"),
        RECEIVING_COSIGN_INVOICE | RECEIVING_CREDIT_PAYMENT | UNCREDITED_PAYMENT => Some(
            "receiving",
        ),
        SENDING_LOCK_PAYMENT | SENDING_FAIL_PAYMENT | SENDING_FULFILL_PAYMENT => Some("sending"),
        SIGNED_UPDATE | SYNC_REQUEST | LEDGER_OPEN_REQUEST | LEDGER_OPEN_RESPONSE | ACK
        | LEDGER_EXPORT_REQUEST | LEDGER_EXPORT_RESPONSE => Some("control"),
        QUORUM_JOIN_REQUEST | QUORUM_JOIN_RESPONSE | QUORUM_STATE_SYNC | QUORUM_VOTE_REQUEST
        | QUORUM_VOTE | QUORUM_MEMBERSHIP_CHANGE => Some("quorum"),
        RECOVERY_VOTE | RECOVERY_CLAIM_REQUEST | RECOVERY_CLAIM_SIGNATURE
        | RECOVERY_CLAIM_COMPLETE => Some("recovery"),
        LEDGER_UPDATE | LEDGER_UPDATE_RESPONSE => Some("ledger"),
        HANDSHAKE | HANDSHAKE_RESPONSE => Some("handshake"),
        SYNC | SYNC_RESPONSE => Some("sync"),
        COORDINATION | COORDINATION_RESPONSE => Some("coordination"),
        _ => None,
    }
}

/// The constant name of an envelope message type, or "UNKNOWN".
pub fn type_id_to_const_name(type_id: u16) -> (r: &'static str)
    ensures
        r@ == match type_id {
            LEDGER_UPDATE => "LEDGER_UPDATE"@,
            LEDGER_UPDATE_RESPONSE => "LEDGER_UPDATE_RESPONSE"@,
            HANDSHAKE => "HANDSHAKE"@,
            HANDSHAKE_RESPONSE => "HANDSHAKE_RESPONSE"@,
            SYNC => "SYNC"@,
            SYNC_RESPONSE => "SYNC_RESPONSE"@,
            COORDINATION => "COORDINATION"@,
            COORDINATION_RESPONSE => "COORDINATION_RESPONSE"@,
            _ => "UNKNOWN"@,
        },
{
    match type_id {
        LEDGER_UPDATE => "LEDGER_UPDATE",
        LEDGER_UPDATE_RESPONSE => "LEDGER_UPDATE_RESPONSE",
        HANDSHAKE => "HANDSHAKE",
        HANDSHAKE_RESPONSE => "HANDSHAKE_RESPONSE",
        SYNC => "SYNC",
        SYNC_RESPONSE => "SYNC_RESPONSE",
        COORDINATION => "COORDINATION",
        COORDINATION_RESPONSE => "COORDINATION_RESPONSE",
        _ => "UNKNOWN",
    }
}

/// The variant name of an envelope message type.
pub open spec fn variant_name_of(type_id: u16) -> Option<Seq<char>> {
    match type_id {
        LEDGER_UPDATE => Some("LedgerUpdate"@),
        LEDGER_UPDATE_RESPONSE => Some("LedgerUpdateResponse"@),
        HANDSHAKE => Some("Handshake"@),
        HANDSHAKE_RESPONSE => Some("HandshakeResponse"@),
        SYNC => Some("Sync"@),
        SYNC_RESPONSE => Some("SyncResponse"@),
        COORDINATION => Some("Coordination"@),
        COORDINATION_RESPONSE => Some("CoordinationResponse"@),
        _ => None,
    }
}

/// The variant name of an envelope message type, if it is one.
pub fn type_id_to_variant_name(type_id: u16) -> (r: Option<&'static str>)
    ensures
        match variant_name_of(type_id) {
            Some(n) => r is Some && r->0@ == n,
            None => r is None,
        },
{
    match type_id {
        LEDGER_UPDATE => Some("LedgerUpdate"),
        LEDGER_UPDATE_RESPONSE => Some("LedgerUpdateResponse"),
        HANDSHAKE => Some("Handshake"),
        HANDSHAKE_RESPONSE => Some("HandshakeResponse"),
        SYNC => Some("Sync"),
        SYNC_RESPONSE => Some("SyncResponse"),
        COORDINATION => Some("Coordination"),
        COORDINATION_RESPONSE => Some("CoordinationResponse"),
        _ => None,
    }
}

// ============================================================================
// Hash strategy
// ============================================================================

/// How the expected consensus hash is computed for a message type that may
/// require commitment synchronization.
#[derive(Clone, Copy, Debug, PartialEq, Eq, Structural)]
pub enum HashStrategy {
    /// The committed hash after the operation is applied.
    CurrentCommitted,
    /// The hash predicted to result from applying the operation.
    PredictedAfterOp,
    /// No synchronization; the hash catches up on the next sync.
    NoSync,
}

impl HashStrategy {
    /// Whether a message type needs a reserves update, and which hash
    /// strategy it uses.
    pub fn for_message_type(msg_type: u16) -> (r: (bool, HashStrategy))
        ensures
            r == (if msg_type == RESERVES_ADD_OUTPUT || msg_type == COLLATERAL_INCREASE {
                (true, HashStrategy::CurrentCommitted)
            } else if msg_type == RECEIVING_CREDIT_PAYMENT {
                (true, HashStrategy::PredictedAfterOp)
            } else {
                (false, HashStrategy::NoSync)
            }),
    {
        match msg_type {
            RESERVES_ADD_OUTPUT | COLLATERAL_INCREASE => (true, HashStrategy::CurrentCommitted),
            RECEIVING_CREDIT_PAYMENT => (true, HashStrategy::PredictedAfterOp),
            _ => (false, HashStrategy::NoSync),
        }
    }

    /// Whether this strategy requires synchronization.
    pub fn requires_sync(&self) -> (r: bool)
        ensures
            r == !(*self is NoSync),
    {
        !matches!(self, HashStrategy::NoSync)
    }
}

/// The wire type of every ledger operation is a protocol message type.
pub proof fn lemma_operation_types_known(v: crate::operation::OperationView)
    ensures
        envelope_message_types().contains(crate::operation::operation_message_type(v))
            || operation_message_types().contains(crate::operation::operation_message_type(v)),
{
}

/// Every envelope message type is odd.
pub proof fn lemma_envelope_types_odd(t: u16)
    requires
        envelope_message_types().contains(t),
    ensures
        t % 2 == 1,
{
}

} // verus!
