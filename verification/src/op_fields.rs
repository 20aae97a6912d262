//! TLV field types of an encoded ledger operation.

use vstd::prelude::*;

verus! {

pub const DISCRIMINANT: u64 = 0;
pub const AMOUNT: u64 = 2;
pub const QUORUM_MEMBERS: u64 = 6;
pub const QUORUM_MEMBER_LEDGER_IDS: u64 = 276;
pub const FEES: u64 = 12;
pub const PAYMENT_HASH: u64 = 14;
pub const INVOICE: u64 = 16;
pub const COSIGNER_SIG: u64 = 18;
pub const NEW_FEES: u64 = 20;
pub const INVOICE_ID: u64 = 26;
pub const SEQUENCE_NUMBER: u64 = 28;
pub const PAYMENT_ID: u64 = 30;
pub const PREIMAGE: u64 = 34;
pub const BLOCK_HEIGHT: u64 = 36;
pub const LEDGER_HASH: u64 = 42;
pub const QUORUM_MEMBER: u64 = 44;
pub const QUORUM_MEMBER_SIG: u64 = 46;
pub const OPERATOR_SIG: u64 = 48;
pub const OPERATOR_ID: u64 = 56;
pub const RESERVES_ID: u64 = 58;
pub const RESERVES_AMOUNT: u64 = 62;
pub const GENESIS_BLOCK: u64 = 96;
pub const TXID: u64 = 66;
pub const VOUT: u64 = 68;
pub const DESTINATION_ADDRESS: u64 = 70;
pub const WITHDRAWAL_ID: u64 = 72;
pub const FUNDING_ADDRESS: u64 = 74;
pub const MEMBERSHIP_EXPIRES: u64 = 82;
pub const SPENDING_TXID: u64 = 90;
pub const NEW_OUTPOINT_TXID: u64 = 84;
pub const NEW_OUTPOINT_VOUT: u64 = 92;
pub const QUORUM_EXPIRY: u64 = 86;
pub const TOTAL_COLLATERAL: u64 = 88;
pub const REASON: u64 = 100;
pub const LAST_VALID_SEQUENCE: u64 = 102;
pub const NEW_CUSTODIAN: u64 = 108;
pub const ARMED_BLOCK: u64 = 118;
pub const CLAIM_TXID: u64 = 110;
pub const NEW_RESERVES_ADDRESS: u64 = 120;
pub const COMMITMENT_HASH: u64 = 112;
pub const TARGET_RESERVES: u64 = 122;
pub const REPLACEMENT_COLLATERAL_TXID: u64 = 280;
pub const REPLACEMENT_COLLATERAL_VOUT: u64 = 282;
pub const REPLACEMENT_COLLATERAL_AMOUNT: u64 = 284;
pub const MEMBER_LEDGER_ID: u64 = 114;
pub const DEPOSIT_ID: u64 = 200;
pub const DESCRIPTOR: u64 = 202;
pub const WITNESS: u64 = 204;
pub const WITNESS_ELEMENT: u64 = 206;
pub const NEW_DESCRIPTOR: u64 = 208;
pub const NONCE: u64 = 210;
pub const SOURCE_DEPOSIT_ID: u64 = 212;
pub const DESTINATION_DEPOSIT_ID: u64 = 214;
pub const COMPLETION_SCRIPT: u64 = 216;
pub const TIMEOUT_HEIGHT: u64 = 218;
pub const TRANSFER_ID: u64 = 220;
pub const BLOCK_HASH: u64 = 222;
pub const SCRIPT_WITNESS: u64 = 224;
pub const TRANSFER_FEES: u64 = 226;
pub const FAIL_REASON: u64 = 228;
pub const RECEIVE_REQUIRES_SIG: u64 = 232;
pub const MIN_FEE_BPS: u64 = 234;
pub const MIN_FEE_FIXED: u64 = 236;
pub const MAX_FEE_PERIOD: u64 = 238;
pub const FEE_CHANGE_AFTER: u64 = 244;
pub const FEE_CHANGE_NOTICE: u64 = 246;
pub const FEE_CHANGE_LIMIT_BPS: u64 = 248;
pub const EFFECTIVE_BLOCK: u64 = 250;
pub const MEMBERSHIP_UNTIL: u64 = 242;
pub const DISPUTE_RESPONSE_BLOCKS: u64 = 252;
pub const DISPUTE_ARM_BLOCKS: u64 = 254;
pub const SERVICE_RESPONSE_BLOCKS: u64 = 256;
pub const MAX_TRANSFER_TIMEOUT_BLOCKS: u64 = 258;
pub const MAX_DESCRIPTOR_BYTES: u64 = 262;
pub const COMPENSATION_BPS: u64 = 264;
pub const COMPENSATION_DEPOSIT_ID: u64 = 266;
pub const COMPENSATION_FREQUENCY_BLOCKS: u64 = 268;
pub const REQUEST_HASH: u64 = 270;
pub const TARGET_LEDGER_ID: u64 = 272;
pub const TARGET_OPERATOR: u64 = 274;

} // verus!
