//! Bitcoin Deposits protocol: wire formats, protocol types and their codecs,
//! with machine-checked contracts.

pub mod binary_laws;
pub mod binary_read_back;
pub mod bytes;
pub mod claim_deviation;
pub mod codec;
pub mod conformance;
pub mod coordination;
pub mod coordination_laws;
pub mod cosign_order;
pub mod crypto;
pub mod deposit_records;
pub mod deposits_message;
pub mod entropy;
pub mod error;
pub mod fraud;
pub mod keyed;
pub mod ledger_state;
pub mod messages;
pub mod op_fields;
pub mod operation;
pub mod operation_binary;
pub mod operation_copy;
pub mod operation_laws;
pub mod operation_tlv;
pub mod pubkey;
pub mod quorum;
pub mod records;
pub mod reports;
pub mod responses;
pub mod session;
pub mod session_binary;
pub mod signature;
pub mod signing;
pub mod text;
pub mod tlv;
pub mod tlv_vec;
pub mod types;
pub mod update_codec;
pub mod updates;
pub mod wire_messages;
pub mod withdrawal;
