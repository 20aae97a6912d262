//! Quorum membership records and reserves outputs.

use vstd::prelude::*;

use crate::pubkey::PublicKey;
use crate::types::DepositId;

verus! {

/// Default compensation rate for a quorum member: 3% (300 basis points) of
/// collected fees.
pub const DEFAULT_COMPENSATION_BPS: u16 = 300;

/// Default compensation payout cadence: 2016 blocks (about two weeks).
pub const DEFAULT_COMPENSATION_FREQUENCY_BLOCKS: u32 = 2016;

/// A record of joining another operator's quorum as a monitoring member.
#[derive(Clone, Debug, PartialEq, Eq)]
pub struct QuorumMembership {
    /// The operator whose quorum was joined.
    pub operator_id: PublicKey,
    /// The ledger ID (64-char hex) of the monitored ledger.
    pub ledger_id: String,
    /// Block height when the membership commitment expires.
    pub membership_expires: u32,
    /// Sequence number when the quorum was joined.
    pub joined_at_sequence: u64,
}

/// A quorum member with the ledger holding its collateral, and its terms.
#[derive(Clone, Debug, PartialEq, Eq)]
pub struct QuorumMember {
    /// The member's public key.
    pub pubkey: PublicKey,
    /// The ledger ID where the member locks collateral.
    pub ledger_id: String,
    /// Minimum annualized fee rate (basis points) the member requires.
    pub min_fee_bps: Option<u16>,
    /// Minimum annualized fixed fee (msats/year) the member requires.
    pub min_fee_fixed: Option<u64>,
    /// Maximum fee collection period (blocks) the member allows.
    pub max_fee_period: Option<u32>,
    /// Block height until which the member commits to serving.
    pub membership_until: Option<u32>,
    /// Blocks before the member must respond to embedded fraud evidence.
    pub dispute_response_blocks: Option<u32>,
    /// Blocks after a dispute opens during which members must arm.
    pub dispute_arm_blocks: Option<u32>,
    /// Blocks before an unprocessed signed request becomes provable
    /// censorship.
    pub service_response_blocks: Option<u32>,
    /// Maximum timeout distance for a transfer lock.
    pub max_transfer_timeout_blocks: Option<u32>,
    /// Maximum serialized descriptor size (bytes) the member accepts.
    pub max_descriptor_bytes: Option<u32>,
    /// Basis points of collected fees paid to the member.
    pub compensation_bps: Option<u16>,
    /// Deposit on the operator's ledger where compensation lands.
    pub compensation_deposit_id: Option<DepositId>,
    /// Compensation payout cadence, in blocks.
    pub compensation_frequency_blocks: Option<u32>,
}

/// Reserves output backing deposits.
#[derive(Clone, Debug, PartialEq, Eq)]
pub struct ReservesOutput {
    /// Associated channel ID.
    pub channel_id: [u8; 32],
    /// Amount held in reserves (millisatoshis).
    pub amount: u64,
    /// Key that can spend the reserves after the timelock.
    pub spend_to: PublicKey,
}

impl ReservesOutput {
    /// A reserves output.
    pub fn new(channel_id: [u8; 32], amount: u64, spend_to: PublicKey) -> (r: Self)
        ensures
            r == (ReservesOutput { channel_id, amount, spend_to }),
    {
        ReservesOutput { channel_id, amount, spend_to }
    }
}

} // verus!
