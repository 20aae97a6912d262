//! On-chain deposit offers and withdrawals: their signed commitments,
//! identifiers and the OP_RETURN tag a withdrawal transaction carries.

use vstd::prelude::*;
use vstd::utf8::encode_utf8;

use crate::bytes::{array_to_vec, bytes_eq};
use crate::crypto::{hex_encode, hex_lower, sha256, sha256_of};
use crate::pubkey::PublicKey;
use crate::text::{concat_text, decimal_digits, text_with_number, text_with_numbers, utf8_bytes};
use crate::types::{DepositId, DescriptorWitness, FeeStructure, TransferFeeSchedule};

verus! {

/// SHA-256 of the UTF-8 encoding of `text`.
pub open spec fn text_digest(text: Seq<char>) -> Seq<u8> {
    sha256_of(encode_utf8(text))
}

/// The digest of a text's UTF-8 encoding.
fn digest_text(text: &str) -> (r: [u8; 32])
    ensures
        r@ == text_digest(text@),
{
    let bytes = utf8_bytes(text);
    sha256(bytes.as_slice())
}

// ============================================================================
// Deposit offers
// ============================================================================

/// An operator's signed commitment to credit a deposit with funds sent to a
/// Bitcoin address, between a minimum and a maximum amount, before a
/// deadline block.
#[derive(Clone, Debug, PartialEq, Eq)]
pub struct DepositOffer {
    /// The operator making the offer.
    pub operator_id: PublicKey,
    /// The ledger ID (64-char hex).
    pub ledger_id: String,
    /// The deposit being funded.
    pub deposit_id: DepositId,
    /// The descriptor controlling the deposit.
    pub descriptor: String,
    /// Address to receive funds.
    pub funding_address: String,
    /// Maximum amount in satoshis that will be credited.
    pub max_amount_sats: u64,
    /// Minimum amount in satoshis.
    pub min_amount_sats: u64,
    /// The offer expires after this block.
    pub deadline_block: u32,
    /// Block height when the offer was created.
    pub created_at_block: u32,
    /// Offer ID: hash of the signing message.
    pub offer_id: [u8; 32],
    /// Operator's signature over the offer commitment.
    pub operator_signature: [u8; 64],
    /// Fee structure established at offer creation.
    pub fees: Option<FeeStructure>,
    /// Per-transfer fee schedule established at offer creation.
    pub transfer_fees: Option<TransferFeeSchedule>,
}

/// The message an operator signs for a deposit offer.
pub open spec fn offer_message(
    operator_id: Seq<u8>,
    ledger_id: Seq<char>,
    deposit_id: Seq<u8>,
    funding_address: Seq<char>,
    max_amount_sats: u64,
    min_amount_sats: u64,
    deadline_block: u32,
) -> Seq<char> {
    "DEPOSIT_OFFER:"@ + hex_lower(operator_id) + ":"@ + ledger_id + ":"@ + hex_lower(deposit_id)
        + ":"@ + funding_address + ":"@ + decimal_digits(max_amount_sats as nat) + ":"@
        + decimal_digits(min_amount_sats as nat) + ":"@ + decimal_digits(deadline_block as nat)
}

impl DepositOffer {
    /// The canonical message the operator signs for an offer.
    pub fn signing_message(
        operator_id: &PublicKey,
        ledger_id: &str,
        deposit_id: &DepositId,
        funding_address: &str,
        max_amount_sats: u64,
        min_amount_sats: u64,
        deadline_block: u32,
    ) -> (r: String)
        ensures
            r@ == offer_message(
                operator_id@,
                ledger_id@,
                deposit_id@,
                funding_address@,
                max_amount_sats,
                min_amount_sats,
                deadline_block,
            ),
    {
        let key = operator_id.serialize();
        let key_hex = hex_encode(key.as_slice());
        let id_hex = hex_encode(deposit_id.as_slice());
        let mut r = concat_text("DEPOSIT_OFFER:", key_hex.as_str());
        r.append(":");
        r.append(ledger_id);
        r.append(":");
        r.append(id_hex.as_str());
        r.append(":");
        r.append(funding_address);
        let amounts = text_with_numbers(":", max_amount_sats, ":", min_amount_sats);
        r.append(amounts.as_str());
        let deadline = text_with_number(":", deadline_block as u64, "");
        r.append(deadline.as_str());
        proof {
            reveal_strlit("");
        }
        assert(r@ =~= offer_message(
            operator_id@,
            ledger_id@,
            deposit_id@,
            funding_address@,
            max_amount_sats,
            min_amount_sats,
            deadline_block,
        ));
        r
    }

    /// The offer ID: SHA-256 of the signing message.
    pub fn compute_offer_id(signing_message: &str) -> (r: [u8; 32])
        ensures
            r@ == text_digest(signing_message@),
    {
        digest_text(signing_message)
    }

    /// Whether the offer has expired at `current_block`.
    pub fn is_expired(&self, current_block: u32) -> (r: bool)
        ensures
            r == (current_block > self.deadline_block),
    {
        current_block > self.deadline_block
    }

    /// Whether `amount_sats` is within the offer's limits.
    pub fn is_amount_valid(&self, amount_sats: u64) -> (r: bool)
        ensures
            r == (self.min_amount_sats <= amount_sats && amount_sats <= self.max_amount_sats),
    {
        amount_sats >= self.min_amount_sats && amount_sats <= self.max_amount_sats
    }

    /// The signing message of this offer.
    pub fn get_signing_message(&self) -> (r: String)
        ensures
            r@ == offer_message(
                self.operator_id@,
                self.ledger_id@,
                self.deposit_id@,
                self.funding_address@,
                self.max_amount_sats,
                self.min_amount_sats,
                self.deadline_block,
            ),
    {
        Self::signing_message(
            &self.operator_id,
            self.ledger_id.as_str(),
            &self.deposit_id,
            self.funding_address.as_str(),
            self.max_amount_sats,
            self.min_amount_sats,
            self.deadline_block,
        )
    }
}

/// Status of a deposit offer.
#[derive(Clone, Debug, PartialEq, Eq)]
pub enum DepositOfferStatus {
    /// Active and awaiting funding.
    Pending,
    /// Funds received, awaiting confirmation.
    FundingReceived { txid: String, amount_sats: u64, detected_at_block: u32 },
    /// Funds confirmed and the deposit credited.
    Completed { txid: String, amount_sats: u64, confirmed_at_block: u32 },
    /// Expired without funding.
    Expired { expired_at_block: u32 },
    /// Cancelled by the operator.
    Cancelled,
}

// ============================================================================
// On-chain withdrawals
// ============================================================================

/// A request to withdraw funds from a deposit to a Bitcoin address. The
/// fulfilling transaction carries the withdrawal ID in an OP_RETURN output.
#[derive(Clone, Debug, PartialEq, Eq)]
pub struct OnChainWithdrawal {
    /// Withdrawal ID: hash of the signing message.
    pub withdrawal_id: [u8; 32],
    /// Random nonce making the withdrawal ID unique.
    pub nonce: [u8; 32],
    /// The deposit being debited.
    pub deposit_id: DepositId,
    /// Destination address.
    pub destination_address: String,
    /// Amount to withdraw in satoshis.
    pub amount_sats: u64,
    /// Miner fee in satoshis.
    pub fee_sats: u64,
    /// Block height of the request.
    pub requested_at_block: u32,
    /// Optional memo.
    pub memo: Option<String>,
    /// Witness authorizing the withdrawal.
    pub depositor_witness: DescriptorWitness,
}

/// The message a depositor signs to authorize a withdrawal.
pub open spec fn withdrawal_message(
    nonce: Seq<u8>,
    deposit_id: Seq<u8>,
    destination_address: Seq<char>,
    amount_sats: u64,
    fee_sats: u64,
) -> Seq<char> {
    "WITHDRAWAL:"@ + hex_lower(nonce) + ":"@ + hex_lower(deposit_id) + ":"@ + destination_address
        + ":"@ + decimal_digits(amount_sats as nat) + ":"@ + decimal_digits(fee_sats as nat)
}

/// The OP_RETURN tag of a withdrawal: the bytes of "WDRL:" and the first 28
/// bytes of its ID.
pub open spec fn op_return_tag(withdrawal_id: Seq<u8>) -> Seq<u8> {
    seq![0x57u8, 0x44u8, 0x52u8, 0x4cu8, 0x3au8] + withdrawal_id.subrange(0, 28)
}

impl OnChainWithdrawal {
    /// The canonical message authorizing a withdrawal.
    pub fn signing_message(
        nonce: &[u8; 32],
        deposit_id: &DepositId,
        destination_address: &str,
        amount_sats: u64,
        fee_sats: u64,
    ) -> (r: String)
        ensures
            r@ == withdrawal_message(nonce@, deposit_id@, destination_address@, amount_sats, fee_sats),
    {
        let nonce_hex = hex_encode(nonce.as_slice());
        let id_hex = hex_encode(deposit_id.as_slice());
        let mut r = concat_text("WITHDRAWAL:", nonce_hex.as_str());
        r.append(":");
        r.append(id_hex.as_str());
        r.append(":");
        r.append(destination_address);
        let amounts = text_with_numbers(":", amount_sats, ":", fee_sats);
        r.append(amounts.as_str());
        assert(r@ =~= withdrawal_message(
            nonce@,
            deposit_id@,
            destination_address@,
            amount_sats,
            fee_sats,
        ));
        r
    }

    /// The withdrawal ID: SHA-256 of the signing message.
    pub fn compute_withdrawal_id(signing_message: &str) -> (r: [u8; 32])
        ensures
            r@ == text_digest(signing_message@),
    {
        digest_text(signing_message)
    }

    /// The signing message of this withdrawal.
    pub fn get_signing_message(&self) -> (r: String)
        ensures
            r@ == withdrawal_message(
                self.nonce@,
                self.deposit_id@,
                self.destination_address@,
                self.amount_sats,
                self.fee_sats,
            ),
    {
        Self::signing_message(
            &self.nonce,
            &self.deposit_id,
            self.destination_address.as_str(),
            self.amount_sats,
            self.fee_sats,
        )
    }

    /// The amount debited from the deposit: amount plus fee, saturating.
    pub fn total_debit(&self) -> (r: u64)
        ensures
            r == (if self.amount_sats + self.fee_sats > u64::MAX {
                u64::MAX
            } else {
                (self.amount_sats + self.fee_sats) as u64
            }),
    {
        self.amount_sats.saturating_add(self.fee_sats)
    }

    /// The OP_RETURN data the fulfilling transaction must carry: "WDRL:"
    /// and the first 28 bytes of the withdrawal ID.
    pub fn op_return_data(&self) -> (r: [u8; 33])
        ensures
            r@ == op_return_tag(self.withdrawal_id@),
    {
        let mut data = [0u8; 33];
        data[0] = 0x57;
        data[1] = 0x44;
        data[2] = 0x52;
        data[3] = 0x4c;
        data[4] = 0x3a;
        let mut i: usize = 0;
        while i < 28
            invariant
                i <= 28,
                data@.len() == 33,
                data@[0] == 0x57u8 && data@[1] == 0x44u8 && data@[2] == 0x52u8 && data@[3] == 0x4cu8
                    && data@[4] == 0x3au8,
                forall|j: int| 0 <= j < i ==> data@[5 + j] == self.withdrawal_id@[j],
            decreases 28 - i,
        {
            data[5 + i] = self.withdrawal_id[i];
            i = i + 1;
        }
        assert(data@ =~= op_return_tag(self.withdrawal_id@));
        data
    }

    /// Whether `op_return_data` is exactly this withdrawal's OP_RETURN tag.
    pub fn verify_op_return(&self, op_return_data: &[u8]) -> (r: bool)
        ensures
            r == (op_return_data@ == op_return_tag(self.withdrawal_id@)),
    {
        let expected = self.op_return_data();
        bytes_eq(op_return_data, expected.as_slice())
    }
}

/// Status of an on-chain withdrawal.
#[derive(Clone, Debug, PartialEq, Eq)]
pub enum OnChainWithdrawalStatus {
    /// Funds locked in the deposit.
    Locked { locked_at_block: u32 },
    /// Transaction broadcast.
    Broadcast { txid: String, broadcast_at_block: u32 },
    /// Transaction confirmed: withdrawal complete.
    Completed { txid: String, confirmed_at_block: u32, confirmations: u32 },
    /// Cancelled before broadcast (funds unlocked).
    Cancelled { cancelled_at_block: u32, reason: String },
}

/// Result of locking funds for an on-chain withdrawal.
#[derive(Clone, Debug, PartialEq, Eq)]
pub struct WithdrawalLockResult {
    /// The withdrawal request.
    pub withdrawal: OnChainWithdrawal,
    /// Deposit balance before the lock (millisatoshis).
    pub previous_balance_msats: u64,
    /// Deposit balance after the lock (millisatoshis).
    pub new_balance_msats: u64,
    /// Amount locked (millisatoshis).
    pub locked_amount_msats: u64,
}

/// Result of completing an on-chain withdrawal.
#[derive(Clone, Debug, PartialEq, Eq)]
pub struct WithdrawalCompleteResult {
    /// The withdrawal ID.
    pub withdrawal_id: [u8; 32],
    /// Transaction ID of the broadcast transaction.
    pub txid: String,
    /// Amount withdrawn (satoshis).
    pub amount_sats: u64,
    /// Fee paid (satoshis).
    pub fee_sats: u64,
    /// Final deposit balance (millisatoshis).
    pub final_balance_msats: u64,
}

} // verus!
