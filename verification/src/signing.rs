//! The messages that depositors, operators and quorum members sign: each a
//! SHA-256 digest of a canonical text or of a tagged byte string.

use vstd::prelude::*;
use vstd::utf8::encode_utf8;

use crate::bytes::{copy_range, extend_bytes, push_u32_le, push_u64_le, u32_le, u64_le};
use crate::crypto::{hex_encode, hex_lower, sha256, sha256_of};
use crate::pubkey::PublicKey;
use crate::text::{concat_text, decimal_digits, text_with_number, text_with_numbers, utf8_bytes};
use crate::types::DepositId;
use crate::withdrawal::{text_digest, withdrawal_message, OnChainWithdrawal};

verus! {

/// The digest a depositor signs to authorize a withdrawal.
pub fn withdrawal_signing_message(
    nonce: &[u8; 32],
    deposit_id: &DepositId,
    destination_address: &str,
    amount_sats: u64,
    fee_sats: u64,
) -> (r: [u8; 32])
    ensures
        r@ == text_digest(
            withdrawal_message(nonce@, deposit_id@, destination_address@, amount_sats, fee_sats),
        ),
{
    let message = OnChainWithdrawal::signing_message(
        nonce,
        deposit_id,
        destination_address,
        amount_sats,
        fee_sats,
    );
    let bytes = utf8_bytes(message.as_str());
    sha256(bytes.as_slice())
}

/// The text a depositor signs to lock funds for a Lightning payment.
pub open spec fn invoice_lock_message(
    deposit_id: Seq<u8>,
    payment_hash: Seq<u8>,
    amount_with_fees: u64,
) -> Seq<char> {
    "INVOICE:"@ + hex_lower(deposit_id) + ":"@ + hex_lower(payment_hash) + ":"@ + decimal_digits(
        amount_with_fees as nat,
    )
}

/// The digest a depositor signs to let the custodian deduct up to
/// `amount_with_fees` for the payment with hash `payment_hash`.
pub fn invoice_lock_signing_message(
    deposit_id: &DepositId,
    payment_hash: &[u8; 32],
    amount_with_fees: u64,
) -> (r: [u8; 32])
    ensures
        r@ == text_digest(invoice_lock_message(deposit_id@, payment_hash@, amount_with_fees)),
{
    let id_hex = hex_encode(deposit_id.as_slice());
    let hash_hex = hex_encode(payment_hash.as_slice());
    let mut message = concat_text("INVOICE:", id_hex.as_str());
    message.append(":");
    message.append(hash_hex.as_str());
    let amount = text_with_number(":", amount_with_fees, "");
    message.append(amount.as_str());
    proof {
        reveal_strlit("");
    }
    assert(message@ =~= invoice_lock_message(deposit_id@, payment_hash@, amount_with_fees));
    let bytes = utf8_bytes(message.as_str());
    sha256(bytes.as_slice())
}

/// The text the source deposit holder signs to lock a conditional transfer.
pub open spec fn transfer_lock_message(
    nonce: Seq<u8>,
    source_deposit_id: Seq<u8>,
    destination_deposit_id: Seq<u8>,
    amount_msats: u64,
    fee_msats: u64,
    completion_script: Seq<char>,
    timeout_height: u32,
) -> Seq<char> {
    "TRANSFER:"@ + hex_lower(nonce) + ":"@ + hex_lower(source_deposit_id) + ":"@ + hex_lower(
        destination_deposit_id,
    ) + ":"@ + decimal_digits(amount_msats as nat) + ":"@ + decimal_digits(fee_msats as nat) + ":"@
        + completion_script + ":"@ + decimal_digits(timeout_height as nat)
}

/// The digest the source deposit holder signs to lock a conditional
/// transfer.
pub fn transfer_lock_signing_message(
    nonce: &[u8; 32],
    source_deposit_id: &DepositId,
    destination_deposit_id: &DepositId,
    amount_msats: u64,
    fee_msats: u64,
    completion_script: &str,
    timeout_height: u32,
) -> (r: [u8; 32])
    ensures
        r@ == text_digest(
            transfer_lock_message(
                nonce@,
                source_deposit_id@,
                destination_deposit_id@,
                amount_msats,
                fee_msats,
                completion_script@,
                timeout_height,
            ),
        ),
{
    let nonce_hex = hex_encode(nonce.as_slice());
    let source_hex = hex_encode(source_deposit_id.as_slice());
    let dest_hex = hex_encode(destination_deposit_id.as_slice());
    let mut message = concat_text("TRANSFER:", nonce_hex.as_str());
    message.append(":");
    message.append(source_hex.as_str());
    message.append(":");
    message.append(dest_hex.as_str());
    let amounts = text_with_numbers(":", amount_msats, ":", fee_msats);
    message.append(amounts.as_str());
    message.append(":");
    message.append(completion_script);
    let timeout = text_with_number(":", timeout_height as u64, "");
    message.append(timeout.as_str());
    proof {
        reveal_strlit("");
    }
    assert(message@ =~= transfer_lock_message(
        nonce@,
        source_deposit_id@,
        destination_deposit_id@,
        amount_msats,
        fee_msats,
        completion_script@,
        timeout_height,
    ));
    let bytes = utf8_bytes(message.as_str());
    sha256(bytes.as_slice())
}

/// The transfer ID: SHA-256 of the transfer's signing digest.
pub fn compute_transfer_id(signing_message: &[u8; 32]) -> (r: [u8; 32])
    ensures
        r@ == sha256_of(signing_message@),
{
    sha256(signing_message.as_slice())
}

/// A BIP-340 style tagged hash: SHA-256 of the tag's digest twice, the
/// data, then the cosigner's ledger hash.
pub open spec fn tagged_digest(tag: Seq<char>, data: Seq<u8>, cosigner_ledger_hash: Seq<u8>) -> Seq<u8> {
    let t = sha256_of(encode_utf8(tag));
    sha256_of(t + t + data + cosigner_ledger_hash)
}

/// `tagged_digest` of `data` under `tag`.
fn tagged_hash(tag: &str, data: &Vec<u8>, cosigner_ledger_hash: &[u8; 32]) -> (r: [u8; 32])
    ensures
        r@ == tagged_digest(tag@, data@, cosigner_ledger_hash@),
{
    let tag_bytes = utf8_bytes(tag);
    let tag_hash = sha256(tag_bytes.as_slice());
    let mut tagged: Vec<u8> = Vec::new();
    extend_bytes(&mut tagged, tag_hash.as_slice());
    extend_bytes(&mut tagged, tag_hash.as_slice());
    extend_bytes(&mut tagged, data.as_slice());
    extend_bytes(&mut tagged, cosigner_ledger_hash.as_slice());
    sha256(tagged.as_slice())
}

/// The data a quorum member commits to when co-signing an invoice.
pub open spec fn invoice_cosign_data(
    ledger_id: Seq<char>,
    payment_hash: Seq<u8>,
    deposit_id: Seq<u8>,
    amount_msat: u64,
) -> Seq<u8> {
    encode_utf8(ledger_id) + payment_hash + deposit_id + u64_le(amount_msat)
}

/// The digest a quorum member signs when co-signing an invoice: the invoice
/// terms and the member's own ledger hash, under the tag
/// "deposits/invoice_cosign".
pub fn invoice_cosign_signing_message(
    ledger_id: &str,
    payment_hash: &[u8; 32],
    deposit_id: &DepositId,
    amount_msat: u64,
    cosigner_ledger_hash: &[u8; 32],
) -> (r: [u8; 32])
    ensures
        r@ == tagged_digest(
            "deposits/invoice_cosign"@,
            invoice_cosign_data(ledger_id@, payment_hash@, deposit_id@, amount_msat),
            cosigner_ledger_hash@,
        ),
{
    let mut data = utf8_bytes(ledger_id);
    extend_bytes(&mut data, payment_hash.as_slice());
    extend_bytes(&mut data, deposit_id.as_slice());
    push_u64_le(&mut data, amount_msat);
    tagged_hash("deposits/invoice_cosign", &data, cosigner_ledger_hash)
}

/// The data a quorum member commits to when co-signing a deposit offer; the
/// address length is written in one byte (truncated).
pub open spec fn offer_cosign_data(
    ledger_id: Seq<char>,
    offer_id: Seq<u8>,
    operator_id: Seq<u8>,
    funding_address: Seq<char>,
    deadline_block: u32,
) -> Seq<u8> {
    encode_utf8(ledger_id) + offer_id + operator_id.subrange(1, 33) + seq![
        (encode_utf8(funding_address).len() as u8),
    ] + encode_utf8(funding_address) + u32_le(deadline_block)
}

/// The digest a quorum member signs when co-signing a deposit offer: the
/// offer and the member's own ledger hash, under the tag
/// "deposits/offer_cosign". The operator key enters x-only.
pub fn offer_cosign_signing_message(
    ledger_id: &str,
    offer_id: &[u8; 32],
    operator_id: &PublicKey,
    funding_address: &str,
    deadline_block: u32,
    cosigner_ledger_hash: &[u8; 32],
) -> (r: [u8; 32])
    ensures
        r@ == tagged_digest(
            "deposits/offer_cosign"@,
            offer_cosign_data(ledger_id@, offer_id@, operator_id@, funding_address@, deadline_block),
            cosigner_ledger_hash@,
        ),
{
    let addr_bytes = utf8_bytes(funding_address);
    let key = operator_id.serialize();
    let x_only = copy_range(key.as_slice(), 1, 33);
    let mut data = utf8_bytes(ledger_id);
    extend_bytes(&mut data, offer_id.as_slice());
    extend_bytes(&mut data, x_only.as_slice());
    data.push(addr_bytes.len() as u8);
    extend_bytes(&mut data, addr_bytes.as_slice());
    push_u32_le(&mut data, deadline_block);
    assert(data@ =~= offer_cosign_data(
        ledger_id@,
        offer_id@,
        operator_id@,
        funding_address@,
        deadline_block,
    ));
    tagged_hash("deposits/offer_cosign", &data, cosigner_ledger_hash)
}

} // verus!
