//! Checking a lottery winner's claim transaction against the replacement
//! collateral it declared when arming a dispute.

use vstd::prelude::*;

use crate::crypto::{hex_decode, hex_decode_error, hex_decoded, hex_encode, hex_lower};
use crate::fraud::{verdict_is, BlockOracle, FraudEvidence, FraudProof};
use crate::operation::LedgerOperation;
use crate::text::concat_text;
use crate::tlv::{tlv_error_text, TlvDecode, TlvResult};
use crate::updates::SignedLedgerUpdate;

verus! {

/// The parts of a transaction that a deviation check reads.
#[derive(Clone, Debug, PartialEq, Eq)]
pub struct ClaimTransaction {
    /// The transaction id as displayed (byte-reversed hex).
    pub txid: String,
    /// The outpoints its inputs spend: the txid's bytes in internal order,
    /// and the output index.
    pub inputs: Vec<([u8; 32], u32)>,
    /// Its outputs in order: the locking script and the value in sats.
    pub outputs: Vec<(Vec<u8>, u64)>,
}

/// What parsing `s` as an address of any network gives: the locking script
/// it stands for, or the text of the parse error.
pub uninterp spec fn address_parse_of(s: Seq<char>) -> Result<Seq<u8>, Seq<char>>;

/// The locking script of an address given as text.
///
/// Trusted: parses with `FromStr` for
/// `bitcoin::Address<bitcoin::address::NetworkUnchecked>`, then takes
/// `assume_checked().script_pubkey()` as bytes; the error is the `Display`
/// text of the parse error. The result is named: a function of the text
/// alone.
#[verifier::external_body]
fn address_script(s: &str) -> (r: Result<Vec<u8>, String>)
    ensures
        match r {
            Ok(b) => address_parse_of(s@) == Ok::<Seq<u8>, Seq<char>>(b@),
            Err(e) => address_parse_of(s@) == Err::<Seq<u8>, Seq<char>>(e@),
        },
{
    match s.parse::<bitcoin::Address<bitcoin::address::NetworkUnchecked>>() {
        Ok(a) => Ok(a.assume_checked().script_pubkey().to_bytes()),
        Err(e) => Err(e.to_string()),
    }
}

/// Fee allowance for a claim transaction, in sats.
pub const MAX_CLAIM_FEE_SATS: u64 = 10_000;

/// `tx` spends the outpoint `(txid, vout)`.
pub open spec fn spends(tx: ClaimTransaction, txid: Seq<u8>, vout: u32) -> bool {
    exists|i: int| 0 <= i < tx.inputs@.len() && #[trigger] tx.inputs@[i].0@ == txid && tx.inputs@[i].1 == vout
}

/// The least value output 0 must carry: the lottery and the declared
/// amount (saturating), less the fee allowance (saturating at zero).
pub open spec fn expected_claim_value(lottery: u64, declared: u64) -> int {
    let total: int = if lottery + declared > u64::MAX {
        u64::MAX as int
    } else {
        lottery + declared
    };
    if total < MAX_CLAIM_FEE_SATS {
        0
    } else {
        total - MAX_CLAIM_FEE_SATS
    }
}

/// The outcome once the armed operation's declaration is known: deviation
/// (`Ok`) when the declared outpoint is not spent, output 0 pays another
/// script, or output 0 falls short of the expected value.
pub open spec fn declared_verdict(
    tx: ClaimTransaction,
    lottery: u64,
    target_reserves: Seq<char>,
    txid: Seq<u8>,
    vout: u32,
    amount: u64,
) -> Result<(), Seq<char>> {
    if !spends(tx, txid, vout) {
        Ok(())
    } else {
        match address_parse_of(target_reserves) {
            Err(e) => Err("target_reserves not a valid address: "@ + e),
            Ok(script) => if tx.outputs@.len() == 0 {
                Err("claim TX has no outputs"@)
            } else if tx.outputs@[0].0@ != script {
                Ok(())
            } else if tx.outputs@[0].1 < expected_claim_value(lottery, amount) {
                Ok(())
            } else {
                Err(
                    "claim TX matches the declared replacement_collateral and target_reserves; no deviation found"@,
                )
            },
        }
    }
}

/// The outcome of a deviation claim, given whether the claim block is
/// confirmed, the decoded armed update and its decoded operation.
pub open spec fn deviation_verdict(
    p: FraudProof,
    tx: ClaimTransaction,
    lottery: u64,
    confirmed: Option<u32>,
    armed: TlvResult<SignedLedgerUpdate>,
    op: TlvResult<LedgerOperation>,
) -> Result<(), Seq<char>> {
    match p.evidence {
        FraudEvidence::WinnerCollateralDeviation { winner_armed_update_hex, claim_txid, claim_block_hash } => {
            if confirmed is None {
                Err(
                    "claim_block_hash "@ + hex_lower(claim_block_hash@.take(8))
                        + " not in verifier's confirmed chain"@,
                )
            } else if tx.txid@ != claim_txid@ {
                Err("claim TX txid mismatch: proof claims "@ + claim_txid@ + ", supplied tx is "@ + tx.txid@)
            } else if hex_decoded(winner_armed_update_hex@) is None {
                Err("winner_armed_update_hex: "@ + hex_decode_error(winner_armed_update_hex@))
            } else {
                match armed {
                    Err(e) => Err("winner_armed_update decode: "@ + tlv_error_text(e)),
                    Ok(_) => match op {
                        Err(e) => Err("winner_armed_update operation decode: "@ + tlv_error_text(e)),
                        Ok(LedgerOperation::DisputeArmed { target_reserves, replacement_collateral, .. }) => {
                            match replacement_collateral {
                                None => Err(
                                    "winner declared no replacement_collateral — there's nothing for the claim TX to deviate from"@,
                                ),
                                Some(rc) => declared_verdict(
                                    tx,
                                    lottery,
                                    target_reserves@,
                                    rc.txid@,
                                    rc.vout,
                                    rc.amount,
                                ),
                            }
                        },
                        Ok(_) => Err("winner_armed_update operation is not DisputeArmed"@),
                    },
                }
            }
        },
        _ => Err("verify_winner_collateral_deviation: wrong evidence type"@),
    }
}

/// `a` and `o` are what decoding the armed update and its operation give,
/// where the check gets that far: the claim block confirmed, the txid
/// matching and the hex decoding.
pub open spec fn armed_decodes(
    p: FraudProof,
    tx: ClaimTransaction,
    confirmed: Option<u32>,
    a: TlvResult<SignedLedgerUpdate>,
    o: TlvResult<LedgerOperation>,
) -> bool {
    match p.evidence {
        FraudEvidence::WinnerCollateralDeviation { winner_armed_update_hex, claim_txid, .. } => {
            confirmed is Some && tx.txid@ == claim_txid@ && hex_decoded(winner_armed_update_hex@) is Some
                ==> SignedLedgerUpdate::tlv_decodes(hex_decoded(winner_armed_update_hex@)->0, a) && (a matches Ok(
                u,
            ) ==> LedgerOperation::tlv_decodes(u.message@, o))
        },
        _ => true,
    }
}

/// Whether `tx` spends the outpoint `(txid, vout)`.
fn spends_outpoint(tx: &ClaimTransaction, txid: &[u8; 32], vout: u32) -> (r: bool)
    ensures
        r == spends(*tx, txid@, vout),
{
    let mut i: usize = 0;
    while i < tx.inputs.len()
        invariant
            i <= tx.inputs@.len(),
            forall|k: int| 0 <= k < i ==> !(#[trigger] tx.inputs@[k].0@ == txid@ && tx.inputs@[k].1 == vout),
        decreases tx.inputs@.len() - i,
    {
        let (t, v) = &tx.inputs[i];
        if crate::bytes::bytes_eq(t.as_slice(), txid.as_slice()) && *v == vout {
            return true;
        }
        i = i + 1;
    }
    false
}

/// The verdict once the declaration is known.
fn check_declared(
    tx: &ClaimTransaction,
    lottery: u64,
    target_reserves: &str,
    txid: &[u8; 32],
    vout: u32,
    amount: u64,
) -> (r: Result<(), String>)
    ensures
        verdict_is(r, declared_verdict(*tx, lottery, target_reserves@, txid@, vout, amount)),
{
    if !spends_outpoint(tx, txid, vout) {
        return Ok(());
    }
    let script = match address_script(target_reserves) {
        Ok(s) => s,
        Err(e) => {
            return Err(concat_text("target_reserves not a valid address: ", e.as_str()));
        },
    };
    if tx.outputs.len() == 0 {
        return Err("claim TX has no outputs".to_owned());
    }
    let (out_script, out_value) = &tx.outputs[0];
    if !crate::bytes::bytes_eq(out_script.as_slice(), script.as_slice()) {
        return Ok(());
    }
    let expected_min = lottery.saturating_add(amount).saturating_sub(MAX_CLAIM_FEE_SATS);
    if *out_value < expected_min {
        return Ok(());
    }
    Err(
        "claim TX matches the declared replacement_collateral and target_reserves; no deviation found".to_owned(),
    )
}

/// The verdict on a deviation claim once the oracle has said whether the
/// claim block is confirmed (`confirmed`): the claim transaction must be
/// the one the proof names, and the armed update must decode to a
/// `DisputeArmed` declaring collateral. `Ok` means a deviation is shown: the
/// declared outpoint is not spent, output 0 pays elsewhere, or output 0
/// carries less than the lottery and the declared amount less a fee
/// allowance.
pub fn winner_deviation_verdict(
    proof: &FraudProof,
    claim_tx: &ClaimTransaction,
    lottery_amount_sats: u64,
    confirmed: Option<u32>,
) -> (r: Result<(), String>)
    ensures
        exists|a: TlvResult<SignedLedgerUpdate>, o: TlvResult<LedgerOperation>|
            armed_decodes(*proof, *claim_tx, confirmed, a, o) && verdict_is(
                r,
                #[trigger] deviation_verdict(*proof, *claim_tx, lottery_amount_sats, confirmed, a, o),
            ),
{
    let (armed_hex, claim_txid, claim_block_hash) = match &proof.evidence {
        FraudEvidence::WinnerCollateralDeviation { winner_armed_update_hex, claim_txid, claim_block_hash } => (
            winner_armed_update_hex,
            claim_txid,
            claim_block_hash,
        ),
        _ => {
            let r = Err("verify_winner_collateral_deviation: wrong evidence type".to_owned());
            let ghost a = Err::<SignedLedgerUpdate, crate::tlv::TlvError>(crate::tlv::TlvError::UnexpectedEof);
            let ghost o = Err::<LedgerOperation, crate::tlv::TlvError>(crate::tlv::TlvError::UnexpectedEof);
            assert(verdict_is(r, deviation_verdict(*proof, *claim_tx, lottery_amount_sats, confirmed, a, o)));
            return r;
        },
    };
    let ghost no_a = Err::<SignedLedgerUpdate, crate::tlv::TlvError>(crate::tlv::TlvError::UnexpectedEof);
    let ghost no_o = Err::<LedgerOperation, crate::tlv::TlvError>(crate::tlv::TlvError::UnexpectedEof);
    if confirmed.is_none() {
        let head = copy_prefix8(claim_block_hash);
        let mut m = concat_text("claim_block_hash ", hex_encode(head.as_slice()).as_str());
        m.append(" not in verifier's confirmed chain");
        let r = Err(m);
        assert(verdict_is(r, deviation_verdict(*proof, *claim_tx, lottery_amount_sats, confirmed, no_a, no_o)));
        return r;
    }
    if !(claim_tx.txid == *claim_txid) {
        let mut m = concat_text("claim TX txid mismatch: proof claims ", claim_txid.as_str());
        m.append(", supplied tx is ");
        m.append(claim_tx.txid.as_str());
        let r = Err(m);
        assert(verdict_is(r, deviation_verdict(*proof, *claim_tx, lottery_amount_sats, confirmed, no_a, no_o)));
        return r;
    }
    let armed_bytes = match hex_decode(armed_hex.as_str()) {
        Ok(b) => b,
        Err(e) => {
            let r = Err(concat_text("winner_armed_update_hex: ", e.as_str()));
            assert(verdict_is(r, deviation_verdict(*proof, *claim_tx, lottery_amount_sats, confirmed, no_a, no_o)));
            return r;
        },
    };
    let armed = SignedLedgerUpdate::tlv_decode(armed_bytes.as_slice());
    let ghost a = armed;
    let update = match armed {
        Ok(u) => u,
        Err(e) => {
            let r = Err(concat_text("winner_armed_update decode: ", e.message().as_str()));
            assert(verdict_is(r, deviation_verdict(*proof, *claim_tx, lottery_amount_sats, confirmed, a, no_o)));
            return r;
        },
    };
    let op = LedgerOperation::tlv_decode(update.message.as_slice());
    let ghost o = op;
    let r = match op {
        Err(e) => Err(concat_text("winner_armed_update operation decode: ", e.message().as_str())),
        Ok(LedgerOperation::DisputeArmed { target_reserves, replacement_collateral, .. }) => {
            match replacement_collateral {
                None => Err(
                    "winner declared no replacement_collateral — there's nothing for the claim TX to deviate from".to_owned(),
                ),
                Some(rc) => check_declared(
                    claim_tx,
                    lottery_amount_sats,
                    target_reserves.as_str(),
                    &rc.txid,
                    rc.vout,
                    rc.amount,
                ),
            }
        },
        Ok(_) => Err("winner_armed_update operation is not DisputeArmed".to_owned()),
    };
    assert(verdict_is(r, deviation_verdict(*proof, *claim_tx, lottery_amount_sats, confirmed, a, o)));
    r
}

/// The height the oracle gives the claim block of a deviation claim.
pub open spec fn claim_block_height<O: BlockOracle>(p: FraudProof, oracle: &O) -> Option<u32> {
    match p.evidence {
        FraudEvidence::WinnerCollateralDeviation { claim_block_hash, .. } => oracle.confirmed_height(
            claim_block_hash@,
        ),
        _ => None,
    }
}

/// Verifies a claim that a lottery winner's claim transaction deviates from
/// the replacement collateral declared in its armed update. The oracle is
/// asked for the claim block; the rest is [`winner_deviation_verdict`] on
/// what it answered.
pub fn verify_winner_collateral_deviation<O: BlockOracle>(
    proof: &FraudProof,
    claim_tx: &ClaimTransaction,
    lottery_amount_sats: u64,
    block_oracle: &O,
) -> (r: Result<(), String>)
    ensures
        exists|a: TlvResult<SignedLedgerUpdate>, o: TlvResult<LedgerOperation>|
            armed_decodes(*proof, *claim_tx, claim_block_height(*proof, block_oracle), a, o) && verdict_is(
                r,
                #[trigger] deviation_verdict(
                    *proof,
                    *claim_tx,
                    lottery_amount_sats,
                    claim_block_height(*proof, block_oracle),
                    a,
                    o,
                ),
            ),
{
    let confirmed = match &proof.evidence {
        FraudEvidence::WinnerCollateralDeviation { claim_block_hash, .. } => block_oracle.confirms(claim_block_hash),
        _ => None,
    };
    winner_deviation_verdict(proof, claim_tx, lottery_amount_sats, confirmed)
}

/// The first eight bytes of a hash.
fn copy_prefix8(h: &[u8; 32]) -> (r: Vec<u8>)
    ensures
        r@ == h@.take(8),
{
    let r = crate::bytes::copy_range(h.as_slice(), 0, 8);
    assert(r@ =~= h@.take(8));
    r
}

} // verus!
