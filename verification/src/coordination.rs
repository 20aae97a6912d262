//! Coordination messages: requests between operators and quorum members
//! that do not change a ledger, in their TLV and legacy binary encodings.

use vstd::prelude::*;
use vstd::utf8::{encode_utf8, encode_utf8_decode_utf8, encode_utf8_valid_utf8};

use crate::bytes::{
    copy_range, extend_bytes, get_u64_be, lemma_u16_be, lemma_u32_be, lemma_u64_be, push_u64_be, u16_be,
    u32_be, u64_be, u64_from_be,
};
use crate::codec::{
    length_prefixed, rd_bytes, rd_exact, rd_pubkey, rd_string, rd_u16, rd_u32, rd_u64, rd_u8,
    read_16, read_32, read_64, read_bool, read_bytes, read_is, read_is_view, read_pubkey,
    read_string, read_u16, read_u32, read_u64, read_u8, write_16, write_32, write_64, write_bool,
    write_bytes, write_pubkey, write_string, write_u16, write_u32, write_u64, write_u8,
    CodecError, CodecFault, Read,
};
use crate::operation::opt_bytes;
use crate::operation_binary::{option_bytes, rd_option_exact, BinaryCodec};
use crate::operation_tlv::{lemma_put_opt_finite, lemma_put_opt_lookup, opt_u16_bytes, opt_u32_bytes, put_opt};
use crate::pubkey::{is_valid_key, PublicKey};
use crate::records::parse_with;
use crate::text::{decimal_digits, text_with_number};
use crate::tlv::{
    bytes_of, deposit_id_of, invalid_fault, lemma_finite_map_sorted, lemma_map_roundtrip,
    map_bytes, map_within_limit, optional, outcome_view, pubkey_of, required, string_of, u16_of,
    u32_of, u64_of, u8_of, StreamFault, TlvBuilder, TlvDecode, TlvEncode, TlvError, TlvReader,
    TlvResult, MAX_TLV_VALUE_LENGTH,
};

verus! {

/// Any field bytes, taken as they are.
pub open spec fn raw_of(d: Seq<u8>) -> Result<Seq<u8>, StreamFault> {
    Ok(d)
}

/// An optional byte vector, by its contents.
pub open spec fn opt_vec(o: Option<Vec<u8>>) -> Option<Seq<u8>> {
    match o {
        Some(v) => Some(v@),
        None => None,
    }
}

/// Amounts as consecutive big-endian `u64`s.
pub open spec fn u64s_be(xs: Seq<u64>) -> Seq<u8>
    decreases xs.len(),
{
    if xs.len() == 0 {
        seq![]
    } else {
        u64_be(xs[0]) + u64s_be(xs.drop_first())
    }
}

/// The big-endian `u64`s in consecutive eight-byte chunks of `d`; a shorter
/// tail is ignored.
pub open spec fn u64s_of(d: Seq<u8>) -> Seq<u64>
    decreases d.len(),
{
    if d.len() < 8 {
        seq![]
    } else {
        seq![u64_from_be(d.subrange(0, 8))] + u64s_of(d.skip(8))
    }
}

proof fn lemma_u64s_be_push(xs: Seq<u64>, x: u64)
    ensures
        u64s_be(xs.push(x)) == u64s_be(xs) + u64_be(x),
    decreases xs.len(),
{
    if xs.len() == 0 {
        assert(xs.push(x).drop_first() =~= Seq::<u64>::empty());
        assert(u64s_be(xs.push(x)) =~= u64_be(x) + u64s_be(Seq::<u64>::empty()));
    } else {
        assert(xs.push(x).drop_first() =~= xs.drop_first().push(x));
        lemma_u64s_be_push(xs.drop_first(), x);
        assert(u64s_be(xs.push(x)) =~= u64_be(xs[0]) + (u64s_be(xs.drop_first()) + u64_be(x)));
    }
}

/// Reading back consecutive big-endian `u64`s gives the amounts.
pub proof fn lemma_u64s_roundtrip(xs: Seq<u64>)
    ensures
        u64s_be(xs).len() == 8 * xs.len(),
        u64s_of(u64s_be(xs)) == xs,
    decreases xs.len(),
{
    if xs.len() == 0 {
        assert(u64s_of(u64s_be(xs)) =~= xs);
    } else {
        lemma_u64s_roundtrip(xs.drop_first());
        lemma_u64_be(xs[0], seq![]);
        let b = u64s_be(xs);
        assert(b.subrange(0, 8) =~= u64_be(xs[0]));
        assert(b.skip(8) =~= u64s_be(xs.drop_first()));
        assert(u64s_of(b) =~= xs);
    }
}

/// The amounts as consecutive big-endian `u64`s.
fn u64s_encoded(xs: &Vec<u64>) -> (r: Vec<u8>)
    ensures
        r@ == u64s_be(xs@),
{
    let mut out: Vec<u8> = Vec::new();
    let mut i: usize = 0;
    assert(xs@.take(0) =~= Seq::<u64>::empty());
    while i < xs.len()
        invariant
            i <= xs@.len(),
            out@ == u64s_be(xs@.take(i as int)),
        decreases xs@.len() - i,
    {
        push_u64_be(&mut out, xs[i]);
        proof {
            lemma_u64s_be_push(xs@.take(i as int), xs@[i as int]);
            assert(xs@.take(i + 1) =~= xs@.take(i as int).push(xs@[i as int]));
        }
        i = i + 1;
    }
    assert(xs@.take(i as int) =~= xs@);
    out
}

/// The big-endian `u64`s in consecutive eight-byte chunks.
fn u64s_decoded(d: &[u8]) -> (r: Vec<u64>)
    ensures
        r@ == u64s_of(d@),
{
    let mut out: Vec<u64> = Vec::new();
    let mut pos: usize = 0;
    assert(d@.skip(0) =~= d@);
    while d.len() - pos >= 8
        invariant
            pos <= d@.len(),
            out@ + u64s_of(d@.skip(pos as int)) == u64s_of(d@),
        decreases d@.len() - pos,
    {
        let v = get_u64_be(d, pos);
        proof {
            let t = d@.skip(pos as int);
            assert(t.subrange(0, 8) =~= d@.subrange(pos as int, pos + 8));
            assert(t.skip(8) =~= d@.skip(pos + 8));
            assert(out@.push(v) + u64s_of(d@.skip(pos + 8)) =~= out@ + u64s_of(t));
        }
        out.push(v);
        pos = pos + 8;
    }
    assert(u64s_of(d@.skip(pos as int)) =~= Seq::<u64>::empty());
    assert(out@ + Seq::<u64>::empty() =~= out@);
    out
}

/// Field types of an encoded [`CoordinationMsg`].
pub const COORD_DISCRIMINANT: u64 = 0;
pub const COORD_OPERATOR_ID: u64 = 2;
pub const COORD_RESERVES_ID: u64 = 4;
pub const COORD_AMOUNT: u64 = 6;
pub const COORD_PAYMENT_HASH: u64 = 8;
pub const COORD_EXPIRES: u64 = 10;
pub const COORD_ASSIGNED_DEPOSIT: u64 = 12;
pub const COORD_INVOICE_ID: u64 = 14;
pub const COORD_BOLT11_INVOICE: u64 = 16;
pub const COORD_OPERATOR_SIGNATURE: u64 = 18;
pub const COORD_REQUESTER_PUBKEY: u64 = 20;
pub const COORD_PROTOCOL_VERSION: u64 = 22;
pub const COORD_TIMESTAMP: u64 = 24;
pub const COORD_SIGNATURE: u64 = 26;
pub const COORD_VOTE_ROUND_ID: u64 = 28;
pub const COORD_SEQUENCE_NUMBER: u64 = 30;
pub const COORD_STATE_HASH: u64 = 32;
pub const COORD_CLAIMED_RESERVES: u64 = 34;
pub const COORD_COLLATERAL_AMOUNTS: u64 = 36;
pub const COORD_RESERVES_OUTPOINT: u64 = 38;
pub const COORD_DESTINATION_SCRIPT: u64 = 40;
pub const COORD_FEE_RATE_SAT_VBYTE: u64 = 42;
pub const COORD_VOTER_PUBKEY: u64 = 44;
pub const COORD_VOTE: u64 = 46;
pub const COORD_VOTER_SEQUENCE: u64 = 48;
pub const COORD_VOTER_STATE_HASH: u64 = 50;
pub const COORD_EVIDENCE: u64 = 52;
pub const COORD_SPEND_SIGNATURE: u64 = 54;
pub const COORD_CHANNEL_ID: u64 = 56;
pub const COORD_RESERVES_SATS: u64 = 58;
pub const COORD_SCRIPT_PUBKEY: u64 = 60;
pub const COORD_LEDGER_HASH: u64 = 62;
pub const COORD_REMOTE_LEDGER_HASH: u64 = 64;
pub const COORD_COMPENSATION_BPS: u64 = 66;
pub const COORD_COMPENSATION_DEPOSIT_ID: u64 = 68;
pub const COORD_COMPENSATION_FREQUENCY_BLOCKS: u64 = 70;

/// Coordination messages: requests that do not change a ledger.
#[derive(Clone, Debug, PartialEq, Eq)]
pub enum CoordinationMsg {
    /// Request partner to cosign an invoice.
    CosignInvoice { operator_id: PublicKey, reserves_id: String, amount: u64, payment_hash: [u8; 32], expires: u64, assigned_deposit: PublicKey, invoice_id: String, bolt11_invoice: String },
    /// Request consent for collateral registration.
    CollateralConsentRequest { operator_id: PublicKey, reserves_id: String, operator_signature: [u8; 64] },
    /// Request to join a quorum, with the member's proposed compensation.
    QuorumJoinRequest { requester_pubkey: PublicKey, operator_id: PublicKey, reserves_id: String, protocol_version: u16, timestamp: u64, signature: [u8; 64], compensation_bps: Option<u16>, compensation_deposit_id: Option<[u8; 16]>, compensation_frequency_blocks: Option<u32> },
    /// Request for a quorum vote.
    QuorumVoteRequest { vote_round_id: [u8; 32], operator_id: PublicKey, reserves_id: String, sequence_number: u64, state_hash: [u8; 32], claimed_reserves: u64, collateral_amounts: Vec<u64>, reserves_outpoint: Vec<u8>, destination_script: Vec<u8>, fee_rate_sat_vbyte: u64, timestamp: u64 },
    /// A quorum vote.
    QuorumVote { vote_round_id: [u8; 32], voter_pubkey: PublicKey, vote: bool, voter_sequence: u64, voter_state_hash: [u8; 32], evidence: Option<Vec<u8>>, signature: [u8; 64], spend_signature: Option<[u8; 64]> },
    /// Proposed extra outputs for the reserves commitment.
    UpdateReserves { channel_id: [u8; 32], reserves_sats: u64, script_pubkey: Vec<u8>, ledger_hash: [u8; 32], remote_ledger_hash: [u8; 32] },
}

/// A coordination message as plain values.
pub enum CoordinationMsgView {
    CosignInvoice { operator_id: Seq<u8>, reserves_id: Seq<char>, amount: u64, payment_hash: Seq<u8>, expires: u64, assigned_deposit: Seq<u8>, invoice_id: Seq<char>, bolt11_invoice: Seq<char> },
    CollateralConsentRequest { operator_id: Seq<u8>, reserves_id: Seq<char>, operator_signature: Seq<u8> },
    QuorumJoinRequest { requester_pubkey: Seq<u8>, operator_id: Seq<u8>, reserves_id: Seq<char>, protocol_version: u16, timestamp: u64, signature: Seq<u8>, compensation_bps: Option<u16>, compensation_deposit_id: Option<Seq<u8>>, compensation_frequency_blocks: Option<u32> },
    QuorumVoteRequest { vote_round_id: Seq<u8>, operator_id: Seq<u8>, reserves_id: Seq<char>, sequence_number: u64, state_hash: Seq<u8>, claimed_reserves: u64, collateral_amounts: Seq<u64>, reserves_outpoint: Seq<u8>, destination_script: Seq<u8>, fee_rate_sat_vbyte: u64, timestamp: u64 },
    QuorumVote { vote_round_id: Seq<u8>, voter_pubkey: Seq<u8>, vote: bool, voter_sequence: u64, voter_state_hash: Seq<u8>, evidence: Option<Seq<u8>>, signature: Seq<u8>, spend_signature: Option<Seq<u8>> },
    UpdateReserves { channel_id: Seq<u8>, reserves_sats: u64, script_pubkey: Seq<u8>, ledger_hash: Seq<u8>, remote_ledger_hash: Seq<u8> },
}

impl View for CoordinationMsg {
    type V = CoordinationMsgView;

    open spec fn view(&self) -> CoordinationMsgView {
        match self {
            CoordinationMsg::CosignInvoice { operator_id, reserves_id, amount, payment_hash, expires, assigned_deposit, invoice_id, bolt11_invoice } => CoordinationMsgView::CosignInvoice { operator_id: operator_id@, reserves_id: reserves_id@, amount: *amount, payment_hash: payment_hash@, expires: *expires, assigned_deposit: assigned_deposit@, invoice_id: invoice_id@, bolt11_invoice: bolt11_invoice@ },
            CoordinationMsg::CollateralConsentRequest { operator_id, reserves_id, operator_signature } => CoordinationMsgView::CollateralConsentRequest { operator_id: operator_id@, reserves_id: reserves_id@, operator_signature: operator_signature@ },
            CoordinationMsg::QuorumJoinRequest { requester_pubkey, operator_id, reserves_id, protocol_version, timestamp, signature, compensation_bps, compensation_deposit_id, compensation_frequency_blocks } => CoordinationMsgView::QuorumJoinRequest { requester_pubkey: requester_pubkey@, operator_id: operator_id@, reserves_id: reserves_id@, protocol_version: *protocol_version, timestamp: *timestamp, signature: signature@, compensation_bps: *compensation_bps, compensation_deposit_id: opt_bytes(*compensation_deposit_id), compensation_frequency_blocks: *compensation_frequency_blocks },
            CoordinationMsg::QuorumVoteRequest { vote_round_id, operator_id, reserves_id, sequence_number, state_hash, claimed_reserves, collateral_amounts, reserves_outpoint, destination_script, fee_rate_sat_vbyte, timestamp } => CoordinationMsgView::QuorumVoteRequest { vote_round_id: vote_round_id@, operator_id: operator_id@, reserves_id: reserves_id@, sequence_number: *sequence_number, state_hash: state_hash@, claimed_reserves: *claimed_reserves, collateral_amounts: collateral_amounts@, reserves_outpoint: reserves_outpoint@, destination_script: destination_script@, fee_rate_sat_vbyte: *fee_rate_sat_vbyte, timestamp: *timestamp },
            CoordinationMsg::QuorumVote { vote_round_id, voter_pubkey, vote, voter_sequence, voter_state_hash, evidence, signature, spend_signature } => CoordinationMsgView::QuorumVote { vote_round_id: vote_round_id@, voter_pubkey: voter_pubkey@, vote: *vote, voter_sequence: *voter_sequence, voter_state_hash: voter_state_hash@, evidence: opt_vec(*evidence), signature: signature@, spend_signature: opt_bytes(*spend_signature) },
            CoordinationMsg::UpdateReserves { channel_id, reserves_sats, script_pubkey, ledger_hash, remote_ledger_hash } => CoordinationMsgView::UpdateReserves { channel_id: channel_id@, reserves_sats: *reserves_sats, script_pubkey: script_pubkey@, ledger_hash: ledger_hash@, remote_ledger_hash: remote_ledger_hash@ },
        }
    }
}

/// The fields of an encoded coordination message.
pub open spec fn coordination_fields(v: CoordinationMsgView) -> Map<u64, Seq<u8>> {
    match v {
        CoordinationMsgView::CosignInvoice { operator_id, reserves_id, amount, payment_hash, expires, assigned_deposit, invoice_id, bolt11_invoice } => {
            Map::empty().insert(COORD_DISCRIMINANT, seq![0u8]).insert(COORD_OPERATOR_ID, operator_id).insert(COORD_RESERVES_ID, encode_utf8(reserves_id)).insert(COORD_AMOUNT, u64_be(amount)).insert(COORD_PAYMENT_HASH, payment_hash).insert(COORD_EXPIRES, u64_be(expires)).insert(COORD_ASSIGNED_DEPOSIT, assigned_deposit).insert(COORD_INVOICE_ID, encode_utf8(invoice_id)).insert(COORD_BOLT11_INVOICE, encode_utf8(bolt11_invoice))
        },
        CoordinationMsgView::CollateralConsentRequest { operator_id, reserves_id, operator_signature } => {
            Map::empty().insert(COORD_DISCRIMINANT, seq![1u8]).insert(COORD_OPERATOR_ID, operator_id).insert(COORD_RESERVES_ID, encode_utf8(reserves_id)).insert(COORD_OPERATOR_SIGNATURE, operator_signature)
        },
        CoordinationMsgView::QuorumJoinRequest { requester_pubkey, operator_id, reserves_id, protocol_version, timestamp, signature, compensation_bps, compensation_deposit_id, compensation_frequency_blocks } => {
            put_opt(put_opt(put_opt(Map::empty().insert(COORD_DISCRIMINANT, seq![2u8]).insert(COORD_REQUESTER_PUBKEY, requester_pubkey).insert(COORD_OPERATOR_ID, operator_id).insert(COORD_RESERVES_ID, encode_utf8(reserves_id)).insert(COORD_PROTOCOL_VERSION, u16_be(protocol_version)).insert(COORD_TIMESTAMP, u64_be(timestamp)).insert(COORD_SIGNATURE, signature), COORD_COMPENSATION_BPS, opt_u16_bytes(compensation_bps)), COORD_COMPENSATION_DEPOSIT_ID, compensation_deposit_id), COORD_COMPENSATION_FREQUENCY_BLOCKS, opt_u32_bytes(compensation_frequency_blocks))
        },
        CoordinationMsgView::QuorumVoteRequest { vote_round_id, operator_id, reserves_id, sequence_number, state_hash, claimed_reserves, collateral_amounts, reserves_outpoint, destination_script, fee_rate_sat_vbyte, timestamp } => {
            Map::empty().insert(COORD_DISCRIMINANT, seq![3u8]).insert(COORD_VOTE_ROUND_ID, vote_round_id).insert(COORD_OPERATOR_ID, operator_id).insert(COORD_RESERVES_ID, encode_utf8(reserves_id)).insert(COORD_SEQUENCE_NUMBER, u64_be(sequence_number)).insert(COORD_STATE_HASH, state_hash).insert(COORD_CLAIMED_RESERVES, u64_be(claimed_reserves)).insert(COORD_COLLATERAL_AMOUNTS, u64s_be(collateral_amounts)).insert(COORD_RESERVES_OUTPOINT, reserves_outpoint).insert(COORD_DESTINATION_SCRIPT, destination_script).insert(COORD_FEE_RATE_SAT_VBYTE, u64_be(fee_rate_sat_vbyte)).insert(COORD_TIMESTAMP, u64_be(timestamp))
        },
        CoordinationMsgView::QuorumVote { vote_round_id, voter_pubkey, vote, voter_sequence, voter_state_hash, evidence, signature, spend_signature } => {
            put_opt(put_opt(Map::empty().insert(COORD_DISCRIMINANT, seq![4u8]).insert(COORD_VOTE_ROUND_ID, vote_round_id).insert(COORD_VOTER_PUBKEY, voter_pubkey).insert(COORD_VOTE, seq![if vote { 1u8 } else { 0u8 }]).insert(COORD_VOTER_SEQUENCE, u64_be(voter_sequence)).insert(COORD_VOTER_STATE_HASH, voter_state_hash), COORD_EVIDENCE, evidence).insert(COORD_SIGNATURE, signature), COORD_SPEND_SIGNATURE, spend_signature)
        },
        CoordinationMsgView::UpdateReserves { channel_id, reserves_sats, script_pubkey, ledger_hash, remote_ledger_hash } => {
            Map::empty().insert(COORD_DISCRIMINANT, seq![5u8]).insert(COORD_CHANNEL_ID, channel_id).insert(COORD_RESERVES_SATS, u64_be(reserves_sats)).insert(COORD_SCRIPT_PUBKEY, script_pubkey).insert(COORD_LEDGER_HASH, ledger_hash).insert(COORD_REMOTE_LEDGER_HASH, remote_ledger_hash)
        },
    }
}

/// The `CosignInvoice` message held by decoded fields: its fields read in order, the
/// first failure reported.
pub open spec fn coord_cosign_invoice_from_fields(m: Map<u64, Seq<u8>>) -> Result<CoordinationMsgView, StreamFault> {
    match required(m, COORD_OPERATOR_ID, |d: Seq<u8>| pubkey_of(d)) {
        Err(e) => Err(e),
        Ok(x_operator_id) => 
        match required(m, COORD_RESERVES_ID, |d: Seq<u8>| string_of(d)) {
            Err(e) => Err(e),
            Ok(x_reserves_id) => 
            match required(m, COORD_AMOUNT, |d: Seq<u8>| u64_of(d)) {
                Err(e) => Err(e),
                Ok(x_amount) => 
                match required(m, COORD_PAYMENT_HASH, |d: Seq<u8>| bytes_of(d, 32)) {
                    Err(e) => Err(e),
                    Ok(x_payment_hash) => 
                    match required(m, COORD_EXPIRES, |d: Seq<u8>| u64_of(d)) {
                        Err(e) => Err(e),
                        Ok(x_expires) => 
                        match required(m, COORD_ASSIGNED_DEPOSIT, |d: Seq<u8>| pubkey_of(d)) {
                            Err(e) => Err(e),
                            Ok(x_assigned_deposit) => 
                            match required(m, COORD_INVOICE_ID, |d: Seq<u8>| string_of(d)) {
                                Err(e) => Err(e),
                                Ok(x_invoice_id) => 
                                match required(m, COORD_BOLT11_INVOICE, |d: Seq<u8>| string_of(d)) {
                                    Err(e) => Err(e),
                                    Ok(x_bolt11_invoice) => 
                                    Ok(CoordinationMsgView::CosignInvoice { operator_id: x_operator_id, reserves_id: x_reserves_id, amount: x_amount, payment_hash: x_payment_hash, expires: x_expires, assigned_deposit: x_assigned_deposit, invoice_id: x_invoice_id, bolt11_invoice: x_bolt11_invoice }),
                                },
                            },
                        },
                    },
                },
            },
        },
    }
}

/// The `CollateralConsentRequest` message held by decoded fields: its fields read in order, the
/// first failure reported.
pub open spec fn coord_collateral_consent_request_from_fields(m: Map<u64, Seq<u8>>) -> Result<CoordinationMsgView, StreamFault> {
    match required(m, COORD_OPERATOR_ID, |d: Seq<u8>| pubkey_of(d)) {
        Err(e) => Err(e),
        Ok(x_operator_id) => 
        match required(m, COORD_RESERVES_ID, |d: Seq<u8>| string_of(d)) {
            Err(e) => Err(e),
            Ok(x_reserves_id) => 
            match required(m, COORD_OPERATOR_SIGNATURE, |d: Seq<u8>| bytes_of(d, 64)) {
                Err(e) => Err(e),
                Ok(x_operator_signature) => 
                Ok(CoordinationMsgView::CollateralConsentRequest { operator_id: x_operator_id, reserves_id: x_reserves_id, operator_signature: x_operator_signature }),
            },
        },
    }
}

/// The `QuorumJoinRequest` message held by decoded fields: its fields read in order, the
/// first failure reported.
pub open spec fn coord_quorum_join_request_from_fields(m: Map<u64, Seq<u8>>) -> Result<CoordinationMsgView, StreamFault> {
    match required(m, COORD_REQUESTER_PUBKEY, |d: Seq<u8>| pubkey_of(d)) {
        Err(e) => Err(e),
        Ok(x_requester_pubkey) => 
        match required(m, COORD_OPERATOR_ID, |d: Seq<u8>| pubkey_of(d)) {
            Err(e) => Err(e),
            Ok(x_operator_id) => 
            match required(m, COORD_RESERVES_ID, |d: Seq<u8>| string_of(d)) {
                Err(e) => Err(e),
                Ok(x_reserves_id) => 
                match required(m, COORD_PROTOCOL_VERSION, |d: Seq<u8>| u16_of(d)) {
                    Err(e) => Err(e),
                    Ok(x_protocol_version) => 
                    match required(m, COORD_TIMESTAMP, |d: Seq<u8>| u64_of(d)) {
                        Err(e) => Err(e),
                        Ok(x_timestamp) => 
                        match required(m, COORD_SIGNATURE, |d: Seq<u8>| bytes_of(d, 64)) {
                            Err(e) => Err(e),
                            Ok(x_signature) => 
                            match optional(m, COORD_COMPENSATION_BPS, |d: Seq<u8>| u16_of(d)) {
                                Err(e) => Err(e),
                                Ok(x_compensation_bps) => 
                                match optional(m, COORD_COMPENSATION_DEPOSIT_ID, |d: Seq<u8>| deposit_id_of(d, COORD_COMPENSATION_DEPOSIT_ID)) {
                                    Err(e) => Err(e),
                                    Ok(x_compensation_deposit_id) => 
                                    match optional(m, COORD_COMPENSATION_FREQUENCY_BLOCKS, |d: Seq<u8>| u32_of(d)) {
                                        Err(e) => Err(e),
                                        Ok(x_compensation_frequency_blocks) => 
                                        Ok(CoordinationMsgView::QuorumJoinRequest { requester_pubkey: x_requester_pubkey, operator_id: x_operator_id, reserves_id: x_reserves_id, protocol_version: x_protocol_version, timestamp: x_timestamp, signature: x_signature, compensation_bps: x_compensation_bps, compensation_deposit_id: x_compensation_deposit_id, compensation_frequency_blocks: x_compensation_frequency_blocks }),
                                    },
                                },
                            },
                        },
                    },
                },
            },
        },
    }
}

/// The `QuorumVoteRequest` message held by decoded fields: its fields read in order, the
/// first failure reported.
pub open spec fn coord_quorum_vote_request_from_fields(m: Map<u64, Seq<u8>>) -> Result<CoordinationMsgView, StreamFault> {
    match required(m, COORD_COLLATERAL_AMOUNTS, |d: Seq<u8>| raw_of(d)) {
        Err(e) => Err(e),
        Ok(x_collateral_amounts) => 
        match required(m, COORD_VOTE_ROUND_ID, |d: Seq<u8>| bytes_of(d, 32)) {
            Err(e) => Err(e),
            Ok(x_vote_round_id) => 
            match required(m, COORD_OPERATOR_ID, |d: Seq<u8>| pubkey_of(d)) {
                Err(e) => Err(e),
                Ok(x_operator_id) => 
                match required(m, COORD_RESERVES_ID, |d: Seq<u8>| string_of(d)) {
                    Err(e) => Err(e),
                    Ok(x_reserves_id) => 
                    match required(m, COORD_SEQUENCE_NUMBER, |d: Seq<u8>| u64_of(d)) {
                        Err(e) => Err(e),
                        Ok(x_sequence_number) => 
                        match required(m, COORD_STATE_HASH, |d: Seq<u8>| bytes_of(d, 32)) {
                            Err(e) => Err(e),
                            Ok(x_state_hash) => 
                            match required(m, COORD_CLAIMED_RESERVES, |d: Seq<u8>| u64_of(d)) {
                                Err(e) => Err(e),
                                Ok(x_claimed_reserves) => 
                                match required(m, COORD_RESERVES_OUTPOINT, |d: Seq<u8>| raw_of(d)) {
                                    Err(e) => Err(e),
                                    Ok(x_reserves_outpoint) => 
                                    match required(m, COORD_DESTINATION_SCRIPT, |d: Seq<u8>| raw_of(d)) {
                                        Err(e) => Err(e),
                                        Ok(x_destination_script) => 
                                        match required(m, COORD_FEE_RATE_SAT_VBYTE, |d: Seq<u8>| u64_of(d)) {
                                            Err(e) => Err(e),
                                            Ok(x_fee_rate_sat_vbyte) => 
                                            match required(m, COORD_TIMESTAMP, |d: Seq<u8>| u64_of(d)) {
                                                Err(e) => Err(e),
                                                Ok(x_timestamp) => 
                                                Ok(CoordinationMsgView::QuorumVoteRequest { vote_round_id: x_vote_round_id, operator_id: x_operator_id, reserves_id: x_reserves_id, sequence_number: x_sequence_number, state_hash: x_state_hash, claimed_reserves: x_claimed_reserves, collateral_amounts: u64s_of(x_collateral_amounts), reserves_outpoint: x_reserves_outpoint, destination_script: x_destination_script, fee_rate_sat_vbyte: x_fee_rate_sat_vbyte, timestamp: x_timestamp }),
                                            },
                                        },
                                    },
                                },
                            },
                        },
                    },
                },
            },
        },
    }
}

/// The `QuorumVote` message held by decoded fields: its fields read in order, the
/// first failure reported.
pub open spec fn coord_quorum_vote_from_fields(m: Map<u64, Seq<u8>>) -> Result<CoordinationMsgView, StreamFault> {
    match required(m, COORD_VOTE_ROUND_ID, |d: Seq<u8>| bytes_of(d, 32)) {
        Err(e) => Err(e),
        Ok(x_vote_round_id) => 
        match required(m, COORD_VOTER_PUBKEY, |d: Seq<u8>| pubkey_of(d)) {
            Err(e) => Err(e),
            Ok(x_voter_pubkey) => 
            match required(m, COORD_VOTE, |d: Seq<u8>| u8_of(d)) {
                Err(e) => Err(e),
                Ok(x_vote) => 
                match required(m, COORD_VOTER_SEQUENCE, |d: Seq<u8>| u64_of(d)) {
                    Err(e) => Err(e),
                    Ok(x_voter_sequence) => 
                    match required(m, COORD_VOTER_STATE_HASH, |d: Seq<u8>| bytes_of(d, 32)) {
                        Err(e) => Err(e),
                        Ok(x_voter_state_hash) => 
                        match optional(m, COORD_EVIDENCE, |d: Seq<u8>| raw_of(d)) {
                            Err(e) => Err(e),
                            Ok(x_evidence) => 
                            match required(m, COORD_SIGNATURE, |d: Seq<u8>| bytes_of(d, 64)) {
                                Err(e) => Err(e),
                                Ok(x_signature) => 
                                match optional(m, COORD_SPEND_SIGNATURE, |d: Seq<u8>| bytes_of(d, 64)) {
                                    Err(e) => Err(e),
                                    Ok(x_spend_signature) => 
                                    Ok(CoordinationMsgView::QuorumVote { vote_round_id: x_vote_round_id, voter_pubkey: x_voter_pubkey, vote: x_vote != 0, voter_sequence: x_voter_sequence, voter_state_hash: x_voter_state_hash, evidence: x_evidence, signature: x_signature, spend_signature: x_spend_signature }),
                                },
                            },
                        },
                    },
                },
            },
        },
    }
}

/// The `UpdateReserves` message held by decoded fields: its fields read in order, the
/// first failure reported.
pub open spec fn coord_update_reserves_from_fields(m: Map<u64, Seq<u8>>) -> Result<CoordinationMsgView, StreamFault> {
    match required(m, COORD_CHANNEL_ID, |d: Seq<u8>| bytes_of(d, 32)) {
        Err(e) => Err(e),
        Ok(x_channel_id) => 
        match required(m, COORD_RESERVES_SATS, |d: Seq<u8>| u64_of(d)) {
            Err(e) => Err(e),
            Ok(x_reserves_sats) => 
            match required(m, COORD_SCRIPT_PUBKEY, |d: Seq<u8>| raw_of(d)) {
                Err(e) => Err(e),
                Ok(x_script_pubkey) => 
                match required(m, COORD_LEDGER_HASH, |d: Seq<u8>| bytes_of(d, 32)) {
                    Err(e) => Err(e),
                    Ok(x_ledger_hash) => 
                    match required(m, COORD_REMOTE_LEDGER_HASH, |d: Seq<u8>| bytes_of(d, 32)) {
                        Err(e) => Err(e),
                        Ok(x_remote_ledger_hash) => 
                        Ok(CoordinationMsgView::UpdateReserves { channel_id: x_channel_id, reserves_sats: x_reserves_sats, script_pubkey: x_script_pubkey, ledger_hash: x_ledger_hash, remote_ledger_hash: x_remote_ledger_hash }),
                    },
                },
            },
        },
    }
}

/// The coordination message held by decoded fields.
pub open spec fn coordination_from_fields(m: Map<u64, Seq<u8>>) -> Result<CoordinationMsgView, StreamFault> {
    match required(m, COORD_DISCRIMINANT, |d: Seq<u8>| u8_of(d)) {
        Err(e) => Err(e),
        Ok(disc) => {
            if disc == 0 {
                coord_cosign_invoice_from_fields(m)
            } else if disc == 1 {
                coord_collateral_consent_request_from_fields(m)
            } else if disc == 2 {
                coord_quorum_join_request_from_fields(m)
            } else if disc == 3 {
                coord_quorum_vote_request_from_fields(m)
            } else if disc == 4 {
                coord_quorum_vote_from_fields(m)
            } else if disc == 5 {
                coord_update_reserves_from_fields(m)
            } else {
                Err(invalid_fault(COORD_DISCRIMINANT, "unknown CoordinationMsg discriminant: "@ + decimal_digits(disc as nat)))
            }
        },
    }
}

impl TlvEncode for CoordinationMsg {
    open spec fn tlv_bytes(&self) -> Seq<u8> {
        map_bytes(coordination_fields(self@))
    }

    fn tlv_encode(&self) -> (r: Vec<u8>) {
        proof {
            reveal(put_opt);
        }
        match self {
            CoordinationMsg::CosignInvoice { operator_id, reserves_id, amount, payment_hash, expires, assigned_deposit, invoice_id, bolt11_invoice } => {
                let mut b = TlvBuilder::new().u8_field(COORD_DISCRIMINANT, 0);
                b = b.pubkey_field(COORD_OPERATOR_ID, operator_id);
                b = b.string_field(COORD_RESERVES_ID, reserves_id.as_str());
                b = b.u64_field(COORD_AMOUNT, *amount);
                b = b.bytes_field(COORD_PAYMENT_HASH, payment_hash.as_slice());
                b = b.u64_field(COORD_EXPIRES, *expires);
                b = b.pubkey_field(COORD_ASSIGNED_DEPOSIT, assigned_deposit);
                b = b.string_field(COORD_INVOICE_ID, invoice_id.as_str());
                b = b.string_field(COORD_BOLT11_INVOICE, bolt11_invoice.as_str());
                assert(b@ =~= coordination_fields(self@));
                b.build()
            },
            CoordinationMsg::CollateralConsentRequest { operator_id, reserves_id, operator_signature } => {
                let mut b = TlvBuilder::new().u8_field(COORD_DISCRIMINANT, 1);
                b = b.pubkey_field(COORD_OPERATOR_ID, operator_id);
                b = b.string_field(COORD_RESERVES_ID, reserves_id.as_str());
                b = b.bytes_field(COORD_OPERATOR_SIGNATURE, operator_signature.as_slice());
                assert(b@ =~= coordination_fields(self@));
                b.build()
            },
            CoordinationMsg::QuorumJoinRequest { requester_pubkey, operator_id, reserves_id, protocol_version, timestamp, signature, compensation_bps, compensation_deposit_id, compensation_frequency_blocks } => {
                let mut b = TlvBuilder::new().u8_field(COORD_DISCRIMINANT, 2);
                b = b.pubkey_field(COORD_REQUESTER_PUBKEY, requester_pubkey);
                b = b.pubkey_field(COORD_OPERATOR_ID, operator_id);
                b = b.string_field(COORD_RESERVES_ID, reserves_id.as_str());
                b = b.u16_field(COORD_PROTOCOL_VERSION, *protocol_version);
                b = b.u64_field(COORD_TIMESTAMP, *timestamp);
                b = b.bytes_field(COORD_SIGNATURE, signature.as_slice());
                b = match compensation_bps { Some(v) => b.u16_field(COORD_COMPENSATION_BPS, *v), None => b };
                b = match compensation_deposit_id { Some(v) => b.deposit_id_field(COORD_COMPENSATION_DEPOSIT_ID, v), None => b };
                b = match compensation_frequency_blocks { Some(v) => b.u32_field(COORD_COMPENSATION_FREQUENCY_BLOCKS, *v), None => b };
                assert(b@ =~= coordination_fields(self@));
                b.build()
            },
            CoordinationMsg::QuorumVoteRequest { vote_round_id, operator_id, reserves_id, sequence_number, state_hash, claimed_reserves, collateral_amounts, reserves_outpoint, destination_script, fee_rate_sat_vbyte, timestamp } => {
                let mut b = TlvBuilder::new().u8_field(COORD_DISCRIMINANT, 3);
                b = b.bytes_field(COORD_VOTE_ROUND_ID, vote_round_id.as_slice());
                b = b.pubkey_field(COORD_OPERATOR_ID, operator_id);
                b = b.string_field(COORD_RESERVES_ID, reserves_id.as_str());
                b = b.u64_field(COORD_SEQUENCE_NUMBER, *sequence_number);
                b = b.bytes_field(COORD_STATE_HASH, state_hash.as_slice());
                b = b.u64_field(COORD_CLAIMED_RESERVES, *claimed_reserves);
                b = b.bytes_field(COORD_COLLATERAL_AMOUNTS, u64s_encoded(collateral_amounts).as_slice());
                b = b.bytes_field(COORD_RESERVES_OUTPOINT, reserves_outpoint.as_slice());
                b = b.bytes_field(COORD_DESTINATION_SCRIPT, destination_script.as_slice());
                b = b.u64_field(COORD_FEE_RATE_SAT_VBYTE, *fee_rate_sat_vbyte);
                b = b.u64_field(COORD_TIMESTAMP, *timestamp);
                assert(b@ =~= coordination_fields(self@));
                b.build()
            },
            CoordinationMsg::QuorumVote { vote_round_id, voter_pubkey, vote, voter_sequence, voter_state_hash, evidence, signature, spend_signature } => {
                let mut b = TlvBuilder::new().u8_field(COORD_DISCRIMINANT, 4);
                b = b.bytes_field(COORD_VOTE_ROUND_ID, vote_round_id.as_slice());
                b = b.pubkey_field(COORD_VOTER_PUBKEY, voter_pubkey);
                b = b.u8_field(COORD_VOTE, if *vote { 1 } else { 0 });
                b = b.u64_field(COORD_VOTER_SEQUENCE, *voter_sequence);
                b = b.bytes_field(COORD_VOTER_STATE_HASH, voter_state_hash.as_slice());
                b = match evidence { Some(v) => b.bytes_field(COORD_EVIDENCE, v.as_slice()), None => b };
                b = b.bytes_field(COORD_SIGNATURE, signature.as_slice());
                b = match spend_signature { Some(v) => b.bytes_field(COORD_SPEND_SIGNATURE, v.as_slice()), None => b };
                assert(b@ =~= coordination_fields(self@));
                b.build()
            },
            CoordinationMsg::UpdateReserves { channel_id, reserves_sats, script_pubkey, ledger_hash, remote_ledger_hash } => {
                let mut b = TlvBuilder::new().u8_field(COORD_DISCRIMINANT, 5);
                b = b.bytes_field(COORD_CHANNEL_ID, channel_id.as_slice());
                b = b.u64_field(COORD_RESERVES_SATS, *reserves_sats);
                b = b.bytes_field(COORD_SCRIPT_PUBKEY, script_pubkey.as_slice());
                b = b.bytes_field(COORD_LEDGER_HASH, ledger_hash.as_slice());
                b = b.bytes_field(COORD_REMOTE_LEDGER_HASH, remote_ledger_hash.as_slice());
                assert(b@ =~= coordination_fields(self@));
                b.build()
            },
        }
    }
}

fn decode_coord_cosign_invoice(reader: &TlvReader) -> (r: TlvResult<CoordinationMsg>)
    ensures
        outcome_view(r, coord_cosign_invoice_from_fields(reader@)),
{
    let x_operator_id = match reader.read_pubkey(COORD_OPERATOR_ID) { Ok(v) => v, Err(e) => { return Err(e); } };
    let operator_id = x_operator_id;
    let x_reserves_id = match reader.read_string(COORD_RESERVES_ID) { Ok(v) => v, Err(e) => { return Err(e); } };
    let reserves_id = x_reserves_id;
    let x_amount = match reader.read_u64(COORD_AMOUNT) { Ok(v) => v, Err(e) => { return Err(e); } };
    let amount = x_amount;
    let x_payment_hash = match reader.read_bytes::<32>(COORD_PAYMENT_HASH) { Ok(v) => v, Err(e) => { return Err(e); } };
    let payment_hash = x_payment_hash;
    let x_expires = match reader.read_u64(COORD_EXPIRES) { Ok(v) => v, Err(e) => { return Err(e); } };
    let expires = x_expires;
    let x_assigned_deposit = match reader.read_pubkey(COORD_ASSIGNED_DEPOSIT) { Ok(v) => v, Err(e) => { return Err(e); } };
    let assigned_deposit = x_assigned_deposit;
    let x_invoice_id = match reader.read_string(COORD_INVOICE_ID) { Ok(v) => v, Err(e) => { return Err(e); } };
    let invoice_id = x_invoice_id;
    let x_bolt11_invoice = match reader.read_string(COORD_BOLT11_INVOICE) { Ok(v) => v, Err(e) => { return Err(e); } };
    let bolt11_invoice = x_bolt11_invoice;
    Ok(CoordinationMsg::CosignInvoice { operator_id, reserves_id, amount, payment_hash, expires, assigned_deposit, invoice_id, bolt11_invoice })
}

fn decode_coord_collateral_consent_request(reader: &TlvReader) -> (r: TlvResult<CoordinationMsg>)
    ensures
        outcome_view(r, coord_collateral_consent_request_from_fields(reader@)),
{
    let x_operator_id = match reader.read_pubkey(COORD_OPERATOR_ID) { Ok(v) => v, Err(e) => { return Err(e); } };
    let operator_id = x_operator_id;
    let x_reserves_id = match reader.read_string(COORD_RESERVES_ID) { Ok(v) => v, Err(e) => { return Err(e); } };
    let reserves_id = x_reserves_id;
    let x_operator_signature = match reader.read_bytes::<64>(COORD_OPERATOR_SIGNATURE) { Ok(v) => v, Err(e) => { return Err(e); } };
    let operator_signature = x_operator_signature;
    Ok(CoordinationMsg::CollateralConsentRequest { operator_id, reserves_id, operator_signature })
}

fn decode_coord_quorum_join_request(reader: &TlvReader) -> (r: TlvResult<CoordinationMsg>)
    ensures
        outcome_view(r, coord_quorum_join_request_from_fields(reader@)),
{
    let x_requester_pubkey = match reader.read_pubkey(COORD_REQUESTER_PUBKEY) { Ok(v) => v, Err(e) => { return Err(e); } };
    let requester_pubkey = x_requester_pubkey;
    let x_operator_id = match reader.read_pubkey(COORD_OPERATOR_ID) { Ok(v) => v, Err(e) => { return Err(e); } };
    let operator_id = x_operator_id;
    let x_reserves_id = match reader.read_string(COORD_RESERVES_ID) { Ok(v) => v, Err(e) => { return Err(e); } };
    let reserves_id = x_reserves_id;
    let x_protocol_version = match reader.read_u16(COORD_PROTOCOL_VERSION) { Ok(v) => v, Err(e) => { return Err(e); } };
    let protocol_version = x_protocol_version;
    let x_timestamp = match reader.read_u64(COORD_TIMESTAMP) { Ok(v) => v, Err(e) => { return Err(e); } };
    let timestamp = x_timestamp;
    let x_signature = match reader.read_bytes::<64>(COORD_SIGNATURE) { Ok(v) => v, Err(e) => { return Err(e); } };
    let signature = x_signature;
    let x_compensation_bps = match reader.read_u16_opt(COORD_COMPENSATION_BPS) { Ok(v) => v, Err(e) => { return Err(e); } };
    let compensation_bps = x_compensation_bps;
    let x_compensation_deposit_id = match reader.read_deposit_id_opt(COORD_COMPENSATION_DEPOSIT_ID) { Ok(v) => v, Err(e) => { return Err(e); } };
    let compensation_deposit_id = x_compensation_deposit_id;
    let x_compensation_frequency_blocks = match reader.read_u32_opt(COORD_COMPENSATION_FREQUENCY_BLOCKS) { Ok(v) => v, Err(e) => { return Err(e); } };
    let compensation_frequency_blocks = x_compensation_frequency_blocks;
    Ok(CoordinationMsg::QuorumJoinRequest { requester_pubkey, operator_id, reserves_id, protocol_version, timestamp, signature, compensation_bps, compensation_deposit_id, compensation_frequency_blocks })
}

fn decode_coord_quorum_vote_request(reader: &TlvReader) -> (r: TlvResult<CoordinationMsg>)
    ensures
        outcome_view(r, coord_quorum_vote_request_from_fields(reader@)),
{
    let x_collateral_amounts = match reader.read_raw(COORD_COLLATERAL_AMOUNTS) { Ok(v) => v, Err(e) => { return Err(e); } };
    let collateral_amounts = u64s_decoded(x_collateral_amounts);
    let x_vote_round_id = match reader.read_bytes::<32>(COORD_VOTE_ROUND_ID) { Ok(v) => v, Err(e) => { return Err(e); } };
    let vote_round_id = x_vote_round_id;
    let x_operator_id = match reader.read_pubkey(COORD_OPERATOR_ID) { Ok(v) => v, Err(e) => { return Err(e); } };
    let operator_id = x_operator_id;
    let x_reserves_id = match reader.read_string(COORD_RESERVES_ID) { Ok(v) => v, Err(e) => { return Err(e); } };
    let reserves_id = x_reserves_id;
    let x_sequence_number = match reader.read_u64(COORD_SEQUENCE_NUMBER) { Ok(v) => v, Err(e) => { return Err(e); } };
    let sequence_number = x_sequence_number;
    let x_state_hash = match reader.read_bytes::<32>(COORD_STATE_HASH) { Ok(v) => v, Err(e) => { return Err(e); } };
    let state_hash = x_state_hash;
    let x_claimed_reserves = match reader.read_u64(COORD_CLAIMED_RESERVES) { Ok(v) => v, Err(e) => { return Err(e); } };
    let claimed_reserves = x_claimed_reserves;
    let x_reserves_outpoint = match reader.read_raw(COORD_RESERVES_OUTPOINT) { Ok(v) => v, Err(e) => { return Err(e); } };
    let reserves_outpoint = copy_range(x_reserves_outpoint, 0, x_reserves_outpoint.len());
    assert(reserves_outpoint@ =~= x_reserves_outpoint@);
    let x_destination_script = match reader.read_raw(COORD_DESTINATION_SCRIPT) { Ok(v) => v, Err(e) => { return Err(e); } };
    let destination_script = copy_range(x_destination_script, 0, x_destination_script.len());
    assert(destination_script@ =~= x_destination_script@);
    let x_fee_rate_sat_vbyte = match reader.read_u64(COORD_FEE_RATE_SAT_VBYTE) { Ok(v) => v, Err(e) => { return Err(e); } };
    let fee_rate_sat_vbyte = x_fee_rate_sat_vbyte;
    let x_timestamp = match reader.read_u64(COORD_TIMESTAMP) { Ok(v) => v, Err(e) => { return Err(e); } };
    let timestamp = x_timestamp;
    Ok(CoordinationMsg::QuorumVoteRequest { vote_round_id, operator_id, reserves_id, sequence_number, state_hash, claimed_reserves, collateral_amounts, reserves_outpoint, destination_script, fee_rate_sat_vbyte, timestamp })
}

fn decode_coord_quorum_vote(reader: &TlvReader) -> (r: TlvResult<CoordinationMsg>)
    ensures
        outcome_view(r, coord_quorum_vote_from_fields(reader@)),
{
    let x_vote_round_id = match reader.read_bytes::<32>(COORD_VOTE_ROUND_ID) { Ok(v) => v, Err(e) => { return Err(e); } };
    let vote_round_id = x_vote_round_id;
    let x_voter_pubkey = match reader.read_pubkey(COORD_VOTER_PUBKEY) { Ok(v) => v, Err(e) => { return Err(e); } };
    let voter_pubkey = x_voter_pubkey;
    let x_vote = match reader.read_u8(COORD_VOTE) { Ok(v) => v, Err(e) => { return Err(e); } };
    let vote = x_vote != 0;
    let x_voter_sequence = match reader.read_u64(COORD_VOTER_SEQUENCE) { Ok(v) => v, Err(e) => { return Err(e); } };
    let voter_sequence = x_voter_sequence;
    let x_voter_state_hash = match reader.read_bytes::<32>(COORD_VOTER_STATE_HASH) { Ok(v) => v, Err(e) => { return Err(e); } };
    let voter_state_hash = x_voter_state_hash;
    let evidence: Option<Vec<u8>> = match reader.read_raw_opt(COORD_EVIDENCE) { Some(d) => Some(copy_range(d, 0, d.len())), None => None };
    assert(evidence matches Some(x) ==> x@ =~= reader@[COORD_EVIDENCE]);
    let x_signature = match reader.read_bytes::<64>(COORD_SIGNATURE) { Ok(v) => v, Err(e) => { return Err(e); } };
    let signature = x_signature;
    let x_spend_signature = match reader.read_bytes_opt::<64>(COORD_SPEND_SIGNATURE) { Ok(v) => v, Err(e) => { return Err(e); } };
    let spend_signature = x_spend_signature;
    Ok(CoordinationMsg::QuorumVote { vote_round_id, voter_pubkey, vote, voter_sequence, voter_state_hash, evidence, signature, spend_signature })
}

fn decode_coord_update_reserves(reader: &TlvReader) -> (r: TlvResult<CoordinationMsg>)
    ensures
        outcome_view(r, coord_update_reserves_from_fields(reader@)),
{
    let x_channel_id = match reader.read_bytes::<32>(COORD_CHANNEL_ID) { Ok(v) => v, Err(e) => { return Err(e); } };
    let channel_id = x_channel_id;
    let x_reserves_sats = match reader.read_u64(COORD_RESERVES_SATS) { Ok(v) => v, Err(e) => { return Err(e); } };
    let reserves_sats = x_reserves_sats;
    let x_script_pubkey = match reader.read_raw(COORD_SCRIPT_PUBKEY) { Ok(v) => v, Err(e) => { return Err(e); } };
    let script_pubkey = copy_range(x_script_pubkey, 0, x_script_pubkey.len());
    assert(script_pubkey@ =~= x_script_pubkey@);
    let x_ledger_hash = match reader.read_bytes::<32>(COORD_LEDGER_HASH) { Ok(v) => v, Err(e) => { return Err(e); } };
    let ledger_hash = x_ledger_hash;
    let x_remote_ledger_hash = match reader.read_bytes::<32>(COORD_REMOTE_LEDGER_HASH) { Ok(v) => v, Err(e) => { return Err(e); } };
    let remote_ledger_hash = x_remote_ledger_hash;
    Ok(CoordinationMsg::UpdateReserves { channel_id, reserves_sats, script_pubkey, ledger_hash, remote_ledger_hash })
}

impl TlvDecode for CoordinationMsg {
    open spec fn tlv_decodes(data: Seq<u8>, r: TlvResult<Self>) -> bool {
        outcome_view(r, parse_with(data, |m: Map<u64, Seq<u8>>| coordination_from_fields(m)))
    }

    fn tlv_decode(data: &[u8]) -> (r: TlvResult<Self>) {
        let reader = match TlvReader::new(data) { Ok(r) => r, Err(e) => { return Err(e); } };
        let disc = match reader.read_u8(COORD_DISCRIMINANT) { Ok(d) => d, Err(e) => { return Err(e); } };
        match disc {
            0 => decode_coord_cosign_invoice(&reader),
            1 => decode_coord_collateral_consent_request(&reader),
            2 => decode_coord_quorum_join_request(&reader),
            3 => decode_coord_quorum_vote_request(&reader),
            4 => decode_coord_quorum_vote(&reader),
            5 => decode_coord_update_reserves(&reader),
            d => {
                let reason = text_with_number("unknown CoordinationMsg discriminant: ", d as u64, "");
                proof {
                    reveal_strlit("");
                    assert(reason@ =~= "unknown CoordinationMsg discriminant: "@ + decimal_digits(d as nat));
                }
                Err(TlvError::InvalidFieldValue { field_type: COORD_DISCRIMINANT, reason })
            },
        }
    }
}

// ============================================================================
// Legacy binary encoding
// ============================================================================

/// An optional byte string behind its length.
pub open spec fn opt_prefixed(o: Option<Seq<u8>>) -> Option<Seq<u8>> {
    match o {
        Some(b) => Some(length_prefixed(b)),
        None => None,
    }
}

/// Reading an optional `u16`: a flag byte, then the value where it is set.
pub open spec fn rd_opt_u16(s: Seq<u8>) -> Read<Option<u16>> {
    let (flag, s1) = rd_u8(s);
    match flag {
        Err(e) => (Err(e), s1),
        Ok(b) => if b != 0 {
            let (v, s2) = rd_u16(s1);
            match v {
                Ok(v) => (Ok(Some(v)), s2),
                Err(e) => (Err(e), s2),
            }
        } else {
            (Ok(None), s1)
        },
    }
}

/// Reading an optional `u32`.
pub open spec fn rd_opt_u32(s: Seq<u8>) -> Read<Option<u32>> {
    let (flag, s1) = rd_u8(s);
    match flag {
        Err(e) => (Err(e), s1),
        Ok(b) => if b != 0 {
            let (v, s2) = rd_u32(s1);
            match v {
                Ok(v) => (Ok(Some(v)), s2),
                Err(e) => (Err(e), s2),
            }
        } else {
            (Ok(None), s1)
        },
    }
}

/// Reading an optional byte string.
pub open spec fn rd_opt_bytes(s: Seq<u8>) -> Read<Option<Seq<u8>>> {
    let (flag, s1) = rd_u8(s);
    match flag {
        Err(e) => (Err(e), s1),
        Ok(b) => if b != 0 {
            let (v, s2) = rd_bytes(s1);
            match v {
                Ok(v) => (Ok(Some(v)), s2),
                Err(e) => (Err(e), s2),
            }
        } else {
            (Ok(None), s1)
        },
    }
}

/// Reading `n` big-endian `u64`s.
pub open spec fn rd_u64s(s: Seq<u8>, n: nat) -> Read<Seq<u64>>
    decreases n,
{
    if n == 0 {
        (Ok(seq![]), s)
    } else {
        let (x, s1) = rd_u64(s);
        match x {
            Err(e) => (Err(e), s1),
            Ok(x) => {
                let (xs, s2) = rd_u64s(s1, (n - 1) as nat);
                match xs {
                    Ok(xs) => (Ok(seq![x] + xs), s2),
                    Err(e) => (Err(e), s2),
                }
            },
        }
    }
}

/// Reading a count as a `u32`, then that many `u64`s.
pub open spec fn rd_u64_vec(s: Seq<u8>) -> Read<Seq<u64>> {
    let (n, s1) = rd_u32(s);
    match n {
        Err(e) => (Err(e), s1),
        Ok(n) => rd_u64s(s1, n as nat),
    }
}

/// `r` with `out` in front of the values it read.
pub open spec fn after_u64s(out: Seq<u64>, r: Read<Seq<u64>>) -> Read<Seq<u64>> {
    match r.0 {
        Ok(xs) => (Ok(out + xs), r.1),
        Err(e) => (Err(e), r.1),
    }
}

fn write_opt_u16(w: &mut Vec<u8>, o: &Option<u16>)
    ensures
        final(w)@ == old(w)@ + option_bytes(opt_u16_bytes(*o)),
{
    match o {
        Some(v) => {
            write_u8(w, 1);
            write_u16(w, *v);
        },
        None => write_u8(w, 0),
    }
    assert(w@ =~= old(w)@ + option_bytes(opt_u16_bytes(*o)));
}

fn write_opt_u32(w: &mut Vec<u8>, o: &Option<u32>)
    ensures
        final(w)@ == old(w)@ + option_bytes(opt_u32_bytes(*o)),
{
    match o {
        Some(v) => {
            write_u8(w, 1);
            write_u32(w, *v);
        },
        None => write_u8(w, 0),
    }
    assert(w@ =~= old(w)@ + option_bytes(opt_u32_bytes(*o)));
}

fn write_opt_16(w: &mut Vec<u8>, o: &Option<[u8; 16]>)
    ensures
        final(w)@ == old(w)@ + option_bytes(opt_bytes(*o)),
{
    match o {
        Some(v) => {
            write_u8(w, 1);
            write_16(w, v);
        },
        None => write_u8(w, 0),
    }
    assert(w@ =~= old(w)@ + option_bytes(opt_bytes(*o)));
}

fn write_opt_64(w: &mut Vec<u8>, o: &Option<[u8; 64]>)
    ensures
        final(w)@ == old(w)@ + option_bytes(opt_bytes(*o)),
{
    match o {
        Some(v) => {
            write_u8(w, 1);
            write_64(w, v);
        },
        None => write_u8(w, 0),
    }
    assert(w@ =~= old(w)@ + option_bytes(opt_bytes(*o)));
}

fn write_opt_bytes(w: &mut Vec<u8>, o: &Option<Vec<u8>>)
    ensures
        final(w)@ == old(w)@ + option_bytes(opt_prefixed(opt_vec(*o))),
{
    match o {
        Some(v) => {
            write_u8(w, 1);
            write_bytes(w, v.as_slice());
        },
        None => write_u8(w, 0),
    }
    assert(w@ =~= old(w)@ + option_bytes(opt_prefixed(opt_vec(*o))));
}

fn write_u64_vec(w: &mut Vec<u8>, xs: &Vec<u64>)
    ensures
        final(w)@ == old(w)@ + u32_be(xs@.len() as u32) + u64s_be(xs@),
{
    write_u32(w, xs.len() as u32);
    let b = u64s_encoded(xs);
    extend_bytes(w, b.as_slice());
    assert(w@ =~= old(w)@ + u32_be(xs@.len() as u32) + u64s_be(xs@));
}

fn read_opt_u16(data: &[u8], pos: &mut usize) -> (r: Result<Option<u16>, CodecError>)
    requires
        *old(pos) <= data@.len(),
    ensures
        *final(pos) <= data@.len(),
        data@.skip(*final(pos) as int) == rd_opt_u16(data@.skip(*old(pos) as int)).1,
        read_is(r, rd_opt_u16(data@.skip(*old(pos) as int)).0),
{
    let flag = match read_u8(data, pos) {
        Ok(b) => b,
        Err(e) => {
            return Err(e);
        },
    };
    if flag != 0 {
        match read_u16(data, pos) {
            Ok(v) => Ok(Some(v)),
            Err(e) => Err(e),
        }
    } else {
        Ok(None)
    }
}

fn read_opt_u32(data: &[u8], pos: &mut usize) -> (r: Result<Option<u32>, CodecError>)
    requires
        *old(pos) <= data@.len(),
    ensures
        *final(pos) <= data@.len(),
        data@.skip(*final(pos) as int) == rd_opt_u32(data@.skip(*old(pos) as int)).1,
        read_is(r, rd_opt_u32(data@.skip(*old(pos) as int)).0),
{
    let flag = match read_u8(data, pos) {
        Ok(b) => b,
        Err(e) => {
            return Err(e);
        },
    };
    if flag != 0 {
        match read_u32(data, pos) {
            Ok(v) => Ok(Some(v)),
            Err(e) => Err(e),
        }
    } else {
        Ok(None)
    }
}

fn read_opt_16(data: &[u8], pos: &mut usize) -> (r: Result<Option<[u8; 16]>, CodecError>)
    requires
        *old(pos) <= data@.len(),
    ensures
        *final(pos) <= data@.len(),
        data@.skip(*final(pos) as int) == rd_option_exact(data@.skip(*old(pos) as int), 16).1,
        read_is(
            match r {
                Ok(o) => Ok(opt_bytes(o)),
                Err(e) => Err(e),
            },
            rd_option_exact(data@.skip(*old(pos) as int), 16).0,
        ),
{
    let flag = match read_u8(data, pos) {
        Ok(b) => b,
        Err(e) => {
            return Err(e);
        },
    };
    if flag != 0 {
        match read_16(data, pos) {
            Ok(v) => Ok(Some(v)),
            Err(e) => Err(e),
        }
    } else {
        Ok(None)
    }
}

fn read_opt_64(data: &[u8], pos: &mut usize) -> (r: Result<Option<[u8; 64]>, CodecError>)
    requires
        *old(pos) <= data@.len(),
    ensures
        *final(pos) <= data@.len(),
        data@.skip(*final(pos) as int) == rd_option_exact(data@.skip(*old(pos) as int), 64).1,
        read_is(
            match r {
                Ok(o) => Ok(opt_bytes(o)),
                Err(e) => Err(e),
            },
            rd_option_exact(data@.skip(*old(pos) as int), 64).0,
        ),
{
    let flag = match read_u8(data, pos) {
        Ok(b) => b,
        Err(e) => {
            return Err(e);
        },
    };
    if flag != 0 {
        match read_64(data, pos) {
            Ok(v) => Ok(Some(v)),
            Err(e) => Err(e),
        }
    } else {
        Ok(None)
    }
}

fn read_opt_bytes(data: &[u8], pos: &mut usize) -> (r: Result<Option<Vec<u8>>, CodecError>)
    requires
        *old(pos) <= data@.len(),
    ensures
        *final(pos) <= data@.len(),
        data@.skip(*final(pos) as int) == rd_opt_bytes(data@.skip(*old(pos) as int)).1,
        read_is(
            match r {
                Ok(o) => Ok(opt_vec(o)),
                Err(e) => Err(e),
            },
            rd_opt_bytes(data@.skip(*old(pos) as int)).0,
        ),
{
    let flag = match read_u8(data, pos) {
        Ok(b) => b,
        Err(e) => {
            return Err(e);
        },
    };
    if flag != 0 {
        match read_bytes(data, pos) {
            Ok(v) => Ok(Some(v)),
            Err(e) => Err(e),
        }
    } else {
        Ok(None)
    }
}

fn read_u64_vec(data: &[u8], pos: &mut usize) -> (r: Result<Vec<u64>, CodecError>)
    requires
        *old(pos) <= data@.len(),
    ensures
        *final(pos) <= data@.len(),
        data@.skip(*final(pos) as int) == rd_u64_vec(data@.skip(*old(pos) as int)).1,
        read_is_view(r, rd_u64_vec(data@.skip(*old(pos) as int)).0),
{
    let ghost s0 = data@.skip(*old(pos) as int);
    let n = match read_u32(data, pos) {
        Ok(n) => n,
        Err(e) => {
            return Err(e);
        },
    };
    let ghost s1 = data@.skip(*pos as int);
    let mut out: Vec<u64> = Vec::new();
    let mut i: u32 = 0;
    while i < n
        invariant
            i <= n,
            *pos <= data@.len(),
            s0 == data@.skip(*old(pos) as int),
            rd_u64_vec(s0) == after_u64s(out@, rd_u64s(data@.skip(*pos as int), (n - i) as nat)),
        decreases n - i,
    {
        let ghost cur = data@.skip(*pos as int);
        let x = match read_u64(data, pos) {
            Ok(x) => x,
            Err(e) => {
                return Err(e);
            },
        };
        proof {
            let rest = rd_u64s(data@.skip(*pos as int), (n - i - 1) as nat);
            match rest.0 {
                Ok(xs) => {
                    assert(out@ + (seq![x] + xs) =~= out@.push(x) + xs);
                },
                Err(_) => {},
            }
        }
        out.push(x);
        i = i + 1;
    }
    assert(out@ + Seq::<u64>::empty() =~= out@);
    Ok(out)
}

/// The legacy binary encoding of a coordination message: its kind byte,
/// then its fields in order.
pub open spec fn coordination_binary(v: CoordinationMsgView) -> Seq<u8> {
    match v {
        CoordinationMsgView::CosignInvoice { operator_id, reserves_id, amount, payment_hash, expires, assigned_deposit, invoice_id, bolt11_invoice } => seq![0u8] + operator_id + length_prefixed(encode_utf8(reserves_id)) + u64_be(amount) + payment_hash + u64_be(expires) + assigned_deposit + length_prefixed(encode_utf8(invoice_id)) + length_prefixed(encode_utf8(bolt11_invoice)),
        CoordinationMsgView::CollateralConsentRequest { operator_id, reserves_id, operator_signature } => seq![1u8] + operator_id + length_prefixed(encode_utf8(reserves_id)) + operator_signature,
        CoordinationMsgView::QuorumJoinRequest { requester_pubkey, operator_id, reserves_id, protocol_version, timestamp, signature, compensation_bps, compensation_deposit_id, compensation_frequency_blocks } => seq![2u8] + requester_pubkey + operator_id + length_prefixed(encode_utf8(reserves_id)) + u16_be(protocol_version) + u64_be(timestamp) + signature + option_bytes(opt_u16_bytes(compensation_bps)) + option_bytes(compensation_deposit_id) + option_bytes(opt_u32_bytes(compensation_frequency_blocks)),
        CoordinationMsgView::QuorumVoteRequest { vote_round_id, operator_id, reserves_id, sequence_number, state_hash, claimed_reserves, collateral_amounts, reserves_outpoint, destination_script, fee_rate_sat_vbyte, timestamp } => seq![3u8] + vote_round_id + operator_id + length_prefixed(encode_utf8(reserves_id)) + u64_be(sequence_number) + state_hash + u64_be(claimed_reserves) + u32_be(collateral_amounts.len() as u32) + u64s_be(collateral_amounts) + length_prefixed(reserves_outpoint) + length_prefixed(destination_script) + u64_be(fee_rate_sat_vbyte) + u64_be(timestamp),
        CoordinationMsgView::QuorumVote { vote_round_id, voter_pubkey, vote, voter_sequence, voter_state_hash, evidence, signature, spend_signature } => seq![4u8] + vote_round_id + voter_pubkey + seq![if vote { 1u8 } else { 0u8 }] + u64_be(voter_sequence) + voter_state_hash + option_bytes(opt_prefixed(evidence)) + signature + option_bytes(spend_signature),
        CoordinationMsgView::UpdateReserves { channel_id, reserves_sats, script_pubkey, ledger_hash, remote_ledger_hash } => seq![5u8] + channel_id + u64_be(reserves_sats) + length_prefixed(script_pubkey) + ledger_hash + remote_ledger_hash,
    }
}

/// Reading the fields of a `CosignInvoice` message in the legacy encoding.
pub open spec fn bin_read_coord_cosign_invoice(s: Seq<u8>) -> Read<CoordinationMsgView> {
    let (o_operator_id, s1) = rd_pubkey(s);
    match o_operator_id {
        Err(e) => (Err(e), s1),
        Ok(x_operator_id) => {
            let (o_reserves_id, s2) = rd_string(s1);
            match o_reserves_id {
                Err(e) => (Err(e), s2),
                Ok(x_reserves_id) => {
                    let (o_amount, s3) = rd_u64(s2);
                    match o_amount {
                        Err(e) => (Err(e), s3),
                        Ok(x_amount) => {
                            let (o_payment_hash, s4) = rd_exact(s3, 32);
                            match o_payment_hash {
                                Err(e) => (Err(e), s4),
                                Ok(x_payment_hash) => {
                                    let (o_expires, s5) = rd_u64(s4);
                                    match o_expires {
                                        Err(e) => (Err(e), s5),
                                        Ok(x_expires) => {
                                            let (o_assigned_deposit, s6) = rd_pubkey(s5);
                                            match o_assigned_deposit {
                                                Err(e) => (Err(e), s6),
                                                Ok(x_assigned_deposit) => {
                                                    let (o_invoice_id, s7) = rd_string(s6);
                                                    match o_invoice_id {
                                                        Err(e) => (Err(e), s7),
                                                        Ok(x_invoice_id) => {
                                                            let (o_bolt11_invoice, s8) = rd_string(s7);
                                                            match o_bolt11_invoice {
                                                                Err(e) => (Err(e), s8),
                                                                Ok(x_bolt11_invoice) => {
                                                                    (Ok(CoordinationMsgView::CosignInvoice { operator_id: x_operator_id, reserves_id: x_reserves_id, amount: x_amount, payment_hash: x_payment_hash, expires: x_expires, assigned_deposit: x_assigned_deposit, invoice_id: x_invoice_id, bolt11_invoice: x_bolt11_invoice }), s8)
                                                                },
                                                            }
                                                        },
                                                    }
                                                },
                                            }
                                        },
                                    }
                                },
                            }
                        },
                    }
                },
            }
        },
    }
}

/// Reading the fields of a `CollateralConsentRequest` message in the legacy encoding.
pub open spec fn bin_read_coord_collateral_consent_request(s: Seq<u8>) -> Read<CoordinationMsgView> {
    let (o_operator_id, s1) = rd_pubkey(s);
    match o_operator_id {
        Err(e) => (Err(e), s1),
        Ok(x_operator_id) => {
            let (o_reserves_id, s2) = rd_string(s1);
            match o_reserves_id {
                Err(e) => (Err(e), s2),
                Ok(x_reserves_id) => {
                    let (o_operator_signature, s3) = rd_exact(s2, 64);
                    match o_operator_signature {
                        Err(e) => (Err(e), s3),
                        Ok(x_operator_signature) => {
                            (Ok(CoordinationMsgView::CollateralConsentRequest { operator_id: x_operator_id, reserves_id: x_reserves_id, operator_signature: x_operator_signature }), s3)
                        },
                    }
                },
            }
        },
    }
}

/// Reading the fields of a `QuorumJoinRequest` message in the legacy encoding.
pub open spec fn bin_read_coord_quorum_join_request(s: Seq<u8>) -> Read<CoordinationMsgView> {
    let (o_requester_pubkey, s1) = rd_pubkey(s);
    match o_requester_pubkey {
        Err(e) => (Err(e), s1),
        Ok(x_requester_pubkey) => {
            let (o_operator_id, s2) = rd_pubkey(s1);
            match o_operator_id {
                Err(e) => (Err(e), s2),
                Ok(x_operator_id) => {
                    let (o_reserves_id, s3) = rd_string(s2);
                    match o_reserves_id {
                        Err(e) => (Err(e), s3),
                        Ok(x_reserves_id) => {
                            let (o_protocol_version, s4) = rd_u16(s3);
                            match o_protocol_version {
                                Err(e) => (Err(e), s4),
                                Ok(x_protocol_version) => {
                                    let (o_timestamp, s5) = rd_u64(s4);
                                    match o_timestamp {
                                        Err(e) => (Err(e), s5),
                                        Ok(x_timestamp) => {
                                            let (o_signature, s6) = rd_exact(s5, 64);
                                            match o_signature {
                                                Err(e) => (Err(e), s6),
                                                Ok(x_signature) => {
                                                    let (o_compensation_bps, s7) = rd_opt_u16(s6);
                                                    match o_compensation_bps {
                                                        Err(e) => (Err(e), s7),
                                                        Ok(x_compensation_bps) => {
                                                            let (o_compensation_deposit_id, s8) = rd_option_exact(s7, 16);
                                                            match o_compensation_deposit_id {
                                                                Err(e) => (Err(e), s8),
                                                                Ok(x_compensation_deposit_id) => {
                                                                    let (o_compensation_frequency_blocks, s9) = rd_opt_u32(s8);
                                                                    match o_compensation_frequency_blocks {
                                                                        Err(e) => (Err(e), s9),
                                                                        Ok(x_compensation_frequency_blocks) => {
                                                                            (Ok(CoordinationMsgView::QuorumJoinRequest { requester_pubkey: x_requester_pubkey, operator_id: x_operator_id, reserves_id: x_reserves_id, protocol_version: x_protocol_version, timestamp: x_timestamp, signature: x_signature, compensation_bps: x_compensation_bps, compensation_deposit_id: x_compensation_deposit_id, compensation_frequency_blocks: x_compensation_frequency_blocks }), s9)
                                                                        },
                                                                    }
                                                                },
                                                            }
                                                        },
                                                    }
                                                },
                                            }
                                        },
                                    }
                                },
                            }
                        },
                    }
                },
            }
        },
    }
}

/// Reading the fields of a `QuorumVoteRequest` message in the legacy encoding.
pub open spec fn bin_read_coord_quorum_vote_request(s: Seq<u8>) -> Read<CoordinationMsgView> {
    let (o_vote_round_id, s1) = rd_exact(s, 32);
    match o_vote_round_id {
        Err(e) => (Err(e), s1),
        Ok(x_vote_round_id) => {
            let (o_operator_id, s2) = rd_pubkey(s1);
            match o_operator_id {
                Err(e) => (Err(e), s2),
                Ok(x_operator_id) => {
                    let (o_reserves_id, s3) = rd_string(s2);
                    match o_reserves_id {
                        Err(e) => (Err(e), s3),
                        Ok(x_reserves_id) => {
                            let (o_sequence_number, s4) = rd_u64(s3);
                            match o_sequence_number {
                                Err(e) => (Err(e), s4),
                                Ok(x_sequence_number) => {
                                    let (o_state_hash, s5) = rd_exact(s4, 32);
                                    match o_state_hash {
                                        Err(e) => (Err(e), s5),
                                        Ok(x_state_hash) => {
                                            let (o_claimed_reserves, s6) = rd_u64(s5);
                                            match o_claimed_reserves {
                                                Err(e) => (Err(e), s6),
                                                Ok(x_claimed_reserves) => {
                                                    let (o_collateral_amounts, s7) = rd_u64_vec(s6);
                                                    match o_collateral_amounts {
                                                        Err(e) => (Err(e), s7),
                                                        Ok(x_collateral_amounts) => {
                                                            let (o_reserves_outpoint, s8) = rd_bytes(s7);
                                                            match o_reserves_outpoint {
                                                                Err(e) => (Err(e), s8),
                                                                Ok(x_reserves_outpoint) => {
                                                                    let (o_destination_script, s9) = rd_bytes(s8);
                                                                    match o_destination_script {
                                                                        Err(e) => (Err(e), s9),
                                                                        Ok(x_destination_script) => {
                                                                            let (o_fee_rate_sat_vbyte, s10) = rd_u64(s9);
                                                                            match o_fee_rate_sat_vbyte {
                                                                                Err(e) => (Err(e), s10),
                                                                                Ok(x_fee_rate_sat_vbyte) => {
                                                                                    let (o_timestamp, s11) = rd_u64(s10);
                                                                                    match o_timestamp {
                                                                                        Err(e) => (Err(e), s11),
                                                                                        Ok(x_timestamp) => {
                                                                                            (Ok(CoordinationMsgView::QuorumVoteRequest { vote_round_id: x_vote_round_id, operator_id: x_operator_id, reserves_id: x_reserves_id, sequence_number: x_sequence_number, state_hash: x_state_hash, claimed_reserves: x_claimed_reserves, collateral_amounts: x_collateral_amounts, reserves_outpoint: x_reserves_outpoint, destination_script: x_destination_script, fee_rate_sat_vbyte: x_fee_rate_sat_vbyte, timestamp: x_timestamp }), s11)
                                                                                        },
                                                                                    }
                                                                                },
                                                                            }
                                                                        },
                                                                    }
                                                                },
                                                            }
                                                        },
                                                    }
                                                },
                                            }
                                        },
                                    }
                                },
                            }
                        },
                    }
                },
            }
        },
    }
}

/// Reading the fields of a `QuorumVote` message in the legacy encoding.
pub open spec fn bin_read_coord_quorum_vote(s: Seq<u8>) -> Read<CoordinationMsgView> {
    let (o_vote_round_id, s1) = rd_exact(s, 32);
    match o_vote_round_id {
        Err(e) => (Err(e), s1),
        Ok(x_vote_round_id) => {
            let (o_voter_pubkey, s2) = rd_pubkey(s1);
            match o_voter_pubkey {
                Err(e) => (Err(e), s2),
                Ok(x_voter_pubkey) => {
                    let (o_vote, s3) = rd_u8(s2);
                    match o_vote {
                        Err(e) => (Err(e), s3),
                        Ok(x_vote) => {
                            let (o_voter_sequence, s4) = rd_u64(s3);
                            match o_voter_sequence {
                                Err(e) => (Err(e), s4),
                                Ok(x_voter_sequence) => {
                                    let (o_voter_state_hash, s5) = rd_exact(s4, 32);
                                    match o_voter_state_hash {
                                        Err(e) => (Err(e), s5),
                                        Ok(x_voter_state_hash) => {
                                            let (o_evidence, s6) = rd_opt_bytes(s5);
                                            match o_evidence {
                                                Err(e) => (Err(e), s6),
                                                Ok(x_evidence) => {
                                                    let (o_signature, s7) = rd_exact(s6, 64);
                                                    match o_signature {
                                                        Err(e) => (Err(e), s7),
                                                        Ok(x_signature) => {
                                                            let (o_spend_signature, s8) = rd_option_exact(s7, 64);
                                                            match o_spend_signature {
                                                                Err(e) => (Err(e), s8),
                                                                Ok(x_spend_signature) => {
                                                                    (Ok(CoordinationMsgView::QuorumVote { vote_round_id: x_vote_round_id, voter_pubkey: x_voter_pubkey, vote: x_vote != 0, voter_sequence: x_voter_sequence, voter_state_hash: x_voter_state_hash, evidence: x_evidence, signature: x_signature, spend_signature: x_spend_signature }), s8)
                                                                },
                                                            }
                                                        },
                                                    }
                                                },
                                            }
                                        },
                                    }
                                },
                            }
                        },
                    }
                },
            }
        },
    }
}

/// Reading the fields of a `UpdateReserves` message in the legacy encoding.
pub open spec fn bin_read_coord_update_reserves(s: Seq<u8>) -> Read<CoordinationMsgView> {
    let (o_channel_id, s1) = rd_exact(s, 32);
    match o_channel_id {
        Err(e) => (Err(e), s1),
        Ok(x_channel_id) => {
            let (o_reserves_sats, s2) = rd_u64(s1);
            match o_reserves_sats {
                Err(e) => (Err(e), s2),
                Ok(x_reserves_sats) => {
                    let (o_script_pubkey, s3) = rd_bytes(s2);
                    match o_script_pubkey {
                        Err(e) => (Err(e), s3),
                        Ok(x_script_pubkey) => {
                            let (o_ledger_hash, s4) = rd_exact(s3, 32);
                            match o_ledger_hash {
                                Err(e) => (Err(e), s4),
                                Ok(x_ledger_hash) => {
                                    let (o_remote_ledger_hash, s5) = rd_exact(s4, 32);
                                    match o_remote_ledger_hash {
                                        Err(e) => (Err(e), s5),
                                        Ok(x_remote_ledger_hash) => {
                                            (Ok(CoordinationMsgView::UpdateReserves { channel_id: x_channel_id, reserves_sats: x_reserves_sats, script_pubkey: x_script_pubkey, ledger_hash: x_ledger_hash, remote_ledger_hash: x_remote_ledger_hash }), s5)
                                        },
                                    }
                                },
                            }
                        },
                    }
                },
            }
        },
    }
}

/// Reading a coordination message in the legacy encoding.
pub open spec fn coordination_binary_read(s: Seq<u8>) -> Read<CoordinationMsgView> {
    let (d, s1) = rd_u8(s);
    match d {
        Err(e) => (Err(e), s1),
        Ok(disc) => {
            if disc == 0 {
                bin_read_coord_cosign_invoice(s1)
            } else if disc == 1 {
                bin_read_coord_collateral_consent_request(s1)
            } else if disc == 2 {
                bin_read_coord_quorum_join_request(s1)
            } else if disc == 3 {
                bin_read_coord_quorum_vote_request(s1)
            } else if disc == 4 {
                bin_read_coord_quorum_vote(s1)
            } else if disc == 5 {
                bin_read_coord_update_reserves(s1)
            } else {
                (Err((CodecFault::InvalidDiscriminant(disc), seq![])), s1)
            }
        },
    }
}

fn write_coord_cosign_invoice(m: &CoordinationMsg, w: &mut Vec<u8>)
    requires
        m is CosignInvoice,
    ensures
        final(w)@ == old(w)@ + coordination_binary(m@),
{
    match m {
        CoordinationMsg::CosignInvoice { operator_id, reserves_id, amount, payment_hash, expires, assigned_deposit, invoice_id, bolt11_invoice } => {
            write_u8(w, 0);
            write_pubkey(w, operator_id);
            write_string(w, reserves_id.as_str());
            write_u64(w, *amount);
            write_32(w, payment_hash);
            write_u64(w, *expires);
            write_pubkey(w, assigned_deposit);
            write_string(w, invoice_id.as_str());
            write_string(w, bolt11_invoice.as_str());
        },
        _ => {},
    }
    assert(w@ =~= old(w)@ + coordination_binary(m@));
}

fn write_coord_collateral_consent_request(m: &CoordinationMsg, w: &mut Vec<u8>)
    requires
        m is CollateralConsentRequest,
    ensures
        final(w)@ == old(w)@ + coordination_binary(m@),
{
    match m {
        CoordinationMsg::CollateralConsentRequest { operator_id, reserves_id, operator_signature } => {
            write_u8(w, 1);
            write_pubkey(w, operator_id);
            write_string(w, reserves_id.as_str());
            write_64(w, operator_signature);
        },
        _ => {},
    }
    assert(w@ =~= old(w)@ + coordination_binary(m@));
}

fn write_coord_quorum_join_request(m: &CoordinationMsg, w: &mut Vec<u8>)
    requires
        m is QuorumJoinRequest,
    ensures
        final(w)@ == old(w)@ + coordination_binary(m@),
{
    match m {
        CoordinationMsg::QuorumJoinRequest { requester_pubkey, operator_id, reserves_id, protocol_version, timestamp, signature, compensation_bps, compensation_deposit_id, compensation_frequency_blocks } => {
            write_u8(w, 2);
            write_pubkey(w, requester_pubkey);
            write_pubkey(w, operator_id);
            write_string(w, reserves_id.as_str());
            write_u16(w, *protocol_version);
            write_u64(w, *timestamp);
            write_64(w, signature);
            write_opt_u16(w, compensation_bps);
            write_opt_16(w, compensation_deposit_id);
            write_opt_u32(w, compensation_frequency_blocks);
        },
        _ => {},
    }
    assert(w@ =~= old(w)@ + coordination_binary(m@));
}

fn write_coord_quorum_vote_request(m: &CoordinationMsg, w: &mut Vec<u8>)
    requires
        m is QuorumVoteRequest,
    ensures
        final(w)@ == old(w)@ + coordination_binary(m@),
{
    match m {
        CoordinationMsg::QuorumVoteRequest { vote_round_id, operator_id, reserves_id, sequence_number, state_hash, claimed_reserves, collateral_amounts, reserves_outpoint, destination_script, fee_rate_sat_vbyte, timestamp } => {
            write_u8(w, 3);
            write_32(w, vote_round_id);
            write_pubkey(w, operator_id);
            write_string(w, reserves_id.as_str());
            write_u64(w, *sequence_number);
            write_32(w, state_hash);
            write_u64(w, *claimed_reserves);
            write_u64_vec(w, collateral_amounts);
            write_bytes(w, reserves_outpoint.as_slice());
            write_bytes(w, destination_script.as_slice());
            write_u64(w, *fee_rate_sat_vbyte);
            write_u64(w, *timestamp);
        },
        _ => {},
    }
    assert(w@ =~= old(w)@ + coordination_binary(m@));
}

fn write_coord_quorum_vote(m: &CoordinationMsg, w: &mut Vec<u8>)
    requires
        m is QuorumVote,
    ensures
        final(w)@ == old(w)@ + coordination_binary(m@),
{
    match m {
        CoordinationMsg::QuorumVote { vote_round_id, voter_pubkey, vote, voter_sequence, voter_state_hash, evidence, signature, spend_signature } => {
            write_u8(w, 4);
            write_32(w, vote_round_id);
            write_pubkey(w, voter_pubkey);
            write_bool(w, *vote);
            write_u64(w, *voter_sequence);
            write_32(w, voter_state_hash);
            write_opt_bytes(w, evidence);
            write_64(w, signature);
            write_opt_64(w, spend_signature);
        },
        _ => {},
    }
    assert(w@ =~= old(w)@ + coordination_binary(m@));
}

fn write_coord_update_reserves(m: &CoordinationMsg, w: &mut Vec<u8>)
    requires
        m is UpdateReserves,
    ensures
        final(w)@ == old(w)@ + coordination_binary(m@),
{
    match m {
        CoordinationMsg::UpdateReserves { channel_id, reserves_sats, script_pubkey, ledger_hash, remote_ledger_hash } => {
            write_u8(w, 5);
            write_32(w, channel_id);
            write_u64(w, *reserves_sats);
            write_bytes(w, script_pubkey.as_slice());
            write_32(w, ledger_hash);
            write_32(w, remote_ledger_hash);
        },
        _ => {},
    }
    assert(w@ =~= old(w)@ + coordination_binary(m@));
}

fn write_coordination(m: &CoordinationMsg, w: &mut Vec<u8>)
    ensures
        final(w)@ == old(w)@ + coordination_binary(m@),
{
    match m {
        CoordinationMsg::CosignInvoice { .. } => write_coord_cosign_invoice(m, w),
        CoordinationMsg::CollateralConsentRequest { .. } => write_coord_collateral_consent_request(m, w),
        CoordinationMsg::QuorumJoinRequest { .. } => write_coord_quorum_join_request(m, w),
        CoordinationMsg::QuorumVoteRequest { .. } => write_coord_quorum_vote_request(m, w),
        CoordinationMsg::QuorumVote { .. } => write_coord_quorum_vote(m, w),
        CoordinationMsg::UpdateReserves { .. } => write_coord_update_reserves(m, w),
    }
}

fn read_coord_cosign_invoice(data: &[u8], pos: &mut usize) -> (r: Result<CoordinationMsg, CodecError>)
    requires
        *old(pos) <= data@.len(),
    ensures
        *final(pos) <= data@.len(),
        data@.skip(*final(pos) as int) == bin_read_coord_cosign_invoice(data@.skip(*old(pos) as int)).1,
        read_is_view(r, bin_read_coord_cosign_invoice(data@.skip(*old(pos) as int)).0),
{
    let operator_id = match read_pubkey(data, pos) {
        Ok(v) => v,
        Err(e) => {
            return Err(e);
        },
    };
    let reserves_id = match read_string(data, pos) {
        Ok(v) => v,
        Err(e) => {
            return Err(e);
        },
    };
    let amount = match read_u64(data, pos) {
        Ok(v) => v,
        Err(e) => {
            return Err(e);
        },
    };
    let payment_hash = match read_32(data, pos) {
        Ok(v) => v,
        Err(e) => {
            return Err(e);
        },
    };
    let expires = match read_u64(data, pos) {
        Ok(v) => v,
        Err(e) => {
            return Err(e);
        },
    };
    let assigned_deposit = match read_pubkey(data, pos) {
        Ok(v) => v,
        Err(e) => {
            return Err(e);
        },
    };
    let invoice_id = match read_string(data, pos) {
        Ok(v) => v,
        Err(e) => {
            return Err(e);
        },
    };
    let bolt11_invoice = match read_string(data, pos) {
        Ok(v) => v,
        Err(e) => {
            return Err(e);
        },
    };
    Ok(CoordinationMsg::CosignInvoice { operator_id, reserves_id, amount, payment_hash, expires, assigned_deposit, invoice_id, bolt11_invoice })
}

fn read_coord_collateral_consent_request(data: &[u8], pos: &mut usize) -> (r: Result<CoordinationMsg, CodecError>)
    requires
        *old(pos) <= data@.len(),
    ensures
        *final(pos) <= data@.len(),
        data@.skip(*final(pos) as int) == bin_read_coord_collateral_consent_request(data@.skip(*old(pos) as int)).1,
        read_is_view(r, bin_read_coord_collateral_consent_request(data@.skip(*old(pos) as int)).0),
{
    let operator_id = match read_pubkey(data, pos) {
        Ok(v) => v,
        Err(e) => {
            return Err(e);
        },
    };
    let reserves_id = match read_string(data, pos) {
        Ok(v) => v,
        Err(e) => {
            return Err(e);
        },
    };
    let operator_signature = match read_64(data, pos) {
        Ok(v) => v,
        Err(e) => {
            return Err(e);
        },
    };
    Ok(CoordinationMsg::CollateralConsentRequest { operator_id, reserves_id, operator_signature })
}

fn read_coord_quorum_join_request(data: &[u8], pos: &mut usize) -> (r: Result<CoordinationMsg, CodecError>)
    requires
        *old(pos) <= data@.len(),
    ensures
        *final(pos) <= data@.len(),
        data@.skip(*final(pos) as int) == bin_read_coord_quorum_join_request(data@.skip(*old(pos) as int)).1,
        read_is_view(r, bin_read_coord_quorum_join_request(data@.skip(*old(pos) as int)).0),
{
    let requester_pubkey = match read_pubkey(data, pos) {
        Ok(v) => v,
        Err(e) => {
            return Err(e);
        },
    };
    let operator_id = match read_pubkey(data, pos) {
        Ok(v) => v,
        Err(e) => {
            return Err(e);
        },
    };
    let reserves_id = match read_string(data, pos) {
        Ok(v) => v,
        Err(e) => {
            return Err(e);
        },
    };
    let protocol_version = match read_u16(data, pos) {
        Ok(v) => v,
        Err(e) => {
            return Err(e);
        },
    };
    let timestamp = match read_u64(data, pos) {
        Ok(v) => v,
        Err(e) => {
            return Err(e);
        },
    };
    let signature = match read_64(data, pos) {
        Ok(v) => v,
        Err(e) => {
            return Err(e);
        },
    };
    let compensation_bps = match read_opt_u16(data, pos) {
        Ok(v) => v,
        Err(e) => {
            return Err(e);
        },
    };
    let compensation_deposit_id = match read_opt_16(data, pos) {
        Ok(v) => v,
        Err(e) => {
            return Err(e);
        },
    };
    let compensation_frequency_blocks = match read_opt_u32(data, pos) {
        Ok(v) => v,
        Err(e) => {
            return Err(e);
        },
    };
    Ok(CoordinationMsg::QuorumJoinRequest { requester_pubkey, operator_id, reserves_id, protocol_version, timestamp, signature, compensation_bps, compensation_deposit_id, compensation_frequency_blocks })
}

#[verifier::rlimit(60)]
fn read_coord_quorum_vote_request(data: &[u8], pos: &mut usize) -> (r: Result<CoordinationMsg, CodecError>)
    requires
        *old(pos) <= data@.len(),
    ensures
        *final(pos) <= data@.len(),
        data@.skip(*final(pos) as int) == bin_read_coord_quorum_vote_request(data@.skip(*old(pos) as int)).1,
        read_is_view(r, bin_read_coord_quorum_vote_request(data@.skip(*old(pos) as int)).0),
{
    let vote_round_id = match read_32(data, pos) {
        Ok(v) => v,
        Err(e) => {
            return Err(e);
        },
    };
    let operator_id = match read_pubkey(data, pos) {
        Ok(v) => v,
        Err(e) => {
            return Err(e);
        },
    };
    let reserves_id = match read_string(data, pos) {
        Ok(v) => v,
        Err(e) => {
            return Err(e);
        },
    };
    let sequence_number = match read_u64(data, pos) {
        Ok(v) => v,
        Err(e) => {
            return Err(e);
        },
    };
    let state_hash = match read_32(data, pos) {
        Ok(v) => v,
        Err(e) => {
            return Err(e);
        },
    };
    let claimed_reserves = match read_u64(data, pos) {
        Ok(v) => v,
        Err(e) => {
            return Err(e);
        },
    };
    let collateral_amounts = match read_u64_vec(data, pos) {
        Ok(v) => v,
        Err(e) => {
            return Err(e);
        },
    };
    let reserves_outpoint = match read_bytes(data, pos) {
        Ok(v) => v,
        Err(e) => {
            return Err(e);
        },
    };
    let destination_script = match read_bytes(data, pos) {
        Ok(v) => v,
        Err(e) => {
            return Err(e);
        },
    };
    let fee_rate_sat_vbyte = match read_u64(data, pos) {
        Ok(v) => v,
        Err(e) => {
            return Err(e);
        },
    };
    let timestamp = match read_u64(data, pos) {
        Ok(v) => v,
        Err(e) => {
            return Err(e);
        },
    };
    Ok(CoordinationMsg::QuorumVoteRequest { vote_round_id, operator_id, reserves_id, sequence_number, state_hash, claimed_reserves, collateral_amounts, reserves_outpoint, destination_script, fee_rate_sat_vbyte, timestamp })
}

fn read_coord_quorum_vote(data: &[u8], pos: &mut usize) -> (r: Result<CoordinationMsg, CodecError>)
    requires
        *old(pos) <= data@.len(),
    ensures
        *final(pos) <= data@.len(),
        data@.skip(*final(pos) as int) == bin_read_coord_quorum_vote(data@.skip(*old(pos) as int)).1,
        read_is_view(r, bin_read_coord_quorum_vote(data@.skip(*old(pos) as int)).0),
{
    let vote_round_id = match read_32(data, pos) {
        Ok(v) => v,
        Err(e) => {
            return Err(e);
        },
    };
    let voter_pubkey = match read_pubkey(data, pos) {
        Ok(v) => v,
        Err(e) => {
            return Err(e);
        },
    };
    let vote = match read_bool(data, pos) {
        Ok(v) => v,
        Err(e) => {
            return Err(e);
        },
    };
    let voter_sequence = match read_u64(data, pos) {
        Ok(v) => v,
        Err(e) => {
            return Err(e);
        },
    };
    let voter_state_hash = match read_32(data, pos) {
        Ok(v) => v,
        Err(e) => {
            return Err(e);
        },
    };
    let evidence = match read_opt_bytes(data, pos) {
        Ok(v) => v,
        Err(e) => {
            return Err(e);
        },
    };
    let signature = match read_64(data, pos) {
        Ok(v) => v,
        Err(e) => {
            return Err(e);
        },
    };
    let spend_signature = match read_opt_64(data, pos) {
        Ok(v) => v,
        Err(e) => {
            return Err(e);
        },
    };
    Ok(CoordinationMsg::QuorumVote { vote_round_id, voter_pubkey, vote, voter_sequence, voter_state_hash, evidence, signature, spend_signature })
}

fn read_coord_update_reserves(data: &[u8], pos: &mut usize) -> (r: Result<CoordinationMsg, CodecError>)
    requires
        *old(pos) <= data@.len(),
    ensures
        *final(pos) <= data@.len(),
        data@.skip(*final(pos) as int) == bin_read_coord_update_reserves(data@.skip(*old(pos) as int)).1,
        read_is_view(r, bin_read_coord_update_reserves(data@.skip(*old(pos) as int)).0),
{
    let channel_id = match read_32(data, pos) {
        Ok(v) => v,
        Err(e) => {
            return Err(e);
        },
    };
    let reserves_sats = match read_u64(data, pos) {
        Ok(v) => v,
        Err(e) => {
            return Err(e);
        },
    };
    let script_pubkey = match read_bytes(data, pos) {
        Ok(v) => v,
        Err(e) => {
            return Err(e);
        },
    };
    let ledger_hash = match read_32(data, pos) {
        Ok(v) => v,
        Err(e) => {
            return Err(e);
        },
    };
    let remote_ledger_hash = match read_32(data, pos) {
        Ok(v) => v,
        Err(e) => {
            return Err(e);
        },
    };
    Ok(CoordinationMsg::UpdateReserves { channel_id, reserves_sats, script_pubkey, ledger_hash, remote_ledger_hash })
}

impl BinaryCodec for CoordinationMsg {
    open spec fn binary_of(v: CoordinationMsgView) -> Seq<u8> {
        coordination_binary(v)
    }

    open spec fn binary_read(s: Seq<u8>) -> Read<CoordinationMsgView> {
        coordination_binary_read(s)
    }

    fn write_to(&self, w: &mut Vec<u8>) -> (r: Result<(), CodecError>) {
        write_coordination(self, w);
        Ok(())
    }

    fn read_from(data: &[u8], pos: &mut usize) -> (r: Result<Self, CodecError>) {
        let disc = match read_u8(data, pos) {
            Ok(d) => d,
            Err(e) => {
                return Err(e);
            },
        };
        match disc {
            0 => read_coord_cosign_invoice(data, pos),
            1 => read_coord_collateral_consent_request(data, pos),
            2 => read_coord_quorum_join_request(data, pos),
            3 => read_coord_quorum_vote_request(data, pos),
            4 => read_coord_quorum_vote(data, pos),
            5 => read_coord_update_reserves(data, pos),
            d => Err(CodecError::InvalidDiscriminant(d)),
        }
    }
}

impl CoordinationMsg {
    /// The reserves identifier the message names, for the kinds that name
    /// one.
    pub fn reserves_id(&self) -> (r: Option<String>)
        ensures
            match self {
                CoordinationMsg::CosignInvoice { reserves_id, .. } => r == Some(*reserves_id),
                CoordinationMsg::CollateralConsentRequest { reserves_id, .. } => r == Some(*reserves_id),
                CoordinationMsg::QuorumJoinRequest { reserves_id, .. } => r == Some(*reserves_id),
                CoordinationMsg::QuorumVoteRequest { reserves_id, .. } => r == Some(*reserves_id),
                _ => r is None,
            },
    {
        match self {
            CoordinationMsg::CosignInvoice { reserves_id, .. } => Some(reserves_id.clone()),
            CoordinationMsg::CollateralConsentRequest { reserves_id, .. } => Some(reserves_id.clone()),
            CoordinationMsg::QuorumJoinRequest { reserves_id, .. } => Some(reserves_id.clone()),
            CoordinationMsg::QuorumVoteRequest { reserves_id, .. } => Some(reserves_id.clone()),
            CoordinationMsg::QuorumVote { .. } => None,
            CoordinationMsg::UpdateReserves { .. } => None,
        }
    }
}

/// The values of a coordination message fit its encoding: keys are valid
/// 33-byte keys, fixed-size hashes and signatures have their sizes, and
/// every field value fits a TLV record.
pub open spec fn coordination_fits(v: CoordinationMsgView) -> bool {
    match v {
        CoordinationMsgView::CosignInvoice { operator_id, reserves_id, amount, payment_hash, expires, assigned_deposit, invoice_id, bolt11_invoice } => {
            &&& is_valid_key(operator_id)
            &&& operator_id.len() == 33
            &&& encode_utf8(reserves_id).len() <= MAX_TLV_VALUE_LENGTH
            &&& payment_hash.len() == 32
            &&& is_valid_key(assigned_deposit)
            &&& assigned_deposit.len() == 33
            &&& encode_utf8(invoice_id).len() <= MAX_TLV_VALUE_LENGTH
            &&& encode_utf8(bolt11_invoice).len() <= MAX_TLV_VALUE_LENGTH
        },
        CoordinationMsgView::CollateralConsentRequest { operator_id, reserves_id, operator_signature } => {
            &&& is_valid_key(operator_id)
            &&& operator_id.len() == 33
            &&& encode_utf8(reserves_id).len() <= MAX_TLV_VALUE_LENGTH
            &&& operator_signature.len() == 64
        },
        CoordinationMsgView::QuorumJoinRequest { requester_pubkey, operator_id, reserves_id, protocol_version, timestamp, signature, compensation_bps, compensation_deposit_id, compensation_frequency_blocks } => {
            &&& is_valid_key(requester_pubkey)
            &&& requester_pubkey.len() == 33
            &&& is_valid_key(operator_id)
            &&& operator_id.len() == 33
            &&& encode_utf8(reserves_id).len() <= MAX_TLV_VALUE_LENGTH
            &&& signature.len() == 64
            &&& compensation_deposit_id matches Some(x) ==> x.len() == 16
        },
        CoordinationMsgView::QuorumVoteRequest { vote_round_id, operator_id, reserves_id, sequence_number, state_hash, claimed_reserves, collateral_amounts, reserves_outpoint, destination_script, fee_rate_sat_vbyte, timestamp } => {
            &&& vote_round_id.len() == 32
            &&& is_valid_key(operator_id)
            &&& operator_id.len() == 33
            &&& encode_utf8(reserves_id).len() <= MAX_TLV_VALUE_LENGTH
            &&& state_hash.len() == 32
            &&& collateral_amounts.len() * 8 <= MAX_TLV_VALUE_LENGTH
            &&& reserves_outpoint.len() <= MAX_TLV_VALUE_LENGTH
            &&& destination_script.len() <= MAX_TLV_VALUE_LENGTH
        },
        CoordinationMsgView::QuorumVote { vote_round_id, voter_pubkey, vote, voter_sequence, voter_state_hash, evidence, signature, spend_signature } => {
            &&& vote_round_id.len() == 32
            &&& is_valid_key(voter_pubkey)
            &&& voter_pubkey.len() == 33
            &&& voter_state_hash.len() == 32
            &&& evidence matches Some(x) ==> x.len() <= MAX_TLV_VALUE_LENGTH
            &&& signature.len() == 64
            &&& spend_signature matches Some(x) ==> x.len() == 64
        },
        CoordinationMsgView::UpdateReserves { channel_id, reserves_sats, script_pubkey, ledger_hash, remote_ledger_hash } => {
            &&& channel_id.len() == 32
            &&& script_pubkey.len() <= MAX_TLV_VALUE_LENGTH
            &&& ledger_hash.len() == 32
            &&& remote_ledger_hash.len() == 32
        },
    }
}

proof fn lemma_coord_cosign_invoice_roundtrip(v: CoordinationMsgView)
    requires
        v is CosignInvoice,
        coordination_fits(v),
    ensures
        parse_with(map_bytes(coordination_fields(v)), |m: Map<u64, Seq<u8>>| coordination_from_fields(m))
            == Ok::<CoordinationMsgView, StreamFault>(v),
{
    broadcast use lemma_put_opt_lookup, lemma_put_opt_finite;

    let m = coordination_fields(v);
    lemma_finite_map_sorted(m);
    match v {
        CoordinationMsgView::CosignInvoice { operator_id, reserves_id, amount, payment_hash, expires, assigned_deposit, invoice_id, bolt11_invoice } => {
            encode_utf8_valid_utf8(reserves_id);
            encode_utf8_decode_utf8(reserves_id);
            lemma_u64_be(amount, seq![]);
            lemma_u64_be(expires, seq![]);
            encode_utf8_valid_utf8(invoice_id);
            encode_utf8_decode_utf8(invoice_id);
            encode_utf8_valid_utf8(bolt11_invoice);
            encode_utf8_decode_utf8(bolt11_invoice);
            assert(map_within_limit(m));
            lemma_map_roundtrip(m);
        },
        _ => {},
    }
}

proof fn lemma_coord_collateral_consent_request_roundtrip(v: CoordinationMsgView)
    requires
        v is CollateralConsentRequest,
        coordination_fits(v),
    ensures
        parse_with(map_bytes(coordination_fields(v)), |m: Map<u64, Seq<u8>>| coordination_from_fields(m))
            == Ok::<CoordinationMsgView, StreamFault>(v),
{
    broadcast use lemma_put_opt_lookup, lemma_put_opt_finite;

    let m = coordination_fields(v);
    lemma_finite_map_sorted(m);
    match v {
        CoordinationMsgView::CollateralConsentRequest { operator_id, reserves_id, operator_signature } => {
            encode_utf8_valid_utf8(reserves_id);
            encode_utf8_decode_utf8(reserves_id);
            assert(map_within_limit(m));
            lemma_map_roundtrip(m);
        },
        _ => {},
    }
}

#[verifier::rlimit(50)]
proof fn lemma_coord_quorum_join_request_roundtrip(v: CoordinationMsgView)
    requires
        v is QuorumJoinRequest,
        coordination_fits(v),
    ensures
        parse_with(map_bytes(coordination_fields(v)), |m: Map<u64, Seq<u8>>| coordination_from_fields(m))
            == Ok::<CoordinationMsgView, StreamFault>(v),
{
    broadcast use lemma_put_opt_lookup, lemma_put_opt_finite;

    let m = coordination_fields(v);
    lemma_finite_map_sorted(m);
    match v {
        CoordinationMsgView::QuorumJoinRequest { requester_pubkey, operator_id, reserves_id, protocol_version, timestamp, signature, compensation_bps, compensation_deposit_id, compensation_frequency_blocks } => {
            encode_utf8_valid_utf8(reserves_id);
            encode_utf8_decode_utf8(reserves_id);
            lemma_u16_be(protocol_version, seq![]);
            lemma_u64_be(timestamp, seq![]);
            if let Some(x) = compensation_bps { lemma_u16_be(x, seq![]); }
            if let Some(x) = compensation_frequency_blocks { lemma_u32_be(x, seq![]); }
            assert(map_within_limit(m));
            lemma_map_roundtrip(m);
        },
        _ => {},
    }
}

#[verifier::rlimit(50)]
proof fn lemma_coord_quorum_vote_request_roundtrip(v: CoordinationMsgView)
    requires
        v is QuorumVoteRequest,
        coordination_fits(v),
    ensures
        parse_with(map_bytes(coordination_fields(v)), |m: Map<u64, Seq<u8>>| coordination_from_fields(m))
            == Ok::<CoordinationMsgView, StreamFault>(v),
{
    broadcast use lemma_put_opt_lookup, lemma_put_opt_finite;

    let m = coordination_fields(v);
    lemma_finite_map_sorted(m);
    match v {
        CoordinationMsgView::QuorumVoteRequest { vote_round_id, operator_id, reserves_id, sequence_number, state_hash, claimed_reserves, collateral_amounts, reserves_outpoint, destination_script, fee_rate_sat_vbyte, timestamp } => {
            encode_utf8_valid_utf8(reserves_id);
            encode_utf8_decode_utf8(reserves_id);
            lemma_u64_be(sequence_number, seq![]);
            lemma_u64_be(claimed_reserves, seq![]);
            lemma_u64s_roundtrip(collateral_amounts);
            lemma_u64_be(fee_rate_sat_vbyte, seq![]);
            lemma_u64_be(timestamp, seq![]);
            assert(map_within_limit(m));
            lemma_map_roundtrip(m);
        },
        _ => {},
    }
}

#[verifier::rlimit(50)]
proof fn lemma_coord_quorum_vote_roundtrip(v: CoordinationMsgView)
    requires
        v is QuorumVote,
        coordination_fits(v),
    ensures
        parse_with(map_bytes(coordination_fields(v)), |m: Map<u64, Seq<u8>>| coordination_from_fields(m))
            == Ok::<CoordinationMsgView, StreamFault>(v),
{
    broadcast use lemma_put_opt_lookup, lemma_put_opt_finite;

    let m = coordination_fields(v);
    lemma_finite_map_sorted(m);
    match v {
        CoordinationMsgView::QuorumVote { vote_round_id, voter_pubkey, vote, voter_sequence, voter_state_hash, evidence, signature, spend_signature } => {
            lemma_u64_be(voter_sequence, seq![]);
            assert(map_within_limit(m));
            lemma_map_roundtrip(m);
        },
        _ => {},
    }
}

proof fn lemma_coord_update_reserves_roundtrip(v: CoordinationMsgView)
    requires
        v is UpdateReserves,
        coordination_fits(v),
    ensures
        parse_with(map_bytes(coordination_fields(v)), |m: Map<u64, Seq<u8>>| coordination_from_fields(m))
            == Ok::<CoordinationMsgView, StreamFault>(v),
{
    broadcast use lemma_put_opt_lookup, lemma_put_opt_finite;

    let m = coordination_fields(v);
    lemma_finite_map_sorted(m);
    match v {
        CoordinationMsgView::UpdateReserves { channel_id, reserves_sats, script_pubkey, ledger_hash, remote_ledger_hash } => {
            lemma_u64_be(reserves_sats, seq![]);
            assert(map_within_limit(m));
            lemma_map_roundtrip(m);
        },
        _ => {},
    }
}

/// Decoding the TLV encoding of a coordination message whose values fit it
/// gives the message back.
pub proof fn lemma_coordination_tlv_roundtrip(v: CoordinationMsgView)
    requires
        coordination_fits(v),
    ensures
        parse_with(map_bytes(coordination_fields(v)), |m: Map<u64, Seq<u8>>| coordination_from_fields(m))
            == Ok::<CoordinationMsgView, StreamFault>(v),
{
    match v {
        CoordinationMsgView::CosignInvoice { .. } => lemma_coord_cosign_invoice_roundtrip(v),
        CoordinationMsgView::CollateralConsentRequest { .. } => lemma_coord_collateral_consent_request_roundtrip(v),
        CoordinationMsgView::QuorumJoinRequest { .. } => lemma_coord_quorum_join_request_roundtrip(v),
        CoordinationMsgView::QuorumVoteRequest { .. } => lemma_coord_quorum_vote_request_roundtrip(v),
        CoordinationMsgView::QuorumVote { .. } => lemma_coord_quorum_vote_roundtrip(v),
        CoordinationMsgView::UpdateReserves { .. } => lemma_coord_update_reserves_roundtrip(v),
    }
}

} // verus!
