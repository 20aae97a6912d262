//! Core protocol types: witnesses, fees, invoices, deposits and dispute
//! states.

use vstd::prelude::*;
use vstd::utf8::encode_utf8;

use crate::crypto::{hex_encode, hex_lower, sha256, sha256_of};
use crate::error::DepositsError;
use crate::pubkey::PublicKey;
use crate::text::concat_text;

verus! {

/// The compressed encoding of the secp256k1 generator point G.
pub open spec fn generator_encoding() -> Seq<u8> {
    seq![
        0x02u8, 0x79, 0xbe, 0x66, 0x7e, 0xf9, 0xdc, 0xbb, 0xac, 0x55, 0xa0, 0x62, 0x95, 0xce, 0x87,
        0x0b, 0x07, 0x02, 0x9b, 0xfc, 0xdb, 0x2d, 0xce, 0x28, 0xd9, 0x59, 0xf2, 0x81, 0x5b, 0x16,
        0xf8, 0x17, 0x98,
    ]
}

/// The parent key given to ledgers recorded without one: the generator
/// point G, a well-known key nobody controls. The key comes from the
/// secp256k1 parser, so its refusal (which it does not give for G) is
/// returned rather than assumed away.
pub fn default_parent_pubkey() -> (r: Result<PublicKey, String>)
    ensures
        match crate::pubkey::secp256k1_parse(generator_encoding()) {
            Some(k) => r is Ok && r->Ok_0@ == k,
            None => r is Err,
        },
        r is Ok ==> r->Ok_0@ == generator_encoding(),
{
    let generator_bytes: [u8; 33] = [
        0x02, 0x79, 0xbe, 0x66, 0x7e, 0xf9, 0xdc, 0xbb, 0xac, 0x55, 0xa0, 0x62, 0x95, 0xce, 0x87,
        0x0b, 0x07, 0x02, 0x9b, 0xfc, 0xdb, 0x2d, 0xce, 0x28, 0xd9, 0x59, 0xf2, 0x81, 0x5b, 0x16,
        0xf8, 0x17, 0x98,
    ];
    assert(generator_bytes@ =~= generator_encoding());
    PublicKey::from_slice(&generator_bytes)
}

// ============================================================================
// Descriptor witness
// ============================================================================

/// Witness data satisfying a miniscript descriptor: a stack of elements
/// (signatures, preimages, ...), index 0 at the bottom.
#[derive(Clone, Debug, PartialEq, Eq)]
pub struct DescriptorWitness {
    /// Stack elements.
    pub stack: Vec<Vec<u8>>,
}

/// The elements of a witness stack, as byte sequences.
pub open spec fn stack_view(stack: Seq<Vec<u8>>) -> Seq<Seq<u8>> {
    stack.map_values(|e: Vec<u8>| e@)
}

impl View for DescriptorWitness {
    type V = Seq<Seq<u8>>;

    open spec fn view(&self) -> Seq<Seq<u8>> {
        stack_view(self.stack@)
    }
}


impl DescriptorWitness {
    /// An empty witness.
    pub fn new() -> (r: Self)
        ensures
            r@ == Seq::<Seq<u8>>::empty(),
    {
        let r = DescriptorWitness { stack: Vec::new() };
        assert(r@ =~= Seq::<Seq<u8>>::empty());
        r
    }

    /// A witness holding one 64-byte signature.
    pub fn from_signature(signature: &[u8; 64]) -> (r: Self)
        ensures
            r@ == seq![signature@],
    {
        let mut stack: Vec<Vec<u8>> = Vec::new();
        stack.push(crate::bytes::array_to_vec(signature));
        let r = DescriptorWitness { stack };
        assert(r@ =~= seq![signature@]);
        r
    }

    /// A witness holding the given stack.
    pub fn from_stack(stack: Vec<Vec<u8>>) -> (r: Self)
        ensures
            r@ == stack_view(stack@),
    {
        DescriptorWitness { stack }
    }

    /// Whether the stack is empty.
    pub fn is_empty(&self) -> (r: bool)
        ensures
            r == (self@.len() == 0),
    {
        self.stack.len() == 0
    }

    /// The number of stack elements.
    pub fn len(&self) -> (r: usize)
        ensures
            r == self@.len(),
    {
        self.stack.len()
    }
}

impl Default for DescriptorWitness {
    fn default() -> (r: Self)
        ensures
            r@ == Seq::<Seq<u8>>::empty(),
    {
        DescriptorWitness::new()
    }
}

// ============================================================================
// Deposit identifiers
// ============================================================================

/// A deposit identifier: the first 16 bytes of SHA-256 of the descriptor.
pub type DepositId = [u8; 16];

/// The identifier of the deposit with descriptor `descriptor`.
pub open spec fn deposit_id_of_descriptor(descriptor: Seq<char>) -> Seq<u8> {
    sha256_of(encode_utf8(descriptor)).subrange(0, 16)
}

/// Computes the deposit identifier of a descriptor.
pub fn compute_deposit_id(descriptor: &str) -> (r: DepositId)
    ensures
        r@ == deposit_id_of_descriptor(descriptor@),
{
    let bytes = crate::text::utf8_bytes(descriptor);
    let hash = sha256(bytes.as_slice());
    crate::bytes::array_at(hash.as_slice(), 0)
}

// ============================================================================
// Fees
// ============================================================================

/// Blocks per year (365.25 days of 144 blocks).
pub const BLOCKS_PER_YEAR: u64 = 52560;

/// `x`, or `u64::MAX` where `x` does not fit.
pub open spec fn saturate(x: int) -> u64 {
    if x > u64::MAX {
        u64::MAX
    } else {
        x as u64
    }
}

/// Periodic fee structure of a deposit.
#[derive(Clone, Copy, Debug, PartialEq, Eq, Structural)]
pub struct FeeStructure {
    /// Fixed annual fee in msats.
    pub annualized_msats: u64,
    /// Percentage fee in basis points (1 bps = 0.01%).
    pub annualized_bps: u16,
    /// How often fees are assessed, in blocks.
    pub frequency_blocks: u32,
}

/// The fee pro-rated over `blocks`: the fixed part, plus the percentage of
/// `balance`, each rounded down.
pub open spec fn prorated_fee(fees: FeeStructure, balance: u64, blocks: u32) -> int {
    (fees.annualized_msats * blocks) / (BLOCKS_PER_YEAR as int)
        + (balance * fees.annualized_bps * blocks) / (BLOCKS_PER_YEAR * 10000)
}

impl Default for FeeStructure {
    fn default() -> (r: Self)
        ensures
            r == (FeeStructure { annualized_msats: 0, annualized_bps: 0, frequency_blocks: 2016 }),
    {
        FeeStructure { annualized_msats: 0, annualized_bps: 0, frequency_blocks: 2016 }
    }
}

impl FeeStructure {
    /// A fee structure with the given fields.
    pub fn new(annualized_msats: u64, annualized_bps: u16, frequency_blocks: u32) -> (r: Self)
        ensures
            r == (FeeStructure { annualized_msats, annualized_bps, frequency_blocks }),
    {
        FeeStructure { annualized_msats, annualized_bps, frequency_blocks }
    }

    /// The fee for `balance` over `blocks_elapsed` blocks, computed without
    /// overflow and saturated at `u64::MAX`.
    pub fn calculate_fee(&self, balance: u64, blocks_elapsed: u32) -> (r: u64)
        ensures
            r == saturate(prorated_fee(*self, balance, blocks_elapsed)),
    {
        let blocks = blocks_elapsed as u128;
        let msats = self.annualized_msats as u128;
        let bal = balance as u128;
        let bps = self.annualized_bps as u128;
        proof {
            assert(msats * blocks <= 0xffff_ffff_ffff_ffffu128 * 0xffff_ffffu128) by (nonlinear_arith)
                requires
                    msats <= 0xffff_ffff_ffff_ffffu128,
                    blocks <= 0xffff_ffffu128,
            ;
            assert(bal * bps <= 0xffff_ffff_ffff_ffffu128 * 0xffffu128) by (nonlinear_arith)
                requires
                    bal <= 0xffff_ffff_ffff_ffffu128,
                    bps <= 0xffffu128,
            ;
            assert(bal * bps * blocks <= 0xffff_ffff_ffff_ffffu128 * 0xffffu128 * 0xffff_ffffu128)
                by (nonlinear_arith)
                requires
                    bal * bps <= 0xffff_ffff_ffff_ffffu128 * 0xffffu128,
                    blocks <= 0xffff_ffffu128,
            ;
        }
        let fixed_fee = (msats * blocks) / 52560u128;
        let bps_fee = (bal * bps * blocks) / 525600000u128;
        proof {
            assert(fixed_fee <= msats * blocks);
            assert(bps_fee <= bal * bps * blocks);
        }
        let total = fixed_fee + bps_fee;
        if total > 0xffff_ffff_ffff_ffffu128 {
            u64::MAX
        } else {
            total as u64
        }
    }
}

/// Per-transfer fee schedule: `fixed_msats` plus `rate_bps` of the amount.
#[derive(Clone, Copy, Debug, PartialEq, Eq, Structural)]
pub struct TransferFeeSchedule {
    /// Fixed fee per transfer in msats.
    pub fixed_msats: u64,
    /// Proportional fee in basis points.
    pub rate_bps: u16,
}

impl Default for TransferFeeSchedule {
    fn default() -> (r: Self)
        ensures
            r == (TransferFeeSchedule { fixed_msats: 2, rate_bps: 20 }),
    {
        TransferFeeSchedule { fixed_msats: 2, rate_bps: 20 }
    }
}

impl TransferFeeSchedule {
    /// A schedule with the given fields.
    pub fn new(fixed_msats: u64, rate_bps: u16) -> (r: Self)
        ensures
            r == (TransferFeeSchedule { fixed_msats, rate_bps }),
    {
        TransferFeeSchedule { fixed_msats, rate_bps }
    }

    /// The fee for transferring `amount_msats`: the fixed part plus the
    /// proportional part (rounded down, saturated), the sum saturated.
    pub fn calculate_fee(&self, amount_msats: u64) -> (r: u64)
        ensures
            r == saturate(self.fixed_msats + saturate((amount_msats * self.rate_bps) / 10000)),
    {
        let a = amount_msats as u128;
        let rate = self.rate_bps as u128;
        proof {
            assert(a * rate <= 0xffff_ffff_ffff_ffffu128 * 0xffffu128) by (nonlinear_arith)
                requires
                    a <= 0xffff_ffff_ffff_ffffu128,
                    rate <= 0xffffu128,
            ;
        }
        let proportional = (a * rate) / 10000u128;
        let proportional: u64 = if proportional > 0xffff_ffff_ffff_ffffu128 {
            u64::MAX
        } else {
            proportional as u64
        };
        self.fixed_msats.saturating_add(proportional)
    }
}

// ============================================================================
// Invoices and pending operations
// ============================================================================

/// An invoice associated with a deposit.
#[derive(Clone, Debug, PartialEq, Eq)]
pub struct Invoice {
    /// Unique invoice identifier.
    pub id: String,
    /// Payment hash.
    pub payment_hash: [u8; 32],
    /// Amount in millisatoshis.
    pub amount: u64,
    /// Expiration (Unix time).
    pub expires: u64,
    /// The deposit this invoice is assigned to.
    pub assigned_deposit: DepositId,
    /// BOLT11 invoice string.
    pub bolt11: String,
}

impl Invoice {
    /// Whether the invoice has expired at `current_time`.
    pub fn is_expired(&self, current_time: u64) -> (r: bool)
        ensures
            r == (current_time > self.expires),
    {
        current_time > self.expires
    }
}

/// A pending invoice awaiting cosigning or payment.
#[derive(Clone, Debug, PartialEq, Eq)]
pub struct PendingInvoice {
    /// Amount in millisatoshis.
    pub amount: u64,
    /// Payment hash.
    pub payment_hash: [u8; 32],
    /// Expiration (Unix time).
    pub expires: u64,
    /// Deposit that will receive payment.
    pub assigned_deposit: DepositId,
    /// Invoice identifier.
    pub invoice_id: String,
    /// BOLT11 invoice string.
    pub bolt11: String,
}

impl PendingInvoice {
    /// Whether the pending invoice has expired at `current_time`.
    pub fn is_expired(&self, current_time: u64) -> (r: bool)
        ensures
            r == (current_time > self.expires),
    {
        current_time > self.expires
    }
}

/// An outbound invoice lock awaiting payment completion.
#[derive(Clone, Copy, Debug, PartialEq, Eq)]
pub struct OpenInvoiceLock {
    /// The deposit funds are locked from.
    pub deposit_id: DepositId,
    /// Amount locked, in millisatoshis.
    pub amount: u64,
    /// Sequence number of the lock operation.
    pub lock_sequence: u64,
}

/// A conditional transfer between deposits awaiting completion or timeout.
#[derive(Clone, Debug, PartialEq, Eq)]
pub struct PendingTransfer {
    /// Transfer identifier.
    pub transfer_id: [u8; 32],
    /// Nonce preventing collisions.
    pub nonce: [u8; 32],
    /// Source deposit.
    pub source_deposit_id: DepositId,
    /// Destination deposit.
    pub destination_deposit_id: DepositId,
    /// Amount transferred, excluding the fee.
    pub amount: u64,
    /// Fee for the custodian.
    pub fee: u64,
    /// Descriptor that completes the transfer.
    pub completion_script: String,
    /// Block height after which the transfer can time out.
    pub timeout_height: u32,
}

impl PendingTransfer {
    /// The total locked: amount plus fee, saturated.
    pub fn total_locked(&self) -> (r: u64)
        ensures
            r == saturate(self.amount + self.fee),
    {
        self.amount.saturating_add(self.fee)
    }
}

/// An on-chain withdrawal awaiting confirmation or failure.
#[derive(Clone, Debug, PartialEq, Eq)]
pub struct PendingWithdrawal {
    /// The deposit funds are locked from.
    pub deposit_id: DepositId,
    /// Amount withdrawn.
    pub amount: u64,
    /// Miner fee allocated.
    pub fee_sats: u64,
    /// Destination address.
    pub destination_address: String,
}

// ============================================================================
// Dispute and quorum states
// ============================================================================

/// Quorum lifecycle: before the first quorum, active, or expired.
#[derive(Clone, Copy, Debug, PartialEq, Eq, Structural)]
pub enum QuorumState {
    /// No quorum yet; operator-only signatures.
    PreQuorum,
    /// Quorum active; co-signatures required.
    Active,
    /// Quorum expired without re-rotation.
    Expired,
}

impl Default for QuorumState {
    fn default() -> (r: Self)
        ensures
            r == QuorumState::PreQuorum,
    {
        QuorumState::PreQuorum
    }
}

/// State of a ledger with respect to custody disputes.
///
/// Normal, then Disputed (after DisputeEnter), then Armed (after
/// DisputeArmed), then Normal again (DisputeAcquire) or Tombstoned
/// (DisputeYield).
#[derive(Clone, Copy, Debug, PartialEq, Eq, Structural)]
pub enum DisputeState {
    /// No active dispute.
    Normal,
    /// Dispute opened; only QuorumAddMember and DisputeArmed.
    Disputed,
    /// Candidate armed; only DisputeAcquire or DisputeYield.
    Armed,
    /// Branch terminated; nothing further.
    Tombstoned,
}

impl Default for DisputeState {
    fn default() -> (r: Self)
        ensures
            r == DisputeState::Normal,
    {
        DisputeState::Normal
    }
}

/// Whether a ledger in state `s` accepts an operation with discriminant `d`.
pub open spec fn dispute_allows(s: DisputeState, d: u8) -> bool {
    match s {
        DisputeState::Normal => !(55 <= d <= 57),
        DisputeState::Disputed => d == 43 || d == 57,
        DisputeState::Armed => d == 55 || d == 56,
        DisputeState::Tombstoned => false,
    }
}

impl DisputeState {
    /// Whether operations can be appended in this state.
    pub fn allows_operations(&self) -> (r: bool)
        ensures
            r == !(*self is Tombstoned),
    {
        !matches!(self, DisputeState::Tombstoned)
    }

    /// Whether this state accepts an operation with the given discriminant.
    pub fn allows_operation(&self, operation_discriminant: u8) -> (r: bool)
        ensures
            r == dispute_allows(*self, operation_discriminant),
    {
        match self {
            DisputeState::Normal => !(55 <= operation_discriminant && operation_discriminant <= 57),
            DisputeState::Disputed => operation_discriminant == 43 || operation_discriminant == 57,
            DisputeState::Armed => operation_discriminant == 55 || operation_discriminant == 56,
            DisputeState::Tombstoned => false,
        }
    }
}

/// A state accepts some operation exactly when it accepts operations at all.
pub proof fn lemma_allows_some_operation(s: DisputeState)
    ensures
        (exists|d: u8| dispute_allows(s, d)) <==> !(s is Tombstoned),
{
    match s {
        DisputeState::Normal => assert(dispute_allows(s, 1)),
        DisputeState::Disputed => assert(dispute_allows(s, 43)),
        DisputeState::Armed => assert(dispute_allows(s, 55)),
        DisputeState::Tombstoned => {},
    }
}

// ============================================================================
// Channel identifier
// ============================================================================

/// A 32-byte channel identifier.
#[derive(Clone, Copy, Debug, PartialEq, Eq, Hash, Default)]
pub struct ChannelId(pub [u8; 32]);

impl ChannelId {
    /// The identifier with the given bytes.
    pub fn new(bytes: [u8; 32]) -> (r: Self)
        ensures
            r.0 == bytes,
    {
        ChannelId(bytes)
    }

    /// The identifier's bytes.
    pub fn as_bytes(&self) -> (r: &[u8; 32])
        ensures
            *r == self.0,
    {
        &self.0
    }
}


// ============================================================================
// Deposit
// ============================================================================

/// A user deposit.
///
/// `balance` is the whole obligation owed on the deposit; `locked_balance`
/// is the part of it earmarked for in-flight operations.
#[derive(Clone, Debug, PartialEq, Eq)]
pub struct Deposit {
    /// Identifier (hash of the original descriptor).
    pub deposit_id: DepositId,
    /// Miniscript descriptor controlling the deposit.
    pub descriptor: String,
    /// Total obligation, in millisatoshis.
    pub balance: u64,
    /// Part of `balance` locked for in-flight operations.
    pub locked_balance: u64,
    /// Outstanding invoices.
    pub invoices: Vec<Invoice>,
    /// Periodic fees.
    pub fees: FeeStructure,
    /// Block of the last fee assessment.
    pub last_fee_assessment: u32,
    /// Per-transfer fees.
    pub transfer_fees: TransferFeeSchedule,
    /// Whether incoming funds need a signature from the deposit key.
    pub receive_requires_sig: bool,
    /// Blocks after opening before fees may change.
    pub fee_change_after_blocks: Option<u32>,
    /// Blocks of notice before a fee change takes effect.
    pub fee_change_notice_blocks: Option<u32>,
    /// Largest fee change per adjustment, in bps of the current fee.
    pub fee_change_limit_bps: Option<u16>,
    /// Block at which the deposit was opened.
    pub opened_at_block: u32,
    /// A pending fee change and the block it takes effect.
    pub pending_fee_change: Option<(FeeStructure, u32)>,
}

/// A deposit as plain values: its invoices as a sequence.
pub struct DepositView {
    pub deposit_id: Seq<u8>,
    pub descriptor: Seq<char>,
    pub balance: u64,
    pub locked_balance: u64,
    pub invoices: Seq<Invoice>,
    pub fees: FeeStructure,
    pub last_fee_assessment: u32,
    pub transfer_fees: TransferFeeSchedule,
    pub receive_requires_sig: bool,
    pub fee_change_after_blocks: Option<u32>,
    pub fee_change_notice_blocks: Option<u32>,
    pub fee_change_limit_bps: Option<u16>,
    pub opened_at_block: u32,
    pub pending_fee_change: Option<(FeeStructure, u32)>,
}

impl View for Deposit {
    type V = DepositView;

    open spec fn view(&self) -> DepositView {
        DepositView {
            deposit_id: self.deposit_id@,
            descriptor: self.descriptor@,
            balance: self.balance,
            locked_balance: self.locked_balance,
            invoices: self.invoices@,
            fees: self.fees,
            last_fee_assessment: self.last_fee_assessment,
            transfer_fees: self.transfer_fees,
            receive_requires_sig: self.receive_requires_sig,
            fee_change_after_blocks: self.fee_change_after_blocks,
            fee_change_notice_blocks: self.fee_change_notice_blocks,
            fee_change_limit_bps: self.fee_change_limit_bps,
            opened_at_block: self.opened_at_block,
            pending_fee_change: self.pending_fee_change,
        }
    }
}

/// `d` has the default settings of a fresh deposit, with fees `fees` and
/// no balance.
pub open spec fn is_fresh_deposit(d: Deposit, fees: FeeStructure) -> bool {
    &&& d.balance == 0
    &&& d.locked_balance == 0
    &&& d.invoices@.len() == 0
    &&& d.fees == fees
    &&& d.last_fee_assessment == 0
    &&& d.transfer_fees == (TransferFeeSchedule { fixed_msats: 2, rate_bps: 20 })
    &&& !d.receive_requires_sig
    &&& d.fee_change_after_blocks is None
    &&& d.fee_change_notice_blocks is None
    &&& d.fee_change_limit_bps is None
    &&& d.opened_at_block == 0
    &&& d.pending_fee_change is None
}

/// The fees a deposit is opened with: the given ones, or the defaults.
pub open spec fn fees_or_default(fees: Option<FeeStructure>) -> FeeStructure {
    match fees {
        Some(f) => f,
        None => FeeStructure { annualized_msats: 0, annualized_bps: 0, frequency_blocks: 2016 },
    }
}

/// The fees due on `d` at `current_block`: none until a full assessment
/// period has passed since the last assessment.
pub open spec fn fees_due(d: Deposit, current_block: u32) -> u64 {
    if current_block <= d.last_fee_assessment {
        0
    } else if current_block - d.last_fee_assessment < d.fees.frequency_blocks {
        0
    } else {
        saturate(
            prorated_fee(d.fees, d.balance, (current_block - d.last_fee_assessment) as u32),
        )
    }
}

/// The single-key descriptor of a compressed public key.
pub open spec fn pk_descriptor(key: Seq<u8>) -> Seq<char> {
    "pk("@ + hex_lower(key) + ")"@
}

impl Deposit {
    /// A fresh deposit controlled by `descriptor`, its identifier computed
    /// from the descriptor.
    pub fn new(descriptor: String, fees: Option<FeeStructure>) -> (r: Self)
        ensures
            r.deposit_id@ == deposit_id_of_descriptor(descriptor@),
            r.descriptor@ == descriptor@,
            is_fresh_deposit(r, fees_or_default(fees)),
    {
        let deposit_id = compute_deposit_id(descriptor.as_str());
        let fees = match fees {
            Some(f) => f,
            None => FeeStructure::default(),
        };
        Deposit {
            deposit_id,
            descriptor,
            balance: 0,
            locked_balance: 0,
            invoices: Vec::new(),
            fees,
            last_fee_assessment: 0,
            transfer_fees: TransferFeeSchedule::default(),
            receive_requires_sig: false,
            fee_change_after_blocks: None,
            fee_change_notice_blocks: None,
            fee_change_limit_bps: None,
            opened_at_block: 0,
            pending_fee_change: None,
        }
    }

    /// A fresh deposit controlled by the single key `pubkey`.
    pub fn from_pubkey(pubkey: &PublicKey, fees: Option<FeeStructure>) -> (r: Self)
        ensures
            r.descriptor@ == pk_descriptor(pubkey@),
            r.deposit_id@ == deposit_id_of_descriptor(pk_descriptor(pubkey@)),
            is_fresh_deposit(r, fees_or_default(fees)),
    {
        let key = pubkey.serialize();
        let hex = hex_encode(key.as_slice());
        let mut descriptor = concat_text("pk(", hex.as_str());
        descriptor.append(")");
        proof {
            reveal_strlit("pk(");
            reveal_strlit(")");
        }
        Self::new(descriptor, fees)
    }

    /// The deposit identifier as lowercase hex.
    pub fn deposit_id_hex(&self) -> (r: String)
        ensures
            r@ == hex_lower(self.deposit_id@),
    {
        hex_encode(self.deposit_id.as_slice())
    }

    /// The spendable balance: balance minus locked, floored at zero.
    pub fn available_balance(&self) -> (r: u64)
        ensures
            r == (if self.balance >= self.locked_balance {
                (self.balance - self.locked_balance) as u64
            } else {
                0
            }),
    {
        self.balance.saturating_sub(self.locked_balance)
    }

    /// Credits `amount`, saturating.
    pub fn credit(&mut self, amount: u64)
        ensures
            final(self).balance == saturate(old(self).balance + amount),
            *final(self) == (Deposit { balance: final(self).balance, ..*old(self) }),
    {
        self.balance = self.balance.saturating_add(amount);
    }

    /// Debits `amount` if the available balance covers it.
    pub fn debit(&mut self, amount: u64) -> (r: Result<(), DepositsError>)
        ensures
            ({
                let available = if old(self).balance >= old(self).locked_balance {
                    (old(self).balance - old(self).locked_balance) as u64
                } else {
                    0
                };
                if available < amount {
                    &&& r == Err::<(), DepositsError>(
                        DepositsError::InsufficientDepositBalance { available, required: amount },
                    )
                    &&& *final(self) == *old(self)
                } else {
                    &&& r is Ok
                    &&& final(self).balance == old(self).balance - amount
                    &&& *final(self) == (Deposit { balance: final(self).balance, ..*old(self) })
                }
            }),
    {
        let available = self.available_balance();
        if available < amount {
            return Err(DepositsError::InsufficientDepositBalance { available, required: amount });
        }
        self.balance = self.balance.saturating_sub(amount);
        Ok(())
    }

    /// Locks `amount` for a pending payment if the available balance covers
    /// it.
    pub fn lock(&mut self, amount: u64) -> (r: Result<(), DepositsError>)
        ensures
            ({
                let available = if old(self).balance >= old(self).locked_balance {
                    (old(self).balance - old(self).locked_balance) as u64
                } else {
                    0
                };
                if available < amount {
                    &&& r == Err::<(), DepositsError>(
                        DepositsError::InsufficientDepositBalance { available, required: amount },
                    )
                    &&& *final(self) == *old(self)
                } else {
                    &&& r is Ok
                    &&& final(self).locked_balance == saturate(old(self).locked_balance + amount)
                    &&& *final(self) == (Deposit {
                        locked_balance: final(self).locked_balance,
                        ..*old(self)
                    })
                }
            }),
    {
        let available = self.available_balance();
        if available < amount {
            return Err(DepositsError::InsufficientDepositBalance { available, required: amount });
        }
        self.locked_balance = self.locked_balance.saturating_add(amount);
        Ok(())
    }

    /// Releases `amount` of locked funds, floored at zero.
    pub fn unlock(&mut self, amount: u64)
        ensures
            final(self).locked_balance == (if old(self).locked_balance >= amount {
                (old(self).locked_balance - amount) as u64
            } else {
                0
            }),
            *final(self) == (Deposit { locked_balance: final(self).locked_balance, ..*old(self) }),
    {
        self.locked_balance = self.locked_balance.saturating_sub(amount);
    }

    /// Settles a locked payment: removes `amount` from both the locked and
    /// the total balance, each floored at zero.
    pub fn fulfill(&mut self, amount: u64)
        ensures
            final(self).locked_balance == (if old(self).locked_balance >= amount {
                (old(self).locked_balance - amount) as u64
            } else {
                0
            }),
            final(self).balance == (if old(self).balance >= amount {
                (old(self).balance - amount) as u64
            } else {
                0
            }),
            *final(self) == (Deposit {
                locked_balance: final(self).locked_balance,
                balance: final(self).balance,
                ..*old(self)
            }),
    {
        self.locked_balance = self.locked_balance.saturating_sub(amount);
        self.balance = self.balance.saturating_sub(amount);
    }

    /// The fees due at `current_block`.
    pub fn calculate_fees_due(&self, current_block: u32) -> (r: u64)
        ensures
            r == fees_due(*self, current_block),
    {
        if current_block <= self.last_fee_assessment {
            return 0;
        }
        let blocks_elapsed = current_block - self.last_fee_assessment;
        if blocks_elapsed < self.fees.frequency_blocks {
            return 0;
        }
        self.fees.calculate_fee(self.balance, blocks_elapsed)
    }

    /// Collects the fees due at `current_block` when the available balance
    /// (the balance less its locked part) covers them, recording the
    /// assessment; returns the fees due either way. The locked balance stays
    /// part of the balance.
    pub fn collect_fees(&mut self, current_block: u32) -> (r: u64)
        ensures
            r == fees_due(*old(self), current_block),
            (r > 0 && r + old(self).locked_balance <= old(self).balance) ==> *final(self) == (Deposit {
                balance: (old(self).balance - r) as u64,
                last_fee_assessment: current_block,
                ..*old(self)
            }),
            !(r > 0 && r + old(self).locked_balance <= old(self).balance) ==> *final(self) == *old(self),
            old(self).locked_balance <= old(self).balance ==> final(self).locked_balance <= final(self).balance,
    {
        let fee = self.calculate_fees_due(current_block);
        if fee > 0 && fee <= self.available_balance() && self.locked_balance <= self.balance {
            self.balance = self.balance - fee;
            self.last_fee_assessment = current_block;
        }
        fee
    }
}

} // verus!
