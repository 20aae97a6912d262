//! Conformance of ledger states: the protocol rules a state reached by an
//! operation must keep, checked against a witness verifier.

use vstd::prelude::*;

use crate::crypto::{sha256, sha256_of};
use crate::error::DepositsError;
use crate::ledger_state::{
    apply_in_range, balance_sum, fault_is, ledger_apply, LedgerModel, LedgerState,
};
use crate::operation::LedgerOperation;
use crate::pubkey::PublicKey;
use crate::signing::{
    invoice_lock_message, invoice_lock_signing_message, transfer_lock_message,
    transfer_lock_signing_message, withdrawal_signing_message,
};
use crate::text::{concat_text, decimal_digits, text_with_numbers, utf8_bytes};
use crate::types::{saturate, DescriptorWitness};
use crate::withdrawal::{text_digest, withdrawal_message};

verus! {

/// A violation of the protocol's conformance rules in a ledger state.
#[derive(Clone, Debug, PartialEq, Eq)]
pub enum ConformanceViolation {
    /// Total deposit balances exceed the declared reserves.
    InsufficientReserves { reserves: u64, obligations: u64 },
    /// A witness or signature failed verification.
    InvalidWitness { operation: &'static str, detail: String },
    /// A protocol rule was violated.
    ProtocolRule { rule: &'static str, detail: String },
}

/// A conformance violation as plain values.
pub enum ViolationView {
    InsufficientReserves(u64, u64),
    InvalidWitness(Seq<char>, Seq<char>),
    ProtocolRule(Seq<char>, Seq<char>),
}

impl View for ConformanceViolation {
    type V = ViolationView;

    open spec fn view(&self) -> ViolationView {
        match self {
            ConformanceViolation::InsufficientReserves { reserves, obligations } => ViolationView::InsufficientReserves(
                *reserves,
                *obligations,
            ),
            ConformanceViolation::InvalidWitness { operation, detail } => ViolationView::InvalidWitness(
                operation@,
                detail@,
            ),
            ConformanceViolation::ProtocolRule { rule, detail } => ViolationView::ProtocolRule(
                rule@,
                detail@,
            ),
        }
    }
}

/// The text describing a violation.
pub open spec fn violation_text(v: ViolationView) -> Seq<char> {
    match v {
        ViolationView::InsufficientReserves(reserves, obligations) => "reserves ("@ + decimal_digits(
            reserves as nat,
        ) + ") < obligations ("@ + decimal_digits(obligations as nat) + ")"@,
        ViolationView::InvalidWitness(operation, detail) => "invalid witness in "@ + operation + ": "@
            + detail,
        ViolationView::ProtocolRule(rule, detail) => "protocol rule '"@ + rule + "' violated: "@ + detail,
    }
}

impl ConformanceViolation {
    /// The text describing this violation.
    pub fn describe(&self) -> (r: String)
        ensures
            r@ == violation_text(self@),
    {
        match self {
            ConformanceViolation::InsufficientReserves { reserves, obligations } => {
                let mut r = text_with_numbers("reserves (", *reserves, ") < obligations (", *obligations);
                r.append(")");
                r
            },
            ConformanceViolation::InvalidWitness { operation, detail } => {
                let mut r = concat_text("invalid witness in ", operation);
                r.append(": ");
                r.append(detail.as_str());
                r
            },
            ConformanceViolation::ProtocolRule { rule, detail } => {
                let mut r = concat_text("protocol rule '", rule);
                r.append("' violated: ");
                r.append(detail.as_str());
                r
            },
        }
    }
}

/// Verifies witnesses and signatures for conformance checks. Each
/// implementation names what it accepts.
pub trait WitnessVerifier {
    /// `witness` satisfies `descriptor` for the digest `message_hash`.
    spec fn accepts_witness(&self, descriptor: Seq<char>, witness: Seq<Seq<u8>>, message_hash: Seq<u8>) -> bool;

    /// `signature` is valid for `pubkey` over `message`.
    spec fn accepts_signature(&self, pubkey: Seq<u8>, message: Seq<u8>, signature: Seq<u8>) -> bool;

    /// Verifies a descriptor witness against a message digest.
    fn verify_witness(&self, descriptor: &str, witness: &DescriptorWitness, message_hash: &[u8; 32]) -> (r:
        bool)
        ensures
            r == self.accepts_witness(descriptor@, witness@, message_hash@),
    ;

    /// Verifies a 64-byte signature.
    fn verify_signature(&self, pubkey: &PublicKey, message: &[u8; 32], signature: &[u8; 64]) -> (r: bool)
        ensures
            r == self.accepts_signature(pubkey@, message@, signature@),
    ;
}

/// A verifier that accepts every witness and signature.
pub struct NoVerify;

impl WitnessVerifier for NoVerify {
    open spec fn accepts_witness(&self, descriptor: Seq<char>, witness: Seq<Seq<u8>>, message_hash: Seq<u8>) -> bool {
        true
    }

    open spec fn accepts_signature(&self, pubkey: Seq<u8>, message: Seq<u8>, signature: Seq<u8>) -> bool {
        true
    }

    fn verify_witness(&self, descriptor: &str, witness: &DescriptorWitness, message_hash: &[u8; 32]) -> (r:
        bool) {
        true
    }

    fn verify_signature(&self, pubkey: &PublicKey, message: &[u8; 32], signature: &[u8; 64]) -> (r: bool) {
        true
    }
}

/// The reserve violation after `op`: reserves below the obligations after an
/// operation that credits a deposit.
pub open spec fn reserve_violations(s: LedgerState, op: LedgerOperation) -> Seq<ViolationView> {
    let obligations = saturate(balance_sum(s.deposits@));
    if (op is InvoiceCredit || op is OnchainCredit || op is TransferComplete) && s.reserves_amount
        < obligations {
        seq![ViolationView::InsufficientReserves(s.reserves_amount, obligations)]
    } else {
        seq![]
    }
}

/// The violation for a witness that does not satisfy deposit `id`'s
/// descriptor in `s` over `message`, where the deposit exists.
pub open spec fn witness_violation<V: WitnessVerifier>(
    verifier: V,
    s: LedgerModel,
    id: Seq<u8>,
    witness: Seq<Seq<u8>>,
    message: Seq<u8>,
    operation: Seq<char>,
    detail: Seq<char>,
) -> Seq<ViolationView> {
    if s.deposits.contains_key(id) && !verifier.accepts_witness(
        s.deposits[id].descriptor,
        witness,
        message,
    ) {
        seq![ViolationView::InvalidWitness(operation, detail)]
    } else {
        seq![]
    }
}

/// The witness violations of the state `s` reached by `op` from `pre`.
pub open spec fn witness_violations<V: WitnessVerifier>(
    verifier: V,
    s: LedgerModel,
    op: LedgerOperation,
    pre: Option<LedgerModel>,
) -> Seq<ViolationView> {
    match op {
        LedgerOperation::InvoiceLock { deposit_id, amount, payment_id, witness, .. } => witness_violation(
            verifier,
            s,
            deposit_id@,
            witness@,
            text_digest(invoice_lock_message(deposit_id@, payment_id@, amount)),
            "InvoiceLock"@,
            "witness does not satisfy deposit descriptor"@,
        ),
        LedgerOperation::InvoiceFulfill { deposit_id, amount, payment_id, witness, preimage, .. } =>
            witness_violation(
            verifier,
            s,
            deposit_id@,
            witness@,
            text_digest(invoice_lock_message(deposit_id@, payment_id@, amount)),
            "InvoiceFulfill"@,
            "witness does not satisfy deposit descriptor"@,
        ) + if sha256_of(preimage@) != payment_id@ {
            seq![ViolationView::InvalidWitness("InvoiceFulfill"@, "preimage does not match payment hash"@)]
        } else {
            seq![]
        },
        LedgerOperation::OnchainLock {
            deposit_id,
            amount,
            fee_sats,
            destination_address,
            withdrawal_id,
            witness,
        } => witness_violation(
            verifier,
            s,
            deposit_id@,
            witness@,
            text_digest(
                withdrawal_message(withdrawal_id@, deposit_id@, destination_address@, amount, fee_sats),
            ),
            "OnchainLock"@,
            "witness does not satisfy deposit descriptor"@,
        ),
        LedgerOperation::TransferLock {
            nonce,
            source_deposit_id,
            destination_deposit_id,
            amount,
            fee,
            completion_script,
            timeout_height,
            witness,
            ..
        } => witness_violation(
            verifier,
            s,
            source_deposit_id@,
            witness@,
            text_digest(
                transfer_lock_message(
                    nonce@,
                    source_deposit_id@,
                    destination_deposit_id@,
                    amount,
                    fee,
                    completion_script@,
                    timeout_height,
                ),
            ),
            "TransferLock"@,
            "witness does not satisfy source deposit descriptor"@,
        ),
        LedgerOperation::DepositKeyRotate { deposit_id, new_descriptor, witness } => match pre {
            Some(p) => witness_violation(
                verifier,
                p,
                deposit_id@,
                witness@,
                text_digest(new_descriptor@),
                "DepositKeyRotate"@,
                "witness does not satisfy old deposit descriptor"@,
            ),
            None => seq![],
        },
        _ => seq![],
    }
}

/// The model of an optional state.
pub open spec fn opt_model(o: Option<&LedgerState>) -> Option<LedgerModel> {
    match o {
        Some(s) => Some(s@),
        None => None,
    }
}

/// The violations of the state `s` reached by `op` from `pre`: first the
/// reserve check, then the witness checks.
pub open spec fn conformance_violations<V: WitnessVerifier>(
    verifier: V,
    s: LedgerState,
    op: LedgerOperation,
    pre: Option<LedgerModel>,
) -> Seq<ViolationView> {
    reserve_violations(s, op) + witness_violations(verifier, s@, op, pre)
}

/// `e` refuses a state with violations `vs`: a protocol violation of type
/// "conformance" describing the first.
pub open spec fn refused_for(e: DepositsError, vs: Seq<ViolationView>) -> bool {
    &&& vs.len() > 0
    &&& e is ProtocolViolation
    &&& e->ProtocolViolation_violation_type@ == "conformance"@
    &&& e->ProtocolViolation_details@ == violation_text(vs[0])
}

/// The views of violations.
pub open spec fn violation_views(vs: Seq<ConformanceViolation>) -> Seq<ViolationView> {
    vs.map_values(|v: ConformanceViolation| v@)
}

/// Checks whether deposit `id` exists with a descriptor the witness
/// satisfies over `message`; records a violation if it does not.
fn check_witness<V: WitnessVerifier>(
    verifier: &V,
    state: &LedgerState,
    id: &[u8; 16],
    witness: &DescriptorWitness,
    message: &[u8; 32],
    operation: &'static str,
    detail: &str,
    out: &mut Vec<ConformanceViolation>,
)
    requires
        state.wf(),
    ensures
        violation_views(final(out)@) == violation_views(old(out)@) + witness_violation(
            *verifier,
            state@,
            id@,
            witness@,
            message@,
            operation@,
            detail@,
        ),
{
    match crate::ledger_state::find_deposit(state, id) {
        Some(i) => {
            let descriptor = state.deposits[i].1.descriptor.as_str();
            if !verifier.verify_witness(descriptor, witness, message) {
                let v = ConformanceViolation::InvalidWitness { operation, detail: detail.to_owned() };
                let ghost before = out@;
                out.push(v);
                assert(violation_views(out@) =~= violation_views(before).push(v@));
            } else {
                assert(violation_views(out@) =~= violation_views(out@) + Seq::<ViolationView>::empty());
            }
        },
        None => {
            assert(violation_views(out@) =~= violation_views(out@) + Seq::<ViolationView>::empty());
        },
    }
}

impl LedgerState {
    /// The conformance violations of this state, reached by `operation`
    /// from `pre_state` (`None` skips the checks that need it).
    pub fn check_conformance<V: WitnessVerifier>(
        &self,
        operation: &LedgerOperation,
        pre_state: Option<&LedgerState>,
        verifier: &V,
    ) -> (r: Vec<ConformanceViolation>)
        requires
            self.wf(),
            pre_state matches Some(p) ==> p.wf(),
        ensures
            violation_views(r@) == conformance_violations(
                *verifier,
                *self,
                *operation,
                opt_model(pre_state),
            ),
    {
        let mut violations: Vec<ConformanceViolation> = Vec::new();
        match operation {
            LedgerOperation::InvoiceCredit { .. }
            | LedgerOperation::OnchainCredit { .. }
            | LedgerOperation::TransferComplete { .. } => {
                let obligations = self.total_deposit_balance();
                if self.reserves_amount < obligations {
                    violations.push(
                        ConformanceViolation::InsufficientReserves {
                            reserves: self.reserves_amount,
                            obligations,
                        },
                    );
                }
            },
            _ => {},
        }
        assert(violation_views(violations@) =~= reserve_violations(*self, *operation));
        let ghost base = violation_views(violations@);
        match operation {
            LedgerOperation::InvoiceLock { deposit_id, amount, payment_id, witness, .. } => {
                let msg = invoice_lock_signing_message(deposit_id, payment_id, *amount);
                check_witness(
                    verifier,
                    self,
                    deposit_id,
                    witness,
                    &msg,
                    "InvoiceLock",
                    "witness does not satisfy deposit descriptor",
                    &mut violations,
                );
            },
            LedgerOperation::InvoiceFulfill { deposit_id, amount, payment_id, witness, preimage, .. } => {
                let msg = invoice_lock_signing_message(deposit_id, payment_id, *amount);
                check_witness(
                    verifier,
                    self,
                    deposit_id,
                    witness,
                    &msg,
                    "InvoiceFulfill",
                    "witness does not satisfy deposit descriptor",
                    &mut violations,
                );
                let ghost mid = violation_views(violations@);
                let hash = sha256(preimage.as_slice());
                if !crate::bytes::bytes_eq(hash.as_slice(), payment_id.as_slice()) {
                    let v = ConformanceViolation::InvalidWitness {
                        operation: "InvoiceFulfill",
                        detail: "preimage does not match payment hash".to_owned(),
                    };
                    violations.push(v);
                    assert(violation_views(violations@) =~= mid.push(v@));
                }
            },
            LedgerOperation::OnchainLock {
                deposit_id,
                amount,
                fee_sats,
                destination_address,
                withdrawal_id,
                witness,
            } => {
                let msg = withdrawal_signing_message(
                    withdrawal_id,
                    deposit_id,
                    destination_address.as_str(),
                    *amount,
                    *fee_sats,
                );
                check_witness(
                    verifier,
                    self,
                    deposit_id,
                    witness,
                    &msg,
                    "OnchainLock",
                    "witness does not satisfy deposit descriptor",
                    &mut violations,
                );
            },
            LedgerOperation::TransferLock {
                nonce,
                source_deposit_id,
                destination_deposit_id,
                amount,
                fee,
                completion_script,
                timeout_height,
                witness,
                ..
            } => {
                let msg = transfer_lock_signing_message(
                    nonce,
                    source_deposit_id,
                    destination_deposit_id,
                    *amount,
                    *fee,
                    completion_script.as_str(),
                    *timeout_height,
                );
                check_witness(
                    verifier,
                    self,
                    source_deposit_id,
                    witness,
                    &msg,
                    "TransferLock",
                    "witness does not satisfy source deposit descriptor",
                    &mut violations,
                );
            },
            LedgerOperation::DepositKeyRotate { deposit_id, new_descriptor, witness } => {
                match pre_state {
                    Some(pre) => {
                        let bytes = utf8_bytes(new_descriptor.as_str());
                        let msg = sha256(bytes.as_slice());
                        check_witness(
                            verifier,
                            pre,
                            deposit_id,
                            witness,
                            &msg,
                            "DepositKeyRotate",
                            "witness does not satisfy old deposit descriptor",
                            &mut violations,
                        );
                    },
                    None => {
                        assert(violation_views(violations@) =~= base + Seq::<ViolationView>::empty());
                    },
                }
            },
            _ => {
                assert(violation_views(violations@) =~= base + Seq::<ViolationView>::empty());
            },
        }
        violations
    }

    /// Applies `operation` and checks the resulting state's conformance;
    /// the state is returned whether it conforms or not.
    pub fn apply_with_verifier<V: WitnessVerifier>(&self, operation: &LedgerOperation, verifier: &V) -> (r:
        Result<(LedgerState, Vec<ConformanceViolation>), DepositsError>)
        requires
            self.wf(),
            apply_in_range(self@, *operation),
        ensures
            match ledger_apply(self@, *operation) {
                Ok(m) => r is Ok && r->Ok_0.0@ == m && r->Ok_0.0.wf() && violation_views(r->Ok_0.1@)
                    == conformance_violations(*verifier, r->Ok_0.0, *operation, Some(self@)),
                Err(f) => r is Err && fault_is(r->Err_0, f),
            },
    {
        let next = match self.apply(operation) {
            Ok(n) => n,
            Err(e) => {
                return Err(e);
            },
        };
        let violations = next.check_conformance(operation, Some(self), verifier);
        Ok((next, violations))
    }

    /// Applies `operation`, refusing a result that does not conform: the
    /// first violation is reported as a protocol violation.
    pub fn check_and_apply<V: WitnessVerifier>(&self, operation: &LedgerOperation, verifier: &V) -> (r: Result<
        LedgerState,
        DepositsError,
    >)
        requires
            self.wf(),
            apply_in_range(self@, *operation),
        ensures
            match ledger_apply(self@, *operation) {
                Ok(m) => {
                    ||| (r is Ok && r->Ok_0@ == m && r->Ok_0.wf() && conformance_violations(
                        *verifier,
                        r->Ok_0,
                        *operation,
                        Some(self@),
                    ).len() == 0)
                    ||| (r is Err && exists|n: LedgerState|
                        #![trigger n@]
                        n@ == m && n.wf() && refused_for(
                            r->Err_0,
                            conformance_violations(*verifier, n, *operation, Some(self@)),
                        ))
                },
                Err(f) => r is Err && fault_is(r->Err_0, f),
            },
    {
        let (next, violations) = match self.apply_with_verifier(operation, verifier) {
            Ok(p) => p,
            Err(e) => {
                return Err(e);
            },
        };
        if violations.len() > 0 {
            let details = violations[0].describe();
            return Err(DepositsError::ProtocolViolation { violation_type: "conformance".to_owned(), details });
        }
        Ok(next)
    }
}

/// After an operation that credits a deposit (an invoice credit, an
/// on-chain credit or a completed transfer), the violations report
/// insufficient reserves exactly when the reserves fall below the deposits'
/// balances summed (saturating), and then first, naming both amounts; after
/// any other operation they never do.
pub proof fn lemma_credit_checks_reserves<V: WitnessVerifier>(
    verifier: V,
    s: LedgerState,
    op: LedgerOperation,
    pre: Option<LedgerModel>,
)
    ensures
        ({
            let vs = conformance_violations(verifier, s, op, pre);
            let total = saturate(balance_sum(s.deposits@));
            let credits = op is InvoiceCredit || op is OnchainCredit || op is TransferComplete;
            &&& (exists|i: int| 0 <= i < vs.len() && #[trigger] vs[i] is InsufficientReserves) <==> (credits
                && s.reserves_amount < total)
            &&& credits && s.reserves_amount < total ==> vs[0] == ViolationView::InsufficientReserves(
                s.reserves_amount,
                total,
            )
        }),
{
    let vs = conformance_violations(verifier, s, op, pre);
    let rv = reserve_violations(s, op);
    let wv = witness_violations(verifier, s@, op, pre);
    assert(vs == rv + wv);
    assert forall|i: int| 0 <= i < wv.len() implies !(#[trigger] wv[i] is InsufficientReserves) by {
        match op {
            LedgerOperation::InvoiceFulfill { deposit_id, amount, payment_id, witness, preimage, .. } => {
                let a = witness_violation(
                    verifier,
                    s@,
                    deposit_id@,
                    witness@,
                    text_digest(invoice_lock_message(deposit_id@, payment_id@, amount)),
                    "InvoiceFulfill"@,
                    "witness does not satisfy deposit descriptor"@,
                );
                if i < a.len() {
                    assert(wv[i] == a[i]);
                } else {
                    assert(wv[i] == (wv.subrange(a.len() as int, wv.len() as int))[i - a.len()]);
                }
            },
            _ => {},
        }
    }
    if exists|i: int| 0 <= i < vs.len() && #[trigger] vs[i] is InsufficientReserves {
        let i = choose|i: int| 0 <= i < vs.len() && #[trigger] vs[i] is InsufficientReserves;
        if i >= rv.len() {
            assert(vs[i] == wv[i - rv.len()]);
            assert(wv[i - rv.len()] is InsufficientReserves);
        }
    }
    let credits = op is InvoiceCredit || op is OnchainCredit || op is TransferComplete;
    if credits && s.reserves_amount < saturate(balance_sum(s.deposits@)) {
        assert(vs[0] == rv[0]);
    }
}

} // verus!
