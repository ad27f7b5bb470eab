//! The data model: identities, errors, the store's key namespace, and the
//! per-policy records together with their mathematical views.

use vstd::prelude::*;

verus! {

/// An on-ledger identity (an account address), reduced to the numeric
/// handle the policies compare for equality. The cryptographic check that
/// a call was really authorized by an identity is the ledger's job; the
/// policies receive the already-authenticated caller.
#[derive(Clone, Copy, PartialEq, Eq, Structural, Debug)]
pub struct Identity {
    pub id: u64,
}

/// Why an operation was refused. Every error aborts the whole call: the
/// caller sees the reason and no state change.
#[derive(Clone, Copy, PartialEq, Eq, Structural, Debug)]
pub enum ContractError {
    /// A read targeted a store slot that was never set.
    Uninitialized,
    /// The caller fails the identity check of an admin-gated operation.
    Unauthorized,
    /// A signer tried to sign without appearing in the configured list.
    NotAParticipant,
    /// A condition index at or beyond the configured list length.
    IndexOutOfRange,
}

/// The closed key namespace of the contract's keyed store: one slot per key.
#[derive(Clone, Copy, PartialEq, Eq, Structural, Debug)]
pub enum DataKey {
    Admin,
    Signers,
    TimeLimit,
    Conditions,
    EscrowData,
}

/// Multi-signature policy state: a threshold and, per configured signer,
/// whether that signer has signed in the current configuration epoch.
#[derive(Debug)]
pub struct MultiSigData {
    pub required_signatures: u32,
    pub signers: Vec<Identity>,
    pub signed: Vec<bool>,
}

/// Mathematical view of [`MultiSigData`].
#[verifier::ext_equal]
pub struct MultiSigView {
    pub required_signatures: u32,
    pub signers: Seq<Identity>,
    pub signed: Seq<bool>,
}

impl View for MultiSigData {
    type V = MultiSigView;

    open spec fn view(&self) -> MultiSigView {
        MultiSigView {
            required_signatures: self.required_signatures,
            signers: self.signers@,
            signed: self.signed@,
        }
    }
}

impl MultiSigView {
    /// The one structural invariant: one signed flag per signer.
    pub open spec fn wf(self) -> bool {
        self.signed.len() == self.signers.len()
    }

    /// Whether `s` is one of the configured signers.
    pub open spec fn participant(self, s: Identity) -> bool {
        self.signers.contains(s)
    }

    /// The configuration after `s` signs: the flag at the first position
    /// of `s` in the signer list is set. Meaningful when `participant(s)`.
    pub open spec fn sign(self, s: Identity) -> MultiSigView {
        MultiSigView {
            signed: self.signed.update(
                crate::tally::first_position(self.signers, s),
                true,
            ),
            ..self
        }
    }

    /// How many configured signers have signed.
    pub open spec fn approvals(self) -> nat {
        crate::tally::count_true(self.signed)
    }

    /// Quorum: at least `required_signatures` signers have signed.
    pub open spec fn quorum(self) -> bool {
        self.approvals() >= self.required_signatures
    }
}

impl MultiSigData {
    pub open spec fn wf(&self) -> bool {
        self@.wf()
    }
}

/// Conditional-payment policy state: the parties and amount, a list of
/// condition labels, and per condition whether it has been fulfilled.
#[derive(Debug)]
pub struct ConditionalPayment {
    pub sender: Identity,
    pub receiver: Identity,
    pub amount: i128,
    pub conditions: Vec<String>,
    pub conditions_met: Vec<bool>,
}

/// Mathematical view of [`ConditionalPayment`].
#[verifier::ext_equal]
pub struct ConditionalPaymentView {
    pub sender: Identity,
    pub receiver: Identity,
    pub amount: i128,
    pub conditions: Seq<Seq<char>>,
    pub conditions_met: Seq<bool>,
}

impl View for ConditionalPayment {
    type V = ConditionalPaymentView;

    open spec fn view(&self) -> ConditionalPaymentView {
        ConditionalPaymentView {
            sender: self.sender,
            receiver: self.receiver,
            amount: self.amount,
            conditions: self.conditions@.map_values(|c: String| c@),
            conditions_met: self.conditions_met@,
        }
    }
}

impl ConditionalPaymentView {
    /// The one structural invariant: one fulfilled flag per condition.
    pub open spec fn wf(self) -> bool {
        self.conditions_met.len() == self.conditions.len()
    }

    /// The record after condition `i` is fulfilled. Meaningful when
    /// `i < conditions.len()`.
    pub open spec fn fulfill(self, i: int) -> ConditionalPaymentView {
        ConditionalPaymentView { conditions_met: self.conditions_met.update(i, true), ..self }
    }

    /// Whether every configured condition has been fulfilled. Vacuously
    /// true of an empty checklist.
    pub open spec fn complete(self) -> bool {
        crate::tally::all_true(self.conditions_met)
    }
}

impl ConditionalPayment {
    pub open spec fn wf(&self) -> bool {
        self@.wf()
    }
}

/// Escrow policy state: the parties and amount, the earliest release time,
/// and whether release has been authorized. All fields are plain values,
/// so the record is its own mathematical view.
#[derive(Clone, Copy, PartialEq, Eq, Structural, Debug)]
pub struct EscrowData {
    pub sender: Identity,
    pub receiver: Identity,
    pub amount: i128,
    pub release_time: u64,
    pub released: bool,
}

} // verus!
