//! The laws of the four policies, stated over the mathematical views the
//! operation contracts speak of and proved once for all states.

use vstd::prelude::*;
use crate::tally::{first_position, lemma_count_true_update, lemma_first_position};
use crate::types::{ConditionalPaymentView, EscrowData, Identity, MultiSigView};

verus! {

/// A signature raises the approval count by exactly one the first time a
/// signer signs and leaves it unchanged when that signer had already
/// signed; so the count is the number of distinct signers who have
/// signed, and quorum holds exactly when it reaches the threshold.
pub proof fn lemma_sign_approvals(m: MultiSigView, s: Identity)
    requires
        m.wf(),
        m.participant(s),
    ensures
        m.signed[first_position(m.signers, s)] ==> m.sign(s).approvals() == m.approvals(),
        !m.signed[first_position(m.signers, s)] ==> m.sign(s).approvals() == m.approvals() + 1,
        m.sign(s).quorum() <==> m.sign(s).approvals() >= m.required_signatures,
{
    lemma_first_position(m.signers, s);
    lemma_count_true_update(m.signed, first_position(m.signers, s));
}

/// Signing twice by the same identity is a no-op: the second signature
/// changes neither the flags nor, therefore, the approval count.
pub proof fn lemma_sign_idempotent(m: MultiSigView, s: Identity)
    requires
        m.wf(),
        m.participant(s),
    ensures
        m.sign(s).sign(s) == m.sign(s),
{
    lemma_first_position(m.signers, s);
    assert(m.sign(s).sign(s).signed =~= m.sign(s).signed);
    assert(m.sign(s).sign(s) =~= m.sign(s));
}

/// The order of signing does not matter: two signatures commute.
pub proof fn lemma_sign_commutes(m: MultiSigView, s1: Identity, s2: Identity)
    requires
        m.wf(),
        m.participant(s1),
        m.participant(s2),
    ensures
        m.sign(s1).sign(s2) == m.sign(s2).sign(s1),
{
    lemma_first_position(m.signers, s1);
    lemma_first_position(m.signers, s2);
    assert(m.sign(s1).sign(s2).signed =~= m.sign(s2).sign(s1).signed);
    assert(m.sign(s1).sign(s2) =~= m.sign(s2).sign(s1));
}

/// Quorum never regresses under signing: once reached, every further
/// signature keeps it reached.
pub proof fn lemma_quorum_monotone(m: MultiSigView, s: Identity)
    requires
        m.wf(),
        m.participant(s),
        m.quorum(),
    ensures
        m.sign(s).quorum(),
{
    lemma_sign_approvals(m, s);
}

/// Deadline validity is monotone in ledger time: once the clock has
/// reached the deadline, no later reading is valid again.
pub proof fn lemma_time_valid_monotone(deadline: u64, t1: u64, t2: u64)
    requires
        t1 <= t2,
        !crate::contract::time_valid(t1, deadline),
    ensures
        !crate::contract::time_valid(t2, deadline),
{
}

/// An empty checklist is complete from the start.
pub proof fn lemma_empty_checklist_complete(p: ConditionalPaymentView)
    requires
        p.conditions_met.len() == 0,
    ensures
        p.complete(),
{
}

/// Fulfilling the same condition twice is a no-op.
pub proof fn lemma_fulfill_idempotent(p: ConditionalPaymentView, i: int)
    requires
        0 <= i < p.conditions_met.len(),
    ensures
        p.fulfill(i).fulfill(i) == p.fulfill(i),
{
    assert(p.fulfill(i).fulfill(i).conditions_met =~= p.fulfill(i).conditions_met);
    assert(p.fulfill(i).fulfill(i) =~= p.fulfill(i));
}

/// Fulfillment is monotone: a fulfilled condition stays fulfilled under
/// further fulfillments, and a complete checklist stays complete.
pub proof fn lemma_fulfill_monotone(p: ConditionalPaymentView, i: int, j: int)
    requires
        0 <= i < p.conditions_met.len(),
        0 <= j < p.conditions_met.len(),
    ensures
        p.conditions_met[j] ==> p.fulfill(i).conditions_met[j],
        p.complete() ==> p.fulfill(i).complete(),
{
}

/// The completeness check is exact: a checklist is complete if and only
/// if every entry has been individually fulfilled.
pub proof fn lemma_complete_iff_each_fulfilled(p: ConditionalPaymentView)
    ensures
        p.complete() <==> (forall|k: int|
            0 <= k < p.conditions_met.len() ==> p.conditions_met[k]),
{
}

/// Releasing an already-released escrow record changes nothing: the
/// released state is terminal.
pub proof fn lemma_release_idempotent(e: EscrowData)
    requires
        e.released,
    ensures
        (EscrowData { released: true, ..e }) == e,
{
}

/// Release eligibility is monotone in ledger time: once the clock has
/// reached the release time, every later reading is also past it.
pub proof fn lemma_release_monotone(release_time: u64, t1: u64, t2: u64)
    requires
        t1 <= t2,
        t1 >= release_time,
    ensures
        t2 >= release_time,
{
}

/// A multisig setup wholly replaces the slot: the stored configuration
/// after setup is a function of the arguments alone, so two setups with
/// the same arguments agree whatever stood in the slot before either.
pub proof fn lemma_setup_multisig_replaces(
    m1: MultiSigView,
    m2: MultiSigView,
    required_signatures: u32,
    signers: Seq<Identity>,
)
    requires
        m1.required_signatures == required_signatures,
        m1.signers == signers,
        m1.signed == Seq::new(signers.len(), |i: int| false),
        m2.required_signatures == required_signatures,
        m2.signers == signers,
        m2.signed == Seq::new(signers.len(), |i: int| false),
    ensures
        m1 == m2,
{
    assert(m1 =~= m2);
}

/// A conditional-payment setup wholly replaces the slot, in the same
/// sense: the stored record is a function of the arguments alone.
pub proof fn lemma_setup_conditional_replaces(
    p1: ConditionalPaymentView,
    p2: ConditionalPaymentView,
    sender: Identity,
    receiver: Identity,
    amount: i128,
    conditions: Seq<Seq<char>>,
)
    requires
        p1.sender == sender,
        p1.receiver == receiver,
        p1.amount == amount,
        p1.conditions == conditions,
        p1.conditions_met == Seq::new(conditions.len(), |i: int| false),
        p2.sender == sender,
        p2.receiver == receiver,
        p2.amount == amount,
        p2.conditions == conditions,
        p2.conditions_met == Seq::new(conditions.len(), |i: int| false),
    ensures
        p1 == p2,
{
    assert(p1 =~= p2);
}

} // verus!
