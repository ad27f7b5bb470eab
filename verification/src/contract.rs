//! The contract state and its operations.
//!
//! [`StellarSmartContracts`] is the whole stored state of one contract
//! instance: the keyed store, one field per [`DataKey`] slot. The ledger
//! around it is modeled as plain values: each operation receives the
//! identity the ledger authenticated for the current call and, where time
//! matters, the current ledger timestamp. Every operation either applies
//! in full or returns an error and leaves the state untouched.

use vstd::prelude::*;
use crate::tally::{
    all_true, count_true, first_position, lemma_count_true_take_step, lemma_first_position,
};
use crate::types::{
    ConditionalPayment, ContractError, DataKey, EscrowData, Identity, MultiSigData,
};
use crate::decimal::{dec_rep, u64_to_dec_string};

verus! {

/// A timestamp is valid with respect to a deadline while it lies
/// strictly before it.
pub open spec fn time_valid(current_time: u64, deadline: u64) -> bool {
    current_time < deadline
}

/// The keyed store of one contract instance: one slot per [`DataKey`],
/// each empty until its setup operation has run.
#[verifier::ext_equal]
pub struct StellarSmartContracts {
    pub admin: Option<Identity>,
    pub signers: Option<MultiSigData>,
    pub time_limit: Option<u64>,
    pub conditions: Option<ConditionalPayment>,
    pub escrow_data: Option<EscrowData>,
}

impl StellarSmartContracts {
    /// Structural well-formedness of the stored records: each flag
    /// sequence is as long as the list it annotates.
    pub open spec fn wf(&self) -> bool {
        &&& (self.signers matches Some(m) ==> m.wf())
        &&& (self.conditions matches Some(p) ==> p.wf())
    }

    /// Whether the slot under `key` has been set.
    pub open spec fn spec_has(&self, key: DataKey) -> bool {
        match key {
            DataKey::Admin => self.admin is Some,
            DataKey::Signers => self.signers is Some,
            DataKey::TimeLimit => self.time_limit is Some,
            DataKey::Conditions => self.conditions is Some,
            DataKey::EscrowData => self.escrow_data is Some,
        }
    }

    /// A fresh instance with every slot empty.
    pub fn new() -> (s: Self)
        ensures
            s.admin is None,
            s.signers is None,
            s.time_limit is None,
            s.conditions is None,
            s.escrow_data is None,
            s.wf(),
    {
        StellarSmartContracts {
            admin: None,
            signers: None,
            time_limit: None,
            conditions: None,
            escrow_data: None,
        }
    }

    /// Whether the slot under `key` has been set.
    pub fn has(&self, key: DataKey) -> (r: bool)
        ensures
            r == self.spec_has(key),
    {
        match key {
            DataKey::Admin => self.admin.is_some(),
            DataKey::Signers => self.signers.is_some(),
            DataKey::TimeLimit => self.time_limit.is_some(),
            DataKey::Conditions => self.conditions.is_some(),
            DataKey::EscrowData => self.escrow_data.is_some(),
        }
    }

    /// Stores `admin` as the sole admin if none is stored yet; a silent
    /// no-op otherwise. Establishing the very first admin is inherently
    /// un-gated: the call itself carries no authorization check.
    pub fn initialize(&mut self, admin: Identity)
        ensures
            old(self).admin is None ==> *final(self) == (StellarSmartContracts {
                admin: Some(admin),
                ..*old(self)
            }),
            old(self).admin is Some ==> *final(self) == *old(self),
    {
        if !self.has(DataKey::Admin) {
            self.admin = Some(admin);
        }
    }

    /// The stored admin identity, or `Uninitialized` when none was set.
    pub fn get_admin(&self) -> (r: Result<Identity, ContractError>)
        ensures
            r == match self.admin {
                Some(a) => Ok::<Identity, ContractError>(a),
                None => Err::<Identity, ContractError>(ContractError::Uninitialized),
            },
    {
        match self.admin {
            Some(a) => Ok(a),
            None => Err(ContractError::Uninitialized),
        }
    }

    /// Configures the multi-signature policy, wholly replacing any prior
    /// configuration under the slot and marking every signer unsigned.
    /// Admin-gated: `caller` is the identity the ledger authenticated.
    ///
    /// The threshold is deliberately not validated against the signer
    /// count: a `required_signatures` above `signers.len()` makes quorum
    /// permanently unreachable, and that is accepted stored state.
    pub fn setup_multisig(
        &mut self,
        caller: Identity,
        required_signatures: u32,
        signers: Vec<Identity>,
    ) -> (r: Result<(), ContractError>)
        requires
            old(self).wf(),
        ensures
            final(self).wf(),
            match old(self).admin {
                None => r == Err::<(), ContractError>(ContractError::Uninitialized)
                    && *final(self) == *old(self),
                Some(a) => if caller != a {
                    r == Err::<(), ContractError>(ContractError::Unauthorized)
                        && *final(self) == *old(self)
                } else {
                    &&& r == Ok::<(), ContractError>(())
                    &&& final(self).signers matches Some(m)
                    &&& m@.required_signatures == required_signatures
                    &&& m@.signers == signers@
                    &&& m@.signed == Seq::new(signers@.len(), |i: int| false)
                    &&& final(self).admin == old(self).admin
                    &&& final(self).time_limit == old(self).time_limit
                    &&& final(self).conditions == old(self).conditions
                    &&& final(self).escrow_data == old(self).escrow_data
                },
            },
    {
        let admin = match self.admin {
            Some(a) => a,
            None => {
                return Err(ContractError::Uninitialized);
            },
        };
        if caller != admin {
            return Err(ContractError::Unauthorized);
        }
        let n = signers.len();
        let mut signed: Vec<bool> = Vec::new();
        let mut i: usize = 0;
        while i < n
            invariant
                i <= n,
                signed@.len() == i,
                forall|j: int| 0 <= j < i ==> !signed@[j],
            decreases n - i,
        {
            signed.push(false);
            i = i + 1;
        }
        proof {
            assert(signed@ =~= Seq::new(signers@.len(), |j: int| false));
        }
        self.signers = Some(MultiSigData { required_signatures, signers, signed });
        Ok(())
    }

    /// Records a signature by `signer` (the identity the ledger
    /// authenticated) and reports whether quorum is reached afterwards.
    /// Re-signing is idempotent, and the quorum report is a pure read of
    /// the current tally: it stays `true` on every call once reached.
    pub fn sign_transaction(&mut self, signer: Identity) -> (r: Result<bool, ContractError>)
        requires
            old(self).wf(),
        ensures
            final(self).wf(),
            final(self).admin == old(self).admin,
            final(self).time_limit == old(self).time_limit,
            final(self).conditions == old(self).conditions,
            final(self).escrow_data == old(self).escrow_data,
            match old(self).signers {
                None => r == Err::<bool, ContractError>(ContractError::Uninitialized)
                    && final(self).signers == old(self).signers,
                Some(m) => if !m@.participant(signer) {
                    r == Err::<bool, ContractError>(ContractError::NotAParticipant)
                        && final(self).signers == old(self).signers
                } else {
                    &&& final(self).signers matches Some(m2)
                    &&& m2@ == m@.sign(signer)
                    &&& r == Ok::<bool, ContractError>(m@.sign(signer).quorum())
                },
            },
    {
        let found = match &self.signers {
            Some(data) => find_first(&data.signers, signer),
            None => {
                return Err(ContractError::Uninitialized);
            },
        };
        let index = match found {
            Some(i) => i,
            None => {
                return Err(ContractError::NotAParticipant);
            },
        };
        match &mut self.signers {
            Some(data) => {
                proof {
                    lemma_first_position(data.signers@, signer);
                }
                data.signed[index] = true;
                let signatures = count_set(&data.signed);
                Ok(signatures >= data.required_signatures as usize)
            },
            None => {
                assert(false);
                Err(ContractError::Uninitialized)
            },
        }
    }

    /// Stores `deadline` as the time-bound policy's limit, unconditionally
    /// overwriting any prior one. Admin-gated.
    pub fn set_time_limit(&mut self, caller: Identity, deadline: u64) -> (r: Result<
        (),
        ContractError,
    >)
        ensures
            match old(self).admin {
                None => r == Err::<(), ContractError>(ContractError::Uninitialized)
                    && *final(self) == *old(self),
                Some(a) => if caller != a {
                    r == Err::<(), ContractError>(ContractError::Unauthorized)
                        && *final(self) == *old(self)
                } else {
                    r == Ok::<(), ContractError>(()) && *final(self) == (StellarSmartContracts {
                        time_limit: Some(deadline),
                        ..*old(self)
                    })
                },
            },
    {
        let admin = match self.admin {
            Some(a) => a,
            None => {
                return Err(ContractError::Uninitialized);
            },
        };
        if caller != admin {
            return Err(ContractError::Unauthorized);
        }
        self.time_limit = Some(deadline);
        Ok(())
    }

    /// Whether the current ledger time still lies before the configured
    /// deadline. A pure read; `Uninitialized` when no deadline was set.
    pub fn check_time_valid(&self, current_time: u64) -> (r: Result<bool, ContractError>)
        ensures
            r == match self.time_limit {
                Some(deadline) => Ok::<bool, ContractError>(time_valid(current_time, deadline)),
                None => Err::<bool, ContractError>(ContractError::Uninitialized),
            },
    {
        match self.time_limit {
            Some(deadline) => Ok(current_time < deadline),
            None => Err(ContractError::Uninitialized),
        }
    }

    /// Configures the conditional-payment policy, wholly replacing any
    /// prior record under the slot and marking every condition
    /// unfulfilled. `sender` is the identity the ledger authenticated.
    pub fn setup_conditional_payment(
        &mut self,
        sender: Identity,
        receiver: Identity,
        amount: i128,
        conditions: Vec<String>,
    )
        requires
            old(self).wf(),
        ensures
            final(self).wf(),
            final(self).conditions matches Some(p)
                && p@.sender == sender
                && p@.receiver == receiver
                && p@.amount == amount
                && p@.conditions == conditions@.map_values(|c: String| c@)
                && p@.conditions_met == Seq::new(conditions@.len(), |i: int| false),
            final(self).admin == old(self).admin,
            final(self).signers == old(self).signers,
            final(self).time_limit == old(self).time_limit,
            final(self).escrow_data == old(self).escrow_data,
    {
        let n = conditions.len();
        let mut conditions_met: Vec<bool> = Vec::new();
        let mut i: usize = 0;
        while i < n
            invariant
                i <= n,
                conditions_met@.len() == i,
                forall|j: int| 0 <= j < i ==> !conditions_met@[j],
            decreases n - i,
        {
            conditions_met.push(false);
            i = i + 1;
        }
        proof {
            assert(conditions_met@ =~= Seq::new(conditions@.len(), |j: int| false));
        }
        self.conditions = Some(
            ConditionalPayment { sender, receiver, amount, conditions, conditions_met },
        );
    }

    /// Marks condition `condition_index` fulfilled (idempotent). No
    /// authorization is checked: in the current design any caller may
    /// fulfill any condition. `IndexOutOfRange` when the index lies at or
    /// beyond the configured list length.
    pub fn fulfill_condition(&mut self, condition_index: u32) -> (r: Result<(), ContractError>)
        requires
            old(self).wf(),
        ensures
            final(self).wf(),
            final(self).admin == old(self).admin,
            final(self).signers == old(self).signers,
            final(self).time_limit == old(self).time_limit,
            final(self).escrow_data == old(self).escrow_data,
            match old(self).conditions {
                None => r == Err::<(), ContractError>(ContractError::Uninitialized)
                    && final(self).conditions == old(self).conditions,
                Some(p) => if condition_index >= p@.conditions.len() {
                    r == Err::<(), ContractError>(ContractError::IndexOutOfRange)
                        && final(self).conditions == old(self).conditions
                } else {
                    &&& r == Ok::<(), ContractError>(())
                    &&& final(self).conditions matches Some(p2)
                    &&& p2@ == p@.fulfill(condition_index as int)
                },
            },
    {
        match &mut self.conditions {
            Some(payment) => {
                let index = condition_index as usize;
                if index >= payment.conditions.len() {
                    return Err(ContractError::IndexOutOfRange);
                }
                payment.conditions_met[index] = true;
                Ok(())
            },
            None => Err(ContractError::Uninitialized),
        }
    }

    /// Whether every configured condition has been fulfilled; vacuously
    /// true of an empty checklist. A pure read.
    pub fn check_all_conditions_met(&self) -> (r: Result<bool, ContractError>)
        ensures
            r == match self.conditions {
                Some(p) => Ok::<bool, ContractError>(p@.complete()),
                None => Err::<bool, ContractError>(ContractError::Uninitialized),
            },
    {
        match &self.conditions {
            Some(payment) => Ok(flags_all_set(&payment.conditions_met)),
            None => Err(ContractError::Uninitialized),
        }
    }

    /// Creates the escrow record with `released` clear, wholly replacing
    /// any prior record under the slot. `sender` is the identity the
    /// ledger authenticated.
    pub fn create_escrow(
        &mut self,
        sender: Identity,
        receiver: Identity,
        amount: i128,
        release_time: u64,
    )
        ensures
            *final(self) == (StellarSmartContracts {
                escrow_data: Some(
                    EscrowData { sender, receiver, amount, release_time, released: false },
                ),
                ..*old(self)
            }),
    {
        self.escrow_data = Some(
            EscrowData { sender, receiver, amount, release_time, released: false },
        );
    }

    /// Authorizes release once the ledger clock has reached the record's
    /// release time: sets `released` and reports `true`. Before that time
    /// it changes nothing and reports `false`. No authorization is
    /// checked: any caller may trigger the evaluation. Once released, the
    /// record stays released and every later call keeps reporting `true`.
    pub fn release_escrow(&mut self, current_time: u64) -> (r: Result<bool, ContractError>)
        ensures
            match old(self).escrow_data {
                None => r == Err::<bool, ContractError>(ContractError::Uninitialized)
                    && *final(self) == *old(self),
                Some(e) => if current_time >= e.release_time {
                    r == Ok::<bool, ContractError>(true)
                        && *final(self) == (StellarSmartContracts {
                        escrow_data: Some((EscrowData { released: true, ..e })),
                        ..*old(self)
                    })
                } else {
                    r == Ok::<bool, ContractError>(false) && *final(self) == *old(self)
                },
            },
    {
        let escrow = match self.escrow_data {
            Some(e) => e,
            None => {
                return Err(ContractError::Uninitialized);
            },
        };
        if current_time >= escrow.release_time {
            self.escrow_data = Some(EscrowData { released: true, ..escrow });
            Ok(true)
        } else {
            Ok(false)
        }
    }

    /// Read-only introspection: the admin identity, rendered in decimal,
    /// under the key `"admin"`; empty while no admin is stored.
    pub fn get_contract_data(&self) -> (r: Vec<(String, String)>)
        ensures
            match self.admin {
                None => r@.len() == 0,
                Some(a) => r@.len() == 1 && r@[0].0@ == "admin"@ && r@[0].1@ == dec_rep(
                    a.id as nat,
                ),
            },
    {
        let mut data: Vec<(String, String)> = Vec::new();
        match self.admin {
            Some(a) => {
                data.push(("admin".to_owned(), u64_to_dec_string(a.id)));
            },
            None => {},
        }
        data
    }
}

/// The first index holding `x`, or `None` when `x` does not occur.
fn find_first(v: &Vec<Identity>, x: Identity) -> (r: Option<usize>)
    ensures
        match r {
            Some(i) => v@.contains(x) && i == first_position(v@, x),
            None => !v@.contains(x),
        },
{
    let n = v.len();
    let mut k: usize = 0;
    while k < n
        invariant
            k <= n,
            n == v@.len(),
            forall|j: int| 0 <= j < k ==> v@[j] != x,
        decreases n - k,
    {
        if v[k] == x {
            proof {
                assert(v@.contains(x)) by {
                    assert(v@[k as int] == x);
                }
                lemma_first_position(v@, x);
                let f = first_position(v@, x);
                assert(!(f < k)) by {
                    if f < k {
                        assert(v@[f] != x);
                    }
                }
                assert(!(f > k)) by {
                    if f > k {
                        assert(v@[k as int] != x);
                    }
                }
            }
            return Some(k);
        }
        k = k + 1;
    }
    proof {
        assert forall|j: int| 0 <= j < v@.len() implies v@[j] != x by {}
    }
    None
}

/// How many entries of `v` are set.
fn count_set(v: &Vec<bool>) -> (r: usize)
    ensures
        r == count_true(v@),
{
    let n = v.len();
    let mut count: usize = 0;
    let mut k: usize = 0;
    while k < n
        invariant
            k <= n,
            n == v@.len(),
            count == count_true(v@.take(k as int)),
            count <= k,
        decreases n - k,
    {
        proof {
            lemma_count_true_take_step(v@, k as int);
        }
        if v[k] {
            count = count + 1;
        }
        k = k + 1;
    }
    proof {
        assert(v@.take(v@.len() as int) =~= v@);
    }
    count
}

/// Whether every entry of `v` is set.
fn flags_all_set(v: &Vec<bool>) -> (r: bool)
    ensures
        r == all_true(v@),
{
    let n = v.len();
    let mut k: usize = 0;
    while k < n
        invariant
            k <= n,
            n == v@.len(),
            forall|j: int| 0 <= j < k ==> v@[j],
        decreases n - k,
    {
        if !v[k] {
            return false;
        }
        k = k + 1;
    }
    true
}

} // verus!
