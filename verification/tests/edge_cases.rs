//! Edge cases: error variants, idempotence, boundaries, replacement on
//! re-setup, and the decimal rendering of identities.

use stellar_smart_contracts::contract::StellarSmartContracts;
use stellar_smart_contracts::decimal::u64_to_dec_string;
use stellar_smart_contracts::types::{ContractError, DataKey, Identity};

#[test]
fn reads_before_setup_are_uninitialized() {
    let mut contract = StellarSmartContracts::new();
    assert_eq!(contract.get_admin(), Err(ContractError::Uninitialized));
    assert_eq!(
        contract.sign_transaction(Identity { id: 1 }),
        Err(ContractError::Uninitialized)
    );
    assert_eq!(contract.check_time_valid(0), Err(ContractError::Uninitialized));
    assert_eq!(
        contract.check_all_conditions_met(),
        Err(ContractError::Uninitialized)
    );
    assert_eq!(contract.fulfill_condition(0), Err(ContractError::Uninitialized));
    assert_eq!(contract.release_escrow(0), Err(ContractError::Uninitialized));
    assert_eq!(
        contract.setup_multisig(Identity { id: 1 }, 1, vec![]),
        Err(ContractError::Uninitialized)
    );
    assert_eq!(
        contract.set_time_limit(Identity { id: 1 }, 10),
        Err(ContractError::Uninitialized)
    );
}

#[test]
fn initialize_is_first_writer_wins() {
    let mut contract = StellarSmartContracts::new();
    let first = Identity { id: 1 };
    let second = Identity { id: 2 };
    contract.initialize(first);
    // A later initialize is a silent no-op.
    contract.initialize(second);
    assert_eq!(contract.get_admin(), Ok(first));
}

#[test]
fn admin_gated_setups_reject_other_callers() {
    let mut contract = StellarSmartContracts::new();
    let admin = Identity { id: 1 };
    let stranger = Identity { id: 9 };
    contract.initialize(admin);
    assert_eq!(
        contract.setup_multisig(stranger, 1, vec![Identity { id: 10 }]),
        Err(ContractError::Unauthorized)
    );
    assert_eq!(
        contract.set_time_limit(stranger, 10),
        Err(ContractError::Unauthorized)
    );
    // Neither refused call left state behind.
    assert!(!contract.has(DataKey::Signers));
    assert!(!contract.has(DataKey::TimeLimit));
}

#[test]
fn signing_by_a_stranger_is_fatal() {
    let mut contract = StellarSmartContracts::new();
    let admin = Identity { id: 1 };
    contract.initialize(admin);
    contract
        .setup_multisig(admin, 1, vec![Identity { id: 10 }])
        .unwrap();
    assert_eq!(
        contract.sign_transaction(Identity { id: 99 }),
        Err(ContractError::NotAParticipant)
    );
}

#[test]
fn double_signing_does_not_advance_the_tally() {
    let mut contract = StellarSmartContracts::new();
    let admin = Identity { id: 1 };
    contract.initialize(admin);
    let signer1 = Identity { id: 10 };
    let signer2 = Identity { id: 11 };
    contract
        .setup_multisig(admin, 2, vec![signer1, signer2])
        .unwrap();

    assert!(!contract.sign_transaction(signer1).unwrap());
    // Re-signing by the same identity changes nothing.
    assert!(!contract.sign_transaction(signer1).unwrap());
    assert!(contract.sign_transaction(signer2).unwrap());
}

#[test]
fn zero_threshold_quorum_is_immediate() {
    let mut contract = StellarSmartContracts::new();
    let admin = Identity { id: 1 };
    contract.initialize(admin);
    let signer = Identity { id: 10 };
    contract.setup_multisig(admin, 0, vec![signer]).unwrap();
    assert!(contract.sign_transaction(signer).unwrap());
}

#[test]
fn threshold_above_signer_count_is_unreachable() {
    // The threshold is deliberately not validated at setup time.
    let mut contract = StellarSmartContracts::new();
    let admin = Identity { id: 1 };
    contract.initialize(admin);
    let signer = Identity { id: 10 };
    contract.setup_multisig(admin, 2, vec![signer]).unwrap();
    assert!(!contract.sign_transaction(signer).unwrap());
    assert!(!contract.sign_transaction(signer).unwrap());
}

#[test]
fn multisig_resetup_replaces_the_configuration() {
    let mut contract = StellarSmartContracts::new();
    let admin = Identity { id: 1 };
    contract.initialize(admin);
    let old_signer = Identity { id: 10 };
    let new_signer = Identity { id: 11 };
    contract.setup_multisig(admin, 1, vec![old_signer]).unwrap();
    assert!(contract.sign_transaction(old_signer).unwrap());

    // Re-setup: the old list and its signatures are unrecoverable.
    contract.setup_multisig(admin, 1, vec![new_signer]).unwrap();
    assert_eq!(
        contract.sign_transaction(old_signer),
        Err(ContractError::NotAParticipant)
    );
    assert!(contract.sign_transaction(new_signer).unwrap());
}

#[test]
fn deadline_is_exclusive_and_overwritten() {
    let mut contract = StellarSmartContracts::new();
    let admin = Identity { id: 1 };
    contract.initialize(admin);
    contract.set_time_limit(admin, 100).unwrap();
    assert!(contract.check_time_valid(99).unwrap());
    // Validity ends exactly at the deadline.
    assert!(!contract.check_time_valid(100).unwrap());

    // A later setup overwrites the deadline unconditionally.
    contract.set_time_limit(admin, 50).unwrap();
    assert!(!contract.check_time_valid(99).unwrap());
    assert!(contract.check_time_valid(49).unwrap());
}

#[test]
fn empty_checklist_is_vacuously_complete() {
    let mut contract = StellarSmartContracts::new();
    contract.setup_conditional_payment(
        Identity { id: 20 },
        Identity { id: 21 },
        5,
        vec![],
    );
    assert!(contract.check_all_conditions_met().unwrap());
}

#[test]
fn fulfilling_out_of_range_is_rejected() {
    let mut contract = StellarSmartContracts::new();
    contract.setup_conditional_payment(
        Identity { id: 20 },
        Identity { id: 21 },
        5,
        vec!["a".to_string(), "b".to_string()],
    );
    assert_eq!(contract.fulfill_condition(2), Err(ContractError::IndexOutOfRange));
    assert_eq!(contract.fulfill_condition(u32::MAX), Err(ContractError::IndexOutOfRange));
    // The in-range indices still work afterwards.
    assert_eq!(contract.fulfill_condition(1), Ok(()));
}

#[test]
fn fulfilling_twice_is_a_no_op() {
    let mut contract = StellarSmartContracts::new();
    contract.setup_conditional_payment(
        Identity { id: 20 },
        Identity { id: 21 },
        5,
        vec!["a".to_string(), "b".to_string()],
    );
    contract.fulfill_condition(0).unwrap();
    contract.fulfill_condition(0).unwrap();
    assert!(!contract.check_all_conditions_met().unwrap());
    contract.fulfill_condition(1).unwrap();
    assert!(contract.check_all_conditions_met().unwrap());
}

#[test]
fn conditional_resetup_clears_fulfillment() {
    let mut contract = StellarSmartContracts::new();
    let sender = Identity { id: 20 };
    let receiver = Identity { id: 21 };
    contract.setup_conditional_payment(sender, receiver, 5, vec!["a".to_string()]);
    contract.fulfill_condition(0).unwrap();
    assert!(contract.check_all_conditions_met().unwrap());

    // Re-setup: the fulfilled flags are gone with the old record.
    contract.setup_conditional_payment(sender, receiver, 5, vec!["a".to_string()]);
    assert!(!contract.check_all_conditions_met().unwrap());
}

#[test]
fn escrow_releases_exactly_at_its_release_time() {
    let mut contract = StellarSmartContracts::new();
    contract.create_escrow(Identity { id: 20 }, Identity { id: 21 }, 5, 3600);
    assert!(!contract.release_escrow(3599).unwrap());
    assert!(contract.release_escrow(3600).unwrap());
    // The released state is terminal: later calls keep reporting true.
    assert!(contract.release_escrow(4000).unwrap());
    assert!(contract.escrow_data.unwrap().released);
}

#[test]
fn escrow_recreate_resets_the_record() {
    let mut contract = StellarSmartContracts::new();
    contract.create_escrow(Identity { id: 20 }, Identity { id: 21 }, 5, 100);
    assert!(contract.release_escrow(100).unwrap());

    // A fresh record replaces the released one.
    contract.create_escrow(Identity { id: 20 }, Identity { id: 21 }, 7, 200);
    assert!(!contract.escrow_data.unwrap().released);
    assert!(!contract.release_escrow(150).unwrap());
    assert!(contract.release_escrow(200).unwrap());
}

#[test]
fn store_slots_report_what_was_set() {
    let mut contract = StellarSmartContracts::new();
    assert!(!contract.has(DataKey::Admin));
    contract.initialize(Identity { id: 1 });
    assert!(contract.has(DataKey::Admin));
    assert!(!contract.has(DataKey::Signers));
    assert!(!contract.has(DataKey::TimeLimit));
    assert!(!contract.has(DataKey::Conditions));
    assert!(!contract.has(DataKey::EscrowData));
    contract.create_escrow(Identity { id: 2 }, Identity { id: 3 }, 1, 10);
    assert!(contract.has(DataKey::EscrowData));
}

#[test]
fn contract_data_renders_the_admin_in_decimal() {
    let mut contract = StellarSmartContracts::new();
    assert!(contract.get_contract_data().is_empty());

    contract.initialize(Identity { id: 1234567890123456789 });
    let data = contract.get_contract_data();
    assert_eq!(data, vec![("admin".to_string(), "1234567890123456789".to_string())]);
}

#[test]
fn decimal_rendering_matches_std() {
    for n in [0u64, 1, 9, 10, 11, 99, 100, 1000, 65535, u64::MAX] {
        assert_eq!(u64_to_dec_string(n), n.to_string());
    }
}
