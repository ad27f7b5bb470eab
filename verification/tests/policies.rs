//! The original scenarios of the four policies, driven through the
//! library's contract state.

use stellar_smart_contracts::contract::StellarSmartContracts;
use stellar_smart_contracts::types::Identity;

#[test]
fn test_initialize() {
    let mut contract = StellarSmartContracts::new();
    let admin = Identity { id: 1 };

    contract.initialize(admin);

    let data = contract.get_contract_data();
    assert_eq!(data.len(), 1);
    assert_eq!(data[0].0, "admin".to_string());
    assert_eq!(data[0].1, admin.id.to_string());
}

#[test]
fn test_multisig() {
    let mut contract = StellarSmartContracts::new();
    let admin = Identity { id: 1 };
    contract.initialize(admin);

    let signer1 = Identity { id: 10 };
    let signer2 = Identity { id: 11 };
    let signer3 = Identity { id: 12 };
    let signers = vec![signer1, signer2, signer3];

    // 2-of-3 quorum.
    contract.setup_multisig(admin, 2, signers).unwrap();

    assert!(!contract.sign_transaction(signer1).unwrap());
    assert!(contract.sign_transaction(signer2).unwrap());
    // The quorum report is a pure read of the tally: it stays true.
    assert!(contract.sign_transaction(signer3).unwrap());
}

#[test]
fn multisig_order_does_not_matter() {
    // The same 2-of-3 configuration, signed by a different pair.
    let mut contract = StellarSmartContracts::new();
    let admin = Identity { id: 1 };
    contract.initialize(admin);

    let signer1 = Identity { id: 10 };
    let signer2 = Identity { id: 11 };
    let signer3 = Identity { id: 12 };
    contract
        .setup_multisig(admin, 2, vec![signer1, signer2, signer3])
        .unwrap();

    assert!(!contract.sign_transaction(signer1).unwrap());
    assert!(contract.sign_transaction(signer3).unwrap());
}

#[test]
fn test_timebound() {
    let mut contract = StellarSmartContracts::new();
    let admin = Identity { id: 1 };
    contract.initialize(admin);

    let current_time: u64 = 0;
    let deadline = current_time + 3600;
    contract.set_time_limit(admin, deadline).unwrap();

    assert!(contract.check_time_valid(current_time).unwrap());

    // Two hours later the deadline has passed.
    assert!(!contract.check_time_valid(current_time + 7200).unwrap());
}

#[test]
fn test_conditional_payment() {
    let mut contract = StellarSmartContracts::new();
    let admin = Identity { id: 1 };
    contract.initialize(admin);

    let sender = Identity { id: 20 };
    let receiver = Identity { id: 21 };
    let amount: i128 = 1000000000;
    let conditions = vec![
        "KYC verificado".to_string(),
        "Documentos aprovados".to_string(),
    ];

    contract.setup_conditional_payment(sender, receiver, amount, conditions);

    assert!(!contract.check_all_conditions_met().unwrap());

    contract.fulfill_condition(0).unwrap();
    assert!(!contract.check_all_conditions_met().unwrap());

    contract.fulfill_condition(1).unwrap();
    assert!(contract.check_all_conditions_met().unwrap());
}

#[test]
fn test_escrow() {
    let mut contract = StellarSmartContracts::new();
    let admin = Identity { id: 1 };
    contract.initialize(admin);

    let sender = Identity { id: 20 };
    let receiver = Identity { id: 21 };
    let amount: i128 = 1000000000;
    let current_time: u64 = 0;
    let release_time = current_time + 3600;

    contract.create_escrow(sender, receiver, amount, release_time);

    // Too early: no release, no state change.
    assert!(!contract.release_escrow(current_time).unwrap());
    assert!(!contract.escrow_data.unwrap().released);

    // Two hours later the escrow releases.
    assert!(contract.release_escrow(current_time + 7200).unwrap());
    assert!(contract.escrow_data.unwrap().released);
}
