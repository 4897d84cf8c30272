use reward_claimer::account::Account;
use reward_claimer::caller::Caller;
use reward_claimer::factorial::Factorial;
use reward_claimer::gate::{authorize, Eligibility};
use reward_claimer::ledger::Ledger;
use reward_claimer::reward::{convert, RewardError};

#[test]
fn test_account_identity() {
    assert_eq!(Account::new(5), Account::new(5));
    assert_ne!(Account::new(5), Account::new(6));
}

#[test]
fn test_ledger_record_and_get() {
    let mut ledger = Ledger::new();
    let a = Account::new(1);
    let b = Account::new(2);
    assert_eq!(ledger.get_last_claim(&a), 0);

    ledger.record_claim(&a, 5);
    assert_eq!(ledger.get_last_claim(&a), 5);
    assert_eq!(ledger.get_last_claim(&b), 0);

    // Overwrite, not append: the entry takes the new height.
    ledger.record_claim(&a, 16);
    assert_eq!(ledger.get_last_claim(&a), 16);

    ledger.record_claim(&b, 7);
    assert_eq!(ledger.get_last_claim(&a), 16);
    assert_eq!(ledger.get_last_claim(&b), 7);
}

#[test]
fn test_authorize_policy() {
    let owner = Account::new(1);
    let impostor = Account::new(2);

    // Wrong delegation target: always ineligible.
    assert_eq!(authorize(&owner, &impostor, 0, 100, 10), Eligibility::Ineligible);
    // Never claimed: eligible unconditionally.
    assert_eq!(authorize(&owner, &owner, 0, 0, 10), Eligibility::Eligible);
    // Elapsed equal to the cooldown: ineligible (strict greater-than).
    assert_eq!(authorize(&owner, &owner, 5, 15, 10), Eligibility::Ineligible);
    // Elapsed one past the cooldown: eligible.
    assert_eq!(authorize(&owner, &owner, 5, 16, 10), Eligibility::Eligible);
    // Current block behind the recorded height: saturates to zero elapsed.
    assert_eq!(authorize(&owner, &owner, 20, 3, 10), Eligibility::Ineligible);
}

#[test]
fn test_convert_exact_product() {
    assert_eq!(convert(10, 1_000_000_000_000), Ok(10_000_000_000_000));
    assert_eq!(convert(0, u128::MAX), Ok(0));
    assert_eq!(convert(1, u128::MAX), Ok(u128::MAX));
}

#[test]
fn test_convert_overflow() {
    assert_eq!(convert(u128::MAX, 2), Err(RewardError::ArithmeticOverflow));
    assert_eq!(convert(2, u128::MAX), Err(RewardError::ArithmeticOverflow));
}

#[test]
fn test_factorial_base_cases() {
    let mut f = Factorial::new();
    assert_eq!(f.get_value(), 0);
    assert_eq!(f.calculate_factorial(0), 1);
    assert_eq!(f.calculate_factorial(1), 1);
    // Base cases leave the stored value alone.
    assert_eq!(f.get_value(), 0);
}

#[test]
fn test_factorial_exact_values() {
    let mut f = Factorial::new();
    assert_eq!(f.calculate_factorial(5), 120);
    assert_eq!(f.get_value(), 120);
    assert_eq!(f.calculate_factorial(12), 479_001_600);
    assert_eq!(f.get_value(), 479_001_600);
}

#[test]
fn test_caller_initial_state() {
    let _caller = Caller::new();
}
