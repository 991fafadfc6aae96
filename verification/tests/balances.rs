use state_machine::balances::Pallet;
use state_machine::support::DispatchError;

#[test]
fn unknown_account_has_zero_balance() {
    let balances = Pallet::new();
    assert_eq!(balances.balance(&"alice".to_string()), 0);
}

#[test]
fn set_balance_overwrites() {
    let mut balances = Pallet::new();
    balances.set_balance(&"alice".to_string(), 100);
    assert_eq!(balances.balance(&"alice".to_string()), 100);
    balances.set_balance(&"alice".to_string(), 7);
    assert_eq!(balances.balance(&"alice".to_string()), 7);
}

#[test]
fn transfer_moves_funds() {
    let mut balances = Pallet::new();
    balances.set_balance(&"alice".to_string(), 100);
    assert_eq!(balances.transfer("alice".to_string(), "bob".to_string(), 30), Ok(()));
    assert_eq!(balances.balance(&"alice".to_string()), 70);
    assert_eq!(balances.balance(&"bob".to_string()), 30);
}

#[test]
fn transfer_underflow_changes_nothing() {
    let mut balances = Pallet::new();
    balances.set_balance(&"alice".to_string(), 70);
    balances.set_balance(&"bob".to_string(), 30);
    let result = balances.transfer("alice".to_string(), "bob".to_string(), 1000);
    assert_eq!(result, Err(DispatchError::InsufficientFunds));
    assert_eq!(result.unwrap_err().message(), "Not enough funds.");
    assert_eq!(balances.balance(&"alice".to_string()), 70);
    assert_eq!(balances.balance(&"bob".to_string()), 30);
}

#[test]
fn transfer_overflow_changes_nothing() {
    let mut balances = Pallet::new();
    balances.set_balance(&"alice".to_string(), 10);
    balances.set_balance(&"bob".to_string(), u128::MAX);
    let result = balances.transfer("alice".to_string(), "bob".to_string(), 1);
    assert_eq!(result, Err(DispatchError::Overflow));
    assert_eq!(result.unwrap_err().message(), "Overflow");
    assert_eq!(balances.balance(&"alice".to_string()), 10);
    assert_eq!(balances.balance(&"bob".to_string()), u128::MAX);
}

#[test]
fn successful_transfer_conserves_total() {
    let mut balances = Pallet::new();
    balances.set_balance(&"alice".to_string(), 41);
    balances.set_balance(&"bob".to_string(), 59);
    assert_eq!(balances.transfer("alice".to_string(), "bob".to_string(), 41), Ok(()));
    let total =
        balances.balance(&"alice".to_string()) + balances.balance(&"bob".to_string());
    assert_eq!(total, 100);
}

// A transfer to oneself credits the already-debited balance, so it nets
// no change.
#[test]
fn self_transfer_conserves_balance() {
    let mut balances = Pallet::new();
    balances.set_balance(&"alice".to_string(), 100);
    assert_eq!(balances.transfer("alice".to_string(), "alice".to_string(), 30), Ok(()));
    assert_eq!(balances.balance(&"alice".to_string()), 100);
    assert_eq!(
        balances.transfer("alice".to_string(), "alice".to_string(), 101),
        Err(DispatchError::InsufficientFunds)
    );
    assert_eq!(balances.balance(&"alice".to_string()), 100);
}
