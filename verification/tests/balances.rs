use modular_runtime::balances::Pallet;
use modular_runtime::support::DispatchError;

struct TestConfig;

impl modular_runtime::system::Config for TestConfig {
    type AccountId = String;
    type BlockNumber = u32;
    type Nonce = u32;
}

impl modular_runtime::balances::Config for TestConfig {
    type Balance = u32;
}

#[test]
fn init_balances() {
    let mut balances = Pallet::<TestConfig>::new();

    assert_eq!(balances.balance(&"alice".to_string()), 0);
    balances.set_balance(&"alice".to_string(), 100);
    assert_eq!(balances.balance(&"alice".to_string()), 100);
    assert_eq!(balances.balance(&"bob".to_string()), 0);
}

#[test]
fn transfer_balance() {
    let mut balances = Pallet::<TestConfig>::new();

    assert_eq!(
        balances.transfer("alice".to_string(), "bob".to_string(), 51),
        Err(DispatchError::InsufficientFunds)
    );

    balances.set_balance(&"alice".to_string(), 100);
    assert_eq!(
        balances.transfer("alice".to_string(), "bob".to_string(), 51),
        Ok(())
    );

    assert_eq!(balances.balance(&"alice".to_string()), 49);
    assert_eq!(balances.balance(&"bob".to_string()), 51);

    assert_eq!(
        balances.transfer("alice".to_string(), "bob".to_string(), 51),
        Err(DispatchError::InsufficientFunds)
    );
}

#[test]
fn transfer_conserves_total() {
    let mut balances = Pallet::<TestConfig>::new();

    balances.set_balance(&"alice".to_string(), 70);
    balances.set_balance(&"bob".to_string(), 30);
    assert_eq!(
        balances.transfer("alice".to_string(), "bob".to_string(), 25),
        Ok(())
    );

    assert_eq!(balances.balance(&"alice".to_string()), 45);
    assert_eq!(balances.balance(&"bob".to_string()), 55);
    assert_eq!(
        balances.balance(&"alice".to_string()) + balances.balance(&"bob".to_string()),
        100
    );
}

#[test]
fn transfer_overflow_detected() {
    let mut balances = Pallet::<TestConfig>::new();

    balances.set_balance(&"alice".to_string(), 5);
    balances.set_balance(&"bob".to_string(), u32::MAX);
    assert_eq!(
        balances.transfer("alice".to_string(), "bob".to_string(), 1),
        Err(DispatchError::Overflow)
    );

    // the failing transfer left both balances exactly as they were
    assert_eq!(balances.balance(&"alice".to_string()), 5);
    assert_eq!(balances.balance(&"bob".to_string()), u32::MAX);
}

#[test]
fn self_transfer_is_checked_but_keeps_the_balance() {
    let mut balances = Pallet::<TestConfig>::new();

    balances.set_balance(&"alice".to_string(), 100);
    assert_eq!(
        balances.transfer("alice".to_string(), "alice".to_string(), 30),
        Ok(())
    );
    assert_eq!(balances.balance(&"alice".to_string()), 100);

    // both checked computations still run on a self-transfer
    assert_eq!(
        balances.transfer("alice".to_string(), "alice".to_string(), 150),
        Err(DispatchError::InsufficientFunds)
    );
    balances.set_balance(&"bob".to_string(), u32::MAX);
    assert_eq!(
        balances.transfer("bob".to_string(), "bob".to_string(), 1),
        Err(DispatchError::Overflow)
    );
    assert_eq!(balances.balance(&"bob".to_string()), u32::MAX);
}
