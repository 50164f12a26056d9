use modular_runtime::system::Pallet;

struct TestConfig;

impl modular_runtime::system::Config for TestConfig {
    type AccountId = String;
    type BlockNumber = u32;
    type Nonce = u32;
}

#[test]
fn system_pallet_work() {
    let mut system = Pallet::<TestConfig>::new();

    system.inc_block_number();
    system.inc_nonce(&"Temi".to_string());

    assert_eq!(system.block_number(), 1);
    assert_eq!(system.get_nonce(&"Temi".to_string()), Some(1));
    assert_eq!(system.get_nonce(&"Faithful".to_string()), None);
}

#[test]
fn nonce_counts_each_bump() {
    let mut system = Pallet::<TestConfig>::new();

    assert_eq!(system.get_nonce(&"Temi".to_string()), None);
    system.inc_nonce(&"Temi".to_string());
    system.inc_nonce(&"Temi".to_string());
    system.inc_nonce(&"Faithful".to_string());

    assert_eq!(system.get_nonce(&"Temi".to_string()), Some(2));
    assert_eq!(system.get_nonce(&"Faithful".to_string()), Some(1));
    assert_eq!(system.block_number(), 0);
}
