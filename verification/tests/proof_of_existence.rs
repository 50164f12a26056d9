use modular_runtime::proof_of_existence::Pallet;
use modular_runtime::support::DispatchError;

struct TestConfig;

impl modular_runtime::system::Config for TestConfig {
    type AccountId = String;
    type BlockNumber = u32;
    type Nonce = u32;
}

impl modular_runtime::proof_of_existence::Config for TestConfig {
    type Content = String;
}

#[test]
fn basic_proof_of_existence() {
    let mut poe = Pallet::<TestConfig>::new();
    assert_eq!(poe.get_claim(&"Hello, world".to_string()), None);
    assert_eq!(
        poe.create_claim("femi".to_string(), "Hello, world".to_string()),
        Ok(())
    );
    assert_eq!(
        poe.get_claim(&"Hello, world".to_string()),
        Some(&"femi".to_string())
    );
    assert_eq!(
        poe.create_claim("nath".to_string(), "Hello, world".to_string()),
        Err(DispatchError::AlreadyClaimed)
    );
    assert_eq!(
        poe.revoke_claim("femi".to_string(), "Hello, world".to_string()),
        Ok(())
    );
    assert_eq!(
        poe.create_claim("aliyu".to_string(), "Hello, world".to_string()),
        Ok(())
    );
}

#[test]
fn revoke_needs_an_existing_claim() {
    let mut poe = Pallet::<TestConfig>::new();
    assert_eq!(
        poe.revoke_claim("femi".to_string(), "unclaimed".to_string()),
        Err(DispatchError::ClaimNotFound)
    );
    assert_eq!(poe.get_claim(&"unclaimed".to_string()), None);
}

#[test]
fn only_the_owner_can_revoke() {
    let mut poe = Pallet::<TestConfig>::new();
    assert_eq!(
        poe.create_claim("femi".to_string(), "doc".to_string()),
        Ok(())
    );

    // a non-owner's revocation fails and changes nothing
    assert_eq!(
        poe.revoke_claim("nath".to_string(), "doc".to_string()),
        Err(DispatchError::NotOwner)
    );
    assert_eq!(poe.get_claim(&"doc".to_string()), Some(&"femi".to_string()));

    // the owner's revocation frees the content for anyone
    assert_eq!(
        poe.revoke_claim("femi".to_string(), "doc".to_string()),
        Ok(())
    );
    assert_eq!(poe.get_claim(&"doc".to_string()), None);
    assert_eq!(
        poe.create_claim("nath".to_string(), "doc".to_string()),
        Ok(())
    );
    assert_eq!(poe.get_claim(&"doc".to_string()), Some(&"nath".to_string()));
}
