use state_machine::proof_of_existence::Pallet;
use state_machine::support::DispatchError;

#[test]
fn basic_proof_of_existence() {
    let mut poe = Pallet::new();
    assert_eq!(poe.get_claim(&"Hello, world!".to_string()), None);
    assert_eq!(poe.create_claim("alice".to_string(), "Hello, world!".to_string()), Ok(()));
    assert_eq!(poe.get_claim(&"Hello, world!".to_string()), Some(&"alice".to_string()));
    let second = poe.create_claim("bob".to_string(), "Hello, world!".to_string());
    assert_eq!(second, Err(DispatchError::AlreadyClaimed));
    assert_eq!(second.unwrap_err().message(), "this content is already claimed");
    assert_eq!(poe.revoke_claim("alice".to_string(), "Hello, world!".to_string()), Ok(()));
    assert_eq!(poe.create_claim("bob".to_string(), "Hello, world!".to_string()), Ok(()));
}

#[test]
fn create_then_get_returns_creator() {
    let mut poe = Pallet::new();
    assert_eq!(poe.create_claim("alice".to_string(), "hello".to_string()), Ok(()));
    assert_eq!(poe.get_claim(&"hello".to_string()), Some(&"alice".to_string()));
}

#[test]
fn second_claim_is_rejected_and_owner_kept() {
    let mut poe = Pallet::new();
    assert_eq!(poe.create_claim("alice".to_string(), "hello".to_string()), Ok(()));
    assert_eq!(
        poe.create_claim("bob".to_string(), "hello".to_string()),
        Err(DispatchError::AlreadyClaimed)
    );
    assert_eq!(poe.get_claim(&"hello".to_string()), Some(&"alice".to_string()));
}

#[test]
fn revoke_by_non_owner_is_rejected_then_owner_succeeds() {
    let mut poe = Pallet::new();
    assert_eq!(poe.create_claim("alice".to_string(), "hello".to_string()), Ok(()));
    assert_eq!(
        poe.revoke_claim("bob".to_string(), "hello".to_string()),
        Err(DispatchError::NotOwner)
    );
    assert_eq!(poe.get_claim(&"hello".to_string()), Some(&"alice".to_string()));
    assert_eq!(poe.revoke_claim("alice".to_string(), "hello".to_string()), Ok(()));
    assert_eq!(poe.get_claim(&"hello".to_string()), None);
}

#[test]
fn revoke_of_missing_claim_is_rejected() {
    let mut poe = Pallet::new();
    assert_eq!(
        poe.revoke_claim("alice".to_string(), "hello".to_string()),
        Err(DispatchError::ClaimNotFound)
    );
    assert_eq!(poe.get_claim(&"hello".to_string()), None);
}
