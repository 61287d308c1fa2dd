use shade::errors::{AddTokenError, ContractError, TokenProbe};
use shade::events::Event;
use shade::shade::Shade;
use shade::types::Address;

#[test]
fn test_initialize() {
    let mut s = Shade::new();
    let admin = Address::new(1);
    s.initialize(admin, 0).unwrap();
    assert_eq!(s.get_admin(), Ok(admin));
}

#[test]
fn test_initialize_twice() {
    let mut s = Shade::new();
    let admin = Address::new(1);
    s.initialize(admin, 0).unwrap();
    assert_eq!(s.initialize(admin, 0), Err(ContractError::AlreadyInitialized));
}

#[test]
fn test_get_admin_not_initialized() {
    let s = Shade::new();
    assert_eq!(s.get_admin(), Err(ContractError::NotInitialized));
}

#[test]
fn test_add_and_remove_accepted_token() {
    let mut s = Shade::new();
    let admin = Address::new(1);
    s.initialize(admin, 0).unwrap();

    let token = Address::new(2);
    assert!(!s.is_accepted_token(token));
    s.add_accepted_token(admin, token, TokenProbe::Answered, 0).unwrap();
    assert!(s.is_accepted_token(token));

    s.remove_accepted_token(admin, token, 0).unwrap();
    assert!(!s.is_accepted_token(token));
}

#[test]
fn test_only_admin_can_manage_accepted_tokens() {
    let mut s = Shade::new();
    let admin = Address::new(1);
    let attacker = Address::new(2);
    s.initialize(admin, 0).unwrap();

    let token = Address::new(3);
    let add_result = s.add_accepted_token(attacker, token, TokenProbe::Answered, 0);
    assert_eq!(add_result, Err(AddTokenError::Contract(ContractError::NotAuthorized)));

    s.add_accepted_token(admin, token, TokenProbe::Answered, 0).unwrap();

    let remove_result = s.remove_accepted_token(attacker, token, 0);
    assert_eq!(remove_result, Err(ContractError::NotAuthorized));
}

#[test]
fn test_add_accepted_token_rejects_non_token_address() {
    let mut s = Shade::new();
    let admin = Address::new(1);
    s.initialize(admin, 0).unwrap();

    let not_a_token = Address::new(9);
    let result = s.add_accepted_token(admin, not_a_token, TokenProbe::Failed, 0);
    assert!(matches!(result, Err(AddTokenError::External)));
    assert!(!s.is_accepted_token(not_a_token));
}

#[test]
fn test_token_added_event_once_per_transition_edge() {
    let mut s = Shade::new();
    let admin = Address::new(1);
    s.initialize(admin, 0).unwrap();

    let token = Address::new(2);
    s.add_accepted_token(admin, token, TokenProbe::Answered, 0).unwrap();
    s.add_accepted_token(admin, token, TokenProbe::Answered, 0).unwrap();
    let added = s
        .events
        .iter()
        .filter(|e| matches!(e, Event::TokenAdded(_)))
        .count();
    assert_eq!(added, 1);

    s.remove_accepted_token(admin, token, 0).unwrap();
    s.remove_accepted_token(admin, token, 0).unwrap();
    let removed = s
        .events
        .iter()
        .filter(|e| matches!(e, Event::TokenRemoved(_)))
        .count();
    assert_eq!(removed, 1);

    s.add_accepted_token(admin, token, TokenProbe::Answered, 0).unwrap();
    let added_again = s
        .events
        .iter()
        .filter(|e| matches!(e, Event::TokenAdded(_)))
        .count();
    assert_eq!(added_again, 2);
}

#[test]
fn test_reentrancy_guard() {
    let mut s = Shade::new();
    let admin = Address::new(1);
    s.initialize(admin, 0).unwrap();
    let token = Address::new(2);
    s.add_accepted_token(admin, token, TokenProbe::Answered, 0).unwrap();

    // A guarded call made while an outer guarded call is unfinished.
    s.enter().unwrap();
    assert_eq!(s.enter(), Err(ContractError::Reentrancy));
    assert_eq!(
        s.add_accepted_token(admin, token, TokenProbe::Answered, 0),
        Err(AddTokenError::Contract(ContractError::Reentrancy))
    );
    assert_eq!(s.remove_accepted_token(admin, token, 0), Err(ContractError::Reentrancy));
    assert_eq!(s.set_fee(admin, token, 1, 0), Err(ContractError::Reentrancy));
    s.exit();

    // The guard is unlocked again once the outer call finishes.
    assert!(!s.locked);
    s.set_fee(admin, token, 1, 0).unwrap();
    assert!(!s.locked);
}

#[test]
fn test_failed_admin_call_leaves_state_unchanged() {
    let mut s = Shade::new();
    let admin = Address::new(1);
    let attacker = Address::new(2);
    s.initialize(admin, 0).unwrap();
    let token = Address::new(3);
    s.add_accepted_token(admin, token, TokenProbe::Answered, 0).unwrap();
    s.set_fee(admin, token, 42, 0).unwrap();
    let events_before = s.events.len();

    assert_eq!(s.set_fee(attacker, token, 999, 0), Err(ContractError::NotAuthorized));
    assert_eq!(s.remove_accepted_token(attacker, token, 0), Err(ContractError::NotAuthorized));

    assert_eq!(s.get_fee(token), 42);
    assert!(s.is_accepted_token(token));
    assert_eq!(s.get_admin(), Ok(admin));
    assert_eq!(s.events.len(), events_before);
}
