use shade::errors::{ContractError, TokenProbe};
use shade::events::{Event, FeeSetEvent};
use shade::shade::Shade;
use shade::types::Address;

fn setup_with_accepted_token() -> (Address, Shade, Address) {
    let mut s = Shade::new();
    let admin = Address::new(1);
    s.initialize(admin, 0).unwrap();

    let token = Address::new(2);
    s.add_accepted_token(admin, token, TokenProbe::Answered, 0).unwrap();

    (admin, s, token)
}

#[test]
fn test_set_fee_success() {
    let (admin, mut s, token) = setup_with_accepted_token();
    let fee: i128 = 500;

    s.set_fee(admin, token, fee, 0).unwrap();

    let last = s.events.last().unwrap();
    assert_eq!(*last, Event::FeeSet(FeeSetEvent { token, fee, timestamp: 0 }));
    assert_eq!(s.get_fee(token), fee);
}

#[test]
fn test_set_fee_unaccepted_token() {
    let mut s = Shade::new();
    let admin = Address::new(1);
    s.initialize(admin, 0).unwrap();

    let unaccepted_token = Address::new(5);
    let result = s.set_fee(admin, unaccepted_token, 100, 0);
    assert_eq!(result, Err(ContractError::TokenNotAccepted));
}

#[test]
fn test_set_fee_unauthorized() {
    let (_admin, mut s, token) = setup_with_accepted_token();

    let non_admin = Address::new(7);
    let result = s.set_fee(non_admin, token, 100, 0);
    assert_eq!(result, Err(ContractError::NotAuthorized));
}

#[test]
fn test_update_fee() {
    let (admin, mut s, token) = setup_with_accepted_token();

    s.set_fee(admin, token, 200, 0).unwrap();
    assert_eq!(s.get_fee(token), 200);

    s.set_fee(admin, token, 750, 0).unwrap();
    assert_eq!(s.get_fee(token), 750);
}

#[test]
fn test_get_fee_default_zero() {
    let (_admin, s, token) = setup_with_accepted_token();

    assert_eq!(s.get_fee(token), 0);
}

#[test]
fn test_fee_survives_token_removal() {
    let (admin, mut s, token) = setup_with_accepted_token();

    s.set_fee(admin, token, -3, 0).unwrap();
    assert_eq!(s.get_fee(token), -3);

    s.remove_accepted_token(admin, token, 0).unwrap();
    assert_eq!(s.get_fee(token), -3);
    assert_eq!(s.set_fee(admin, token, 4, 0), Err(ContractError::TokenNotAccepted));
}
