use shade::errors::ContractError;
use shade::events::{Event, MerchantStatusChangedEvent};
use shade::shade::Shade;
use shade::types::Address;

fn setup_test() -> (Shade, Address) {
    let mut s = Shade::new();
    let admin = Address::new(1);
    s.initialize(admin, 0).unwrap();
    (s, admin)
}

fn assert_latest_merchant_status_event(
    s: &Shade,
    expected_merchant_id: u64,
    expected_active: bool,
    expected_timestamp: u64,
) {
    let last = s.events.last().unwrap();
    assert_eq!(
        *last,
        Event::MerchantStatusChanged(MerchantStatusChangedEvent {
            merchant_id: expected_merchant_id,
            active: expected_active,
            timestamp: expected_timestamp,
        })
    );
}

#[test]
fn test_set_merchant_status_admin_can_deactivate() {
    let (mut s, admin) = setup_test();

    let merchant = Address::new(2);
    s.register_merchant(merchant, 0).unwrap();

    assert_eq!(s.is_merchant_active(1), Ok(true));

    s.set_merchant_status(admin, 1, false, 0).unwrap();
    assert_latest_merchant_status_event(&s, 1, false, 0);

    assert_eq!(s.is_merchant_active(1), Ok(false));
}

#[test]
fn test_set_merchant_status_admin_can_activate() {
    let (mut s, admin) = setup_test();

    let merchant = Address::new(2);
    s.register_merchant(merchant, 0).unwrap();

    s.set_merchant_status(admin, 1, false, 0).unwrap();
    assert_eq!(s.is_merchant_active(1), Ok(false));

    s.set_merchant_status(admin, 1, true, 0).unwrap();
    assert_latest_merchant_status_event(&s, 1, true, 0);

    assert_eq!(s.is_merchant_active(1), Ok(true));
}

#[test]
fn test_set_merchant_status_non_admin_not_authorized() {
    let (mut s, _admin) = setup_test();

    let merchant = Address::new(2);
    s.register_merchant(merchant, 0).unwrap();

    let non_admin = Address::new(3);
    assert_eq!(
        s.set_merchant_status(non_admin, 1, false, 0),
        Err(ContractError::NotAuthorized)
    );
}

#[test]
fn test_set_merchant_status_invalid_merchant_id() {
    let (mut s, admin) = setup_test();

    assert_eq!(
        s.set_merchant_status(admin, 999, false, 0),
        Err(ContractError::MerchantNotFound)
    );
}

#[test]
fn test_set_merchant_status_merchant_id_zero() {
    let (mut s, admin) = setup_test();

    assert_eq!(
        s.set_merchant_status(admin, 0, false, 0),
        Err(ContractError::MerchantNotFound)
    );
}

#[test]
fn test_is_merchant_active_merchant_not_found() {
    let (s, _admin) = setup_test();

    assert_eq!(s.is_merchant_active(999), Err(ContractError::MerchantNotFound));
}

#[test]
fn test_is_merchant_active_merchant_id_zero() {
    let (s, _admin) = setup_test();

    assert_eq!(s.is_merchant_active(0), Err(ContractError::MerchantNotFound));
}

#[test]
fn test_merchant_active_by_default() {
    let (mut s, _admin) = setup_test();

    let merchant = Address::new(2);
    s.register_merchant(merchant, 0).unwrap();

    assert_eq!(s.is_merchant_active(1), Ok(true));
}

#[test]
fn test_multiple_merchants_independent_status() {
    let (mut s, admin) = setup_test();

    let merchant1 = Address::new(2);
    let merchant2 = Address::new(3);

    s.register_merchant(merchant1, 0).unwrap();
    s.register_merchant(merchant2, 0).unwrap();

    assert_eq!(s.is_merchant_active(1), Ok(true));
    assert_eq!(s.is_merchant_active(2), Ok(true));

    s.set_merchant_status(admin, 1, false, 0).unwrap();

    assert_eq!(s.is_merchant_active(1), Ok(false));
    assert_eq!(s.is_merchant_active(2), Ok(true));

    s.set_merchant_status(admin, 1, true, 0).unwrap();
    assert_eq!(s.is_merchant_active(1), Ok(true));
    assert_eq!(s.is_merchant_active(2), Ok(true));
}

#[test]
fn test_event_emission_on_status_change() {
    let (mut s, admin) = setup_test();

    let merchant = Address::new(2);
    s.register_merchant(merchant, 0).unwrap();

    s.set_merchant_status(admin, 1, false, 0).unwrap();
    assert_latest_merchant_status_event(&s, 1, false, 0);
}

#[test]
fn test_register_merchant_ids_in_order() {
    let (mut s, _admin) = setup_test();

    assert_eq!(s.register_merchant(Address::new(2), 0), Ok(1));
    assert_eq!(s.register_merchant(Address::new(3), 0), Ok(2));
    assert_eq!(s.register_merchant(Address::new(4), 0), Ok(3));
    assert_eq!(s.get_merchant(2).unwrap().address, Address::new(3));
}

#[test]
fn test_register_merchant_twice_fails() {
    let (mut s, _admin) = setup_test();

    let merchant = Address::new(2);
    assert_eq!(s.register_merchant(merchant, 0), Ok(1));
    assert!(s.is_merchant(merchant));
    assert_eq!(
        s.register_merchant(merchant, 0),
        Err(ContractError::MerchantAlreadyRegistered)
    );
}

#[test]
fn test_get_merchant_unknown_id() {
    let (s, _admin) = setup_test();

    assert_eq!(s.get_merchant(0), Err(ContractError::MerchantNotFound));
    assert_eq!(s.get_merchant(7), Err(ContractError::MerchantNotFound));
    assert!(!s.is_merchant(Address::new(2)));
}
