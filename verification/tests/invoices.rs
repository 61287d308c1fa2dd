use shade::errors::ContractError;
use shade::shade::Shade;
use shade::types::{Address, InvoiceStatus};

fn setup_test() -> (Shade, Address) {
    let mut s = Shade::new();
    let admin = Address::new(1);
    s.initialize(admin, 0).unwrap();
    (s, admin)
}

#[test]
fn test_create_and_get_invoice_success() {
    let (mut s, _admin) = setup_test();

    let merchant = Address::new(2);
    s.register_merchant(merchant, 0).unwrap();

    let token = Address::new(3);
    let description = String::from("Test Invoice");
    let amount: i128 = 1000;

    let invoice_id = s
        .create_invoice(merchant, description.clone(), amount, token, 0)
        .unwrap();
    assert_eq!(invoice_id, 1);

    let invoice = s.get_invoice(invoice_id).unwrap();

    assert_eq!(invoice.id, 1);
    assert_eq!(invoice.merchant_id, 1);
    assert_eq!(invoice.amount, amount);
    assert_eq!(invoice.token, token);
    assert_eq!(invoice.description, description);
    assert_eq!(invoice.status, InvoiceStatus::Pending);
}

#[test]
fn test_get_invoice_not_found() {
    let (s, _admin) = setup_test();
    assert_eq!(
        s.get_invoice(999).map(|inv| inv.id),
        Err(ContractError::InvoiceNotFound)
    );
}

#[test]
fn test_create_invoice_unregistered_merchant() {
    let (mut s, _admin) = setup_test();

    let unregistered_merchant = Address::new(4);
    let token = Address::new(3);
    let description = String::from("Test Invoice");
    let amount: i128 = 1000;

    assert_eq!(
        s.create_invoice(unregistered_merchant, description, amount, token, 0),
        Err(ContractError::NotAuthorized)
    );
}

#[test]
fn test_create_invoice_invalid_amount() {
    let (mut s, _admin) = setup_test();

    let merchant = Address::new(2);
    s.register_merchant(merchant, 0).unwrap();

    let token = Address::new(3);
    let description = String::from("Test Invoice");
    let amount: i128 = 0;

    assert_eq!(
        s.create_invoice(merchant, description, amount, token, 0),
        Err(ContractError::InvalidAmount)
    );
}

#[test]
fn test_create_invoice_negative_amount() {
    let (mut s, _admin) = setup_test();

    let merchant = Address::new(2);
    s.register_merchant(merchant, 0).unwrap();

    let token = Address::new(3);
    assert_eq!(
        s.create_invoice(merchant, String::from("x"), -5, token, 0),
        Err(ContractError::InvalidAmount)
    );
}

#[test]
fn test_invoice_ids_shared_across_merchants() {
    let (mut s, _admin) = setup_test();

    let merchant1 = Address::new(2);
    let merchant2 = Address::new(3);
    s.register_merchant(merchant1, 0).unwrap();
    s.register_merchant(merchant2, 0).unwrap();

    let token = Address::new(4);
    let id1 = s
        .create_invoice(merchant1, String::from("a"), 10, token, 0)
        .unwrap();
    let id2 = s
        .create_invoice(merchant2, String::from("b"), 20, token, 0)
        .unwrap();
    let id3 = s
        .create_invoice(merchant1, String::from("c"), 30, token, 0)
        .unwrap();

    assert_eq!((id1, id2, id3), (1, 2, 3));
    assert_eq!(s.get_invoice(2).unwrap().merchant_id, 2);
    assert_eq!(s.get_invoice(3).unwrap().merchant_id, 1);
}
