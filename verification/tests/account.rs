use shade::account::{AccountInfo, MerchantAccount};
use shade::errors::ContractError;
use shade::types::Address;

#[test]
fn test_test_initialize() {
    let mut account = MerchantAccount::new();

    let merchant = Address::new(1);
    let manager = Address::new(2);
    let merchant_id = 1;
    account.initialize(merchant, manager, merchant_id, 0).unwrap();
    assert_eq!(account.get_merchant(), Ok(merchant));
}

#[test]
fn test_test_initialize_twice() {
    let mut account = MerchantAccount::new();

    let merchant = Address::new(1);
    let manager = Address::new(2);
    let merchant_id = 1;
    account.initialize(merchant, manager, merchant_id, 0).unwrap();
    assert_eq!(
        account.initialize(merchant, manager, merchant_id, 0),
        Err(ContractError::AlreadyInitialized)
    );
}

#[test]
fn test_get_merchant_not_initialized() {
    let account = MerchantAccount::new();

    assert_eq!(account.get_merchant(), Err(ContractError::NotInitialized));
}

#[test]
fn test_account_binding_is_immutable() {
    let mut account = MerchantAccount::new();

    let merchant = Address::new(1);
    let manager = Address::new(2);
    account.initialize(merchant, manager, 7, 3).unwrap();

    let other = Address::new(9);
    assert_eq!(
        account.initialize(other, other, 8, 4),
        Err(ContractError::AlreadyInitialized)
    );
    assert_eq!(
        account.info,
        Some(AccountInfo { manager, merchant_id: 7, merchant, date_created: 3 })
    );
}
