//! The account binder: a satellite sub-ledger, one instance per merchant,
//! that stores a one-time binding of a manager principal, a merchant id and
//! the merchant's own principal.

use vstd::prelude::*;

use crate::errors::ContractError;
use crate::types::Address;

verus! {

/// The logical key space of the binder instance's slice of the host store,
/// one variant per stored record.
#[derive(Clone, Copy, PartialEq, Eq, Structural, Debug)]
pub enum DataKey {
    Manager,
    Merchant,
    Verified,
    AccountInfo,
}

/// The one-time binding record.
#[derive(Clone, Copy, PartialEq, Eq, Structural, Debug)]
pub struct AccountInfo {
    pub manager: Address,
    pub merchant_id: u64,
    pub merchant: Address,
    pub date_created: u64,
}

/// One binder instance. Its invariant — exactly one binding, set once — is
/// per instance: each merchant gets an isolated instance of its own.
pub struct MerchantAccount {
    /// The binding, absent until `initialize`.
    pub info: Option<AccountInfo>,
}

impl MerchantAccount {
    /// A freshly deployed binder instance: no binding yet.
    pub fn new() -> (r: MerchantAccount)
        ensures
            r.info is None,
    {
        MerchantAccount { info: None }
    }

    /// Writes the binding, exactly once: the first call stores it with the
    /// ledger timestamp; every later call fails `AlreadyInitialized` and
    /// changes nothing.
    pub fn initialize(
        &mut self,
        merchant: Address,
        manager: Address,
        merchant_id: u64,
        now: u64,
    ) -> (r: Result<(), ContractError>)
        ensures
            old(self).info is Some ==> r == Err::<(), ContractError>(
                ContractError::AlreadyInitialized,
            ) && *final(self) == *old(self),
            old(self).info is None ==> r == Ok::<(), ContractError>(()) && final(self).info
                == Some(AccountInfo { manager, merchant_id, merchant, date_created: now }),
    {
        if self.info.is_some() {
            return Err(ContractError::AlreadyInitialized);
        }
        self.info = Some(AccountInfo { manager, merchant_id, merchant, date_created: now });
        Ok(())
    }

    /// Returns the bound merchant principal, failing `NotInitialized` before
    /// `initialize`.
    pub fn get_merchant(&self) -> (r: Result<Address, ContractError>)
        ensures
            self.info is Some ==> r == Ok::<Address, ContractError>(self.info->0.merchant),
            self.info is None ==> r == Err::<Address, ContractError>(ContractError::NotInitialized),
    {
        match self.info {
            Some(info) => Ok(info.merchant),
            None => Err(ContractError::NotInitialized),
        }
    }
}

} // verus!
