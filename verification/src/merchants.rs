//! The merchant registry: registration, the activation flag and the
//! verification flag. Registration is open to any authenticated principal,
//! once per address; the two flag toggles are admin-gated and always
//! overwrite and log, even when the new value equals the old one — unlike
//! token add and remove, which suppress no-op events.

use vstd::prelude::*;

use crate::errors::ContractError;
use crate::events::{
    publish_merchant_status_changed_event, publish_merchant_verified_event, Event,
    MerchantStatusChangedEvent, MerchantVerifiedEvent,
};
use crate::shade::{Shade, ShadeView};
use crate::types::{Address, Merchant};

verus! {

/// The id of the first registry record for `address`, zero if there is none.
/// Under the registry invariant at most one record per address exists, so
/// this is the id of the record for `address`.
pub open spec fn id_of(merchants: Seq<Merchant>, address: Address) -> u64
    decreases merchants.len(),
{
    if merchants.len() == 0 {
        0
    } else if merchants[0].address == address {
        merchants[0].id
    } else {
        id_of(merchants.drop_first(), address)
    }
}

/// With one record per address, `id_of` answers from any matching index.
pub proof fn lemma_id_of_index(merchants: Seq<Merchant>, i: int, address: Address)
    requires
        forall|p: int, q: int|
            0 <= p < q < merchants.len() ==> (#[trigger] merchants[p]).address != (
            #[trigger] merchants[q]).address,
        0 <= i < merchants.len(),
        merchants[i].address == address,
    ensures
        id_of(merchants, address) == merchants[i].id,
    decreases merchants.len(),
{
    if merchants[0].address == address {
        assert(i == 0);
    } else {
        let rest = merchants.drop_first();
        assert forall|p: int, q: int|
            0 <= p < q < rest.len() implies (#[trigger] rest[p]).address != (
        #[trigger] rest[q]).address by {
            assert(rest[p] == merchants[p + 1]);
            assert(rest[q] == merchants[q + 1]);
        }
        assert(rest[i - 1] == merchants[i]);
        lemma_id_of_index(rest, i - 1, address);
    }
}

impl ShadeView {
    /// Some registry record carries `address`.
    pub open spec fn is_registered(self, address: Address) -> bool {
        exists|i: int|
            0 <= i < self.merchants.len() && (#[trigger] self.merchants[i]).address == address
    }

    /// The given id names a registry record.
    pub open spec fn is_known_merchant(self, merchant_id: u64) -> bool {
        1 <= merchant_id <= self.merchants.len()
    }

    /// Transition of `register_merchant`: allocates the next id — one more
    /// than the current registry size, so ids run 1, 2, 3, ... in
    /// registration order — and stores the record active and unverified;
    /// fails `MerchantAlreadyRegistered` on a second registration for the
    /// same address.
    pub open spec fn register_merchant(self, address: Address, now: u64) -> (
        ShadeView,
        Result<u64, ContractError>,
    ) {
        if self.is_registered(address) {
            (self, Err(ContractError::MerchantAlreadyRegistered))
        } else {
            let id = (self.merchants.len() + 1) as u64;
            (
                ShadeView {
                    merchants: self.merchants.push(
                        Merchant {
                            id,
                            address,
                            active: true,
                            verified: false,
                            date_created: now,
                        },
                    ),
                    ..self
                },
                Ok(id),
            )
        }
    }

    /// Result of `get_merchant`.
    pub open spec fn get_merchant(self, merchant_id: u64) -> Result<Merchant, ContractError> {
        if self.is_known_merchant(merchant_id) {
            Ok(self.merchants[merchant_id - 1])
        } else {
            Err(ContractError::MerchantNotFound)
        }
    }

    /// Transition of `set_merchant_status`: admin-gated; overwrites the
    /// active flag of the named record and logs the change, even when the new
    /// value equals the old one; fails `MerchantNotFound` for id zero or an
    /// id never assigned.
    pub open spec fn set_merchant_status(
        self,
        caller: Address,
        merchant_id: u64,
        active: bool,
        now: u64,
    ) -> (ShadeView, Result<(), ContractError>) {
        if self.admin_gate(caller) is Some {
            (self, Err(self.admin_gate(caller)->0))
        } else if !self.is_known_merchant(merchant_id) {
            (self, Err(ContractError::MerchantNotFound))
        } else {
            let m = self.merchants[merchant_id - 1];
            (
                ShadeView {
                    merchants: self.merchants.update(
                        merchant_id - 1,
                        Merchant { active, ..m },
                    ),
                    events: self.events.push(
                        Event::MerchantStatusChanged(
                            MerchantStatusChangedEvent { merchant_id, active, timestamp: now },
                        ),
                    ),
                    ..self
                },
                Ok(()),
            )
        }
    }

    /// Transition of `verify_merchant`: the same shape as
    /// `set_merchant_status`, toggling the verified flag.
    pub open spec fn verify_merchant(
        self,
        caller: Address,
        merchant_id: u64,
        status: bool,
        now: u64,
    ) -> (ShadeView, Result<(), ContractError>) {
        if self.admin_gate(caller) is Some {
            (self, Err(self.admin_gate(caller)->0))
        } else if !self.is_known_merchant(merchant_id) {
            (self, Err(ContractError::MerchantNotFound))
        } else {
            let m = self.merchants[merchant_id - 1];
            (
                ShadeView {
                    merchants: self.merchants.update(
                        merchant_id - 1,
                        Merchant { verified: status, ..m },
                    ),
                    events: self.events.push(
                        Event::MerchantVerified(
                            MerchantVerifiedEvent { merchant_id, status, timestamp: now },
                        ),
                    ),
                    ..self
                },
                Ok(()),
            )
        }
    }

    /// Result of `is_merchant_active`: unlike `is_accepted_token`, an unknown
    /// id is a caller error, not a false answer.
    pub open spec fn active_of(self, merchant_id: u64) -> Result<bool, ContractError> {
        if self.is_known_merchant(merchant_id) {
            Ok(self.merchants[merchant_id - 1].active)
        } else {
            Err(ContractError::MerchantNotFound)
        }
    }

    /// Result of `is_merchant_verified`.
    pub open spec fn verified_of(self, merchant_id: u64) -> Result<bool, ContractError> {
        if self.is_known_merchant(merchant_id) {
            Ok(self.merchants[merchant_id - 1].verified)
        } else {
            Err(ContractError::MerchantNotFound)
        }
    }
}

/// Index of the registry record for `address`, if one exists.
pub(crate) fn find_merchant_index(merchants: &Vec<Merchant>, address: Address) -> (r: Option<
    usize,
>)
    ensures
        match r {
            Some(i) => i < merchants@.len() && merchants@[i as int].address == address,
            None => forall|j: int|
                0 <= j < merchants@.len() ==> (#[trigger] merchants@[j]).address != address,
        },
{
    let n = merchants.len();
    let mut i: usize = 0;
    while i < n
        invariant
            n == merchants@.len(),
            i <= n,
            forall|j: int| 0 <= j < i ==> (#[trigger] merchants@[j]).address != address,
        decreases n - i,
    {
        if merchants[i].address == address {
            return Some(i);
        }
        i += 1;
    }
    None
}

impl Shade {
    /// Pure read: `address` already maps to a merchant id.
    pub fn is_merchant(&self, merchant: Address) -> (r: bool)
        ensures
            r == self@.is_registered(merchant),
    {
        match find_merchant_index(&self.merchants, merchant) {
            Some(i) => {
                proof {
                    assert(self@.merchants[i as int].address == merchant);
                }
                true
            },
            None => {
                proof {
                    assert forall|j: int|
                        0 <= j < self@.merchants.len() implies (#[trigger] self@.merchants[j]).address
                        != merchant by {
                        assert(self@.merchants[j] == self.merchants@[j]);
                    }
                }
                false
            },
        }
    }

    /// Registers `merchant` — the host verified the caller's proof of being
    /// this principal — allocating the next id and storing the record with
    /// `active` set and `verified` clear; fails `MerchantAlreadyRegistered`
    /// if the address already maps to an id. Returns the new id.
    pub fn register_merchant(&mut self, merchant: Address, now: u64) -> (r: Result<
        u64,
        ContractError,
    >)
        requires
            old(self).wf(),
            old(self).merchants@.len() < u64::MAX,
        ensures
            final(self).wf(),
            final(self)@ == old(self)@.register_merchant(merchant, now).0,
            r == old(self)@.register_merchant(merchant, now).1,
    {
        if self.is_merchant(merchant) {
            return Err(ContractError::MerchantAlreadyRegistered);
        }
        let id = self.merchants.len() as u64 + 1;
        let record = Merchant { id, address: merchant, active: true, verified: false, date_created: now };
        self.merchants.push(record);
        proof {
            let s = old(self).merchants@;
            assert forall|p: int, q: int|
                0 <= p < q < self.merchants@.len() implies (#[trigger] self.merchants@[p]).address
                != (#[trigger] self.merchants@[q]).address by {
                if q == s.len() {
                    assert(self.merchants@[p] == s[p]);
                }
            }
            assert(self@ =~~= old(self)@.register_merchant(merchant, now).0);
        }
        Ok(id)
    }

    /// Pure read: the registry record for `merchant_id`, failing
    /// `MerchantNotFound` for id zero or an id never assigned.
    pub fn get_merchant(&self, merchant_id: u64) -> (r: Result<Merchant, ContractError>)
        ensures
            r == self@.get_merchant(merchant_id),
    {
        if merchant_id == 0 || merchant_id > self.merchants.len() as u64 {
            return Err(ContractError::MerchantNotFound);
        }
        Ok(self.merchants[(merchant_id - 1) as usize])
    }

    /// Admin-gated: overwrites the active flag of the named record — even
    /// when unchanged — and logs `MerchantStatusChanged`; fails
    /// `MerchantNotFound` for id zero or an id never assigned.
    pub fn set_merchant_status(
        &mut self,
        caller: Address,
        merchant_id: u64,
        active: bool,
        now: u64,
    ) -> (r: Result<(), ContractError>)
        requires
            old(self).wf(),
        ensures
            final(self).wf(),
            final(self)@ == old(self)@.set_merchant_status(caller, merchant_id, active, now).0,
            r == old(self)@.set_merchant_status(caller, merchant_id, active, now).1,
    {
        if let Err(e) = self.assert_admin(caller) {
            return Err(e);
        }
        if merchant_id == 0 || merchant_id > self.merchants.len() as u64 {
            return Err(ContractError::MerchantNotFound);
        }
        let i = (merchant_id - 1) as usize;
        let m = self.merchants[i];
        self.merchants.set(
            i,
            Merchant {
                id: m.id,
                address: m.address,
                active,
                verified: m.verified,
                date_created: m.date_created,
            },
        );
        publish_merchant_status_changed_event(&mut self.events, merchant_id, active, now);
        proof {
            assert(self@ =~~= old(self)@.set_merchant_status(caller, merchant_id, active, now).0);
        }
        Ok(())
    }

    /// Admin-gated: overwrites the verified flag of the named record — even
    /// when unchanged — and logs `MerchantVerified`; fails `MerchantNotFound`
    /// for id zero or an id never assigned.
    pub fn verify_merchant(
        &mut self,
        caller: Address,
        merchant_id: u64,
        status: bool,
        now: u64,
    ) -> (r: Result<(), ContractError>)
        requires
            old(self).wf(),
        ensures
            final(self).wf(),
            final(self)@ == old(self)@.verify_merchant(caller, merchant_id, status, now).0,
            r == old(self)@.verify_merchant(caller, merchant_id, status, now).1,
    {
        if let Err(e) = self.assert_admin(caller) {
            return Err(e);
        }
        if merchant_id == 0 || merchant_id > self.merchants.len() as u64 {
            return Err(ContractError::MerchantNotFound);
        }
        let i = (merchant_id - 1) as usize;
        let m = self.merchants[i];
        self.merchants.set(
            i,
            Merchant {
                id: m.id,
                address: m.address,
                active: m.active,
                verified: status,
                date_created: m.date_created,
            },
        );
        publish_merchant_verified_event(&mut self.events, merchant_id, status, now);
        proof {
            assert(self@ =~~= old(self)@.verify_merchant(caller, merchant_id, status, now).0);
        }
        Ok(())
    }

    /// Pure read: the active flag of the named record, failing
    /// `MerchantNotFound` for id zero or an id never assigned.
    pub fn is_merchant_active(&self, merchant_id: u64) -> (r: Result<bool, ContractError>)
        ensures
            r == self@.active_of(merchant_id),
    {
        if merchant_id == 0 || merchant_id > self.merchants.len() as u64 {
            return Err(ContractError::MerchantNotFound);
        }
        Ok(self.merchants[(merchant_id - 1) as usize].active)
    }

    /// Pure read: the verified flag of the named record, failing
    /// `MerchantNotFound` for id zero or an id never assigned.
    pub fn is_merchant_verified(&self, merchant_id: u64) -> (r: Result<bool, ContractError>)
        ensures
            r == self@.verified_of(merchant_id),
    {
        if merchant_id == 0 || merchant_id > self.merchants.len() as u64 {
            return Err(ContractError::MerchantNotFound);
        }
        Ok(self.merchants[(merchant_id - 1) as usize].verified)
    }
}

} // verus!
