//! The contract state and its mathematical model.
//!
//! The host ledger owns one persistent key-value store per deployed instance;
//! `Shade` gathers what that store holds — the configuration record, the
//! accepted-token list, the fee schedule, the merchant registry, the invoice
//! ledger, the reentrancy flag and the event log — as one explicit value, so
//! that every entry point is a function from state and call arguments to next
//! state and result. A call that fails returns its error code and leaves the
//! state untouched, which gives each entry point the all-or-nothing commit
//! semantics the host otherwise provides by rolling back aborted calls.

use vstd::prelude::*;

use crate::errors::ContractError;
use crate::events::{Event, InitalizedEvent};
use crate::events::publish_initialized_event;
use crate::types::{Address, ContractInfo, FeeEntry, Invoice, InvoiceView, Merchant};

verus! {

/// The full state of one deployed instance of the core.
pub struct Shade {
    /// The reentrancy flag: true exactly while a guarded operation is between
    /// its guard acquisition and its guard release.
    pub locked: bool,
    /// The configuration record, absent until `initialize`.
    pub info: Option<ContractInfo>,
    /// The accepted-token allow-list: an ordered set, no duplicates.
    pub accepted_tokens: Vec<Address>,
    /// The fee schedule: at most one entry per token.
    pub fees: Vec<FeeEntry>,
    /// The merchant registry: the record with id `i` sits at index `i - 1`.
    pub merchants: Vec<Merchant>,
    /// The invoice ledger: the invoice with id `i` sits at index `i - 1`.
    pub invoices: Vec<Invoice>,
    /// The append-only event log.
    pub events: Vec<Event>,
}

/// The model of a `Shade` state: the fee schedule as a map, the description
/// strings as character sequences, everything else as itself.
#[verifier::ext_equal]
pub ghost struct ShadeView {
    pub locked: bool,
    pub info: Option<ContractInfo>,
    pub accepted: Seq<Address>,
    pub fees: Map<Address, i128>,
    pub merchants: Seq<Merchant>,
    pub invoices: Seq<InvoiceView>,
    pub events: Seq<Event>,
}

/// The map that a sequence of fee entries denotes; a later entry for the same
/// token wins, though under `fees_unique` there is at most one.
pub open spec fn fees_map(s: Seq<FeeEntry>) -> Map<Address, i128>
    decreases s.len(),
{
    if s.len() == 0 {
        Map::empty()
    } else {
        fees_map(s.drop_last()).insert(s.last().token, s.last().fee)
    }
}

/// At most one fee entry per token.
pub open spec fn fees_unique(s: Seq<FeeEntry>) -> bool {
    forall|i: int, j: int|
        0 <= i < j < s.len() ==> (#[trigger] s[i]).token != (#[trigger] s[j]).token
}

impl View for Shade {
    type V = ShadeView;

    open spec fn view(&self) -> ShadeView {
        ShadeView {
            locked: self.locked,
            info: self.info,
            accepted: self.accepted_tokens@,
            fees: fees_map(self.fees@),
            merchants: self.merchants@,
            invoices: self.invoices@.map_values(|inv: Invoice| inv@),
            events: self.events@,
        }
    }
}

impl ShadeView {
    /// The configuration record has been written.
    pub open spec fn is_initialized(self) -> bool {
        self.info is Some
    }

    /// The stored admin principal (meaningful once initialized).
    pub open spec fn admin(self) -> Address
        recommends
            self.is_initialized(),
    {
        self.info->0.admin
    }

    /// The single authorization gate of every privileged operation: `None`
    /// when `caller` is the stored admin, otherwise the code the operation
    /// fails with.
    pub open spec fn admin_gate(self, caller: Address) -> Option<ContractError> {
        if !self.is_initialized() {
            Some(ContractError::NotInitialized)
        } else if self.admin() != caller {
            Some(ContractError::NotAuthorized)
        } else {
            None
        }
    }

    /// Invariants of every reachable state: merchant ids are 1, 2, 3, ... in
    /// registry order with one id per address, invoice ids likewise from one
    /// shared counter with positive amounts and a registered owning merchant,
    /// and the accepted-token list holds no duplicates.
    pub open spec fn wf(self) -> bool {
        &&& self.accepted.no_duplicates()
        &&& forall|i: int|
            0 <= i < self.merchants.len() ==> (#[trigger] self.merchants[i]).id == i + 1
        &&& forall|i: int, j: int|
            0 <= i < j < self.merchants.len() ==> (#[trigger] self.merchants[i]).address != (
            #[trigger] self.merchants[j]).address
        &&& forall|i: int|
            0 <= i < self.invoices.len() ==> (#[trigger] self.invoices[i]).id == i + 1
        &&& forall|i: int|
            0 <= i < self.invoices.len() ==> (#[trigger] self.invoices[i]).amount > 0
        &&& forall|i: int|
            0 <= i < self.invoices.len() ==> 1 <= (#[trigger] self.invoices[i]).merchant_id
                <= self.merchants.len()
    }

    /// Transition of `initialize`.
    pub open spec fn initialize(self, admin: Address, now: u64) -> (ShadeView, Result<
        (),
        ContractError,
    >) {
        if self.is_initialized() {
            (self, Err(ContractError::AlreadyInitialized))
        } else {
            (
                ShadeView {
                    info: Some(ContractInfo { admin, timestamp: now }),
                    events: self.events.push(
                        Event::Initialized(InitalizedEvent { admin, timestamp: now }),
                    ),
                    ..self
                },
                Ok(()),
            )
        }
    }

    /// Result of `get_admin`.
    pub open spec fn get_admin(self) -> Result<Address, ContractError> {
        if self.is_initialized() {
            Ok(self.admin())
        } else {
            Err(ContractError::NotInitialized)
        }
    }
}

impl Shade {
    /// State well-formedness: the model invariants plus uniqueness of the fee
    /// entries the map is computed from.
    pub open spec fn wf(self) -> bool {
        &&& self@.wf()
        &&& fees_unique(self.fees@)
    }

    /// A freshly deployed instance: nothing stored, guard unlocked, log empty.
    pub fn new() -> (r: Shade)
        ensures
            r.wf(),
            r@ == (ShadeView {
                locked: false,
                info: None,
                accepted: Seq::<Address>::empty(),
                fees: Map::<Address, i128>::empty(),
                merchants: Seq::<Merchant>::empty(),
                invoices: Seq::<InvoiceView>::empty(),
                events: Seq::<Event>::empty(),
            }),
    {
        let s = Shade {
            locked: false,
            info: None,
            accepted_tokens: Vec::new(),
            fees: Vec::new(),
            merchants: Vec::new(),
            invoices: Vec::new(),
            events: Vec::new(),
        };
        proof {
            assert(s@ =~~= ShadeView {
                locked: false,
                info: None,
                accepted: Seq::<Address>::empty(),
                fees: Map::<Address, i128>::empty(),
                merchants: Seq::<Merchant>::empty(),
                invoices: Seq::<InvoiceView>::empty(),
                events: Seq::<Event>::empty(),
            });
        }
        s
    }

    /// Writes the configuration record, exactly once: the first call stores
    /// the admin principal and the creation timestamp and appends the
    /// `Initialized` event; every later call fails `AlreadyInitialized` and
    /// changes nothing.
    pub fn initialize(&mut self, admin: Address, now: u64) -> (r: Result<(), ContractError>)
        requires
            old(self).wf(),
        ensures
            final(self).wf(),
            final(self)@ == old(self)@.initialize(admin, now).0,
            r == old(self)@.initialize(admin, now).1,
    {
        if self.info.is_some() {
            return Err(ContractError::AlreadyInitialized);
        }
        self.info = Some(ContractInfo { admin, timestamp: now });
        publish_initialized_event(&mut self.events, admin, now);
        proof {
            assert(self@ =~~= old(self)@.initialize(admin, now).0);
        }
        Ok(())
    }

    /// Returns the stored admin principal, failing `NotInitialized` before
    /// `initialize`.
    pub fn get_admin(&self) -> (r: Result<Address, ContractError>)
        ensures
            r == self@.get_admin(),
    {
        match self.info {
            Some(info) => Ok(info.admin),
            None => Err(ContractError::NotInitialized),
        }
    }

    /// The admin assertion used by every privileged operation: `Ok` exactly
    /// when `caller` is the stored admin. The host has already verified that
    /// the caller produced valid proof of being `caller`; this checks the
    /// principal against the stored admin.
    pub fn assert_admin(&self, caller: Address) -> (r: Result<(), ContractError>)
        ensures
            r == (match self@.admin_gate(caller) {
                Some(e) => Err::<(), ContractError>(e),
                None => Ok::<(), ContractError>(()),
            }),
    {
        match self.info {
            Some(info) => {
                if info.admin == caller {
                    Ok(())
                } else {
                    Err(ContractError::NotAuthorized)
                }
            },
            None => Err(ContractError::NotInitialized),
        }
    }
}

} // verus!
