//! Data model of the merchant-payments core: principals, the one-time
//! configuration record, merchants, fee entries and invoices, together with
//! the ghost views the contracts are stated over.

use vstd::prelude::*;

verus! {

/// A principal or contract identity of the host ledger, reduced to the opaque
/// numeric handle that the core compares for equality. Signature verification
/// for a principal is the host's concern: callers of the mutating operations
/// are assumed to have been authenticated by it.
#[derive(Clone, Copy, PartialEq, Eq, Structural, Debug)]
pub struct Address {
    pub id: u64,
}

impl Address {
    pub fn new(id: u64) -> (r: Address)
        ensures
            r == (Address { id }),
    {
        Address { id }
    }
}

/// The configuration record written exactly once by `initialize`: the single
/// administrator principal and the creation timestamp.
#[derive(Clone, Copy, PartialEq, Eq, Structural, Debug)]
pub struct ContractInfo {
    pub admin: Address,
    pub timestamp: u64,
}

/// One registered merchant. Ids are assigned 1, 2, 3, ... in registration
/// order and records are never deleted, so the record with id `i` sits at
/// index `i - 1` of the registry.
#[derive(Clone, Copy, PartialEq, Eq, Structural, Debug)]
pub struct Merchant {
    pub id: u64,
    pub address: Address,
    pub active: bool,
    pub verified: bool,
    pub date_created: u64,
}

/// One entry of the per-token fee schedule.
#[derive(Clone, Copy, PartialEq, Eq, Structural, Debug)]
pub struct FeeEntry {
    pub token: Address,
    pub fee: i128,
}

/// Settlement state of an invoice. Invoices are created `Pending`; the
/// transitions to the other states belong to settlement logic outside this
/// core's surface.
#[derive(Clone, Copy, PartialEq, Eq, Structural, Debug)]
pub enum InvoiceStatus {
    Pending,
    Paid,
    Cancelled,
}

/// One recorded invoice. Ids are assigned 1, 2, 3, ... across all merchants
/// from one shared counter, and invoices are never deleted.
#[derive(Debug)]
pub struct Invoice {
    pub id: u64,
    pub description: String,
    pub amount: i128,
    pub token: Address,
    pub status: InvoiceStatus,
    pub merchant_id: u64,
    pub payer: Option<Address>,
    pub date_created: u64,
    pub date_paid: Option<u64>,
}

/// Mathematical image of an `Invoice`: the description as a character
/// sequence, every other field as itself.
#[verifier::ext_equal]
pub ghost struct InvoiceView {
    pub id: u64,
    pub description: Seq<char>,
    pub amount: i128,
    pub token: Address,
    pub status: InvoiceStatus,
    pub merchant_id: u64,
    pub payer: Option<Address>,
    pub date_created: u64,
    pub date_paid: Option<u64>,
}

impl View for Invoice {
    type V = InvoiceView;

    open spec fn view(&self) -> InvoiceView {
        InvoiceView {
            id: self.id,
            description: self.description@,
            amount: self.amount,
            token: self.token,
            status: self.status,
            merchant_id: self.merchant_id,
            payer: self.payer,
            date_created: self.date_created,
            date_paid: self.date_paid,
        }
    }
}

} // verus!
