//! Lifecycle events. Every successful mutation appends one record to the
//! per-instance event log; a failed call appends nothing. Each record carries
//! the ledger timestamp of the call that produced it.

use vstd::prelude::*;

use crate::types::Address;

verus! {

#[derive(Clone, Copy, PartialEq, Eq, Structural, Debug)]
pub struct InitalizedEvent {
    pub admin: Address,
    pub timestamp: u64,
}

#[derive(Clone, Copy, PartialEq, Eq, Structural, Debug)]
pub struct TokenAddedEvent {
    pub token: Address,
    pub timestamp: u64,
}

#[derive(Clone, Copy, PartialEq, Eq, Structural, Debug)]
pub struct TokenRemovedEvent {
    pub token: Address,
    pub timestamp: u64,
}

#[derive(Clone, Copy, PartialEq, Eq, Structural, Debug)]
pub struct FeeSetEvent {
    pub token: Address,
    pub fee: i128,
    pub timestamp: u64,
}

#[derive(Clone, Copy, PartialEq, Eq, Structural, Debug)]
pub struct MerchantStatusChangedEvent {
    pub merchant_id: u64,
    pub active: bool,
    pub timestamp: u64,
}

#[derive(Clone, Copy, PartialEq, Eq, Structural, Debug)]
pub struct MerchantVerifiedEvent {
    pub merchant_id: u64,
    pub status: bool,
    pub timestamp: u64,
}

#[derive(Clone, Copy, PartialEq, Eq, Structural, Debug)]
pub struct InvoiceCreatedEvent {
    pub invoice_id: u64,
    pub merchant_address: Address,
    pub amount: i128,
    pub token: Address,
    pub timestamp: u64,
}

/// One record of the event log.
#[derive(Clone, Copy, PartialEq, Eq, Structural, Debug)]
pub enum Event {
    Initialized(InitalizedEvent),
    TokenAdded(TokenAddedEvent),
    TokenRemoved(TokenRemovedEvent),
    FeeSet(FeeSetEvent),
    MerchantStatusChanged(MerchantStatusChangedEvent),
    MerchantVerified(MerchantVerifiedEvent),
    InvoiceCreated(InvoiceCreatedEvent),
}

pub fn publish_initialized_event(log: &mut Vec<Event>, admin: Address, timestamp: u64)
    ensures
        final(log)@ == old(log)@.push(Event::Initialized(InitalizedEvent { admin, timestamp })),
{
    log.push(Event::Initialized(InitalizedEvent { admin, timestamp }));
}

pub fn publish_token_added_event(log: &mut Vec<Event>, token: Address, timestamp: u64)
    ensures
        final(log)@ == old(log)@.push(Event::TokenAdded(TokenAddedEvent { token, timestamp })),
{
    log.push(Event::TokenAdded(TokenAddedEvent { token, timestamp }));
}

pub fn publish_token_removed_event(log: &mut Vec<Event>, token: Address, timestamp: u64)
    ensures
        final(log)@ == old(log)@.push(Event::TokenRemoved(TokenRemovedEvent { token, timestamp })),
{
    log.push(Event::TokenRemoved(TokenRemovedEvent { token, timestamp }));
}

pub fn publish_fee_set_event(log: &mut Vec<Event>, token: Address, fee: i128, timestamp: u64)
    ensures
        final(log)@ == old(log)@.push(Event::FeeSet(FeeSetEvent { token, fee, timestamp })),
{
    log.push(Event::FeeSet(FeeSetEvent { token, fee, timestamp }));
}

pub fn publish_merchant_status_changed_event(
    log: &mut Vec<Event>,
    merchant_id: u64,
    active: bool,
    timestamp: u64,
)
    ensures
        final(log)@ == old(log)@.push(
            Event::MerchantStatusChanged(
                MerchantStatusChangedEvent { merchant_id, active, timestamp },
            ),
        ),
{
    log.push(Event::MerchantStatusChanged(MerchantStatusChangedEvent {
        merchant_id,
        active,
        timestamp,
    }));
}

pub fn publish_merchant_verified_event(
    log: &mut Vec<Event>,
    merchant_id: u64,
    status: bool,
    timestamp: u64,
)
    ensures
        final(log)@ == old(log)@.push(
            Event::MerchantVerified(MerchantVerifiedEvent { merchant_id, status, timestamp }),
        ),
{
    log.push(Event::MerchantVerified(MerchantVerifiedEvent { merchant_id, status, timestamp }));
}

pub fn publish_invoice_created_event(
    log: &mut Vec<Event>,
    invoice_id: u64,
    merchant_address: Address,
    amount: i128,
    token: Address,
    timestamp: u64,
)
    ensures
        final(log)@ == old(log)@.push(
            Event::InvoiceCreated(
                InvoiceCreatedEvent { invoice_id, merchant_address, amount, token, timestamp },
            ),
        ),
{
    log.push(Event::InvoiceCreated(InvoiceCreatedEvent {
        invoice_id,
        merchant_address,
        amount,
        token,
        timestamp,
    }));
}

} // verus!
