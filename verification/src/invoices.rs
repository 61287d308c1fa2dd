//! The invoice ledger: creation and lookup. Invoice ids come from one shared
//! counter across all merchants. Creation checks only that the caller's
//! address is a registered merchant, not that the merchant is active or
//! verified; whether inactive or unverified merchants should be blocked is a
//! policy choice deliberately left to callers.

use vstd::prelude::*;

use crate::errors::ContractError;
use crate::events::{publish_invoice_created_event, Event, InvoiceCreatedEvent};
use crate::merchants::{find_merchant_index, id_of, lemma_id_of_index};
use crate::shade::{Shade, ShadeView};
use crate::types::{Address, Invoice, InvoiceStatus, InvoiceView};

verus! {

impl ShadeView {
    /// The given id names a ledger record.
    pub open spec fn is_known_invoice(self, invoice_id: u64) -> bool {
        1 <= invoice_id <= self.invoices.len()
    }

    /// Transition of `create_invoice`: fails `InvalidAmount` for an amount of
    /// zero or below and `NotAuthorized` for an address with no merchant id;
    /// otherwise allocates the next invoice id, stores the invoice `Pending`
    /// with no payer and no paid date, and logs `InvoiceCreated`.
    pub open spec fn create_invoice(
        self,
        merchant_address: Address,
        description: Seq<char>,
        amount: i128,
        token: Address,
        now: u64,
    ) -> (ShadeView, Result<u64, ContractError>) {
        if amount <= 0 {
            (self, Err(ContractError::InvalidAmount))
        } else if !self.is_registered(merchant_address) {
            (self, Err(ContractError::NotAuthorized))
        } else {
            let id = (self.invoices.len() + 1) as u64;
            let inv = InvoiceView {
                id,
                description,
                amount,
                token,
                status: InvoiceStatus::Pending,
                merchant_id: id_of(self.merchants, merchant_address),
                payer: None,
                date_created: now,
                date_paid: None,
            };
            (
                ShadeView {
                    invoices: self.invoices.push(inv),
                    events: self.events.push(
                        Event::InvoiceCreated(
                            InvoiceCreatedEvent {
                                invoice_id: id,
                                merchant_address,
                                amount,
                                token,
                                timestamp: now,
                            },
                        ),
                    ),
                    ..self
                },
                Ok(id),
            )
        }
    }

    /// Result of `get_invoice`.
    pub open spec fn get_invoice(self, invoice_id: u64) -> Result<InvoiceView, ContractError> {
        if self.is_known_invoice(invoice_id) {
            Ok(self.invoices[invoice_id - 1])
        } else {
            Err(ContractError::InvoiceNotFound)
        }
    }
}

impl Shade {
    /// Records an invoice for the calling merchant — the host verified the
    /// caller's proof of being `merchant_address` — and returns the new id.
    pub fn create_invoice(
        &mut self,
        merchant_address: Address,
        description: String,
        amount: i128,
        token: Address,
        now: u64,
    ) -> (r: Result<u64, ContractError>)
        requires
            old(self).wf(),
            old(self).invoices@.len() < u64::MAX,
        ensures
            final(self).wf(),
            final(self)@ == old(self)@.create_invoice(
                merchant_address,
                description@,
                amount,
                token,
                now,
            ).0,
            r == old(self)@.create_invoice(merchant_address, description@, amount, token, now).1,
    {
        if amount <= 0 {
            return Err(ContractError::InvalidAmount);
        }
        let idx = match find_merchant_index(&self.merchants, merchant_address) {
            Some(i) => i,
            None => {
                return Err(ContractError::NotAuthorized);
            },
        };
        proof {
            lemma_id_of_index(self.merchants@, idx as int, merchant_address);
        }
        let merchant_id = self.merchants[idx].id;
        let invoice_id = self.invoices.len() as u64 + 1;
        let invoice = Invoice {
            id: invoice_id,
            description,
            amount,
            token,
            status: InvoiceStatus::Pending,
            merchant_id,
            payer: None,
            date_created: now,
            date_paid: None,
        };
        self.invoices.push(invoice);
        publish_invoice_created_event(
            &mut self.events,
            invoice_id,
            merchant_address,
            amount,
            token,
            now,
        );
        proof {
            assert(self@ =~~= old(self)@.create_invoice(
                merchant_address,
                description@,
                amount,
                token,
                now,
            ).0);
        }
        Ok(invoice_id)
    }

    /// Pure read: the stored invoice with the given id, failing
    /// `InvoiceNotFound` for an id never assigned.
    pub fn get_invoice(&self, invoice_id: u64) -> (r: Result<&Invoice, ContractError>)
        ensures
            (r matches Ok(inv) && self@.get_invoice(invoice_id) == Ok::<
                InvoiceView,
                ContractError,
            >(inv@)) || (r matches Err(e) && self@.get_invoice(invoice_id) == Err::<
                InvoiceView,
                ContractError,
            >(e)),
    {
        if invoice_id == 0 || invoice_id > self.invoices.len() as u64 {
            return Err(ContractError::InvoiceNotFound);
        }
        Ok(&self.invoices[(invoice_id - 1) as usize])
    }
}

} // verus!
