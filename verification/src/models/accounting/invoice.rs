//! Invoices.

use vstd::prelude::*;

verus! {

/// Whether an invoice is a bill or a sales invoice.
#[derive(Clone, Copy, Debug, PartialEq, Eq, Structural)]
pub enum InvoiceType {
    Accpay,
    Accrec,
}

impl Default for InvoiceType {
    fn default() -> (value: InvoiceType)
        ensures
            value == InvoiceType::Accrec,
    {
        InvoiceType::Accrec
    }
}

/// Where an invoice stands in its life.
#[derive(Clone, Copy, Debug, PartialEq, Eq, Structural)]
pub enum InvoiceStatus {
    Draft,
    Submitted,
    Deleted,
    Authorised,
    Paid,
    Voided,
}

/// Where a customer can see a sales invoice online.
#[derive(Clone, Debug, PartialEq)]
pub struct OnlineInvoice {
    pub online_invoice_url: String,
}

} // verus!
