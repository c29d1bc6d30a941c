//! Contacts.

use crate::models::accounting::common::PaymentTerm;
use vstd::prelude::*;

verus! {

/// Whether a contact is in use.
#[derive(Clone, Copy, Debug, PartialEq, Eq, Structural)]
pub enum ContactStatus {
    Active,
    Archived,
    Gdprrequest,
}

/// A person at a contact.
#[derive(Clone, Debug, PartialEq)]
pub struct ContactPerson {
    pub first_name: String,
    pub last_name: String,
    pub email_address: String,
    pub include_in_emails: Option<bool>,
}

impl Default for ContactPerson {
    fn default() -> (value: ContactPerson)
        ensures
            value.first_name@ == Seq::<char>::empty(),
            value.last_name@ == Seq::<char>::empty(),
            value.email_address@ == Seq::<char>::empty(),
            value.include_in_emails is None,
    {
        ContactPerson {
            first_name: String::new(),
            last_name: String::new(),
            email_address: String::new(),
            include_in_emails: None,
        }
    }
}

/// The default payment terms of a contact.
#[derive(Clone, Debug, PartialEq)]
pub struct PaymentTerms {
    pub bills: Option<PaymentTerm>,
    pub sales: Option<PaymentTerm>,
}

impl Default for PaymentTerms {
    fn default() -> (value: PaymentTerms)
        ensures
            value.bills is None,
            value.sales is None,
    {
        PaymentTerms {
            bills: None,
            sales: None,
        }
    }
}

/// The bank details a contact is paid with in a batch.
#[derive(Clone, Debug, PartialEq)]
pub struct BatchPaymentDetails {
    pub bank_account_number: Option<String>,
    pub particulars: Option<String>,
    pub code: Option<String>,
    pub reference: Option<String>,
}

impl Default for BatchPaymentDetails {
    fn default() -> (value: BatchPaymentDetails)
        ensures
            value.bank_account_number is None,
            value.particulars is None,
            value.code is None,
            value.reference is None,
    {
        BatchPaymentDetails {
            bank_account_number: None,
            particulars: None,
            code: None,
            reference: None,
        }
    }
}

} // verus!
