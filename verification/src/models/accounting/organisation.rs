//! The organisation.

use crate::models::accounting::common::PaymentTerm;
use vstd::prelude::*;

verus! {

/// The default payment terms of the organisation.
#[derive(Clone, Debug, PartialEq)]
pub struct OrganisationPaymentTerms {
    pub bills: Option<PaymentTerm>,
    pub sales: Option<PaymentTerm>,
}

/// Something the organisation may or may not do.
#[derive(Clone, Debug, PartialEq)]
pub struct OrganisationAction {
    pub name: String,
    pub status: String,
}

} // verus!
