//! Payments.

use vstd::prelude::*;

verus! {

/// What a payment pays.
#[derive(Clone, Copy, Debug, PartialEq, Eq, Structural)]
pub enum PaymentType {
    Accrecpayment,
    Accpaypayment,
    Arcreditpayment,
    Apcreditpayment,
    Aroverpaymentpayment,
    Arprepaymentpayment,
    Apprepaymentpayment,
    Apoverpaymentpayment,
}

/// Whether a payment stands.
#[derive(Clone, Copy, Debug, PartialEq, Eq, Structural)]
pub enum PaymentStatus {
    Authorised,
    Deleted,
}

} // verus!
