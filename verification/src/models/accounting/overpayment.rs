//! Overpayments.

use vstd::prelude::*;

verus! {

/// Whether an overpayment was received or spent.
#[derive(Clone, Copy, Debug, PartialEq, Eq, Structural)]
pub enum OverpaymentType {
    ReceiveOverpayment,
    SpendOverpayment,
}

impl Default for OverpaymentType {
    fn default() -> (value: OverpaymentType)
        ensures
            value == OverpaymentType::ReceiveOverpayment,
    {
        OverpaymentType::ReceiveOverpayment
    }
}

/// Where an overpayment stands in its life.
#[derive(Clone, Copy, Debug, PartialEq, Eq, Structural)]
pub enum OverpaymentStatus {
    Authorised,
    Paid,
    Voided,
}

} // verus!
